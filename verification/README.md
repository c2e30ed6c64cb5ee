# soroban_loyalty

A loyalty programme of three contracts, written and proved in Verus:

- the **token**: balances, allowances, roles and a pause switch;
- the **campaigns** that merchants run, and the upgrades of their contract,
  which need the signatures of several admins and 48 hours of waiting;
- the **rewards** that users claim from campaigns, once each, and redeem.

## Layout

`src/` is the verified library.

| module | what it holds |
| --- | --- |
| `token`, `campaign`, `rewards` | one contract each: its ledger entries, its calls, and what each call does |
| `token_laws`, `campaign_laws`, `rewards_laws` | what holds of one contract whatever is invoked, and of a claim across all three |
| `program_laws` | what holds along every history of invocations |
| `invocation` | who is invoked, when, authorized by whom, and what was published |
| `error` | why an invocation is refused |
| `table` | the map in which ledger entries are kept |
| `host` | the host values that are used, with what is believed of them |

Every contract has a ghost `State` with three functions: `refusal` says for which
reason a call is refused, `after` what the entries are once it was carried out,
and `event` what it publishes. The contracts of the executable methods, and all
laws, speak of these.

`app/` holds the contract shells: they load the entries that a call's footprint
names, ask the host for the authorization, let the library decide, and store and
publish the outcome. Each of `app/token.rs`, `app/campaign.rs` and
`app/rewards.rs` is one deployable contract.

`tests/` runs the library on concrete values, with the real host.
