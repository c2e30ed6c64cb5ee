use soroban_loyalty::address::Address;
use soroban_loyalty::error::Error;
use soroban_loyalty::invocation::{Event as AnyEvent, Invocation, Published};
use soroban_loyalty::token::{Call, DataKey, Event, Role, TokenContract};
use soroban_sdk::Env;

const CONTRACT: Address = Address { id: 1 };

/// A token whose invocations every generated account authorizes.
struct Client {
    host: Env,
    token: TokenContract,
    accounts: Vec<Address>,
    events: Vec<Published>,
}

impl Client {
    fn blank() -> Client {
        Client {
            host: Env::default(),
            token: TokenContract::new(),
            accounts: Vec::new(),
            events: Vec::new(),
        }
    }

    fn generate(&mut self) -> Address {
        let account = Address { id: 100 + self.accounts.len() as u64 };
        self.accounts.push(account);
        account
    }

    fn signed_by(&mut self, signers: Vec<Address>, call: Call) -> Result<(), Error> {
        let mut invocation = Invocation::new(self.host.clone(), CONTRACT, 0, signers);
        let result = self.token.execute(&mut invocation, call);
        self.events.append(&mut invocation.events);
        result
    }

    fn call(&mut self, call: Call) -> Result<(), Error> {
        let signers = self.accounts.clone();
        self.signed_by(signers, call)
    }

    fn event(&self, at: usize) -> Event {
        assert_eq!(self.events[at].contract, CONTRACT);
        match &self.events[at].event {
            AnyEvent::Token(event) => *event,
            _ => panic!("not an event of the token"),
        }
    }

    fn last_event(&self) -> Event {
        self.event(self.events.len() - 1)
    }

    fn balances(&self, accounts: &[Address]) -> Vec<i128> {
        accounts.iter().map(|account| self.token.balance(*account)).collect()
    }
}

fn ok<T>(result: Result<T, Error>) -> T {
    match result {
        Ok(value) => value,
        Err(error) => panic!("{}", error.message()),
    }
}

fn setup() -> (Client, Address) {
    let mut client = Client::blank();
    let admin = client.generate();
    ok(client.call(Call::Initialize {
        admin,
        name: b"LoyaltyToken".to_vec(),
        symbol: b"LYT".to_vec(),
        decimals: 7,
    }));
    (client, admin)
}

fn mint(client: &mut Client, minter: Address, to: Address, amount: i128) {
    ok(client.call(Call::Mint { minter, to, amount }));
}

#[test]
fn test_initial_roles_granted_to_admin() {
    let (client, admin) = setup();
    assert!(client.token.has_role_view(Role::Admin, admin));
    assert!(client.token.has_role_view(Role::Minter, admin));
    assert!(client.token.has_role_view(Role::Pauser, admin));
}

#[test]
fn test_grant_role_emits_event() {
    let (mut client, admin) = setup();
    let minter = client.generate();
    ok(client.call(Call::GrantRole { admin, role: Role::Minter, account: minter }));
    assert!(client.token.has_role_view(Role::Minter, minter));
    assert_eq!(
        client.last_event(),
        Event::RoleGranted { role: Role::Minter, admin, account: minter }
    );
    assert_eq!(client.last_event().topic(), "ROLE_GRT");
}

#[test]
fn test_revoke_role_emits_event() {
    let (mut client, admin) = setup();
    let minter = client.generate();
    ok(client.call(Call::GrantRole { admin, role: Role::Minter, account: minter }));
    ok(client.call(Call::RevokeRole { admin, role: Role::Minter, account: minter }));
    assert!(!client.token.has_role_view(Role::Minter, minter));
    assert_eq!(
        client.last_event(),
        Event::RoleRevoked { role: Role::Minter, admin, account: minter }
    );
    assert_eq!(client.last_event().topic(), "ROLE_REV");
}

#[test]
#[should_panic(expected = "missing role")]
fn test_grant_role_requires_admin() {
    let (mut client, _admin) = setup();
    let non_admin = client.generate();
    let target = client.generate();
    ok(client.call(Call::GrantRole { admin: non_admin, role: Role::Minter, account: target }));
}

#[test]
#[should_panic(expected = "missing role")]
fn test_revoke_role_requires_admin() {
    let (mut client, admin) = setup();
    let non_admin = client.generate();
    ok(client.call(Call::RevokeRole { admin: non_admin, role: Role::Minter, account: admin }));
}

#[test]
fn test_mint_with_minter_role() {
    let (mut client, admin) = setup();
    let user = client.generate();
    mint(&mut client, admin, user, 1000);
    assert_eq!(client.token.balance(user), 1000);
    assert_eq!(client.token.total_supply_view(), 1000);
}

#[test]
fn test_mint_by_granted_minter() {
    let (mut client, admin) = setup();
    let minter = client.generate();
    let user = client.generate();
    ok(client.call(Call::GrantRole { admin, role: Role::Minter, account: minter }));
    mint(&mut client, minter, user, 500);
    assert_eq!(client.token.balance(user), 500);
}

#[test]
#[should_panic(expected = "missing role")]
fn test_mint_without_minter_role_rejected() {
    let (mut client, _admin) = setup();
    let non_minter = client.generate();
    let user = client.generate();
    mint(&mut client, non_minter, user, 100);
}

#[test]
#[should_panic(expected = "missing role")]
fn test_mint_after_minter_role_revoked() {
    let (mut client, admin) = setup();
    let minter = client.generate();
    let user = client.generate();
    ok(client.call(Call::GrantRole { admin, role: Role::Minter, account: minter }));
    ok(client.call(Call::RevokeRole { admin, role: Role::Minter, account: minter }));
    mint(&mut client, minter, user, 100);
}

#[test]
fn test_pause_and_unpause() {
    let (mut client, admin) = setup();
    assert!(!client.token.is_paused());
    ok(client.call(Call::Pause { pauser: admin }));
    assert!(client.token.is_paused());
    ok(client.call(Call::Unpause { pauser: admin }));
    assert!(!client.token.is_paused());
}

#[test]
#[should_panic(expected = "contract is paused")]
fn test_mint_blocked_when_paused() {
    let (mut client, admin) = setup();
    let user = client.generate();
    ok(client.call(Call::Pause { pauser: admin }));
    mint(&mut client, admin, user, 100);
}

#[test]
#[should_panic(expected = "contract is paused")]
fn test_transfer_blocked_when_paused() {
    let (mut client, admin) = setup();
    let alice = client.generate();
    let bob = client.generate();
    mint(&mut client, admin, alice, 500);
    ok(client.call(Call::Pause { pauser: admin }));
    ok(client.call(Call::Transfer { from: alice, to: bob, amount: 100 }));
}

#[test]
#[should_panic(expected = "missing role")]
fn test_pause_requires_pauser_role() {
    let (mut client, _admin) = setup();
    let non_pauser = client.generate();
    ok(client.call(Call::Pause { pauser: non_pauser }));
}

#[test]
fn test_pauser_role_can_be_granted_separately() {
    let (mut client, admin) = setup();
    let pauser = client.generate();
    ok(client.call(Call::GrantRole { admin, role: Role::Pauser, account: pauser }));
    ok(client.call(Call::Pause { pauser }));
    assert!(client.token.is_paused());
}

#[test]
fn test_transfer() {
    let (mut client, admin) = setup();
    let alice = client.generate();
    let bob = client.generate();
    mint(&mut client, admin, alice, 500);
    ok(client.call(Call::Transfer { from: alice, to: bob, amount: 200 }));
    assert_eq!(client.token.balance(alice), 300);
    assert_eq!(client.token.balance(bob), 200);
    assert_eq!(client.last_event(), Event::Transfer { from: alice, to: bob, amount: 200 });
    assert_eq!(client.last_event().topic(), "TRANSFER");
}

#[test]
fn test_burn() {
    let (mut client, admin) = setup();
    let user = client.generate();
    mint(&mut client, admin, user, 300);
    ok(client.call(Call::Burn { from: user, amount: 100 }));
    assert_eq!(client.token.balance(user), 200);
    assert_eq!(client.token.total_supply_view(), 200);
}

#[test]
#[should_panic(expected = "insufficient balance")]
fn test_burn_insufficient() {
    let (mut client, admin) = setup();
    let user = client.generate();
    mint(&mut client, admin, user, 50);
    ok(client.call(Call::Burn { from: user, amount: 100 }));
}

#[test]
#[should_panic(expected = "insufficient balance")]
fn test_transfer_insufficient() {
    let (mut client, admin) = setup();
    let alice = client.generate();
    let bob = client.generate();
    mint(&mut client, admin, alice, 50);
    ok(client.call(Call::Transfer { from: alice, to: bob, amount: 100 }));
}

#[test]
fn test_approve_and_allowance() {
    let (mut client, _admin) = setup();
    let alice = client.generate();
    let spender = client.generate();
    ok(client.call(Call::Approve { owner: alice, spender, amount: 500 }));
    assert_eq!(client.token.allowance(alice, spender), 500);
    assert_eq!(client.token.allowance(spender, alice), 0);
    assert_eq!(client.last_event(), Event::Approval { owner: alice, spender, amount: 500 });
    assert_eq!(client.last_event().topic(), "APPROVAL");
}

#[test]
fn test_transfer_from_within_allowance() {
    let (mut client, admin) = setup();
    let alice = client.generate();
    let bob = client.generate();
    let spender = client.generate();
    mint(&mut client, admin, alice, 1000);
    ok(client.call(Call::Approve { owner: alice, spender, amount: 300 }));
    ok(client.call(Call::TransferFrom { spender, from: alice, to: bob, amount: 200 }));
    assert_eq!(client.token.balance(alice), 800);
    assert_eq!(client.token.balance(bob), 200);
    assert_eq!(client.token.allowance(alice, spender), 100);
}

#[test]
#[should_panic(expected = "allowance exceeded")]
fn test_transfer_from_exceeds_allowance() {
    let (mut client, admin) = setup();
    let alice = client.generate();
    let bob = client.generate();
    let spender = client.generate();
    mint(&mut client, admin, alice, 1000);
    ok(client.call(Call::Approve { owner: alice, spender, amount: 100 }));
    ok(client.call(Call::TransferFrom { spender, from: alice, to: bob, amount: 200 }));
}

#[test]
fn test_set_admin_transfers_all_roles() {
    let (mut client, admin) = setup();
    let new_admin = client.generate();
    ok(client.call(Call::SetAdmin { caller: admin, new_admin }));
    assert!(client.token.has_role_view(Role::Admin, new_admin));
    assert!(client.token.has_role_view(Role::Minter, new_admin));
    assert!(client.token.has_role_view(Role::Pauser, new_admin));
    assert!(!client.token.has_role_view(Role::Admin, admin));
    assert!(!client.token.has_role_view(Role::Minter, admin));
    assert!(!client.token.has_role_view(Role::Pauser, admin));
    assert_eq!(
        client.last_event(),
        Event::RoleGranted { role: Role::Admin, admin, account: new_admin }
    );
}

#[test]
fn test_mint_emits_event() {
    let (mut client, admin) = setup();
    let user = client.generate();
    mint(&mut client, admin, user, 1000);
    assert_eq!(client.events.len(), 1);
    assert_eq!(client.event(0), Event::Mint { to: user, amount: 1000, supply: 1000 });
    assert_eq!(client.event(0).topic(), "MINT");
    assert_eq!(client.event(0).label(), Some("to"));
}

#[test]
fn test_burn_emits_event() {
    let (mut client, admin) = setup();
    let user = client.generate();
    mint(&mut client, admin, user, 300);
    ok(client.call(Call::Burn { from: user, amount: 100 }));
    assert_eq!(client.events.len(), 2);
    assert_eq!(client.event(1), Event::Burn { from: user, amount: 100, supply: 200 });
    assert_eq!(client.event(1).topic(), "BURN");
    assert_eq!(client.event(1).label(), Some("from"));
}

#[test]
fn names_are_those_of_initialization() {
    let (client, _admin) = setup();
    assert_eq!(client.token.name(), Ok(&b"LoyaltyToken".to_vec()));
    assert_eq!(client.token.symbol(), Ok(&b"LYT".to_vec()));
    assert_eq!(client.token.decimals(), Ok(7));
    assert_eq!(client.token.total_supply_view(), 0);
}

#[test]
fn blank_token_answers_with_defaults() {
    let mut client = Client::blank();
    let user = client.generate();
    assert_eq!(client.token.name(), Err(Error::NotInitialized));
    assert_eq!(client.token.symbol(), Err(Error::NotInitialized));
    assert_eq!(client.token.decimals(), Err(Error::NotInitialized));
    assert_eq!(client.token.balance(user), 0);
    assert_eq!(client.token.allowance(user, user), 0);
    assert_eq!(client.token.total_supply_view(), 0);
    assert!(!client.token.is_paused());
    assert!(!client.token.has_role_view(Role::Admin, user));
    assert_eq!(client.token.admin_address(), Err(Error::UseHasRoleView));
}

#[test]
fn initializes_once() {
    let (mut client, _admin) = setup();
    let other = client.generate();
    let result = client.call(Call::Initialize {
        admin: other,
        name: b"Other".to_vec(),
        symbol: b"OTH".to_vec(),
        decimals: 2,
    });
    assert_eq!(result, Err(Error::AlreadyInitialized));
    assert!(!client.token.has_role_view(Role::Admin, other));
    assert_eq!(client.token.symbol(), Ok(&b"LYT".to_vec()));
}

#[test]
fn token_calls_need_their_author() {
    let (mut client, admin) = setup();
    let user = client.generate();
    mint(&mut client, admin, user, 100);
    let before = client.events.len();
    let calls = vec![
        Call::GrantRole { admin, role: Role::Minter, account: user },
        Call::RevokeRole { admin, role: Role::Minter, account: admin },
        Call::Pause { pauser: admin },
        Call::Unpause { pauser: admin },
        Call::Mint { minter: admin, to: user, amount: 1 },
        Call::Burn { from: user, amount: 1 },
        Call::Transfer { from: user, to: admin, amount: 1 },
        Call::Approve { owner: user, spender: admin, amount: 1 },
        Call::TransferFrom { spender: admin, from: user, to: admin, amount: 1 },
        Call::SetAdmin { caller: admin, new_admin: user },
    ];
    for call in calls {
        assert!(call.signer().is_some());
        assert_eq!(client.signed_by(Vec::new(), call), Err(Error::NotAuthorized));
    }
    assert_eq!(client.events.len(), before);
    assert_eq!(client.balances(&[user, admin]), vec![100, 0]);
}

#[test]
fn amounts_are_checked() {
    let (mut client, admin) = setup();
    let user = client.generate();
    mint(&mut client, admin, user, 100);
    for amount in [0, -1, i128::MIN] {
        assert_eq!(
            client.call(Call::Mint { minter: admin, to: user, amount }),
            Err(Error::AmountNotPositive)
        );
        assert_eq!(client.call(Call::Burn { from: user, amount }), Err(Error::AmountNotPositive));
        assert_eq!(
            client.call(Call::Transfer { from: user, to: admin, amount }),
            Err(Error::AmountNotPositive)
        );
        assert_eq!(
            client.call(Call::TransferFrom { spender: admin, from: user, to: admin, amount }),
            Err(Error::AmountNotPositive)
        );
    }
    assert_eq!(
        client.call(Call::Approve { owner: user, spender: admin, amount: -1 }),
        Err(Error::AmountNegative)
    );
    ok(client.call(Call::Approve { owner: user, spender: admin, amount: 0 }));
    assert_eq!(client.balances(&[user, admin]), vec![100, 0]);
}

#[test]
fn mint_refuses_what_its_type_cannot_hold() {
    let (mut client, admin) = setup();
    let alice = client.generate();
    let bob = client.generate();
    mint(&mut client, admin, alice, i128::MAX);
    assert_eq!(
        client.call(Call::Mint { minter: admin, to: alice, amount: 1 }),
        Err(Error::Overflow)
    );
    assert_eq!(
        client.call(Call::Mint { minter: admin, to: bob, amount: 1 }),
        Err(Error::Overflow)
    );
    assert_eq!(client.token.total_supply_view(), i128::MAX);
    assert_eq!(client.balances(&[alice, bob]), vec![i128::MAX, 0]);
}

#[test]
fn transfers_refuse_what_a_balance_cannot_hold() {
    let (mut client, _admin) = setup();
    let alice = client.generate();
    let bob = client.generate();
    client.token.balances.set(alice, 10);
    client.token.balances.set(bob, i128::MAX - 3);
    assert_eq!(
        client.call(Call::Transfer { from: alice, to: bob, amount: 4 }),
        Err(Error::Overflow)
    );
    ok(client.call(Call::Approve { owner: alice, spender: bob, amount: 10 }));
    assert_eq!(
        client.call(Call::TransferFrom { spender: bob, from: alice, to: bob, amount: 4 }),
        Err(Error::Overflow)
    );
    assert_eq!(client.token.allowance(alice, bob), 10);
    ok(client.call(Call::Transfer { from: alice, to: bob, amount: 3 }));
    assert_eq!(client.balances(&[alice, bob]), vec![7, i128::MAX]);
}

#[test]
fn burn_refuses_a_supply_below_its_type() {
    let (mut client, _admin) = setup();
    let user = client.generate();
    client.token.balances.set(user, 10);
    client.token.total_supply = Some(i128::MIN + 5);
    assert_eq!(client.call(Call::Burn { from: user, amount: 6 }), Err(Error::Underflow));
    ok(client.call(Call::Burn { from: user, amount: 5 }));
    assert_eq!(client.token.total_supply_view(), i128::MIN);
}

#[test]
fn allowance_does_not_replace_a_balance() {
    let (mut client, admin) = setup();
    let alice = client.generate();
    let spender = client.generate();
    mint(&mut client, admin, alice, 50);
    ok(client.call(Call::Approve { owner: alice, spender, amount: 100 }));
    assert_eq!(
        client.call(Call::TransferFrom { spender, from: alice, to: spender, amount: 60 }),
        Err(Error::InsufficientBalance)
    );
    assert_eq!(client.token.allowance(alice, spender), 100);
}

#[test]
fn transfer_to_oneself_credits_the_account() {
    let (mut client, admin) = setup();
    let alice = client.generate();
    mint(&mut client, admin, alice, 100);
    ok(client.call(Call::Transfer { from: alice, to: alice, amount: 40 }));
    assert_eq!(client.token.balance(alice), 140);
    assert_eq!(client.token.total_supply_view(), 100);
}

#[test]
fn transfer_by_allowance_to_the_owner_changes_no_balance() {
    let (mut client, admin) = setup();
    let alice = client.generate();
    let spender = client.generate();
    mint(&mut client, admin, alice, 100);
    ok(client.call(Call::Approve { owner: alice, spender, amount: 50 }));
    ok(client.call(Call::TransferFrom { spender, from: alice, to: alice, amount: 40 }));
    assert_eq!(client.token.balance(alice), 100);
    assert_eq!(client.token.allowance(alice, spender), 10);
}

#[test]
fn handing_the_token_to_oneself_keeps_all_roles() {
    let (mut client, admin) = setup();
    ok(client.call(Call::RevokeRole { admin, role: Role::Minter, account: admin }));
    ok(client.call(Call::SetAdmin { caller: admin, new_admin: admin }));
    for role in [Role::Admin, Role::Minter, Role::Pauser] {
        assert!(client.token.has_role_view(role, admin));
    }
    assert_eq!(client.token.admin_address(), Ok(admin));
    ok(client.call(Call::Pause { pauser: admin }));
}

#[test]
fn the_admin_address_is_the_first_admin() {
    let (mut client, admin) = setup();
    assert_eq!(client.token.admin_address(), Ok(admin));
    let second = client.generate();
    let third = client.generate();
    ok(client.call(Call::GrantRole { admin, role: Role::Minter, account: third }));
    assert_eq!(client.token.admins, vec![admin]);
    ok(client.call(Call::GrantRole { admin, role: Role::Admin, account: second }));
    ok(client.call(Call::GrantRole { admin, role: Role::Admin, account: admin }));
    assert_eq!(client.token.admins, vec![admin, second]);
    assert_eq!(client.token.admin_address(), Ok(admin));
    ok(client.call(Call::SetAdmin { caller: admin, new_admin: third }));
    assert_eq!(client.token.admins, vec![second, third]);
    assert_eq!(client.token.admin_address(), Ok(second));
    ok(client.call(Call::SetAdmin { caller: second, new_admin: second }));
    assert_eq!(client.token.admin_address(), Ok(third));
    ok(client.call(Call::RevokeRole { admin: third, role: Role::Minter, account: third }));
    ok(client.call(Call::RevokeRole { admin: second, role: Role::Admin, account: third }));
    assert_eq!(client.token.admin_address(), Ok(second));
    ok(client.call(Call::RevokeRole { admin: second, role: Role::Admin, account: second }));
    assert_eq!(client.token.admin_address(), Err(Error::UseHasRoleView));
}

#[test]
fn token_events_are_labelled() {
    let a = Address { id: 1 };
    let labels = [
        (Event::Mint { to: a, amount: 1, supply: 1 }, Some("to")),
        (Event::Burn { from: a, amount: 1, supply: 1 }, Some("from")),
        (Event::Transfer { from: a, to: a, amount: 1 }, Some("from")),
        (Event::Approval { owner: a, spender: a, amount: 1 }, Some("owner")),
        (Event::RoleGranted { role: Role::Admin, admin: a, account: a }, None),
        (Event::RoleRevoked { role: Role::Admin, admin: a, account: a }, None),
        (Event::Paused { pauser: a }, None),
        (Event::Unpaused { pauser: a }, None),
    ];
    for (event, label) in labels {
        assert_eq!(event.label(), label);
    }
}

#[test]
fn supply_is_the_sum_of_balances() {
    let (mut client, admin) = setup();
    let alice = client.generate();
    let bob = client.generate();
    let carol = client.generate();
    let all = [admin, alice, bob, carol];
    mint(&mut client, admin, alice, 1000);
    mint(&mut client, admin, bob, 70);
    ok(client.call(Call::Transfer { from: alice, to: carol, amount: 333 }));
    ok(client.call(Call::Burn { from: bob, amount: 20 }));
    ok(client.call(Call::Approve { owner: carol, spender: bob, amount: 300 }));
    ok(client.call(Call::TransferFrom { spender: bob, from: carol, to: admin, amount: 250 }));
    assert_eq!(client.balances(&all), vec![250, 667, 50, 83]);
    assert_eq!(client.balances(&all).iter().sum::<i128>(), client.token.total_supply_view());
}

#[test]
fn nothing_moves_while_paused_but_allowances_do() {
    let (mut client, admin) = setup();
    let alice = client.generate();
    let bob = client.generate();
    mint(&mut client, admin, alice, 100);
    ok(client.call(Call::Pause { pauser: admin }));
    assert_eq!(client.last_event().topic(), "PAUSED");
    ok(client.call(Call::Approve { owner: alice, spender: bob, amount: 10 }));
    assert_eq!(client.call(Call::Burn { from: alice, amount: 1 }), Err(Error::ContractPaused));
    assert_eq!(
        client.call(Call::TransferFrom { spender: bob, from: alice, to: bob, amount: 1 }),
        Err(Error::ContractPaused)
    );
    ok(client.call(Call::Unpause { pauser: admin }));
    assert_eq!(client.last_event().topic(), "UNPAUSED");
    ok(client.call(Call::TransferFrom { spender: bob, from: alice, to: bob, amount: 1 }));
    assert_eq!(client.balances(&[alice, bob]), vec![99, 1]);
}

#[test]
fn burn_undoes_mint_and_transfer_back_undoes_transfer() {
    let (mut client, admin) = setup();
    let alice = client.generate();
    let bob = client.generate();
    mint(&mut client, admin, alice, 10);
    mint(&mut client, admin, alice, 32);
    ok(client.call(Call::Burn { from: alice, amount: 32 }));
    assert_eq!(client.token.balance(alice), 10);
    assert_eq!(client.token.total_supply_view(), 10);
    ok(client.call(Call::Transfer { from: alice, to: bob, amount: 9 }));
    ok(client.call(Call::Transfer { from: bob, to: alice, amount: 9 }));
    assert_eq!(client.balances(&[alice, bob]), vec![10, 0]);
}

#[test]
fn token_footprints_suffice() {
    let (mut client, admin) = setup();
    let alice = client.generate();
    let bob = client.generate();
    mint(&mut client, admin, alice, 100);
    let call = Call::Transfer { from: alice, to: bob, amount: 30 };
    assert_eq!(
        call.footprint(),
        vec![DataKey::Paused, DataKey::Balance(alice), DataKey::Balance(bob)]
    );
    let mut partial = TokenContract::new();
    partial.paused = Some(false);
    partial.balances.set(alice, 100);
    let mut invocation = Invocation::new(client.host.clone(), CONTRACT, 0, vec![alice]);
    assert_eq!(partial.execute(&mut invocation, call), Ok(()));
    ok(client.call(Call::Transfer { from: alice, to: bob, amount: 30 }));
    assert_eq!(partial.balance(alice), client.token.balance(alice));
    assert_eq!(partial.balance(bob), client.token.balance(bob));
}

#[test]
fn token_footprints_name_the_entries() {
    let a = Address { id: 1 };
    let b = Address { id: 2 };
    let c = Address { id: 3 };
    assert_eq!(
        Call::Mint { minter: a, to: b, amount: 1 }.footprint(),
        vec![
            DataKey::RoleMember(Role::Minter, a),
            DataKey::Paused,
            DataKey::Balance(b),
            DataKey::TotalSupply
        ]
    );
    assert_eq!(
        Call::TransferFrom { spender: a, from: b, to: c, amount: 1 }.footprint(),
        vec![
            DataKey::Paused,
            DataKey::Allowance(b, a),
            DataKey::Balance(b),
            DataKey::Balance(c)
        ]
    );
    assert_eq!(
        Call::Approve { owner: a, spender: b, amount: 1 }.footprint(),
        vec![DataKey::Allowance(a, b)]
    );
    assert_eq!(Call::SetAdmin { caller: a, new_admin: b }.footprint().len(), 7);
    assert_eq!(Call::Burn { from: a, amount: 1 }.signer(), Some(a));
    let call = Call::Initialize { admin: a, name: Vec::new(), symbol: Vec::new(), decimals: 0 };
    assert_eq!(call.footprint().len(), 9);
    assert_eq!(
        Call::GrantRole { admin: a, role: Role::Admin, account: b }.footprint(),
        vec![
            DataKey::RoleMember(Role::Admin, a),
            DataKey::RoleMember(Role::Admin, b),
            DataKey::Admins
        ]
    );
    assert_eq!(
        Call::RevokeRole { admin: a, role: Role::Pauser, account: b }.footprint(),
        vec![DataKey::RoleMember(Role::Admin, a), DataKey::RoleMember(Role::Pauser, b)]
    );
    assert_eq!(call.signer(), None);
}

#[test]
fn token_methods_do_what_calls_do() {
    let host = Env::default();
    let admin = Address { id: 7 };
    let user = Address { id: 8 };
    let mut token = TokenContract::new();
    let mut invocation = Invocation::new(host, CONTRACT, 5, vec![admin, user]);
    ok(token.initialize(&mut invocation, admin, b"N".to_vec(), b"S".to_vec(), 1));
    ok(token.grant_role(&mut invocation, admin, Role::Minter, user));
    ok(token.mint(&mut invocation, user, user, 40));
    ok(token.approve(&mut invocation, user, admin, 15));
    ok(token.transfer_from(&mut invocation, admin, user, admin, 15));
    ok(token.transfer(&mut invocation, admin, user, 5));
    ok(token.burn(&mut invocation, user, 10));
    ok(token.pause(&mut invocation, admin));
    ok(token.unpause(&mut invocation, admin));
    ok(token.revoke_role(&mut invocation, admin, Role::Minter, user));
    ok(token.set_admin(&mut invocation, admin, user));
    assert_eq!(token.balance(user), 20);
    assert_eq!(token.balance(admin), 10);
    assert_eq!(token.total_supply_view(), 30);
    assert!(token.has_role_view(Role::Minter, user));
    assert_eq!(invocation.events.len(), 10);
}
