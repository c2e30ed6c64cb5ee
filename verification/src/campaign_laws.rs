//! What holds of the campaign contract whatever is invoked.

use vstd::prelude::*;

use crate::address::Address;
use crate::campaign::{
    admin_keys, outcome, Call, Campaign, CampaignContract, CampaignView, DataKey, Event,
    ProposalView, Reply, Role, State, UpgradeProposal, MAX_DESCRIPTION, MAX_NAME, TIMELOCK,
};
use crate::error::Error;
use crate::host::items_of;
use crate::invocation::{Context, Invocation, Published};

verus! {

/// What every campaign promises: a reward, a time to run, and texts of at most
/// the length that is allowed.
pub open spec fn proper(campaign: CampaignView) -> bool {
    &&& campaign.reward_amount > 0
    &&& campaign.created_at < campaign.expiration
    &&& campaign.name.len() <= MAX_NAME
    &&& campaign.description.len() <= MAX_DESCRIPTION
}

/// Every campaign stands under its own id, which was handed out before the
/// next one. Ids begin with 1.
pub open spec fn numbered(state: State) -> bool {
    &&& state.fresh_id() >= 1
    &&& forall|id: u64| #[trigger]
        state.campaigns.contains_key(id) ==> {
            &&& state.campaigns[id].id == id
            &&& 1 <= id < state.fresh_id()
        }
}

/// Every campaign is a proper one.
pub open spec fn all_proper(state: State) -> bool {
    forall|id: u64| #[trigger]
        state.campaigns.contains_key(id) ==> proper(state.campaigns[id])
}

/// An upgrade that waits was signed by at least one admin, and by none twice.
pub open spec fn signed_once_each(state: State) -> bool {
    state.proposal matches Some(proposal) ==> {
        &&& proposal.signatures.len() >= 1
        &&& proposal.signatures.no_duplicates()
        &&& !proposal.signatures.contains(None)
    }
}

/// An initialized contract asks for at least one signature, and before
/// initialization nobody holds a role.
pub open spec fn governed(state: State) -> bool {
    if state.is_initialized() {
        state.threshold matches Some(threshold) && threshold > 0
    } else {
        forall|role: Role, account: Address| !#[trigger] state.has_role(role, account)
    }
}

/// What holds of the contract in every state that it can reach, as long as no
/// campaign is created before initialization.
pub open spec fn sound(state: State) -> bool {
    &&& numbered(state)
    &&& all_proper(state)
    &&& signed_once_each(state)
    &&& governed(state)
}

/// Whether `call` initializes a contract that already keeps campaigns, so that
/// their ids are handed out again.
pub open spec fn restarts_numbering(state: State, call: Call) -> bool {
    call is Initialize && exists|id: u64| #[trigger] state.campaigns.contains_key(id)
}

/// The contract starts sound.
pub proof fn law_empty_is_sound()
    ensures
        sound(State::empty()),
{
}

/// Whatever is invoked, every campaign stays proper and under its own id, and
/// no admin signs an upgrade twice; except that initializing a contract that
/// already keeps campaigns hands their ids out again.
pub proof fn law_every_call_keeps_the_contract_sound(state: State, context: Context, call: Call)
    requires
        sound(state),
        state.refusal(context, call) is None,
        !restarts_numbering(state, call),
    ensures
        sound(state.after(context, call)),
{
    law_every_call_keeps_campaigns_proper_and_upgrades_governed(state, context, call);
}

/// Whatever is invoked, without exception, every campaign stays proper, no
/// admin signs an upgrade twice, and the contract stays governed.
pub proof fn law_every_call_keeps_campaigns_proper_and_upgrades_governed(
    state: State,
    context: Context,
    call: Call,
)
    requires
        all_proper(state),
        signed_once_each(state),
        governed(state),
        state.refusal(context, call) is None,
    ensures
        all_proper(state.after(context, call)),
        signed_once_each(state.after(context, call)),
        governed(state.after(context, call)),
{
    let after = state.after(context, call);
    match call {
        Call::GrantRole { admin, .. } => {
            assert(state.has_role(Role::Admin, admin));
        },
        Call::RevokeRole { admin, .. } => {
            assert(state.has_role(Role::Admin, admin));
        },
        Call::CreateCampaign { .. } => {
            assert(governed(after)) by {
                assert forall|role: Role, account: Address| #[trigger]
                    after.has_role(role, account) == state.has_role(role, account) by {}
            }
        },
        Call::SetActive { .. } => {
            assert(governed(after)) by {
                assert forall|role: Role, account: Address| #[trigger]
                    after.has_role(role, account) == state.has_role(role, account) by {}
            }
        },
        Call::AuthorizeUpgrade { admin } => {
            let signatures = state.proposal->0.signatures;
            lemma_only_others_signed(state.proposal->0, admin);
            let added = signatures.push(Some(admin.id));
            assert(added.no_duplicates()) by {
                assert forall|i: int, j: int|
                    0 <= i < added.len() && 0 <= j < added.len() && i != j implies added[i]
                    != added[j] by {
                    if i == signatures.len() {
                        assert(signatures.contains(signatures[j]));
                    } else if j == signatures.len() {
                        assert(signatures.contains(signatures[i]));
                    }
                }
            }
            assert(!added.contains(None)) by {
                if added.contains(None) {
                    let i = choose|i: int| 0 <= i < added.len() && added[i] is None;
                    assert(signatures[i] is None);
                    assert(signatures.contains(None));
                }
            }
        },
        _ => {},
    }
}

/// Who may sign an upgrade did not sign it yet.
proof fn lemma_only_others_signed(proposal: ProposalView, admin: Address)
    requires
        proposal.signing_refusal(admin) is None,
    ensures
        !proposal.signed_by(admin),
{
    if proposal.signed_by(admin) {
        let i = choose|i: int|
            0 <= i < proposal.signatures.len() && proposal.signatures[i] == Some(admin.id);
        assert forall|j: int| 0 <= j < i implies proposal.signatures[j] is Some by {
            assert(proposal.signatures.contains(proposal.signatures[j]));
        }
        assert(proposal.found(admin));
    }
}

/// A new campaign takes an id under which no campaign stands, the next one
/// takes the id behind it, and the campaign that is read back is the one that
/// was created.
pub proof fn law_ids_are_fresh_and_consecutive(state: State, context: Context, call: Call)
    requires
        numbered(state),
        call is CreateCampaign,
        state.refusal(context, call) is None,
    ensures
        !state.campaigns.contains_key(state.fresh_id()),
        state.after(context, call).fresh_id() == state.fresh_id() + 1,
        state.after(context, call).campaigns.contains_key(state.fresh_id()),
        call matches Call::CreateCampaign { merchant, reward_amount, expiration, name, description }
            && state.after(context, call).campaigns[state.fresh_id()] == (CampaignView {
            id: state.fresh_id(),
            merchant,
            reward_amount,
            expiration,
            created_at: context.now,
            active: true,
            total_claimed: 0,
            name: crate::host::bytes_of(name),
            description: crate::host::bytes_of(description),
        }),
{
}

/// No campaign is ever removed, and its terms never change: who runs it, what
/// it pays, when it began and ends, and how it is described. Its count of
/// claims never shrinks.
pub proof fn law_terms_never_change(state: State, context: Context, call: Call, id: u64)
    requires
        numbered(state),
        state.refusal(context, call) is None,
        state.campaigns.contains_key(id),
    ensures
        ({
            let before = state.campaigns[id];
            let after = state.after(context, call).campaigns[id];
            &&& state.after(context, call).campaigns.contains_key(id)
            &&& after == (CampaignView {
                active: after.active,
                total_claimed: after.total_claimed,
                ..before
            })
            &&& after.total_claimed >= before.total_claimed
        }),
{
}

/// A campaign that has expired never runs again, whatever is invoked and
/// however late it is.
pub proof fn law_expired_stays_expired(
    state: State,
    context: Context,
    call: Call,
    id: u64,
    later: u64,
)
    requires
        numbered(state),
        state.refusal(context, call) is None,
        state.campaigns.contains_key(id),
        state.campaigns[id].expiration <= later,
    ensures
        !state.campaigns[id].runs_at(later),
        !state.after(context, call).campaigns[id].runs_at(later),
{
    law_terms_never_change(state, context, call, id);
}

/// Only its merchant stops a campaign or lets it run again.
pub proof fn law_only_merchants_switch(state: State, context: Context, call: Call, id: u64)
    requires
        numbered(state),
        state.refusal(context, call) is None,
        state.campaigns.contains_key(id),
        state.after(context, call).campaigns[id].active != state.campaigns[id].active,
    ensures
        call is SetActive,
        context.authorizes(state.campaigns[id].merchant),
{
}

/// Only a recorder counts claims, and one at a time.
pub proof fn law_only_recorders_count(state: State, context: Context, call: Call, id: u64)
    requires
        numbered(state),
        state.refusal(context, call) is None,
        state.campaigns.contains_key(id),
        state.after(context, call).campaigns[id].total_claimed
            != state.campaigns[id].total_claimed,
    ensures
        call matches Call::RecordClaim { recorder, campaign_id } && campaign_id == id
            && state.has_role(Role::Recorder, recorder) && context.authorizes(recorder),
        state.after(context, call).campaigns[id].total_claimed
            == state.campaigns[id].total_claimed + 1,
{
}

/// An initialized contract stays initialized, keeps its threshold, and refuses
/// to be initialized again.
pub proof fn law_initialized_once(state: State, context: Context, call: Call)
    requires
        state.is_initialized(),
    ensures
        call is Initialize ==> state.refusal(context, call) == Some(Error::AlreadyInitialized),
        state.refusal(context, call) is None ==> {
            &&& state.after(context, call).is_initialized()
            &&& state.after(context, call).threshold == state.threshold
        },
{
}

/// While the contract is paused no campaign is created.
pub proof fn law_nothing_is_created_while_paused(state: State, context: Context, call: Call)
    requires
        state.is_paused(),
    ensures
        call is CreateCampaign ==> state.refusal(context, call) is Some,
        state.refusal(context, call) is None ==> state.after(context, call).campaigns.dom()
            == state.campaigns.dom(),
{
    if state.refusal(context, call) is None {
        assert(state.after(context, call).campaigns.dom() =~= state.campaigns.dom());
    }
}

/// Unpausing undoes pausing.
pub proof fn law_unpause_undoes_pause(
    state: State,
    context: Context,
    pauser: Address,
    other: Address,
)
    requires
        state.paused == Some(false),
    ensures
        state.after(context, Call::Pause { pauser }).is_paused(),
        state.after(context, Call::Pause { pauser }).after(context, Call::Unpause { pauser: other })
            == state,
{
}

/// Who holds which role changes only by initialization and by an admin.
pub proof fn law_only_admins_change_roles(
    state: State,
    context: Context,
    call: Call,
    role: Role,
    account: Address,
)
    requires
        state.refusal(context, call) is None,
        state.after(context, call).has_role(role, account) != state.has_role(role, account),
    ensures
        call is Initialize && !state.is_initialized() || (state.author(call) matches Some(admin)
            && state.has_role(Role::Admin, admin) && context.authorizes(admin)),
{
}

/// Initialization gives every first admin the admin and the pauser role.
pub proof fn law_first_admins_hold_their_roles(
    state: State,
    context: Context,
    call: Call,
    admin: Address,
)
    requires
        call matches Call::Initialize { admins, .. } && items_of(admins).contains(Some(admin.id)),
    ensures
        state.after(context, call).has_role(Role::Admin, admin),
        state.after(context, call).has_role(Role::Pauser, admin),
{
}

/// Granting a role gives it to the account and to nobody else; revoking it
/// takes it away, also when it was granted before.
pub proof fn law_grant_and_revoke(
    state: State,
    context: Context,
    admin: Address,
    role: Role,
    account: Address,
    other_role: Role,
    other: Address,
)
    ensures
        ({
            let grant = Call::GrantRole { admin, role, account };
            let revoke = Call::RevokeRole { admin, role, account };
            let granted = state.after(context, grant);
            let revoked = state.after(context, revoke);
            &&& granted.has_role(role, account)
            &&& !revoked.has_role(role, account)
            &&& !granted.after(context, revoke).has_role(role, account)
            &&& (other_role, other) != (role, account) ==> {
                &&& granted.has_role(other_role, other) == state.has_role(other_role, other)
                &&& revoked.has_role(other_role, other) == state.has_role(other_role, other)
            }
        }),
{
}

/// The admins that signed.
pub open spec fn signers(proposal: ProposalView) -> Set<Option<u64>> {
    proposal.signatures.to_set()
}

/// An upgrade is carried out only when as many different admins signed it as
/// the threshold asks for, and no earlier than 48 hours after it was proposed;
/// what is handed to the host is the hash that was proposed.
pub proof fn law_upgrades_need_signatures_and_time(state: State, context: Context, admin: Address)
    requires
        signed_once_each(state),
        governed(state),
        state.refusal(context, Call::ExecuteUpgrade { admin }) is None,
    ensures
        state.proposal matches Some(proposal) && state.threshold matches Some(threshold)
            && signers(proposal).len() >= threshold && threshold > 0 && context.now
            >= proposal.proposed_at + TIMELOCK && state.reply(Call::ExecuteUpgrade { admin })
            == crate::campaign::Reply::Upgrade(proposal.wasm_hash),
        state.has_role(Role::Admin, admin),
        state.after(context, Call::ExecuteUpgrade { admin }).proposal is None,
{
    let proposal = state.proposal->0;
    proposal.signatures.unique_seq_to_set();
    assert(state.is_initialized()) by {
        assert(state.has_role(Role::Admin, admin));
    }
}

/// While an upgrade waits, its code and the time at which it was proposed stay
/// as they are; signatures are only added, one at a time, and only by an admin
/// who authorizes it and did not sign yet.
pub proof fn law_proposals_only_gather_signatures(state: State, context: Context, call: Call)
    requires
        state.refusal(context, call) is None,
        state.proposal is Some,
        state.after(context, call).proposal is Some,
        state.after(context, call).proposal != state.proposal,
    ensures
        call matches Call::AuthorizeUpgrade { admin } && state.has_role(Role::Admin, admin)
            && context.authorizes(admin) && !state.proposal->0.signed_by(admin) && state.after(
            context,
            call,
        ).proposal->0 == (ProposalView {
            signatures: state.proposal->0.signatures.push(Some(admin.id)),
            ..state.proposal->0
        }),
{
    if let Call::AuthorizeUpgrade { admin } = call {
        lemma_only_others_signed(state.proposal->0, admin);
    }
}

/// An admin who authorizes it signs the upgrade that waits exactly when it did
/// not sign yet, as long as the host can hold another signature.
pub proof fn law_admins_sign_when_they_did_not_yet(state: State, context: Context, admin: Address)
    requires
        signed_once_each(state),
        state.proposal matches Some(proposal) ==> proposal.signatures.len() < u32::MAX,
    ensures
        state.refusal(context, Call::AuthorizeUpgrade { admin }) is None <==> {
            &&& context.authorizes(admin)
            &&& state.has_role(Role::Admin, admin)
            &&& state.proposal matches Some(proposal) && !proposal.signed_by(admin)
        },
{
    if let Some(proposal) = state.proposal {
        if proposal.signing_refusal(admin) is None {
            lemma_only_others_signed(proposal, admin);
        }
        if proposal.found(admin) {
            assert(proposal.signed_by(admin));
        }
    }
}

/// An upgrade stops waiting only when an admin carries it out or cancels it.
pub proof fn law_proposals_end_by_an_admin(state: State, context: Context, call: Call)
    requires
        state.refusal(context, call) is None,
        state.proposal is Some,
        state.after(context, call).proposal is None,
    ensures
        call is ExecuteUpgrade || call is CancelUpgrade,
        state.author(call) matches Some(admin) && state.has_role(Role::Admin, admin)
            && context.authorizes(admin),
{
}

/// Once an upgrade was cancelled, an admin can propose one again.
pub proof fn law_cancelling_makes_room(
    state: State,
    context: Context,
    admin: Address,
    wasm_hash: [u8; 32],
)
    requires
        state.refusal(context, Call::CancelUpgrade { admin }) is None,
    ensures
        state.after(context, Call::CancelUpgrade { admin }).refusal(
            context,
            Call::ProposeUpgrade { admin, wasm_hash },
        ) is None,
{
}

/// Once an upgrade was cancelled, every admin can propose one at any later time,
/// and what waits then is that proposal, signed by its proposer alone.
pub proof fn law_any_admin_proposes_after_cancelling(
    state: State,
    context: Context,
    admin: Address,
    later: Context,
    proposer: Address,
    wasm_hash: [u8; 32],
)
    requires
        state.refusal(context, Call::CancelUpgrade { admin }) is None,
        state.has_role(Role::Admin, proposer),
        later.authorizes(proposer),
    ensures
        ({
            let cancelled = state.after(context, Call::CancelUpgrade { admin });
            let propose = Call::ProposeUpgrade { admin: proposer, wasm_hash };
            &&& cancelled.refusal(later, propose) is None
            &&& cancelled.after(later, propose).proposal == Some(
                ProposalView {
                    wasm_hash,
                    proposed_at: later.now,
                    signatures: seq![Some(proposer.id)],
                },
            )
        }),
{
}

/// A call that its author authorized is never refused for want of an
/// authorization, and a call that the author did not authorize always is.
pub proof fn law_authors_authorize(state: State, context: Context, call: Call)
    ensures
        (state.refusal(context, call) == Some(Error::NotAuthorized)) == (state.author(
            call,
        ) matches Some(account) && !context.authorizes(account)),
{
}

/// Whether the footprint of `call` names `key`.
spec fn touches(state: State, call: Call, key: DataKey) -> bool {
    match call {
        Call::Initialize { admins, .. } => match key {
            DataKey::RoleMember(role, account) => (role == Role::Admin || role == Role::Pauser)
                && items_of(admins).contains(Some(account.id)),
            _ => key == DataKey::Paused || key == DataKey::Threshold || key == DataKey::NextId,
        },
        Call::GrantRole { admin, role, account } => key == DataKey::RoleMember(Role::Admin, admin)
            || key == DataKey::RoleMember(role, account),
        Call::RevokeRole { admin, role, account } => key == DataKey::RoleMember(Role::Admin, admin)
            || key == DataKey::RoleMember(role, account),
        Call::Pause { pauser } => key == DataKey::RoleMember(Role::Pauser, pauser) || key
            == DataKey::Paused,
        Call::Unpause { pauser } => key == DataKey::RoleMember(Role::Pauser, pauser) || key
            == DataKey::Paused,
        Call::CreateCampaign { .. } => key == DataKey::Paused || key == DataKey::NextId || key
            == DataKey::Campaign(state.fresh_id()),
        Call::SetActive { campaign_id, .. } => key == DataKey::Campaign(campaign_id),
        Call::RecordClaim { recorder, campaign_id } => key == DataKey::RoleMember(
            Role::Recorder,
            recorder,
        ) || key == DataKey::Campaign(campaign_id),
        Call::ProposeUpgrade { admin, .. } => key == DataKey::RoleMember(Role::Admin, admin) || key
            == DataKey::UpgradeProposal,
        Call::AuthorizeUpgrade { admin } => key == DataKey::RoleMember(Role::Admin, admin) || key
            == DataKey::UpgradeProposal,
        Call::ExecuteUpgrade { admin } => key == DataKey::RoleMember(Role::Admin, admin) || key
            == DataKey::UpgradeProposal || key == DataKey::Threshold,
        Call::CancelUpgrade { admin } => key == DataKey::RoleMember(Role::Admin, admin) || key
            == DataKey::UpgradeProposal,
    }
}

proof fn lemma_pushed_keys<A>(keys: Seq<A>, last: A, key: A)
    ensures
        keys.push(last).contains(key) == (keys.contains(key) || key == last),
{
    let longer = keys.push(last);
    assert(longer[keys.len() as int] == last);
    if keys.contains(key) {
        let i = choose|i: int| 0 <= i < keys.len() && keys[i] == key;
        assert(longer[i] == key);
    }
}

proof fn lemma_admin_keys(admins: Seq<Option<u64>>, key: DataKey)
    ensures
        admin_keys(admins).contains(key) == (key matches DataKey::RoleMember(role, account) && (role
            == Role::Admin || role == Role::Pauser) && admins.contains(Some(account.id))),
    decreases admins.len(),
{
    if admins.len() > 0 {
        let others = admins.drop_last();
        lemma_admin_keys(others, key);
        assert(admins =~= others.push(admins.last()));
        if let DataKey::RoleMember(role, account) = key {
            lemma_pushed_keys(others, admins.last(), Some(account.id));
        }
        if let Some(id) = admins.last() {
            let first = admin_keys(others).push(DataKey::RoleMember(Role::Admin, Address { id }));
            lemma_pushed_keys(
                admin_keys(others),
                DataKey::RoleMember(Role::Admin, Address { id }),
                key,
            );
            lemma_pushed_keys(first, DataKey::RoleMember(Role::Pauser, Address { id }), key);
        }
    }
}

proof fn lemma_touches(state: State, call: Call, key: DataKey)
    ensures
        state.keys(call).contains(key) == touches(state, call, key),
{
    let keys = state.keys(call);
    if let Call::Initialize { admins, .. } = call {
        let roles = admin_keys(items_of(admins));
        lemma_admin_keys(items_of(admins), key);
        lemma_pushed_keys(roles, DataKey::Paused, key);
        lemma_pushed_keys(roles.push(DataKey::Paused), DataKey::Threshold, key);
        lemma_pushed_keys(
            roles.push(DataKey::Paused).push(DataKey::Threshold),
            DataKey::NextId,
            key,
        );
    } else if touches(state, call, key) {
        assert(keys.len() > 0 && keys[0] == key || keys.len() > 1 && keys[1] == key || keys.len()
            > 2 && keys[2] == key);
    }
}

/// What becomes of a call depends on the entries that its footprint names and
/// on no others, and it leaves all others as they are.
pub proof fn law_footprint(state: State, other: State, context: Context, call: Call)
    requires
        forall|key: DataKey|
            state.keys(call).contains(key) ==> #[trigger] state.entry(key) == other.entry(key),
    ensures
        state.keys(call) == other.keys(call),
        state.refusal(context, call) == other.refusal(context, call),
        state.refusal(context, call) is None ==> {
            &&& state.event(call) == other.event(call)
            &&& state.reply(call) == other.reply(call)
            &&& forall|key: DataKey|
                state.keys(call).contains(key) ==> #[trigger] state.after(context, call).entry(key)
                    == other.after(context, call).entry(key)
            &&& forall|key: DataKey|
                !state.keys(call).contains(key) ==> #[trigger] state.after(context, call).entry(key)
                    == state.entry(key)
        },
{
    assert forall|key: DataKey| touches(state, call, key) implies #[trigger] state.entry(key)
        == other.entry(key) by {
        lemma_touches(state, call, key);
    }
    lemma_reads(state, other, context, call);
    if state.refusal(context, call) is None {
        assert forall|key: DataKey| state.keys(call).contains(key) implies #[trigger] state.after(
            context,
            call,
        ).entry(key) == other.after(context, call).entry(key) by {
            lemma_touches(state, call, key);
            lemma_writes(state, other, context, call, key);
        }
        assert forall|key: DataKey| !state.keys(call).contains(key) implies #[trigger] state.after(
            context,
            call,
        ).entry(key) == state.entry(key) by {
            lemma_touches(state, call, key);
            lemma_leaves(state, context, call, key);
        }
    }
}

proof fn lemma_reads(state: State, other: State, context: Context, call: Call)
    requires
        forall|key: DataKey|
            touches(state, call, key) ==> #[trigger] state.entry(key) == other.entry(key),
    ensures
        state.keys(call) == other.keys(call),
        state.refusal(context, call) == other.refusal(context, call),
        state.refusal(context, call) is None ==> {
            &&& state.event(call) == other.event(call)
            &&& state.reply(call) == other.reply(call)
        },
{
    let same = |key: DataKey| state.entry(key) == other.entry(key);
    match call {
        Call::Initialize { .. } => {
            assert(same(DataKey::Paused));
        },
        Call::GrantRole { admin, .. } => {
            assert(same(DataKey::RoleMember(Role::Admin, admin)));
        },
        Call::RevokeRole { admin, .. } => {
            assert(same(DataKey::RoleMember(Role::Admin, admin)));
        },
        Call::Pause { pauser } => {
            assert(same(DataKey::RoleMember(Role::Pauser, pauser)));
        },
        Call::Unpause { pauser } => {
            assert(same(DataKey::RoleMember(Role::Pauser, pauser)));
        },
        Call::CreateCampaign { .. } => {
            assert(same(DataKey::Paused));
            assert(same(DataKey::NextId));
        },
        Call::SetActive { campaign_id, .. } => {
            assert(same(DataKey::Campaign(campaign_id)));
        },
        Call::RecordClaim { recorder, campaign_id } => {
            assert(same(DataKey::RoleMember(Role::Recorder, recorder)));
            assert(same(DataKey::Campaign(campaign_id)));
        },
        Call::ProposeUpgrade { admin, .. } => {
            assert(same(DataKey::RoleMember(Role::Admin, admin)));
            assert(same(DataKey::UpgradeProposal));
        },
        Call::AuthorizeUpgrade { admin } => {
            assert(same(DataKey::RoleMember(Role::Admin, admin)));
            assert(same(DataKey::UpgradeProposal));
        },
        Call::ExecuteUpgrade { admin } => {
            assert(same(DataKey::RoleMember(Role::Admin, admin)));
            assert(same(DataKey::UpgradeProposal));
            assert(same(DataKey::Threshold));
        },
        Call::CancelUpgrade { admin } => {
            assert(same(DataKey::RoleMember(Role::Admin, admin)));
        },
    }
}

proof fn lemma_writes(state: State, other: State, context: Context, call: Call, key: DataKey)
    requires
        forall|k: DataKey| touches(state, call, k) ==> #[trigger] state.entry(k) == other.entry(k),
        touches(state, call, key),
        state.refusal(context, call) is None,
    ensures
        state.after(context, call).entry(key) == other.after(context, call).entry(key),
{
    let same = |k: DataKey| state.entry(k) == other.entry(k);
    assert(same(key));
    match call {
        Call::CreateCampaign { .. } => {
            assert(same(DataKey::NextId));
        },
        Call::SetActive { campaign_id, .. } => {
            assert(same(DataKey::Campaign(campaign_id)));
        },
        Call::RecordClaim { campaign_id, .. } => {
            assert(same(DataKey::Campaign(campaign_id)));
        },
        Call::AuthorizeUpgrade { .. } => {
            assert(same(DataKey::UpgradeProposal));
        },
        _ => {},
    }
}

proof fn lemma_leaves(state: State, context: Context, call: Call, key: DataKey)
    requires
        !touches(state, call, key),
        state.refusal(context, call) is None,
    ensures
        state.after(context, call).entry(key) == state.entry(key),
{
}

/// What the contract answers is what its ledger entries hold: a role that is
/// noted as held, the next id that is written and 1 where none is, and the pause
/// switch once it was set.
pub proof fn law_answers_show_the_entries(state: State, role: Role, account: Address)
    ensures
        state.has_role(role, account) <==> state.members.contains_key((role, account))
            && state.members[(role, account)],
        state.next_id matches Some(id) ==> state.fresh_id() == id,
        state.next_id is None ==> state.fresh_id() == 1,
        state.is_initialized() <==> state.paused is Some,
        state.is_paused() <==> state.paused == Some(true),
{
}

/// A campaign runs for as long as it is switched on and its end has not come;
/// at the second of its end it does not run any more.
pub proof fn law_campaigns_run_until_they_end(campaign: CampaignView, now: u64)
    ensures
        !campaign.active ==> !campaign.runs_at(now),
        campaign.active ==> (campaign.runs_at(now) <==> now < campaign.expiration),
{
}

/// What the contracts of the methods speak of is what the fields hold, texts and
/// signatures by their contents, and a new contract holds nothing.
pub proof fn law_fields_are_the_entries(
    contract: CampaignContract,
    campaign: Campaign,
    proposal: UpgradeProposal,
    id: u64,
)
    ensures
        contract@.campaigns.dom() == contract.campaigns@.dom(),
        contract.campaigns@.contains_key(id) ==> contract@.campaigns[id]
            == contract.campaigns@[id]@,
        contract@.next_id == contract.next_id,
        contract@.members == contract.members@,
        contract@.threshold == contract.threshold,
        contract.proposal matches Some(waiting) ==> contract@.proposal == Some(waiting@),
        contract.proposal is None ==> contract@.proposal is None,
        contract@.paused == contract.paused,
        campaign@.id == campaign.id,
        campaign@.merchant == campaign.merchant,
        campaign@.reward_amount == campaign.reward_amount,
        campaign@.expiration == campaign.expiration,
        campaign@.created_at == campaign.created_at,
        campaign@.active == campaign.active,
        campaign@.total_claimed == campaign.total_claimed,
        campaign@.name == crate::host::bytes_of(campaign.name),
        campaign@.description == crate::host::bytes_of(campaign.description),
        proposal@.wasm_hash == proposal.wasm_hash,
        proposal@.proposed_at == proposal.proposed_at,
        proposal@.signatures == items_of(proposal.signatures),
        State::empty().campaigns == Map::<u64, CampaignView>::empty(),
        State::empty().next_id is None,
        State::empty().members == Map::<(Role, Address), bool>::empty(),
        State::empty().threshold is None,
        State::empty().proposal is None,
        State::empty().paused is None,
{
    assert(contract@.campaigns.dom() =~= contract.campaigns@.dom());
}

/// The entries tell two states of the contract apart: where all are the same,
/// the states are.
pub proof fn law_entries_tell_states_apart(state: State, other: State)
    requires
        forall|key: DataKey| #[trigger] state.entry(key) == other.entry(key),
    ensures
        state == other,
{
    let same = |key: DataKey| state.entry(key) == other.entry(key);
    assert(same(DataKey::NextId) && same(DataKey::Threshold));
    assert(same(DataKey::UpgradeProposal) && same(DataKey::Paused));
    assert forall|member: (Role, Address)|
        {
            &&& #[trigger] state.members.contains_key(member) == other.members.contains_key(member)
            &&& state.members.contains_key(member) ==> state.members[member]
                == other.members[member]
        } by {
        assert(same(DataKey::RoleMember(member.0, member.1)));
    }
    assert(state.members =~= other.members);
    assert forall|id: u64|
        {
            &&& #[trigger] state.campaigns.contains_key(id) == other.campaigns.contains_key(id)
            &&& state.campaigns.contains_key(id) ==> state.campaigns[id] == other.campaigns[id]
        } by {
        assert(same(DataKey::Campaign(id)));
    }
    assert(state.campaigns =~= other.campaigns);
    assert(state =~= other);
}

/// A call is carried out as a whole or not at all. It is carried out exactly
/// when nothing speaks against it; then its entries are written and its event,
/// if it has one, is published in the name of the contract. Else the reason is
/// returned, no entry changes and nothing is published. The invocation itself
/// stays what it was.
pub proof fn law_all_or_nothing<T>(
    before: State,
    start: Invocation,
    call: Call,
    result: Result<T, Error>,
    after: State,
    end: Invocation,
)
    requires
        outcome(before, start, call, result, after, end),
    ensures
        end.host == start.host,
        end.contract == start.contract,
        end.now == start.now,
        end.signers@ == start.signers@,
        result is Ok <==> before.refusal(start.context(), call) is None,
        result matches Err(error) ==> {
            &&& before.refusal(start.context(), call) == Some(error)
            &&& after == before
            &&& end.events@ == start.events@
        },
        result is Ok ==> {
            &&& after == before.after(start.context(), call)
            &&& match before.event(call) {
                Some(event) => end.events@ == start.events@.push(
                    Published {
                        contract: start.contract,
                        event: crate::invocation::Event::Campaign(event),
                    },
                ),
                None => end.events@ == start.events@,
            }
        },
{
}

/// Initialization succeeds exactly when the pause switch was never written, the
/// threshold is positive and not more than there are admins, and every admin is
/// an address. The first of these that fails is the one that is reported.
pub proof fn law_initialization_succeeds_exactly(
    state: State,
    context: Context,
    admins: soroban_sdk::Vec<u64>,
    threshold: u32,
)
    ensures
        ({
            let refusal = state.refusal(context, Call::Initialize { admins, threshold });
            let fresh = state.paused is None;
            let enough = fresh && threshold > 0 && threshold <= items_of(admins).len();
            let proper = forall|i: int|
                0 <= i < items_of(admins).len() ==> (#[trigger] items_of(admins)[i]) is Some;
            &&& refusal is None <==> enough && proper
            &&& refusal == Some(Error::AlreadyInitialized) <==> !fresh
            &&& refusal == Some(Error::ThresholdNotPositive) <==> fresh && threshold == 0
            &&& refusal == Some(Error::InsufficientAdmins) <==> fresh && threshold > 0 && !enough
            &&& refusal == Some(Error::MalformedAddress) <==> enough && !proper
        }),
{
    let items = items_of(admins);
    if items.contains(None) {
        let i = choose|i: int| 0 <= i < items.len() && items[i] is None;
        assert(!(items[i] is Some));
    } else {
        assert forall|i: int| 0 <= i < items.len() implies (#[trigger] items[i]) is Some by {
            assert(items.contains(items[i]));
        }
    }
}

/// Initialization stores the threshold that it is given, whatever it is, lets
/// numbering begin at 1 and campaigns be created, and gives the admin and the
/// pauser role to every account that it is given and no role to anybody else.
/// Campaigns and a proposal stay.
pub proof fn law_initialization_stores_what_it_is_given(
    state: State,
    context: Context,
    admins: soroban_sdk::Vec<u64>,
    threshold: u32,
    role: Role,
    account: Address,
)
    ensures
        ({
            let after = state.after(context, Call::Initialize { admins, threshold });
            let named = (role == Role::Admin || role == Role::Pauser) && items_of(admins).contains(
                Some(account.id),
            );
            &&& after.threshold == Some(threshold)
            &&& after.next_id == Some(1u64)
            &&& after.paused == Some(false)
            &&& after.campaigns == state.campaigns
            &&& after.proposal == state.proposal
            &&& named ==> after.members.contains_key((role, account)) && after.members[(
                role,
                account,
            )]
            &&& !named ==> {
                &&& after.members.contains_key((role, account)) == state.members.contains_key(
                    (role, account),
                )
                &&& after.members.contains_key((role, account)) ==> after.members[(role, account)]
                    == state.members[(role, account)]
            }
        }),
{
}

/// After an initialization with a threshold of `threshold`, no upgrade that
/// fewer admins signed is carried out, however long it waits.
pub proof fn law_the_threshold_given_is_the_threshold_asked_for(
    state: State,
    context: Context,
    admins: soroban_sdk::Vec<u64>,
    threshold: u32,
    later: Context,
    admin: Address,
    proposal: ProposalView,
)
    requires
        later.signers.contains(admin),
        items_of(admins).contains(Some(admin.id)),
    ensures
        ({
            let after = State {
                proposal: Some(proposal),
                ..state.after(context, Call::Initialize { admins, threshold })
            };
            let refusal = after.refusal(later, Call::ExecuteUpgrade { admin });
            refusal == Some(Error::InsufficientAuthorizations) <==> proposal.signatures.len()
                < threshold
        }),
{
}

/// A call that asks for a role is refused exactly in these two cases before
/// anything else is looked at: who does not authorize it learns that, and who
/// does but does not hold the role learns that instead.
pub proof fn law_role_calls_ask_for_the_role(
    state: State,
    context: Context,
    call: Call,
    role: Role,
    account: Address,
)
    requires
        match call {
            Call::GrantRole { admin, .. } => admin == account && role == Role::Admin,
            Call::RevokeRole { admin, .. } => admin == account && role == Role::Admin,
            Call::Pause { pauser } => pauser == account && role == Role::Pauser,
            Call::Unpause { pauser } => pauser == account && role == Role::Pauser,
            Call::RecordClaim { recorder, .. } => recorder == account && role == Role::Recorder,
            Call::ProposeUpgrade { admin, .. } => admin == account && role == Role::Admin,
            Call::AuthorizeUpgrade { admin } => admin == account && role == Role::Admin,
            Call::ExecuteUpgrade { admin } => admin == account && role == Role::Admin,
            Call::CancelUpgrade { admin } => admin == account && role == Role::Admin,
            _ => false,
        },
    ensures
        ({
            let authorized = context.signers.contains(account);
            let holds = state.members.contains_key((role, account)) && state.members[(
                role,
                account,
            )];
            let refusal = state.refusal(context, call);
            &&& refusal == Some(Error::NotAuthorized) <==> !authorized
            &&& refusal == Some(Error::MissingRole) <==> authorized && !holds
            &&& call is GrantRole || call is RevokeRole || call is Pause || call is Unpause
                || call is CancelUpgrade ==> (refusal is None <==> authorized && holds)
        }),
{
}

/// Granting and revoking touch the one membership that they name, and nothing
/// else.
pub proof fn law_role_changes_touch_one_membership(
    state: State,
    context: Context,
    admin: Address,
    role: Role,
    account: Address,
)
    ensures
        state.after(context, Call::GrantRole { admin, role, account }) == (State {
            members: state.members.insert((role, account), true),
            ..state
        }),
        state.after(context, Call::RevokeRole { admin, role, account }) == (State {
            members: state.members.remove((role, account)),
            ..state
        }),
{
}

/// Pausing and unpausing set the switch and nothing else, whatever it was.
pub proof fn law_pausing_sets_the_switch(state: State, context: Context, pauser: Address)
    ensures
        state.after(context, Call::Pause { pauser }) == (State { paused: Some(true), ..state }),
        state.after(context, Call::Unpause { pauser }) == (State { paused: Some(false), ..state }),
{
}

/// A campaign can be created exactly when the merchant authorizes it, the
/// contract is not paused, the reward is positive, the end lies in the future,
/// the name has at most 64 and the description at most 256 bytes, and another
/// id is left. The first of these that fails is the one that is reported.
pub proof fn law_creation_succeeds_exactly(
    state: State,
    context: Context,
    merchant: Address,
    reward_amount: i128,
    expiration: u64,
    name: soroban_sdk::Bytes,
    description: soroban_sdk::Bytes,
)
    ensures
        ({
            let refusal = state.refusal(
                context,
                Call::CreateCampaign { merchant, reward_amount, expiration, name, description },
            );
            let authorized = context.signers.contains(merchant);
            let open = authorized && state.paused != Some(true);
            let rewarding = open && reward_amount > 0;
            let lasting = rewarding && expiration > context.now;
            let named = lasting && crate::host::bytes_of(name).len() <= 64;
            let described = named && crate::host::bytes_of(description).len() <= 256;
            let left = state.fresh_id() < u64::MAX;
            &&& refusal is None <==> described && left
            &&& refusal == Some(Error::NotAuthorized) <==> !authorized
            &&& refusal == Some(Error::ContractPaused) <==> authorized && !open
            &&& refusal == Some(Error::RewardNotPositive) <==> open && !rewarding
            &&& refusal == Some(Error::ExpirationNotInFuture) <==> rewarding && !lasting
            &&& refusal == Some(Error::NameTooLong) <==> lasting && !named
            &&& refusal == Some(Error::DescriptionTooLong) <==> named && !described
            &&& refusal == Some(Error::ArithmeticOverflow) <==> described && !left
        }),
{
}

/// Creating a campaign writes it under the next id, with the terms that it was
/// given, from now on, switched on and without claims, and moves the next id on
/// by one. No other campaign and nothing else changes, and the id is handed
/// back.
pub proof fn law_creation_writes_one_campaign(
    state: State,
    context: Context,
    merchant: Address,
    reward_amount: i128,
    expiration: u64,
    name: soroban_sdk::Bytes,
    description: soroban_sdk::Bytes,
)
    requires
        state.refusal(
            context,
            Call::CreateCampaign { merchant, reward_amount, expiration, name, description },
        ) is None,
    ensures
        ({
            let call = Call::CreateCampaign {
                merchant,
                reward_amount,
                expiration,
                name,
                description,
            };
            let after = state.after(context, call);
            let id = state.fresh_id();
            let campaign = after.campaigns[id];
            &&& state.reply(call) == Reply::CampaignId(id)
            &&& after.next_id matches Some(next) && next - id == 1
            &&& after.campaigns.contains_key(id)
            &&& campaign.id == id
            &&& campaign.merchant == merchant
            &&& campaign.reward_amount == reward_amount
            &&& campaign.expiration == expiration
            &&& campaign.created_at == context.now
            &&& campaign.active
            &&& campaign.total_claimed == 0
            &&& campaign.name == crate::host::bytes_of(name)
            &&& campaign.description == crate::host::bytes_of(description)
            &&& after.campaigns.remove(id) == state.campaigns.remove(id)
            &&& after == (State { campaigns: after.campaigns, next_id: after.next_id, ..state })
        }),
{
    let call = Call::CreateCampaign { merchant, reward_amount, expiration, name, description };
    let id = state.fresh_id();
    assert(state.after(context, call).campaigns.remove(id) =~= state.campaigns.remove(id));
}

/// A campaign can be switched exactly when it exists and its merchant authorizes
/// it, whether the contract is paused or not and whether the campaign has ended
/// or not.
pub proof fn law_switching_succeeds_exactly(
    state: State,
    context: Context,
    campaign_id: u64,
    active: bool,
)
    ensures
        ({
            let refusal = state.refusal(context, Call::SetActive { campaign_id, active });
            let there = state.campaigns.contains_key(campaign_id);
            let authorized = context.signers.contains(state.campaigns[campaign_id].merchant);
            &&& refusal is None <==> there && authorized
            &&& refusal == Some(Error::CampaignNotFound) <==> !there
            &&& refusal == Some(Error::NotAuthorized) <==> there && !authorized
        }),
{
}

/// Once a campaign was switched, it is on or off as it was asked for, whatever
/// else it holds: switched off it runs at no time, switched on it runs until its
/// end. Its other fields, all other campaigns and all else stay.
pub proof fn law_switching_sets_the_switch(
    state: State,
    context: Context,
    campaign_id: u64,
    active: bool,
    now: u64,
)
    ensures
        ({
            let after = state.after(context, Call::SetActive { campaign_id, active });
            let before = state.campaigns[campaign_id];
            let campaign = after.campaigns[campaign_id];
            &&& after.campaigns.contains_key(campaign_id)
            &&& campaign.active == active
            &&& campaign.runs_at(now) <==> active && now < before.expiration
            &&& campaign == (CampaignView { active: campaign.active, ..before })
            &&& after.campaigns.remove(campaign_id) == state.campaigns.remove(campaign_id)
            &&& after == (State { campaigns: after.campaigns, ..state })
        }),
{
    let after = state.after(context, Call::SetActive { campaign_id, active });
    assert(after.campaigns.remove(campaign_id) =~= state.campaigns.remove(campaign_id));
}

/// The last of two switches counts alone, and switching a campaign back leaves
/// the contract as it was.
pub proof fn law_last_switch_counts(
    state: State,
    context: Context,
    later: Context,
    campaign_id: u64,
    first: bool,
    second: bool,
)
    requires
        state.campaigns.contains_key(campaign_id),
    ensures
        ({
            let switched = state.after(context, Call::SetActive { campaign_id, active: first });
            let again = switched.after(later, Call::SetActive { campaign_id, active: second });
            &&& again == state.after(later, Call::SetActive { campaign_id, active: second })
            &&& second == state.campaigns[campaign_id].active ==> again == state
        }),
{
    let switched = state.after(context, Call::SetActive { campaign_id, active: first });
    let again = switched.after(later, Call::SetActive { campaign_id, active: second });
    let once = state.after(later, Call::SetActive { campaign_id, active: second });
    assert(again.campaigns =~= once.campaigns);
    if second == state.campaigns[campaign_id].active {
        assert(again.campaigns =~= state.campaigns);
    }
}

/// A claim can be counted exactly when a recorder authorizes it, the campaign
/// exists, and its count can still grow. The first of these that fails is the
/// one that is reported.
pub proof fn law_counting_succeeds_exactly(
    state: State,
    context: Context,
    recorder: Address,
    campaign_id: u64,
)
    ensures
        ({
            let refusal = state.refusal(context, Call::RecordClaim { recorder, campaign_id });
            let authorized = context.signers.contains(recorder);
            let entitled = authorized && state.has_role(Role::Recorder, recorder);
            let found = entitled && state.campaigns.contains_key(campaign_id);
            let left = state.campaigns[campaign_id].total_claimed < u64::MAX;
            &&& refusal is None <==> found && left
            &&& refusal == Some(Error::NotAuthorized) <==> !authorized
            &&& refusal == Some(Error::MissingRole) <==> authorized && !entitled
            &&& refusal == Some(Error::CampaignNotFound) <==> entitled && !found
            &&& refusal == Some(Error::Overflow) <==> found && !left
        }),
{
}

/// Counting a claim adds one to the count of its campaign; its other fields, all
/// other campaigns and all else stay.
pub proof fn law_counting_adds_one(
    state: State,
    context: Context,
    recorder: Address,
    campaign_id: u64,
)
    requires
        state.refusal(context, Call::RecordClaim { recorder, campaign_id }) is None,
    ensures
        ({
            let after = state.after(context, Call::RecordClaim { recorder, campaign_id });
            let before = state.campaigns[campaign_id];
            let campaign = after.campaigns[campaign_id];
            &&& after.campaigns.contains_key(campaign_id)
            &&& campaign.total_claimed - before.total_claimed == 1
            &&& campaign == (CampaignView { total_claimed: campaign.total_claimed, ..before })
            &&& after.campaigns.remove(campaign_id) == state.campaigns.remove(campaign_id)
            &&& after == (State { campaigns: after.campaigns, ..state })
        }),
{
    let after = state.after(context, Call::RecordClaim { recorder, campaign_id });
    assert(after.campaigns.remove(campaign_id) =~= state.campaigns.remove(campaign_id));
}

/// An upgrade can be proposed exactly when an admin authorizes it and no other
/// one waits. What waits then is the hash that was proposed, from now on, signed
/// by the proposer alone; nothing else changes.
pub proof fn law_proposals_wait_from_now_on(
    state: State,
    context: Context,
    admin: Address,
    wasm_hash: [u8; 32],
)
    ensures
        ({
            let propose = Call::ProposeUpgrade { admin, wasm_hash };
            let refusal = state.refusal(context, propose);
            let after = state.after(context, propose);
            let authorized = context.signers.contains(admin);
            let entitled = authorized && state.has_role(Role::Admin, admin);
            &&& refusal is None <==> entitled && state.proposal is None
            &&& refusal == Some(Error::NotAuthorized) <==> !authorized
            &&& refusal == Some(Error::MissingRole) <==> authorized && !entitled
            &&& refusal == Some(Error::UpgradeAlreadyProposed) <==> entitled && state.proposal
                is Some
            &&& after.proposal matches Some(proposal) && proposal.wasm_hash == wasm_hash
                && proposal.proposed_at == context.now && proposal.signatures == seq![
                Some(admin.id),
            ]
            &&& after == (State { proposal: after.proposal, ..state })
        }),
{
}

/// An upgrade can be signed exactly when an admin authorizes it, one waits, all
/// its signatures are addresses, none is that of the admin, and the host can
/// hold another one. Of the signatures the first one that speaks against it
/// decides which reason is reported.
pub proof fn law_signing_succeeds_exactly(
    state: State,
    context: Context,
    admin: Address,
    at: int,
)
    ensures
        ({
            let refusal = state.refusal(context, Call::AuthorizeUpgrade { admin });
            let authorized = context.signers.contains(admin);
            let entitled = authorized && state.has_role(Role::Admin, admin);
            let waiting = entitled && state.proposal is Some;
            let signatures = state.proposal->0.signatures;
            let clear = |n: int|
                forall|i: int|
                    0 <= i < n ==> (#[trigger] signatures[i]) is Some && signatures[i] != Some(
                        admin.id,
                    );
            &&& refusal is None <==> waiting && clear(signatures.len() as int)
                && signatures.len() < u32::MAX
            &&& refusal == Some(Error::NotAuthorized) <==> !authorized
            &&& refusal == Some(Error::MissingRole) <==> authorized && !entitled
            &&& refusal == Some(Error::NoPendingProposal) <==> entitled && !waiting
            &&& refusal == Some(Error::SignaturesFull) <==> waiting && clear(
                signatures.len() as int,
            ) && signatures.len() >= u32::MAX
            &&& waiting && 0 <= at < signatures.len() && clear(at) ==> {
                &&& signatures[at] == Some(admin.id) ==> refusal == Some(Error::AlreadyAuthorized)
                &&& signatures[at] is None ==> refusal == Some(Error::MalformedAddress)
            }
        }),
{
    if let Some(proposal) = state.proposal {
        let signatures = proposal.signatures;
        if proposal.signing_refusal(admin) is None || proposal.signing_refusal(admin) == Some(
            Error::SignaturesFull,
        ) {
            assert forall|i: int| 0 <= i < signatures.len() implies (#[trigger] signatures[i])
                is Some && signatures[i] != Some(admin.id) by {
                lemma_nothing_speaks_against(proposal, admin, i);
            }
        }
        if signatures.contains(None) {
            let i = choose|i: int| 0 <= i < signatures.len() && signatures[i] is None;
            assert(!(signatures[i] is Some));
        }
        if 0 <= at < signatures.len() && signatures[at] is None {
            assert(signatures.contains(signatures[at]));
        }
    }
}

/// Where no signature is found and none is malformed, none speaks against
/// signing.
proof fn lemma_nothing_speaks_against(proposal: ProposalView, admin: Address, i: int)
    requires
        !proposal.found(admin),
        !proposal.signatures.contains(None),
        0 <= i < proposal.signatures.len(),
    ensures
        proposal.signatures[i] is Some,
        proposal.signatures[i] != Some(admin.id),
{
    assert(proposal.signatures.contains(proposal.signatures[i]));
    assert forall|j: int| 0 <= j < i implies proposal.signatures[j] is Some by {
        assert(proposal.signatures.contains(proposal.signatures[j]));
    }
}

/// Signing adds the admin's signature behind all others; the hash, the time and
/// all else stay.
pub proof fn law_signing_adds_one_signature(state: State, context: Context, admin: Address)
    requires
        state.proposal is Some,
    ensures
        ({
            let before = state.proposal->0;
            let after = state.after(context, Call::AuthorizeUpgrade { admin });
            &&& after.proposal matches Some(proposal) && proposal.wasm_hash == before.wasm_hash
                && proposal.proposed_at == before.proposed_at && proposal.signatures
                == before.signatures + seq![Some(admin.id)]
            &&& after == (State { proposal: after.proposal, ..state })
        }),
{
    let before = state.proposal->0;
    assert(before.signatures.push(Some(admin.id)) =~= before.signatures + seq![Some(admin.id)]);
}

/// An upgrade can be carried out exactly when an admin authorizes it, one waits,
/// the threshold is known, it bears at least as many signatures as the threshold
/// says, and 48 hours have passed since it was proposed, to the second. The first
/// of these that fails is the one that is reported.
pub proof fn law_execution_succeeds_exactly(state: State, context: Context, admin: Address)
    ensures
        ({
            let refusal = state.refusal(context, Call::ExecuteUpgrade { admin });
            let authorized = context.signers.contains(admin);
            let entitled = authorized && state.has_role(Role::Admin, admin);
            let waiting = entitled && state.proposal is Some;
            let known = waiting && state.threshold is Some;
            let signed = known && state.threshold->0 <= state.proposal->0.signatures.len();
            let due = state.proposal->0.proposed_at + 172_800;
            &&& refusal is None <==> signed && due <= context.now
            &&& refusal == Some(Error::NotAuthorized) <==> !authorized
            &&& refusal == Some(Error::MissingRole) <==> authorized && !entitled
            &&& refusal == Some(Error::NoPendingProposal) <==> entitled && !waiting
            &&& refusal == Some(Error::NotInitialized) <==> waiting && !known
            &&& refusal == Some(Error::InsufficientAuthorizations) <==> known && !signed
            &&& refusal == Some(Error::ArithmeticOverflow) <==> signed && due > u64::MAX
            &&& refusal == Some(Error::TimelockNotMet) <==> signed && due <= u64::MAX && due
                > context.now
        }),
{
}

/// Carrying an upgrade out hands the hash that waited to the host. Afterwards,
/// as after cancelling, none waits; the threshold and all else stay.
pub proof fn law_upgrades_end_and_nothing_else(state: State, context: Context, admin: Address)
    ensures
        state.proposal matches Some(proposal) ==> state.reply(Call::ExecuteUpgrade { admin })
            == Reply::Upgrade(proposal.wasm_hash),
        state.after(context, Call::ExecuteUpgrade { admin }) == (State { proposal: None, ..state }),
        state.after(context, Call::CancelUpgrade { admin }) == (State { proposal: None, ..state }),
{
}

/// Only a new campaign and an upgrade hand something back.
pub proof fn law_other_calls_hand_nothing_back(state: State, call: Call)
    requires
        !(call is CreateCampaign),
        !(call is ExecuteUpgrade),
    ensures
        state.reply(call) == Reply::Nothing,
{
}

/// Calls announce what they did, to what and by whom. Initialization, the count
/// of a claim and letting a campaign run again are not announced.
pub proof fn law_events_tell_what_was_done(state: State, context: Context, call: Call)
    requires
        state.refusal(context, call) is None,
    ensures
        match call {
            Call::Initialize { .. } => state.event(call) is None,
            Call::GrantRole { admin, role, account } => state.event(call) == Some(
                Event::RoleGranted { role, admin, account },
            ),
            Call::RevokeRole { admin, role, account } => state.event(call) == Some(
                Event::RoleRevoked { role, admin, account },
            ),
            Call::Pause { pauser } => state.event(call) == Some(Event::Paused { pauser }),
            Call::Unpause { pauser } => state.event(call) == Some(Event::Unpaused { pauser }),
            Call::CreateCampaign { merchant, name, description, .. } => {
                &&& state.event(call) matches Some(
                    Event::Created { id, merchant: m, name: n, description: d },
                )
                &&& state.reply(call) == Reply::CampaignId(id)
                &&& m == merchant
                &&& n == name
                &&& d == description
            },
            Call::SetActive { campaign_id, active } => {
                &&& active <==> state.event(call) is None
                &&& !active ==> state.event(call) == Some(
                    Event::Deactivated {
                        id: campaign_id,
                        merchant: state.campaigns[campaign_id].merchant,
                    },
                )
            },
            Call::RecordClaim { .. } => state.event(call) is None,
            Call::ProposeUpgrade { admin, wasm_hash } => state.event(call) == Some(
                Event::UpgradeProposed { wasm_hash, admin },
            ),
            Call::AuthorizeUpgrade { admin } => state.event(call) == Some(
                Event::UpgradeAuthorized { admin },
            ),
            Call::ExecuteUpgrade { .. } => {
                &&& state.event(call) matches Some(Event::UpgradeExecuted { wasm_hash })
                &&& state.reply(call) == Reply::Upgrade(wasm_hash)
            },
            Call::CancelUpgrade { admin } => state.event(call) == Some(
                Event::UpgradeCancelled { admin },
            ),
        },
{
}

/// The topics of an event depend on its kind alone: by them a listener tells
/// what happened, whoever and whatever it was about.
pub proof fn law_topics_name_the_kind(event: Event)
    ensures
        event is Created ==> event.name() == "CAM_CRT"@ && event.label_text() == Some("id"@),
        event is Deactivated ==> event.name() == "CAM_DEACT"@ && event.label_text() == Some("id"@),
        event is RoleGranted ==> event.name() == "ROLE_GRT"@ && event.label_text() is None,
        event is RoleRevoked ==> event.name() == "ROLE_REV"@ && event.label_text() is None,
        event is Paused ==> event.name() == "PAUSED"@ && event.label_text() is None,
        event is Unpaused ==> event.name() == "UNPAUSED"@ && event.label_text() is None,
        event is UpgradeProposed ==> event.name() == "UPG_PROP"@ && event.label_text() is None,
        event is UpgradeAuthorized ==> event.name() == "UPG_AUTH"@ && event.label_text() is None,
        event is UpgradeExecuted ==> event.name() == "UPG_EXEC"@ && event.label_text() is None,
        event is UpgradeCancelled ==> event.name() == "UPG_CNCL"@ && event.label_text() is None,
{
}

} // verus!
