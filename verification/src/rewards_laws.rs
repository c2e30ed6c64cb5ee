//! What holds of claims and redemptions, and of the three contracts together.

use vstd::prelude::*;

use crate::address::Address;
use crate::campaign::CampaignView;
use crate::campaign_laws::proper;
use crate::error::Error;
use crate::invocation::{Context, Invocation, Published};
use crate::rewards::{
    claim_keys, grant_at, multiplier, multiplier_fits, outcome, redeem_events, redeem_keys,
    redeem_refusal, rewards_event, stage_event, Answer, Call, DataKey, Event, Program,
    RewardsContract, Role, Stage, State, BASE_MULTIPLIER,
};

verus! {

/// A claim is multiplied by at least one and by at most two.
pub proof fn law_multiplier_is_between_one_and_two(now: u64, created_at: u64, expires_at: u64)
    ensures
        BASE_MULTIPLIER <= multiplier(now, created_at, expires_at) <= 2 * BASE_MULTIPLIER,
{
    if now < expires_at && created_at < expires_at {
        vstd::arithmetic::div_mod::lemma_div_pos_is_pos(
            BASE_MULTIPLIER * (expires_at - now),
            expires_at - created_at,
        );
    }
}

/// A claim at the creation of a campaign is multiplied by two, and a claim at
/// its end or later by one.
pub proof fn law_multiplier_starts_at_two_and_ends_at_one(
    now: u64,
    created_at: u64,
    expires_at: u64,
)
    requires
        created_at < expires_at,
    ensures
        now <= created_at ==> multiplier(now, created_at, expires_at) == 2 * BASE_MULTIPLIER,
        now >= expires_at ==> multiplier(now, created_at, expires_at) == BASE_MULTIPLIER,
{
    if now <= created_at {
        let duration = expires_at - created_at;
        vstd::arithmetic::div_mod::lemma_div_is_ordered(
            BASE_MULTIPLIER * duration,
            BASE_MULTIPLIER * (expires_at - now),
            duration,
        );
        vstd::arithmetic::div_mod::lemma_div_by_multiple(BASE_MULTIPLIER as int, duration);
    }
}

/// The later a claim, the smaller its multiplier.
pub proof fn law_multiplier_never_grows(now: u64, later: u64, created_at: u64, expires_at: u64)
    requires
        now <= later,
    ensures
        multiplier(later, created_at, expires_at) <= multiplier(now, created_at, expires_at),
{
    law_multiplier_is_between_one_and_two(now, created_at, expires_at);
    if later < expires_at && created_at < expires_at {
        vstd::arithmetic::div_mod::lemma_div_is_ordered(
            BASE_MULTIPLIER * (expires_at - later),
            BASE_MULTIPLIER * (expires_at - now),
            expires_at - created_at,
        );
    }
}

/// A claim from a proper campaign is worth at least its reward and at most
/// twice that.
pub proof fn law_grant_is_between_one_and_two_rewards(now: u64, campaign: CampaignView)
    requires
        proper(campaign),
    ensures
        grant_at(now, campaign) matches Some(grant) ==> campaign.reward_amount <= grant.amount <= 2
            * campaign.reward_amount,
        campaign.expiration - now <= u64::MAX as int / 10_000 && campaign.reward_amount
            <= i128::MAX as int / 20_000 ==> grant_at(now, campaign) is Some,
{
    let reward = campaign.reward_amount as int;
    let factor = multiplier(now, campaign.created_at, campaign.expiration);
    law_multiplier_is_between_one_and_two(now, campaign.created_at, campaign.expiration);
    assert(reward * 10_000 <= reward * factor <= reward * 20_000) by (nonlinear_arith)
        requires
            reward > 0,
            10_000 <= factor <= 20_000,
    ;
    assert(reward <= (reward * factor) / 10_000 <= 2 * reward);
}

/// A claim from a proper campaign at the moment of its creation is worth twice
/// the reward.
pub proof fn law_first_claim_is_worth_two_rewards(campaign: CampaignView)
    requires
        proper(campaign),
    ensures
        grant_at(campaign.created_at, campaign) matches Some(grant) ==> grant.amount == 2
            * campaign.reward_amount,
{
    let reward = campaign.reward_amount as int;
    law_multiplier_starts_at_two_and_ends_at_one(
        campaign.created_at,
        campaign.created_at,
        campaign.expiration,
    );
    assert((reward * 20_000) / 10_000 == 2 * reward);
}

/// A claim is refused to a user who claimed from the campaign before.
pub proof fn law_nobody_claims_twice(
    program: Program,
    context: Context,
    user: Address,
    campaign_id: u64,
)
    requires
        program.rewards.has_claimed(user, campaign_id),
    ensures
        program.claim_refusal(context, user, campaign_id) is Some,
        context.authorizes(user) && !program.rewards.is_paused() ==> program.claim_refusal(
            context,
            user,
            campaign_id,
        ) == Some(Error::AlreadyClaimed),
{
}

/// Once it was carried out a claim is noted, and no invocation and no other
/// claim ever drops it; a claim is noted for its own user and campaign alone.
pub proof fn law_claims_stay_noted(
    program: Program,
    context: Context,
    call: Call,
    user: Address,
    campaign_id: u64,
    other: Address,
    other_id: u64,
)
    ensures
        program.after_claim(context, user, campaign_id).rewards.has_claimed(user, campaign_id),
        program.rewards.has_claimed(other, other_id) ==> {
            &&& program.rewards.after(call).has_claimed(other, other_id)
            &&& program.after_claim(context, user, campaign_id).rewards.has_claimed(
                other,
                other_id,
            )
        },
        !program.rewards.has_claimed(other, other_id) ==> {
            &&& !program.rewards.after(call).has_claimed(other, other_id)
            &&& (other, other_id) != (user, campaign_id) ==> !program.after_claim(
                context,
                user,
                campaign_id,
            ).rewards.has_claimed(other, other_id)
        },
{
}

/// A claim is noted before another contract is asked to act on it: from then on,
/// while the claim is counted, while the reward is minted and when it is settled,
/// a second claim of the same reward is refused as claimed already, unless it
/// was not authorized or the contract is paused.
pub proof fn law_no_second_claim_while_one_runs(
    state: State,
    context: Context,
    now: u64,
    user: Address,
    campaign_id: u64,
    stage: Stage,
    answer: Answer,
)
    requires
        stage.is_answered_by(answer),
        state.next_stage(now, stage, answer) matches Ok(Stage::Record { .. }),
    ensures
        ({
            let record = state.next_stage(now, stage, answer)->Ok_0;
            let noted = state.after_stage(stage, user, campaign_id);
            let counted = noted.after_stage(record, user, campaign_id);
            &&& refuses_as_claimed(noted, context, user, campaign_id)
            &&& refuses_as_claimed(counted, context, user, campaign_id)
            &&& noted.next_stage(now, record, Answer::Recorded) matches Ok(mint) ==> {
                &&& mint is Mint
                &&& refuses_as_claimed(
                    counted.after_stage(mint, user, campaign_id),
                    context,
                    user,
                    campaign_id,
                )
            }
        }),
{
}

/// Whether a claim of `user` that is authorized is refused as claimed already
/// while the contract is not paused, and every other claim of `user` is refused
/// too.
pub open spec fn refuses_as_claimed(
    state: State,
    context: Context,
    user: Address,
    campaign_id: u64,
) -> bool {
    &&& state.has_claimed(user, campaign_id)
    &&& state.first_stage(context, user, campaign_id) is Err
    &&& context.authorizes(user) && !state.is_paused() ==> state.first_stage(
        context,
        user,
        campaign_id,
    ) == Err::<Stage, Error>(Error::AlreadyClaimed)
}

/// A claim succeeds only for a user who authorizes it, from a campaign that
/// runs, while neither the rewards contract nor the token is paused.
pub proof fn law_claims_need_a_running_campaign(
    program: Program,
    context: Context,
    user: Address,
    campaign_id: u64,
)
    requires
        program.claim_refusal(context, user, campaign_id) is None,
    ensures
        context.authorizes(user),
        !program.rewards.is_paused(),
        !program.token.is_paused(),
        program.campaigns.campaigns.contains_key(campaign_id),
        program.campaigns.campaigns[campaign_id].runs_at(context.now),
        program.campaigns.has_role(crate::campaign::Role::Recorder, context.contract),
        program.token.has_role(crate::token::Role::Minter, context.contract),
{
}

/// A claim mints exactly what it is worth to the user and to nobody else, and
/// is counted once by its campaign and by no other.
pub proof fn law_claim_mints_and_counts(
    program: Program,
    context: Context,
    user: Address,
    campaign_id: u64,
    other: Address,
    other_id: u64,
)
    requires
        program.claim_refusal(context, user, campaign_id) is None,
    ensures
        ({
            let after = program.after_claim(context, user, campaign_id);
            let amount = program.grant(context, campaign_id).amount;
            &&& amount > 0
            &&& after.token.balance_of(user) == program.token.balance_of(user) + amount
            &&& after.token.supply() == program.token.supply() + amount
            &&& other != user ==> after.token.balance_of(other) == program.token.balance_of(other)
            &&& after.campaigns.campaigns[campaign_id].total_claimed
                == program.campaigns.campaigns[campaign_id].total_claimed + 1
            &&& other_id != campaign_id ==> after.campaigns.campaigns[other_id]
                == program.campaigns.campaigns[other_id]
        }),
{
}

/// A claim keeps the token and the campaign contract sound.
pub proof fn law_claims_keep_the_programme_sound(
    program: Program,
    context: Context,
    user: Address,
    campaign_id: u64,
)
    requires
        crate::token_laws::sound(program.token),
        crate::campaign_laws::sound(program.campaigns),
        program.claim_refusal(context, user, campaign_id) is None,
    ensures
        crate::token_laws::sound(program.after_claim(context, user, campaign_id).token),
        crate::campaign_laws::sound(program.after_claim(context, user, campaign_id).campaigns),
{
    crate::token_laws::law_supply_is_the_sum_of_balances(
        program.token,
        context.calling(program.rewards.token_contract->0),
        program.mint(context, user, campaign_id),
    );
    crate::campaign_laws::law_every_call_keeps_the_contract_sound(
        program.campaigns,
        context.calling(program.rewards.campaign_contract->0),
        program.record(context, campaign_id),
    );
}

/// The users that claimed from a campaign.
pub open spec fn claimants(state: State, campaign_id: u64) -> Set<Address> {
    Set::new(|user: Address| state.has_claimed(user, campaign_id))
}

/// Every campaign counts exactly the users that claimed from it, and nobody
/// claimed from a campaign that does not exist.
pub open spec fn counts_claimants(program: Program) -> bool {
    forall|id: u64|
        {
            let users = #[trigger] claimants(program.rewards, id);
            let campaigns = program.campaigns.campaigns;
            &&& users.finite()
            &&& users.len() == if campaigns.contains_key(id) {
                campaigns[id].total_claimed as nat
            } else {
                0
            }
        }
}

/// A claim keeps every campaign counting exactly the users that claimed from
/// it.
pub proof fn law_campaigns_count_their_claimants(
    program: Program,
    context: Context,
    user: Address,
    campaign_id: u64,
)
    requires
        counts_claimants(program),
        program.claim_refusal(context, user, campaign_id) is None,
    ensures
        counts_claimants(program.after_claim(context, user, campaign_id)),
{
    let after = program.after_claim(context, user, campaign_id);
    assert forall|id: u64|
        {
            let users = #[trigger] claimants(after.rewards, id);
            let campaigns = after.campaigns.campaigns;
            &&& users.finite()
            &&& users.len() == if campaigns.contains_key(id) {
                campaigns[id].total_claimed as nat
            } else {
                0
            }
        } by {
        let before = claimants(program.rewards, id);
        if id == campaign_id {
            assert(claimants(after.rewards, id) =~= before.insert(user));
        } else {
            assert(claimants(after.rewards, id) =~= before);
        }
    }
}

/// While the rewards contract is paused nothing is claimed and nothing is
/// redeemed.
pub proof fn law_nothing_is_rewarded_while_paused(
    program: Program,
    context: Context,
    user: Address,
    campaign_id: u64,
    amount: i128,
)
    requires
        program.rewards.is_paused(),
    ensures
        program.claim_refusal(context, user, campaign_id) is Some,
        redeem_refusal(program.rewards, program.token, context, user, amount) is Some,
{
}

/// Redeeming what a claim paid restores every balance and the supply.
pub proof fn law_redeeming_undoes_the_minting_of_a_claim(
    program: Program,
    context: Context,
    user: Address,
    campaign_id: u64,
    other: Address,
)
    requires
        program.claim_refusal(context, user, campaign_id) is None,
        program.token.balance_of(user) >= 0,
    ensures
        ({
            let claimed = program.after_claim(context, user, campaign_id);
            let amount = program.grant(context, campaign_id).amount;
            let burn = crate::token::Call::Burn { from: user, amount };
            &&& redeem_refusal(claimed.rewards, claimed.token, context, user, amount) is None
            &&& claimed.token.after(burn).balance_of(other) == program.token.balance_of(other)
            &&& claimed.token.after(burn).supply() == program.token.supply()
        }),
{
}

/// An initialized contract stays initialized, keeps the contracts that it
/// works with, and refuses to be initialized again.
pub proof fn law_initialized_once(state: State, context: Context, call: Call)
    requires
        state.is_initialized(),
    ensures
        call is Initialize ==> state.refusal(context, call) == Some(Error::AlreadyInitialized),
        state.refusal(context, call) is None ==> {
            &&& state.after(call).is_initialized()
            &&& state.after(call).token_contract == state.token_contract
            &&& state.after(call).campaign_contract == state.campaign_contract
        },
{
}

/// Unpausing undoes pausing.
pub proof fn law_unpause_undoes_pause(state: State, pauser: Address, other: Address)
    requires
        state.paused == Some(false),
    ensures
        state.after(Call::Pause { pauser }).is_paused(),
        state.after(Call::Pause { pauser }).after(Call::Unpause { pauser: other }) == state,
{
}

/// Who holds which role changes only by initialization and by an admin.
pub proof fn law_only_admins_change_roles(
    state: State,
    context: Context,
    call: Call,
    role: Role,
    account: Address,
)
    requires
        state.refusal(context, call) is None,
        state.after(call).has_role(role, account) != state.has_role(role, account),
    ensures
        call is Initialize && !state.is_initialized() || (call.author() matches Some(admin)
            && state.has_role(Role::Admin, admin) && context.authorizes(admin)),
{
}

/// Granting a role gives it to the account and to nobody else; revoking it
/// takes it away, also when it was granted before.
pub proof fn law_grant_and_revoke(
    state: State,
    admin: Address,
    role: Role,
    account: Address,
    other_role: Role,
    other: Address,
)
    ensures
        ({
            let granted = state.after(Call::GrantRole { admin, role, account });
            let revoke = Call::RevokeRole { admin, role, account };
            let revoked = state.after(revoke);
            &&& granted.has_role(role, account)
            &&& !revoked.has_role(role, account)
            &&& !granted.after(revoke).has_role(role, account)
            &&& (other_role, other) != (role, account) ==> {
                &&& granted.has_role(other_role, other) == state.has_role(other_role, other)
                &&& revoked.has_role(other_role, other) == state.has_role(other_role, other)
            }
        }),
{
}

/// A call that its author authorized is never refused for want of an
/// authorization, and a call that the author did not authorize always is. The
/// same holds of a claim and a redemption and their user.
pub proof fn law_authors_authorize(
    state: State,
    context: Context,
    call: Call,
    user: Address,
    campaign_id: u64,
    amount: i128,
)
    ensures
        (state.refusal(context, call) == Some(Error::NotAuthorized)) == (call.author() matches Some(
            account,
        ) && !context.authorizes(account)),
        (state.first_stage(context, user, campaign_id) == Err::<Stage, Error>(
            Error::NotAuthorized,
        )) == !context.authorizes(user),
        (state.redeemed_at(context, user, amount) == Err::<Address, Error>(Error::NotAuthorized))
            == !context.authorizes(user),
{
}

/// Whether the footprint of `call` names `key`.
spec fn touches(call: Call, key: DataKey) -> bool {
    match call {
        Call::Initialize { admin, .. } => match key {
            DataKey::RoleMember(_, account) => account == admin,
            DataKey::Claimed(_, _) => false,
            _ => true,
        },
        Call::GrantRole { admin, role, account } => key == DataKey::RoleMember(Role::Admin, admin)
            || key == DataKey::RoleMember(role, account),
        Call::RevokeRole { admin, role, account } => key == DataKey::RoleMember(Role::Admin, admin)
            || key == DataKey::RoleMember(role, account),
        Call::Pause { pauser } => key == DataKey::RoleMember(Role::Pauser, pauser) || key
            == DataKey::Paused,
        Call::Unpause { pauser } => key == DataKey::RoleMember(Role::Pauser, pauser) || key
            == DataKey::Paused,
    }
}

proof fn lemma_touches(call: Call, key: DataKey)
    ensures
        call.keys().contains(key) == touches(call, key),
{
    let keys = call.keys();
    if touches(call, key) {
        assert(keys.len() > 0 && keys[0] == key || keys.len() > 1 && keys[1] == key || keys.len()
            > 2 && keys[2] == key || keys.len() > 3 && keys[3] == key || keys.len() > 4 && keys[4]
            == key);
    }
}

/// What becomes of a call depends on the entries that its footprint names and
/// on no others, and it leaves all others as they are.
pub proof fn law_footprint(state: State, other: State, context: Context, call: Call)
    requires
        forall|key: DataKey| call.keys().contains(key) ==> #[trigger] state.entry(key)
            == other.entry(key),
    ensures
        state.refusal(context, call) == other.refusal(context, call),
        state.event(call) == other.event(call),
        forall|key: DataKey|
            call.keys().contains(key) ==> #[trigger] state.after(call).entry(key) == other.after(
                call,
            ).entry(key),
        forall|key: DataKey|
            !call.keys().contains(key) ==> #[trigger] state.after(call).entry(key) == state.entry(
                key,
            ),
{
    let same = |key: DataKey| state.entry(key) == other.entry(key);
    assert forall|key: DataKey| touches(call, key) implies #[trigger] state.entry(key)
        == other.entry(key) by {
        lemma_touches(call, key);
    }
    match call {
        Call::Initialize { .. } => {
            assert(same(DataKey::Paused));
        },
        Call::GrantRole { admin, .. } => {
            assert(same(DataKey::RoleMember(Role::Admin, admin)));
        },
        Call::RevokeRole { admin, .. } => {
            assert(same(DataKey::RoleMember(Role::Admin, admin)));
        },
        Call::Pause { pauser } => {
            assert(same(DataKey::RoleMember(Role::Pauser, pauser)));
        },
        Call::Unpause { pauser } => {
            assert(same(DataKey::RoleMember(Role::Pauser, pauser)));
        },
    }
    assert forall|key: DataKey|
        call.keys().contains(key) implies #[trigger] state.after(call).entry(key) == other.after(
        call,
    ).entry(key) by {
        lemma_touches(call, key);
        assert(same(key));
    }
    assert forall|key: DataKey|
        !call.keys().contains(key) implies #[trigger] state.after(call).entry(key) == state.entry(
        key,
    ) by {
        lemma_touches(call, key);
    }
}

/// Every step of a claim depends on the entries that its footprint names and on
/// no others, and it leaves all others as they are.
pub proof fn law_claim_footprint(
    state: State,
    other: State,
    context: Context,
    user: Address,
    campaign_id: u64,
    stage: Stage,
    answer: Answer,
)
    requires
        forall|key: DataKey|
            claim_keys(user, campaign_id).contains(key) ==> #[trigger] state.entry(key)
                == other.entry(key),
    ensures
        state.first_stage(context, user, campaign_id) == other.first_stage(
            context,
            user,
            campaign_id,
        ),
        state.next_stage(context.now, stage, answer) == other.next_stage(
            context.now,
            stage,
            answer,
        ),
        forall|key: DataKey|
            claim_keys(user, campaign_id).contains(key) ==> #[trigger] state.after_stage(
                stage,
                user,
                campaign_id,
            ).entry(key) == other.after_stage(stage, user, campaign_id).entry(key),
        forall|key: DataKey|
            !claim_keys(user, campaign_id).contains(key) ==> #[trigger] state.after_stage(
                stage,
                user,
                campaign_id,
            ).entry(key) == state.entry(key),
{
    let keys = claim_keys(user, campaign_id);
    let same = |key: DataKey| state.entry(key) == other.entry(key);
    assert(keys[0] == DataKey::Paused && keys[1] == DataKey::Claimed(user, campaign_id) && keys[2]
        == DataKey::CampaignContract && keys[3] == DataKey::TokenContract);
    assert(keys.contains(DataKey::Paused) && same(DataKey::Paused));
    assert(keys.contains(DataKey::Claimed(user, campaign_id)) && same(
        DataKey::Claimed(user, campaign_id),
    ));
    assert(keys.contains(DataKey::CampaignContract) && same(DataKey::CampaignContract));
    assert(keys.contains(DataKey::TokenContract) && same(DataKey::TokenContract));
    assert forall|key: DataKey| keys.contains(key) implies #[trigger] state.after_stage(
        stage,
        user,
        campaign_id,
    ).entry(key) == other.after_stage(stage, user, campaign_id).entry(key) by {
        assert(same(key));
    }
}

/// A redemption depends on the entries that its footprint names and on no
/// others.
pub proof fn law_redeem_footprint(
    state: State,
    other: State,
    context: Context,
    user: Address,
    amount: i128,
)
    requires
        forall|key: DataKey|
            redeem_keys().contains(key) ==> #[trigger] state.entry(key) == other.entry(key),
    ensures
        state.redeemed_at(context, user, amount) == other.redeemed_at(context, user, amount),
{
    let keys = redeem_keys();
    let same = |key: DataKey| state.entry(key) == other.entry(key);
    assert(keys[0] == DataKey::Paused && keys[1] == DataKey::TokenContract);
    assert(keys.contains(DataKey::Paused) && same(DataKey::Paused));
    assert(keys.contains(DataKey::TokenContract) && same(DataKey::TokenContract));
}

/// Above the base, the multiplier is linear in the time that is left, however
/// long the campaign lasts: of 10 000 basis points a claim gets the share that
/// the time left has in the whole time, rounded down. Before its creation a
/// campaign gives all of them, at and after its end none, and none either if it
/// has no time to run at all.
pub proof fn law_bonus_is_the_share_of_the_time_left(now: u64, created_at: u64, expires_at: u64)
    ensures
        ({
            let bonus = multiplier(now, created_at, expires_at) - 10_000;
            let whole = expires_at - created_at;
            let left = expires_at - now;
            &&& whole > 0 && created_at <= now < expires_at ==> bonus * whole <= 10_000 * left < (
            bonus + 1) * whole
            &&& whole > 0 && now < created_at ==> bonus == 10_000
            &&& now >= expires_at ==> bonus == 0
            &&& whole <= 0 ==> bonus == 0
        }),
{
    let whole = expires_at - created_at;
    let left = expires_at - now;
    if whole > 0 && now < expires_at {
        let extra = (10_000 * left) / whole;
        vstd::arithmetic::div_mod::lemma_fundamental_div_mod(10_000 * left, whole);
        vstd::arithmetic::div_mod::lemma_mod_bound(10_000 * left, whole);
        assert(extra * whole <= 10_000 * left < (extra + 1) * whole) by (nonlinear_arith)
            requires
                10_000 * left == whole * extra + (10_000 * left) % whole,
                0 <= (10_000 * left) % whole < whole,
        ;
        if created_at <= now {
            assert(extra <= 10_000) by (nonlinear_arith)
                requires
                    extra * whole <= 10_000 * left,
                    0 < left <= whole,
            ;
        } else {
            assert(extra >= 10_000) by (nonlinear_arith)
                requires
                    10_000 * left < (extra + 1) * whole,
                    0 < whole < left,
            ;
        }
    }
}

/// Two campaigns of which the same share is left give the same multiplier: it
/// does not matter how long they last or when they began.
pub proof fn law_equal_shares_give_equal_multipliers(
    now: u64,
    created_at: u64,
    expires_at: u64,
    other_now: u64,
    other_created_at: u64,
    other_expires_at: u64,
)
    requires
        created_at <= now < expires_at,
        other_created_at <= other_now < other_expires_at,
        (expires_at - now) * (other_expires_at - other_created_at) == (other_expires_at
            - other_now) * (expires_at - created_at),
    ensures
        multiplier(now, created_at, expires_at) == multiplier(
            other_now,
            other_created_at,
            other_expires_at,
        ),
{
    law_bonus_is_the_share_of_the_time_left(now, created_at, expires_at);
    law_bonus_is_the_share_of_the_time_left(other_now, other_created_at, other_expires_at);
    let (left, whole) = (expires_at - now, expires_at - created_at);
    let (l, w) = (other_expires_at - other_now, other_expires_at - other_created_at);
    let a = multiplier(now, created_at, expires_at) - 10_000;
    let b = multiplier(other_now, other_created_at, other_expires_at) - 10_000;
    assert(a < b + 1) by (nonlinear_arith)
        requires
            a * whole <= 10_000 * left,
            10_000 * l < (b + 1) * w,
            left * w == l * whole,
            whole > 0,
            w > 0,
    {
        assert(a * whole * w <= 10_000 * left * w);
        assert(10_000 * l * whole < (b + 1) * w * whole);
        assert(a * (whole * w) < (b + 1) * (whole * w));
    }
    assert(b < a + 1) by (nonlinear_arith)
        requires
            b * w <= 10_000 * l,
            10_000 * left < (a + 1) * whole,
            left * w == l * whole,
            whole > 0,
            w > 0,
    {
        assert(b * w * whole <= 10_000 * l * whole);
        assert(10_000 * left * w < (a + 1) * whole * w);
        assert(b * (whole * w) < (a + 1) * (whole * w));
    }
}

/// The multiplier can be computed for every claim after the end of a campaign
/// or from a campaign without time to run, and for every other claim exactly if
/// 10 000 times the seconds that are left are a number of 64 bits.
pub proof fn law_multiplier_is_computable_exactly(now: u64, created_at: u64, expires_at: u64)
    ensures
        now >= expires_at || created_at >= expires_at ==> multiplier_fits(
            now,
            created_at,
            expires_at,
        ),
        now < expires_at && created_at < expires_at ==> (multiplier_fits(
            now,
            created_at,
            expires_at,
        ) <==> 10_000 * (expires_at - now) <= 0xffff_ffff_ffff_ffff),
{
}

/// A claim is worth the reward times the multiplier, in whole tokens: what is
/// behind the point is cut off, towards zero. It has a worth exactly if the
/// multiplier can be computed and the product is an amount.
pub proof fn law_grant_is_the_reward_times_the_multiplier(now: u64, campaign: CampaignView)
    ensures
        ({
            let factor = multiplier(now, campaign.created_at, campaign.expiration);
            let product = campaign.reward_amount * factor;
            &&& grant_at(now, campaign) is Some <==> multiplier_fits(
                now,
                campaign.created_at,
                campaign.expiration,
            ) && i128::MIN <= product <= i128::MAX
            &&& grant_at(now, campaign) matches Some(grant) ==> {
                &&& grant.multiplier_bp == factor
                &&& campaign.reward_amount >= 0 ==> grant.amount * 10_000 <= product < (
                grant.amount + 1) * 10_000
                &&& campaign.reward_amount < 0 ==> (grant.amount - 1) * 10_000 < product
                    <= grant.amount * 10_000
            }
        }),
{
    let factor = multiplier(now, campaign.created_at, campaign.expiration);
    let reward = campaign.reward_amount as int;
    law_multiplier_is_between_one_and_two(now, campaign.created_at, campaign.expiration);
    assert(reward >= 0 ==> reward * factor >= 0) by (nonlinear_arith)
        requires
            factor >= 0,
    ;
    assert(reward < 0 ==> reward * factor < 0) by (nonlinear_arith)
        requires
            factor > 0,
    ;
}

/// What a claim is worth does not depend on who runs the campaign, how it is
/// called or how often it was claimed from; twice the reward is worth twice as
/// much, but for one token of rounding.
pub proof fn law_grant_depends_on_the_terms_alone(
    now: u64,
    campaign: CampaignView,
    other: CampaignView,
)
    requires
        campaign.created_at == other.created_at,
        campaign.expiration == other.expiration,
    ensures
        campaign.reward_amount == other.reward_amount ==> grant_at(now, campaign) == grant_at(
            now,
            other,
        ),
        campaign.reward_amount >= 0 && other.reward_amount == 2 * campaign.reward_amount ==> (
        grant_at(now, campaign) matches Some(grant) ==> grant_at(now, other) matches Some(double)
            ==> 2 * grant.amount <= double.amount <= 2 * grant.amount + 1),
{
    law_grant_is_the_reward_times_the_multiplier(now, campaign);
    law_grant_is_the_reward_times_the_multiplier(now, other);
    let factor = multiplier(now, campaign.created_at, campaign.expiration);
    let reward = campaign.reward_amount as int;
    if other.reward_amount == 2 * reward {
        assert(other.reward_amount * factor == 2 * (reward * factor)) by (nonlinear_arith)
            requires
                other.reward_amount == 2 * reward,
        ;
    }
}

/// What the contract answers is what its ledger entries hold: a role that is
/// noted as held, a claim whose entry stands, and the pause switch once it was
/// set.
pub proof fn law_answers_show_the_entries(
    state: State,
    role: Role,
    account: Address,
    campaign_id: u64,
)
    ensures
        state.has_role(role, account) <==> state.members.contains_key((role, account))
            && state.members[(role, account)],
        state.has_claimed(account, campaign_id) <==> state.claimed.contains_key(
            (account, campaign_id),
        ),
        state.is_initialized() <==> state.paused is Some,
        state.is_paused() <==> state.paused == Some(true),
{
}

/// What the contracts of the methods speak of is what the fields hold, and a new
/// contract holds nothing.
pub proof fn law_fields_are_the_entries(contract: RewardsContract)
    ensures
        contract@.claimed == contract.claimed@,
        contract@.token_contract == contract.token_contract,
        contract@.campaign_contract == contract.campaign_contract,
        contract@.members == contract.members@,
        contract@.paused == contract.paused,
        State::empty().claimed == Map::<(Address, u64), bool>::empty(),
        State::empty().token_contract is None,
        State::empty().campaign_contract is None,
        State::empty().members == Map::<(Role, Address), bool>::empty(),
        State::empty().paused is None,
{
}

/// The entries tell two states of the contract apart: where all are the same,
/// the states are.
pub proof fn law_entries_tell_states_apart(state: State, other: State)
    requires
        forall|key: DataKey| #[trigger] state.entry(key) == other.entry(key),
    ensures
        state == other,
{
    let same = |key: DataKey| state.entry(key) == other.entry(key);
    assert(same(DataKey::TokenContract) && same(DataKey::CampaignContract));
    assert(same(DataKey::Paused));
    assert forall|member: (Role, Address)|
        {
            &&& #[trigger] state.members.contains_key(member) == other.members.contains_key(member)
            &&& state.members.contains_key(member) ==> state.members[member]
                == other.members[member]
        } by {
        assert(same(DataKey::RoleMember(member.0, member.1)));
    }
    assert(state.members =~= other.members);
    assert forall|claim: (Address, u64)|
        {
            &&& #[trigger] state.claimed.contains_key(claim) == other.claimed.contains_key(claim)
            &&& state.claimed.contains_key(claim) ==> state.claimed[claim] == other.claimed[claim]
        } by {
        assert(same(DataKey::Claimed(claim.0, claim.1)));
    }
    assert(state.claimed =~= other.claimed);
    assert(state =~= other);
}

/// A call is carried out as a whole or not at all. It is carried out exactly
/// when nothing speaks against it; then its entries are written and its event,
/// if it has one, is published in the name of the contract. Else the reason is
/// returned, no entry changes and nothing is published. The invocation itself
/// stays what it was.
pub proof fn law_all_or_nothing(
    before: State,
    start: Invocation,
    call: Call,
    result: Result<(), Error>,
    after: State,
    end: Invocation,
)
    requires
        outcome(before, start, call, result, after, end),
    ensures
        end.host == start.host,
        end.contract == start.contract,
        end.now == start.now,
        end.signers@ == start.signers@,
        result is Ok <==> before.refusal(start.context(), call) is None,
        result matches Err(error) ==> {
            &&& before.refusal(start.context(), call) == Some(error)
            &&& after == before
            &&& end.events@ == start.events@
        },
        result is Ok ==> {
            &&& after == before.after(call)
            &&& match before.event(call) {
                Some(event) => end.events@ == start.events@.push(
                    Published {
                        contract: start.contract,
                        event: crate::invocation::Event::Rewards(event),
                    },
                ),
                None => end.events@ == start.events@,
            }
        },
{
}

/// Initialization succeeds as long as the pause switch was never written,
/// whoever asks for it. It stores the two contracts that it is given, lets users
/// claim, and gives both roles to `admin` and no role to anybody else. Claims
/// stay.
pub proof fn law_initialization_stores_what_it_is_given(
    state: State,
    context: Context,
    admin: Address,
    token_contract: Address,
    campaign_contract: Address,
    role: Role,
    other: Address,
)
    ensures
        ({
            let call = Call::Initialize { admin, token_contract, campaign_contract };
            let after = state.after(call);
            &&& state.refusal(context, call) is None <==> state.paused is None
            &&& state.refusal(context, call) is Some ==> state.refusal(context, call) == Some(
                Error::AlreadyInitialized,
            )
            &&& after.token_contract == Some(token_contract)
            &&& after.campaign_contract == Some(campaign_contract)
            &&& after.paused == Some(false)
            &&& after.claimed == state.claimed
            &&& after.members.contains_key((role, admin)) && after.members[(role, admin)]
            &&& other != admin ==> {
                &&& after.members.contains_key((role, other)) == state.members.contains_key(
                    (role, other),
                )
                &&& after.members.contains_key((role, other)) ==> after.members[(role, other)]
                    == state.members[(role, other)]
            }
        }),
{
}

/// A call that asks for a role is carried out exactly when the account that it
/// names authorizes it and holds the role: an admin to change roles, a pauser to
/// pause and unpause. Who does not authorize it learns that, and who does but
/// holds no such role learns that instead.
pub proof fn law_role_calls_succeed_exactly_for_holders(
    state: State,
    context: Context,
    call: Call,
    account: Address,
)
    requires
        match call {
            Call::Initialize { .. } => false,
            Call::GrantRole { admin, .. } => admin == account,
            Call::RevokeRole { admin, .. } => admin == account,
            Call::Pause { pauser } => pauser == account,
            Call::Unpause { pauser } => pauser == account,
        },
    ensures
        ({
            let role = if call is Pause || call is Unpause {
                Role::Pauser
            } else {
                Role::Admin
            };
            let holds = state.members.contains_key((role, account)) && state.members[(
                role,
                account,
            )];
            let refusal = state.refusal(context, call);
            &&& refusal is None <==> context.signers.contains(account) && holds
            &&& refusal == Some(Error::NotAuthorized) <==> !context.signers.contains(account)
            &&& refusal == Some(Error::MissingRole) <==> context.signers.contains(account)
                && !holds
        }),
{
}

/// Granting and revoking touch the one membership that they name, pausing and
/// unpausing the switch, and none of them anything else.
pub proof fn law_role_calls_touch_one_entry(
    state: State,
    admin: Address,
    role: Role,
    account: Address,
)
    ensures
        state.after(Call::GrantRole { admin, role, account }) == (State {
            members: state.members.insert((role, account), true),
            ..state
        }),
        state.after(Call::RevokeRole { admin, role, account }) == (State {
            members: state.members.remove((role, account)),
            ..state
        }),
        state.after(Call::Pause { pauser: account }) == (State { paused: Some(true), ..state }),
        state.after(Call::Unpause { pauser: account }) == (State { paused: Some(false), ..state }),
{
}

/// Every call but initialization announces what it did, to whom and by whom.
pub proof fn law_events_tell_what_was_done(state: State, call: Call)
    ensures
        match call {
            Call::Initialize { .. } => state.event(call) is None,
            Call::GrantRole { admin, role, account } => state.event(call) == Some(
                Event::RoleGranted { role, admin, account },
            ),
            Call::RevokeRole { admin, role, account } => state.event(call) == Some(
                Event::RoleRevoked { role, admin, account },
            ),
            Call::Pause { pauser } => state.event(call) == Some(Event::Paused { pauser }),
            Call::Unpause { pauser } => state.event(call) == Some(Event::Unpaused { pauser }),
        },
{
}

/// The topics of an event depend on its kind alone: by them a listener tells
/// what happened, whoever and however much it was about.
pub proof fn law_topics_name_the_kind(event: Event)
    ensures
        event is RewardClaimed ==> event.name() == "RWD_CLM"@ && event.label_text() == Some(
            "user"@,
        ),
        event is RewardRedeemed ==> event.name() == "RWD_RDM"@ && event.label_text() == Some(
            "user"@,
        ),
        event is RoleGranted ==> event.name() == "ROLE_GRT"@ && event.label_text() is None,
        event is RoleRevoked ==> event.name() == "ROLE_REV"@ && event.label_text() is None,
        event is Paused ==> event.name() == "PAUSED"@ && event.label_text() is None,
        event is Unpaused ==> event.name() == "UNPAUSED"@ && event.label_text() is None,
{
}

/// A claim begins exactly when the user authorizes it, the contract is not
/// paused, the user did not claim from the campaign, and the campaign contract
/// is known, which is then asked. The first of these that fails is the one that
/// is reported.
pub proof fn law_claims_begin_exactly(
    state: State,
    context: Context,
    user: Address,
    campaign_id: u64,
)
    ensures
        ({
            let first = state.first_stage(context, user, campaign_id);
            let authorized = context.signers.contains(user);
            let open = authorized && state.paused != Some(true);
            let unclaimed = open && !state.claimed.contains_key((user, campaign_id));
            &&& first is Ok <==> unclaimed && state.campaign_contract is Some
            &&& first == Err::<Stage, Error>(Error::NotAuthorized) <==> !authorized
            &&& first == Err::<Stage, Error>(Error::ContractPaused) <==> authorized && !open
            &&& first == Err::<Stage, Error>(Error::AlreadyClaimed) <==> open && !unclaimed
            &&& first == Err::<Stage, Error>(Error::NotInitialized) <==> unclaimed
                && state.campaign_contract is None
            &&& first matches Ok(stage) ==> (stage matches Stage::AskActive { campaign_contract }
                && state.campaign_contract == Some(campaign_contract))
        }),
{
}

/// A claim goes its way whatever the other contracts answer: on from the first
/// question exactly if the campaign is active, from the second exactly if the
/// claim has a worth, which is what is minted in the end, from the count exactly
/// if the token is known, and from the minting to its end. Each stage asks the
/// contract that it has to.
pub proof fn law_claims_go_from_stage_to_stage(
    state: State,
    now: u64,
    stage: Stage,
    answer: Answer,
)
    requires
        stage.is_answered_by(answer),
    ensures
        ({
            let next = state.next_stage(now, stage, answer);
            match (stage, answer) {
                (Stage::AskActive { campaign_contract }, Answer::Active(active)) => {
                    &&& active ==> next == Ok::<Stage, Error>(Stage::AskTerms { campaign_contract })
                    &&& !active ==> next == Err::<Stage, Error>(Error::CampaignNotActive)
                },
                (Stage::AskTerms { campaign_contract }, Answer::Terms(campaign)) => {
                    &&& grant_at(now, campaign@) matches Some(grant) ==> next == Ok::<
                        Stage,
                        Error,
                    >(Stage::Record { campaign_contract, grant })
                    &&& grant_at(now, campaign@) is None ==> next == Err::<Stage, Error>(
                        Error::ArithmeticOverflow,
                    )
                },
                (Stage::Record { grant, .. }, Answer::Recorded) => {
                    &&& state.token_contract matches Some(token_contract) ==> next == Ok::<
                        Stage,
                        Error,
                    >(Stage::Mint { token_contract, grant })
                    &&& state.token_contract is None ==> next == Err::<Stage, Error>(
                        Error::NotInitialized,
                    )
                },
                (Stage::Mint { .. }, Answer::Minted) => next == Ok::<Stage, Error>(Stage::Done),
                _ => false,
            }
        }),
{
}

/// Each stage takes the answer to what it asks and no other one, and a settled
/// claim takes none.
pub proof fn law_stages_take_their_answers(stage: Stage, answer: Answer)
    ensures
        stage.is_answered_by(answer) <==> {
            ||| stage is AskActive && answer is Active
            ||| stage is AskTerms && answer is Terms
            ||| stage is Record && answer is Recorded
            ||| stage is Mint && answer is Minted
        },
{
}

/// A claim writes one entry, when the worth of the claim is known: its own note.
/// It is announced once, when the reward was minted, with what was minted.
pub proof fn law_stages_write_and_announce(
    state: State,
    stage: Stage,
    user: Address,
    campaign_id: u64,
)
    ensures
        stage is AskTerms ==> state.after_stage(stage, user, campaign_id) == (State {
            claimed: state.claimed.insert((user, campaign_id), true),
            ..state
        }),
        !(stage is AskTerms) ==> state.after_stage(stage, user, campaign_id) == state,
        stage matches Stage::Mint { grant, .. } ==> stage_event(stage, user, campaign_id) == Some(
            Event::RewardClaimed {
                user,
                campaign_id,
                amount: grant.amount,
                multiplier_bp: grant.multiplier_bp,
            },
        ),
        !(stage is Mint) ==> stage_event(stage, user, campaign_id) is None,
        forall|event: Event| #[trigger]
            rewards_event(Some(event)) == Some(crate::invocation::Event::Rewards(event)),
        rewards_event(None) is None,
{
}

/// A claim succeeds exactly when the user authorizes it and did not claim
/// before, neither the rewards contract nor the token is paused, both other
/// contracts are known, the campaign exists and runs, the claim has a positive
/// worth, the rewards contract may count and mint, and neither the count, the
/// balance nor the supply grows beyond its type.
pub proof fn law_claims_succeed_exactly(
    program: Program,
    context: Context,
    user: Address,
    campaign_id: u64,
)
    ensures
        program.claim_refusal(context, user, campaign_id) is None <==> {
            let campaign = program.campaigns.campaigns[campaign_id];
            let grant = grant_at(context.now, campaign);
            &&& context.signers.contains(user)
            &&& program.rewards.paused != Some(true)
            &&& !program.rewards.claimed.contains_key((user, campaign_id))
            &&& program.rewards.campaign_contract is Some
            &&& program.rewards.token_contract is Some
            &&& program.campaigns.campaigns.contains_key(campaign_id)
            &&& campaign.active
            &&& context.now < campaign.expiration
            &&& program.campaigns.has_role(crate::campaign::Role::Recorder, context.contract)
            &&& campaign.total_claimed < u64::MAX
            &&& program.token.has_role(crate::token::Role::Minter, context.contract)
            &&& program.token.paused != Some(true)
            &&& grant is Some
            &&& grant->0.amount > 0
            &&& program.token.balance_of(user) + grant->0.amount <= i128::MAX
            &&& program.token.supply() + grant->0.amount <= i128::MAX
        },
{
}

/// A claim that fails reports the first thing that speaks against it, in the
/// order in which the contracts are asked: what the rewards contract itself
/// sees, whether the campaign is there and runs, what the claim is worth, what
/// the campaign contract says to the count, and what the token says to the
/// minting.
pub proof fn law_claims_report_the_first_obstacle(
    program: Program,
    context: Context,
    user: Address,
    campaign_id: u64,
)
    ensures
        ({
            let refusal = program.claim_refusal(context, user, campaign_id);
            let campaign = program.campaigns.campaigns[campaign_id];
            let grant = grant_at(context.now, campaign);
            let begins = program.rewards.first_stage(context, user, campaign_id);
            let found = begins is Ok && program.campaigns.campaigns.contains_key(campaign_id);
            let runs = found && campaign.active && context.now < campaign.expiration;
            let valued = runs && grant is Some;
            let count = program.campaigns.refusal(
                context.calling(program.rewards.campaign_contract->0),
                crate::campaign::Call::RecordClaim { recorder: context.contract, campaign_id },
            );
            let counted = valued && count is None;
            let mint = program.token.refusal(
                context.calling(program.rewards.token_contract->0),
                crate::token::Call::Mint {
                    minter: context.contract,
                    to: user,
                    amount: grant->0.amount,
                },
            );
            &&& begins matches Err(error) ==> refusal == Some(error)
            &&& begins is Ok && !found ==> refusal == Some(Error::CampaignNotFound)
            &&& found && !runs ==> refusal == Some(Error::CampaignNotActive)
            &&& runs && !valued ==> refusal == Some(Error::ArithmeticOverflow)
            &&& valued && !counted ==> refusal == count
            &&& counted && program.rewards.token_contract is None ==> refusal == Some(
                Error::NotInitialized,
            )
            &&& counted && program.rewards.token_contract is Some ==> refusal == mint
        }),
{
}

/// A claim notes itself, adds one to the count of its campaign, and credits the
/// user and the supply with what it is worth; in all three contracts nothing
/// else changes. What is credited is the reward with a bonus that is linear in
/// the time left, rounded down twice.
pub proof fn law_claims_change_three_entries_and_the_supply(
    program: Program,
    context: Context,
    user: Address,
    campaign_id: u64,
)
    requires
        program.claim_refusal(context, user, campaign_id) is None,
    ensures
        ({
            let after = program.after_claim(context, user, campaign_id);
            let before = program.campaigns.campaigns[campaign_id];
            let campaign = after.campaigns.campaigns[campaign_id];
            let minted = after.token.balance_of(user) - program.token.balance_of(user);
            let factor = multiplier(context.now, before.created_at, before.expiration);
            &&& after.rewards == (crate::rewards::State {
                claimed: program.rewards.claimed.insert((user, campaign_id), true),
                ..program.rewards
            })
            &&& campaign.total_claimed - before.total_claimed == 1
            &&& campaign == (CampaignView { total_claimed: campaign.total_claimed, ..before })
            &&& after.campaigns.campaigns == program.campaigns.campaigns.insert(
                campaign_id,
                campaign,
            )
            &&& after.campaigns == (crate::campaign::State {
                campaigns: after.campaigns.campaigns,
                ..program.campaigns
            })
            &&& minted == program.grant(context, campaign_id).amount
            &&& minted * 10_000 <= before.reward_amount * factor < (minted + 1) * 10_000
            &&& after.token.supply() - program.token.supply() == minted
            &&& after.token.balances == program.token.balances.insert(
                user,
                after.token.balances[user],
            )
            &&& after.token == (crate::token::State {
                balances: after.token.balances,
                total_supply: after.token.total_supply,
                ..program.token
            })
        }),
{
    let campaign = program.campaigns.campaigns[campaign_id];
    law_grant_is_the_reward_times_the_multiplier(context.now, campaign);
    law_multiplier_is_between_one_and_two(context.now, campaign.created_at, campaign.expiration);
    let after = program.after_claim(context, user, campaign_id);
    assert(after.token.balances =~= program.token.balances.insert(
        user,
        after.token.balances[user],
    ));
    if campaign.reward_amount < 0 {
        let factor = multiplier(context.now, campaign.created_at, campaign.expiration);
        assert(campaign.reward_amount * factor < 0) by (nonlinear_arith)
            requires
                campaign.reward_amount < 0,
                factor > 0,
        ;
    }
}

/// A claim is announced twice: first the token announces what it minted to the
/// user and the supply that is left, then the rewards contract announces the
/// claim with the same amount and the multiplier of that moment.
pub proof fn law_claims_are_announced_twice(
    program: Program,
    context: Context,
    user: Address,
    campaign_id: u64,
)
    requires
        program.claim_refusal(context, user, campaign_id) is None,
    ensures
        ({
            let events = program.claim_events(context, user, campaign_id);
            let after = program.after_claim(context, user, campaign_id);
            let campaign = program.campaigns.campaigns[campaign_id];
            &&& events.len() == 2
            &&& program.rewards.token_contract == Some(events[0].contract)
            &&& events[0].event matches crate::invocation::Event::Token(
                crate::token::Event::Mint { to, amount, supply },
            ) && to == user && amount == after.token.balance_of(user) - program.token.balance_of(
                user,
            ) && supply == after.token.supply()
            &&& events[1].contract == context.contract
            &&& events[1].event matches crate::invocation::Event::Rewards(
                Event::RewardClaimed { user: claimant, campaign_id: id, amount, multiplier_bp },
            ) && claimant == user && id == campaign_id && amount == after.token.balance_of(user)
                - program.token.balance_of(user) && multiplier_bp == multiplier(
                context.now,
                campaign.created_at,
                campaign.expiration,
            )
        }),
{
    let campaign = program.campaigns.campaigns[campaign_id];
    law_grant_is_the_reward_times_the_multiplier(context.now, campaign);
}

/// A redemption begins exactly when the user authorizes it, the contract is not
/// paused, the amount is positive, and the token is known, which is then asked.
/// The first of these that fails is the one that is reported.
pub proof fn law_redemptions_begin_exactly(
    state: State,
    context: Context,
    user: Address,
    amount: i128,
)
    ensures
        ({
            let asked = state.redeemed_at(context, user, amount);
            let authorized = context.signers.contains(user);
            let open = authorized && state.paused != Some(true);
            let positive = open && amount > 0;
            &&& asked matches Ok(token) ==> state.token_contract == Some(token)
            &&& asked is Ok <==> positive && state.token_contract is Some
            &&& asked == Err::<Address, Error>(Error::NotAuthorized) <==> !authorized
            &&& asked == Err::<Address, Error>(Error::ContractPaused) <==> authorized && !open
            &&& asked == Err::<Address, Error>(Error::AmountNotPositive) <==> open && !positive
            &&& asked == Err::<Address, Error>(Error::NotInitialized) <==> positive
                && state.token_contract is None
        }),
{
}

/// A redemption succeeds exactly when it begins, the token is not paused, the
/// user has at least the amount, and the supply does not shrink below its type.
/// Else what the rewards contract says is reported, or what the token says to
/// the burning.
pub proof fn law_redemptions_succeed_exactly(
    state: State,
    token: crate::token::State,
    context: Context,
    user: Address,
    amount: i128,
)
    ensures
        ({
            let refusal = redeem_refusal(state, token, context, user, amount);
            let begins = state.redeemed_at(context, user, amount);
            let open = begins is Ok && token.paused != Some(true);
            let covered = open && amount <= token.balance_of(user);
            let fits = token.supply() - amount >= i128::MIN;
            &&& refusal is None <==> covered && fits
            &&& begins matches Err(error) ==> refusal == Some(error)
            &&& begins is Ok && !open ==> refusal == Some(Error::ContractPaused)
            &&& open && !covered ==> refusal == Some(Error::InsufficientBalance)
            &&& covered && !fits ==> refusal == Some(Error::Underflow)
        }),
{
}

/// A redemption is announced twice: first the token announces what it burnt of
/// the user's and the supply that is left, then the rewards contract announces
/// the redemption of the same amount.
pub proof fn law_redemptions_are_announced_twice(
    state: State,
    token: crate::token::State,
    context: Context,
    user: Address,
    amount: i128,
)
    requires
        redeem_refusal(state, token, context, user, amount) is None,
    ensures
        ({
            let events = redeem_events(state, token, context, user, amount);
            &&& events.len() == 2
            &&& state.token_contract == Some(events[0].contract)
            &&& events[0].event matches crate::invocation::Event::Token(
                crate::token::Event::Burn { from, amount: burnt, supply },
            ) && from == user && burnt == amount && supply == token.supply() - amount
            &&& events[1].contract == context.contract
            &&& events[1].event == crate::invocation::Event::Rewards(
                Event::RewardRedeemed { user, amount },
            )
        }),
{
}

} // verus!
