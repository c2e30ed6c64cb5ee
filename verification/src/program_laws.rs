//! What holds of the three contracts along every history of invocations.

use vstd::prelude::*;

use crate::address::Address;
use crate::campaign_laws::{all_proper, governed, restarts_numbering, signed_once_each};
use crate::invocation::Context;
use crate::rewards::{redeem_refusal, Program};
use crate::rewards_laws::{claimants, counts_claimants};
use crate::token_laws::{admins_listed, nonnegative, pays_itself};

verus! {

/// An invocation of one of the three contracts.
pub ghost enum Step {
    Token(Context, crate::token::Call),
    Campaign(Context, crate::campaign::Call),
    Rewards(Context, crate::rewards::Call),
    Claim { context: Context, user: Address, campaign_id: u64 },
    Redeem { context: Context, user: Address, amount: i128 },
}

/// Whether `step` is carried out.
pub open spec fn succeeds(program: Program, step: Step) -> bool {
    match step {
        Step::Token(context, call) => program.token.refusal(context, call) is None,
        Step::Campaign(context, call) => program.campaigns.refusal(context, call) is None,
        Step::Rewards(context, call) => program.rewards.refusal(context, call) is None,
        Step::Claim { context, user, campaign_id } => program.claim_refusal(
            context,
            user,
            campaign_id,
        ) is None,
        Step::Redeem { context, user, amount } => redeem_refusal(
            program.rewards,
            program.token,
            context,
            user,
            amount,
        ) is None,
    }
}

/// The programme after `step`; a step that is refused changes nothing.
pub open spec fn after_step(program: Program, step: Step) -> Program {
    if !succeeds(program, step) {
        program
    } else {
        match step {
            Step::Token(context, call) => Program { token: program.token.after(call), ..program },
            Step::Campaign(context, call) => Program {
                campaigns: program.campaigns.after(context, call),
                ..program
            },
            Step::Rewards(context, call) => Program {
                rewards: program.rewards.after(call),
                ..program
            },
            Step::Claim { context, user, campaign_id } => program.after_claim(
                context,
                user,
                campaign_id,
            ),
            Step::Redeem { context, user, amount } => Program {
                token: program.token.after(crate::token::Call::Burn { from: user, amount }),
                ..program
            },
        }
    }
}

/// The programme after `steps`, in order.
pub open spec fn after_steps(program: Program, steps: Seq<Step>) -> Program
    decreases steps.len(),
{
    if steps.len() == 0 {
        program
    } else {
        after_step(after_steps(program, steps.drop_last()), steps.last())
    }
}

/// The programme before anything was written.
pub open spec fn empty_program() -> Program {
    Program {
        rewards: crate::rewards::State::empty(),
        campaigns: crate::campaign::State::empty(),
        token: crate::token::State::empty(),
    }
}

/// Whether no account pays itself in `step`, unless it is refused.
pub open spec fn pays_others(program: Program, step: Step) -> bool {
    succeeds(program, step) ==> match step {
        Step::Token(_, call) => !pays_itself(call),
        _ => true,
    }
}

/// Whether `step` does not initialize a campaign contract that already keeps
/// campaigns, unless it is refused.
pub open spec fn keeps_numbering(program: Program, step: Step) -> bool {
    succeeds(program, step) ==> match step {
        Step::Campaign(_, call) => !restarts_numbering(program.campaigns, call),
        _ => true,
    }
}

/// Whether `step` counts no claim that is not made, unless it is refused.
pub open spec fn counts_only_claims(program: Program, step: Step) -> bool {
    succeeds(program, step) ==> match step {
        Step::Campaign(_, call) => !(call is RecordClaim),
        _ => true,
    }
}

/// Whether `step` keeps to all that the books need.
pub open spec fn in_order(program: Program, step: Step) -> bool {
    &&& pays_others(program, step)
    &&& keeps_numbering(program, step)
    &&& counts_only_claims(program, step)
}

/// Whether every step of a history keeps to `rule` when it is its turn.
pub open spec fn along(
    program: Program,
    steps: Seq<Step>,
    rule: spec_fn(Program, Step) -> bool,
) -> bool {
    forall|i: int|
        0 <= i < steps.len() ==> rule(
            after_steps(program, #[trigger] steps.take(i)),
            steps[i],
        )
}

/// A rule that is kept along a history is kept before its last step and in it.
proof fn lemma_along_earlier(
    program: Program,
    steps: Seq<Step>,
    rule: spec_fn(Program, Step) -> bool,
)
    requires
        along(program, steps, rule),
        steps.len() > 0,
    ensures
        along(program, steps.drop_last(), rule),
        rule(after_steps(program, steps.drop_last()), steps.last()),
{
    let earlier = steps.drop_last();
    assert forall|i: int| 0 <= i < earlier.len() implies rule(
        after_steps(program, #[trigger] earlier.take(i)),
        earlier[i],
    ) by {
        assert(earlier.take(i) =~= steps.take(i));
    }
    assert(steps.take(steps.len() - 1) =~= earlier);
}

/// What every step keeps, whatever it is: no amount is negative, the token lists
/// its admins, every campaign is a proper one, no admin signed an upgrade twice,
/// and the campaign contract is governed.
pub open spec fn decent(program: Program) -> bool {
    &&& nonnegative(program.token)
    &&& admins_listed(program.token)
    &&& all_proper(program.campaigns)
    &&& signed_once_each(program.campaigns)
    &&& governed(program.campaigns)
}

/// A step keeps the programme decent, without exception.
pub proof fn law_every_step_keeps_the_programme_decent(program: Program, step: Step)
    requires
        decent(program),
    ensures
        decent(after_step(program, step)),
{
    if succeeds(program, step) {
        match step {
            Step::Token(context, call) => {
                crate::token_laws::law_no_amount_becomes_negative(program.token, context, call);
                crate::token_laws::law_admins_stay_listed(program.token, context, call);
            },
            Step::Campaign(context, call) => {
                crate::campaign_laws::law_every_call_keeps_campaigns_proper_and_upgrades_governed(
                    program.campaigns,
                    context,
                    call,
                );
            },
            Step::Rewards(..) => {},
            Step::Claim { context, user, campaign_id } => {
                crate::token_laws::law_no_amount_becomes_negative(
                    program.token,
                    context.calling(program.rewards.token_contract->0),
                    program.mint(context, user, campaign_id),
                );
                crate::token_laws::law_admins_stay_listed(
                    program.token,
                    context.calling(program.rewards.token_contract->0),
                    program.mint(context, user, campaign_id),
                );
                crate::campaign_laws::law_every_call_keeps_campaigns_proper_and_upgrades_governed(
                    program.campaigns,
                    context.calling(program.rewards.campaign_contract->0),
                    program.record(context, campaign_id),
                );
            },
            Step::Redeem { context, user, amount } => {
                crate::token_laws::law_no_amount_becomes_negative(
                    program.token,
                    context.calling(program.rewards.token_contract->0),
                    crate::token::Call::Burn { from: user, amount },
                );
                crate::token_laws::law_admins_stay_listed(
                    program.token,
                    context.calling(program.rewards.token_contract->0),
                    crate::token::Call::Burn { from: user, amount },
                );
            },
        }
    }
}

/// Along every history, from the very beginning, the programme is decent.
pub proof fn law_every_history_is_decent(steps: Seq<Step>)
    ensures
        decent(after_steps(empty_program(), steps)),
    decreases steps.len(),
{
    if steps.len() == 0 {
        crate::token_laws::law_empty_is_sound();
        crate::token_laws::law_empty_lists_its_admins();
        crate::campaign_laws::law_empty_is_sound();
    } else {
        law_every_history_is_decent(steps.drop_last());
        law_every_step_keeps_the_programme_decent(
            after_steps(empty_program(), steps.drop_last()),
            steps.last(),
        );
    }
}

/// A step in which no account pays itself keeps the supply the sum of all
/// balances.
pub proof fn law_every_step_keeps_the_supply_backed(program: Program, step: Step)
    requires
        crate::token_laws::sound(program.token),
        pays_others(program, step),
    ensures
        crate::token_laws::sound(after_step(program, step).token),
{
    if succeeds(program, step) {
        match step {
            Step::Token(context, call) => {
                crate::token_laws::law_supply_is_the_sum_of_balances(program.token, context, call);
            },
            Step::Campaign(..) => {},
            Step::Rewards(..) => {},
            Step::Claim { context, user, campaign_id } => {
                crate::token_laws::law_supply_is_the_sum_of_balances(
                    program.token,
                    context.calling(program.rewards.token_contract->0),
                    program.mint(context, user, campaign_id),
                );
            },
            Step::Redeem { context, user, amount } => {
                crate::token_laws::law_supply_is_the_sum_of_balances(
                    program.token,
                    context.calling(program.rewards.token_contract->0),
                    crate::token::Call::Burn { from: user, amount },
                );
            },
        }
    }
}

/// Along every history in which no account pays itself the supply is the sum of
/// all balances.
pub proof fn law_every_history_backs_the_supply(steps: Seq<Step>)
    requires
        along(empty_program(), steps, |program: Program, step: Step| pays_others(program, step)),
    ensures
        crate::token_laws::sound(after_steps(empty_program(), steps).token),
    decreases steps.len(),
{
    if steps.len() == 0 {
        crate::token_laws::law_empty_is_sound();
    } else {
        let rule = |program: Program, step: Step| pays_others(program, step);
        lemma_along_earlier(empty_program(), steps, rule);
        law_every_history_backs_the_supply(steps.drop_last());
        law_every_step_keeps_the_supply_backed(
            after_steps(empty_program(), steps.drop_last()),
            steps.last(),
        );
    }
}

/// A step that does not restart the numbering keeps every campaign under its own
/// id.
pub proof fn law_every_step_keeps_the_campaigns_numbered(program: Program, step: Step)
    requires
        crate::campaign_laws::sound(program.campaigns),
        keeps_numbering(program, step),
    ensures
        crate::campaign_laws::sound(after_step(program, step).campaigns),
{
    if succeeds(program, step) {
        match step {
            Step::Campaign(context, call) => {
                crate::campaign_laws::law_every_call_keeps_the_contract_sound(
                    program.campaigns,
                    context,
                    call,
                );
            },
            Step::Claim { context, user, campaign_id } => {
                crate::campaign_laws::law_every_call_keeps_the_contract_sound(
                    program.campaigns,
                    context.calling(program.rewards.campaign_contract->0),
                    program.record(context, campaign_id),
                );
            },
            _ => {},
        }
    }
}

/// Along every history that never restarts the numbering every campaign stands
/// under its own id.
pub proof fn law_every_history_numbers_the_campaigns(steps: Seq<Step>)
    requires
        along(
            empty_program(),
            steps,
            |program: Program, step: Step| keeps_numbering(program, step),
        ),
    ensures
        crate::campaign_laws::sound(after_steps(empty_program(), steps).campaigns),
    decreases steps.len(),
{
    if steps.len() == 0 {
        crate::campaign_laws::law_empty_is_sound();
    } else {
        let rule = |program: Program, step: Step| keeps_numbering(program, step);
        lemma_along_earlier(empty_program(), steps, rule);
        law_every_history_numbers_the_campaigns(steps.drop_last());
        law_every_step_keeps_the_campaigns_numbered(
            after_steps(empty_program(), steps.drop_last()),
            steps.last(),
        );
    }
}

/// What holds of the programme along a history whose steps are in order: the
/// supply is the sum of all balances, every campaign is a proper one under its
/// own id, and each counts exactly the users that claimed from it.
pub open spec fn sound(program: Program) -> bool {
    &&& crate::token_laws::sound(program.token)
    &&& crate::campaign_laws::sound(program.campaigns)
    &&& counts_claimants(program)
}

/// A step in order keeps the programme sound.
pub proof fn law_every_step_keeps_the_programme_sound(program: Program, step: Step)
    requires
        sound(program),
        in_order(program, step),
    ensures
        sound(after_step(program, step)),
{
    let after = after_step(program, step);
    law_every_step_keeps_the_supply_backed(program, step);
    law_every_step_keeps_the_campaigns_numbered(program, step);
    if succeeds(program, step) {
        match step {
            Step::Campaign(context, call) => {
                lemma_campaign_calls_keep_the_counts(program, context, call);
            },
            Step::Claim { context, user, campaign_id } => {
                crate::rewards_laws::law_campaigns_count_their_claimants(
                    program,
                    context,
                    user,
                    campaign_id,
                );
            },
            _ => {
                assert(after.campaigns == program.campaigns);
                assert(after.rewards.claimed == program.rewards.claimed);
                assert forall|id: u64| #[trigger]
                    claimants(after.rewards, id) == claimants(program.rewards, id) by {
                    assert(claimants(after.rewards, id) =~= claimants(program.rewards, id));
                }
            },
        }
    }
}

/// A call of the campaign contract that counts no claim leaves every count.
proof fn lemma_campaign_calls_keep_the_counts(
    program: Program,
    context: Context,
    call: crate::campaign::Call,
)
    requires
        sound(program),
        program.campaigns.refusal(context, call) is None,
        in_order(program, Step::Campaign(context, call)),
    ensures
        counts_claimants(
            Program { campaigns: program.campaigns.after(context, call), ..program },
        ),
{
    let after = Program { campaigns: program.campaigns.after(context, call), ..program };
    assert forall|id: u64|
        {
            let users = #[trigger] claimants(after.rewards, id);
            let campaigns = after.campaigns.campaigns;
            &&& users.finite()
            &&& users.len() == if campaigns.contains_key(id) {
                campaigns[id].total_claimed as nat
            } else {
                0
            }
        } by {
        let users = claimants(program.rewards, id);
        assert(users.finite());
    }
}

/// How many campaigns `steps` create, from `program` on.
pub open spec fn creations(program: Program, steps: Seq<Step>) -> nat
    decreases steps.len(),
{
    if steps.len() == 0 {
        0
    } else {
        let earlier = steps.drop_last();
        creations(program, earlier) + if steps.last() matches Step::Campaign(_, call)
            && call is CreateCampaign && succeeds(after_steps(program, earlier), steps.last()) {
            1nat
        } else {
            0nat
        }
    }
}

/// Along every history, the next id is one more than the number of campaigns
/// that were created since the campaign contract was initialized.
pub proof fn law_ids_count_the_creations(
    program: Program,
    context: Context,
    call: crate::campaign::Call,
    steps: Seq<Step>,
)
    requires
        call is Initialize,
        succeeds(program, Step::Campaign(context, call)),
    ensures
        ({
            let initialized = after_step(program, Step::Campaign(context, call));
            let after = after_steps(initialized, steps);
            &&& after.campaigns.is_initialized()
            &&& after.campaigns.fresh_id() == creations(initialized, steps) + 1
        }),
    decreases steps.len(),
{
    if steps.len() > 0 {
        law_ids_count_the_creations(program, context, call, steps.drop_last());
    }
}

/// Along every history whose steps are in order, from the very beginning, the
/// programme is sound.
pub proof fn law_every_history_is_sound(steps: Seq<Step>)
    requires
        along(empty_program(), steps, |program: Program, step: Step| in_order(program, step)),
    ensures
        sound(after_steps(empty_program(), steps)),
    decreases steps.len(),
{
    if steps.len() == 0 {
        crate::token_laws::law_empty_is_sound();
        crate::campaign_laws::law_empty_is_sound();
        assert forall|id: u64| #[trigger]
            claimants(empty_program().rewards, id) == Set::<Address>::empty() by {
            assert(claimants(empty_program().rewards, id) =~= Set::<Address>::empty());
        }
    } else {
        let rule = |program: Program, step: Step| in_order(program, step);
        lemma_along_earlier(empty_program(), steps, rule);
        law_every_history_is_sound(steps.drop_last());
        law_every_step_keeps_the_programme_sound(
            after_steps(empty_program(), steps.drop_last()),
            steps.last(),
        );
    }
}

/// A claim that is noted stays noted along every history.
proof fn lemma_claims_stay_noted(
    program: Program,
    steps: Seq<Step>,
    user: Address,
    campaign_id: u64,
)
    requires
        program.rewards.has_claimed(user, campaign_id),
    ensures
        after_steps(program, steps).rewards.has_claimed(user, campaign_id),
    decreases steps.len(),
{
    if steps.len() > 0 {
        lemma_claims_stay_noted(program, steps.drop_last(), user, campaign_id);
    }
}

/// A history can be cut in two.
proof fn lemma_after_two_parts(program: Program, first: Seq<Step>, second: Seq<Step>)
    ensures
        after_steps(program, first + second) == after_steps(after_steps(program, first), second),
    decreases second.len(),
{
    if second.len() == 0 {
        assert(first + second =~= first);
    } else {
        assert((first + second).drop_last() =~= first + second.drop_last());
        lemma_after_two_parts(program, first, second.drop_last());
    }
}

/// In every history, from any start, a user claims from a campaign at most
/// once.
pub proof fn law_no_history_rewards_twice(
    program: Program,
    steps: Seq<Step>,
    i: int,
    j: int,
    first: Context,
    second: Context,
    user: Address,
    campaign_id: u64,
)
    requires
        0 <= i < j < steps.len(),
        steps[i] == (Step::Claim { context: first, user, campaign_id }),
        steps[j] == (Step::Claim { context: second, user, campaign_id }),
        succeeds(after_steps(program, steps.take(i)), steps[i]),
    ensures
        !succeeds(after_steps(program, steps.take(j)), steps[j]),
{
    let noted = after_steps(program, steps.take(i + 1));
    assert(steps.take(i + 1).drop_last() =~= steps.take(i));
    assert(noted.rewards.has_claimed(user, campaign_id));
    let between = steps.subrange(i + 1, j);
    assert(steps.take(j) =~= steps.take(i + 1) + between);
    lemma_after_two_parts(program, steps.take(i + 1), between);
    lemma_claims_stay_noted(noted, between, user, campaign_id);
}

} // verus!
