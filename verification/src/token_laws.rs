//! What holds of the token whatever is invoked.

use vstd::prelude::*;

use crate::address::Address;
use crate::error::Error;
use crate::invocation::{Context, Invocation, Published};
use crate::token::{amount_at, outcome, Call, DataKey, Event, Role, State, TokenContract};

verus! {

/// The sum of all amounts in `entries`.
pub open spec fn sum(entries: Map<Address, i128>) -> int
    decreases entries.dom().len(),
{
    if entries.dom().finite() && entries.dom().len() > 0 {
        let account = entries.dom().choose();
        entries[account] + sum(entries.remove(account))
    } else {
        0
    }
}

/// The sum is that of one entry and that of the others, whichever is taken.
proof fn lemma_sum_of_one_and_others(entries: Map<Address, i128>, account: Address)
    requires
        entries.dom().finite(),
        entries.contains_key(account),
    ensures
        sum(entries) == entries[account] + sum(entries.remove(account)),
    decreases entries.dom().len(),
{
    let first = entries.dom().choose();
    assert(entries.dom().len() > 0) by {
        if entries.dom().len() == 0 {
            vstd::set::axiom_set_contains_len(entries.dom(), account);
        }
    }
    if first != account {
        let others = entries.remove(first);
        assert(entries.dom().contains(first));
        lemma_sum_of_one_and_others(others, account);
        let rest = entries.remove(account);
        assert(rest.contains_key(first));
        lemma_sum_of_one_and_others(rest, first);
        assert(others.remove(account) =~= rest.remove(first));
    }
}

/// Writing an entry moves the sum by what the entry gains.
proof fn lemma_sum_after_write(entries: Map<Address, i128>, account: Address, amount: i128)
    requires
        entries.dom().finite(),
    ensures
        entries.insert(account, amount).dom().finite(),
        sum(entries.insert(account, amount)) == sum(entries) - amount_at(entries, account) + amount,
{
    let written = entries.insert(account, amount);
    lemma_sum_of_one_and_others(written, account);
    if entries.contains_key(account) {
        lemma_sum_of_one_and_others(entries, account);
        assert(written.remove(account) =~= entries.remove(account));
    } else {
        assert(written.remove(account) =~= entries);
    }
}

/// No amount that the token holds is negative.
pub open spec fn nonnegative(state: State) -> bool {
    &&& forall|account: Address| #[trigger] state.balance_of(account) >= 0
    &&& forall|owner: Address, spender: Address| #[trigger]
        state.allowance_of(owner, spender) >= 0
}

/// Nobody holds anything before the token is initialized.
pub open spec fn blank_until_initialized(state: State) -> bool {
    !state.is_initialized() ==> {
        &&& forall|role: Role, account: Address| !#[trigger] state.has_role(role, account)
        &&& forall|account: Address| #[trigger] state.balance_of(account) == 0
        &&& sum(state.balances) == 0
        &&& state.supply() == 0
    }
}

/// The supply is the sum of all balances.
pub open spec fn backed(state: State) -> bool {
    &&& state.balances.dom().finite()
    &&& sum(state.balances) == state.supply()
}

/// What holds of the token in every state that it can reach without an account
/// paying itself.
pub open spec fn sound(state: State) -> bool {
    &&& backed(state)
    &&& nonnegative(state)
    &&& blank_until_initialized(state)
}

/// Whether `call` is a transfer of an account to itself.
pub open spec fn pays_itself(call: Call) -> bool {
    match call {
        Call::Transfer { from, to, .. } => from == to,
        _ => false,
    }
}

/// The token starts sound.
pub proof fn law_empty_is_sound()
    ensures
        sound(State::empty()),
{
    assert(State::empty().balances.dom() =~= Set::<Address>::empty());
}

/// Whatever is invoked, the supply stays the sum of all balances, no amount
/// becomes negative, and nobody holds anything before initialization; except
/// that an account that transfers to itself is credited out of nothing.
pub proof fn law_supply_is_the_sum_of_balances(state: State, context: Context, call: Call)
    requires
        sound(state),
        state.refusal(context, call) is None,
        !pays_itself(call),
    ensures
        sound(state.after(call)),
{
    let after = state.after(call);
    law_no_amount_becomes_negative(state, context, call);
    match call {
        Call::Initialize { .. } => {},
        Call::Mint { to, amount, .. } => {
            lemma_sum_after_write(state.balances, to, after.balance_of(to));
        },
        Call::Burn { from, amount } => {
            assert(state.is_initialized());
            lemma_sum_after_write(state.balances, from, after.balance_of(from));
        },
        Call::Transfer { from, to, amount } => {
            assert(state.is_initialized());
            let paid = state.credited(from, -amount);
            lemma_sum_after_write(state.balances, from, paid.balance_of(from));
            lemma_sum_after_write(paid.balances, to, after.balance_of(to));
        },
        Call::TransferFrom { from, to, amount, .. } => {
            assert(state.is_initialized());
            let paid = state.credited(from, -amount);
            lemma_sum_after_write(state.balances, from, paid.balance_of(from));
            lemma_sum_after_write(paid.balances, to, after.balance_of(to));
        },
        Call::GrantRole { admin, .. } => {
            assert(state.has_role(Role::Admin, admin));
        },
        Call::RevokeRole { admin, .. } => {
            assert(state.has_role(Role::Admin, admin));
        },
        Call::SetAdmin { caller, .. } => {
            assert(state.has_role(Role::Admin, caller));
        },
        Call::Approve { .. } => {
            assert forall|account: Address| #[trigger]
                after.balance_of(account) == state.balance_of(account) by {}
            assert forall|role: Role, account: Address| #[trigger]
                after.has_role(role, account) == state.has_role(role, account) by {}
        },
        Call::Pause { .. } => {},
        Call::Unpause { .. } => {},
    }
}

/// Whatever is invoked, no balance and no allowance becomes negative.
pub proof fn law_no_amount_becomes_negative(state: State, context: Context, call: Call)
    requires
        nonnegative(state),
        state.refusal(context, call) is None,
    ensures
        nonnegative(state.after(call)),
{
    let after = state.after(call);
    assert forall|account: Address| #[trigger] after.balance_of(account) >= 0 by {
        assert(state.balance_of(account) >= 0);
    }
    assert forall|owner: Address, spender: Address| #[trigger]
        after.allowance_of(owner, spender) >= 0 by {
        assert(state.allowance_of(owner, spender) >= 0);
    }
}

/// No account holds more than is in circulation.
pub proof fn law_no_balance_exceeds_the_supply(state: State, account: Address)
    requires
        sound(state),
    ensures
        state.balance_of(account) <= state.supply(),
{
    lemma_sum_is_nonnegative(state);
    if state.balances.contains_key(account) {
        lemma_sum_of_one_and_others(state.balances, account);
        let others = State { balances: state.balances.remove(account), ..state };
        assert forall|other: Address| #[trigger] others.balance_of(other) >= 0 by {
            assert(state.balance_of(other) >= 0);
        }
        lemma_sum_is_nonnegative(others);
    }
}

/// A sum of amounts that are not negative is not negative.
proof fn lemma_sum_is_nonnegative(state: State)
    requires
        state.balances.dom().finite(),
        forall|account: Address| #[trigger] state.balance_of(account) >= 0,
    ensures
        sum(state.balances) >= 0,
    decreases state.balances.dom().len(),
{
    if state.balances.dom().len() > 0 {
        let account = state.balances.dom().choose();
        let others = State { balances: state.balances.remove(account), ..state };
        assert(state.balance_of(account) >= 0);
        assert forall|other: Address| #[trigger] others.balance_of(other) >= 0 by {
            assert(state.balance_of(other) >= 0);
        }
        lemma_sum_is_nonnegative(others);
    }
}

/// An initialized token stays initialized and refuses to be initialized again.
pub proof fn law_initialized_once(state: State, context: Context, call: Call)
    requires
        state.is_initialized(),
    ensures
        call is Initialize ==> state.refusal(context, call) == Some(Error::AlreadyInitialized),
        state.refusal(context, call) is None ==> state.after(call).is_initialized(),
        state.refusal(context, call) is None ==> {
            &&& state.after(call).name == state.name
            &&& state.after(call).symbol == state.symbol
            &&& state.after(call).decimals == state.decimals
        },
{
}

/// While the token is paused no tokens are minted, burnt or transferred.
pub proof fn law_nothing_moves_while_paused(state: State, context: Context, call: Call)
    requires
        state.is_paused(),
    ensures
        call is Mint || call is Burn || call is Transfer || call is TransferFrom ==> state.refusal(
            context,
            call,
        ) is Some,
        state.refusal(context, call) is None ==> {
            &&& state.after(call).balances == state.balances
            &&& state.after(call).total_supply == state.total_supply
        },
{
}

/// Unpausing undoes pausing.
pub proof fn law_unpause_undoes_pause(state: State, pauser: Address, other: Address)
    requires
        state.paused == Some(false),
    ensures
        state.after(Call::Pause { pauser }).is_paused(),
        state.after(Call::Pause { pauser }).after(Call::Unpause { pauser: other }) == state,
{
}

/// Who holds which role changes only by initialization and by an admin.
pub proof fn law_only_admins_change_roles(
    state: State,
    context: Context,
    call: Call,
    role: Role,
    account: Address,
)
    requires
        state.refusal(context, call) is None,
        state.after(call).has_role(role, account) != state.has_role(role, account),
    ensures
        call is Initialize && !state.is_initialized() || (call.author() matches Some(admin)
            && state.has_role(Role::Admin, admin) && context.authorizes(admin)),
{
}

/// Granting a role gives it to the account and to nobody else; revoking it
/// takes it away, also when it was granted before.
pub proof fn law_grant_and_revoke(
    state: State,
    admin: Address,
    role: Role,
    account: Address,
    other_role: Role,
    other: Address,
)
    ensures
        state.after(Call::GrantRole { admin, role, account }).has_role(role, account),
        !state.after(Call::RevokeRole { admin, role, account }).has_role(role, account),
        !state.after(Call::GrantRole { admin, role, account }).after(
            Call::RevokeRole { admin, role, account },
        ).has_role(role, account),
        (other_role, other) != (role, account) ==> {
            &&& state.after(Call::GrantRole { admin, role, account }).has_role(other_role, other)
                == state.has_role(other_role, other)
            &&& state.after(Call::RevokeRole { admin, role, account }).has_role(other_role, other)
                == state.has_role(other_role, other)
        },
{
}

/// Handing the token over gives the new admin all three roles, and leaves the
/// old one without any unless it is the new one.
pub proof fn law_set_admin_hands_all_roles_over(
    state: State,
    caller: Address,
    new_admin: Address,
    role: Role,
)
    ensures
        state.after(Call::SetAdmin { caller, new_admin }).has_role(role, new_admin),
        new_admin != caller ==> !state.after(Call::SetAdmin { caller, new_admin }).has_role(
            role,
            caller,
        ),
{
}

/// The list of admins names everybody who holds the admin role, once, and nobody
/// else.
pub open spec fn admins_listed(state: State) -> bool {
    &&& state.admins.no_duplicates()
    &&& forall|account: Address| #[trigger]
        state.admins.contains(account) <==> state.has_role(Role::Admin, account)
}

/// Nobody is listed at the beginning.
pub proof fn law_empty_lists_its_admins()
    ensures
        admins_listed(State::empty()),
{
}

/// Whatever is invoked, the list of admins stays that of the admins.
pub proof fn law_admins_stay_listed(state: State, context: Context, call: Call)
    requires
        admins_listed(state),
        state.refusal(context, call) is None,
    ensures
        admins_listed(state.after(call)),
{
    match call {
        Call::Initialize { admin, .. } => {
            lemma_granting_lists(state, Role::Admin, admin);
            let one = state.granting(Role::Admin, admin);
            lemma_granting_lists(one, Role::Minter, admin);
            lemma_granting_lists(one.granting(Role::Minter, admin), Role::Pauser, admin);
            lemma_same_admins(state.granting_all(admin), state.after(call));
        },
        Call::GrantRole { role, account, .. } => {
            lemma_granting_lists(state, role, account);
        },
        Call::RevokeRole { role, account, .. } => {
            lemma_revoking_lists(state, role, account);
        },
        Call::SetAdmin { caller, new_admin } => {
            lemma_revoking_lists(state, Role::Admin, caller);
            let one = state.revoking(Role::Admin, caller);
            lemma_revoking_lists(one, Role::Minter, caller);
            lemma_revoking_lists(one.revoking(Role::Minter, caller), Role::Pauser, caller);
            let left = state.revoking_all(caller);
            lemma_granting_lists(left, Role::Admin, new_admin);
            let two = left.granting(Role::Admin, new_admin);
            lemma_granting_lists(two, Role::Minter, new_admin);
            lemma_granting_lists(two.granting(Role::Minter, new_admin), Role::Pauser, new_admin);
        },
        _ => {
            lemma_same_admins(state, state.after(call));
        },
    }
}

proof fn lemma_same_admins(state: State, other: State)
    requires
        admins_listed(state),
        other.admins == state.admins,
        other.members == state.members,
    ensures
        admins_listed(other),
{
    assert forall|account: Address| #[trigger]
        other.admins.contains(account) <==> other.has_role(Role::Admin, account) by {
        assert(state.admins.contains(account) <==> state.has_role(Role::Admin, account));
    }
}

proof fn lemma_granting_lists(state: State, role: Role, account: Address)
    requires
        admins_listed(state),
    ensures
        admins_listed(state.granting(role, account)),
{
    let after = state.granting(role, account);
    assert forall|other: Address| #[trigger]
        after.admins.contains(other) <==> after.has_role(Role::Admin, other) by {
        assert(state.admins.contains(other) <==> state.has_role(Role::Admin, other));
        if after.admins != state.admins {
            let added = state.admins.push(account);
            assert(added[state.admins.len() as int] == account);
            if state.admins.contains(other) {
                let i = choose|i: int| 0 <= i < state.admins.len() && state.admins[i] == other;
                assert(added[i] == other);
            }
        }
    }
    assert forall|i: int, j: int|
        0 <= i < after.admins.len() && 0 <= j < after.admins.len() && i
            != j implies after.admins[i] != after.admins[j] by {
        if after.admins != state.admins {
            if i < state.admins.len() {
                assert(state.admins.contains(state.admins[i]));
            }
            if j < state.admins.len() {
                assert(state.admins.contains(state.admins[j]));
            }
        }
    }
}

proof fn lemma_revoking_lists(state: State, role: Role, account: Address)
    requires
        admins_listed(state),
    ensures
        admins_listed(state.revoking(role, account)),
{
    let before = state.admins;
    let after = state.revoking(role, account);
    before.index_of_first_ensures(account);
    assert forall|other: Address| #[trigger]
        after.admins.contains(other) <==> after.has_role(Role::Admin, other) by {
        assert(before.contains(other) <==> state.has_role(Role::Admin, other));
        if role == Role::Admin && before.contains(account) {
            let at = before.index_of_first(account)->0;
            assert(after.admins == before.remove(at));
            if before.contains(other) && other != account {
                let i = choose|i: int| 0 <= i < before.len() && before[i] == other;
                assert(after.admins[if i < at { i } else { i - 1 }] == other);
            }
            if after.admins.contains(other) {
                let i = choose|i: int| 0 <= i < after.admins.len() && after.admins[i] == other;
                assert(before[if i < at { i } else { i + 1 }] == other);
            }
        }
    }
}

/// Right after initialization the first admin is the one that was named in it.
pub proof fn law_initialization_names_the_first_admin(state: State, context: Context, call: Call)
    requires
        admins_listed(state),
        blank_until_initialized(state),
        state.refusal(context, call) is None,
    ensures
        call matches Call::Initialize { admin, .. } ==> state.after(call).admins == seq![admin],
{
    if let Call::Initialize { admin, .. } = call {
        assert(state.admins.len() == 0) by {
            if state.admins.len() > 0 {
                assert(state.admins.contains(state.admins[0]));
                assert(state.has_role(Role::Admin, state.admins[0]));
            }
        }
        assert(!state.admins.contains(admin));
        let one = state.admins.push(admin);
        assert(one[0] == admin);
        assert(one.contains(admin));
        assert(state.after(call).admins =~= seq![admin]);
    }
}

/// The first admin stays the first for as long as it holds the role, except that
/// an admin who hands the token over to itself stands behind the others then.
pub proof fn law_first_admin_stays_first(state: State, context: Context, call: Call)
    requires
        admins_listed(state),
        state.refusal(context, call) is None,
        state.admins.len() > 0,
        state.after(call).has_role(Role::Admin, state.admins[0]),
        !(call matches Call::SetAdmin { caller, new_admin } && caller == new_admin && caller
            == state.admins[0]),
    ensures
        state.after(call).admins.len() > 0,
        state.after(call).admins[0] == state.admins[0],
{
    let first = state.admins[0];
    assert(state.admins.contains(first));
    match call {
        Call::RevokeRole { account, .. } => {
            state.admins.index_of_first_ensures(account);
        },
        Call::SetAdmin { caller, new_admin } => {
            state.admins.index_of_first_ensures(caller);
        },
        _ => {},
    }
}

/// The supply grows only when a minter mints and shrinks only when a holder
/// burns.
pub proof fn law_only_minters_enlarge_the_supply(state: State, context: Context, call: Call)
    requires
        state.is_initialized(),
        state.refusal(context, call) is None,
    ensures
        state.after(call).supply() > state.supply() ==> (call matches Call::Mint { minter, amount, .. }
            && state.has_role(Role::Minter, minter) && context.authorizes(minter)
            && state.after(call).supply() == state.supply() + amount),
        state.after(call).supply() < state.supply() ==> (call matches Call::Burn { from, amount }
            && context.authorizes(from) && state.after(call).supply() == state.supply() - amount),
{
}

/// Tokens leave an account only when the holder authorizes it, or out of an
/// allowance that covers them and shrinks by them.
pub proof fn law_tokens_leave_only_with_consent(
    state: State,
    context: Context,
    call: Call,
    holder: Address,
)
    requires
        state.refusal(context, call) is None,
        state.after(call).balance_of(holder) < state.balance_of(holder),
    ensures
        match call {
            Call::Burn { from, .. } => from == holder && context.authorizes(holder),
            Call::Transfer { from, .. } => from == holder && context.authorizes(holder),
            Call::TransferFrom { spender, from, amount, .. } => {
                &&& from == holder
                &&& context.authorizes(spender)
                &&& state.allowance_of(holder, spender) >= amount
                &&& state.after(call).allowance_of(holder, spender) == state.allowance_of(
                    holder,
                    spender,
                ) - amount
                &&& state.after(call).balance_of(holder) == state.balance_of(holder) - amount
            },
            _ => false,
        },
{
}

/// An allowance changes only when its owner sets it or when its spender spends
/// of it, and spending never enlarges it.
pub proof fn law_allowances_change_only_by_owner_or_spender(
    state: State,
    context: Context,
    call: Call,
    owner: Address,
    spender: Address,
)
    requires
        state.refusal(context, call) is None,
        state.after(call).allowance_of(owner, spender) != state.allowance_of(owner, spender),
    ensures
        match call {
            Call::Approve { amount, .. } => {
                &&& context.authorizes(owner)
                &&& state.after(call).allowance_of(owner, spender) == amount
            },
            Call::TransferFrom { amount, .. } => {
                &&& context.authorizes(spender)
                &&& state.after(call).allowance_of(owner, spender) == state.allowance_of(
                    owner,
                    spender,
                ) - amount
                &&& amount > 0
            },
            _ => false,
        },
{
}

/// Burning what was minted restores every balance and the supply.
pub proof fn law_burn_undoes_mint(
    state: State,
    context: Context,
    minter: Address,
    account: Address,
    amount: i128,
    other: Address,
)
    requires
        state.refusal(context, Call::Mint { minter, to: account, amount }) is None,
        context.authorizes(account),
        state.balance_of(account) >= 0,
    ensures
        ({
            let minted = state.after(Call::Mint { minter, to: account, amount });
            let burn = Call::Burn { from: account, amount };
            &&& minted.balance_of(account) == state.balance_of(account) + amount
            &&& minted.refusal(context, burn) is None
            &&& minted.after(burn).balance_of(other) == state.balance_of(other)
            &&& minted.after(burn).supply() == state.supply()
        }),
{
}

/// A transfer to somebody else moves the amount, and transferring it back
/// restores every balance.
pub proof fn law_transfer_back_undoes_transfer(
    state: State,
    context: Context,
    from: Address,
    to: Address,
    amount: i128,
    other: Address,
)
    requires
        from != to,
        state.refusal(context, Call::Transfer { from, to, amount }) is None,
        context.authorizes(to),
        state.balance_of(to) >= 0,
    ensures
        ({
            let moved = state.after(Call::Transfer { from, to, amount });
            let back = Call::Transfer { from: to, to: from, amount };
            &&& moved.balance_of(from) == state.balance_of(from) - amount
            &&& moved.balance_of(to) == state.balance_of(to) + amount
            &&& moved.refusal(context, back) is None
            &&& moved.after(back).balance_of(other) == state.balance_of(other)
        }),
{
}

/// A call that its author authorized is never refused for want of an
/// authorization, and a call that the author did not authorize always is.
pub proof fn law_authors_authorize(state: State, context: Context, call: Call)
    ensures
        (state.refusal(context, call) == Some(Error::NotAuthorized)) == (call.author() matches Some(
            account,
        ) && !context.authorizes(account)),
{
}

/// Whether the footprint of `call` names `key`.
spec fn touches(call: Call, key: DataKey) -> bool {
    match call {
        Call::Initialize { admin, .. } => match key {
            DataKey::RoleMember(_, account) => account == admin,
            DataKey::Balance(_) => false,
            DataKey::Allowance(_, _) => false,
            _ => true,
        },
        Call::GrantRole { admin, role, account } => key == DataKey::RoleMember(Role::Admin, admin)
            || key == DataKey::RoleMember(role, account) || key == DataKey::Admins && role
            == Role::Admin,
        Call::RevokeRole { admin, role, account } => key == DataKey::RoleMember(Role::Admin, admin)
            || key == DataKey::RoleMember(role, account) || key == DataKey::Admins && role
            == Role::Admin,
        Call::Pause { pauser } => key == DataKey::RoleMember(Role::Pauser, pauser) || key
            == DataKey::Paused,
        Call::Unpause { pauser } => key == DataKey::RoleMember(Role::Pauser, pauser) || key
            == DataKey::Paused,
        Call::Mint { minter, to, .. } => key == DataKey::RoleMember(Role::Minter, minter) || key
            == DataKey::Paused || key == DataKey::Balance(to) || key == DataKey::TotalSupply,
        Call::Burn { from, .. } => key == DataKey::Paused || key == DataKey::Balance(from) || key
            == DataKey::TotalSupply,
        Call::Transfer { from, to, .. } => key == DataKey::Paused || key == DataKey::Balance(from)
            || key == DataKey::Balance(to),
        Call::Approve { owner, spender, .. } => key == DataKey::Allowance(owner, spender),
        Call::TransferFrom { spender, from, to, .. } => key == DataKey::Paused || key
            == DataKey::Allowance(from, spender) || key == DataKey::Balance(from) || key
            == DataKey::Balance(to),
        Call::SetAdmin { caller, new_admin } => match key {
            DataKey::RoleMember(_, account) => account == caller || account == new_admin,
            _ => key == DataKey::Admins,
        },
    }
}

proof fn lemma_touches(call: Call, key: DataKey)
    ensures
        call.keys().contains(key) == touches(call, key),
{
    let keys = call.keys();
    if touches(call, key) {
        assert(keys.len() > 0 && keys[0] == key || keys.len() > 1 && keys[1] == key || keys.len() > 2
            && keys[2] == key || keys.len() > 3 && keys[3] == key || keys.len() > 4 && keys[4] == key
            || keys.len() > 5 && keys[5] == key || keys.len() > 6 && keys[6] == key || keys.len() > 7
            && keys[7] == key || keys.len() > 8 && keys[8] == key);
    }
}

/// What becomes of a call depends on the entries that its footprint names and
/// on no others, and it leaves all others as they are.
pub proof fn law_footprint(state: State, other: State, context: Context, call: Call)
    requires
        forall|key: DataKey| call.keys().contains(key) ==> #[trigger] state.entry(key)
            == other.entry(key),
    ensures
        state.refusal(context, call) == other.refusal(context, call),
        state.refusal(context, call) is None ==> state.event(call) == other.event(call),
        forall|key: DataKey|
            call.keys().contains(key) ==> #[trigger] state.after(call).entry(key) == other.after(
                call,
            ).entry(key),
        forall|key: DataKey|
            !call.keys().contains(key) ==> #[trigger] state.after(call).entry(key) == state.entry(
                key,
            ),
{
    assert forall|key: DataKey| touches(call, key) implies #[trigger] state.entry(key)
        == other.entry(key) by {
        lemma_touches(call, key);
    }
    lemma_reads(state, other, context, call);
    assert forall|key: DataKey|
        call.keys().contains(key) implies #[trigger] state.after(call).entry(key) == other.after(
        call,
    ).entry(key) by {
        lemma_touches(call, key);
        lemma_writes(state, other, call, key);
    }
    assert forall|key: DataKey|
        !call.keys().contains(key) implies #[trigger] state.after(call).entry(key) == state.entry(
        key,
    ) by {
        lemma_touches(call, key);
        lemma_leaves(state, call, key);
    }
}

proof fn lemma_reads(state: State, other: State, context: Context, call: Call)
    requires
        forall|key: DataKey| touches(call, key) ==> #[trigger] state.entry(key) == other.entry(key),
    ensures
        state.refusal(context, call) == other.refusal(context, call),
        state.refusal(context, call) is None ==> state.event(call) == other.event(call),
{
    let same = |key: DataKey| state.entry(key) == other.entry(key);
    match call {
        Call::Initialize { .. } => {
            assert(same(DataKey::Paused));
        },
        Call::GrantRole { admin, .. } => {
            assert(same(DataKey::RoleMember(Role::Admin, admin)));
        },
        Call::RevokeRole { admin, .. } => {
            assert(same(DataKey::RoleMember(Role::Admin, admin)));
        },
        Call::Pause { pauser } => {
            assert(same(DataKey::RoleMember(Role::Pauser, pauser)));
        },
        Call::Unpause { pauser } => {
            assert(same(DataKey::RoleMember(Role::Pauser, pauser)));
        },
        Call::Mint { minter, to, .. } => {
            assert(same(DataKey::RoleMember(Role::Minter, minter)));
            assert(same(DataKey::Paused));
            assert(same(DataKey::Balance(to)));
            assert(same(DataKey::TotalSupply));
        },
        Call::Burn { from, .. } => {
            assert(same(DataKey::Paused));
            assert(same(DataKey::Balance(from)));
            assert(same(DataKey::TotalSupply));
        },
        Call::Transfer { from, to, .. } => {
            assert(same(DataKey::Paused));
            assert(same(DataKey::Balance(from)));
            assert(same(DataKey::Balance(to)));
        },
        Call::Approve { .. } => {},
        Call::TransferFrom { spender, from, to, .. } => {
            assert(same(DataKey::Paused));
            assert(same(DataKey::Allowance(from, spender)));
            assert(same(DataKey::Balance(from)));
            assert(same(DataKey::Balance(to)));
        },
        Call::SetAdmin { caller, .. } => {
            assert(same(DataKey::RoleMember(Role::Admin, caller)));
        },
    }
}

proof fn lemma_writes(state: State, other: State, call: Call, key: DataKey)
    requires
        forall|k: DataKey| touches(call, k) ==> #[trigger] state.entry(k) == other.entry(k),
        touches(call, key),
    ensures
        state.after(call).entry(key) == other.after(call).entry(key),
{
    let same = |k: DataKey| state.entry(k) == other.entry(k);
    assert(same(key));
    match call {
        Call::Mint { to, .. } => {
            assert(same(DataKey::Balance(to)));
            assert(same(DataKey::TotalSupply));
        },
        Call::Burn { from, .. } => {
            assert(same(DataKey::Balance(from)));
            assert(same(DataKey::TotalSupply));
        },
        Call::Transfer { from, to, .. } => {
            assert(same(DataKey::Balance(from)));
            assert(same(DataKey::Balance(to)));
        },
        Call::TransferFrom { spender, from, to, .. } => {
            assert(same(DataKey::Allowance(from, spender)));
            assert(same(DataKey::Balance(from)));
            assert(same(DataKey::Balance(to)));
        },
        _ => {},
    }
}

proof fn lemma_leaves(state: State, call: Call, key: DataKey)
    requires
        !touches(call, key),
    ensures
        state.after(call).entry(key) == state.entry(key),
{
}

/// What the token answers is what its ledger entries hold: a role that is noted
/// as held, the amount that is written, nothing where nothing is written, and
/// the pause switch once it was set.
pub proof fn law_answers_show_the_entries(
    state: State,
    role: Role,
    account: Address,
    other: Address,
)
    ensures
        state.has_role(role, account) <==> state.members.contains_key((role, account))
            && state.members[(role, account)],
        state.balances.contains_key(account) ==> state.balance_of(account)
            == state.balances[account],
        !state.balances.contains_key(account) ==> state.balance_of(account) == 0,
        state.allowances.contains_key((account, other)) ==> state.allowance_of(account, other)
            == state.allowances[(account, other)],
        !state.allowances.contains_key((account, other)) ==> state.allowance_of(account, other)
            == 0,
        state.total_supply matches Some(supply) ==> state.supply() == supply,
        state.total_supply is None ==> state.supply() == 0,
        state.is_initialized() <==> state.paused is Some,
        state.is_paused() <==> state.paused == Some(true),
{
}

/// What the contracts of the token's methods speak of is what its fields hold,
/// and a new token holds nothing.
pub proof fn law_fields_are_the_entries(token: TokenContract)
    ensures
        token@.members == token.members@,
        token@.balances == token.balances@,
        token@.allowances == token.allowances@,
        token@.total_supply == token.total_supply,
        token.name matches Some(name) ==> token@.name == Some(name@),
        token.name is None ==> token@.name is None,
        token.symbol matches Some(symbol) ==> token@.symbol == Some(symbol@),
        token.symbol is None ==> token@.symbol is None,
        token@.decimals == token.decimals,
        token@.paused == token.paused,
        token@.admins == token.admins@,
        State::empty().members == Map::<(Role, Address), bool>::empty(),
        State::empty().balances == Map::<Address, i128>::empty(),
        State::empty().allowances == Map::<(Address, Address), i128>::empty(),
        State::empty().total_supply is None,
        State::empty().name is None,
        State::empty().symbol is None,
        State::empty().decimals is None,
        State::empty().paused is None,
        State::empty().admins.len() == 0,
{
}

/// The entries tell two states of the token apart: where all are the same, the
/// states are.
pub proof fn law_entries_tell_states_apart(state: State, other: State)
    requires
        forall|key: DataKey| #[trigger] state.entry(key) == other.entry(key),
    ensures
        state == other,
{
    let same = |key: DataKey| state.entry(key) == other.entry(key);
    assert(same(DataKey::TotalSupply) && same(DataKey::Name) && same(DataKey::Symbol));
    assert(same(DataKey::Decimals) && same(DataKey::Paused) && same(DataKey::Admins));
    assert forall|member: (Role, Address)|
        {
            &&& #[trigger] state.members.contains_key(member) == other.members.contains_key(member)
            &&& state.members.contains_key(member) ==> state.members[member]
                == other.members[member]
        } by {
        assert(same(DataKey::RoleMember(member.0, member.1)));
    }
    assert(state.members =~= other.members);
    assert forall|account: Address|
        {
            &&& #[trigger] state.balances.contains_key(account) == other.balances.contains_key(
                account,
            )
            &&& state.balances.contains_key(account) ==> state.balances[account]
                == other.balances[account]
        } by {
        assert(same(DataKey::Balance(account)));
    }
    assert(state.balances =~= other.balances);
    assert forall|pair: (Address, Address)|
        {
            &&& #[trigger] state.allowances.contains_key(pair) == other.allowances.contains_key(
                pair,
            )
            &&& state.allowances.contains_key(pair) ==> state.allowances[pair]
                == other.allowances[pair]
        } by {
        assert(same(DataKey::Allowance(pair.0, pair.1)));
    }
    assert(state.allowances =~= other.allowances);
    assert(state =~= other);
}

/// A call is carried out as a whole or not at all. It is carried out exactly
/// when nothing speaks against it; then its entries are written and its event,
/// if it has one, is published in the name of the token. Else the reason is
/// returned, no entry changes and nothing is published. The invocation itself
/// stays what it was.
pub proof fn law_all_or_nothing(
    before: State,
    start: Invocation,
    call: Call,
    result: Result<(), Error>,
    after: State,
    end: Invocation,
)
    requires
        outcome(before, start, call, result, after, end),
    ensures
        end.host == start.host,
        end.contract == start.contract,
        end.now == start.now,
        end.signers@ == start.signers@,
        result is Ok <==> before.refusal(start.context(), call) is None,
        result matches Err(error) ==> {
            &&& before.refusal(start.context(), call) == Some(error)
            &&& after == before
            &&& end.events@ == start.events@
        },
        result is Ok ==> {
            &&& after == before.after(call)
            &&& match before.event(call) {
                Some(event) => end.events@ == start.events@.push(
                    Published {
                        contract: start.contract,
                        event: crate::invocation::Event::Token(event),
                    },
                ),
                None => end.events@ == start.events@,
            }
        },
{
}

/// The token can be initialized as long as its pause switch was never written,
/// whoever asks for it.
pub proof fn law_initialization_succeeds_once(
    state: State,
    context: Context,
    admin: Address,
    name: Vec<u8>,
    symbol: Vec<u8>,
    decimals: u32,
)
    ensures
        ({
            let refusal = state.refusal(
                context,
                Call::Initialize { admin, name, symbol, decimals },
            );
            &&& refusal is None <==> state.paused is None
            &&& refusal is Some ==> refusal == Some(Error::AlreadyInitialized)
        }),
{
}

/// Initialization stores the texts and the number that it is given, puts nothing
/// in circulation, lets tokens move, and gives all three roles to `admin` and no
/// role to anybody else. Balances and allowances stay.
pub proof fn law_initialization_stores_what_it_is_given(
    state: State,
    admin: Address,
    name: Vec<u8>,
    symbol: Vec<u8>,
    decimals: u32,
    role: Role,
    other: Address,
)
    ensures
        ({
            let after = state.after(Call::Initialize { admin, name, symbol, decimals });
            &&& after.name == Some(name@)
            &&& after.symbol == Some(symbol@)
            &&& after.decimals == Some(decimals)
            &&& after.total_supply == Some(0i128)
            &&& after.paused == Some(false)
            &&& after.balances == state.balances
            &&& after.allowances == state.allowances
            &&& state.admins.contains(admin) ==> after.admins == state.admins
            &&& !state.admins.contains(admin) ==> after.admins == state.admins + seq![admin]
            &&& after.members.contains_key((role, admin)) && after.members[(role, admin)]
            &&& other != admin ==> {
                &&& after.members.contains_key((role, other)) == state.members.contains_key(
                    (role, other),
                )
                &&& after.members.contains_key((role, other)) ==> after.members[(role, other)]
                    == state.members[(role, other)]
            }
        }),
{
    assert(state.admins.push(admin) =~= state.admins + seq![admin]);
}

/// A call that asks for a role is carried out exactly when the account that it
/// names authorizes it and holds the role: an admin to change roles and to hand
/// the token over, a pauser to pause and unpause. Who does not authorize it
/// learns that, and who does but holds no such role learns that instead.
pub proof fn law_role_calls_succeed_exactly_for_holders(
    state: State,
    context: Context,
    call: Call,
    account: Address,
)
    requires
        match call {
            Call::GrantRole { admin, .. } => admin == account,
            Call::RevokeRole { admin, .. } => admin == account,
            Call::Pause { pauser } => pauser == account,
            Call::Unpause { pauser } => pauser == account,
            Call::SetAdmin { caller, .. } => caller == account,
            _ => false,
        },
    ensures
        ({
            let role = if call is Pause || call is Unpause {
                Role::Pauser
            } else {
                Role::Admin
            };
            let holds = state.members.contains_key((role, account)) && state.members[(
                role,
                account,
            )];
            let refusal = state.refusal(context, call);
            &&& refusal is None <==> context.signers.contains(account) && holds
            &&& refusal == Some(Error::NotAuthorized) <==> !context.signers.contains(account)
            &&& refusal == Some(Error::MissingRole) <==> context.signers.contains(account)
                && !holds
        }),
{
}

/// Granting and revoking touch the one membership that they name, and the place
/// of that account among the admins; nothing else changes.
pub proof fn law_role_changes_touch_one_membership(
    state: State,
    admin: Address,
    role: Role,
    account: Address,
)
    ensures
        ({
            let granted = state.after(Call::GrantRole { admin, role, account });
            let revoked = state.after(Call::RevokeRole { admin, role, account });
            &&& granted.members == state.members.insert((role, account), true)
            &&& revoked.members == state.members.remove((role, account))
            &&& granted == (State {
                members: granted.members,
                admins: granted.admins,
                ..state
            })
            &&& revoked == (State {
                members: revoked.members,
                admins: revoked.admins,
                ..state
            })
            &&& role != Role::Admin ==> granted.admins == state.admins && revoked.admins
                == state.admins
        }),
{
}

/// An account that becomes an admin stands behind all that were admins before,
/// who keep their places. An account that was one keeps its place too.
pub proof fn law_new_admins_stand_last(state: State, admin: Address, account: Address)
    ensures
        ({
            let after = state.after(Call::GrantRole { admin, role: Role::Admin, account });
            &&& !state.admins.contains(account) ==> after.admins == state.admins + seq![account]
            &&& state.admins.contains(account) ==> after.admins == state.admins
        }),
{
    assert(state.admins.push(account) =~= state.admins + seq![account]);
}

/// When an account ceases to be an admin the others keep their order: those
/// before it keep their places, and those behind it move up by one.
pub proof fn law_remaining_admins_keep_their_order(
    state: State,
    admin: Address,
    account: Address,
    at: int,
)
    requires
        state.admins.no_duplicates(),
        0 <= at < state.admins.len(),
        state.admins[at] == account,
    ensures
        ({
            let after = state.after(Call::RevokeRole { admin, role: Role::Admin, account });
            after.admins == state.admins.subrange(0, at) + state.admins.subrange(
                at + 1,
                state.admins.len() as int,
            )
        }),
{
    state.admins.index_of_first_ensures(account);
    let after = state.after(Call::RevokeRole { admin, role: Role::Admin, account });
    assert(state.admins.contains(account));
    assert(after.admins =~= state.admins.subrange(0, at) + state.admins.subrange(
        at + 1,
        state.admins.len() as int,
    ));
}

/// Revoking the admin role from an account that is no admin leaves the list.
pub proof fn law_who_is_no_admin_leaves_no_gap(state: State, admin: Address, account: Address)
    requires
        !state.admins.contains(account),
    ensures
        state.after(Call::RevokeRole { admin, role: Role::Admin, account }).admins
            == state.admins,
{
    state.admins.index_of_first_ensures(account);
}

/// Handing the token over touches the memberships of the two accounts and the
/// list of admins; every other account keeps its roles, and nothing else
/// changes. It is what revoking the three roles from the one and granting them
/// to the other does.
pub proof fn law_handing_over_is_revoking_and_granting(
    state: State,
    caller: Address,
    new_admin: Address,
    role: Role,
    other: Address,
)
    ensures
        ({
            let after = state.after(Call::SetAdmin { caller, new_admin });
            let revoke = |role: Role| Call::RevokeRole { admin: caller, role, account: caller };
            let grant = |role: Role| Call::GrantRole { admin: caller, role, account: new_admin };
            &&& after == state.after(revoke(Role::Admin)).after(revoke(Role::Minter)).after(
                revoke(Role::Pauser),
            ).after(grant(Role::Admin)).after(grant(Role::Minter)).after(grant(Role::Pauser))
            &&& after == (State { members: after.members, admins: after.admins, ..state })
            &&& other != caller && other != new_admin ==> {
                &&& after.members.contains_key((role, other)) == state.members.contains_key(
                    (role, other),
                )
                &&& after.members.contains_key((role, other)) ==> after.members[(role, other)]
                    == state.members[(role, other)]
            }
        }),
{
}

/// Pausing and unpausing set the switch and nothing else, whatever it was.
pub proof fn law_pausing_sets_the_switch(state: State, pauser: Address)
    ensures
        state.after(Call::Pause { pauser }) == (State { paused: Some(true), ..state }),
        state.after(Call::Unpause { pauser }) == (State { paused: Some(false), ..state }),
{
}

/// Minting succeeds exactly when a minter authorizes it, the token is not
/// paused, the amount is positive, and neither the balance nor the supply grows
/// beyond its type. The first of these that fails is the one that is reported.
pub proof fn law_minting_succeeds_exactly(
    state: State,
    context: Context,
    minter: Address,
    to: Address,
    amount: i128,
)
    ensures
        ({
            let refusal = state.refusal(context, Call::Mint { minter, to, amount });
            let authorized = context.signers.contains(minter);
            let entitled = authorized && state.has_role(Role::Minter, minter);
            let open = entitled && state.paused != Some(true);
            let fits = state.balance_of(to) + amount <= i128::MAX && state.supply() + amount
                <= i128::MAX;
            &&& refusal is None <==> open && amount > 0 && fits
            &&& refusal == Some(Error::NotAuthorized) <==> !authorized
            &&& refusal == Some(Error::MissingRole) <==> authorized && !entitled
            &&& refusal == Some(Error::ContractPaused) <==> entitled && !open
            &&& refusal == Some(Error::AmountNotPositive) <==> open && amount <= 0
            &&& refusal == Some(Error::Overflow) <==> open && amount > 0 && !fits
        }),
{
}

/// Minting adds the amount to one balance and to the supply, and changes nothing
/// else.
pub proof fn law_minting_credits_one_account(
    state: State,
    context: Context,
    minter: Address,
    to: Address,
    amount: i128,
)
    requires
        state.refusal(context, Call::Mint { minter, to, amount }) is None,
    ensures
        ({
            let after = state.after(Call::Mint { minter, to, amount });
            &&& after.balances.contains_key(to)
            &&& after.balances[to] - state.balance_of(to) == amount
            &&& after.balances.remove(to) == state.balances.remove(to)
            &&& after.total_supply matches Some(supply) && supply - state.supply() == amount
            &&& after == (State {
                balances: after.balances,
                total_supply: after.total_supply,
                ..state
            })
        }),
{
    let after = state.after(Call::Mint { minter, to, amount });
    assert(after.balances.remove(to) =~= state.balances.remove(to));
}

/// Burning succeeds exactly when the holder authorizes it, the token is not
/// paused, the amount is positive and at most what the holder has, down to the
/// last token, and the supply does not shrink below its type. The first of these
/// that fails is the one that is reported.
pub proof fn law_burning_succeeds_exactly(
    state: State,
    context: Context,
    from: Address,
    amount: i128,
)
    ensures
        ({
            let refusal = state.refusal(context, Call::Burn { from, amount });
            let authorized = context.signers.contains(from);
            let open = authorized && state.paused != Some(true);
            let covered = open && amount > 0 && amount <= state.balance_of(from);
            let fits = state.supply() - amount >= i128::MIN;
            &&& refusal is None <==> covered && fits
            &&& refusal == Some(Error::NotAuthorized) <==> !authorized
            &&& refusal == Some(Error::ContractPaused) <==> authorized && !open
            &&& refusal == Some(Error::AmountNotPositive) <==> open && amount <= 0
            &&& refusal == Some(Error::InsufficientBalance) <==> open && amount > 0 && !covered
            &&& refusal == Some(Error::Underflow) <==> covered && !fits
        }),
{
}

/// Burning takes the amount off one balance and off the supply, and changes
/// nothing else.
pub proof fn law_burning_debits_one_account(
    state: State,
    context: Context,
    from: Address,
    amount: i128,
)
    requires
        state.refusal(context, Call::Burn { from, amount }) is None,
    ensures
        ({
            let after = state.after(Call::Burn { from, amount });
            &&& after.balances.contains_key(from)
            &&& state.balance_of(from) - after.balances[from] == amount
            &&& after.balances.remove(from) == state.balances.remove(from)
            &&& after.total_supply matches Some(supply) && state.supply() - supply == amount
            &&& after == (State {
                balances: after.balances,
                total_supply: after.total_supply,
                ..state
            })
        }),
{
    let after = state.after(Call::Burn { from, amount });
    assert(after.balances.remove(from) =~= state.balances.remove(from));
}

/// A transfer succeeds exactly when the sender authorizes it, the token is not
/// paused, the amount is positive and at most what the sender has, down to the
/// last token, and the recipient's balance does not grow beyond its type. The
/// first of these that fails is the one that is reported.
pub proof fn law_transfers_succeed_exactly(
    state: State,
    context: Context,
    from: Address,
    to: Address,
    amount: i128,
)
    ensures
        ({
            let refusal = state.refusal(context, Call::Transfer { from, to, amount });
            let authorized = context.signers.contains(from);
            let open = authorized && state.paused != Some(true);
            let covered = open && amount > 0 && amount <= state.balance_of(from);
            let fits = state.balance_of(to) + amount <= i128::MAX;
            &&& refusal is None <==> covered && fits
            &&& refusal == Some(Error::NotAuthorized) <==> !authorized
            &&& refusal == Some(Error::ContractPaused) <==> authorized && !open
            &&& refusal == Some(Error::AmountNotPositive) <==> open && amount <= 0
            &&& refusal == Some(Error::InsufficientBalance) <==> open && amount > 0 && !covered
            &&& refusal == Some(Error::Overflow) <==> covered && !fits
        }),
{
}

/// A transfer to somebody else moves the amount from the one balance to the
/// other; a transfer to oneself credits the account. Nothing else changes.
pub proof fn law_transfers_move_the_amount(
    state: State,
    context: Context,
    from: Address,
    to: Address,
    amount: i128,
)
    requires
        state.refusal(context, Call::Transfer { from, to, amount }) is None,
    ensures
        ({
            let after = state.after(Call::Transfer { from, to, amount });
            &&& after.balances.contains_key(from)
            &&& after.balances.contains_key(to)
            &&& from != to ==> state.balance_of(from) - after.balances[from] == amount
            &&& after.balances[to] - state.balance_of(to) == amount
            &&& after.balances.remove(from).remove(to) == state.balances.remove(from).remove(to)
            &&& after == (State { balances: after.balances, ..state })
        }),
{
    let after = state.after(Call::Transfer { from, to, amount });
    assert(after.balances.remove(from).remove(to) =~= state.balances.remove(from).remove(to));
}

/// An approval succeeds exactly when the owner authorizes it and the amount is
/// not negative, also while the token is paused.
pub proof fn law_approvals_succeed_exactly(
    state: State,
    context: Context,
    owner: Address,
    spender: Address,
    amount: i128,
)
    ensures
        ({
            let refusal = state.refusal(context, Call::Approve { owner, spender, amount });
            let authorized = context.signers.contains(owner);
            &&& refusal is None <==> authorized && amount >= 0
            &&& refusal == Some(Error::NotAuthorized) <==> !authorized
            &&& refusal == Some(Error::AmountNegative) <==> authorized && amount < 0
        }),
{
}

/// After an approval the spender has exactly the allowance that was approved,
/// whatever it was before: it can be raised, lowered and withdrawn. No other
/// allowance and nothing else changes.
pub proof fn law_approvals_set_the_allowance(
    state: State,
    owner: Address,
    spender: Address,
    amount: i128,
)
    ensures
        ({
            let after = state.after(Call::Approve { owner, spender, amount });
            &&& after.allowances.contains_key((owner, spender))
            &&& after.allowances[(owner, spender)] == amount
            &&& after.allowance_of(owner, spender) == amount
            &&& after.allowances.remove((owner, spender)) == state.allowances.remove(
                (owner, spender),
            )
            &&& after == (State { allowances: after.allowances, ..state })
        }),
{
    let after = state.after(Call::Approve { owner, spender, amount });
    assert(after.allowances.remove((owner, spender)) =~= state.allowances.remove((owner, spender)));
}

/// The last of two approvals counts alone.
pub proof fn law_last_approval_counts(
    state: State,
    owner: Address,
    spender: Address,
    first: i128,
    second: i128,
)
    ensures
        state.after(Call::Approve { owner, spender, amount: first }).after(
            Call::Approve { owner, spender, amount: second },
        ) == state.after(Call::Approve { owner, spender, amount: second }),
{
    assert(state.allowances.insert((owner, spender), first).insert((owner, spender), second)
        =~= state.allowances.insert((owner, spender), second));
}

/// A transfer by allowance succeeds exactly when the spender authorizes it, the
/// token is not paused, the amount is positive, at most the allowance and at
/// most what the owner has, down to the last token of either, and the
/// recipient's balance does not grow beyond its type; to the owner it never
/// does. The first of these that fails is the one that is reported.
pub proof fn law_transfers_by_allowance_succeed_exactly(
    state: State,
    context: Context,
    spender: Address,
    from: Address,
    to: Address,
    amount: i128,
)
    ensures
        ({
            let refusal = state.refusal(
                context,
                Call::TransferFrom { spender, from, to, amount },
            );
            let authorized = context.signers.contains(spender);
            let open = authorized && state.paused != Some(true);
            let allowed = open && amount > 0 && amount <= state.allowance_of(from, spender);
            let covered = allowed && amount <= state.balance_of(from);
            let fits = from == to || state.balance_of(to) + amount <= i128::MAX;
            &&& refusal is None <==> covered && fits
            &&& refusal == Some(Error::NotAuthorized) <==> !authorized
            &&& refusal == Some(Error::ContractPaused) <==> authorized && !open
            &&& refusal == Some(Error::AmountNotPositive) <==> open && amount <= 0
            &&& refusal == Some(Error::AllowanceExceeded) <==> open && amount > 0 && !allowed
            &&& refusal == Some(Error::InsufficientBalance) <==> allowed && !covered
            &&& refusal == Some(Error::Overflow) <==> covered && !fits
        }),
{
}

/// A transfer by allowance takes the amount off the allowance, and moves it from
/// the owner's balance to the recipient's; where these are the same account its
/// balance stays. Nothing else changes.
pub proof fn law_transfers_by_allowance_move_the_amount(
    state: State,
    context: Context,
    spender: Address,
    from: Address,
    to: Address,
    amount: i128,
)
    requires
        state.refusal(context, Call::TransferFrom { spender, from, to, amount }) is None,
    ensures
        ({
            let after = state.after(Call::TransferFrom { spender, from, to, amount });
            &&& after.allowances.contains_key((from, spender))
            &&& state.allowance_of(from, spender) - after.allowances[(from, spender)] == amount
            &&& after.allowances.remove((from, spender)) == state.allowances.remove(
                (from, spender),
            )
            &&& after.balances.contains_key(from)
            &&& after.balances.contains_key(to)
            &&& from == to ==> after.balances[from] == state.balance_of(from)
            &&& from != to ==> {
                &&& state.balance_of(from) - after.balances[from] == amount
                &&& after.balances[to] - state.balance_of(to) == amount
            }
            &&& after.balances.remove(from).remove(to) == state.balances.remove(from).remove(to)
            &&& after == (State {
                balances: after.balances,
                allowances: after.allowances,
                ..state
            })
        }),
{
    let after = state.after(Call::TransferFrom { spender, from, to, amount });
    assert(after.balances.remove(from).remove(to) =~= state.balances.remove(from).remove(to));
    assert(after.allowances.remove((from, spender)) =~= state.allowances.remove((from, spender)));
}

/// Every call but initialization announces what it did, to whom and by whom; a
/// mint and a burn also announce the supply that they leave.
pub proof fn law_events_tell_what_was_done(state: State, context: Context, call: Call)
    requires
        state.refusal(context, call) is None,
    ensures
        match call {
            Call::Initialize { .. } => state.event(call) is None,
            Call::GrantRole { admin, role, account } => state.event(call) == Some(
                Event::RoleGranted { role, admin, account },
            ),
            Call::RevokeRole { admin, role, account } => state.event(call) == Some(
                Event::RoleRevoked { role, admin, account },
            ),
            Call::Pause { pauser } => state.event(call) == Some(Event::Paused { pauser }),
            Call::Unpause { pauser } => state.event(call) == Some(Event::Unpaused { pauser }),
            Call::Mint { to, amount, .. } => {
                &&& state.event(call) matches Some(Event::Mint { to: t, amount: a, supply })
                &&& t == to
                &&& a == amount
                &&& supply == state.supply() + amount
            },
            Call::Burn { from, amount } => {
                &&& state.event(call) matches Some(Event::Burn { from: f, amount: a, supply })
                &&& f == from
                &&& a == amount
                &&& supply == state.supply() - amount
            },
            Call::Transfer { from, to, amount } => state.event(call) == Some(
                Event::Transfer { from, to, amount },
            ),
            Call::Approve { owner, spender, amount } => state.event(call) == Some(
                Event::Approval { owner, spender, amount },
            ),
            Call::TransferFrom { from, to, amount, .. } => state.event(call) == Some(
                Event::Transfer { from, to, amount },
            ),
            Call::SetAdmin { caller, new_admin } => state.event(call) == Some(
                Event::RoleGranted { role: Role::Admin, admin: caller, account: new_admin },
            ),
        },
{
}

/// The topics of an event depend on its kind alone: by them a listener tells
/// what happened, whoever and however much it was about.
pub proof fn law_topics_name_the_kind(event: Event)
    ensures
        event is Mint ==> event.name() == "MINT"@ && event.label_text() == Some("to"@),
        event is Transfer ==> event.name() == "TRANSFER"@ && event.label_text() == Some("from"@),
        event is Burn ==> event.name() == "BURN"@ && event.label_text() == Some("from"@),
        event is Approval ==> event.name() == "APPROVAL"@ && event.label_text() == Some("owner"@),
        event is RoleGranted ==> event.name() == "ROLE_GRT"@ && event.label_text() is None,
        event is RoleRevoked ==> event.name() == "ROLE_REV"@ && event.label_text() is None,
        event is Paused ==> event.name() == "PAUSED"@ && event.label_text() is None,
        event is Unpaused ==> event.name() == "UNPAUSED"@ && event.label_text() is None,
{
}

} // verus!
