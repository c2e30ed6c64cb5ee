//! The loyalty token: balances, allowances and the roles that govern them.

use vstd::prelude::*;

use crate::address::Address;
use crate::error::Error;
use crate::invocation::{Context, Invocation};
use crate::table::{Key, Table};

verus! {

/// What an account may do with the token.
#[derive(Clone, Copy, Debug, PartialEq, Eq, Structural)]
pub enum Role {
    /// Grants and revokes roles.
    Admin,
    /// Mints.
    Minter,
    /// Pauses and unpauses.
    Pauser,
}

impl Key for Role {
    fn same(&self, other: &Self) -> (r: bool) {
        *self == *other
    }
}

/// The name of a ledger entry of the token.
#[derive(Clone, Copy, Debug, PartialEq, Eq, Structural)]
pub enum DataKey {
    /// Whether an account holds a role.
    RoleMember(Role, Address),
    Balance(Address),
    /// What an owner lets a spender transfer, in this order.
    Allowance(Address, Address),
    TotalSupply,
    Name,
    Symbol,
    Decimals,
    Paused,
    /// The accounts that hold the admin role, in the order in which they
    /// received it.
    Admins,
}

/// What the token publishes.
#[derive(Clone, Copy, Debug, PartialEq, Eq, Structural)]
pub enum Event {
    Mint { to: Address, amount: i128, supply: i128 },
    Transfer { from: Address, to: Address, amount: i128 },
    Burn { from: Address, amount: i128, supply: i128 },
    Approval { owner: Address, spender: Address, amount: i128 },
    RoleGranted { role: Role, admin: Address, account: Address },
    RoleRevoked { role: Role, admin: Address, account: Address },
    Paused { pauser: Address },
    Unpaused { pauser: Address },
}

impl Event {
    /// The first topic of the event.
    pub open spec fn name(self) -> Seq<char> {
        match self {
            Event::Mint { .. } => "MINT"@,
            Event::Transfer { .. } => "TRANSFER"@,
            Event::Burn { .. } => "BURN"@,
            Event::Approval { .. } => "APPROVAL"@,
            Event::RoleGranted { .. } => "ROLE_GRT"@,
            Event::RoleRevoked { .. } => "ROLE_REV"@,
            Event::Paused { .. } => "PAUSED"@,
            Event::Unpaused { .. } => "UNPAUSED"@,
        }
    }

    /// The first topic of the event.
    pub fn topic(&self) -> (topic: &'static str)
        ensures
            topic@ == self.name(),
    {
        match self {
            Event::Mint { .. } => "MINT",
            Event::Transfer { .. } => "TRANSFER",
            Event::Burn { .. } => "BURN",
            Event::Approval { .. } => "APPROVAL",
            Event::RoleGranted { .. } => "ROLE_GRT",
            Event::RoleRevoked { .. } => "ROLE_REV",
            Event::Paused { .. } => "PAUSED",
            Event::Unpaused { .. } => "UNPAUSED",
        }
    }

    /// What stands second among the topics, to say what the third one is.
    pub open spec fn label_text(self) -> Option<Seq<char>> {
        match self {
            Event::Mint { .. } => Some("to"@),
            Event::Transfer { .. } => Some("from"@),
            Event::Burn { .. } => Some("from"@),
            Event::Approval { .. } => Some("owner"@),
            _ => None,
        }
    }

    /// What stands second among the topics, to say what the third one is.
    pub fn label(&self) -> (label: Option<&'static str>)
        ensures
            match label {
                Some(label) => self.label_text() == Some(label@),
                None => self.label_text() is None,
            },
    {
        match self {
            Event::Mint { .. } => Some("to"),
            Event::Transfer { .. } => Some("from"),
            Event::Burn { .. } => Some("from"),
            Event::Approval { .. } => Some("owner"),
            _ => None,
        }
    }
}

/// An invocation that can change the token.
pub enum Call {
    Initialize { admin: Address, name: Vec<u8>, symbol: Vec<u8>, decimals: u32 },
    GrantRole { admin: Address, role: Role, account: Address },
    RevokeRole { admin: Address, role: Role, account: Address },
    Pause { pauser: Address },
    Unpause { pauser: Address },
    Mint { minter: Address, to: Address, amount: i128 },
    Burn { from: Address, amount: i128 },
    Transfer { from: Address, to: Address, amount: i128 },
    Approve { owner: Address, spender: Address, amount: i128 },
    TransferFrom { spender: Address, from: Address, to: Address, amount: i128 },
    SetAdmin { caller: Address, new_admin: Address },
}

/// The entries that a change of `account`'s hold of `role` by `admin` reads or
/// writes.
pub open spec fn role_keys(admin: Address, role: Role, account: Address) -> Seq<DataKey> {
    let members = seq![
        DataKey::RoleMember(Role::Admin, admin),
        DataKey::RoleMember(role, account),
    ];
    if role == Role::Admin {
        members.push(DataKey::Admins)
    } else {
        members
    }
}

impl Call {
    /// The ledger entries that the invocation reads or writes.
    pub open spec fn keys(self) -> Seq<DataKey> {
        match self {
            Call::Initialize { admin, .. } => seq![
                DataKey::Paused,
                DataKey::RoleMember(Role::Admin, admin),
                DataKey::RoleMember(Role::Minter, admin),
                DataKey::RoleMember(Role::Pauser, admin),
                DataKey::Name,
                DataKey::Symbol,
                DataKey::Decimals,
                DataKey::TotalSupply,
                DataKey::Admins,
            ],
            Call::GrantRole { admin, role, account } => role_keys(admin, role, account),
            Call::RevokeRole { admin, role, account } => role_keys(admin, role, account),
            Call::Pause { pauser } => seq![
                DataKey::RoleMember(Role::Pauser, pauser),
                DataKey::Paused,
            ],
            Call::Unpause { pauser } => seq![
                DataKey::RoleMember(Role::Pauser, pauser),
                DataKey::Paused,
            ],
            Call::Mint { minter, to, .. } => seq![
                DataKey::RoleMember(Role::Minter, minter),
                DataKey::Paused,
                DataKey::Balance(to),
                DataKey::TotalSupply,
            ],
            Call::Burn { from, .. } => seq![
                DataKey::Paused,
                DataKey::Balance(from),
                DataKey::TotalSupply,
            ],
            Call::Transfer { from, to, .. } => seq![
                DataKey::Paused,
                DataKey::Balance(from),
                DataKey::Balance(to),
            ],
            Call::Approve { owner, spender, .. } => seq![DataKey::Allowance(owner, spender)],
            Call::TransferFrom { spender, from, to, .. } => seq![
                DataKey::Paused,
                DataKey::Allowance(from, spender),
                DataKey::Balance(from),
                DataKey::Balance(to),
            ],
            Call::SetAdmin { caller, new_admin } => seq![
                DataKey::RoleMember(Role::Admin, caller),
                DataKey::RoleMember(Role::Minter, caller),
                DataKey::RoleMember(Role::Pauser, caller),
                DataKey::RoleMember(Role::Admin, new_admin),
                DataKey::RoleMember(Role::Minter, new_admin),
                DataKey::RoleMember(Role::Pauser, new_admin),
                DataKey::Admins,
            ],
        }
    }

    /// The ledger entries that the invocation reads or writes.
    pub fn footprint(&self) -> (keys: Vec<DataKey>)
        ensures
            keys@ == self.keys(),
    {
        let keys: Vec<DataKey> = match self {
            Call::Initialize { admin, .. } => vec![
                DataKey::Paused,
                DataKey::RoleMember(Role::Admin, *admin),
                DataKey::RoleMember(Role::Minter, *admin),
                DataKey::RoleMember(Role::Pauser, *admin),
                DataKey::Name,
                DataKey::Symbol,
                DataKey::Decimals,
                DataKey::TotalSupply,
                DataKey::Admins,
            ],
            Call::GrantRole { admin, role, account } => Self::role_footprint(
                *admin,
                *role,
                *account,
            ),
            Call::RevokeRole { admin, role, account } => Self::role_footprint(
                *admin,
                *role,
                *account,
            ),
            Call::Pause { pauser } => vec![
                DataKey::RoleMember(Role::Pauser, *pauser),
                DataKey::Paused,
            ],
            Call::Unpause { pauser } => vec![
                DataKey::RoleMember(Role::Pauser, *pauser),
                DataKey::Paused,
            ],
            Call::Mint { minter, to, .. } => vec![
                DataKey::RoleMember(Role::Minter, *minter),
                DataKey::Paused,
                DataKey::Balance(*to),
                DataKey::TotalSupply,
            ],
            Call::Burn { from, .. } => vec![
                DataKey::Paused,
                DataKey::Balance(*from),
                DataKey::TotalSupply,
            ],
            Call::Transfer { from, to, .. } => vec![
                DataKey::Paused,
                DataKey::Balance(*from),
                DataKey::Balance(*to),
            ],
            Call::Approve { owner, spender, .. } => vec![DataKey::Allowance(*owner, *spender)],
            Call::TransferFrom { spender, from, to, .. } => vec![
                DataKey::Paused,
                DataKey::Allowance(*from, *spender),
                DataKey::Balance(*from),
                DataKey::Balance(*to),
            ],
            Call::SetAdmin { caller, new_admin } => vec![
                DataKey::RoleMember(Role::Admin, *caller),
                DataKey::RoleMember(Role::Minter, *caller),
                DataKey::RoleMember(Role::Pauser, *caller),
                DataKey::RoleMember(Role::Admin, *new_admin),
                DataKey::RoleMember(Role::Minter, *new_admin),
                DataKey::RoleMember(Role::Pauser, *new_admin),
                DataKey::Admins,
            ],
        };
        assert(keys@ =~= self.keys());
        keys
    }

    /// The entries that a change of `account`'s hold of `role` by `admin` reads
    /// or writes.
    fn role_footprint(admin: Address, role: Role, account: Address) -> (keys: Vec<DataKey>)
        ensures
            keys@ == role_keys(admin, role, account),
    {
        let mut keys: Vec<DataKey> = vec![
            DataKey::RoleMember(Role::Admin, admin),
            DataKey::RoleMember(role, account),
        ];
        if role == Role::Admin {
            keys.push(DataKey::Admins);
        }
        assert(keys@ =~= role_keys(admin, role, account));
        keys
    }

    /// The account that has to authorize the invocation.
    pub open spec fn author(self) -> Option<Address> {
        match self {
            Call::Initialize { .. } => None,
            Call::GrantRole { admin, .. } => Some(admin),
            Call::RevokeRole { admin, .. } => Some(admin),
            Call::Pause { pauser } => Some(pauser),
            Call::Unpause { pauser } => Some(pauser),
            Call::Mint { minter, .. } => Some(minter),
            Call::Burn { from, .. } => Some(from),
            Call::Transfer { from, .. } => Some(from),
            Call::Approve { owner, .. } => Some(owner),
            Call::TransferFrom { spender, .. } => Some(spender),
            Call::SetAdmin { caller, .. } => Some(caller),
        }
    }

    /// The account that has to authorize the invocation.
    pub fn signer(&self) -> (account: Option<Address>)
        ensures
            account == self.author(),
    {
        match self {
            Call::Initialize { .. } => None,
            Call::GrantRole { admin, .. } => Some(*admin),
            Call::RevokeRole { admin, .. } => Some(*admin),
            Call::Pause { pauser } => Some(*pauser),
            Call::Unpause { pauser } => Some(*pauser),
            Call::Mint { minter, .. } => Some(*minter),
            Call::Burn { from, .. } => Some(*from),
            Call::Transfer { from, .. } => Some(*from),
            Call::Approve { owner, .. } => Some(*owner),
            Call::TransferFrom { spender, .. } => Some(*spender),
            Call::SetAdmin { caller, .. } => Some(*caller),
        }
    }
}

/// What a ledger entry of the token holds.
pub ghost enum Entry {
    Absent,
    Flag(bool),
    Amount(i128),
    Text(Seq<u8>),
    Number(u32),
    Accounts(Seq<Address>),
}

/// The ledger entries of the token.
#[verifier::ext_equal]
pub ghost struct State {
    pub members: Map<(Role, Address), bool>,
    pub balances: Map<Address, i128>,
    pub allowances: Map<(Address, Address), i128>,
    pub total_supply: Option<i128>,
    pub name: Option<Seq<u8>>,
    pub symbol: Option<Seq<u8>>,
    pub decimals: Option<u32>,
    pub paused: Option<bool>,
    /// The accounts that hold the admin role, in the order in which they
    /// received it.
    pub admins: Seq<Address>,
}

/// The amount that `entries` holds for `key`; nothing held is zero.
pub open spec fn amount_at<K>(entries: Map<K, i128>, key: K) -> i128 {
    if entries.contains_key(key) {
        entries[key]
    } else {
        0
    }
}

impl State {
    /// The token before anything was written.
    pub open spec fn empty() -> State {
        State {
            members: Map::empty(),
            balances: Map::empty(),
            allowances: Map::empty(),
            total_supply: None,
            name: None,
            symbol: None,
            decimals: None,
            paused: None,
            admins: Seq::empty(),
        }
    }

    /// What the entry of `key` holds.
    pub open spec fn entry(self, key: DataKey) -> Entry {
        match key {
            DataKey::RoleMember(role, account) => if self.members.contains_key((role, account)) {
                Entry::Flag(self.members[(role, account)])
            } else {
                Entry::Absent
            },
            DataKey::Balance(account) => if self.balances.contains_key(account) {
                Entry::Amount(self.balances[account])
            } else {
                Entry::Absent
            },
            DataKey::Allowance(owner, spender) => if self.allowances.contains_key(
                (owner, spender),
            ) {
                Entry::Amount(self.allowances[(owner, spender)])
            } else {
                Entry::Absent
            },
            DataKey::TotalSupply => match self.total_supply {
                Some(supply) => Entry::Amount(supply),
                None => Entry::Absent,
            },
            DataKey::Name => match self.name {
                Some(name) => Entry::Text(name),
                None => Entry::Absent,
            },
            DataKey::Symbol => match self.symbol {
                Some(symbol) => Entry::Text(symbol),
                None => Entry::Absent,
            },
            DataKey::Decimals => match self.decimals {
                Some(decimals) => Entry::Number(decimals),
                None => Entry::Absent,
            },
            DataKey::Paused => match self.paused {
                Some(paused) => Entry::Flag(paused),
                None => Entry::Absent,
            },
            DataKey::Admins => Entry::Accounts(self.admins),
        }
    }

    pub open spec fn has_role(self, role: Role, account: Address) -> bool {
        self.members.contains_key((role, account)) && self.members[(role, account)]
    }

    pub open spec fn is_initialized(self) -> bool {
        self.paused is Some
    }

    pub open spec fn is_paused(self) -> bool {
        self.paused == Some(true)
    }

    pub open spec fn balance_of(self, account: Address) -> i128 {
        amount_at(self.balances, account)
    }

    pub open spec fn allowance_of(self, owner: Address, spender: Address) -> i128 {
        amount_at(self.allowances, (owner, spender))
    }

    pub open spec fn supply(self) -> i128 {
        self.total_supply.unwrap_or(0)
    }

    /// These entries, with `role` granted to `account`. A new admin stands
    /// behind all others.
    pub open spec fn granting(self, role: Role, account: Address) -> State {
        State {
            members: self.members.insert((role, account), true),
            admins: if role == Role::Admin && !self.admins.contains(account) {
                self.admins.push(account)
            } else {
                self.admins
            },
            ..self
        }
    }

    /// These entries, with `role` revoked from `account`.
    pub open spec fn revoking(self, role: Role, account: Address) -> State {
        State {
            members: self.members.remove((role, account)),
            admins: if role == Role::Admin {
                self.admins.remove_value(account)
            } else {
                self.admins
            },
            ..self
        }
    }

    /// These entries, with all three roles granted to `account`.
    pub open spec fn granting_all(self, account: Address) -> State {
        self.granting(Role::Admin, account).granting(Role::Minter, account).granting(
            Role::Pauser,
            account,
        )
    }

    /// These entries, with all three roles revoked from `account`.
    pub open spec fn revoking_all(self, account: Address) -> State {
        self.revoking(Role::Admin, account).revoking(Role::Minter, account).revoking(
            Role::Pauser,
            account,
        )
    }

    /// These entries, with `amount` added to what `account` holds.
    pub open spec fn credited(self, account: Address, amount: int) -> State {
        State {
            balances: self.balances.insert(account, (self.balance_of(account) + amount) as i128),
            ..self
        }
    }

    /// Why an invocation that asks for `role` refuses `account`, if it does.
    pub open spec fn role_refusal(self, context: Context, role: Role, account: Address) -> Option<
        Error,
    > {
        if !context.authorizes(account) {
            Some(Error::NotAuthorized)
        } else if !self.has_role(role, account) {
            Some(Error::MissingRole)
        } else {
            None
        }
    }

    /// Why an invocation that moves `amount` for `account` is refused before
    /// any balance is looked at, if it is.
    pub open spec fn payment_refusal(self, context: Context, account: Address, amount: i128) -> Option<
        Error,
    > {
        if !context.authorizes(account) {
            Some(Error::NotAuthorized)
        } else if self.is_paused() {
            Some(Error::ContractPaused)
        } else if amount <= 0 {
            Some(Error::AmountNotPositive)
        } else {
            None
        }
    }

    /// Why `call` is refused, if it is: the first of its conditions that fails.
    pub open spec fn refusal(self, context: Context, call: Call) -> Option<Error> {
        match call {
            Call::Initialize { .. } => if self.is_initialized() {
                Some(Error::AlreadyInitialized)
            } else {
                None
            },
            Call::GrantRole { admin, .. } => self.role_refusal(context, Role::Admin, admin),
            Call::RevokeRole { admin, .. } => self.role_refusal(context, Role::Admin, admin),
            Call::Pause { pauser } => self.role_refusal(context, Role::Pauser, pauser),
            Call::Unpause { pauser } => self.role_refusal(context, Role::Pauser, pauser),
            Call::Mint { minter, to, amount } => {
                let role_refusal = self.role_refusal(context, Role::Minter, minter);
                let payment_refusal = self.payment_refusal(context, minter, amount);
                if role_refusal is Some {
                    role_refusal
                } else if payment_refusal is Some {
                    payment_refusal
                } else if self.balance_of(to) + amount > i128::MAX || self.supply() + amount
                    > i128::MAX {
                    Some(Error::Overflow)
                } else {
                    None
                }
            },
            Call::Burn { from, amount } => {
                let payment_refusal = self.payment_refusal(context, from, amount);
                if payment_refusal is Some {
                    payment_refusal
                } else if self.balance_of(from) < amount {
                    Some(Error::InsufficientBalance)
                } else if self.supply() - amount < i128::MIN {
                    Some(Error::Underflow)
                } else {
                    None
                }
            },
            Call::Transfer { from, to, amount } => {
                let payment_refusal = self.payment_refusal(context, from, amount);
                if payment_refusal is Some {
                    payment_refusal
                } else if self.balance_of(from) < amount {
                    Some(Error::InsufficientBalance)
                } else if self.balance_of(to) + amount > i128::MAX {
                    Some(Error::Overflow)
                } else {
                    None
                }
            },
            Call::Approve { owner, amount, .. } => if !context.authorizes(owner) {
                Some(Error::NotAuthorized)
            } else if amount < 0 {
                Some(Error::AmountNegative)
            } else {
                None
            },
            Call::TransferFrom { spender, from, to, amount } => {
                let payment_refusal = self.payment_refusal(context, spender, amount);
                if payment_refusal is Some {
                    payment_refusal
                } else if self.allowance_of(from, spender) < amount {
                    Some(Error::AllowanceExceeded)
                } else if self.balance_of(from) < amount {
                    Some(Error::InsufficientBalance)
                } else if self.credited(from, -amount).balance_of(to) + amount > i128::MAX {
                    Some(Error::Overflow)
                } else {
                    None
                }
            },
            Call::SetAdmin { caller, .. } => self.role_refusal(context, Role::Admin, caller),
        }
    }

    /// The entries once `call` was carried out.
    ///
    /// A transfer writes the recipient's balance as it was before the sender
    /// paid, so that a transfer of an account to itself credits it; a transfer
    /// by allowance reads it after the payment.
    pub open spec fn after(self, call: Call) -> State {
        match call {
            Call::Initialize { admin, name, symbol, decimals } => State {
                name: Some(name@),
                symbol: Some(symbol@),
                decimals: Some(decimals),
                total_supply: Some(0),
                paused: Some(false),
                ..self.granting_all(admin)
            },
            Call::GrantRole { role, account, .. } => self.granting(role, account),
            Call::RevokeRole { role, account, .. } => self.revoking(role, account),
            Call::Pause { .. } => State { paused: Some(true), ..self },
            Call::Unpause { .. } => State { paused: Some(false), ..self },
            Call::Mint { to, amount, .. } => State {
                total_supply: Some((self.supply() + amount) as i128),
                ..self.credited(to, amount as int)
            },
            Call::Burn { from, amount } => State {
                total_supply: Some((self.supply() - amount) as i128),
                ..self.credited(from, -amount)
            },
            Call::Transfer { from, to, amount } => State {
                balances: self.credited(from, -amount).balances.insert(
                    to,
                    (self.balance_of(to) + amount) as i128,
                ),
                ..self
            },
            Call::Approve { owner, spender, amount } => State {
                allowances: self.allowances.insert((owner, spender), amount),
                ..self
            },
            Call::TransferFrom { spender, from, to, amount } => State {
                allowances: self.allowances.insert(
                    (from, spender),
                    (self.allowance_of(from, spender) - amount) as i128,
                ),
                ..self.credited(from, -amount).credited(to, amount as int)
            },
            Call::SetAdmin { caller, new_admin } => self.revoking_all(caller).granting_all(
                new_admin,
            ),
        }
    }

    /// What is published when `call` is carried out.
    pub open spec fn event(self, call: Call) -> Option<Event> {
        match call {
            Call::Initialize { .. } => None,
            Call::GrantRole { admin, role, account } => Some(
                Event::RoleGranted { role, admin, account },
            ),
            Call::RevokeRole { admin, role, account } => Some(
                Event::RoleRevoked { role, admin, account },
            ),
            Call::Pause { pauser } => Some(Event::Paused { pauser }),
            Call::Unpause { pauser } => Some(Event::Unpaused { pauser }),
            Call::Mint { to, amount, .. } => Some(
                Event::Mint { to, amount, supply: self.after(call).supply() },
            ),
            Call::Burn { from, amount } => Some(
                Event::Burn { from, amount, supply: self.after(call).supply() },
            ),
            Call::Transfer { from, to, amount } => Some(Event::Transfer { from, to, amount }),
            Call::Approve { owner, spender, amount } => Some(
                Event::Approval { owner, spender, amount },
            ),
            Call::TransferFrom { from, to, amount, .. } => Some(
                Event::Transfer { from, to, amount },
            ),
            Call::SetAdmin { caller, new_admin } => Some(
                Event::RoleGranted { role: Role::Admin, admin: caller, account: new_admin },
            ),
        }
    }
}

/// What becomes of `call`: either it is refused, and nothing changes, or its
/// entries are written and its event is published.
pub open spec fn outcome(
    before: State,
    start: Invocation,
    call: Call,
    result: Result<(), Error>,
    after: State,
    end: Invocation,
) -> bool {
    &&& end.continues(start)
    &&& match before.refusal(start.context(), call) {
        Some(error) => {
            &&& result == Err::<(), Error>(error)
            &&& after == before
            &&& end.events@ == start.events@
        },
        None => {
            &&& result == Ok::<(), Error>(())
            &&& after == before.after(call)
            &&& end.events@ == start.events_with(
                match before.event(call) {
                    Some(event) => Some(crate::invocation::Event::Token(event)),
                    None => None,
                },
            )
        },
    }
}

/// The token: its ledger entries, as far as an invocation needs them.
pub struct TokenContract {
    pub members: Table<(Role, Address), bool>,
    pub balances: Table<Address, i128>,
    pub allowances: Table<(Address, Address), i128>,
    pub total_supply: Option<i128>,
    pub name: Option<Vec<u8>>,
    pub symbol: Option<Vec<u8>>,
    pub decimals: Option<u32>,
    pub paused: Option<bool>,
    /// The accounts that hold the admin role, in the order in which they
    /// received it.
    pub admins: Vec<Address>,
}

impl View for TokenContract {
    type V = State;

    open spec fn view(&self) -> State {
        State {
            members: self.members@,
            balances: self.balances@,
            allowances: self.allowances@,
            total_supply: self.total_supply,
            name: match self.name {
                Some(name) => Some(name@),
                None => None,
            },
            symbol: match self.symbol {
                Some(symbol) => Some(symbol@),
                None => None,
            },
            decimals: self.decimals,
            paused: self.paused,
            admins: self.admins@,
        }
    }
}

impl TokenContract {
    /// The token before anything was written.
    pub fn new() -> (token: Self)
        ensures
            token@ == State::empty(),
    {
        TokenContract {
            members: Table::new(),
            balances: Table::new(),
            allowances: Table::new(),
            total_supply: None,
            name: None,
            symbol: None,
            decimals: None,
            paused: None,
            admins: Vec::new(),
        }
    }

    /// Where `account` first stands among the admins, if it does.
    fn find_admin(&self, account: Address) -> (at: Option<usize>)
        ensures
            match at {
                Some(i) => self@.admins.index_of_first(account) == Some(i as int),
                None => !self@.admins.contains(account),
            },
    {
        let mut i: usize = 0;
        while i < self.admins.len()
            invariant
                i <= self.admins.len(),
                forall|j: int| 0 <= j < i ==> self.admins@[j] != account,
            decreases self.admins.len() - i,
        {
            if self.admins[i] == account {
                proof {
                    self.admins@.index_of_first_ensures(account);
                    assert(self.admins@.contains(account));
                }
                return Some(i);
            }
            i += 1;
        }
        None
    }

    fn grant(&mut self, role: Role, account: Address)
        ensures
            final(self)@ == old(self)@.granting(role, account),
    {
        if role == Role::Admin {
            match self.find_admin(account) {
                Some(_) => {
                    proof {
                        self.admins@.index_of_first_ensures(account);
                    }
                },
                None => {
                    self.admins.push(account);
                },
            }
        }
        self.members.set((role, account), true);
    }

    fn revoke(&mut self, role: Role, account: Address)
        ensures
            final(self)@ == old(self)@.revoking(role, account),
    {
        if role == Role::Admin {
            proof {
                self.admins@.index_of_first_ensures(account);
            }
            if let Some(i) = self.find_admin(account) {
                let _ = self.admins.remove(i);
            }
        }
        self.members.remove((role, account));
    }

    fn has_role(&self, role: Role, account: Address) -> (r: bool)
        ensures
            r == self@.has_role(role, account),
    {
        match self.members.get((role, account)) {
            Some(member) => *member,
            None => false,
        }
    }

    fn require_role(&self, invocation: &Invocation, role: Role, account: Address) -> (r: Result<
        (),
        Error,
    >)
        ensures
            r == (match self@.role_refusal(invocation.context(), role, account) {
                Some(error) => Err(error),
                None => Ok(()),
            }),
    {
        if !invocation.is_authorized(account) {
            return Err(Error::NotAuthorized);
        }
        if !self.has_role(role, account) {
            return Err(Error::MissingRole);
        }
        Ok(())
    }

    fn require_not_paused(&self) -> (r: Result<(), Error>)
        ensures
            r == (if self@.is_paused() {
                Err::<(), Error>(Error::ContractPaused)
            } else {
                Ok(())
            }),
    {
        if self.is_paused() {
            return Err(Error::ContractPaused);
        }
        Ok(())
    }

    fn read_balance(&self, account: Address) -> (amount: i128)
        ensures
            amount == self@.balance_of(account),
    {
        match self.balances.get(account) {
            Some(amount) => *amount,
            None => 0,
        }
    }

    fn write_balance(&mut self, account: Address, amount: i128)
        ensures
            final(self)@ == (State { balances: old(self)@.balances.insert(account, amount), ..old(
                self,
            )@ }),
    {
        self.balances.set(account, amount);
    }

    fn total_supply(&self) -> (supply: i128)
        ensures
            supply == self@.supply(),
    {
        self.total_supply.unwrap_or(0)
    }

    fn get_allowance(&self, owner: Address, spender: Address) -> (amount: i128)
        ensures
            amount == self@.allowance_of(owner, spender),
    {
        match self.allowances.get((owner, spender)) {
            Some(amount) => *amount,
            None => 0,
        }
    }

    fn set_allowance(&mut self, owner: Address, spender: Address, amount: i128)
        ensures
            final(self)@ == (State {
                allowances: old(self)@.allowances.insert((owner, spender), amount),
                ..old(self)@
            }),
    {
        self.allowances.set((owner, spender), amount);
    }

    /// Initializes the token, once: `admin` receives all three roles, and
    /// nothing is in circulation.
    pub fn initialize(
        &mut self,
        invocation: &mut Invocation,
        admin: Address,
        name: Vec<u8>,
        symbol: Vec<u8>,
        decimals: u32,
    ) -> (result: Result<(), Error>)
        ensures
            outcome(
                old(self)@,
                *old(invocation),
                Call::Initialize { admin, name, symbol, decimals },
                result,
                final(self)@,
                *final(invocation),
            ),
    {
        if self.paused.is_some() {
            return Err(Error::AlreadyInitialized);
        }
        self.grant(Role::Admin, admin);
        self.grant(Role::Minter, admin);
        self.grant(Role::Pauser, admin);
        self.name = Some(name);
        self.symbol = Some(symbol);
        self.decimals = Some(decimals);
        self.total_supply = Some(0);
        self.paused = Some(false);
        Ok(())
    }

    /// Grants `role` to `account`. `admin` must hold the admin role.
    pub fn grant_role(
        &mut self,
        invocation: &mut Invocation,
        admin: Address,
        role: Role,
        account: Address,
    ) -> (result: Result<(), Error>)
        ensures
            outcome(
                old(self)@,
                *old(invocation),
                Call::GrantRole { admin, role, account },
                result,
                final(self)@,
                *final(invocation),
            ),
    {
        if let Err(error) = self.require_role(invocation, Role::Admin, admin) {
            return Err(error);
        }
        self.grant(role, account);
        invocation.publish(
            crate::invocation::Event::Token(Event::RoleGranted { role, admin, account }),
        );
        Ok(())
    }

    /// Revokes `role` from `account`. `admin` must hold the admin role.
    pub fn revoke_role(
        &mut self,
        invocation: &mut Invocation,
        admin: Address,
        role: Role,
        account: Address,
    ) -> (result: Result<(), Error>)
        ensures
            outcome(
                old(self)@,
                *old(invocation),
                Call::RevokeRole { admin, role, account },
                result,
                final(self)@,
                *final(invocation),
            ),
    {
        if let Err(error) = self.require_role(invocation, Role::Admin, admin) {
            return Err(error);
        }
        self.revoke(role, account);
        invocation.publish(
            crate::invocation::Event::Token(Event::RoleRevoked { role, admin, account }),
        );
        Ok(())
    }

    /// Whether `account` holds `role`.
    pub fn has_role_view(&self, role: Role, account: Address) -> (r: bool)
        ensures
            r == self@.has_role(role, account),
    {
        self.has_role(role, account)
    }

    /// Stops every movement of tokens. `pauser` must hold the pauser role.
    pub fn pause(&mut self, invocation: &mut Invocation, pauser: Address) -> (result: Result<
        (),
        Error,
    >)
        ensures
            outcome(
                old(self)@,
                *old(invocation),
                Call::Pause { pauser },
                result,
                final(self)@,
                *final(invocation),
            ),
    {
        if let Err(error) = self.require_role(invocation, Role::Pauser, pauser) {
            return Err(error);
        }
        self.paused = Some(true);
        invocation.publish(crate::invocation::Event::Token(Event::Paused { pauser }));
        Ok(())
    }

    /// Lets tokens move again. `pauser` must hold the pauser role.
    pub fn unpause(&mut self, invocation: &mut Invocation, pauser: Address) -> (result: Result<
        (),
        Error,
    >)
        ensures
            outcome(
                old(self)@,
                *old(invocation),
                Call::Unpause { pauser },
                result,
                final(self)@,
                *final(invocation),
            ),
    {
        if let Err(error) = self.require_role(invocation, Role::Pauser, pauser) {
            return Err(error);
        }
        self.paused = Some(false);
        invocation.publish(crate::invocation::Event::Token(Event::Unpaused { pauser }));
        Ok(())
    }

    /// Whether the token is paused.
    pub fn is_paused(&self) -> (r: bool)
        ensures
            r == self@.is_paused(),
    {
        self.paused.unwrap_or(false)
    }

    /// Mints `amount` tokens to `to`. `minter` must hold the minter role.
    pub fn mint(
        &mut self,
        invocation: &mut Invocation,
        minter: Address,
        to: Address,
        amount: i128,
    ) -> (result: Result<(), Error>)
        ensures
            outcome(
                old(self)@,
                *old(invocation),
                Call::Mint { minter, to, amount },
                result,
                final(self)@,
                *final(invocation),
            ),
    {
        if let Err(error) = self.require_role(invocation, Role::Minter, minter) {
            return Err(error);
        }
        if let Err(error) = self.require_not_paused() {
            return Err(error);
        }
        if amount <= 0 {
            return Err(Error::AmountNotPositive);
        }
        let balance: i128 = match self.read_balance(to).checked_add(amount) {
            Some(balance) => balance,
            None => return Err(Error::Overflow),
        };
        let supply: i128 = match self.total_supply().checked_add(amount) {
            Some(supply) => supply,
            None => return Err(Error::Overflow),
        };
        self.write_balance(to, balance);
        self.total_supply = Some(supply);
        invocation.publish(crate::invocation::Event::Token(Event::Mint { to, amount, supply }));
        Ok(())
    }

    /// Burns `amount` tokens of `from`, who must authorize it.
    pub fn burn(&mut self, invocation: &mut Invocation, from: Address, amount: i128) -> (result:
        Result<(), Error>)
        ensures
            outcome(
                old(self)@,
                *old(invocation),
                Call::Burn { from, amount },
                result,
                final(self)@,
                *final(invocation),
            ),
    {
        if !invocation.is_authorized(from) {
            return Err(Error::NotAuthorized);
        }
        if let Err(error) = self.require_not_paused() {
            return Err(error);
        }
        if amount <= 0 {
            return Err(Error::AmountNotPositive);
        }
        let balance: i128 = self.read_balance(from);
        if balance < amount {
            return Err(Error::InsufficientBalance);
        }
        let supply: i128 = match self.total_supply().checked_sub(amount) {
            Some(supply) => supply,
            None => return Err(Error::Underflow),
        };
        self.write_balance(from, balance - amount);
        self.total_supply = Some(supply);
        invocation.publish(crate::invocation::Event::Token(Event::Burn { from, amount, supply }));
        Ok(())
    }

    /// Transfers `amount` tokens of `from`, who must authorize it, to `to`.
    pub fn transfer(
        &mut self,
        invocation: &mut Invocation,
        from: Address,
        to: Address,
        amount: i128,
    ) -> (result: Result<(), Error>)
        ensures
            outcome(
                old(self)@,
                *old(invocation),
                Call::Transfer { from, to, amount },
                result,
                final(self)@,
                *final(invocation),
            ),
    {
        if !invocation.is_authorized(from) {
            return Err(Error::NotAuthorized);
        }
        if let Err(error) = self.require_not_paused() {
            return Err(error);
        }
        if amount <= 0 {
            return Err(Error::AmountNotPositive);
        }
        let from_balance: i128 = self.read_balance(from);
        if from_balance < amount {
            return Err(Error::InsufficientBalance);
        }
        let to_balance: i128 = match self.read_balance(to).checked_add(amount) {
            Some(balance) => balance,
            None => return Err(Error::Overflow),
        };
        self.write_balance(from, from_balance - amount);
        self.write_balance(to, to_balance);
        invocation.publish(crate::invocation::Event::Token(Event::Transfer { from, to, amount }));
        Ok(())
    }

    /// Lets `spender` transfer up to `amount` tokens of `owner`, who must
    /// authorize it.
    pub fn approve(
        &mut self,
        invocation: &mut Invocation,
        owner: Address,
        spender: Address,
        amount: i128,
    ) -> (result: Result<(), Error>)
        ensures
            outcome(
                old(self)@,
                *old(invocation),
                Call::Approve { owner, spender, amount },
                result,
                final(self)@,
                *final(invocation),
            ),
    {
        if !invocation.is_authorized(owner) {
            return Err(Error::NotAuthorized);
        }
        if amount < 0 {
            return Err(Error::AmountNegative);
        }
        self.set_allowance(owner, spender, amount);
        invocation.publish(
            crate::invocation::Event::Token(Event::Approval { owner, spender, amount }),
        );
        Ok(())
    }

    /// Transfers `amount` tokens of `from` to `to` out of the allowance of
    /// `spender`, who must authorize it.
    pub fn transfer_from(
        &mut self,
        invocation: &mut Invocation,
        spender: Address,
        from: Address,
        to: Address,
        amount: i128,
    ) -> (result: Result<(), Error>)
        ensures
            outcome(
                old(self)@,
                *old(invocation),
                Call::TransferFrom { spender, from, to, amount },
                result,
                final(self)@,
                *final(invocation),
            ),
    {
        if !invocation.is_authorized(spender) {
            return Err(Error::NotAuthorized);
        }
        if let Err(error) = self.require_not_paused() {
            return Err(error);
        }
        if amount <= 0 {
            return Err(Error::AmountNotPositive);
        }
        let allowance: i128 = self.get_allowance(from, spender);
        if allowance < amount {
            return Err(Error::AllowanceExceeded);
        }
        let from_balance: i128 = self.read_balance(from);
        if from_balance < amount {
            return Err(Error::InsufficientBalance);
        }
        let paid: i128 = from_balance - amount;
        let before: i128 = if to == from {
            paid
        } else {
            self.read_balance(to)
        };
        let to_balance: i128 = match before.checked_add(amount) {
            Some(balance) => balance,
            None => return Err(Error::Overflow),
        };
        self.set_allowance(from, spender, allowance - amount);
        self.write_balance(from, paid);
        self.write_balance(to, to_balance);
        invocation.publish(crate::invocation::Event::Token(Event::Transfer { from, to, amount }));
        Ok(())
    }

    /// What `spender` may still transfer on behalf of `owner`.
    pub fn allowance(&self, owner: Address, spender: Address) -> (amount: i128)
        ensures
            amount == self@.allowance_of(owner, spender),
    {
        self.get_allowance(owner, spender)
    }

    /// How many tokens `account` holds.
    pub fn balance(&self, account: Address) -> (amount: i128)
        ensures
            amount == self@.balance_of(account),
    {
        self.read_balance(account)
    }

    /// How many tokens are in circulation.
    pub fn total_supply_view(&self) -> (supply: i128)
        ensures
            supply == self@.supply(),
    {
        self.total_supply()
    }

    /// The name of the token.
    pub fn name(&self) -> (result: Result<&Vec<u8>, Error>)
        ensures
            match result {
                Ok(name) => self@.name == Some(name@),
                Err(error) => self@.name is None && error == Error::NotInitialized,
            },
    {
        match &self.name {
            Some(name) => Ok(name),
            None => Err(Error::NotInitialized),
        }
    }

    /// The symbol of the token.
    pub fn symbol(&self) -> (result: Result<&Vec<u8>, Error>)
        ensures
            match result {
                Ok(symbol) => self@.symbol == Some(symbol@),
                Err(error) => self@.symbol is None && error == Error::NotInitialized,
            },
    {
        match &self.symbol {
            Some(symbol) => Ok(symbol),
            None => Err(Error::NotInitialized),
        }
    }

    /// The number of decimals of the token.
    pub fn decimals(&self) -> (result: Result<u32, Error>)
        ensures
            match result {
                Ok(decimals) => self@.decimals == Some(decimals),
                Err(error) => self@.decimals is None && error == Error::NotInitialized,
            },
    {
        match self.decimals {
            Some(decimals) => Ok(decimals),
            None => Err(Error::NotInitialized),
        }
    }

    /// The first account that holds the admin role: of all that hold it, the
    /// one that received it earliest. Kept for callers that know a single admin.
    pub fn admin_address(&self) -> (result: Result<Address, Error>)
        ensures
            match result {
                Ok(account) => self@.admins.len() > 0 && account == self@.admins[0],
                Err(error) => self@.admins.len() == 0 && error == Error::UseHasRoleView,
            },
    {
        if self.admins.len() > 0 {
            Ok(self.admins[0])
        } else {
            Err(Error::UseHasRoleView)
        }
    }

    /// Hands all three roles over from `caller`, who must hold the admin role,
    /// to `new_admin`, who holds them afterwards in any case.
    pub fn set_admin(
        &mut self,
        invocation: &mut Invocation,
        caller: Address,
        new_admin: Address,
    ) -> (result: Result<(), Error>)
        ensures
            outcome(
                old(self)@,
                *old(invocation),
                Call::SetAdmin { caller, new_admin },
                result,
                final(self)@,
                *final(invocation),
            ),
    {
        if let Err(error) = self.require_role(invocation, Role::Admin, caller) {
            return Err(error);
        }
        self.revoke(Role::Admin, caller);
        self.revoke(Role::Minter, caller);
        self.revoke(Role::Pauser, caller);
        self.grant(Role::Admin, new_admin);
        self.grant(Role::Minter, new_admin);
        self.grant(Role::Pauser, new_admin);
        invocation.publish(
            crate::invocation::Event::Token(
                Event::RoleGranted { role: Role::Admin, admin: caller, account: new_admin },
            ),
        );
        Ok(())
    }

    /// Carries out `call`, or refuses it.
    pub fn execute(&mut self, invocation: &mut Invocation, call: Call) -> (result: Result<
        (),
        Error,
    >)
        ensures
            outcome(old(self)@, *old(invocation), call, result, final(self)@, *final(invocation)),
    {
        match call {
            Call::Initialize { admin, name, symbol, decimals } => self.initialize(
                invocation,
                admin,
                name,
                symbol,
                decimals,
            ),
            Call::GrantRole { admin, role, account } => self.grant_role(
                invocation,
                admin,
                role,
                account,
            ),
            Call::RevokeRole { admin, role, account } => self.revoke_role(
                invocation,
                admin,
                role,
                account,
            ),
            Call::Pause { pauser } => self.pause(invocation, pauser),
            Call::Unpause { pauser } => self.unpause(invocation, pauser),
            Call::Mint { minter, to, amount } => self.mint(invocation, minter, to, amount),
            Call::Burn { from, amount } => self.burn(invocation, from, amount),
            Call::Transfer { from, to, amount } => self.transfer(invocation, from, to, amount),
            Call::Approve { owner, spender, amount } => self.approve(
                invocation,
                owner,
                spender,
                amount,
            ),
            Call::TransferFrom { spender, from, to, amount } => self.transfer_from(
                invocation,
                spender,
                from,
                to,
                amount,
            ),
            Call::SetAdmin { caller, new_admin } => self.set_admin(invocation, caller, new_admin),
        }
    }
}

} // verus!
