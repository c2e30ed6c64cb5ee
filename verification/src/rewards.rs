//! The rewards that users claim from campaigns and redeem.
//!
//! A claim asks the campaign contract and the token for what they alone can do.
//! It goes from [`Stage`] to [`Stage`]: each names what is to be asked next, and
//! what comes back is handed to [`RewardsContract::advance_claim`].

use vstd::prelude::*;

use crate::address::Address;
use crate::campaign::{CampaignContract, CampaignView};
use crate::error::Error;
use crate::invocation::{Context, Invocation, Published};
use crate::table::{Key, Table};
use crate::token::TokenContract;

pub use crate::campaign::Campaign;

verus! {

/// A multiplier of one, in basis points.
pub const BASE_MULTIPLIER: u64 = 10_000;

/// What an account may do with the rewards contract.
#[derive(Clone, Copy, Debug, PartialEq, Eq, Structural)]
pub enum Role {
    /// Grants and revokes roles.
    Admin,
    /// Pauses and unpauses.
    Pauser,
}

impl Key for Role {
    fn same(&self, other: &Self) -> (r: bool) {
        *self == *other
    }
}

/// The name of a ledger entry of the rewards contract.
#[derive(Clone, Copy, Debug, PartialEq, Eq, Structural)]
pub enum DataKey {
    /// That a user claimed from a campaign.
    Claimed(Address, u64),
    TokenContract,
    CampaignContract,
    /// Whether an account holds a role.
    RoleMember(Role, Address),
    Paused,
}

/// What the rewards contract publishes.
#[derive(Clone, Copy, Debug, PartialEq, Eq, Structural)]
pub enum Event {
    RewardClaimed { user: Address, campaign_id: u64, amount: i128, multiplier_bp: u64 },
    RewardRedeemed { user: Address, amount: i128 },
    RoleGranted { role: Role, admin: Address, account: Address },
    RoleRevoked { role: Role, admin: Address, account: Address },
    Paused { pauser: Address },
    Unpaused { pauser: Address },
}

impl Event {
    /// The first topic of the event.
    pub open spec fn name(self) -> Seq<char> {
        match self {
            Event::RewardClaimed { .. } => "RWD_CLM"@,
            Event::RewardRedeemed { .. } => "RWD_RDM"@,
            Event::RoleGranted { .. } => "ROLE_GRT"@,
            Event::RoleRevoked { .. } => "ROLE_REV"@,
            Event::Paused { .. } => "PAUSED"@,
            Event::Unpaused { .. } => "UNPAUSED"@,
        }
    }

    /// The first topic of the event.
    pub fn topic(&self) -> (topic: &'static str)
        ensures
            topic@ == self.name(),
    {
        match self {
            Event::RewardClaimed { .. } => "RWD_CLM",
            Event::RewardRedeemed { .. } => "RWD_RDM",
            Event::RoleGranted { .. } => "ROLE_GRT",
            Event::RoleRevoked { .. } => "ROLE_REV",
            Event::Paused { .. } => "PAUSED",
            Event::Unpaused { .. } => "UNPAUSED",
        }
    }

    /// What stands second among the topics, to say what the third one is.
    pub open spec fn label_text(self) -> Option<Seq<char>> {
        match self {
            Event::RewardClaimed { .. } => Some("user"@),
            Event::RewardRedeemed { .. } => Some("user"@),
            _ => None,
        }
    }

    /// What stands second among the topics, to say what the third one is.
    pub fn label(&self) -> (label: Option<&'static str>)
        ensures
            match label {
                Some(label) => self.label_text() == Some(label@),
                None => self.label_text() is None,
            },
    {
        match self {
            Event::RewardClaimed { .. } => Some("user"),
            Event::RewardRedeemed { .. } => Some("user"),
            _ => None,
        }
    }
}

/// How many basis points a reward is multiplied by when it is claimed at `now`:
/// twice the base at the creation of the campaign, and less with every second,
/// down to the base at its end.
pub open spec fn multiplier(now: u64, created_at: u64, expires_at: u64) -> int {
    if now >= expires_at || expires_at <= created_at {
        BASE_MULTIPLIER as int
    } else {
        let extra = BASE_MULTIPLIER * (expires_at - now) / (expires_at - created_at);
        BASE_MULTIPLIER + if extra <= BASE_MULTIPLIER {
            extra
        } else {
            BASE_MULTIPLIER as int
        }
    }
}

/// Whether the multiplier can be computed without a number beyond 64 bits.
pub open spec fn multiplier_fits(now: u64, created_at: u64, expires_at: u64) -> bool {
    now < expires_at && created_at < expires_at ==> BASE_MULTIPLIER * (expires_at - now)
        <= u64::MAX
}

/// The quotient, with what is behind the point cut off.
pub open spec fn cut_quotient(dividend: int, divisor: int) -> int {
    if dividend >= 0 {
        dividend / divisor
    } else {
        -((-dividend) / divisor)
    }
}

/// What a claim is worth.
#[derive(Clone, Copy, Debug, PartialEq, Eq, Structural)]
pub struct Grant {
    pub multiplier_bp: u64,
    pub amount: i128,
}

/// What a claim from `campaign` at `now` is worth, if that can be computed
/// within the types.
pub open spec fn grant_at(now: u64, campaign: CampaignView) -> Option<Grant> {
    let multiplier_bp = multiplier(now, campaign.created_at, campaign.expiration);
    let product = campaign.reward_amount * multiplier_bp;
    if multiplier_fits(now, campaign.created_at, campaign.expiration) && i128::MIN <= product
        <= i128::MAX {
        Some(
            Grant {
                multiplier_bp: multiplier_bp as u64,
                amount: cut_quotient(product, BASE_MULTIPLIER as int) as i128,
            },
        )
    } else {
        None
    }
}

/// An administrative invocation of the rewards contract.
pub enum Call {
    Initialize { admin: Address, token_contract: Address, campaign_contract: Address },
    GrantRole { admin: Address, role: Role, account: Address },
    RevokeRole { admin: Address, role: Role, account: Address },
    Pause { pauser: Address },
    Unpause { pauser: Address },
}

impl Call {
    /// The ledger entries that the invocation reads or writes.
    pub open spec fn keys(self) -> Seq<DataKey> {
        match self {
            Call::Initialize { admin, .. } => seq![
                DataKey::Paused,
                DataKey::RoleMember(Role::Admin, admin),
                DataKey::RoleMember(Role::Pauser, admin),
                DataKey::TokenContract,
                DataKey::CampaignContract,
            ],
            Call::GrantRole { admin, role, account } => seq![
                DataKey::RoleMember(Role::Admin, admin),
                DataKey::RoleMember(role, account),
            ],
            Call::RevokeRole { admin, role, account } => seq![
                DataKey::RoleMember(Role::Admin, admin),
                DataKey::RoleMember(role, account),
            ],
            Call::Pause { pauser } => seq![
                DataKey::RoleMember(Role::Pauser, pauser),
                DataKey::Paused,
            ],
            Call::Unpause { pauser } => seq![
                DataKey::RoleMember(Role::Pauser, pauser),
                DataKey::Paused,
            ],
        }
    }

    /// The ledger entries that the invocation reads or writes.
    pub fn footprint(&self) -> (keys: Vec<DataKey>)
        ensures
            keys@ == self.keys(),
    {
        let keys: Vec<DataKey> = match self {
            Call::Initialize { admin, .. } => vec![
                DataKey::Paused,
                DataKey::RoleMember(Role::Admin, *admin),
                DataKey::RoleMember(Role::Pauser, *admin),
                DataKey::TokenContract,
                DataKey::CampaignContract,
            ],
            Call::GrantRole { admin, role, account } => vec![
                DataKey::RoleMember(Role::Admin, *admin),
                DataKey::RoleMember(*role, *account),
            ],
            Call::RevokeRole { admin, role, account } => vec![
                DataKey::RoleMember(Role::Admin, *admin),
                DataKey::RoleMember(*role, *account),
            ],
            Call::Pause { pauser } => vec![
                DataKey::RoleMember(Role::Pauser, *pauser),
                DataKey::Paused,
            ],
            Call::Unpause { pauser } => vec![
                DataKey::RoleMember(Role::Pauser, *pauser),
                DataKey::Paused,
            ],
        };
        assert(keys@ =~= self.keys());
        keys
    }

    /// The account that has to authorize the invocation.
    pub open spec fn author(self) -> Option<Address> {
        match self {
            Call::Initialize { .. } => None,
            Call::GrantRole { admin, .. } => Some(admin),
            Call::RevokeRole { admin, .. } => Some(admin),
            Call::Pause { pauser } => Some(pauser),
            Call::Unpause { pauser } => Some(pauser),
        }
    }

    /// The account that has to authorize the invocation.
    pub fn signer(&self) -> (account: Option<Address>)
        ensures
            account == self.author(),
    {
        match self {
            Call::Initialize { .. } => None,
            Call::GrantRole { admin, .. } => Some(*admin),
            Call::RevokeRole { admin, .. } => Some(*admin),
            Call::Pause { pauser } => Some(*pauser),
            Call::Unpause { pauser } => Some(*pauser),
        }
    }
}

/// How far a claim has come: what is to be asked next, and of which contract.
#[derive(Clone, Copy, Debug, PartialEq, Eq, Structural)]
pub enum Stage {
    /// Whether the campaign is active.
    AskActive { campaign_contract: Address },
    /// What the campaign is.
    AskTerms { campaign_contract: Address },
    /// To count the claim, on behalf of the rewards contract.
    Record { campaign_contract: Address, grant: Grant },
    /// To mint the reward, on behalf of the rewards contract.
    Mint { token_contract: Address, grant: Grant },
    /// Nothing: the claim is settled.
    Done,
}

/// What came back from what a stage asked.
pub enum Answer {
    Active(bool),
    Terms(Campaign),
    Recorded,
    Minted,
}

impl Stage {
    /// Whether `answer` answers what this stage asks.
    pub open spec fn is_answered_by(self, answer: Answer) -> bool {
        match self {
            Stage::AskActive { .. } => answer is Active,
            Stage::AskTerms { .. } => answer is Terms,
            Stage::Record { .. } => answer is Recorded,
            Stage::Mint { .. } => answer is Minted,
            Stage::Done => false,
        }
    }
}

/// What a ledger entry of the rewards contract holds.
pub ghost enum Entry {
    Absent,
    Flag(bool),
    Contract(Address),
}

/// The ledger entries of the rewards contract.
#[verifier::ext_equal]
pub ghost struct State {
    pub claimed: Map<(Address, u64), bool>,
    pub token_contract: Option<Address>,
    pub campaign_contract: Option<Address>,
    pub members: Map<(Role, Address), bool>,
    pub paused: Option<bool>,
}

impl State {
    /// The contract before anything was written.
    pub open spec fn empty() -> State {
        State {
            claimed: Map::empty(),
            token_contract: None,
            campaign_contract: None,
            members: Map::empty(),
            paused: None,
        }
    }

    /// What the entry of `key` holds.
    pub open spec fn entry(self, key: DataKey) -> Entry {
        match key {
            DataKey::Claimed(user, campaign_id) => if self.claimed.contains_key(
                (user, campaign_id),
            ) {
                Entry::Flag(self.claimed[(user, campaign_id)])
            } else {
                Entry::Absent
            },
            DataKey::TokenContract => match self.token_contract {
                Some(contract) => Entry::Contract(contract),
                None => Entry::Absent,
            },
            DataKey::CampaignContract => match self.campaign_contract {
                Some(contract) => Entry::Contract(contract),
                None => Entry::Absent,
            },
            DataKey::RoleMember(role, account) => if self.members.contains_key((role, account)) {
                Entry::Flag(self.members[(role, account)])
            } else {
                Entry::Absent
            },
            DataKey::Paused => match self.paused {
                Some(paused) => Entry::Flag(paused),
                None => Entry::Absent,
            },
        }
    }

    pub open spec fn has_role(self, role: Role, account: Address) -> bool {
        self.members.contains_key((role, account)) && self.members[(role, account)]
    }

    pub open spec fn is_initialized(self) -> bool {
        self.paused is Some
    }

    pub open spec fn is_paused(self) -> bool {
        self.paused == Some(true)
    }

    /// Whether `user` claimed from the campaign. The entry itself says so,
    /// whatever it holds.
    pub open spec fn has_claimed(self, user: Address, campaign_id: u64) -> bool {
        self.claimed.contains_key((user, campaign_id))
    }

    pub open spec fn granting(self, role: Role, account: Address) -> State {
        State { members: self.members.insert((role, account), true), ..self }
    }

    pub open spec fn revoking(self, role: Role, account: Address) -> State {
        State { members: self.members.remove((role, account)), ..self }
    }

    /// These entries, with the claim of `user` noted.
    pub open spec fn claiming(self, user: Address, campaign_id: u64) -> State {
        State { claimed: self.claimed.insert((user, campaign_id), true), ..self }
    }

    /// Why an invocation that asks for `role` refuses `account`, if it does.
    pub open spec fn role_refusal(self, context: Context, role: Role, account: Address) -> Option<
        Error,
    > {
        if !context.authorizes(account) {
            Some(Error::NotAuthorized)
        } else if !self.has_role(role, account) {
            Some(Error::MissingRole)
        } else {
            None
        }
    }

    /// Why `call` is refused, if it is: the first of its conditions that fails.
    pub open spec fn refusal(self, context: Context, call: Call) -> Option<Error> {
        match call {
            Call::Initialize { .. } => if self.is_initialized() {
                Some(Error::AlreadyInitialized)
            } else {
                None
            },
            Call::GrantRole { admin, .. } => self.role_refusal(context, Role::Admin, admin),
            Call::RevokeRole { admin, .. } => self.role_refusal(context, Role::Admin, admin),
            Call::Pause { pauser } => self.role_refusal(context, Role::Pauser, pauser),
            Call::Unpause { pauser } => self.role_refusal(context, Role::Pauser, pauser),
        }
    }

    /// The entries once `call` was carried out.
    pub open spec fn after(self, call: Call) -> State {
        match call {
            Call::Initialize { admin, token_contract, campaign_contract } => State {
                token_contract: Some(token_contract),
                campaign_contract: Some(campaign_contract),
                paused: Some(false),
                ..self.granting(Role::Admin, admin).granting(Role::Pauser, admin)
            },
            Call::GrantRole { role, account, .. } => self.granting(role, account),
            Call::RevokeRole { role, account, .. } => self.revoking(role, account),
            Call::Pause { .. } => State { paused: Some(true), ..self },
            Call::Unpause { .. } => State { paused: Some(false), ..self },
        }
    }

    /// What is published when `call` is carried out.
    pub open spec fn event(self, call: Call) -> Option<Event> {
        match call {
            Call::Initialize { .. } => None,
            Call::GrantRole { admin, role, account } => Some(
                Event::RoleGranted { role, admin, account },
            ),
            Call::RevokeRole { admin, role, account } => Some(
                Event::RoleRevoked { role, admin, account },
            ),
            Call::Pause { pauser } => Some(Event::Paused { pauser }),
            Call::Unpause { pauser } => Some(Event::Unpaused { pauser }),
        }
    }

    /// Where a claim of `user` begins, or why it is refused.
    pub open spec fn first_stage(self, context: Context, user: Address, campaign_id: u64) -> Result<
        Stage,
        Error,
    > {
        if !context.authorizes(user) {
            Err(Error::NotAuthorized)
        } else if self.is_paused() {
            Err(Error::ContractPaused)
        } else if self.has_claimed(user, campaign_id) {
            Err(Error::AlreadyClaimed)
        } else {
            match self.campaign_contract {
                Some(campaign_contract) => Ok(Stage::AskActive { campaign_contract }),
                None => Err(Error::NotInitialized),
            }
        }
    }

    /// Where a claim goes from `stage` once `answer` came back, or why it is
    /// refused then.
    pub open spec fn next_stage(self, now: u64, stage: Stage, answer: Answer) -> Result<
        Stage,
        Error,
    > {
        match (stage, answer) {
            (Stage::AskActive { campaign_contract }, Answer::Active(active)) => if active {
                Ok(Stage::AskTerms { campaign_contract })
            } else {
                Err(Error::CampaignNotActive)
            },
            (Stage::AskTerms { campaign_contract }, Answer::Terms(campaign)) => match grant_at(
                now,
                campaign@,
            ) {
                Some(grant) => Ok(Stage::Record { campaign_contract, grant }),
                None => Err(Error::ArithmeticOverflow),
            },
            (Stage::Record { grant, .. }, _) => match self.token_contract {
                Some(token_contract) => Ok(Stage::Mint { token_contract, grant }),
                None => Err(Error::NotInitialized),
            },
            _ => Ok(Stage::Done),
        }
    }

    /// The entries once a claim has left `stage`: the claim is noted before
    /// another contract is asked to act on it.
    pub open spec fn after_stage(self, stage: Stage, user: Address, campaign_id: u64) -> State {
        match stage {
            Stage::AskTerms { .. } => self.claiming(user, campaign_id),
            _ => self,
        }
    }

    /// Why a redemption is refused before the token is asked, if it is, and
    /// else which token is asked.
    pub open spec fn redeemed_at(self, context: Context, user: Address, amount: i128) -> Result<
        Address,
        Error,
    > {
        if !context.authorizes(user) {
            Err(Error::NotAuthorized)
        } else if self.is_paused() {
            Err(Error::ContractPaused)
        } else if amount <= 0 {
            Err(Error::AmountNotPositive)
        } else {
            match self.token_contract {
                Some(token_contract) => Ok(token_contract),
                None => Err(Error::NotInitialized),
            }
        }
    }
}

/// The ledger entries of the rewards contract that a claim reads or writes.
pub open spec fn claim_keys(user: Address, campaign_id: u64) -> Seq<DataKey> {
    seq![
        DataKey::Paused,
        DataKey::Claimed(user, campaign_id),
        DataKey::CampaignContract,
        DataKey::TokenContract,
    ]
}

/// The ledger entries of the rewards contract that a redemption reads.
pub open spec fn redeem_keys() -> Seq<DataKey> {
    seq![DataKey::Paused, DataKey::TokenContract]
}

/// What is published when a claim leaves `stage`.
pub open spec fn stage_event(stage: Stage, user: Address, campaign_id: u64) -> Option<Event> {
    match stage {
        Stage::Mint { grant, .. } => Some(
            Event::RewardClaimed {
                user,
                campaign_id,
                amount: grant.amount,
                multiplier_bp: grant.multiplier_bp,
            },
        ),
        _ => None,
    }
}

/// An event of the rewards contract, as it is published.
pub open spec fn rewards_event(event: Option<Event>) -> Option<crate::invocation::Event> {
    match event {
        Some(event) => Some(crate::invocation::Event::Rewards(event)),
        None => None,
    }
}

/// What becomes of `call`: either it is refused, and nothing changes, or its
/// entries are written and its event is published.
pub open spec fn outcome(
    before: State,
    start: Invocation,
    call: Call,
    result: Result<(), Error>,
    after: State,
    end: Invocation,
) -> bool {
    &&& end.continues(start)
    &&& match before.refusal(start.context(), call) {
        Some(error) => {
            &&& result == Err::<(), Error>(error)
            &&& after == before
            &&& end.events@ == start.events@
        },
        None => {
            &&& result == Ok::<(), Error>(())
            &&& after == before.after(call)
            &&& end.events@ == start.events_with(rewards_event(before.event(call)))
        },
    }
}

/// The three contracts of the programme.
#[verifier::ext_equal]
pub ghost struct Program {
    pub rewards: State,
    pub campaigns: crate::campaign::State,
    pub token: crate::token::State,
}

impl Program {
    /// The count of a claim, as the rewards contract asks for it.
    pub open spec fn record(self, context: Context, campaign_id: u64) -> crate::campaign::Call {
        crate::campaign::Call::RecordClaim { recorder: context.contract, campaign_id }
    }

    /// What a claim is worth.
    pub open spec fn grant(self, context: Context, campaign_id: u64) -> Grant {
        grant_at(context.now, self.campaigns.campaigns[campaign_id])->0
    }

    /// The minting of a reward, as the rewards contract asks for it.
    pub open spec fn mint(
        self,
        context: Context,
        user: Address,
        campaign_id: u64,
    ) -> crate::token::Call {
        crate::token::Call::Mint {
            minter: context.contract,
            to: user,
            amount: self.grant(context, campaign_id).amount,
        }
    }

    /// Why a claim is refused, if it is: the first of its conditions that
    /// fails, in whichever contract.
    pub open spec fn claim_refusal(
        self,
        context: Context,
        user: Address,
        campaign_id: u64,
    ) -> Option<Error> {
        match self.rewards.first_stage(context, user, campaign_id) {
            Err(error) => Some(error),
            Ok(_) => {
                let campaign = self.campaigns.campaigns[campaign_id];
                let record_refusal = self.campaigns.refusal(
                    context.calling(self.rewards.campaign_contract->0),
                    self.record(context, campaign_id),
                );
                if !self.campaigns.campaigns.contains_key(campaign_id) {
                    Some(Error::CampaignNotFound)
                } else if !campaign.runs_at(context.now) {
                    Some(Error::CampaignNotActive)
                } else if grant_at(context.now, campaign) is None {
                    Some(Error::ArithmeticOverflow)
                } else if record_refusal is Some {
                    record_refusal
                } else {
                    match self.rewards.token_contract {
                        None => Some(Error::NotInitialized),
                        Some(token_contract) => self.token.refusal(
                            context.calling(token_contract),
                            self.mint(context, user, campaign_id),
                        ),
                    }
                }
            },
        }
    }

    /// The programme once a claim was carried out: it is noted and counted, and
    /// the reward is minted.
    pub open spec fn after_claim(
        self,
        context: Context,
        user: Address,
        campaign_id: u64,
    ) -> Program {
        Program {
            rewards: self.rewards.claiming(user, campaign_id),
            campaigns: self.campaigns.after(
                context.calling(self.rewards.campaign_contract->0),
                self.record(context, campaign_id),
            ),
            token: self.token.after(self.mint(context, user, campaign_id)),
        }
    }

    /// What is published when a claim is carried out: the token announces what
    /// it minted, the rewards contract the claim.
    pub open spec fn claim_events(
        self,
        context: Context,
        user: Address,
        campaign_id: u64,
    ) -> Seq<Published> {
        let grant = self.grant(context, campaign_id);
        seq![
            Published {
                contract: self.rewards.token_contract->0,
                event: crate::invocation::Event::Token(
                    crate::token::Event::Mint {
                        to: user,
                        amount: grant.amount,
                        supply: self.after_claim(context, user, campaign_id).token.supply(),
                    },
                ),
            },
            Published {
                contract: context.contract,
                event: crate::invocation::Event::Rewards(
                    Event::RewardClaimed {
                        user,
                        campaign_id,
                        amount: grant.amount,
                        multiplier_bp: grant.multiplier_bp,
                    },
                ),
            },
        ]
    }
}

/// Why a redemption is refused, if it is: the first of its conditions that
/// fails, in whichever contract.
pub open spec fn redeem_refusal(
    rewards: State,
    token: crate::token::State,
    context: Context,
    user: Address,
    amount: i128,
) -> Option<Error> {
    match rewards.redeemed_at(context, user, amount) {
        Err(error) => Some(error),
        Ok(token_contract) => token.refusal(
            context.calling(token_contract),
            crate::token::Call::Burn { from: user, amount },
        ),
    }
}

/// What is published when a redemption is carried out: the token announces
/// what it burnt, the rewards contract the redemption.
pub open spec fn redeem_events(
    rewards: State,
    token: crate::token::State,
    context: Context,
    user: Address,
    amount: i128,
) -> Seq<Published> {
    let burn = crate::token::Call::Burn { from: user, amount };
    seq![
        Published {
            contract: rewards.token_contract->0,
            event: crate::invocation::Event::Token(
                crate::token::Event::Burn { from: user, amount, supply: token.after(burn).supply() },
            ),
        },
        Published {
            contract: context.contract,
            event: crate::invocation::Event::Rewards(Event::RewardRedeemed { user, amount }),
        },
    ]
}

/// The rewards contract: its ledger entries, as far as an invocation needs
/// them.
pub struct RewardsContract {
    pub claimed: Table<(Address, u64), bool>,
    pub token_contract: Option<Address>,
    pub campaign_contract: Option<Address>,
    pub members: Table<(Role, Address), bool>,
    pub paused: Option<bool>,
}

impl View for RewardsContract {
    type V = State;

    open spec fn view(&self) -> State {
        State {
            claimed: self.claimed@,
            token_contract: self.token_contract,
            campaign_contract: self.campaign_contract,
            members: self.members@,
            paused: self.paused,
        }
    }
}

impl RewardsContract {
    /// The contract before anything was written.
    pub fn new() -> (contract: Self)
        ensures
            contract@ == State::empty(),
    {
        RewardsContract {
            claimed: Table::new(),
            token_contract: None,
            campaign_contract: None,
            members: Table::new(),
            paused: None,
        }
    }

    fn grant(&mut self, role: Role, account: Address)
        ensures
            final(self)@ == old(self)@.granting(role, account),
    {
        self.members.set((role, account), true);
    }

    fn revoke(&mut self, role: Role, account: Address)
        ensures
            final(self)@ == old(self)@.revoking(role, account),
    {
        self.members.remove((role, account));
    }

    fn has_role(&self, role: Role, account: Address) -> (r: bool)
        ensures
            r == self@.has_role(role, account),
    {
        match self.members.get((role, account)) {
            Some(member) => *member,
            None => false,
        }
    }

    fn require_role(&self, invocation: &Invocation, role: Role, account: Address) -> (r: Result<
        (),
        Error,
    >)
        ensures
            r == (match self@.role_refusal(invocation.context(), role, account) {
                Some(error) => Err(error),
                None => Ok(()),
            }),
    {
        if !invocation.is_authorized(account) {
            return Err(Error::NotAuthorized);
        }
        if !self.has_role(role, account) {
            return Err(Error::MissingRole);
        }
        Ok(())
    }

    fn require_not_paused(&self) -> (r: Result<(), Error>)
        ensures
            r == (if self@.is_paused() {
                Err::<(), Error>(Error::ContractPaused)
            } else {
                Ok(())
            }),
    {
        if self.is_paused() {
            return Err(Error::ContractPaused);
        }
        Ok(())
    }

    fn has_claimed(&self, user: Address, campaign_id: u64) -> (r: bool)
        ensures
            r == self@.has_claimed(user, campaign_id),
    {
        self.claimed.get((user, campaign_id)).is_some()
    }

    /// Initializes the contract, once: `admin` receives both roles.
    pub fn initialize(
        &mut self,
        invocation: &mut Invocation,
        admin: Address,
        token_contract: Address,
        campaign_contract: Address,
    ) -> (result: Result<(), Error>)
        ensures
            outcome(
                old(self)@,
                *old(invocation),
                Call::Initialize { admin, token_contract, campaign_contract },
                result,
                final(self)@,
                *final(invocation),
            ),
    {
        if self.paused.is_some() {
            return Err(Error::AlreadyInitialized);
        }
        self.grant(Role::Admin, admin);
        self.grant(Role::Pauser, admin);
        self.token_contract = Some(token_contract);
        self.campaign_contract = Some(campaign_contract);
        self.paused = Some(false);
        Ok(())
    }

    /// Grants `role` to `account`. `admin` must hold the admin role.
    pub fn grant_role(
        &mut self,
        invocation: &mut Invocation,
        admin: Address,
        role: Role,
        account: Address,
    ) -> (result: Result<(), Error>)
        ensures
            outcome(
                old(self)@,
                *old(invocation),
                Call::GrantRole { admin, role, account },
                result,
                final(self)@,
                *final(invocation),
            ),
    {
        if let Err(error) = self.require_role(invocation, Role::Admin, admin) {
            return Err(error);
        }
        self.grant(role, account);
        invocation.publish(
            crate::invocation::Event::Rewards(Event::RoleGranted { role, admin, account }),
        );
        Ok(())
    }

    /// Revokes `role` from `account`. `admin` must hold the admin role.
    pub fn revoke_role(
        &mut self,
        invocation: &mut Invocation,
        admin: Address,
        role: Role,
        account: Address,
    ) -> (result: Result<(), Error>)
        ensures
            outcome(
                old(self)@,
                *old(invocation),
                Call::RevokeRole { admin, role, account },
                result,
                final(self)@,
                *final(invocation),
            ),
    {
        if let Err(error) = self.require_role(invocation, Role::Admin, admin) {
            return Err(error);
        }
        self.revoke(role, account);
        invocation.publish(
            crate::invocation::Event::Rewards(Event::RoleRevoked { role, admin, account }),
        );
        Ok(())
    }

    /// Whether `account` holds `role`.
    pub fn has_role_view(&self, role: Role, account: Address) -> (r: bool)
        ensures
            r == self@.has_role(role, account),
    {
        self.has_role(role, account)
    }

    /// Stops claims and redemptions. `pauser` must hold the pauser role.
    pub fn pause(&mut self, invocation: &mut Invocation, pauser: Address) -> (result: Result<
        (),
        Error,
    >)
        ensures
            outcome(
                old(self)@,
                *old(invocation),
                Call::Pause { pauser },
                result,
                final(self)@,
                *final(invocation),
            ),
    {
        if let Err(error) = self.require_role(invocation, Role::Pauser, pauser) {
            return Err(error);
        }
        self.paused = Some(true);
        invocation.publish(crate::invocation::Event::Rewards(Event::Paused { pauser }));
        Ok(())
    }

    /// Lets users claim and redeem again. `pauser` must hold the pauser role.
    pub fn unpause(&mut self, invocation: &mut Invocation, pauser: Address) -> (result: Result<
        (),
        Error,
    >)
        ensures
            outcome(
                old(self)@,
                *old(invocation),
                Call::Unpause { pauser },
                result,
                final(self)@,
                *final(invocation),
            ),
    {
        if let Err(error) = self.require_role(invocation, Role::Pauser, pauser) {
            return Err(error);
        }
        self.paused = Some(false);
        invocation.publish(crate::invocation::Event::Rewards(Event::Unpaused { pauser }));
        Ok(())
    }

    /// Whether the contract is paused.
    pub fn is_paused(&self) -> (r: bool)
        ensures
            r == self@.is_paused(),
    {
        self.paused.unwrap_or(false)
    }

    /// The multiplier of a claim at `now`, in basis points.
    pub fn calc_multiplier(now: u64, created_at: u64, expires_at: u64) -> (multiplier_bp: u64)
        requires
            multiplier_fits(now, created_at, expires_at),
        ensures
            multiplier_bp == multiplier(now, created_at, expires_at),
    {
        if now >= expires_at || expires_at <= created_at {
            return BASE_MULTIPLIER;
        }
        let duration: u64 = expires_at - created_at;
        let remaining: u64 = expires_at - now;
        let extra: u64 = BASE_MULTIPLIER * remaining / duration;
        if extra <= BASE_MULTIPLIER {
            BASE_MULTIPLIER + extra
        } else {
            BASE_MULTIPLIER + BASE_MULTIPLIER
        }
    }

    /// What a claim from `campaign` at `now` is worth.
    fn value_claim(now: u64, campaign: &Campaign) -> (grant: Option<Grant>)
        ensures
            grant == grant_at(now, campaign@),
    {
        if now < campaign.expiration && campaign.created_at < campaign.expiration {
            if BASE_MULTIPLIER.checked_mul(campaign.expiration - now).is_none() {
                return None;
            }
        }
        let multiplier_bp: u64 = Self::calc_multiplier(
            now,
            campaign.created_at,
            campaign.expiration,
        );
        match campaign.reward_amount.checked_mul(multiplier_bp as i128) {
            Some(product) => {
                let amount: i128 = product / (BASE_MULTIPLIER as i128);
                Some(Grant { multiplier_bp, amount })
            },
            None => None,
        }
    }

    /// The ledger entries that a claim reads or writes.
    pub fn claim_footprint(user: Address, campaign_id: u64) -> (keys: Vec<DataKey>)
        ensures
            keys@ == claim_keys(user, campaign_id),
    {
        let keys: Vec<DataKey> = vec![
            DataKey::Paused,
            DataKey::Claimed(user, campaign_id),
            DataKey::CampaignContract,
            DataKey::TokenContract,
        ];
        assert(keys@ =~= claim_keys(user, campaign_id));
        keys
    }

    /// The ledger entries that a redemption reads.
    pub fn redeem_footprint() -> (keys: Vec<DataKey>)
        ensures
            keys@ == redeem_keys(),
    {
        let keys: Vec<DataKey> = vec![DataKey::Paused, DataKey::TokenContract];
        assert(keys@ =~= redeem_keys());
        keys
    }

    /// Begins a claim of `user`, who must authorize it, from a campaign.
    pub fn begin_claim(&self, invocation: &Invocation, user: Address, campaign_id: u64) -> (result:
        Result<Stage, Error>)
        ensures
            result == self@.first_stage(invocation.context(), user, campaign_id),
    {
        if !invocation.is_authorized(user) {
            return Err(Error::NotAuthorized);
        }
        if let Err(error) = self.require_not_paused() {
            return Err(error);
        }
        if self.has_claimed(user, campaign_id) {
            return Err(Error::AlreadyClaimed);
        }
        match self.campaign_contract {
            Some(campaign_contract) => Ok(Stage::AskActive { campaign_contract }),
            None => Err(Error::NotInitialized),
        }
    }

    /// Takes a claim on from `stage`, once `answer` came back from what it
    /// asked.
    pub fn advance_claim(
        &mut self,
        invocation: &mut Invocation,
        user: Address,
        campaign_id: u64,
        stage: Stage,
        answer: Answer,
    ) -> (result: Result<Stage, Error>)
        requires
            stage.is_answered_by(answer),
        ensures
            result == old(self)@.next_stage(old(invocation).now, stage, answer),
            final(invocation).continues(*old(invocation)),
            result is Ok ==> {
                &&& final(self)@ == old(self)@.after_stage(stage, user, campaign_id)
                &&& final(invocation).events@ == old(invocation).events_with(
                    rewards_event(stage_event(stage, user, campaign_id)),
                )
            },
            result is Err ==> {
                &&& final(self)@ == old(self)@
                &&& final(invocation).events@ == old(invocation).events@
            },
    {
        match (stage, answer) {
            (Stage::AskActive { campaign_contract }, Answer::Active(active)) => {
                if active {
                    Ok(Stage::AskTerms { campaign_contract })
                } else {
                    Err(Error::CampaignNotActive)
                }
            },
            (Stage::AskTerms { campaign_contract }, Answer::Terms(campaign)) => {
                match Self::value_claim(invocation.now, &campaign) {
                    Some(grant) => {
                        self.claimed.set((user, campaign_id), true);
                        Ok(Stage::Record { campaign_contract, grant })
                    },
                    None => Err(Error::ArithmeticOverflow),
                }
            },
            (Stage::Record { grant, .. }, _) => {
                match self.token_contract {
                    Some(token_contract) => Ok(Stage::Mint { token_contract, grant }),
                    None => Err(Error::NotInitialized),
                }
            },
            (Stage::Mint { grant, .. }, _) => {
                invocation.publish(
                    crate::invocation::Event::Rewards(
                        Event::RewardClaimed {
                            user,
                            campaign_id,
                            amount: grant.amount,
                            multiplier_bp: grant.multiplier_bp,
                        },
                    ),
                );
                Ok(Stage::Done)
            },
            _ => Ok(Stage::Done),
        }
    }

    /// Claims the reward of a campaign for `user`, who must authorize it.
    /// `campaigns` and `token` are the contracts that stand at the addresses
    /// given at initialization. Of the three contracts either all carry the
    /// claim out or none changes.
    pub fn claim_reward(
        &mut self,
        invocation: &mut Invocation,
        campaigns: &mut CampaignContract,
        token: &mut TokenContract,
        user: Address,
        campaign_id: u64,
    ) -> (result: Result<(), Error>)
        ensures
            final(invocation).continues(*old(invocation)),
            ({
                let before = Program {
                    rewards: old(self)@,
                    campaigns: old(campaigns)@,
                    token: old(token)@,
                };
                let after = Program {
                    rewards: final(self)@,
                    campaigns: final(campaigns)@,
                    token: final(token)@,
                };
                let context = old(invocation).context();
                match before.claim_refusal(context, user, campaign_id) {
                    Some(error) => {
                        &&& result == Err::<(), Error>(error)
                        &&& after == before
                        &&& final(invocation).events@ == old(invocation).events@
                    },
                    None => {
                        &&& result == Ok::<(), Error>(())
                        &&& after == before.after_claim(context, user, campaign_id)
                        &&& final(invocation).events@ == old(invocation).events@
                            + before.claim_events(context, user, campaign_id)
                    },
                }
            }),
    {
        let ghost before = Program { rewards: self@, campaigns: campaigns@, token: token@ };
        let ghost context = invocation.context();
        let mut stage: Stage = match self.begin_claim(invocation, user, campaign_id) {
            Ok(stage) => stage,
            Err(error) => return Err(error),
        };
        let mut counted: Option<Campaign> = None;
        loop
            invariant
                before.rewards == old(self)@,
                before.campaigns == old(campaigns)@,
                before.token == old(token)@,
                context == old(invocation).context(),
                context == invocation.context(),
                invocation.continues(*old(invocation)),
                before.rewards.first_stage(context, user, campaign_id) is Ok,
                claim_stands(
                    before,
                    Program { rewards: self@, campaigns: campaigns@, token: token@ },
                    context,
                    user,
                    campaign_id,
                    stage,
                ),
                !(stage is Done) ==> invocation.events@ == old(invocation).events@,
                stage is Done ==> invocation.events@ == old(invocation).events@
                    + before.claim_events(context, user, campaign_id),
                stage is Mint ==> (counted matches Some(campaign) && campaign@
                    == before.campaigns.campaigns[campaign_id]),
            decreases steps_left(stage),
        {
            let answer = match stage {
                Stage::AskActive { .. } => {
                    match campaigns.is_active(invocation, campaign_id) {
                        Ok(active) => Answer::Active(active),
                        Err(error) => return Err(error),
                    }
                },
                Stage::AskTerms { .. } => {
                    match campaigns.get_campaign(campaign_id) {
                        Ok(campaign) => Answer::Terms(campaign),
                        Err(error) => return Err(error),
                    }
                },
                Stage::Record { campaign_contract, .. } => {
                    if let Ok(campaign) = campaigns.get_campaign(campaign_id) {
                        counted = Some(campaign);
                    }
                    let recorder = invocation.enter(campaign_contract);
                    let recorded = campaigns.record_claim(invocation, recorder, campaign_id);
                    invocation.leave(recorder);
                    assert(invocation.signers@ =~= old(invocation).signers@);
                    if let Err(error) = recorded {
                        self.withdraw(user, campaign_id);
                        assert(self@ =~= before.rewards);
                        return Err(error);
                    }
                    Answer::Recorded
                },
                Stage::Mint { token_contract, grant } => {
                    let minter = invocation.enter(token_contract);
                    let minted = token.mint(invocation, minter, user, grant.amount);
                    invocation.leave(minter);
                    assert(invocation.signers@ =~= old(invocation).signers@);
                    if let Err(error) = minted {
                        if let Some(campaign) = counted {
                            campaigns.write_campaign(campaign_id, campaign);
                        }
                        assert(campaigns@ =~= before.campaigns);
                        self.withdraw(user, campaign_id);
                        assert(self@ =~= before.rewards);
                        return Err(error);
                    }
                    Answer::Minted
                },
                Stage::Done => return Ok(()),
            };
            match self.advance_claim(invocation, user, campaign_id, stage, answer) {
                Ok(next) => stage = next,
                Err(error) => {
                    if let Stage::Record { .. } = stage {
                        if let Some(campaign) = counted {
                            campaigns.write_campaign(campaign_id, campaign);
                        }
                        assert(campaigns@ =~= before.campaigns);
                        self.withdraw(user, campaign_id);
                        assert(self@ =~= before.rewards);
                    }
                    return Err(error);
                },
            }
        }
    }

    /// Drops the note of a claim.
    fn withdraw(&mut self, user: Address, campaign_id: u64)
        ensures
            final(self)@ == (State {
                claimed: old(self)@.claimed.remove((user, campaign_id)),
                ..old(self)@
            }),
    {
        self.claimed.remove((user, campaign_id));
    }

    /// Begins a redemption of `amount` tokens of `user`, who must authorize it,
    /// and returns the token that has to burn them.
    pub fn begin_redeem(&self, invocation: &Invocation, user: Address, amount: i128) -> (result:
        Result<Address, Error>)
        ensures
            result == self@.redeemed_at(invocation.context(), user, amount),
    {
        if !invocation.is_authorized(user) {
            return Err(Error::NotAuthorized);
        }
        if let Err(error) = self.require_not_paused() {
            return Err(error);
        }
        if amount <= 0 {
            return Err(Error::AmountNotPositive);
        }
        match self.token_contract {
            Some(token_contract) => Ok(token_contract),
            None => Err(Error::NotInitialized),
        }
    }

    /// Ends a redemption, once the token has burnt what is redeemed.
    pub fn finish_redeem(&self, invocation: &mut Invocation, user: Address, amount: i128)
        ensures
            final(invocation).continues(*old(invocation)),
            final(invocation).events@ == old(invocation).events_with(
                rewards_event(Some(Event::RewardRedeemed { user, amount })),
            ),
    {
        invocation.publish(
            crate::invocation::Event::Rewards(Event::RewardRedeemed { user, amount }),
        );
    }

    /// Redeems `amount` tokens of `user`, who must authorize it. `token` is the
    /// contract that stands at the address given at initialization.
    pub fn redeem_reward(
        &self,
        invocation: &mut Invocation,
        token: &mut TokenContract,
        user: Address,
        amount: i128,
    ) -> (result: Result<(), Error>)
        ensures
            final(invocation).continues(*old(invocation)),
            match redeem_refusal(
                self@,
                old(token)@,
                old(invocation).context(),
                user,
                amount,
            ) {
                Some(error) => {
                    &&& result == Err::<(), Error>(error)
                    &&& final(token)@ == old(token)@
                    &&& final(invocation).events@ == old(invocation).events@
                },
                None => {
                    &&& result == Ok::<(), Error>(())
                    &&& final(token)@ == old(token)@.after(
                        crate::token::Call::Burn { from: user, amount },
                    )
                    &&& final(invocation).events@ == old(invocation).events@ + redeem_events(
                        self@,
                        old(token)@,
                        old(invocation).context(),
                        user,
                        amount,
                    )
                },
            },
    {
        let token_contract = match self.begin_redeem(invocation, user, amount) {
            Ok(token_contract) => token_contract,
            Err(error) => return Err(error),
        };
        let caller = invocation.enter(token_contract);
        let burnt = token.burn(invocation, user, amount);
        invocation.leave(caller);
        assert(invocation.signers@ =~= old(invocation).signers@);
        if let Err(error) = burnt {
            return Err(error);
        }
        self.finish_redeem(invocation, user, amount);
        Ok(())
    }

    /// Whether `user` claimed from the campaign.
    pub fn has_claimed_view(&self, user: Address, campaign_id: u64) -> (r: bool)
        ensures
            r == self@.has_claimed(user, campaign_id),
    {
        self.has_claimed(user, campaign_id)
    }

    /// Carries out `call`, or refuses it.
    pub fn execute(&mut self, invocation: &mut Invocation, call: Call) -> (result: Result<
        (),
        Error,
    >)
        ensures
            outcome(old(self)@, *old(invocation), call, result, final(self)@, *final(invocation)),
    {
        match call {
            Call::Initialize { admin, token_contract, campaign_contract } => self.initialize(
                invocation,
                admin,
                token_contract,
                campaign_contract,
            ),
            Call::GrantRole { admin, role, account } => self.grant_role(
                invocation,
                admin,
                role,
                account,
            ),
            Call::RevokeRole { admin, role, account } => self.revoke_role(
                invocation,
                admin,
                role,
                account,
            ),
            Call::Pause { pauser } => self.pause(invocation, pauser),
            Call::Unpause { pauser } => self.unpause(invocation, pauser),
        }
    }
}

/// How many answers a claim still waits for.
spec fn steps_left(stage: Stage) -> int {
    match stage {
        Stage::AskActive { .. } => 4,
        Stage::AskTerms { .. } => 3,
        Stage::Record { .. } => 2,
        Stage::Mint { .. } => 1,
        Stage::Done => 0,
    }
}

/// What holds of the programme when a claim that began at `before` has come to
/// `stage`.
spec fn claim_stands(
    before: Program,
    now: Program,
    context: Context,
    user: Address,
    campaign_id: u64,
    stage: Stage,
) -> bool {
    let campaign = before.campaigns.campaigns[campaign_id];
    let at = before.rewards.campaign_contract->0;
    let noted = Program { rewards: before.rewards.claiming(user, campaign_id), ..before };
    let runs = before.campaigns.campaigns.contains_key(campaign_id) && campaign.runs_at(
        context.now,
    );
    let valued = runs && grant_at(context.now, campaign) is Some;
    let record = before.record(context, campaign_id);
    match stage {
        Stage::AskActive { campaign_contract } => now == before && campaign_contract == at,
        Stage::AskTerms { campaign_contract } => {
            &&& now == before
            &&& campaign_contract == at
            &&& runs
        },
        Stage::Record { campaign_contract, grant } => {
            &&& now == noted
            &&& campaign_contract == at
            &&& valued
            &&& grant == before.grant(context, campaign_id)
        },
        Stage::Mint { token_contract, grant } => {
            &&& valued
            &&& grant == before.grant(context, campaign_id)
            &&& before.campaigns.refusal(context.calling(at), record) is None
            &&& before.rewards.token_contract == Some(token_contract)
            &&& now == (Program {
                campaigns: before.campaigns.after(context.calling(at), record),
                ..noted
            })
        },
        Stage::Done => {
            &&& before.claim_refusal(context, user, campaign_id) is None
            &&& now == before.after_claim(context, user, campaign_id)
        },
    }
}

} // verus!
