//! The campaigns that merchants run, and the upgrades of the contract that
//! keeps them.

use vstd::prelude::*;

use crate::address::Address;
use crate::error::Error;
use crate::host::{bytes_of, items_of, vec_get, vec_len, vec_new, vec_push_back};
use crate::invocation::{Context, Invocation};
use crate::table::{Key, Table};

verus! {

/// How long an upgrade has to wait after it was proposed, in seconds: 48 hours.
pub const TIMELOCK: u64 = 172_800;

/// The longest name of a campaign, in bytes.
pub const MAX_NAME: u32 = 64;

/// The longest description of a campaign, in bytes.
pub const MAX_DESCRIPTION: u32 = 256;

/// What an account may do with the campaign contract.
#[derive(Clone, Copy, Debug, PartialEq, Eq, Structural)]
pub enum Role {
    /// Grants and revokes roles, and manages upgrades.
    Admin,
    /// Pauses and unpauses.
    Pauser,
    /// Records claims. Held by the rewards contract.
    Recorder,
}

impl Key for Role {
    fn same(&self, other: &Self) -> (r: bool) {
        *self == *other
    }
}

/// A campaign of a merchant.
pub struct Campaign {
    pub id: u64,
    pub merchant: Address,
    pub reward_amount: i128,
    /// When the campaign ends.
    pub expiration: u64,
    pub created_at: u64,
    /// Whether the merchant lets it run.
    pub active: bool,
    pub total_claimed: u64,
    pub name: soroban_sdk::Bytes,
    pub description: soroban_sdk::Bytes,
}

/// A campaign, by its contents.
#[verifier::ext_equal]
pub ghost struct CampaignView {
    pub id: u64,
    pub merchant: Address,
    pub reward_amount: i128,
    pub expiration: u64,
    pub created_at: u64,
    pub active: bool,
    pub total_claimed: u64,
    pub name: Seq<u8>,
    pub description: Seq<u8>,
}

impl CampaignView {
    /// Whether the campaign runs at `now`.
    pub open spec fn runs_at(self, now: u64) -> bool {
        self.active && now < self.expiration
    }
}

impl View for Campaign {
    type V = CampaignView;

    open spec fn view(&self) -> CampaignView {
        CampaignView {
            id: self.id,
            merchant: self.merchant,
            reward_amount: self.reward_amount,
            expiration: self.expiration,
            created_at: self.created_at,
            active: self.active,
            total_claimed: self.total_claimed,
            name: bytes_of(self.name),
            description: bytes_of(self.description),
        }
    }
}

impl Clone for Campaign {
    fn clone(&self) -> (copy: Self)
        ensures
            copy@ == self@,
    {
        Campaign {
            id: self.id,
            merchant: self.merchant,
            reward_amount: self.reward_amount,
            expiration: self.expiration,
            created_at: self.created_at,
            active: self.active,
            total_claimed: self.total_claimed,
            name: self.name.clone(),
            description: self.description.clone(),
        }
    }
}

/// An upgrade that waits for signatures and for its time.
pub struct UpgradeProposal {
    /// The hash of the code to run.
    pub wasm_hash: [u8; 32],
    pub proposed_at: u64,
    /// The ids of the admins that signed, in the order in which they did.
    pub signatures: soroban_sdk::Vec<u64>,
}

/// An upgrade that waits, by its contents.
#[verifier::ext_equal]
pub ghost struct ProposalView {
    pub wasm_hash: [u8; 32],
    pub proposed_at: u64,
    pub signatures: Seq<Option<u64>>,
}

impl ProposalView {
    /// Whether `admin` signed.
    pub open spec fn signed_by(self, admin: Address) -> bool {
        self.signatures.contains(Some(admin.id))
    }

    /// Whether the signature of `admin` is found before any item that is no
    /// address.
    pub open spec fn found(self, admin: Address) -> bool {
        exists|i: int|
            #![trigger self.signatures[i]]
            0 <= i < self.signatures.len() && self.signatures[i] == Some(admin.id) && forall|j: int|
                0 <= j < i ==> self.signatures[j] is Some
    }

    /// Why `admin` may not sign, if that is so.
    pub open spec fn signing_refusal(self, admin: Address) -> Option<Error> {
        if self.found(admin) {
            Some(Error::AlreadyAuthorized)
        } else if self.signatures.contains(None) {
            Some(Error::MalformedAddress)
        } else if self.signatures.len() >= u32::MAX {
            Some(Error::SignaturesFull)
        } else {
            None
        }
    }
}

impl View for UpgradeProposal {
    type V = ProposalView;

    open spec fn view(&self) -> ProposalView {
        ProposalView {
            wasm_hash: self.wasm_hash,
            proposed_at: self.proposed_at,
            signatures: items_of(self.signatures),
        }
    }
}

/// The name of a ledger entry of the campaign contract.
#[derive(Clone, Copy, Debug, PartialEq, Eq, Structural)]
pub enum DataKey {
    Campaign(u64),
    NextId,
    /// Whether an account holds a role.
    RoleMember(Role, Address),
    /// How many admins have to sign an upgrade.
    Threshold,
    UpgradeProposal,
    Paused,
}

/// What the campaign contract publishes.
pub enum Event {
    Created {
        id: u64,
        merchant: Address,
        name: soroban_sdk::Bytes,
        description: soroban_sdk::Bytes,
    },
    Deactivated { id: u64, merchant: Address },
    RoleGranted { role: Role, admin: Address, account: Address },
    RoleRevoked { role: Role, admin: Address, account: Address },
    Paused { pauser: Address },
    Unpaused { pauser: Address },
    UpgradeProposed { wasm_hash: [u8; 32], admin: Address },
    UpgradeAuthorized { admin: Address },
    UpgradeExecuted { wasm_hash: [u8; 32] },
    UpgradeCancelled { admin: Address },
}

impl Event {
    /// The first topic of the event.
    pub open spec fn name(self) -> Seq<char> {
        match self {
            Event::Created { .. } => "CAM_CRT"@,
            Event::Deactivated { .. } => "CAM_DEACT"@,
            Event::RoleGranted { .. } => "ROLE_GRT"@,
            Event::RoleRevoked { .. } => "ROLE_REV"@,
            Event::Paused { .. } => "PAUSED"@,
            Event::Unpaused { .. } => "UNPAUSED"@,
            Event::UpgradeProposed { .. } => "UPG_PROP"@,
            Event::UpgradeAuthorized { .. } => "UPG_AUTH"@,
            Event::UpgradeExecuted { .. } => "UPG_EXEC"@,
            Event::UpgradeCancelled { .. } => "UPG_CNCL"@,
        }
    }

    /// The first topic of the event.
    pub fn topic(&self) -> (topic: &'static str)
        ensures
            topic@ == self.name(),
    {
        match self {
            Event::Created { .. } => "CAM_CRT",
            Event::Deactivated { .. } => "CAM_DEACT",
            Event::RoleGranted { .. } => "ROLE_GRT",
            Event::RoleRevoked { .. } => "ROLE_REV",
            Event::Paused { .. } => "PAUSED",
            Event::Unpaused { .. } => "UNPAUSED",
            Event::UpgradeProposed { .. } => "UPG_PROP",
            Event::UpgradeAuthorized { .. } => "UPG_AUTH",
            Event::UpgradeExecuted { .. } => "UPG_EXEC",
            Event::UpgradeCancelled { .. } => "UPG_CNCL",
        }
    }

    /// What stands second among the topics, to say what the third one is.
    pub open spec fn label_text(self) -> Option<Seq<char>> {
        match self {
            Event::Created { .. } => Some("id"@),
            Event::Deactivated { .. } => Some("id"@),
            _ => None,
        }
    }

    /// What stands second among the topics, to say what the third one is.
    pub fn label(&self) -> (label: Option<&'static str>)
        ensures
            match label {
                Some(label) => self.label_text() == Some(label@),
                None => self.label_text() is None,
            },
    {
        match self {
            Event::Created { .. } => Some("id"),
            Event::Deactivated { .. } => Some("id"),
            _ => None,
        }
    }
}

/// An invocation that can change the campaign contract.
pub enum Call {
    /// `admins` are the ids of the first admins.
    Initialize { admins: soroban_sdk::Vec<u64>, threshold: u32 },
    GrantRole { admin: Address, role: Role, account: Address },
    RevokeRole { admin: Address, role: Role, account: Address },
    Pause { pauser: Address },
    Unpause { pauser: Address },
    CreateCampaign {
        merchant: Address,
        reward_amount: i128,
        expiration: u64,
        name: soroban_sdk::Bytes,
        description: soroban_sdk::Bytes,
    },
    SetActive { campaign_id: u64, active: bool },
    RecordClaim { recorder: Address, campaign_id: u64 },
    ProposeUpgrade { admin: Address, wasm_hash: [u8; 32] },
    AuthorizeUpgrade { admin: Address },
    ExecuteUpgrade { admin: Address },
    CancelUpgrade { admin: Address },
}

/// What an invocation hands back.
pub enum Reply {
    Nothing,
    /// The id of the new campaign.
    CampaignId(u64),
    /// The hash of the code that the contract runs from now on.
    Upgrade([u8; 32]),
}

/// What a ledger entry of the campaign contract holds.
pub ghost enum Entry {
    Absent,
    Flag(bool),
    Id(u64),
    Count(u32),
    Campaign(CampaignView),
    Proposal(ProposalView),
}

/// The entries that hold the roles of the first admins.
pub open spec fn admin_keys(admins: Seq<Option<u64>>) -> Seq<DataKey>
    decreases admins.len(),
{
    if admins.len() == 0 {
        Seq::empty()
    } else {
        let others = admin_keys(admins.drop_last());
        match admins.last() {
            Some(id) => others.push(DataKey::RoleMember(Role::Admin, Address { id })).push(
                DataKey::RoleMember(Role::Pauser, Address { id }),
            ),
            None => others,
        }
    }
}

/// The ledger entries of the campaign contract.
#[verifier::ext_equal]
pub ghost struct State {
    pub campaigns: Map<u64, CampaignView>,
    pub next_id: Option<u64>,
    pub members: Map<(Role, Address), bool>,
    pub threshold: Option<u32>,
    pub proposal: Option<ProposalView>,
    pub paused: Option<bool>,
}

impl State {
    /// The contract before anything was written.
    pub open spec fn empty() -> State {
        State {
            campaigns: Map::empty(),
            next_id: None,
            members: Map::empty(),
            threshold: None,
            proposal: None,
            paused: None,
        }
    }

    /// What the entry of `key` holds.
    pub open spec fn entry(self, key: DataKey) -> Entry {
        match key {
            DataKey::Campaign(id) => if self.campaigns.contains_key(id) {
                Entry::Campaign(self.campaigns[id])
            } else {
                Entry::Absent
            },
            DataKey::NextId => match self.next_id {
                Some(id) => Entry::Id(id),
                None => Entry::Absent,
            },
            DataKey::RoleMember(role, account) => if self.members.contains_key((role, account)) {
                Entry::Flag(self.members[(role, account)])
            } else {
                Entry::Absent
            },
            DataKey::Threshold => match self.threshold {
                Some(threshold) => Entry::Count(threshold),
                None => Entry::Absent,
            },
            DataKey::UpgradeProposal => match self.proposal {
                Some(proposal) => Entry::Proposal(proposal),
                None => Entry::Absent,
            },
            DataKey::Paused => match self.paused {
                Some(paused) => Entry::Flag(paused),
                None => Entry::Absent,
            },
        }
    }

    /// The ledger entries that `call` reads or writes.
    pub open spec fn keys(self, call: Call) -> Seq<DataKey> {
        match call {
            Call::Initialize { admins, .. } => admin_keys(items_of(admins)).push(
                DataKey::Paused,
            ).push(DataKey::Threshold).push(DataKey::NextId),
            Call::GrantRole { admin, role, account } => seq![
                DataKey::RoleMember(Role::Admin, admin),
                DataKey::RoleMember(role, account),
            ],
            Call::RevokeRole { admin, role, account } => seq![
                DataKey::RoleMember(Role::Admin, admin),
                DataKey::RoleMember(role, account),
            ],
            Call::Pause { pauser } => seq![
                DataKey::RoleMember(Role::Pauser, pauser),
                DataKey::Paused,
            ],
            Call::Unpause { pauser } => seq![
                DataKey::RoleMember(Role::Pauser, pauser),
                DataKey::Paused,
            ],
            Call::CreateCampaign { .. } => seq![
                DataKey::Paused,
                DataKey::NextId,
                DataKey::Campaign(self.fresh_id()),
            ],
            Call::SetActive { campaign_id, .. } => seq![DataKey::Campaign(campaign_id)],
            Call::RecordClaim { recorder, campaign_id } => seq![
                DataKey::RoleMember(Role::Recorder, recorder),
                DataKey::Campaign(campaign_id),
            ],
            Call::ProposeUpgrade { admin, .. } => seq![
                DataKey::RoleMember(Role::Admin, admin),
                DataKey::UpgradeProposal,
            ],
            Call::AuthorizeUpgrade { admin } => seq![
                DataKey::RoleMember(Role::Admin, admin),
                DataKey::UpgradeProposal,
            ],
            Call::ExecuteUpgrade { admin } => seq![
                DataKey::RoleMember(Role::Admin, admin),
                DataKey::UpgradeProposal,
                DataKey::Threshold,
            ],
            Call::CancelUpgrade { admin } => seq![
                DataKey::RoleMember(Role::Admin, admin),
                DataKey::UpgradeProposal,
            ],
        }
    }

    pub open spec fn has_role(self, role: Role, account: Address) -> bool {
        self.members.contains_key((role, account)) && self.members[(role, account)]
    }

    pub open spec fn is_initialized(self) -> bool {
        self.paused is Some
    }

    pub open spec fn is_paused(self) -> bool {
        self.paused == Some(true)
    }

    /// The id of the next campaign.
    pub open spec fn fresh_id(self) -> u64 {
        self.next_id.unwrap_or(1)
    }

    pub open spec fn granting(self, role: Role, account: Address) -> State {
        State { members: self.members.insert((role, account), true), ..self }
    }

    pub open spec fn revoking(self, role: Role, account: Address) -> State {
        State { members: self.members.remove((role, account)), ..self }
    }

    /// These entries, with the admin and the pauser role granted to every
    /// account of `admins`.
    pub open spec fn granting_to_admins(self, admins: Seq<Option<u64>>) -> State {
        State {
            members: self.members.union_prefer_right(
                Map::new(
                    |member: (Role, Address)|
                        (member.0 == Role::Admin || member.0 == Role::Pauser) && admins.contains(
                            Some(member.1.id),
                        ),
                    |member: (Role, Address)| true,
                ),
            ),
            ..self
        }
    }

    /// Why an invocation that asks for `role` refuses `account`, if it does.
    pub open spec fn role_refusal(self, context: Context, role: Role, account: Address) -> Option<
        Error,
    > {
        if !context.authorizes(account) {
            Some(Error::NotAuthorized)
        } else if !self.has_role(role, account) {
            Some(Error::MissingRole)
        } else {
            None
        }
    }

    /// Why `call` is refused, if it is: the first of its conditions that fails.
    pub open spec fn refusal(self, context: Context, call: Call) -> Option<Error> {
        match call {
            Call::Initialize { admins, threshold } => if self.is_initialized() {
                Some(Error::AlreadyInitialized)
            } else if threshold == 0 {
                Some(Error::ThresholdNotPositive)
            } else if items_of(admins).len() < threshold {
                Some(Error::InsufficientAdmins)
            } else if items_of(admins).contains(None) {
                Some(Error::MalformedAddress)
            } else {
                None
            },
            Call::GrantRole { admin, .. } => self.role_refusal(context, Role::Admin, admin),
            Call::RevokeRole { admin, .. } => self.role_refusal(context, Role::Admin, admin),
            Call::Pause { pauser } => self.role_refusal(context, Role::Pauser, pauser),
            Call::Unpause { pauser } => self.role_refusal(context, Role::Pauser, pauser),
            Call::CreateCampaign { merchant, reward_amount, expiration, name, description } => {
                if !context.authorizes(merchant) {
                    Some(Error::NotAuthorized)
                } else if self.is_paused() {
                    Some(Error::ContractPaused)
                } else if reward_amount <= 0 {
                    Some(Error::RewardNotPositive)
                } else if expiration <= context.now {
                    Some(Error::ExpirationNotInFuture)
                } else if bytes_of(name).len() > MAX_NAME {
                    Some(Error::NameTooLong)
                } else if bytes_of(description).len() > MAX_DESCRIPTION {
                    Some(Error::DescriptionTooLong)
                } else if self.fresh_id() == u64::MAX {
                    Some(Error::ArithmeticOverflow)
                } else {
                    None
                }
            },
            Call::SetActive { campaign_id, .. } => if !self.campaigns.contains_key(campaign_id) {
                Some(Error::CampaignNotFound)
            } else if !context.authorizes(self.campaigns[campaign_id].merchant) {
                Some(Error::NotAuthorized)
            } else {
                None
            },
            Call::RecordClaim { recorder, campaign_id } => {
                let role_refusal = self.role_refusal(context, Role::Recorder, recorder);
                if role_refusal is Some {
                    role_refusal
                } else if !self.campaigns.contains_key(campaign_id) {
                    Some(Error::CampaignNotFound)
                } else if self.campaigns[campaign_id].total_claimed == u64::MAX {
                    Some(Error::Overflow)
                } else {
                    None
                }
            },
            Call::ProposeUpgrade { admin, .. } => {
                let role_refusal = self.role_refusal(context, Role::Admin, admin);
                if role_refusal is Some {
                    role_refusal
                } else if self.proposal is Some {
                    Some(Error::UpgradeAlreadyProposed)
                } else {
                    None
                }
            },
            Call::AuthorizeUpgrade { admin } => {
                let role_refusal = self.role_refusal(context, Role::Admin, admin);
                if role_refusal is Some {
                    role_refusal
                } else {
                    match self.proposal {
                        None => Some(Error::NoPendingProposal),
                        Some(proposal) => proposal.signing_refusal(admin),
                    }
                }
            },
            Call::ExecuteUpgrade { admin } => {
                let role_refusal = self.role_refusal(context, Role::Admin, admin);
                if role_refusal is Some {
                    role_refusal
                } else {
                    match (self.proposal, self.threshold) {
                        (None, _) => Some(Error::NoPendingProposal),
                        (_, None) => Some(Error::NotInitialized),
                        (Some(proposal), Some(threshold)) => if proposal.signatures.len()
                            < threshold {
                            Some(Error::InsufficientAuthorizations)
                        } else if proposal.proposed_at + TIMELOCK > u64::MAX {
                            Some(Error::ArithmeticOverflow)
                        } else if context.now < proposal.proposed_at + TIMELOCK {
                            Some(Error::TimelockNotMet)
                        } else {
                            None
                        },
                    }
                }
            },
            Call::CancelUpgrade { admin } => self.role_refusal(context, Role::Admin, admin),
        }
    }

    /// The entries once `call` was carried out.
    pub open spec fn after(self, context: Context, call: Call) -> State {
        match call {
            Call::Initialize { admins, threshold } => State {
                threshold: Some(threshold),
                next_id: Some(1),
                paused: Some(false),
                ..self.granting_to_admins(items_of(admins))
            },
            Call::GrantRole { role, account, .. } => self.granting(role, account),
            Call::RevokeRole { role, account, .. } => self.revoking(role, account),
            Call::Pause { .. } => State { paused: Some(true), ..self },
            Call::Unpause { .. } => State { paused: Some(false), ..self },
            Call::CreateCampaign { merchant, reward_amount, expiration, name, description } => {
                let id = self.fresh_id();
                State {
                    next_id: Some((id + 1) as u64),
                    campaigns: self.campaigns.insert(
                        id,
                        CampaignView {
                            id,
                            merchant,
                            reward_amount,
                            expiration,
                            created_at: context.now,
                            active: true,
                            total_claimed: 0,
                            name: bytes_of(name),
                            description: bytes_of(description),
                        },
                    ),
                    ..self
                }
            },
            Call::SetActive { campaign_id, active } => State {
                campaigns: self.campaigns.insert(
                    campaign_id,
                    CampaignView { active, ..self.campaigns[campaign_id] },
                ),
                ..self
            },
            Call::RecordClaim { campaign_id, .. } => State {
                campaigns: self.campaigns.insert(
                    campaign_id,
                    CampaignView {
                        total_claimed: (self.campaigns[campaign_id].total_claimed + 1) as u64,
                        ..self.campaigns[campaign_id]
                    },
                ),
                ..self
            },
            Call::ProposeUpgrade { admin, wasm_hash } => State {
                proposal: Some(
                    ProposalView {
                        wasm_hash,
                        proposed_at: context.now,
                        signatures: seq![Some(admin.id)],
                    },
                ),
                ..self
            },
            Call::AuthorizeUpgrade { admin } => State {
                proposal: match self.proposal {
                    Some(proposal) => Some(
                        ProposalView {
                            signatures: proposal.signatures.push(Some(admin.id)),
                            ..proposal
                        },
                    ),
                    None => None,
                },
                ..self
            },
            Call::ExecuteUpgrade { .. } => State { proposal: None, ..self },
            Call::CancelUpgrade { .. } => State { proposal: None, ..self },
        }
    }

    /// What is published when `call` is carried out.
    pub open spec fn event(self, call: Call) -> Option<Event> {
        match call {
            Call::Initialize { .. } => None,
            Call::GrantRole { admin, role, account } => Some(
                Event::RoleGranted { role, admin, account },
            ),
            Call::RevokeRole { admin, role, account } => Some(
                Event::RoleRevoked { role, admin, account },
            ),
            Call::Pause { pauser } => Some(Event::Paused { pauser }),
            Call::Unpause { pauser } => Some(Event::Unpaused { pauser }),
            Call::CreateCampaign { merchant, name, description, .. } => Some(
                Event::Created { id: self.fresh_id(), merchant, name, description },
            ),
            Call::SetActive { campaign_id, active } => if active {
                None
            } else {
                Some(
                    Event::Deactivated {
                        id: campaign_id,
                        merchant: self.campaigns[campaign_id].merchant,
                    },
                )
            },
            Call::RecordClaim { .. } => None,
            Call::ProposeUpgrade { admin, wasm_hash } => Some(
                Event::UpgradeProposed { wasm_hash, admin },
            ),
            Call::AuthorizeUpgrade { admin } => Some(Event::UpgradeAuthorized { admin }),
            Call::ExecuteUpgrade { .. } => match self.proposal {
                Some(proposal) => Some(Event::UpgradeExecuted { wasm_hash: proposal.wasm_hash }),
                None => None,
            },
            Call::CancelUpgrade { admin } => Some(Event::UpgradeCancelled { admin }),
        }
    }

    /// What is handed back when `call` is carried out.
    pub open spec fn reply(self, call: Call) -> Reply {
        match call {
            Call::CreateCampaign { .. } => Reply::CampaignId(self.fresh_id()),
            Call::ExecuteUpgrade { .. } => match self.proposal {
                Some(proposal) => Reply::Upgrade(proposal.wasm_hash),
                None => Reply::Nothing,
            },
            _ => Reply::Nothing,
        }
    }

    /// The account that has to authorize `call`.
    pub open spec fn author(self, call: Call) -> Option<Address> {
        match call {
            Call::Initialize { .. } => None,
            Call::GrantRole { admin, .. } => Some(admin),
            Call::RevokeRole { admin, .. } => Some(admin),
            Call::Pause { pauser } => Some(pauser),
            Call::Unpause { pauser } => Some(pauser),
            Call::CreateCampaign { merchant, .. } => Some(merchant),
            Call::SetActive { campaign_id, .. } => if self.campaigns.contains_key(campaign_id) {
                Some(self.campaigns[campaign_id].merchant)
            } else {
                None
            },
            Call::RecordClaim { recorder, .. } => Some(recorder),
            Call::ProposeUpgrade { admin, .. } => Some(admin),
            Call::AuthorizeUpgrade { admin } => Some(admin),
            Call::ExecuteUpgrade { admin } => Some(admin),
            Call::CancelUpgrade { admin } => Some(admin),
        }
    }
}

/// What becomes of `call`: either it is refused, and nothing changes, or its
/// entries are written and its event is published.
pub open spec fn outcome<T>(
    before: State,
    start: Invocation,
    call: Call,
    result: Result<T, Error>,
    after: State,
    end: Invocation,
) -> bool {
    &&& end.continues(start)
    &&& match before.refusal(start.context(), call) {
        Some(error) => {
            &&& result == Err::<T, Error>(error)
            &&& after == before
            &&& end.events@ == start.events@
        },
        None => {
            &&& result is Ok
            &&& after == before.after(start.context(), call)
            &&& end.events@ == start.events_with(
                match before.event(call) {
                    Some(event) => Some(crate::invocation::Event::Campaign(event)),
                    None => None,
                },
            )
        },
    }
}

/// The campaign contract: its ledger entries, as far as an invocation needs
/// them.
pub struct CampaignContract {
    pub campaigns: Table<u64, Campaign>,
    pub next_id: Option<u64>,
    pub members: Table<(Role, Address), bool>,
    pub threshold: Option<u32>,
    pub proposal: Option<UpgradeProposal>,
    pub paused: Option<bool>,
}

impl View for CampaignContract {
    type V = State;

    open spec fn view(&self) -> State {
        State {
            campaigns: self.campaigns@.map_values(|campaign: Campaign| campaign@),
            next_id: self.next_id,
            members: self.members@,
            threshold: self.threshold,
            proposal: match self.proposal {
                Some(proposal) => Some(proposal@),
                None => None,
            },
            paused: self.paused,
        }
    }
}

impl CampaignContract {
    /// The contract before anything was written.
    pub fn new() -> (contract: Self)
        ensures
            contract@ == State::empty(),
    {
        let contract = CampaignContract {
            campaigns: Table::new(),
            next_id: None,
            members: Table::new(),
            threshold: None,
            proposal: None,
            paused: None,
        };
        assert(contract@ =~= State::empty());
        contract
    }

    fn grant(&mut self, role: Role, account: Address)
        ensures
            final(self)@ == old(self)@.granting(role, account),
    {
        self.members.set((role, account), true);
    }

    fn revoke(&mut self, role: Role, account: Address)
        ensures
            final(self)@ == old(self)@.revoking(role, account),
    {
        self.members.remove((role, account));
    }

    fn has_role(&self, role: Role, account: Address) -> (r: bool)
        ensures
            r == self@.has_role(role, account),
    {
        match self.members.get((role, account)) {
            Some(member) => *member,
            None => false,
        }
    }

    fn require_role(&self, invocation: &Invocation, role: Role, account: Address) -> (r: Result<
        (),
        Error,
    >)
        ensures
            r == (match self@.role_refusal(invocation.context(), role, account) {
                Some(error) => Err(error),
                None => Ok(()),
            }),
    {
        if !invocation.is_authorized(account) {
            return Err(Error::NotAuthorized);
        }
        if !self.has_role(role, account) {
            return Err(Error::MissingRole);
        }
        Ok(())
    }

    fn require_not_paused(&self) -> (r: Result<(), Error>)
        ensures
            r == (if self@.is_paused() {
                Err::<(), Error>(Error::ContractPaused)
            } else {
                Ok(())
            }),
    {
        if self.is_paused() {
            return Err(Error::ContractPaused);
        }
        Ok(())
    }

    fn next_id(&self) -> (id: u64)
        ensures
            id == self@.fresh_id(),
    {
        self.next_id.unwrap_or(1)
    }

    /// Hands out the next id.
    fn bump_id(&mut self) -> (result: Result<u64, Error>)
        ensures
            match result {
                Ok(id) => {
                    &&& id == old(self)@.fresh_id()
                    &&& id < u64::MAX
                    &&& final(self)@ == (State { next_id: Some((id + 1) as u64), ..old(self)@ })
                },
                Err(error) => {
                    &&& error == Error::ArithmeticOverflow
                    &&& old(self)@.fresh_id() == u64::MAX
                    &&& final(self)@ == old(self)@
                },
            },
    {
        let id: u64 = self.next_id();
        if id == u64::MAX {
            return Err(Error::ArithmeticOverflow);
        }
        self.next_id = Some(id + 1);
        Ok(id)
    }

    /// Writes `campaign` under `id`.
    pub(crate) fn write_campaign(&mut self, id: u64, campaign: Campaign)
        ensures
            final(self)@ == (State {
                campaigns: old(self)@.campaigns.insert(id, campaign@),
                ..old(self)@
            }),
    {
        self.campaigns.set(id, campaign);
        assert(self@.campaigns =~= old(self)@.campaigns.insert(id, campaign@));
    }

    fn get_campaign_internal(&self, campaign_id: u64) -> (result: Result<Campaign, Error>)
        ensures
            match result {
                Ok(campaign) => self@.campaigns.contains_key(campaign_id)
                    && self@.campaigns[campaign_id] == campaign@,
                Err(error) => !self@.campaigns.contains_key(campaign_id) && error
                    == Error::CampaignNotFound,
            },
    {
        match self.campaigns.get(campaign_id) {
            Some(campaign) => Ok(campaign.clone()),
            None => Err(Error::CampaignNotFound),
        }
    }

    /// Whether every item of `admins` is the id of an address.
    fn well_formed(admins: &soroban_sdk::Vec<u64>) -> (r: bool)
        ensures
            r == !items_of(*admins).contains(None),
    {
        let mut i: u32 = 0;
        let n: u32 = vec_len(admins);
        while i < n
            invariant
                i <= n,
                n == items_of(*admins).len(),
                forall|j: int| 0 <= j < i ==> items_of(*admins)[j] is Some,
            decreases n - i,
        {
            if vec_get(admins, i).is_none() {
                assert(items_of(*admins)[i as int] is None);
                return false;
            }
            i += 1;
        }
        true
    }

    /// Initializes the contract, once: every account of `admins` receives the
    /// admin and the pauser role, and `threshold` admins have to sign an
    /// upgrade.
    pub fn initialize(
        &mut self,
        invocation: &mut Invocation,
        admins: soroban_sdk::Vec<u64>,
        threshold: u32,
    ) -> (result: Result<(), Error>)
        ensures
            outcome(
                old(self)@,
                *old(invocation),
                Call::Initialize { admins, threshold },
                result,
                final(self)@,
                *final(invocation),
            ),
    {
        if self.paused.is_some() {
            return Err(Error::AlreadyInitialized);
        }
        if threshold == 0 {
            return Err(Error::ThresholdNotPositive);
        }
        let n: u32 = vec_len(&admins);
        if n < threshold {
            return Err(Error::InsufficientAdmins);
        }
        if !Self::well_formed(&admins) {
            return Err(Error::MalformedAddress);
        }
        let ghost items = items_of(admins);
        let mut i: u32 = 0;
        assert(self@ =~= old(self)@.granting_to_admins(items.take(0)));
        while i < n
            invariant
                i <= n,
                n == items.len(),
                items == items_of(admins),
                self@ == old(self)@.granting_to_admins(items.take(i as int)),
            decreases n - i,
        {
            if let Some(id) = vec_get(&admins, i) {
                let admin = Address { id };
                self.grant(Role::Admin, admin);
                self.grant(Role::Pauser, admin);
            }
            assert(self@ =~= old(self)@.granting_to_admins(items.take(i + 1))) by {
                lemma_one_more_admin(old(self)@, items, i as int);
            }
            i += 1;
        }
        assert(items.take(n as int) =~= items);
        self.threshold = Some(threshold);
        self.next_id = Some(1);
        self.paused = Some(false);
        Ok(())
    }

    /// Grants `role` to `account`. `admin` must hold the admin role.
    pub fn grant_role(
        &mut self,
        invocation: &mut Invocation,
        admin: Address,
        role: Role,
        account: Address,
    ) -> (result: Result<(), Error>)
        ensures
            outcome(
                old(self)@,
                *old(invocation),
                Call::GrantRole { admin, role, account },
                result,
                final(self)@,
                *final(invocation),
            ),
    {
        if let Err(error) = self.require_role(invocation, Role::Admin, admin) {
            return Err(error);
        }
        self.grant(role, account);
        invocation.publish(
            crate::invocation::Event::Campaign(Event::RoleGranted { role, admin, account }),
        );
        Ok(())
    }

    /// Revokes `role` from `account`. `admin` must hold the admin role.
    pub fn revoke_role(
        &mut self,
        invocation: &mut Invocation,
        admin: Address,
        role: Role,
        account: Address,
    ) -> (result: Result<(), Error>)
        ensures
            outcome(
                old(self)@,
                *old(invocation),
                Call::RevokeRole { admin, role, account },
                result,
                final(self)@,
                *final(invocation),
            ),
    {
        if let Err(error) = self.require_role(invocation, Role::Admin, admin) {
            return Err(error);
        }
        self.revoke(role, account);
        invocation.publish(
            crate::invocation::Event::Campaign(Event::RoleRevoked { role, admin, account }),
        );
        Ok(())
    }

    /// Whether `account` holds `role`.
    pub fn has_role_view(&self, role: Role, account: Address) -> (r: bool)
        ensures
            r == self@.has_role(role, account),
    {
        self.has_role(role, account)
    }

    /// Lets no more campaigns be created. `pauser` must hold the pauser role.
    pub fn pause(&mut self, invocation: &mut Invocation, pauser: Address) -> (result: Result<
        (),
        Error,
    >)
        ensures
            outcome(
                old(self)@,
                *old(invocation),
                Call::Pause { pauser },
                result,
                final(self)@,
                *final(invocation),
            ),
    {
        if let Err(error) = self.require_role(invocation, Role::Pauser, pauser) {
            return Err(error);
        }
        self.paused = Some(true);
        invocation.publish(crate::invocation::Event::Campaign(Event::Paused { pauser }));
        Ok(())
    }

    /// Lets campaigns be created again. `pauser` must hold the pauser role.
    pub fn unpause(&mut self, invocation: &mut Invocation, pauser: Address) -> (result: Result<
        (),
        Error,
    >)
        ensures
            outcome(
                old(self)@,
                *old(invocation),
                Call::Unpause { pauser },
                result,
                final(self)@,
                *final(invocation),
            ),
    {
        if let Err(error) = self.require_role(invocation, Role::Pauser, pauser) {
            return Err(error);
        }
        self.paused = Some(false);
        invocation.publish(crate::invocation::Event::Campaign(Event::Unpaused { pauser }));
        Ok(())
    }

    /// Whether the contract is paused.
    pub fn is_paused(&self) -> (r: bool)
        ensures
            r == self@.is_paused(),
    {
        self.paused.unwrap_or(false)
    }

    /// Creates a campaign of `merchant`, who must authorize it, and returns its
    /// id.
    pub fn create_campaign(
        &mut self,
        invocation: &mut Invocation,
        merchant: Address,
        reward_amount: i128,
        expiration: u64,
        name: soroban_sdk::Bytes,
        description: soroban_sdk::Bytes,
    ) -> (result: Result<u64, Error>)
        ensures
            outcome(
                old(self)@,
                *old(invocation),
                Call::CreateCampaign { merchant, reward_amount, expiration, name, description },
                result,
                final(self)@,
                *final(invocation),
            ),
            result matches Ok(id) ==> id == old(self)@.fresh_id(),
    {
        if !invocation.is_authorized(merchant) {
            return Err(Error::NotAuthorized);
        }
        if let Err(error) = self.require_not_paused() {
            return Err(error);
        }
        if reward_amount <= 0 {
            return Err(Error::RewardNotPositive);
        }
        if expiration <= invocation.now {
            return Err(Error::ExpirationNotInFuture);
        }
        if name.len() > MAX_NAME {
            return Err(Error::NameTooLong);
        }
        if description.len() > MAX_DESCRIPTION {
            return Err(Error::DescriptionTooLong);
        }
        let id: u64 = match self.bump_id() {
            Ok(id) => id,
            Err(error) => return Err(error),
        };
        let campaign = Campaign {
            id,
            merchant,
            reward_amount,
            expiration,
            created_at: invocation.now,
            active: true,
            total_claimed: 0,
            name: name.clone(),
            description: description.clone(),
        };
        self.write_campaign(id, campaign);
        invocation.publish(
            crate::invocation::Event::Campaign(
                Event::Created { id, merchant, name, description },
            ),
        );
        Ok(id)
    }

    /// Stops a campaign or lets it run again. Its merchant must authorize it.
    pub fn set_active(
        &mut self,
        invocation: &mut Invocation,
        campaign_id: u64,
        active: bool,
    ) -> (result: Result<(), Error>)
        ensures
            outcome(
                old(self)@,
                *old(invocation),
                Call::SetActive { campaign_id, active },
                result,
                final(self)@,
                *final(invocation),
            ),
    {
        let mut campaign = match self.get_campaign_internal(campaign_id) {
            Ok(campaign) => campaign,
            Err(error) => return Err(error),
        };
        let merchant = campaign.merchant;
        if !invocation.is_authorized(merchant) {
            return Err(Error::NotAuthorized);
        }
        campaign.active = active;
        self.write_campaign(campaign_id, campaign);
        if !active {
            invocation.publish(
                crate::invocation::Event::Campaign(
                    Event::Deactivated { id: campaign_id, merchant },
                ),
            );
        }
        Ok(())
    }

    /// Counts a claim. `recorder` must hold the recorder role, so that only the
    /// rewards contract can do it.
    pub fn record_claim(
        &mut self,
        invocation: &mut Invocation,
        recorder: Address,
        campaign_id: u64,
    ) -> (result: Result<(), Error>)
        ensures
            outcome(
                old(self)@,
                *old(invocation),
                Call::RecordClaim { recorder, campaign_id },
                result,
                final(self)@,
                *final(invocation),
            ),
    {
        if let Err(error) = self.require_role(invocation, Role::Recorder, recorder) {
            return Err(error);
        }
        let mut campaign = match self.get_campaign_internal(campaign_id) {
            Ok(campaign) => campaign,
            Err(error) => return Err(error),
        };
        campaign.total_claimed =
        match campaign.total_claimed.checked_add(1) {
            Some(total_claimed) => total_claimed,
            None => return Err(Error::Overflow),
        };
        self.write_campaign(campaign_id, campaign);
        Ok(())
    }

    /// The campaign of an id.
    pub fn get_campaign(&self, campaign_id: u64) -> (result: Result<Campaign, Error>)
        ensures
            match result {
                Ok(campaign) => self@.campaigns.contains_key(campaign_id)
                    && self@.campaigns[campaign_id] == campaign@,
                Err(error) => !self@.campaigns.contains_key(campaign_id) && error
                    == Error::CampaignNotFound,
            },
    {
        self.get_campaign_internal(campaign_id)
    }

    /// The name and the description of a campaign.
    pub fn get_campaign_metadata(&self, campaign_id: u64) -> (result: Result<
        (soroban_sdk::Bytes, soroban_sdk::Bytes),
        Error,
    >)
        ensures
            match result {
                Ok((name, description)) => {
                    &&& self@.campaigns.contains_key(campaign_id)
                    &&& self@.campaigns[campaign_id].name == bytes_of(name)
                    &&& self@.campaigns[campaign_id].description == bytes_of(description)
                },
                Err(error) => !self@.campaigns.contains_key(campaign_id) && error
                    == Error::CampaignNotFound,
            },
    {
        match self.get_campaign_internal(campaign_id) {
            Ok(campaign) => Ok((campaign.name, campaign.description)),
            Err(error) => Err(error),
        }
    }

    /// Whether a campaign can be claimed from: its merchant lets it run, and it
    /// has not expired.
    pub fn is_active(&self, invocation: &Invocation, campaign_id: u64) -> (result: Result<
        bool,
        Error,
    >)
        ensures
            match result {
                Ok(active) => self@.campaigns.contains_key(campaign_id) && active
                    == self@.campaigns[campaign_id].runs_at(invocation.now),
                Err(error) => !self@.campaigns.contains_key(campaign_id) && error
                    == Error::CampaignNotFound,
            },
    {
        match self.get_campaign_internal(campaign_id) {
            Ok(campaign) => Ok(campaign.active && invocation.now < campaign.expiration),
            Err(error) => Err(error),
        }
    }

    /// Proposes to run the code of `wasm_hash`, which `admin` signs. `admin`
    /// must hold the admin role, and no other upgrade may wait.
    pub fn propose_upgrade(
        &mut self,
        invocation: &mut Invocation,
        admin: Address,
        wasm_hash: [u8; 32],
    ) -> (result: Result<(), Error>)
        ensures
            outcome(
                old(self)@,
                *old(invocation),
                Call::ProposeUpgrade { admin, wasm_hash },
                result,
                final(self)@,
                *final(invocation),
            ),
    {
        if let Err(error) = self.require_role(invocation, Role::Admin, admin) {
            return Err(error);
        }
        if self.proposal.is_some() {
            return Err(Error::UpgradeAlreadyProposed);
        }
        let mut signatures = vec_new(&invocation.host);
        vec_push_back(&mut signatures, admin.id);
        assert(items_of(signatures) =~= seq![Some(admin.id)]);
        self.proposal =
        Some(UpgradeProposal { wasm_hash, proposed_at: invocation.now, signatures });
        invocation.publish(
            crate::invocation::Event::Campaign(Event::UpgradeProposed { wasm_hash, admin }),
        );
        Ok(())
    }

    /// Whether `admin` may sign `proposal`.
    fn require_unsigned(proposal: &UpgradeProposal, admin: Address) -> (r: Result<(), Error>)
        ensures
            r == (match proposal@.signing_refusal(admin) {
                Some(error) => Err(error),
                None => Ok(()),
            }),
    {
        let ghost signatures = proposal@.signatures;
        let mut i: u32 = 0;
        let n: u32 = vec_len(&proposal.signatures);
        while i < n
            invariant
                i <= n,
                n == signatures.len(),
                signatures == proposal@.signatures,
                forall|j: int|
                    0 <= j < i ==> (#[trigger] signatures[j]) is Some && signatures[j] != Some(
                        admin.id,
                    ),
            decreases n - i,
        {
            match vec_get(&proposal.signatures, i) {
                Some(id) => {
                    if id == admin.id {
                        assert(signatures[i as int] == Some(admin.id));
                        return Err(Error::AlreadyAuthorized);
                    }
                },
                None => {
                    assert(signatures[i as int] is None);
                    return Err(Error::MalformedAddress);
                },
            }
            i += 1;
        }
        if n == u32::MAX {
            return Err(Error::SignaturesFull);
        }
        Ok(())
    }

    /// Signs the upgrade that waits. `admin` must hold the admin role and may
    /// sign once.
    pub fn authorize_upgrade(&mut self, invocation: &mut Invocation, admin: Address) -> (result:
        Result<(), Error>)
        ensures
            outcome(
                old(self)@,
                *old(invocation),
                Call::AuthorizeUpgrade { admin },
                result,
                final(self)@,
                *final(invocation),
            ),
    {
        if let Err(error) = self.require_role(invocation, Role::Admin, admin) {
            return Err(error);
        }
        let mut proposal = match self.proposal.take() {
            Some(proposal) => proposal,
            None => return Err(Error::NoPendingProposal),
        };
        if let Err(error) = Self::require_unsigned(&proposal, admin) {
            self.proposal = Some(proposal);
            return Err(error);
        }
        vec_push_back(&mut proposal.signatures, admin.id);
        self.proposal = Some(proposal);
        invocation.publish(
            crate::invocation::Event::Campaign(Event::UpgradeAuthorized { admin }),
        );
        Ok(())
    }

    /// Carries out the upgrade that waits, once enough admins signed it and its
    /// time has come, and returns the hash of the code to run. `admin` must hold
    /// the admin role.
    pub fn execute_upgrade(&mut self, invocation: &mut Invocation, admin: Address) -> (result:
        Result<[u8; 32], Error>)
        ensures
            outcome(
                old(self)@,
                *old(invocation),
                Call::ExecuteUpgrade { admin },
                result,
                final(self)@,
                *final(invocation),
            ),
            result matches Ok(wasm_hash) ==> (old(self)@.proposal matches Some(proposal)
                && proposal.wasm_hash == wasm_hash),
    {
        if let Err(error) = self.require_role(invocation, Role::Admin, admin) {
            return Err(error);
        }
        let (wasm_hash, proposed_at, signed): ([u8; 32], u64, u32) = match &self.proposal {
            Some(proposal) => (
                proposal.wasm_hash,
                proposal.proposed_at,
                vec_len(&proposal.signatures),
            ),
            None => return Err(Error::NoPendingProposal),
        };
        let threshold: u32 = match self.threshold {
            Some(threshold) => threshold,
            None => return Err(Error::NotInitialized),
        };
        if signed < threshold {
            return Err(Error::InsufficientAuthorizations);
        }
        let due: u64 = match proposed_at.checked_add(TIMELOCK) {
            Some(due) => due,
            None => return Err(Error::ArithmeticOverflow),
        };
        if invocation.now < due {
            return Err(Error::TimelockNotMet);
        }
        self.proposal = None;
        invocation.publish(
            crate::invocation::Event::Campaign(Event::UpgradeExecuted { wasm_hash }),
        );
        Ok(wasm_hash)
    }

    /// Drops the upgrade that waits, if one does. `admin` must hold the admin
    /// role.
    pub fn cancel_upgrade(&mut self, invocation: &mut Invocation, admin: Address) -> (result:
        Result<(), Error>)
        ensures
            outcome(
                old(self)@,
                *old(invocation),
                Call::CancelUpgrade { admin },
                result,
                final(self)@,
                *final(invocation),
            ),
    {
        if let Err(error) = self.require_role(invocation, Role::Admin, admin) {
            return Err(error);
        }
        self.proposal = None;
        invocation.publish(
            crate::invocation::Event::Campaign(Event::UpgradeCancelled { admin }),
        );
        Ok(())
    }

    /// The ledger entries that `call` reads or writes. Of this contract's own
    /// entries only the next id is looked at.
    pub fn footprint(&self, call: &Call) -> (keys: Vec<DataKey>)
        ensures
            keys@ == self@.keys(*call),
    {
        let keys: Vec<DataKey> = match call {
            Call::Initialize { admins, .. } => {
                let mut keys = Self::admin_footprint(admins);
                keys.push(DataKey::Paused);
                keys.push(DataKey::Threshold);
                keys.push(DataKey::NextId);
                keys
            },
            Call::GrantRole { admin, role, account } => vec![
                DataKey::RoleMember(Role::Admin, *admin),
                DataKey::RoleMember(*role, *account),
            ],
            Call::RevokeRole { admin, role, account } => vec![
                DataKey::RoleMember(Role::Admin, *admin),
                DataKey::RoleMember(*role, *account),
            ],
            Call::Pause { pauser } => vec![
                DataKey::RoleMember(Role::Pauser, *pauser),
                DataKey::Paused,
            ],
            Call::Unpause { pauser } => vec![
                DataKey::RoleMember(Role::Pauser, *pauser),
                DataKey::Paused,
            ],
            Call::CreateCampaign { .. } => vec![
                DataKey::Paused,
                DataKey::NextId,
                DataKey::Campaign(self.next_id()),
            ],
            Call::SetActive { campaign_id, .. } => vec![DataKey::Campaign(*campaign_id)],
            Call::RecordClaim { recorder, campaign_id } => vec![
                DataKey::RoleMember(Role::Recorder, *recorder),
                DataKey::Campaign(*campaign_id),
            ],
            Call::ProposeUpgrade { admin, .. } => vec![
                DataKey::RoleMember(Role::Admin, *admin),
                DataKey::UpgradeProposal,
            ],
            Call::AuthorizeUpgrade { admin } => vec![
                DataKey::RoleMember(Role::Admin, *admin),
                DataKey::UpgradeProposal,
            ],
            Call::ExecuteUpgrade { admin } => vec![
                DataKey::RoleMember(Role::Admin, *admin),
                DataKey::UpgradeProposal,
                DataKey::Threshold,
            ],
            Call::CancelUpgrade { admin } => vec![
                DataKey::RoleMember(Role::Admin, *admin),
                DataKey::UpgradeProposal,
            ],
        };
        assert(keys@ =~= self@.keys(*call));
        keys
    }

    /// The entries that hold the roles of the first admins.
    fn admin_footprint(admins: &soroban_sdk::Vec<u64>) -> (keys: Vec<DataKey>)
        ensures
            keys@ == admin_keys(items_of(*admins)),
    {
        let ghost items = items_of(*admins);
        let mut keys: Vec<DataKey> = Vec::new();
        let mut i: u32 = 0;
        let n: u32 = vec_len(admins);
        while i < n
            invariant
                i <= n,
                n == items.len(),
                items == items_of(*admins),
                keys@ == admin_keys(items.take(i as int)),
            decreases n - i,
        {
            assert(items.take(i + 1).drop_last() =~= items.take(i as int));
            if let Some(id) = vec_get(admins, i) {
                keys.push(DataKey::RoleMember(Role::Admin, Address { id }));
                keys.push(DataKey::RoleMember(Role::Pauser, Address { id }));
            }
            i += 1;
        }
        assert(items.take(n as int) =~= items);
        keys
    }

    /// The account that has to authorize `call`.
    pub fn signer(&self, call: &Call) -> (account: Option<Address>)
        ensures
            account == self@.author(*call),
    {
        match call {
            Call::Initialize { .. } => None,
            Call::GrantRole { admin, .. } => Some(*admin),
            Call::RevokeRole { admin, .. } => Some(*admin),
            Call::Pause { pauser } => Some(*pauser),
            Call::Unpause { pauser } => Some(*pauser),
            Call::CreateCampaign { merchant, .. } => Some(*merchant),
            Call::SetActive { campaign_id, .. } => match self.campaigns.get(*campaign_id) {
                Some(campaign) => Some(campaign.merchant),
                None => None,
            },
            Call::RecordClaim { recorder, .. } => Some(*recorder),
            Call::ProposeUpgrade { admin, .. } => Some(*admin),
            Call::AuthorizeUpgrade { admin } => Some(*admin),
            Call::ExecuteUpgrade { admin } => Some(*admin),
            Call::CancelUpgrade { admin } => Some(*admin),
        }
    }

    /// Carries out `call`, or refuses it.
    pub fn execute(&mut self, invocation: &mut Invocation, call: Call) -> (result: Result<
        Reply,
        Error,
    >)
        ensures
            outcome(old(self)@, *old(invocation), call, result, final(self)@, *final(invocation)),
            result matches Ok(reply) ==> reply == old(self)@.reply(call),
    {
        let done: Result<(), Error> = match call {
            Call::CreateCampaign { merchant, reward_amount, expiration, name, description } => {
                return match self.create_campaign(
                    invocation,
                    merchant,
                    reward_amount,
                    expiration,
                    name,
                    description,
                ) {
                    Ok(id) => Ok(Reply::CampaignId(id)),
                    Err(error) => Err(error),
                };
            },
            Call::ExecuteUpgrade { admin } => {
                return match self.execute_upgrade(invocation, admin) {
                    Ok(wasm_hash) => Ok(Reply::Upgrade(wasm_hash)),
                    Err(error) => Err(error),
                };
            },
            Call::Initialize { admins, threshold } => self.initialize(
                invocation,
                admins,
                threshold,
            ),
            Call::GrantRole { admin, role, account } => self.grant_role(
                invocation,
                admin,
                role,
                account,
            ),
            Call::RevokeRole { admin, role, account } => self.revoke_role(
                invocation,
                admin,
                role,
                account,
            ),
            Call::Pause { pauser } => self.pause(invocation, pauser),
            Call::Unpause { pauser } => self.unpause(invocation, pauser),
            Call::SetActive { campaign_id, active } => self.set_active(
                invocation,
                campaign_id,
                active,
            ),
            Call::RecordClaim { recorder, campaign_id } => self.record_claim(
                invocation,
                recorder,
                campaign_id,
            ),
            Call::ProposeUpgrade { admin, wasm_hash } => self.propose_upgrade(
                invocation,
                admin,
                wasm_hash,
            ),
            Call::AuthorizeUpgrade { admin } => self.authorize_upgrade(invocation, admin),
            Call::CancelUpgrade { admin } => self.cancel_upgrade(invocation, admin),
        };
        match done {
            Ok(()) => Ok(Reply::Nothing),
            Err(error) => Err(error),
        }
    }
}

/// What the first `i + 1` items of `items` grant is what the first `i` grant,
/// and what the next one does.
proof fn lemma_one_more_admin(state: State, items: Seq<Option<u64>>, i: int)
    requires
        0 <= i < items.len(),
    ensures
        items[i] matches Some(id) ==> state.granting_to_admins(items.take(i + 1))
            == state.granting_to_admins(items.take(i)).granting(
            Role::Admin,
            Address { id },
        ).granting(Role::Pauser, Address { id }),
        items[i] is None ==> state.granting_to_admins(items.take(i + 1))
            == state.granting_to_admins(items.take(i)),
{
    let shorter = items.take(i);
    let longer = items.take(i + 1);
    assert(longer =~= shorter.push(items[i]));
    assert forall|item: Option<u64>| longer.contains(item) == (shorter.contains(item) || item
        == items[i]) by {
        if shorter.contains(item) {
            let j = choose|j: int| 0 <= j < shorter.len() && shorter[j] == item;
            assert(longer[j] == item);
        }
        assert(longer[i] == items[i]);
    }
    let before = state.granting_to_admins(shorter).members;
    let after = state.granting_to_admins(longer).members;
    match items[i] {
        Some(id) => {
            let admin = Address { id };
            assert forall|account: Address| account.id == id implies account == admin by {}
            assert(after =~= before.insert((Role::Admin, admin), true).insert(
                (Role::Pauser, admin),
                true,
            ));
        },
        None => {
            assert(after =~= before);
        },
    }
}

} // verus!
