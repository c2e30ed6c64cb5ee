//! Why an invocation is refused.

use vstd::prelude::*;

verus! {

/// The reason for which a contract refuses an invocation. A refused invocation
/// leaves every ledger entry as it was and publishes nothing.
#[derive(Clone, Copy, Debug, PartialEq, Eq, Structural)]
pub enum Error {
    /// The contract was initialized before.
    AlreadyInitialized,
    /// An entry that initialization writes is missing.
    NotInitialized,
    /// The account that must authorize the invocation did not.
    NotAuthorized,
    /// The account does not hold the role that the invocation asks for.
    MissingRole,
    /// The contract is paused.
    ContractPaused,
    AmountNotPositive,
    AmountNegative,
    InsufficientBalance,
    AllowanceExceeded,
    /// A balance, the supply or a claim counter would grow beyond its type.
    Overflow,
    /// The supply would shrink below its type.
    Underflow,
    /// Nobody holds the admin role; the role table answers who holds which.
    UseHasRoleView,
    ThresholdNotPositive,
    InsufficientAdmins,
    /// An item of a list of admins or of signatures is no address.
    MalformedAddress,
    RewardNotPositive,
    ExpirationNotInFuture,
    NameTooLong,
    DescriptionTooLong,
    CampaignNotFound,
    UpgradeAlreadyProposed,
    NoPendingProposal,
    AlreadyAuthorized,
    InsufficientAuthorizations,
    TimelockNotMet,
    /// The host cannot hold another signature.
    SignaturesFull,
    AlreadyClaimed,
    CampaignNotActive,
    /// A campaign id, a deadline or a reward is beyond what its type can hold.
    ArithmeticOverflow,
}

impl Error {
    /// The text that the contract panics with.
    pub open spec fn text(self) -> Seq<char> {
        match self {
            Error::AlreadyInitialized => "already initialized"@,
            Error::NotInitialized => "not initialized"@,
            Error::NotAuthorized => "not authorized"@,
            Error::MissingRole => "missing role"@,
            Error::ContractPaused => "contract is paused"@,
            Error::AmountNotPositive => "amount must be positive"@,
            Error::AmountNegative => "amount must be non-negative"@,
            Error::InsufficientBalance => "insufficient balance"@,
            Error::AllowanceExceeded => "allowance exceeded"@,
            Error::Overflow => "overflow"@,
            Error::Underflow => "underflow"@,
            Error::UseHasRoleView => "use has_role_view to check roles"@,
            Error::ThresholdNotPositive => "threshold must be positive"@,
            Error::InsufficientAdmins => "insufficient admins for threshold"@,
            Error::MalformedAddress => "malformed address"@,
            Error::RewardNotPositive => "reward_amount must be positive"@,
            Error::ExpirationNotInFuture => "expiration must be in the future"@,
            Error::NameTooLong => "name exceeds 64 bytes"@,
            Error::DescriptionTooLong => "description exceeds 256 bytes"@,
            Error::CampaignNotFound => "campaign not found"@,
            Error::UpgradeAlreadyProposed => "upgrade already proposed"@,
            Error::NoPendingProposal => "no pending proposal"@,
            Error::AlreadyAuthorized => "already authorized by this admin"@,
            Error::InsufficientAuthorizations => "insufficient authorizations"@,
            Error::TimelockNotMet => "timelock not met"@,
            Error::SignaturesFull => "too many signatures"@,
            Error::AlreadyClaimed => "already claimed"@,
            Error::CampaignNotActive => "campaign not active"@,
            Error::ArithmeticOverflow => "arithmetic overflow"@,
        }
    }

    /// The text that the contract panics with.
    pub fn message(&self) -> (text: &'static str)
        ensures
            text@ == self.text(),
    {
        match self {
            Error::AlreadyInitialized => "already initialized",
            Error::NotInitialized => "not initialized",
            Error::NotAuthorized => "not authorized",
            Error::MissingRole => "missing role",
            Error::ContractPaused => "contract is paused",
            Error::AmountNotPositive => "amount must be positive",
            Error::AmountNegative => "amount must be non-negative",
            Error::InsufficientBalance => "insufficient balance",
            Error::AllowanceExceeded => "allowance exceeded",
            Error::Overflow => "overflow",
            Error::Underflow => "underflow",
            Error::UseHasRoleView => "use has_role_view to check roles",
            Error::ThresholdNotPositive => "threshold must be positive",
            Error::InsufficientAdmins => "insufficient admins for threshold",
            Error::MalformedAddress => "malformed address",
            Error::RewardNotPositive => "reward_amount must be positive",
            Error::ExpirationNotInFuture => "expiration must be in the future",
            Error::NameTooLong => "name exceeds 64 bytes",
            Error::DescriptionTooLong => "description exceeds 256 bytes",
            Error::CampaignNotFound => "campaign not found",
            Error::UpgradeAlreadyProposed => "upgrade already proposed",
            Error::NoPendingProposal => "no pending proposal",
            Error::AlreadyAuthorized => "already authorized by this admin",
            Error::InsufficientAuthorizations => "insufficient authorizations",
            Error::TimelockNotMet => "timelock not met",
            Error::SignaturesFull => "too many signatures",
            Error::AlreadyClaimed => "already claimed",
            Error::CampaignNotActive => "campaign not active",
            Error::ArithmeticOverflow => "arithmetic overflow",
        }
    }
}

} // verus!
