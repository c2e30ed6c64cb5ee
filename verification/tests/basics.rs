use soroban_loyalty::address::Address;
use soroban_loyalty::error::Error;
use soroban_loyalty::invocation::{Event, Invocation};
use soroban_loyalty::table::{Key, Table};
use soroban_loyalty::token;
use soroban_sdk::Env;

#[test]
fn errors_have_their_texts() {
    let texts = [
        (Error::AlreadyInitialized, "already initialized"),
        (Error::NotInitialized, "not initialized"),
        (Error::NotAuthorized, "not authorized"),
        (Error::MissingRole, "missing role"),
        (Error::ContractPaused, "contract is paused"),
        (Error::AmountNotPositive, "amount must be positive"),
        (Error::AmountNegative, "amount must be non-negative"),
        (Error::InsufficientBalance, "insufficient balance"),
        (Error::AllowanceExceeded, "allowance exceeded"),
        (Error::Overflow, "overflow"),
        (Error::Underflow, "underflow"),
        (Error::UseHasRoleView, "use has_role_view to check roles"),
        (Error::ThresholdNotPositive, "threshold must be positive"),
        (Error::InsufficientAdmins, "insufficient admins for threshold"),
        (Error::MalformedAddress, "malformed address"),
        (Error::RewardNotPositive, "reward_amount must be positive"),
        (Error::ExpirationNotInFuture, "expiration must be in the future"),
        (Error::NameTooLong, "name exceeds 64 bytes"),
        (Error::DescriptionTooLong, "description exceeds 256 bytes"),
        (Error::CampaignNotFound, "campaign not found"),
        (Error::UpgradeAlreadyProposed, "upgrade already proposed"),
        (Error::NoPendingProposal, "no pending proposal"),
        (Error::AlreadyAuthorized, "already authorized by this admin"),
        (Error::InsufficientAuthorizations, "insufficient authorizations"),
        (Error::TimelockNotMet, "timelock not met"),
        (Error::SignaturesFull, "too many signatures"),
        (Error::AlreadyClaimed, "already claimed"),
        (Error::CampaignNotActive, "campaign not active"),
        (Error::ArithmeticOverflow, "arithmetic overflow"),
    ];
    for (error, text) in texts {
        assert_eq!(error.message(), text);
    }
}

#[test]
fn tables_keep_one_value_for_each_key() {
    let mut table: Table<(Address, u64), i128> = Table::new();
    let a = Address { id: 1 };
    let b = Address { id: 2 };
    assert_eq!(table.get((a, 1)), None);
    table.set((a, 1), 10);
    table.set((a, 2), 20);
    table.set((b, 1), 30);
    table.set((a, 1), 11);
    assert_eq!(table.get((a, 1)), Some(&11));
    assert_eq!(table.get((a, 2)), Some(&20));
    assert_eq!(table.get((b, 1)), Some(&30));
    table.remove((a, 1));
    table.remove((b, 2));
    assert_eq!(table.get((a, 1)), None);
    assert_eq!(table.get((a, 2)), Some(&20));
    assert_eq!(table.get((b, 1)), Some(&30));
}

#[test]
fn keys_are_the_same_when_all_parts_are() {
    let a = Address { id: 1 };
    let b = Address { id: 2 };
    assert!((a, 7).same(&(a, 7)));
    assert!(!(a, 7).same(&(b, 7)));
    assert!(!(a, 7).same(&(a, 8)));
}

#[test]
fn invocations_know_their_signers() {
    let signer = Address { id: 4 };
    let contract = Address { id: 5 };
    let mut invocation = Invocation::new(Env::default(), contract, 9, vec![signer]);
    assert!(invocation.is_authorized(signer));
    assert!(!invocation.is_authorized(contract));
    invocation.publish(Event::Token(token::Event::Paused { pauser: signer }));
    assert_eq!(invocation.events.len(), 1);
    assert_eq!(invocation.events[0].contract, contract);
    assert_eq!(invocation.now, 9);
}
