//! A verified loyalty programme: a role-controlled token, the campaigns that
//! merchants run, and the rewards that users claim from them.
//!
//! Each contract is a value that holds its ledger entries. Its methods decide
//! what one invocation does to those entries, which events it publishes, and
//! with which error it is refused. Reading the ledger, checking signatures and
//! publishing are left to the contract shells that call this library.

pub mod address;
pub mod campaign;
pub mod campaign_laws;
pub mod error;
pub mod host;
pub mod invocation;
pub mod program_laws;
pub mod rewards;
pub mod rewards_laws;
pub mod table;
pub mod token;
pub mod token_laws;
