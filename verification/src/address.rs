//! The identity of an account or of a contract.

use vstd::prelude::*;

use crate::table::Key;

verus! {

/// An account or a contract. Two addresses are the same exactly when their
/// ids are.
#[derive(Clone, Copy, Debug, PartialEq, Eq, Structural)]
pub struct Address {
    pub id: u64,
}

impl Key for Address {
    fn same(&self, other: &Self) -> (r: bool) {
        self.id == other.id
    }
}

} // verus!
