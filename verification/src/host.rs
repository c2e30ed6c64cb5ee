//! The host values that the contracts work on: bytes and vectors that live in
//! the memory of the contract host, of which the library holds handles.
//!
//! The objects behind these handles never change: an operation that alters a
//! value makes a new object and lets the handle refer to it.

use vstd::prelude::*;

verus! {

/// `soroban_sdk::Env`, the handle of the contract host.
#[verifier::external_type_specification]
#[verifier::external_body]
pub struct ExEnv(soroban_sdk::Env);

/// `soroban_sdk::Bytes`, a sequence of bytes in the host.
#[verifier::external_type_specification]
#[verifier::external_body]
pub struct ExBytes(soroban_sdk::Bytes);

/// `soroban_sdk::Vec`, a vector in the host.
#[verifier::external_type_specification]
#[verifier::external_body]
#[verifier::reject_recursive_types(T)]
pub struct ExVec<T>(soroban_sdk::Vec<T>);

/// The bytes that a `soroban_sdk::Bytes` holds.
pub uninterp spec fn bytes_of(bytes: soroban_sdk::Bytes) -> Seq<u8>;

/// The items of a `soroban_sdk::Vec<u64>`, in order. A host vector is not
/// typed: an item that is no `u64` stands as `None`.
pub uninterp spec fn items_of(vector: soroban_sdk::Vec<u64>) -> Seq<Option<u64>>;

/// `soroban_sdk::Bytes::len` returns the number of bytes that are held.
pub assume_specification[ soroban_sdk::Bytes::len ](bytes: &soroban_sdk::Bytes) -> (n: u32)
    ensures
        n == bytes_of(*bytes).len(),
;

/// `soroban_sdk::Bytes::clone` returns a handle of the same object, which
/// holds the same bytes.
pub assume_specification[ <soroban_sdk::Bytes as Clone>::clone ](
    bytes: &soroban_sdk::Bytes,
) -> (copy: soroban_sdk::Bytes)
    ensures
        bytes_of(copy) == bytes_of(*bytes),
;

/// `soroban_sdk::Vec::new` returns a vector without items.
#[verifier::external_body]
pub(crate) fn vec_new(env: &soroban_sdk::Env) -> (vector: soroban_sdk::Vec<u64>)
    ensures
        items_of(vector) == Seq::<Option<u64>>::empty(),
{
    soroban_sdk::Vec::new(env)
}

/// `soroban_sdk::Vec::len` returns the number of items.
#[verifier::external_body]
pub(crate) fn vec_len(vector: &soroban_sdk::Vec<u64>) -> (n: u32)
    ensures
        n == items_of(*vector).len(),
{
    vector.len()
}

/// `soroban_sdk::Vec::try_get` returns the item at a position, no item for a
/// position behind the last one, and an error where the item cannot be
/// converted to `u64`, which is handed on as no item.
#[verifier::external_body]
pub(crate) fn vec_get(vector: &soroban_sdk::Vec<u64>, i: u32) -> (item: Option<u64>)
    ensures
        i < items_of(*vector).len() ==> item == items_of(*vector)[i as int],
        i >= items_of(*vector).len() ==> item is None,
{
    match vector.try_get(i) {
        Ok(item) => item,
        Err(_) => None,
    }
}

/// `soroban_sdk::Vec::push_back` adds an item behind the last one. The host
/// counts items with 32 bits.
#[verifier::external_body]
pub(crate) fn vec_push_back(vector: &mut soroban_sdk::Vec<u64>, item: u64)
    requires
        items_of(*old(vector)).len() < u32::MAX,
    ensures
        items_of(*final(vector)) == items_of(*old(vector)).push(Some(item)),
{
    vector.push_back(item)
}

} // verus!
