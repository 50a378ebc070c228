//! Identifiers at the boundary.
//!
//! Inside the ledger identifiers start at zero. Callers outside count
//! listings from one. These two functions are the only place where one
//! numbering becomes the other.

use vstd::prelude::*;

verus! {

/// The identifier that the outside key `key` names: one less, and none for
/// the key zero, which names no listing.
pub open spec fn internal_of(key: u64) -> Option<u64> {
    if key == 0 {
        None
    } else {
        Some((key - 1) as u64)
    }
}

/// The outside key of the identifier `id`: one more, and none for the last
/// identifier, whose key does not fit.
pub open spec fn external_of(id: u64) -> Option<u64> {
    if id == u64::MAX {
        None
    } else {
        Some((id + 1) as u64)
    }
}

/// Turns an outside key into an identifier.
pub fn internal_id(key: u64) -> (id: Option<u64>)
    ensures
        id == internal_of(key),
{
    if key == 0 {
        None
    } else {
        Some(key - 1)
    }
}

/// Turns an identifier into an outside key.
pub fn external_key(id: u64) -> (key: Option<u64>)
    ensures
        key == external_of(id),
{
    if id == u64::MAX {
        None
    } else {
        Some(id + 1)
    }
}

/// The two numberings are each other's inverse wherever both are defined:
/// a key that names an identifier is that identifier's key, and the key of
/// an identifier names it.
pub proof fn lemma_keys_round_trip(id: u64, key: u64)
    ensures
        external_of(id) == Some(key) <==> internal_of(key) == Some(id),
{
}

} // verus!
