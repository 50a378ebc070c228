//! The durable key-value primitive.
//!
//! Everything in this file is believed, not proved: it states what the stable
//! B-tree map of `ic-stable-structures` does, over a mathematical map from
//! keys to the bytes stored under them.

use ic_stable_structures::memory_manager::{MemoryId, MemoryManager, VirtualMemory};
use ic_stable_structures::{DefaultMemoryImpl, StableBTreeMap};
use vstd::prelude::*;

verus! {

/// Longest value, in bytes, that the map stores intact. A node records the
/// length of each value in four bytes, so a longer value would be cut short.
pub const MAX_VALUE_LEN: u64 = 0xFFFF_FFFF;

/// Number of memory regions the memory manager hands out; region ids are
/// `0 .. REGION_COUNT`.
pub const REGION_COUNT: u8 = 255;

/// A stable B-tree map from `u64` keys to byte strings, held in one region of
/// the default stable memory.
///
/// Opaque to the verifier: the map's type is bounded by traits of
/// `ic-stable-structures`, so it is kept in a private field and described
/// through [`stored`].
///
/// What is claimed of a map holds while it is the only one over its region.
/// On a canister every map made for a region shares that region's memory,
/// and writes through one would change what another holds.
#[verifier::external_body]
pub struct RecordMap {
    inner: StableBTreeMap<u64, Vec<u8>, VirtualMemory<DefaultMemoryImpl>>,
}

/// The key-value pairs that a map currently holds.
pub uninterp spec fn stored(records: RecordMap) -> Map<u64, Seq<u8>>;

/// What a lookup of `key` in `records` yields.
pub open spec fn value_at(records: Map<u64, Seq<u8>>, key: u64) -> Option<Seq<u8>> {
    if records.contains_key(key) {
        Some(records[key])
    } else {
        None
    }
}

/// `n` is the number of pairs in `records`, which are finitely many.
pub open spec fn counted(records: Map<u64, Seq<u8>>, n: u64) -> bool {
    records.dom().finite() && records.len() == n
}

/// The byte string behind an optional vector.
pub open spec fn bytes_of(value: Option<Vec<u8>>) -> Option<Seq<u8>> {
    match value {
        Some(v) => Some(v@),
        None => None,
    }
}

impl RecordMap {
    /// Calls `StableBTreeMap::new` on region `region` of a memory manager
    /// set up by `MemoryManager::init` over `DefaultMemoryImpl::default()`.
    ///
    /// Claims that the new map is empty, whatever the region held before.
    /// `MemoryId::new` rejects the id 255, which the precondition excludes.
    #[verifier::external_body]
    pub(crate) fn create(region: u8) -> (fresh: RecordMap)
        requires
            region < REGION_COUNT,
        ensures
            stored(fresh).dom() == Set::<u64>::empty(),
    {
        let manager = MemoryManager::init(DefaultMemoryImpl::default());
        RecordMap { inner: StableBTreeMap::new(manager.get(MemoryId::new(region))) }
    }

    /// Calls `StableBTreeMap::init` on region `region` of a memory manager
    /// set up by `MemoryManager::init` over `DefaultMemoryImpl::default()`.
    ///
    /// Loads the map that the region holds, or starts an empty one. Nothing
    /// is claimed about the contents: they are whatever the memory held.
    #[verifier::external_body]
    pub(crate) fn load(region: u8) -> (loaded: RecordMap)
        requires
            region < REGION_COUNT,
    {
        let manager = MemoryManager::init(DefaultMemoryImpl::default());
        RecordMap { inner: StableBTreeMap::init(manager.get(MemoryId::new(region))) }
    }

    /// Calls `StableBTreeMap::get`.
    ///
    /// Claims that the result is the value stored under `key`, or `None`
    /// where the map has no such key.
    #[verifier::external_body]
    pub(crate) fn get(&self, key: u64) -> (value: Option<Vec<u8>>)
        ensures
            bytes_of(value) == value_at(stored(*self), key),
    {
        self.inner.get(&key)
    }

    /// Calls `StableBTreeMap::insert`.
    ///
    /// Claims that afterwards `key` maps to `value` and every other key is
    /// as before, and that the result is the value that `key` had, if any.
    /// The call panics when stable memory cannot grow; that depends on the
    /// host and is not expressed here.
    #[verifier::external_body]
    pub(crate) fn insert(&mut self, key: u64, value: Vec<u8>) -> (previous: Option<Vec<u8>>)
        requires
            value@.len() <= MAX_VALUE_LEN,
        ensures
            stored(*final(self)) == stored(*old(self)).insert(key, value@),
            bytes_of(previous) == value_at(stored(*old(self)), key),
    {
        self.inner.insert(key, value)
    }

    /// Calls `StableBTreeMap::len`.
    ///
    /// Claims that the result is the number of keys in the map.
    #[verifier::external_body]
    pub(crate) fn len(&self) -> (n: u64)
        ensures
            counted(stored(*self), n),
    {
        self.inner.len()
    }
}

} // verus!
