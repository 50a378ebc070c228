//! The listing store: a durable map from identifiers to listings.

use crate::codec::{decode_listing, encode_listing, lemma_encoded_len, record_len};
use crate::listing::{Listing, ListingView};
use crate::stable::{counted, stored, value_at, RecordMap, MAX_VALUE_LEN};
use vstd::prelude::*;

verus! {

/// Region of stable memory that holds the listings.
pub const LISTING_REGION: u8 = 0;

/// A durable map from identifiers to listings, each kept as its record.
///
/// The store guards no invariant of the auction: it returns what it holds
/// and stores what it is given.
pub struct ListingStore {
    records: RecordMap,
}

/// How a write to the store ended.
#[derive(Debug, Clone, Copy, PartialEq, Eq, Structural)]
pub enum Written {
    /// The identifier was unknown; the listing is now stored under it.
    Inserted,
    /// The identifier was known; the listing replaced what it held.
    Replaced,
    /// The listing's record is too long to store; nothing was written.
    TooLarge,
}

/// The listing that `records` hold under `id`: `None` where the identifier
/// is unknown, and also where what is stored under it is not a record.
pub open spec fn listing_at(records: Map<u64, Seq<u8>>, id: u64) -> Option<ListingView> {
    match value_at(records, id) {
        Some(b) => decode_listing(b),
        None => None,
    }
}

impl View for ListingStore {
    type V = Map<u64, Seq<u8>>;

    /// The records in the store, by identifier.
    closed spec fn view(&self) -> Map<u64, Seq<u8>> {
        stored(self.records)
    }
}

impl ListingStore {
    /// An empty store in the listings' region, replacing what the region
    /// held.
    pub fn new() -> (store: ListingStore)
        ensures
            store@ == Map::<u64, Seq<u8>>::empty(),
    {
        let store = ListingStore { records: RecordMap::create(LISTING_REGION) };
        assert(store@ =~= Map::<u64, Seq<u8>>::empty());
        store
    }

    /// The store that the listings' region holds, or an empty one where it
    /// holds none. What comes back depends on the memory alone.
    pub fn load() -> (store: ListingStore) {
        ListingStore { records: RecordMap::load(LISTING_REGION) }
    }

    /// The listing stored under `id`.
    pub fn get(&self, id: u64) -> (listing: Option<Listing>)
        ensures
            match listing {
                Some(l) => listing_at(self@, id) == Some(l@),
                None => listing_at(self@, id) is None,
            },
    {
        match self.records.get(id) {
            Some(bytes) => Listing::from_bytes(bytes.as_slice()),
            None => None,
        }
    }

    /// Stores `listing` under `id`, in place of what `id` held.
    pub fn put(&mut self, id: u64, listing: &Listing) -> (written: Written)
        ensures
            written == Written::TooLarge <==> record_len(listing@) > MAX_VALUE_LEN,
            written == Written::Replaced <==> record_len(listing@) <= MAX_VALUE_LEN && old(
                self,
            )@.contains_key(id),
            written == Written::TooLarge ==> final(self)@ == old(self)@,
            written != Written::TooLarge ==> final(self)@ == old(self)@.insert(
                id,
                encode_listing(listing@),
            ),
    {
        if !listing.fits() {
            return Written::TooLarge;
        }
        let bytes = listing.to_bytes();
        proof {
            lemma_encoded_len(listing@);
        }
        match self.records.insert(id, bytes) {
            Some(_) => Written::Replaced,
            None => Written::Inserted,
        }
    }

    /// The number of listings stored.
    pub fn count(&self) -> (n: u64)
        ensures
            counted(self@, n),
    {
        self.records.len()
    }
}

} // verus!
