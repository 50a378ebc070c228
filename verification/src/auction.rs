//! The auction controller: create, read, edit and bid over the listing
//! store.

use crate::allocator::IdAllocator;
use crate::codec::{
    decode_listing, encode_listing, lemma_decode_encode, lemma_encoded_len, lengths_fit, record_len,
};
use crate::identity::Identity;
use crate::listing::{CreateListing, EditListing, Error, Listing, ListingView};
use crate::model::{below, created, edited, lemma_below_len, listing_ok, outbid, AuctionView};
use crate::stable::counted;
use crate::store::{listing_at, ListingStore, Written};
use vstd::prelude::*;

verus! {

/// The listings that `records` hold, by identifier.
pub open spec fn decoded(records: Map<u64, Seq<u8>>) -> Map<u64, ListingView> {
    Map::new(|id: u64| listing_at(records, id) is Some, |id: u64| listing_at(records, id)->0)
}

/// Whether everything in `records` is the record of a listing.
pub open spec fn all_records(records: Map<u64, Seq<u8>>) -> bool {
    forall|id: u64| records.contains_key(id) ==> decode_listing(#[trigger] records[id]) is Some
}

/// The ledger that `records` amount to: their listings, with the next
/// identifier right behind them.
pub open spec fn ledger_of(records: Map<u64, Seq<u8>>) -> AuctionView {
    AuctionView { listings: decoded(records), next_id: records.len() }
}

/// Whether `records` hold, under `id`, a listing that is in order.
pub open spec fn record_ok(records: Map<u64, Seq<u8>>, id: u64) -> bool {
    listing_at(records, id) is Some && listing_ok(id, listing_at(records, id)->0)
}

/// Whether `records` are what the operations of a ledger leave behind: the
/// identifiers are exactly those below the number of entries, and under each
/// is a listing in order.
pub open spec fn consistent(records: Map<u64, Seq<u8>>) -> bool {
    &&& forall|id: u64| records.contains_key(id) <==> id < records.len()
    &&& forall|id: u64| #[trigger] records.contains_key(id) ==> record_ok(records, id)
}

/// A set of `n` identifiers that holds every identifier below `n` holds
/// nothing else.
proof fn lemma_filled_prefix(ids: Set<u64>, n: u64)
    requires
        ids.finite(),
        ids.len() == n,
        forall|id: u64| id < n ==> ids.contains(id),
    ensures
        ids == below(n),
{
    lemma_below_len(n);
    assert(below(n).subset_of(ids));
    vstd::set_lib::lemma_subset_equality(below(n), ids);
}

/// The auction ledger: the listing store and the allocator of its
/// identifiers.
pub struct Auction {
    store: ListingStore,
    ids: IdAllocator,
}

impl View for Auction {
    type V = AuctionView;

    closed spec fn view(&self) -> AuctionView {
        AuctionView { listings: decoded(self.store@), next_id: self.ids@ as nat }
    }
}

impl Auction {
    /// The records in the ledger's store.
    pub closed spec fn records(&self) -> Map<u64, Seq<u8>> {
        self.store@
    }

    /// The invariant that every operation keeps: the store holds finitely
    /// many entries, each the record of a listing, and the ledger they
    /// amount to is in order.
    pub closed spec fn wf(&self) -> bool {
        &&& self.store@.dom().finite()
        &&& all_records(self.store@)
        &&& self@.wf()
    }

    /// A ledger in order has a view in order, made of its records.
    pub proof fn lemma_wf(&self)
        requires
            self.wf(),
        ensures
            self@.wf(),
            self@ == ledger_of(self.records()),
    {
        self.lemma_same_keys();
    }

    proof fn lemma_same_keys(&self)
        requires
            self.wf(),
        ensures
            decoded(self.store@).dom() == self.store@.dom(),
            self.store@.len() == self.ids@,
    {
        assert(decoded(self.store@).dom() =~= self.store@.dom());
    }

    /// A ledger with no listings, in the listings' region of stable
    /// memory. What the region held is discarded.
    ///
    /// One ledger at a time: a second one over the same memory would write
    /// into the first.
    pub fn new() -> (auction: Auction)
        ensures
            auction.wf(),
            auction@ == AuctionView::fresh(),
    {
        let auction = Auction { store: ListingStore::new(), ids: IdAllocator::new() };
        assert(auction@.listings =~= Map::<u64, ListingView>::empty());
        auction
    }

    /// The ledger that the listings' region of stable memory holds, so that
    /// a restart continues where the process left off. `None` where the
    /// region holds something that no sequence of operations leaves behind.
    ///
    /// One ledger at a time: a second one over the same memory would write
    /// into the first.
    pub fn open() -> (auction: Option<Auction>)
        ensures
            auction is Some ==> auction->0.wf(),
    {
        Auction::recover(ListingStore::load())
    }

    /// The ledger that `store` amounts to. The next identifier is the number
    /// of listings stored, which is where the allocator stood when the
    /// store was left.
    ///
    /// `None` exactly where the store is not one that the operations of a
    /// ledger leave behind: see [`consistent`].
    pub fn recover(store: ListingStore) -> (auction: Option<Auction>)
        ensures
            auction is Some <==> consistent(store@),
            auction is Some ==> auction->0.wf() && auction->0.records() == store@ && auction->0@
                == ledger_of(store@),
    {
        let n = store.count();
        let mut id: u64 = 0;
        while id < n
            invariant
                id <= n,
                counted(store@, n),
                forall|k: u64| k < id ==> record_ok(store@, k),
            decreases n - id,
        {
            match store.get(id) {
                Some(listing) => {
                    if listing.id != id || listing.current_price < listing.starting_price
                        || !listing.fits() {
                        assert(!record_ok(store@, id));
                        return None;
                    }
                },
                None => {
                    assert(!record_ok(store@, id));
                    return None;
                },
            }
            id += 1;
        }
        proof {
            assert forall|k: u64| k < n implies store@.dom().contains(k) by {
                assert(record_ok(store@, k));
            }
            lemma_filled_prefix(store@.dom(), n);
            assert forall|k: u64| #[trigger] store@.contains_key(k) implies record_ok(store@, k) by {
                assert(below(n).contains(k));
            }
            assert forall|k: u64| store@.contains_key(k) implies decode_listing(
                #[trigger] store@[k],
            ) is Some by {
                assert(record_ok(store@, k));
            }
            assert(decoded(store@).dom() =~= store@.dom());
        }
        Some(Auction { store, ids: IdAllocator::resume(n) })
    }

    /// Gives up the ledger and hands out its store.
    pub fn into_store(self) -> (store: ListingStore)
        ensures
            store@ == self.records(),
    {
        self.store
    }

    /// The listing under `id`, or `None` where `id` is unknown. Anyone may
    /// read.
    pub fn get_listing(&self, id: u64) -> (listing: Option<Listing>)
        ensures
            match listing {
                Some(l) => self@.read(id) == Some(l@),
                None => self@.read(id) is None,
            },
    {
        self.store.get(id)
    }

    /// The number of listings.
    pub fn get_listing_count(&self) -> (n: u64)
        requires
            self.wf(),
        ensures
            n == self@.count(),
    {
        proof {
            self.lemma_same_keys();
        }
        self.store.count()
    }

    /// Whether `create_listing` can serve this request: see
    /// [`AuctionView::can_create`].
    pub fn can_create(&self, input: &CreateListing, caller: &Identity) -> (can: bool)
        ensures
            can == self@.can_create(input@, caller@),
    {
        if self.ids.peek() == u64::MAX {
            return false;
        }
        lengths_fit(
            caller.as_bytes().len(),
            input.title.as_str().as_bytes().len(),
            input.description.as_str().as_bytes().len(),
        )
    }

    /// Creates a listing owned by `caller`: it gets the next identifier,
    /// its current price is the starting price, and it is not sold. Returns
    /// the listing as stored.
    pub fn create_listing(&mut self, input: CreateListing, caller: Identity) -> (listing: Listing)
        requires
            old(self).wf(),
            old(self)@.can_create(input@, caller@),
        ensures
            final(self).wf(),
            final(self)@ == old(self)@.create(input@, caller@),
            listing@ == created(old(self)@.next_id as u64, input@, caller@),
    {
        let id = self.ids.next();
        let listing = Listing {
            id,
            title: input.title,
            description: input.description,
            starting_price: input.starting_price,
            current_price: input.starting_price,
            sold: false,
            owner: caller,
        };
        self.store.put(id, &listing);
        proof {
            old(self).lemma_same_keys();
            lemma_encoded_len(listing@);
            lemma_decode_encode(listing@);
            assert(decoded(self.store@) =~= decoded(old(self).store@).insert(id, listing@));
            assert(self.store@.dom() =~= old(self).store@.dom().insert(id));
            assert(decoded(self.store@).dom() =~= self.store@.dom());
        }
        listing
    }

    /// Creates a listing where `create_listing` can serve the request, and
    /// otherwise changes nothing and returns `None`.
    pub fn try_create_listing(&mut self, input: CreateListing, caller: Identity) -> (listing:
        Option<Listing>)
        requires
            old(self).wf(),
        ensures
            final(self).wf(),
            listing is Some <==> old(self)@.can_create(input@, caller@),
            listing is Some ==> final(self)@ == old(self)@.create(input@, caller@) && listing->0@
                == created(old(self)@.next_id as u64, input@, caller@),
            listing is None ==> final(self)@ == old(self)@,
    {
        if self.can_create(&input, &caller) {
            Some(self.create_listing(input, caller))
        } else {
            None
        }
    }

    /// Changes the title, the description and the sold flag of the listing
    /// under `id`, for its owner.
    ///
    /// Fails with `ListingNotFound` where `id` is unknown, with
    /// `AccessRejected` where `caller` is not the owner, and with
    /// `UpdateError` where the store does not take the edited listing, which
    /// is when its record would be too long. A failed edit changes nothing.
    pub fn edit_listing(&mut self, id: u64, input: EditListing, caller: &Identity) -> (result:
        Result<(), Error>)
        requires
            old(self).wf(),
        ensures
            final(self).wf(),
            result == old(self)@.edit_result(id, input@, caller@),
            final(self)@ == old(self)@.edit(id, input@, caller@),
    {
        let existing = match self.store.get(id) {
            Some(listing) => listing,
            None => {
                return Err(Error::ListingNotFound);
            },
        };
        if !caller.same(&existing.owner) {
            return Err(Error::AccessRejected);
        }
        let value = Listing {
            id: existing.id,
            title: input.title,
            description: input.description,
            starting_price: existing.starting_price,
            current_price: existing.current_price,
            sold: input.sold,
            owner: existing.owner,
        };
        assert(value@ == edited(existing@, input@));
        match self.store.put(id, &value) {
            Written::Replaced => {
                proof {
                    old(self).lemma_replaced(*self, id, value@);
                }
                Ok(())
            },
            _ => Err(Error::UpdateError),
        }
    }

    /// Raises the current price of the listing under `id` to `price`.
    ///
    /// Fails with `ListingNotFound` where `id` is unknown, with
    /// `ListingAlreadySold` where the listing is flagged sold, and with
    /// `MinimalPriceNotMet` where `price` does not exceed the current price.
    /// A failed bid changes nothing. Any caller may bid, the owner included.
    pub fn bid(&mut self, id: u64, price: u64, _caller: &Identity) -> (result: Result<(), Error>)
        requires
            old(self).wf(),
        ensures
            final(self).wf(),
            result == old(self)@.bid_result(id, price),
            final(self)@ == old(self)@.bid(id, price),
    {
        let mut listing = match self.store.get(id) {
            Some(listing) => listing,
            None => {
                return Err(Error::ListingNotFound);
            },
        };
        if listing.sold {
            return Err(Error::ListingAlreadySold);
        }
        if price <= listing.current_price {
            return Err(Error::MinimalPriceNotMet);
        }
        let ghost before = listing@;
        listing.current_price = price;
        assert(listing@ == outbid(before, price));
        proof {
            self.lemma_same_keys();
            assert(self@.listings[id] == before);
            assert(record_len(listing@) == record_len(before));
        }
        self.store.put(id, &listing);
        proof {
            old(self).lemma_replaced(*self, id, listing@);
        }
        Ok(())
    }

    /// What replacing the listing under a known identifier does to a ledger
    /// in order.
    proof fn lemma_replaced(&self, after: Auction, id: u64, v: ListingView)
        requires
            self.wf(),
            self.store@.contains_key(id),
            listing_ok(id, v),
            after.ids == self.ids,
            after.store@ == self.store@.insert(id, encode_listing(v)),
        ensures
            after.wf(),
            after@ == (AuctionView { listings: self@.listings.insert(id, v), ..self@ }),
    {
        self.lemma_same_keys();
        lemma_encoded_len(v);
        lemma_decode_encode(v);
        assert(after.store@.dom() =~= self.store@.dom());
        assert(decoded(after.store@) =~= decoded(self.store@).insert(id, v));
        assert(after@.listings.dom() =~= self@.listings.dom());
    }
}

} // verus!
