//! The ledger as a mathematical value, and what each operation does to it.
//!
//! The executable controller is specified against these functions, and the
//! laws of the ledger are proved about them.

use crate::codec::record_len;
use crate::listing::{CreateListingView, EditListingView, Error, ListingView};
use crate::stable::MAX_VALUE_LEN;
use vstd::prelude::*;

verus! {

/// The ledger: the listings by identifier, and the identifier that the next
/// listing will get.
pub struct AuctionView {
    pub listings: Map<u64, ListingView>,
    pub next_id: nat,
}

/// What holds of every listing `v` stored under `id`: it carries its own
/// identifier, its price has not fallen below the starting price, and its
/// record is short enough to store.
pub open spec fn listing_ok(id: u64, v: ListingView) -> bool {
    &&& v.id == id
    &&& v.current_price >= v.starting_price
    &&& record_len(v) <= MAX_VALUE_LEN
}

/// The listing that a creation request yields under identifier `id`.
pub open spec fn created(id: u64, input: CreateListingView, caller: Seq<u8>) -> ListingView {
    ListingView {
        id,
        title: input.title,
        description: input.description,
        starting_price: input.starting_price,
        current_price: input.starting_price,
        sold: false,
        owner: caller,
    }
}

/// A listing after an edit: title, description and sold flag come from the
/// request, everything else stays.
pub open spec fn edited(v: ListingView, input: EditListingView) -> ListingView {
    ListingView { title: input.title, description: input.description, sold: input.sold, ..v }
}

/// A listing after an accepted bid: only the current price changes.
pub open spec fn outbid(v: ListingView, price: u64) -> ListingView {
    ListingView { current_price: price, ..v }
}

/// The identifiers below `n`.
pub open spec fn below(n: u64) -> Set<u64> {
    Set::new(|id: u64| id < n)
}

/// There are exactly `n` identifiers below `n`.
pub proof fn lemma_below_len(n: u64)
    ensures
        below(n).finite(),
        below(n).len() == n,
    decreases n,
{
    if n == 0 {
        assert(below(n) =~= Set::<u64>::empty());
    } else {
        let m = (n - 1) as u64;
        lemma_below_len(m);
        assert(below(n) =~= below(m).insert(m));
    }
}

/// A creation request together with the identity that makes it.
pub type Request = (CreateListingView, Seq<u8>);

impl AuctionView {
    /// The ledger before anything was created.
    pub open spec fn fresh() -> AuctionView {
        AuctionView { listings: Map::empty(), next_id: 0 }
    }

    /// The invariant of the ledger: identifiers are dense from zero, and
    /// every listing is in order.
    pub open spec fn wf(self) -> bool {
        &&& self.next_id <= u64::MAX
        &&& self.listings.dom().finite()
        &&& self.listings.len() == self.next_id
        &&& forall|id: u64| self.listings.contains_key(id) <==> id < self.next_id
        &&& forall|id: u64|
            self.listings.contains_key(id) ==> listing_ok(id, #[trigger] self.listings[id])
    }

    /// The number of listings.
    pub open spec fn count(self) -> nat {
        self.listings.len()
    }

    /// The listing under `id`, if there is one.
    pub open spec fn read(self, id: u64) -> Option<ListingView> {
        if self.listings.contains_key(id) {
            Some(self.listings[id])
        } else {
            None
        }
    }

    /// Whether a creation request can be served: an identifier is left, and
    /// the new listing's record is short enough to store.
    pub open spec fn can_create(self, input: CreateListingView, caller: Seq<u8>) -> bool {
        &&& self.next_id < u64::MAX
        &&& record_len(created(self.next_id as u64, input, caller)) <= MAX_VALUE_LEN
    }

    /// The ledger after a creation.
    pub open spec fn create(self, input: CreateListingView, caller: Seq<u8>) -> AuctionView {
        AuctionView {
            listings: self.listings.insert(
                self.next_id as u64,
                created(self.next_id as u64, input, caller),
            ),
            next_id: self.next_id + 1,
        }
    }

    /// How an edit request ends. The checks come in this order: the listing
    /// exists; the caller owns it; the edited record can be stored.
    pub open spec fn edit_result(
        self,
        id: u64,
        input: EditListingView,
        caller: Seq<u8>,
    ) -> Result<(), Error> {
        if !self.listings.contains_key(id) {
            Err(Error::ListingNotFound)
        } else if self.listings[id].owner != caller {
            Err(Error::AccessRejected)
        } else if record_len(edited(self.listings[id], input)) > MAX_VALUE_LEN {
            Err(Error::UpdateError)
        } else {
            Ok(())
        }
    }

    /// The ledger after an edit request: changed where the request is
    /// accepted, as before where it is not.
    pub open spec fn edit(self, id: u64, input: EditListingView, caller: Seq<u8>) -> AuctionView {
        if self.edit_result(id, input, caller) is Ok {
            AuctionView {
                listings: self.listings.insert(id, edited(self.listings[id], input)),
                ..self
            }
        } else {
            self
        }
    }

    /// How a bid ends. The checks come in this order: the listing exists; it
    /// is not sold; the price exceeds the current price. Who bids plays no
    /// part.
    pub open spec fn bid_result(self, id: u64, price: u64) -> Result<(), Error> {
        if !self.listings.contains_key(id) {
            Err(Error::ListingNotFound)
        } else if self.listings[id].sold {
            Err(Error::ListingAlreadySold)
        } else if price <= self.listings[id].current_price {
            Err(Error::MinimalPriceNotMet)
        } else {
            Ok(())
        }
    }

    /// The ledger after a bid: changed where the bid is accepted, as before
    /// where it is not.
    pub open spec fn bid(self, id: u64, price: u64) -> AuctionView {
        if self.bid_result(id, price) is Ok {
            AuctionView { listings: self.listings.insert(id, outbid(self.listings[id], price)), ..self }
        } else {
            self
        }
    }

    /// The ledger after the bids `prices` on the listing under `id`, made
    /// one after the other.
    pub open spec fn bids(self, id: u64, prices: Seq<u64>) -> AuctionView
        decreases prices.len(),
    {
        if prices.len() == 0 {
            self
        } else {
            self.bids(id, prices.drop_last()).bid(id, prices.last())
        }
    }

    /// The ledger after the creations `requests`, made one after the other.
    pub open spec fn creates(self, requests: Seq<Request>) -> AuctionView
        decreases requests.len(),
    {
        if requests.len() == 0 {
            self
        } else {
            let before = self.creates(requests.drop_last());
            before.create(requests.last().0, requests.last().1)
        }
    }
}

} // verus!
