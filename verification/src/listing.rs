//! Listings, the requests that shape them, and the ways a request can fail.

use crate::identity::Identity;
use vstd::prelude::*;

verus! {

/// One item for sale.
#[derive(Debug, Clone, PartialEq, Eq)]
pub struct Listing {
    /// Key of the listing in the store; assigned at creation.
    pub id: u64,
    pub title: String,
    pub description: String,
    /// Price the listing was created with.
    pub starting_price: u64,
    /// Highest accepted bid so far, or the starting price if there is none.
    pub current_price: u64,
    /// While set, no bid is accepted.
    pub sold: bool,
    /// Identity that created the listing; the only one that may edit it.
    pub owner: Identity,
}

/// What a listing is, as mathematical values.
pub struct ListingView {
    pub id: u64,
    pub title: Seq<char>,
    pub description: Seq<char>,
    pub starting_price: u64,
    pub current_price: u64,
    pub sold: bool,
    pub owner: Seq<u8>,
}

impl View for Listing {
    type V = ListingView;

    open spec fn view(&self) -> ListingView {
        ListingView {
            id: self.id,
            title: self.title@,
            description: self.description@,
            starting_price: self.starting_price,
            current_price: self.current_price,
            sold: self.sold,
            owner: self.owner@,
        }
    }
}

/// What a caller supplies to create a listing. Identifier, owner and price
/// state are derived by the ledger, never taken from the request.
#[derive(Debug, Clone, PartialEq, Eq)]
pub struct CreateListing {
    pub title: String,
    pub description: String,
    pub starting_price: u64,
}

/// A creation request as mathematical values.
pub struct CreateListingView {
    pub title: Seq<char>,
    pub description: Seq<char>,
    pub starting_price: u64,
}

impl View for CreateListing {
    type V = CreateListingView;

    open spec fn view(&self) -> CreateListingView {
        CreateListingView {
            title: self.title@,
            description: self.description@,
            starting_price: self.starting_price,
        }
    }
}

/// What an owner supplies to edit a listing. Prices and ownership cannot be
/// expressed in it.
#[derive(Debug, Clone, PartialEq, Eq)]
pub struct EditListing {
    pub title: String,
    pub description: String,
    pub sold: bool,
}

/// An edit request as mathematical values.
pub struct EditListingView {
    pub title: Seq<char>,
    pub description: Seq<char>,
    pub sold: bool,
}

impl View for EditListing {
    type V = EditListingView;

    open spec fn view(&self) -> EditListingView {
        EditListingView { title: self.title@, description: self.description@, sold: self.sold }
    }
}

/// Why a request was turned down. None of these is fatal.
#[derive(Debug, Clone, Copy, PartialEq, Eq, Structural)]
pub enum Error {
    /// The caller is not the owner of the listing.
    AccessRejected,
    /// No listing has the given identifier.
    ListingNotFound,
    /// The bid does not exceed the current price.
    MinimalPriceNotMet,
    /// The listing is flagged as sold.
    ListingAlreadySold,
    /// The store did not apply a write that had passed validation.
    UpdateError,
}

} // verus!
