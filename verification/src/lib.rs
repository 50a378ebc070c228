//! A persistent auction ledger.
//!
//! Listings live in a stable B-tree map keyed by a dense, zero-based
//! identifier. The controller in [`auction`] enforces who may change a
//! listing and how its price may move; every operation is a function of the
//! ledger state, the request and the caller's identity.

pub mod stable;
pub mod identity;
pub mod listing;
pub mod codec;
pub mod store;
pub mod allocator;
pub mod model;
pub mod auction;
pub mod keys;
pub mod laws;
