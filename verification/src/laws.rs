//! What holds of every ledger, proved over the model in [`crate::model`].

use crate::codec::record_len;
use crate::listing::{EditListingView, Error, ListingView};
use crate::model::{below, created, lemma_below_len, outbid, AuctionView, Request};
use vstd::prelude::*;

verus! {

/// Only the owner edits. An edit asked for by anyone else is turned down
/// with `AccessRejected` and leaves the ledger as it was.
pub proof fn lemma_only_owner_edits(
    state: AuctionView,
    id: u64,
    input: EditListingView,
    caller: Seq<u8>,
)
    requires
        state.listings.contains_key(id),
        caller != state.listings[id].owner,
    ensures
        state.edit_result(id, input, caller) == Err::<(), Error>(Error::AccessRejected),
        state.edit(id, input, caller) == state,
{
}

/// An edit never touches the identifier, the starting price, the current
/// price or the owner of a listing, whatever the request and whoever asks.
pub proof fn lemma_edit_keeps_prices_and_owner(
    state: AuctionView,
    id: u64,
    input: EditListingView,
    caller: Seq<u8>,
)
    requires
        state.listings.contains_key(id),
    ensures
        state.edit(id, input, caller).listings.contains_key(id),
        state.edit(id, input, caller).listings[id].id == state.listings[id].id,
        state.edit(id, input, caller).listings[id].starting_price
            == state.listings[id].starting_price,
        state.edit(id, input, caller).listings[id].current_price
            == state.listings[id].current_price,
        state.edit(id, input, caller).listings[id].owner == state.listings[id].owner,
{
}

/// An edit touches no listing but the one it names.
pub proof fn lemma_edit_is_local(
    state: AuctionView,
    id: u64,
    input: EditListingView,
    caller: Seq<u8>,
    other: u64,
)
    requires
        other != id,
    ensures
        state.edit(id, input, caller).read(other) == state.read(other),
        state.edit(id, input, caller).next_id == state.next_id,
{
}

/// A bid that does not exceed the current price of an unsold listing is
/// turned down with `MinimalPriceNotMet` and leaves the ledger as it was.
pub proof fn lemma_low_bid_rejected(state: AuctionView, id: u64, price: u64)
    requires
        state.listings.contains_key(id),
        !state.listings[id].sold,
        price <= state.listings[id].current_price,
    ensures
        state.bid_result(id, price) == Err::<(), Error>(Error::MinimalPriceNotMet),
        state.bid(id, price) == state,
{
}

/// An accepted bid raises the current price to the price bid, which is
/// higher than before, and changes nothing else about the listing.
pub proof fn lemma_accepted_bid_raises_price(state: AuctionView, id: u64, price: u64)
    requires
        state.bid_result(id, price) is Ok,
    ensures
        state.listings.contains_key(id),
        price > state.listings[id].current_price,
        state.bid(id, price).listings[id] == outbid(state.listings[id], price),
{
}

/// A bid touches no listing but the one it names.
pub proof fn lemma_bid_is_local(state: AuctionView, id: u64, price: u64, other: u64)
    requires
        other != id,
    ensures
        state.bid(id, price).read(other) == state.read(other),
        state.bid(id, price).next_id == state.next_id,
{
}

/// Across any sequence of bids on a listing, accepted or not, the current
/// price never falls, and nothing but the current price changes.
pub proof fn lemma_price_never_falls(state: AuctionView, id: u64, prices: Seq<u64>)
    requires
        state.listings.contains_key(id),
    ensures
        state.bids(id, prices).listings.contains_key(id),
        state.bids(id, prices).listings[id].current_price >= state.listings[id].current_price,
        state.bids(id, prices).listings[id] == outbid(
            state.listings[id],
            state.bids(id, prices).listings[id].current_price,
        ),
    decreases prices.len(),
{
    if prices.len() > 0 {
        lemma_price_never_falls(state, id, prices.drop_last());
    }
}

/// While a listing is flagged sold, every bid on it is turned down with
/// `ListingAlreadySold`, whatever the price, and leaves the ledger as it
/// was.
pub proof fn lemma_sold_rejects_bid(state: AuctionView, id: u64, price: u64)
    requires
        state.listings.contains_key(id),
        state.listings[id].sold,
    ensures
        state.bid_result(id, price) == Err::<(), Error>(Error::ListingAlreadySold),
        state.bid(id, price) == state,
{
}

/// No sequence of bids gets past the sold flag: the ledger stays as it was.
pub proof fn lemma_sold_outlasts_bids(state: AuctionView, id: u64, prices: Seq<u64>)
    requires
        state.listings.contains_key(id),
        state.listings[id].sold,
    ensures
        state.bids(id, prices) == state,
    decreases prices.len(),
{
    if prices.len() > 0 {
        lemma_sold_outlasts_bids(state, id, prices.drop_last());
    }
}

/// The sold flag is what the owner's last accepted edit made it. Once such
/// an edit clears the flag, a bid above the current price is accepted
/// again.
pub proof fn lemma_owner_edit_sets_flag(
    state: AuctionView,
    id: u64,
    input: EditListingView,
    caller: Seq<u8>,
    price: u64,
)
    requires
        state.edit_result(id, input, caller) is Ok,
    ensures
        state.edit(id, input, caller).listings[id].sold == input.sold,
        !input.sold && price > state.listings[id].current_price ==> state.edit(
            id,
            input,
            caller,
        ).bid_result(id, price) is Ok,
{
}

/// Creating keeps a ledger in order, provided the request can be served.
pub proof fn lemma_create_keeps_order(state: AuctionView, request: Request)
    requires
        state.wf(),
        state.can_create(request.0, request.1),
    ensures
        state.create(request.0, request.1).wf(),
        state.create(request.0, request.1).count() == state.count() + 1,
{
    let after = state.create(request.0, request.1);
    assert(after.listings.dom() =~= state.listings.dom().insert(state.next_id as u64));
}

/// Editing keeps a ledger in order and does not change the number of
/// listings, whether the edit is accepted or not.
pub proof fn lemma_edit_keeps_order(
    state: AuctionView,
    id: u64,
    input: EditListingView,
    caller: Seq<u8>,
)
    requires
        state.wf(),
    ensures
        state.edit(id, input, caller).wf(),
        state.edit(id, input, caller).count() == state.count(),
{
    let after = state.edit(id, input, caller);
    assert(after.listings.dom() =~= state.listings.dom());
}

/// Bidding keeps a ledger in order and does not change the number of
/// listings, whether the bid is accepted or not.
pub proof fn lemma_bid_keeps_order(state: AuctionView, id: u64, price: u64)
    requires
        state.wf(),
    ensures
        state.bid(id, price).wf(),
        state.bid(id, price).count() == state.count(),
{
    let after = state.bid(id, price);
    assert(after.listings.dom() =~= state.listings.dom());
    if state.bid_result(id, price) is Ok {
        assert(record_len(outbid(state.listings[id], price)) == record_len(state.listings[id]));
    }
}

/// Identifiers are dense. After `n` creations on a fresh ledger there are
/// exactly `n` listings; their identifiers are the `n` numbers below `n`;
/// and the listing under each identifier is the one that the creation of
/// that rank made, carrying that identifier.
pub proof fn lemma_identifiers_dense(requests: Seq<Request>)
    requires
        requests.len() <= u64::MAX,
    ensures
        AuctionView::fresh().creates(requests).next_id == requests.len(),
        AuctionView::fresh().creates(requests).listings.dom() == below(requests.len() as u64),
        AuctionView::fresh().creates(requests).listings.dom().finite(),
        AuctionView::fresh().creates(requests).count() == requests.len(),
        forall|k: int|
            0 <= k < requests.len() ==> #[trigger] AuctionView::fresh().creates(
                requests,
            ).listings[k as u64] == created(k as u64, requests[k].0, requests[k].1),
    decreases requests.len(),
{
    let after = AuctionView::fresh().creates(requests);
    let n = requests.len() as u64;
    lemma_below_len(n);
    if requests.len() == 0 {
        assert(after.listings.dom() =~= below(n));
    } else {
        let earlier = requests.drop_last();
        let before = AuctionView::fresh().creates(earlier);
        lemma_identifiers_dense(earlier);
        let m = (n - 1) as u64;
        assert(after.listings.dom() =~= below(m).insert(m));
        assert(below(n) =~= below(m).insert(m));
        assert forall|k: int| 0 <= k < requests.len() implies #[trigger] after.listings[k as u64]
            == created(k as u64, requests[k].0, requests[k].1) by {
            if k < requests.len() - 1 {
                assert(before.listings[k as u64] == created(k as u64, earlier[k].0, earlier[k].1));
            }
        }
    }
}

} // verus!
