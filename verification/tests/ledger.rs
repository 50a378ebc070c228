use auction_app_backend::auction::Auction;
use auction_app_backend::identity::Identity;
use auction_app_backend::listing::{CreateListing, EditListing, Error, Listing};

fn alice() -> Identity {
    Identity::new(vec![1, 2, 3])
}

fn bob() -> Identity {
    Identity::new(vec![9, 9])
}

fn carol() -> Identity {
    Identity::new(vec![7])
}

fn bike() -> CreateListing {
    CreateListing { title: "Bike".to_string(), description: "Red".to_string(), starting_price: 100 }
}

fn edit(sold: bool) -> EditListing {
    EditListing { title: "Bike".to_string(), description: "Red, barely used".to_string(), sold }
}

fn ledger_with_bike() -> (Auction, Listing) {
    let mut auction = Auction::new();
    assert!(auction.can_create(&bike(), &alice()));
    let listing = auction.create_listing(bike(), alice());
    (auction, listing)
}

#[test]
fn create_returns_the_stored_listing() {
    let mut auction = Auction::new();
    assert_eq!(auction.get_listing_count(), 0);
    let listing = auction.create_listing(bike(), alice());
    assert_eq!(
        listing,
        Listing {
            id: 0,
            title: "Bike".to_string(),
            description: "Red".to_string(),
            starting_price: 100,
            current_price: 100,
            sold: false,
            owner: alice(),
        }
    );
    assert_eq!(auction.get_listing_count(), 1);
    assert_eq!(auction.get_listing(0), Some(listing));
}

#[test]
fn bid_raises_price_and_equal_bid_is_refused() {
    let (mut auction, listing) = ledger_with_bike();
    assert_eq!(auction.bid(listing.id, 150, &bob()), Ok(()));
    let after = auction.get_listing(listing.id).unwrap();
    assert_eq!(after.current_price, 150);
    assert_eq!(after.starting_price, 100);
    assert_eq!(after.owner, alice());
    assert_eq!(after.title, "Bike");
    assert!(!after.sold);
    assert_eq!(auction.bid(listing.id, 150, &carol()), Err(Error::MinimalPriceNotMet));
    assert_eq!(auction.get_listing(listing.id).unwrap().current_price, 150);
}

#[test]
fn bid_below_current_price_is_refused() {
    let (mut auction, listing) = ledger_with_bike();
    assert_eq!(auction.bid(listing.id, 99, &bob()), Err(Error::MinimalPriceNotMet));
    assert_eq!(auction.bid(listing.id, 100, &bob()), Err(Error::MinimalPriceNotMet));
    assert_eq!(auction.bid(listing.id, 101, &bob()), Ok(()));
    assert_eq!(auction.get_listing(listing.id).unwrap().current_price, 101);
}

#[test]
fn sold_listing_takes_no_bid() {
    let (mut auction, listing) = ledger_with_bike();
    assert_eq!(auction.edit_listing(listing.id, edit(true), &alice()), Ok(()));
    assert_eq!(auction.bid(listing.id, 9999, &bob()), Err(Error::ListingAlreadySold));
    assert_eq!(auction.bid(listing.id, 1, &bob()), Err(Error::ListingAlreadySold));
    let after = auction.get_listing(listing.id).unwrap();
    assert!(after.sold);
    assert_eq!(after.current_price, 100);
}

#[test]
fn owner_can_reopen_a_sold_listing() {
    let (mut auction, listing) = ledger_with_bike();
    assert_eq!(auction.edit_listing(listing.id, edit(true), &alice()), Ok(()));
    assert_eq!(auction.edit_listing(listing.id, edit(false), &alice()), Ok(()));
    assert_eq!(auction.bid(listing.id, 120, &bob()), Ok(()));
    assert_eq!(auction.get_listing(listing.id).unwrap().current_price, 120);
}

#[test]
fn edit_by_stranger_is_rejected_and_changes_nothing() {
    let (mut auction, listing) = ledger_with_bike();
    assert_eq!(auction.edit_listing(listing.id, edit(true), &bob()), Err(Error::AccessRejected));
    assert_eq!(auction.get_listing(listing.id), Some(listing));
}

#[test]
fn edit_replaces_texts_and_flag_only() {
    let (mut auction, listing) = ledger_with_bike();
    assert_eq!(auction.bid(listing.id, 130, &bob()), Ok(()));
    assert_eq!(auction.edit_listing(listing.id, edit(true), &alice()), Ok(()));
    assert_eq!(
        auction.get_listing(listing.id),
        Some(Listing {
            id: 0,
            title: "Bike".to_string(),
            description: "Red, barely used".to_string(),
            starting_price: 100,
            current_price: 130,
            sold: true,
            owner: alice(),
        })
    );
}

#[test]
fn unknown_identifier_is_not_found() {
    let (mut auction, _) = ledger_with_bike();
    assert_eq!(auction.get_listing(1), None);
    assert_eq!(auction.get_listing(u64::MAX), None);
    assert_eq!(auction.edit_listing(1, edit(false), &alice()), Err(Error::ListingNotFound));
    assert_eq!(auction.bid(1, 500, &bob()), Err(Error::ListingNotFound));
}

#[test]
fn failed_operations_leave_the_count() {
    let (mut auction, listing) = ledger_with_bike();
    assert_eq!(auction.get_listing_count(), 1);
    assert_eq!(auction.bid(listing.id, 50, &bob()), Err(Error::MinimalPriceNotMet));
    assert_eq!(auction.bid(5, 500, &bob()), Err(Error::ListingNotFound));
    assert_eq!(auction.edit_listing(listing.id, edit(true), &bob()), Err(Error::AccessRejected));
    assert_eq!(auction.edit_listing(5, edit(true), &alice()), Err(Error::ListingNotFound));
    assert_eq!(auction.get_listing(5), None);
    assert_eq!(auction.get_listing_count(), 1);
    assert_eq!(auction.get_listing(listing.id), Some(listing));
}

#[test]
fn identifiers_are_dense_from_zero() {
    let mut auction = Auction::new();
    for n in 0..40u64 {
        let input = CreateListing {
            title: format!("item {}", n),
            description: String::new(),
            starting_price: n * 10,
        };
        let listing = auction.create_listing(input, alice());
        assert_eq!(listing.id, n);
        assert_eq!(auction.get_listing_count(), n + 1);
    }
    for n in 0..40u64 {
        let listing = auction.get_listing(n).unwrap();
        assert_eq!(listing.id, n);
        assert_eq!(listing.title, format!("item {}", n));
        assert_eq!(listing.starting_price, n * 10);
    }
    assert_eq!(auction.get_listing(40), None);
}

#[test]
fn owner_may_bid_on_own_listing() {
    let (mut auction, listing) = ledger_with_bike();
    assert_eq!(auction.bid(listing.id, 200, &alice()), Ok(()));
    assert_eq!(auction.get_listing(listing.id).unwrap().current_price, 200);
}

#[test]
fn price_never_falls_over_many_bids() {
    let (mut auction, listing) = ledger_with_bike();
    let mut last = 100;
    for price in [150u64, 120, 150, 151, 0, 1000, 999, u64::MAX, u64::MAX] {
        let result = auction.bid(listing.id, price, &bob());
        let now = auction.get_listing(listing.id).unwrap().current_price;
        assert_eq!(result.is_ok(), price > last);
        assert!(now >= last);
        last = now;
    }
    assert_eq!(last, u64::MAX);
}

#[test]
fn try_create_serves_what_create_serves() {
    let mut auction = Auction::new();
    let listing = auction.try_create_listing(bike(), bob()).unwrap();
    assert_eq!(listing.id, 0);
    assert_eq!(listing.owner, bob());
    assert_eq!(auction.get_listing_count(), 1);
}

#[test]
fn recover_continues_where_the_ledger_stood() {
    let (mut auction, first) = ledger_with_bike();
    assert_eq!(auction.bid(first.id, 175, &bob()), Ok(()));
    let second = auction.create_listing(bike(), bob());
    assert_eq!(second.id, 1);
    let mut again = Auction::recover(auction.into_store()).unwrap();
    assert_eq!(again.get_listing_count(), 2);
    assert_eq!(again.get_listing(0).unwrap().current_price, 175);
    assert_eq!(again.get_listing(1), Some(second));
    let third = again.create_listing(bike(), carol());
    assert_eq!(third.id, 2);
    assert_eq!(again.get_listing_count(), 3);
}

#[test]
fn open_starts_empty_on_empty_memory() {
    let auction = Auction::open().unwrap();
    assert_eq!(auction.get_listing_count(), 0);
    assert_eq!(auction.get_listing(0), None);
}
