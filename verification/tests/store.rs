use auction_app_backend::allocator::IdAllocator;
use auction_app_backend::auction::Auction;
use auction_app_backend::identity::Identity;
use auction_app_backend::keys::{external_key, internal_id};
use auction_app_backend::listing::Listing;
use auction_app_backend::store::{ListingStore, Written};

fn sample(id: u64) -> Listing {
    Listing {
        id,
        title: "Grüße, 世界".to_string(),
        description: "naïve café ☕".to_string(),
        starting_price: 5,
        current_price: 8,
        sold: true,
        owner: Identity::new(vec![0, 255, 17]),
    }
}

#[test]
fn record_has_the_documented_layout() {
    let listing = Listing {
        id: 1,
        title: "ab".to_string(),
        description: "é".to_string(),
        starting_price: 0x0102,
        current_price: u64::MAX,
        sold: true,
        owner: Identity::new(vec![0xAA, 0xBB, 0xCC]),
    };
    let mut expected: Vec<u8> = Vec::new();
    expected.extend_from_slice(&[1, 0, 0, 0, 0, 0, 0, 0]);
    expected.extend_from_slice(&[2, 1, 0, 0, 0, 0, 0, 0]);
    expected.extend_from_slice(&[0xFF; 8]);
    expected.push(1);
    expected.extend_from_slice(&[3, 0, 0, 0, 0, 0, 0, 0]);
    expected.extend_from_slice(&[0xAA, 0xBB, 0xCC]);
    expected.extend_from_slice(&[2, 0, 0, 0, 0, 0, 0, 0]);
    expected.extend_from_slice(b"ab");
    expected.extend_from_slice(&[0xC3, 0xA9]);
    assert_eq!(listing.to_bytes(), expected);
    assert_eq!(expected.len(), 41 + 3 + 2 + 2);
}

#[test]
fn record_round_trips() {
    let listing = sample(12);
    assert_eq!(Listing::from_bytes(&listing.to_bytes()), Some(listing));
    let empty = Listing {
        id: 0,
        title: String::new(),
        description: String::new(),
        starting_price: 0,
        current_price: 0,
        sold: false,
        owner: Identity::new(Vec::new()),
    };
    assert_eq!(empty.to_bytes().len(), 41);
    assert_eq!(Listing::from_bytes(&empty.to_bytes()), Some(empty));
}

#[test]
fn malformed_records_are_refused() {
    let good = sample(3).to_bytes();
    assert!(Listing::from_bytes(&good).is_some());
    assert_eq!(Listing::from_bytes(&[]), None);
    assert_eq!(Listing::from_bytes(&good[..40]), None);
    let mut flag = good.clone();
    flag[24] = 2;
    assert_eq!(Listing::from_bytes(&flag), None);
    let mut owner_len = good.clone();
    owner_len[25] = 200;
    assert_eq!(Listing::from_bytes(&owner_len), None);
    let mut huge = good.clone();
    huge[32] = 0xFF;
    assert_eq!(Listing::from_bytes(&huge), None);
    let mut title = good.clone();
    title[44] = 0xFF;
    assert_eq!(Listing::from_bytes(&title), None);
    let mut description = good.clone();
    let last = description.len() - 1;
    description[last] = 0xC3;
    assert_eq!(Listing::from_bytes(&description), None);
}

#[test]
fn listing_of_ordinary_size_fits() {
    assert!(sample(0).fits());
}

#[test]
fn store_returns_what_was_put() {
    let mut store = ListingStore::new();
    assert_eq!(store.count(), 0);
    assert_eq!(store.get(4), None);
    assert_eq!(store.put(4, &sample(4)), Written::Inserted);
    assert_eq!(store.count(), 1);
    assert_eq!(store.get(4), Some(sample(4)));
    assert_eq!(store.get(3), None);
    let mut changed = sample(4);
    changed.current_price = 77;
    changed.title = "other".to_string();
    assert_eq!(store.put(4, &changed), Written::Replaced);
    assert_eq!(store.count(), 1);
    assert_eq!(store.get(4), Some(changed));
    assert_eq!(store.put(9, &sample(9)), Written::Inserted);
    assert_eq!(store.count(), 2);
    assert_eq!(store.get(9), Some(sample(9)));
}

#[test]
fn store_keeps_many_listings_apart() {
    let mut store = ListingStore::new();
    for id in 0..200u64 {
        let mut listing = sample(id);
        listing.current_price = id * 3;
        assert_eq!(store.put(id, &listing), Written::Inserted);
    }
    assert_eq!(store.count(), 200);
    for id in 0..200u64 {
        let listing = store.get(id).unwrap();
        assert_eq!(listing.id, id);
        assert_eq!(listing.current_price, id * 3);
    }
}

#[test]
fn new_store_is_empty_and_load_finds_nothing_in_fresh_memory() {
    assert_eq!(ListingStore::new().count(), 0);
    let loaded = ListingStore::load();
    assert_eq!(loaded.count(), 0);
    assert_eq!(loaded.get(0), None);
}

#[test]
fn recover_refuses_a_gap_in_the_identifiers() {
    let mut store = ListingStore::new();
    assert_eq!(store.put(0, &sample(0)), Written::Inserted);
    assert_eq!(store.put(2, &sample(2)), Written::Inserted);
    assert!(Auction::recover(store).is_none());
}

#[test]
fn recover_refuses_a_listing_under_another_identifier() {
    let mut store = ListingStore::new();
    assert_eq!(store.put(0, &sample(1)), Written::Inserted);
    assert!(Auction::recover(store).is_none());
}

#[test]
fn recover_refuses_a_price_below_the_starting_price() {
    let mut store = ListingStore::new();
    let mut listing = sample(0);
    listing.starting_price = 10;
    listing.current_price = 9;
    assert_eq!(store.put(0, &listing), Written::Inserted);
    assert!(Auction::recover(store).is_none());
}

#[test]
fn recover_accepts_a_dense_store() {
    let mut store = ListingStore::new();
    assert_eq!(store.put(1, &sample(1)), Written::Inserted);
    assert_eq!(store.put(0, &sample(0)), Written::Inserted);
    let auction = Auction::recover(store).unwrap();
    assert_eq!(auction.get_listing_count(), 2);
    assert_eq!(auction.get_listing(1), Some(sample(1)));
}

#[test]
fn allocator_counts_up_from_zero() {
    let mut ids = IdAllocator::new();
    assert_eq!(ids.peek(), 0);
    assert_eq!(ids.next(), 0);
    assert_eq!(ids.next(), 1);
    assert_eq!(ids.peek(), 2);
    assert_eq!(ids.try_next(), Some(2));
    assert_eq!(ids.peek(), 3);
}

#[test]
fn allocator_stops_at_the_last_identifier() {
    let mut ids = IdAllocator::resume(u64::MAX - 1);
    assert_eq!(ids.try_next(), Some(u64::MAX - 1));
    assert_eq!(ids.try_next(), None);
    assert_eq!(ids.peek(), u64::MAX);
}

#[test]
fn identities_compare_by_their_bytes() {
    let a = Identity::new(vec![1, 2, 3]);
    assert!(a.same(&Identity::new(vec![1, 2, 3])));
    assert!(!a.same(&Identity::new(vec![1, 2, 4])));
    assert!(!a.same(&Identity::new(vec![1, 2])));
    assert!(!a.same(&Identity::new(vec![1, 2, 3, 0])));
    assert!(Identity::new(Vec::new()).same(&Identity::new(Vec::new())));
    assert_eq!(a.duplicate(), a);
    assert_eq!(a.as_bytes(), &[1, 2, 3]);
    assert_ne!(a, Identity::new(vec![3, 2, 1]));
}

#[test]
fn keys_outside_start_at_one() {
    assert_eq!(internal_id(0), None);
    assert_eq!(internal_id(1), Some(0));
    assert_eq!(internal_id(u64::MAX), Some(u64::MAX - 1));
    assert_eq!(external_key(0), Some(1));
    assert_eq!(external_key(u64::MAX - 1), Some(u64::MAX));
    assert_eq!(external_key(u64::MAX), None);
    assert_eq!(internal_id(external_key(41).unwrap()), Some(41));
}
