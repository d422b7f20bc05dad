use lite_rpc::block_store::{BlockInformation, BlockStore, DurabilityTier, BLOCK_VALIDITY_MS};

fn info(slot: u64, block_height: u64, instant: u64) -> BlockInformation {
    BlockInformation { slot, block_height, instant, processed_local_time: None }
}

#[test]
fn add_block_then_latest() {
    let mut store = BlockStore::new();
    store.add_block(String::from("hash-a"), info(7, 100, 5), DurabilityTier::Confirmed);
    let latest = store.latest(DurabilityTier::Confirmed);
    assert_eq!(latest, Some((String::from("hash-a"), 100)));
    let got = store.get_latest(DurabilityTier::Confirmed).unwrap();
    assert_eq!(got.slot, 7);
    assert_eq!(got.block_height, 100);
    assert_eq!(got.instant, 5);
    assert!(got.processed_local_time.is_none());
}

#[test]
fn latest_absent_until_seeded() {
    let store = BlockStore::new();
    assert!(store.get_latest(DurabilityTier::Processed).is_none());
    assert!(store.get_latest(DurabilityTier::Confirmed).is_none());
    assert!(store.get_latest(DurabilityTier::Finalized).is_none());
    assert!(store.latest(DurabilityTier::Processed).is_none());
}

#[test]
fn tiers_are_independent() {
    let mut store = BlockStore::new();
    store.add_block(String::from("p"), info(1, 10, 0), DurabilityTier::Processed);
    assert!(store.latest(DurabilityTier::Confirmed).is_none());
    assert!(store.latest(DurabilityTier::Finalized).is_none());
    assert_eq!(store.latest(DurabilityTier::Processed), Some((String::from("p"), 10)));
}

#[test]
fn lower_height_keeps_latest_pointer() {
    // The chosen overwrite policy: an update with a lower block height is
    // still indexed, but the latest pointer does not move backwards.
    let mut store = BlockStore::new();
    store.add_block(String::from("a"), info(5, 100, 0), DurabilityTier::Finalized);
    store.add_block(String::from("b"), info(4, 90, 0), DurabilityTier::Finalized);
    assert_eq!(store.latest(DurabilityTier::Finalized), Some((String::from("a"), 100)));
    assert!(store.contains_block(&String::from("b"), DurabilityTier::Finalized));
    assert_eq!(store.recent_len(DurabilityTier::Finalized), 2);
    // An equal height is accepted: the pointer never goes down, but may be
    // replaced in place.
    store.add_block(String::from("c"), info(6, 100, 0), DurabilityTier::Finalized);
    assert_eq!(store.latest(DurabilityTier::Finalized), Some((String::from("c"), 100)));
}

#[test]
fn same_blockhash_updates_entry_in_place() {
    let mut store = BlockStore::new();
    store.add_block(String::from("a"), info(1, 100, 0), DurabilityTier::Processed);
    store.add_block(String::from("a"), info(2, 120, 0), DurabilityTier::Processed);
    assert_eq!(store.recent_len(DurabilityTier::Processed), 1);
    assert_eq!(store.latest(DurabilityTier::Processed), Some((String::from("a"), 120)));
}

#[test]
fn cleanup_removes_exactly_expired_entries() {
    let mut store = BlockStore::new();
    store.add_block(String::from("old-p"), info(1, 10, 0), DurabilityTier::Processed);
    store.add_block(String::from("new-p"), info(2, 11, 100), DurabilityTier::Processed);
    store.add_block(String::from("old-c"), info(1, 10, 10), DurabilityTier::Confirmed);
    store.add_block(String::from("new-c"), info(2, 11, 30), DurabilityTier::Confirmed);
    // Entries with instant + BLOCK_VALIDITY_MS < now are expired: here the
    // ones at instants 0 and 10, while 30 and 100 stay.
    let now = BLOCK_VALIDITY_MS + 20;
    store.cleanup(now);
    assert!(!store.contains_block(&String::from("old-p"), DurabilityTier::Processed));
    assert!(store.contains_block(&String::from("new-p"), DurabilityTier::Processed));
    assert!(!store.contains_block(&String::from("old-c"), DurabilityTier::Confirmed));
    assert!(store.contains_block(&String::from("new-c"), DurabilityTier::Confirmed));
    assert_eq!(store.recent_len(DurabilityTier::Processed), 1);
    assert_eq!(store.recent_len(DurabilityTier::Confirmed), 1);
    // The latest pointers are untouched by cleanup.
    assert_eq!(store.latest(DurabilityTier::Processed), Some((String::from("new-p"), 11)));
    assert_eq!(store.latest(DurabilityTier::Confirmed), Some((String::from("new-c"), 11)));
}

#[test]
fn cleanup_on_fresh_entries_keeps_everything() {
    let mut store = BlockStore::new();
    store.add_block(String::from("a"), info(1, 10, 50), DurabilityTier::Processed);
    store.add_block(String::from("b"), info(2, 11, 60), DurabilityTier::Processed);
    store.cleanup(70);
    assert_eq!(store.recent_len(DurabilityTier::Processed), 2);
}
