//! Behaviour of the snapshot index on a live (in-memory) store: visibility,
//! ordering, family isolation, and the message-passing service boundary.

use snapshot_index::{ContentHash, Msg, Reply, SnapshotIndex};

fn hash_of(byte: u8) -> ContentHash {
    ContentHash { bytes: vec![byte; 32] }
}

fn expect_latest(si: &SnapshotIndex, family: &str) -> (ContentHash, Vec<u8>) {
    si.latest_snapshot(family.to_string())
        .expect("a latest snapshot was expected")
}

#[test]
fn round_trip() {
    let mut si = SnapshotIndex::new_for_testing();
    si.add_snapshot("host1/etc".to_string(), hash_of(0xAA), b"tree-v1".to_vec());
    si.flush();
    let (hash, tree_ref) = expect_latest(&si, "host1/etc");
    assert_eq!(hash, hash_of(0xAA));
    assert_eq!(tree_ref, b"tree-v1".to_vec());
}

#[test]
fn most_recent_record_wins() {
    let mut si = SnapshotIndex::new_for_testing();
    si.add_snapshot("fam".to_string(), hash_of(0x01), b"first".to_vec());
    si.add_snapshot("fam".to_string(), hash_of(0x02), b"second".to_vec());
    let (hash, tree_ref) = expect_latest(&si, "fam");
    assert_eq!(hash, hash_of(0x02));
    assert_eq!(tree_ref, b"second".to_vec());
}

#[test]
fn equal_hashes_still_ordered() {
    let mut si = SnapshotIndex::new_for_testing();
    si.add_snapshot("fam".to_string(), hash_of(0x07), b"older".to_vec());
    si.add_snapshot("fam".to_string(), hash_of(0x07), b"newer".to_vec());
    let (hash, tree_ref) = expect_latest(&si, "fam");
    assert_eq!(hash, hash_of(0x07));
    assert_eq!(tree_ref, b"newer".to_vec());
}

#[test]
fn empty_family_has_no_snapshot() {
    let si = SnapshotIndex::new_for_testing();
    assert_eq!(si.latest_snapshot("nobody".to_string()), None);
}

#[test]
fn family_isolation() {
    let mut si = SnapshotIndex::new_for_testing();
    si.add_snapshot("a".to_string(), hash_of(0x11), b"a-tree".to_vec());
    assert_eq!(si.latest_snapshot("b".to_string()), None);
    si.add_snapshot("b".to_string(), hash_of(0x22), b"b-tree".to_vec());
    let (hash_a, tree_a) = expect_latest(&si, "a");
    assert_eq!(hash_a, hash_of(0x11));
    assert_eq!(tree_a, b"a-tree".to_vec());
    let (hash_b, tree_b) = expect_latest(&si, "b");
    assert_eq!(hash_b, hash_of(0x22));
    assert_eq!(tree_b, b"b-tree".to_vec());
}

#[test]
fn read_your_own_write_before_flush() {
    let mut si = SnapshotIndex::new_for_testing();
    si.add_snapshot("fam".to_string(), hash_of(0x33), b"pending".to_vec());
    let (hash, tree_ref) = expect_latest(&si, "fam");
    assert_eq!(hash, hash_of(0x33));
    assert_eq!(tree_ref, b"pending".to_vec());
}

#[test]
fn repeated_flush_keeps_latest_unchanged() {
    let mut si = SnapshotIndex::new_for_testing();
    si.add_snapshot("fam".to_string(), hash_of(0x44), b"tree".to_vec());
    si.flush();
    let before = expect_latest(&si, "fam");
    si.flush();
    si.flush();
    let after = expect_latest(&si, "fam");
    assert_eq!(before, after);
    assert_eq!(si.latest_snapshot("other".to_string()), None);
}

#[test]
fn empty_family_name_and_empty_tree_ref_are_stored_opaquely() {
    let mut si = SnapshotIndex::new_for_testing();
    si.add_snapshot(String::new(), hash_of(0x55), Vec::new());
    si.flush();
    let (hash, tree_ref) = expect_latest(&si, "");
    assert_eq!(hash, hash_of(0x55));
    assert_eq!(tree_ref, Vec::<u8>::new());
}

#[test]
fn handle_serves_the_message_protocol() {
    let mut si = SnapshotIndex::new_for_testing();
    let reply = si.handle(Msg::Add(
        "fam".to_string(),
        hash_of(0x66),
        b"tree".to_vec(),
    ));
    assert!(matches!(reply, Reply::AddOK));

    let reply = si.handle(Msg::Flush);
    assert!(matches!(reply, Reply::FlushOK));

    match si.handle(Msg::Latest("fam".to_string())) {
        Reply::Latest(Some((hash, tree_ref))) => {
            assert_eq!(hash, hash_of(0x66));
            assert_eq!(tree_ref, b"tree".to_vec());
        }
        _ => panic!("expected the latest snapshot of the family"),
    }

    match si.handle(Msg::Latest("other".to_string())) {
        Reply::Latest(None) => {}
        _ => panic!("expected no snapshot for an unknown family"),
    }
}
