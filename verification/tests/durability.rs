//! Crash-simulation tests on an on-disk store: dropping the index without a
//! flush rolls the open transaction back, as closing the connection does, so
//! a restarted index sees only what was flushed.

use snapshot_index::{ContentHash, SnapshotIndex};

fn hash_of(byte: u8) -> ContentHash {
    ContentHash { bytes: vec![byte; 32] }
}

fn expect_latest(si: &SnapshotIndex, family: &str) -> (ContentHash, Vec<u8>) {
    si.latest_snapshot(family.to_string())
        .expect("a latest snapshot was expected")
}

#[test]
fn unflushed_records_do_not_survive_a_restart() {
    let path = "/tmp/snapshot_index_durability.db";
    {
        let mut si = SnapshotIndex::new(path.to_string());
        si.add_snapshot("fam".to_string(), hash_of(0xA1), b"kept".to_vec());
        si.flush();
        si.add_snapshot("fam".to_string(), hash_of(0xB2), b"lost".to_vec());
        // dropped without a flush: the open transaction is rolled back
    }
    let si = SnapshotIndex::new(path.to_string());
    let (hash, tree_ref) = expect_latest(&si, "fam");
    assert_eq!(hash, hash_of(0xA1));
    assert_eq!(tree_ref, b"kept".to_vec());
}

#[test]
fn concrete_scenario_with_crash_restart() {
    let path = "/tmp/snapshot_index_scenario.db";
    {
        let mut si = SnapshotIndex::new(path.to_string());
        si.add_snapshot("host1/etc".to_string(), hash_of(0xAA), b"tree-v1".to_vec());
        si.flush();
        let (hash, tree_ref) = expect_latest(&si, "host1/etc");
        assert_eq!(hash, hash_of(0xAA));
        assert_eq!(tree_ref, b"tree-v1".to_vec());

        // a second add without a flush is visible on the live connection
        si.add_snapshot("host1/etc".to_string(), hash_of(0xBB), b"tree-v2".to_vec());
        let (hash, tree_ref) = expect_latest(&si, "host1/etc");
        assert_eq!(hash, hash_of(0xBB));
        assert_eq!(tree_ref, b"tree-v2".to_vec());
        // dropped without that flush
    }
    let si = SnapshotIndex::new(path.to_string());
    let (hash, tree_ref) = expect_latest(&si, "host1/etc");
    assert_eq!(hash, hash_of(0xAA));
    assert_eq!(tree_ref, b"tree-v1".to_vec());
}
