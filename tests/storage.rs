use zksync_state::in_memory::InMemoryStorage;
use zksync_state::ledger::Ledger;
use zksync_state::postgres::PostgresStorage;
use zksync_state::rocksdb::{RocksdbStorage, RocksdbStorageBuilder};
use zksync_state::rocksdb_with_memory::{BatchDiff, RocksdbWithMemory};
use zksync_state::snapshot::SnapshotStorage;
use zksync_state::storage_factory::{CommonStorage, StorageError};
use zksync_state::types::{Address, L1BatchNumber, StorageKey, StorageValue, H256};

fn key(n: u64) -> StorageKey {
    StorageKey::new(Address::from_low_u64_be(0x1000 + n), H256::from_low_u64_be(n))
}

fn value(n: u64) -> StorageValue {
    H256::from_low_u64_be(n)
}

/// Batch n writes key(1) = n + 1; batch 1 also writes key(2) for the first time.
fn ledger_with(batches: u64) -> Ledger {
    let mut ledger = Ledger::new();
    for n in 0..batches {
        let mut logs = vec![(key(1), value(n + 1))];
        if n == 1 {
            logs.push((key(2), value(0x22)));
        }
        ledger.push_batch(vec![], vec![key(1)], logs);
    }
    ledger.insert_initial_write(key(1), L1BatchNumber(0), 1);
    if batches > 1 {
        ledger.insert_initial_write(key(2), L1BatchNumber(1), 2);
    }
    ledger.insert_factory_dep(H256::from_low_u64_be(0xbc), vec![9, 8, 7]);
    ledger
}

fn stop_flag(stop: bool) -> (tokio::sync::watch::Sender<bool>, tokio::sync::watch::Receiver<bool>) {
    tokio::sync::watch::channel(stop)
}

#[test]
fn postgres_reads_state_after_batch() {
    let ledger = ledger_with(3);
    let storage = CommonStorage::postgres(&ledger, L1BatchNumber(0)).unwrap();
    assert_eq!(storage.read_value(&key(1)), value(1));
    assert_eq!(storage.read_value(&key(2)), H256::zero());
    assert!(!storage.is_write_initial(&key(1)));
    assert!(storage.is_write_initial(&key(2)));
    assert_eq!(storage.get_enumeration_index(&key(2)), None);

    let later = CommonStorage::postgres(&ledger, L1BatchNumber(2)).unwrap();
    assert_eq!(later.read_value(&key(1)), value(3));
    assert_eq!(later.read_value(&key(2)), value(0x22));
    assert_eq!(later.get_enumeration_index(&key(2)), Some(2));
    assert_eq!(later.load_factory_dep(H256::from_low_u64_be(0xbc)), Some(vec![9, 8, 7]));
    assert_eq!(later.load_factory_dep(H256::from_low_u64_be(0xbd)), None);
}

#[test]
fn postgres_without_state_fails() {
    let ledger = ledger_with(2);
    let err = CommonStorage::postgres(&ledger, L1BatchNumber(5)).unwrap_err();
    assert_eq!(err, StorageError::NoStateAvailable);
    assert!(!err.is_structural());
}

#[test]
fn postgres_from_snapshot_of_other_batch_fails() {
    let mut ledger = ledger_with(2);
    ledger.set_snapshot_recovery(L1BatchNumber(7));
    let err = CommonStorage::postgres(&ledger, L1BatchNumber(5)).unwrap_err();
    assert_eq!(
        err,
        StorageError::SnapshotBatchMismatch { snapshot: L1BatchNumber(7), expected: L1BatchNumber(5) }
    );
    assert!(err.is_structural());
    assert!(CommonStorage::postgres(&ledger, L1BatchNumber(7)).is_ok());
}

#[test]
fn cache_catches_up_to_requested_batch() {
    let ledger = ledger_with(4);
    let (_tx, rx) = stop_flag(false);
    let storage = CommonStorage::rocksdb(&ledger, RocksdbStorage::new(), &rx, L1BatchNumber(3))
        .unwrap()
        .unwrap();
    match &storage {
        CommonStorage::Rocksdb(cache) => {
            assert_eq!(cache.l1_batch_number(), Some(L1BatchNumber(4)));
        }
        _ => panic!("expected the cache"),
    }
    assert_eq!(storage.read_value(&key(1)), value(4));
    assert_eq!(storage.read_value(&key(2)), value(0x22));
    assert_eq!(storage.get_enumeration_index(&key(2)), Some(2));
    assert!(storage.is_write_initial(&key(3)));
}

#[test]
fn cache_catches_up_to_target_when_ledger_is_ahead() {
    let ledger = ledger_with(5);
    let (_tx, rx) = stop_flag(false);
    let storage = CommonStorage::rocksdb(&ledger, RocksdbStorage::new(), &rx, L1BatchNumber(2))
        .unwrap()
        .unwrap();
    match &storage {
        CommonStorage::Rocksdb(cache) => {
            assert_eq!(cache.l1_batch_number(), Some(L1BatchNumber(3)));
        }
        _ => panic!("expected the cache"),
    }
    assert_eq!(storage.read_value(&key(1)), value(3));
}

#[test]
fn cache_already_at_target_ignores_stop_request() {
    let ledger = ledger_with(3);
    let (_tx, rx) = stop_flag(false);
    let cache = RocksdbStorageBuilder::from_rocksdb(RocksdbStorage::new())
        .synchronize(&ledger, &rx, Some(L1BatchNumber(1)))
        .unwrap();
    let (_tx, stopped) = stop_flag(true);
    let storage = CommonStorage::rocksdb(&ledger, cache, &stopped, L1BatchNumber(1))
        .unwrap()
        .unwrap();
    assert_eq!(storage.read_value(&key(1)), value(2));
}

#[test]
fn cache_ahead_of_requested_batch_is_rejected() {
    let ledger = ledger_with(4);
    let (_tx, rx) = stop_flag(false);
    let cache = RocksdbStorageBuilder::from_rocksdb(RocksdbStorage::new())
        .synchronize(&ledger, &rx, None)
        .unwrap();
    assert_eq!(cache.l1_batch_number(), Some(L1BatchNumber(4)));
    let err = CommonStorage::rocksdb(&ledger, cache, &rx, L1BatchNumber(2)).unwrap_err();
    assert_eq!(
        err,
        StorageError::CacheBatchMismatch {
            synchronized_to: L1BatchNumber(4),
            expected: L1BatchNumber(2)
        }
    );
    assert!(err.is_structural());
}

#[test]
fn cache_behind_requested_batch_is_rejected() {
    let ledger = ledger_with(2);
    let (_tx, rx) = stop_flag(false);
    let err = CommonStorage::rocksdb(&ledger, RocksdbStorage::new(), &rx, L1BatchNumber(5)).unwrap_err();
    assert_eq!(
        err,
        StorageError::CacheBatchMismatch {
            synchronized_to: L1BatchNumber(2),
            expected: L1BatchNumber(5)
        }
    );
}

#[test]
fn empty_cache_over_empty_ledger_has_no_batches() {
    let ledger = Ledger::new();
    let (_tx, rx) = stop_flag(false);
    let err = CommonStorage::rocksdb(&ledger, RocksdbStorage::new(), &rx, L1BatchNumber(0)).unwrap_err();
    assert_eq!(err, StorageError::NoL1Batches);
}

#[test]
fn stop_request_interrupts_catch_up() {
    let ledger = ledger_with(3);
    let (_tx, rx) = stop_flag(true);
    let r = CommonStorage::rocksdb(&ledger, RocksdbStorage::new(), &rx, L1BatchNumber(2)).unwrap();
    assert!(r.is_none());
}

#[test]
fn catch_up_stops_at_target() {
    let ledger = ledger_with(4);
    let (_tx, rx) = stop_flag(false);
    let cache = RocksdbStorageBuilder::from_rocksdb(RocksdbStorage::new())
        .synchronize(&ledger, &rx, Some(L1BatchNumber(1)))
        .unwrap();
    assert_eq!(cache.l1_batch_number(), Some(L1BatchNumber(2)));
    assert_eq!(cache.read_value(&key(1)), value(2));
    assert_eq!(cache.load_factory_dep(H256::from_low_u64_be(0xbc)), None);
}

#[test]
fn selector_delegates_to_each_backend() {
    let ledger = ledger_with(3);
    let (_tx, rx) = stop_flag(false);
    let keys = [key(1), key(2), key(3)];
    let hashes = [H256::from_low_u64_be(0xbc), H256::from_low_u64_be(0xbd)];

    let postgres = PostgresStorage::new(&ledger, L1BatchNumber(1));
    let wrapped: CommonStorage = PostgresStorage::new(&ledger, L1BatchNumber(1)).into();
    for k in &keys {
        assert_eq!(wrapped.read_value(k), postgres.read_value(k));
        assert_eq!(wrapped.is_write_initial(k), postgres.is_write_initial(k));
        assert_eq!(wrapped.get_enumeration_index(k), postgres.get_enumeration_index(k));
    }
    for h in &hashes {
        assert_eq!(wrapped.load_factory_dep(*h), postgres.load_factory_dep(*h));
    }

    let cache = RocksdbStorageBuilder::from_rocksdb(RocksdbStorage::new())
        .synchronize(&ledger, &rx, None)
        .unwrap();
    let direct = RocksdbStorageBuilder::from_rocksdb(RocksdbStorage::new())
        .synchronize(&ledger, &rx, None)
        .unwrap();
    let wrapped: CommonStorage = cache.into();
    for k in &keys {
        assert_eq!(wrapped.read_value(k), direct.read_value(k));
        assert_eq!(wrapped.is_write_initial(k), direct.is_write_initial(k));
        assert_eq!(wrapped.get_enumeration_index(k), direct.get_enumeration_index(k));
    }
    for h in &hashes {
        assert_eq!(wrapped.load_factory_dep(*h), direct.load_factory_dep(*h));
    }

    let snapshot = CommonStorage::snapshot(&ledger, L1BatchNumber(2)).unwrap();
    let direct = SnapshotStorage::new(
        CommonStorage::snapshot(&ledger, L1BatchNumber(2)).unwrap(),
        PostgresStorage::new(&ledger, L1BatchNumber(1)),
    );
    let wrapped: CommonStorage =
        SnapshotStorage::new(snapshot, PostgresStorage::new(&ledger, L1BatchNumber(1))).into();
    for k in &keys {
        assert_eq!(wrapped.read_value(k), direct.read_value(k));
        assert_eq!(wrapped.is_write_initial(k), direct.is_write_initial(k));
        assert_eq!(wrapped.get_enumeration_index(k), direct.get_enumeration_index(k));
    }
    for h in &hashes {
        assert_eq!(wrapped.load_factory_dep(*h), direct.load_factory_dep(*h));
    }

    let mut memory = InMemoryStorage::new();
    memory.set_slot(key(1), value(5), Some(1));
    memory.store_factory_dep(hashes[0], vec![1]);
    let mut direct = InMemoryStorage::new();
    direct.set_slot(key(1), value(5), Some(1));
    direct.store_factory_dep(hashes[0], vec![1]);
    let wrapped = CommonStorage::boxed(memory);
    for k in &keys {
        assert_eq!(wrapped.read_value(k), direct.read_value(k));
        assert_eq!(wrapped.is_write_initial(k), direct.is_write_initial(k));
        assert_eq!(wrapped.get_enumeration_index(k), direct.get_enumeration_index(k));
    }
    for h in &hashes {
        assert_eq!(wrapped.load_factory_dep(*h), direct.load_factory_dep(*h));
    }
}

#[test]
fn snapshot_storage_falls_back_to_ledger() {
    let ledger = ledger_with(3);
    let snapshot = CommonStorage::snapshot(&ledger, L1BatchNumber(2)).unwrap();
    let storage = SnapshotStorage::new(snapshot, PostgresStorage::new(&ledger, L1BatchNumber(1)));
    // key(1) is covered: its value before batch 2.
    assert_eq!(storage.read_value(&key(1)), value(2));
    assert_eq!(storage.get_enumeration_index(&key(1)), Some(1));
    // Batch 2 did not access key(2), so the ledger answers.
    assert_eq!(storage.read_value(&key(2)), value(0x22));
    assert_eq!(storage.load_factory_dep(H256::from_low_u64_be(0xbc)), Some(vec![9, 8, 7]));
}

#[test]
fn memory_diffs_shadow_the_cache() {
    let ledger = ledger_with(2);
    let (_tx, rx) = stop_flag(false);
    let cache = RocksdbStorageBuilder::from_rocksdb(RocksdbStorage::new())
        .synchronize(&ledger, &rx, None)
        .unwrap();
    let older = BatchDiff {
        state_diff: vec![(key(1), value(0x40)), (key(3), value(0x41))],
        enum_index_diff: vec![(key(3), 3)],
        factory_dep_diff: vec![(H256::from_low_u64_be(0xee), vec![4])],
    };
    let newer = BatchDiff {
        state_diff: vec![(key(1), value(0x50))],
        enum_index_diff: vec![],
        factory_dep_diff: vec![],
    };
    let storage = RocksdbWithMemory { rocksdb: cache, batch_diffs: vec![older, newer] };
    assert_eq!(storage.read_value(&key(1)), value(0x50));
    assert_eq!(storage.read_value(&key(3)), value(0x41));
    assert_eq!(storage.read_value(&key(2)), value(0x22));
    assert_eq!(storage.get_enumeration_index(&key(3)), Some(3));
    assert!(!storage.is_write_initial(&key(3)));
    assert!(storage.is_write_initial(&key(4)));
    assert_eq!(storage.load_factory_dep(H256::from_low_u64_be(0xee)), Some(vec![4]));
    assert_eq!(storage.load_factory_dep(H256::from_low_u64_be(0xbc)), None);
}
