use zksync_state::ledger::Ledger;
use zksync_state::snapshot::StorageSnapshot;
use zksync_state::storage_factory::CommonStorage;
use zksync_state::types::{Address, L1BatchNumber, StorageKey, StorageSlot, StorageValue, H256};

fn key(n: u64) -> StorageKey {
    StorageKey::new(Address::from_low_u64_be(0x8000 + n), H256::from_low_u64_be(n))
}

fn value(n: u64) -> StorageValue {
    H256::from_low_u64_be(n)
}

fn seal(
    ledger: &mut Ledger,
    protective_reads: Vec<StorageKey>,
    storage_logs: Vec<(StorageKey, StorageValue)>,
) {
    ledger.push_batch(vec![], protective_reads, storage_logs);
}

/// Batches 0..=10: K1 is first written in batch 3 and rewritten in batch 9; batch 10 reads
/// K1 and K2 and writes K3 for the first time.
fn scenario_ledger() -> Ledger {
    let mut ledger = Ledger::new();
    for n in 0..=10u64 {
        let mut logs = vec![];
        let mut reads = vec![key(99)];
        if n == 3 {
            logs.push((key(1), value(0x11)));
        }
        if n == 9 {
            logs.push((key(1), value(0x19)));
        }
        if n == 10 {
            reads = vec![key(1), key(2)];
            logs.push((key(3), value(0x33)));
        }
        seal(&mut ledger, reads, logs);
    }
    ledger.insert_initial_write(key(1), L1BatchNumber(3), 7);
    ledger.insert_initial_write(key(3), L1BatchNumber(10), 20);
    ledger
}

#[test]
fn end_to_end_batch_ten() {
    let ledger = scenario_ledger();
    let snapshot = CommonStorage::snapshot(&ledger, L1BatchNumber(10)).expect("snapshot");
    assert_eq!(snapshot.keys(), vec![key(1), key(2), key(3)]);

    let k1 = snapshot.slot(&key(1)).unwrap();
    assert_eq!(k1.value, value(0x19));
    assert_eq!(k1.enumeration_index, Some(7));

    let k2 = snapshot.slot(&key(2)).unwrap();
    assert_eq!(k2.value, H256::zero());
    assert_eq!(k2.enumeration_index, None);

    let k3 = snapshot.slot(&key(3)).unwrap();
    assert_eq!(k3.value, H256::zero());
    assert_eq!(k3.enumeration_index, None);
}

#[test]
fn index_hidden_in_batch_of_first_write() {
    let mut ledger = scenario_ledger();
    seal(&mut ledger, vec![key(3)], vec![]);
    let at_ten = CommonStorage::snapshot(&ledger, L1BatchNumber(10)).unwrap();
    assert_eq!(at_ten.slot(&key(3)).unwrap().enumeration_index, None);
    let at_eleven = CommonStorage::snapshot(&ledger, L1BatchNumber(11)).unwrap();
    let slot = at_eleven.slot(&key(3)).unwrap();
    assert_eq!(slot.enumeration_index, Some(20));
    assert_eq!(slot.value, value(0x33));
}

#[test]
fn no_protective_reads_gives_no_snapshot() {
    let mut ledger = Ledger::new();
    seal(&mut ledger, vec![], vec![(key(1), value(1))]);
    assert!(CommonStorage::snapshot(&ledger, L1BatchNumber(0)).is_none());
}

#[test]
fn unsealed_batch_gives_no_snapshot() {
    let ledger = scenario_ledger();
    assert!(CommonStorage::snapshot(&ledger, L1BatchNumber(11)).is_none());
    assert!(CommonStorage::snapshot(&ledger, L1BatchNumber(u32::MAX)).is_none());
}

#[test]
fn snapshot_keys_are_union_without_repeats() {
    let mut ledger = Ledger::new();
    seal(
        &mut ledger,
        vec![key(1), key(2), key(1)],
        vec![(key(2), value(5)), (key(4), value(6)), (key(4), value(7))],
    );
    let snapshot = CommonStorage::snapshot(&ledger, L1BatchNumber(0)).unwrap();
    assert_eq!(snapshot.keys(), vec![key(1), key(2), key(4)]);
    assert!(snapshot.slot(&key(3)).is_none());
}

#[test]
fn building_twice_gives_the_same_snapshot() {
    let ledger = scenario_ledger();
    let first = CommonStorage::snapshot(&ledger, L1BatchNumber(10)).unwrap();
    let second = CommonStorage::snapshot(&ledger, L1BatchNumber(10)).unwrap();
    assert_eq!(first.keys(), second.keys());
    for k in first.keys() {
        let a = first.slot(&k).unwrap();
        let b = second.slot(&k).unwrap();
        assert_eq!(a.value, b.value);
        assert_eq!(a.enumeration_index, b.enumeration_index);
    }
}

#[test]
fn snapshot_keeps_stored_bytecodes_and_leaves_out_missing_ones() {
    let mut ledger = Ledger::new();
    let stored = H256::from_low_u64_be(0xc0de);
    let missing = H256::from_low_u64_be(0xdead);
    ledger.insert_factory_dep(stored, vec![1, 2, 3]);
    ledger.push_batch(vec![stored, missing, stored], vec![key(1)], vec![]);
    let snapshot = CommonStorage::snapshot(&ledger, L1BatchNumber(0)).unwrap();
    assert_eq!(snapshot.factory_dep(&stored), Some(vec![1, 2, 3]));
    assert_eq!(snapshot.factory_dep(&missing), None);
}

#[test]
fn snapshot_from_parts_reads_last_entry() {
    let snapshot = StorageSnapshot::new(
        vec![
            (key(1), StorageSlot { value: value(1), enumeration_index: None }),
            (key(1), StorageSlot { value: value(2), enumeration_index: Some(4) }),
        ],
        vec![],
    );
    let slot = snapshot.slot(&key(1)).unwrap();
    assert_eq!(slot.value, value(2));
    assert_eq!(slot.enumeration_index, Some(4));
}
