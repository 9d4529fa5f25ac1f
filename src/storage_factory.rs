//! One read interface over every backend, and the constructors that produce a backend
//! for a given batch.

use crate::in_memory::InMemoryStorage;
use crate::ledger::{Ledger, LedgerView};
use crate::postgres::PostgresStorage;
use crate::rocksdb::{
    catch_up_end, caught_up, lemma_catch_up_to_target, lemma_caught_up_next, CacheView,
    RocksdbStorage, RocksdbStorageBuilder,
};
use crate::rocksdb_with_memory::RocksdbWithMemory;
use crate::snapshot::{
    accessed_keys_of, assemble_storage, snapshot_model, snapshot_view_opt, SnapshotStorage,
    StorageSnapshot,
};
use crate::table::opt_bytes;
use crate::types::{L1BatchNumber, StorageKey, StorageValue, H256};
use vstd::prelude::*;

verus! {

/// Why a storage could not be produced.
#[derive(Debug, Clone, Copy, PartialEq, Eq, Structural)]
pub enum StorageError {
    /// The ledger holds neither the requested batch nor a snapshot it was recovered from.
    NoStateAvailable,
    /// The ledger was recovered from a snapshot of another batch than the requested one.
    SnapshotBatchMismatch { snapshot: L1BatchNumber, expected: L1BatchNumber },
    /// The cache has applied no batch.
    NoL1Batches,
    /// The cache, once caught up, stands at another batch than the requested one.
    CacheBatchMismatch { synchronized_to: L1BatchNumber, expected: L1BatchNumber },
}

impl StorageError {
    /// Whether the error shows that the stores disagree about history, rather than that
    /// some state is not available.
    pub fn is_structural(&self) -> (r: bool)
        ensures
            r == (self is SnapshotBatchMismatch || self is CacheBatchMismatch),
    {
        match self {
            StorageError::SnapshotBatchMismatch { .. } => true,
            StorageError::CacheBatchMismatch { .. } => true,
            _ => false,
        }
    }
}

/// A storage over one of the backends.
#[derive(Debug)]
pub enum CommonStorage<'a> {
    /// The ledger as it stood after a batch.
    Postgres(PostgresStorage<'a>),
    /// The embedded cache.
    Rocksdb(RocksdbStorage),
    /// The embedded cache with in-memory diffs on top.
    RocksdbWithMemory(RocksdbWithMemory),
    /// A snapshot for one batch, falling back to the ledger.
    Snapshot(SnapshotStorage<'a>),
    /// A store set by hand; meant for tests.
    Boxed(Box<InMemoryStorage>),
}

/// A storage that borrows nothing short-lived, so that it can be moved to another task.
pub type OwnedStorage = CommonStorage<'static>;

/// Whether the ledger can serve reads after batch `b`: it holds the batch, or was
/// recovered from a snapshot of exactly that batch.
pub open spec fn ledger_has_state(l: LedgerView, b: L1BatchNumber) -> bool {
    b.0 < l.batches.len() || l.snapshot_recovery == Some(b)
}

/// The error of a ledger that cannot serve reads after batch `b`.
pub open spec fn missing_state_error(l: LedgerView, b: L1BatchNumber) -> StorageError {
    match l.snapshot_recovery {
        Some(s) => StorageError::SnapshotBatchMismatch { snapshot: s, expected: b },
        None => StorageError::NoStateAvailable,
    }
}

/// The error of a cache that, caught up, has `next` as its next batch while batch `b` was requested.
pub open spec fn cache_mismatch_error(next: nat, b: L1BatchNumber) -> StorageError {
    if next == 0 {
        StorageError::NoL1Batches
    } else {
        StorageError::CacheBatchMismatch {
            synchronized_to: L1BatchNumber(next as u32),
            expected: b,
        }
    }
}

/// The cache `c` after catching up with the ledger to batch `b`.
pub open spec fn synced_to(c: CacheView, l: LedgerView, b: L1BatchNumber) -> CacheView {
    caught_up(c, l, catch_up_end(l, Some(b)))
}

/// What reading over the cache `c`, caught up to batch `b`, may give: never `Ok(None)` when
/// the cache needs no catch-up (no stop flag is read then); the caught-up cache if it stands
/// right after `b`; the mismatch error otherwise.
pub open spec fn cache_storage_outcome<'a>(
    c: CacheView,
    l: LedgerView,
    b: L1BatchNumber,
    r: Result<Option<CommonStorage<'a>>, StorageError>,
) -> bool {
    let synced = synced_to(c, l, b);
    &&& c.next_l1_batch >= catch_up_end(l, Some(b)) ==> !(r matches Ok(None))
    &&& match r {
        Ok(Some(s)) => synced.next_l1_batch == b.0 + 1 && (s matches CommonStorage::Rocksdb(x) && x@ == synced),
        Ok(None) => true,
        Err(e) => synced.next_l1_batch != b.0 + 1 && e == cache_mismatch_error(synced.next_l1_batch, b),
    }
}

/// A cache that already stands two batches past batch `b` cannot serve `b`: reading over it
/// fails with the mismatch error, which is structural.
pub proof fn lemma_cache_ahead_is_rejected<'a>(
    c: CacheView,
    l: LedgerView,
    b: L1BatchNumber,
    r: Result<Option<CommonStorage<'a>>, StorageError>,
)
    requires
        c.next_l1_batch == b.0 + 2,
        c.next_l1_batch <= u32::MAX,
        cache_storage_outcome(c, l, b, r),
    ensures
        r == Err::<Option<CommonStorage<'a>>, StorageError>(
            StorageError::CacheBatchMismatch {
                synchronized_to: L1BatchNumber((b.0 + 2) as u32),
                expected: b,
            },
        ),
{
    lemma_caught_up_next(c, l, catch_up_end(l, Some(b)));
}

/// A cache that stands at most one batch past a sealed batch `b` is caught up to right after
/// `b`: reading over it gives that cache unless a stop was requested.
pub proof fn lemma_cache_caught_up_to_target<'a>(
    c: CacheView,
    l: LedgerView,
    b: L1BatchNumber,
    r: Result<Option<CommonStorage<'a>>, StorageError>,
)
    requires
        c.next_l1_batch <= b.0 + 1,
        b.0 < l.batches.len(),
        cache_storage_outcome(c, l, b, r),
    ensures
        r is Ok,
        r matches Ok(Some(s)) ==> (s matches CommonStorage::Rocksdb(x) && x@.next_l1_batch == b.0 + 1),
{
    lemma_catch_up_to_target(c, l, b);
}

/// Each variant of the selector reads exactly as the backend it holds.
pub proof fn lemma_selector_delegates<'a>(s: CommonStorage<'a>, k: StorageKey, h: H256)
    ensures
        s matches CommonStorage::Postgres(p) ==> s.spec_read_value(k) == p.spec_read_value(k)
            && s.spec_is_write_initial(k) == p.spec_is_write_initial(k)
            && s.spec_factory_dep(h) == p.spec_factory_dep(h)
            && s.spec_enumeration_index(k) == p.spec_enumeration_index(k),
        s matches CommonStorage::Rocksdb(p) ==> s.spec_read_value(k) == p.spec_read_value(k)
            && s.spec_is_write_initial(k) == p.spec_is_write_initial(k)
            && s.spec_factory_dep(h) == p.spec_factory_dep(h)
            && s.spec_enumeration_index(k) == p.spec_enumeration_index(k),
        s matches CommonStorage::RocksdbWithMemory(p) ==> s.spec_read_value(k) == p.spec_read_value(k)
            && s.spec_is_write_initial(k) == p.spec_is_write_initial(k)
            && s.spec_factory_dep(h) == p.spec_factory_dep(h)
            && s.spec_enumeration_index(k) == p.spec_enumeration_index(k),
        s matches CommonStorage::Snapshot(p) ==> s.spec_read_value(k) == p.spec_read_value(k)
            && s.spec_is_write_initial(k) == p.spec_is_write_initial(k)
            && s.spec_factory_dep(h) == p.spec_factory_dep(h)
            && s.spec_enumeration_index(k) == p.spec_enumeration_index(k),
        s matches CommonStorage::Boxed(p) ==> s.spec_read_value(k) == p.spec_read_value(k)
            && s.spec_is_write_initial(k) == p.spec_is_write_initial(k)
            && s.spec_factory_dep(h) == p.spec_factory_dep(h)
            && s.spec_enumeration_index(k) == p.spec_enumeration_index(k),
{
}

impl<'a> CommonStorage<'a> {
    /// A storage over a store set by hand.
    pub fn boxed(storage: InMemoryStorage) -> (r: CommonStorage<'a>)
        ensures
            r matches CommonStorage::Boxed(s) && s@ == storage@,
    {
        CommonStorage::Boxed(Box::new(storage))
    }

    /// Reads over `connection` after batch `l1_batch_number`. Fails if the ledger holds
    /// neither that batch nor a snapshot recovery at it.
    pub fn postgres(connection: &'a Ledger, l1_batch_number: L1BatchNumber) -> (r: Result<
        PostgresStorage<'a>,
        StorageError,
    >)
        ensures
            r is Ok == ledger_has_state(connection@, l1_batch_number),
            r matches Ok(s) ==> s.ledger() == connection@ && s.batch() == l1_batch_number,
            r matches Err(e) ==> e == missing_state_error(connection@, l1_batch_number),
    {
        if (l1_batch_number.0 as usize) < connection.l1_batch_count() {
            return Ok(PostgresStorage::new(connection, l1_batch_number));
        }
        match connection.get_applied_snapshot_status() {
            None => Err(StorageError::NoStateAvailable),
            Some(s) => if s.0 != l1_batch_number.0 {
                Err(StorageError::SnapshotBatchMismatch { snapshot: s, expected: l1_batch_number })
            } else {
                Ok(PostgresStorage::new(connection, l1_batch_number))
            },
        }
    }

    /// Catches the cache up with the ledger to batch `l1_batch_number` (to the last sealed batch
    /// if the ledger ends earlier), then reads over it. Returns `Ok(None)` only if a stop was
    /// requested during the catch-up; fails unless the cache then stands right after
    /// `l1_batch_number`.
    pub fn rocksdb(
        connection: &Ledger,
        rocksdb: RocksdbStorage,
        stop_receiver: &tokio::sync::watch::Receiver<bool>,
        l1_batch_number: L1BatchNumber,
    ) -> (r: Result<Option<CommonStorage<'a>>, StorageError>)
        requires
            connection.wf(),
        ensures
            cache_storage_outcome(rocksdb@, connection@, l1_batch_number, r),
    {
        let builder = RocksdbStorageBuilder::from_rocksdb(rocksdb);
        let synced = match builder.synchronize(connection, stop_receiver, Some(l1_batch_number)) {
            Some(c) => c,
            None => return Ok(None),
        };
        let next = match synced.l1_batch_number() {
            Some(n) => n,
            None => return Err(StorageError::NoL1Batches),
        };
        if l1_batch_number.0 as u64 + 1 != next.0 as u64 {
            return Err(StorageError::CacheBatchMismatch { synchronized_to: next, expected: l1_batch_number });
        }
        Ok(Some(CommonStorage::Rocksdb(synced)))
    }

    /// Builds the snapshot of the slots that batch `l1_batch_number` accesses, as they stood
    /// before it, with the bytecodes it used. Returns `None` if the batch is not sealed or
    /// recorded no protective reads.
    pub fn snapshot(connection: &Ledger, l1_batch_number: L1BatchNumber) -> (r: Option<
        StorageSnapshot,
    >)
        ensures
            snapshot_view_opt(r) == snapshot_model(connection@, l1_batch_number),
    {
        let header = match connection.get_l1_batch_header(l1_batch_number) {
            Some(h) => h,
            None => return None,
        };
        let bytecode_hashes = &header.used_contract_hashes;
        let protective_reads = connection.get_protective_reads_for_l1_batch(l1_batch_number);
        if protective_reads.len() == 0 {
            return None;
        }
        let touched_slots = connection.get_touched_slots_for_l1_batch(l1_batch_number);
        let all_accessed_keys = accessed_keys_of(&protective_reads, &touched_slots);
        let previous_values = connection.get_previous_storage_values(&all_accessed_keys, l1_batch_number);
        let initial_write_info = connection.get_l1_batches_and_indices_for_initial_writes(&all_accessed_keys);
        let factory_deps = connection.get_factory_deps(bytecode_hashes);
        let storage = assemble_storage(l1_batch_number, &all_accessed_keys, &previous_values, &initial_write_info);
        let snapshot = StorageSnapshot::new(storage, factory_deps);
        proof {
            let model = snapshot_model(connection@, l1_batch_number).unwrap();
            assert(snapshot@.storage =~= model.storage);
            assert(snapshot@.factory_deps =~= model.factory_deps);
        }
        Some(snapshot)
    }
}


impl<'a> CommonStorage<'a> {
    pub open spec fn spec_read_value(&self, k: StorageKey) -> StorageValue {
        match self {
            CommonStorage::Postgres(s) => s.spec_read_value(k),
            CommonStorage::Rocksdb(s) => s.spec_read_value(k),
            CommonStorage::RocksdbWithMemory(s) => s.spec_read_value(k),
            CommonStorage::Snapshot(s) => s.spec_read_value(k),
            CommonStorage::Boxed(s) => s.spec_read_value(k),
        }
    }

    pub open spec fn spec_is_write_initial(&self, k: StorageKey) -> bool {
        match self {
            CommonStorage::Postgres(s) => s.spec_is_write_initial(k),
            CommonStorage::Rocksdb(s) => s.spec_is_write_initial(k),
            CommonStorage::RocksdbWithMemory(s) => s.spec_is_write_initial(k),
            CommonStorage::Snapshot(s) => s.spec_is_write_initial(k),
            CommonStorage::Boxed(s) => s.spec_is_write_initial(k),
        }
    }

    pub open spec fn spec_factory_dep(&self, h: H256) -> Option<Seq<u8>> {
        match self {
            CommonStorage::Postgres(s) => s.spec_factory_dep(h),
            CommonStorage::Rocksdb(s) => s.spec_factory_dep(h),
            CommonStorage::RocksdbWithMemory(s) => s.spec_factory_dep(h),
            CommonStorage::Snapshot(s) => s.spec_factory_dep(h),
            CommonStorage::Boxed(s) => s.spec_factory_dep(h),
        }
    }

    pub open spec fn spec_enumeration_index(&self, k: StorageKey) -> Option<u64> {
        match self {
            CommonStorage::Postgres(s) => s.spec_enumeration_index(k),
            CommonStorage::Rocksdb(s) => s.spec_enumeration_index(k),
            CommonStorage::RocksdbWithMemory(s) => s.spec_enumeration_index(k),
            CommonStorage::Snapshot(s) => s.spec_enumeration_index(k),
            CommonStorage::Boxed(s) => s.spec_enumeration_index(k),
        }
    }

    /// The value of `key`; zero if it was never written.
    pub fn read_value(&self, key: &StorageKey) -> (r: StorageValue)
        ensures
            r == self.spec_read_value(*key),
    {
        match self {
            CommonStorage::Postgres(s) => s.read_value(key),
            CommonStorage::Rocksdb(s) => s.read_value(key),
            CommonStorage::RocksdbWithMemory(s) => s.read_value(key),
            CommonStorage::Snapshot(s) => s.read_value(key),
            CommonStorage::Boxed(s) => s.read_value(key),
        }
    }

    /// Whether a write of `key` would be the first write of it ever.
    pub fn is_write_initial(&self, key: &StorageKey) -> (r: bool)
        ensures
            r == self.spec_is_write_initial(*key),
    {
        match self {
            CommonStorage::Postgres(s) => s.is_write_initial(key),
            CommonStorage::Rocksdb(s) => s.is_write_initial(key),
            CommonStorage::RocksdbWithMemory(s) => s.is_write_initial(key),
            CommonStorage::Snapshot(s) => s.is_write_initial(key),
            CommonStorage::Boxed(s) => s.is_write_initial(key),
        }
    }

    /// The bytecode stored under `hash`, if any.
    pub fn load_factory_dep(&self, hash: H256) -> (r: Option<Vec<u8>>)
        ensures
            opt_bytes(r) == self.spec_factory_dep(hash),
    {
        match self {
            CommonStorage::Postgres(s) => s.load_factory_dep(hash),
            CommonStorage::Rocksdb(s) => s.load_factory_dep(hash),
            CommonStorage::RocksdbWithMemory(s) => s.load_factory_dep(hash),
            CommonStorage::Snapshot(s) => s.load_factory_dep(hash),
            CommonStorage::Boxed(s) => s.load_factory_dep(hash),
        }
    }

    /// The enumeration index of `key`, if it has one.
    pub fn get_enumeration_index(&self, key: &StorageKey) -> (r: Option<u64>)
        ensures
            r == self.spec_enumeration_index(*key),
    {
        match self {
            CommonStorage::Postgres(s) => s.get_enumeration_index(key),
            CommonStorage::Rocksdb(s) => s.get_enumeration_index(key),
            CommonStorage::RocksdbWithMemory(s) => s.get_enumeration_index(key),
            CommonStorage::Snapshot(s) => s.get_enumeration_index(key),
            CommonStorage::Boxed(s) => s.get_enumeration_index(key),
        }
    }
}

impl<'a> From<PostgresStorage<'a>> for CommonStorage<'a> {
    fn from(value: PostgresStorage<'a>) -> (r: CommonStorage<'a>) {
        CommonStorage::Postgres(value)
    }
}

impl<'a> vstd::std_specs::convert::FromSpecImpl<PostgresStorage<'a>> for CommonStorage<'a> {
    open spec fn obeys_from_spec() -> bool {
        true
    }

    open spec fn from_spec(v: PostgresStorage<'a>) -> CommonStorage<'a> {
        CommonStorage::Postgres(v)
    }
}

impl<'a> From<RocksdbStorage> for CommonStorage<'a> {
    fn from(value: RocksdbStorage) -> (r: CommonStorage<'a>) {
        CommonStorage::Rocksdb(value)
    }
}

impl<'a> vstd::std_specs::convert::FromSpecImpl<RocksdbStorage> for CommonStorage<'a> {
    open spec fn obeys_from_spec() -> bool {
        true
    }

    open spec fn from_spec(v: RocksdbStorage) -> CommonStorage<'a> {
        CommonStorage::Rocksdb(v)
    }
}

impl<'a> From<SnapshotStorage<'a>> for CommonStorage<'a> {
    fn from(value: SnapshotStorage<'a>) -> (r: CommonStorage<'a>) {
        CommonStorage::Snapshot(value)
    }
}

impl<'a> vstd::std_specs::convert::FromSpecImpl<SnapshotStorage<'a>> for CommonStorage<'a> {
    open spec fn obeys_from_spec() -> bool {
        true
    }

    open spec fn from_spec(v: SnapshotStorage<'a>) -> CommonStorage<'a> {
        CommonStorage::Snapshot(v)
    }
}

} // verus!
