//! The embedded cache with in-memory diffs of batches that it has not stored yet.

use crate::ledger::{bytecode_map, find_bytecode};
use crate::rocksdb::RocksdbStorage;
use crate::table::{find_slot, opt_bytes, pairs_to_map};
use crate::types::{StorageKey, StorageValue, H256};
use vstd::prelude::*;

verus! {

/// The state changes of one batch.
#[derive(Debug)]
pub struct BatchDiff {
    /// New values of the slots that the batch wrote.
    pub state_diff: Vec<(StorageKey, StorageValue)>,
    /// Enumeration indices that the batch assigned.
    pub enum_index_diff: Vec<(StorageKey, u64)>,
    /// Bytecodes that the batch deployed.
    pub factory_dep_diff: Vec<(H256, Vec<u8>)>,
}

pub struct BatchDiffView {
    pub state_diff: Map<StorageKey, StorageValue>,
    pub enum_index_diff: Map<StorageKey, u64>,
    pub factory_dep_diff: Map<H256, Seq<u8>>,
}

impl View for BatchDiff {
    type V = BatchDiffView;

    open spec fn view(&self) -> BatchDiffView {
        BatchDiffView {
            state_diff: pairs_to_map(self.state_diff@),
            enum_index_diff: pairs_to_map(self.enum_index_diff@),
            factory_dep_diff: bytecode_map(self.factory_dep_diff@),
        }
    }
}

/// The views of a list of diffs.
pub open spec fn diff_views(s: Seq<BatchDiff>) -> Seq<BatchDiffView> {
    s.map_values(|d: BatchDiff| d@)
}

/// The value that the newest diff writing `k` gave it.
pub open spec fn diffs_value(ds: Seq<BatchDiffView>, k: StorageKey) -> Option<StorageValue>
    decreases ds.len(),
{
    if ds.len() == 0 {
        None
    } else if ds.last().state_diff.dom().contains(k) {
        Some(ds.last().state_diff[k])
    } else {
        diffs_value(ds.drop_last(), k)
    }
}

/// The enumeration index that the newest diff assigning one gave `k`.
pub open spec fn diffs_index(ds: Seq<BatchDiffView>, k: StorageKey) -> Option<u64>
    decreases ds.len(),
{
    if ds.len() == 0 {
        None
    } else if ds.last().enum_index_diff.dom().contains(k) {
        Some(ds.last().enum_index_diff[k])
    } else {
        diffs_index(ds.drop_last(), k)
    }
}

/// The bytecode for `h` in the newest diff that has one.
pub open spec fn diffs_dep(ds: Seq<BatchDiffView>, h: H256) -> Option<Seq<u8>>
    decreases ds.len(),
{
    if ds.len() == 0 {
        None
    } else if ds.last().factory_dep_diff.dom().contains(h) {
        Some(ds.last().factory_dep_diff[h])
    } else {
        diffs_dep(ds.drop_last(), h)
    }
}

/// Reads over the cache, with the diffs (oldest first) applied on top of it.
#[derive(Debug)]
pub struct RocksdbWithMemory {
    pub rocksdb: RocksdbStorage,
    pub batch_diffs: Vec<BatchDiff>,
}

impl RocksdbWithMemory {
    pub open spec fn diffs(&self) -> Seq<BatchDiffView> {
        diff_views(self.batch_diffs@)
    }

    pub open spec fn spec_read_value(&self, k: StorageKey) -> StorageValue {
        match diffs_value(self.diffs(), k) {
            Some(v) => v,
            None => self.rocksdb.spec_read_value(k),
        }
    }

    pub open spec fn spec_enumeration_index(&self, k: StorageKey) -> Option<u64> {
        match diffs_index(self.diffs(), k) {
            Some(i) => Some(i),
            None => self.rocksdb.spec_enumeration_index(k),
        }
    }

    pub open spec fn spec_is_write_initial(&self, k: StorageKey) -> bool {
        match diffs_index(self.diffs(), k) {
            Some(_) => false,
            None => self.rocksdb.spec_is_write_initial(k),
        }
    }

    pub open spec fn spec_factory_dep(&self, h: H256) -> Option<Seq<u8>> {
        match diffs_dep(self.diffs(), h) {
            Some(b) => Some(b),
            None => self.rocksdb.spec_factory_dep(h),
        }
    }

    /// The value of `k` in the newest diff that wrote it.
    fn diff_value(&self, k: &StorageKey) -> (r: Option<StorageValue>)
        ensures
            r == diffs_value(self.diffs(), *k),
    {
        let mut i: usize = self.batch_diffs.len();
        assert(self.diffs().subrange(0, i as int) =~= self.diffs());
        while i > 0
            invariant
                i <= self.batch_diffs@.len(),
                diffs_value(self.diffs(), *k) == diffs_value(self.diffs().subrange(0, i as int), *k),
            decreases i,
        {
            let ghost p = self.diffs().subrange(0, i as int);
            assert(p.drop_last() =~= self.diffs().subrange(0, i - 1));
            assert(p.last() == self.batch_diffs@[i - 1]@);
            if let Some(v) = find_slot(&self.batch_diffs[i - 1].state_diff, k) {
                return Some(*v);
            }
            i = i - 1;
        }
        None
    }

    /// The enumeration index of `k` in the newest diff that assigned one.
    fn diff_index(&self, k: &StorageKey) -> (r: Option<u64>)
        ensures
            r == diffs_index(self.diffs(), *k),
    {
        let mut i: usize = self.batch_diffs.len();
        assert(self.diffs().subrange(0, i as int) =~= self.diffs());
        while i > 0
            invariant
                i <= self.batch_diffs@.len(),
                diffs_index(self.diffs(), *k) == diffs_index(self.diffs().subrange(0, i as int), *k),
            decreases i,
        {
            let ghost p = self.diffs().subrange(0, i as int);
            assert(p.drop_last() =~= self.diffs().subrange(0, i - 1));
            assert(p.last() == self.batch_diffs@[i - 1]@);
            if let Some(v) = find_slot(&self.batch_diffs[i - 1].enum_index_diff, k) {
                return Some(*v);
            }
            i = i - 1;
        }
        None
    }

    /// The bytecode for `h` in the newest diff that has one.
    fn diff_dep(&self, h: &H256) -> (r: Option<Vec<u8>>)
        ensures
            opt_bytes(r) == diffs_dep(self.diffs(), *h),
    {
        let mut i: usize = self.batch_diffs.len();
        assert(self.diffs().subrange(0, i as int) =~= self.diffs());
        while i > 0
            invariant
                i <= self.batch_diffs@.len(),
                diffs_dep(self.diffs(), *h) == diffs_dep(self.diffs().subrange(0, i as int), *h),
            decreases i,
        {
            let ghost p = self.diffs().subrange(0, i as int);
            assert(p.drop_last() =~= self.diffs().subrange(0, i - 1));
            assert(p.last() == self.batch_diffs@[i - 1]@);
            let deps = &self.batch_diffs[i - 1].factory_dep_diff;
            assert(p.last().factory_dep_diff == bytecode_map(deps@));
            if let Some(b) = find_bytecode(deps, h) {
                return Some(b);
            }
            i = i - 1;
        }
        None
    }

    pub fn read_value(&self, key: &StorageKey) -> (r: StorageValue)
        ensures
            r == self.spec_read_value(*key),
    {
        match self.diff_value(key) {
            Some(v) => v,
            None => self.rocksdb.read_value(key),
        }
    }

    /// Whether a write of `key` would be its first: no diff assigned it an index and the
    /// cache never saw it written.
    pub fn is_write_initial(&self, key: &StorageKey) -> (r: bool)
        ensures
            r == self.spec_is_write_initial(*key),
    {
        match self.diff_index(key) {
            Some(_) => false,
            None => self.rocksdb.is_write_initial(key),
        }
    }

    pub fn load_factory_dep(&self, hash: H256) -> (r: Option<Vec<u8>>)
        ensures
            opt_bytes(r) == self.spec_factory_dep(hash),
    {
        match self.diff_dep(&hash) {
            Some(b) => Some(b),
            None => self.rocksdb.load_factory_dep(hash),
        }
    }

    pub fn get_enumeration_index(&self, key: &StorageKey) -> (r: Option<u64>)
        ensures
            r == self.spec_enumeration_index(*key),
    {
        match self.diff_index(key) {
            Some(i) => Some(i),
            None => self.rocksdb.get_enumeration_index(key),
        }
    }
}

} // verus!
