//! The relational ledger: the history of every sealed L1 batch, the table of
//! initial writes and the bytecodes of deployed contracts. Every query is read-only.

use crate::table::{
    copy_vec, find_slot, lemma_last_pair_with_key, lemma_suffix_without_key, opt_bytes, pairs_to_map,
};
use crate::types::{InitialWrite, L1BatchNumber, StorageKey, StorageValue, H256};
use vstd::prelude::*;

verus! {

/// The header of a sealed batch, reduced to what state access needs.
#[derive(Debug)]
pub struct L1BatchHeader {
    /// Hashes of the bytecodes that the batch executed.
    pub used_contract_hashes: Vec<H256>,
}

/// What the ledger holds of one batch.
#[derive(Debug)]
pub struct BatchRecord {
    pub header: L1BatchHeader,
    /// Slots that the batch read without writing them.
    pub protective_reads: Vec<StorageKey>,
    /// Writes of the batch in execution order; a later write to a slot supersedes an earlier one.
    pub storage_logs: Vec<(StorageKey, StorageValue)>,
}

pub struct BatchView {
    pub used_contract_hashes: Seq<H256>,
    pub protective_reads: Seq<StorageKey>,
    pub storage_logs: Seq<(StorageKey, StorageValue)>,
}

impl View for BatchRecord {
    type V = BatchView;

    open spec fn view(&self) -> BatchView {
        BatchView {
            used_contract_hashes: self.header.used_contract_hashes@,
            protective_reads: self.protective_reads@,
            storage_logs: self.storage_logs@,
        }
    }
}

/// The ledger as a value: batch `n` is `batches[n]`.
pub struct LedgerView {
    pub batches: Seq<BatchView>,
    pub initial_writes: Map<StorageKey, InitialWrite>,
    pub factory_deps: Map<H256, Seq<u8>>,
    /// The batch that the node was recovered from, if it started from a state snapshot.
    pub snapshot_recovery: Option<L1BatchNumber>,
}

/// The ledger store.
#[derive(Debug)]
pub struct Ledger {
    batches: Vec<BatchRecord>,
    initial_writes: Vec<(StorageKey, InitialWrite)>,
    factory_deps: Vec<(H256, Vec<u8>)>,
    snapshot_recovery: Option<L1BatchNumber>,
}

/// A list of bytecodes with each bytecode seen as a sequence of bytes.
pub open spec fn bytecode_pairs(s: Seq<(H256, Vec<u8>)>) -> Seq<(H256, Seq<u8>)> {
    s.map_values(|p: (H256, Vec<u8>)| (p.0, p.1@))
}

/// The map that a list of bytecodes stands for.
pub open spec fn bytecode_map(s: Seq<(H256, Vec<u8>)>) -> Map<H256, Seq<u8>> {
    pairs_to_map(bytecode_pairs(s))
}

/// A copy of the bytecode stored under `hash` in a list of bytecodes.
pub fn find_bytecode(table: &Vec<(H256, Vec<u8>)>, hash: &H256) -> (r: Option<Vec<u8>>)
    ensures
        opt_bytes(r) == map_get(bytecode_map(table@), *hash),
{
    let mut i: usize = table.len();
    while i > 0
        invariant
            i <= table@.len(),
            forall|j: int| i <= j < table@.len() ==> table@[j].0 != *hash,
        decreases i,
    {
        if table[i - 1].0 == *hash {
            proof {
                lemma_last_pair_with_key(bytecode_pairs(table@), i - 1);
            }
            return Some(copy_vec(&table[i - 1].1));
        }
        i = i - 1;
    }
    proof {
        lemma_suffix_without_key(bytecode_pairs(table@), 0, *hash);
        assert(bytecode_pairs(table@).subrange(0, 0) =~= Seq::<(H256, Seq<u8>)>::empty());
    }
    None
}

impl View for Ledger {
    type V = LedgerView;

    closed spec fn view(&self) -> LedgerView {
        LedgerView {
            batches: self.batches@.map_values(|r: BatchRecord| r@),
            initial_writes: pairs_to_map(self.initial_writes@),
            factory_deps: bytecode_map(self.factory_deps@),
            snapshot_recovery: self.snapshot_recovery,
        }
    }
}

/// The value as an option: present exactly when the map holds the key.
pub open spec fn map_get<K, V>(m: Map<K, V>, k: K) -> Option<V> {
    if m.dom().contains(k) {
        Some(m[k])
    } else {
        None
    }
}

/// The last value written to `k` by the batches before `b`, if any was.
pub open spec fn value_before(l: LedgerView, k: StorageKey, b: int) -> Option<StorageValue>
    decreases b,
{
    if b <= 0 {
        None
    } else if b > l.batches.len() {
        value_before(l, k, l.batches.len() as int)
    } else {
        let m = pairs_to_map(l.batches[b - 1].storage_logs);
        if m.dom().contains(k) {
            Some(m[k])
        } else {
            value_before(l, k, b - 1)
        }
    }
}

/// The enumeration index of `k` as seen before batch `b`: only one assigned by an earlier batch.
pub open spec fn index_before(l: LedgerView, k: StorageKey, b: int) -> Option<u64> {
    match map_get(l.initial_writes, k) {
        Some(w) => if (w.l1_batch.0 as int) < b {
            Some(w.index)
        } else {
            None
        },
        None => None,
    }
}

/// Every slot that a batch writes has an initial write, made in that batch or an earlier one.
pub open spec fn initial_writes_cover_writes(l: LedgerView) -> bool {
    forall|b: int, i: int|
        0 <= b < l.batches.len() && 0 <= i < l.batches[b].storage_logs.len() ==> {
            let k = (#[trigger] l.batches[b].storage_logs[i]).0;
            l.initial_writes.dom().contains(k) && l.initial_writes[k].l1_batch.0 <= b
        }
}

/// A slot with a value before batch `b` was written by some batch before `b`.
pub proof fn lemma_value_before_was_written(l: LedgerView, k: StorageKey, b: int)
    requires
        value_before(l, k, b) is Some,
    ensures
        exists|j: int, i: int|
            0 <= j < b && j < l.batches.len() && 0 <= i < l.batches[j].storage_logs.len()
                && (#[trigger] l.batches[j].storage_logs[i]).0 == k,
    decreases b,
{
    if b > l.batches.len() {
        lemma_value_before_was_written(l, k, l.batches.len() as int);
    } else if pairs_to_map(l.batches[b - 1].storage_logs).dom().contains(k) {
        crate::table::lemma_key_has_pair(l.batches[b - 1].storage_logs, k);
        let i = choose|i: int|
            0 <= i < l.batches[b - 1].storage_logs.len() && (#[trigger] l.batches[b - 1].storage_logs[i]).0 == k;
        assert(l.batches[b - 1].storage_logs[i].0 == k);
    } else {
        lemma_value_before_was_written(l, k, b - 1);
    }
}

impl Ledger {
    /// Well-formed: every sealed batch has a 32-bit number.
    pub open spec fn wf(&self) -> bool {
        self@.batches.len() <= u32::MAX
    }

    pub fn new() -> (r: Ledger)
        ensures
            r.wf(),
            r@.batches.len() == 0,
            r@.initial_writes == Map::<StorageKey, InitialWrite>::empty(),
            r@.factory_deps == Map::<H256, Seq<u8>>::empty(),
            r@.snapshot_recovery.is_none(),
    {
        let r = Ledger {
            batches: Vec::new(),
            initial_writes: Vec::new(),
            factory_deps: Vec::new(),
            snapshot_recovery: None,
        };
        proof {
            assert(r@.batches =~= Seq::<BatchView>::empty());
            assert(bytecode_map(r.factory_deps@) == Map::<H256, Seq<u8>>::empty()) by {
                assert(bytecode_pairs(r.factory_deps@).len() == 0);
            }
        }
        r
    }

    /// Number of sealed batches; the next batch to seal gets this number.
    pub fn l1_batch_count(&self) -> (r: usize)
        ensures
            r == self@.batches.len(),
    {
        self.batches.len()
    }

    /// Seals the next batch.
    pub fn push_batch(
        &mut self,
        used_contract_hashes: Vec<H256>,
        protective_reads: Vec<StorageKey>,
        storage_logs: Vec<(StorageKey, StorageValue)>,
    )
        requires
            old(self)@.batches.len() < u32::MAX,
        ensures
            final(self).wf(),
            final(self)@.batches == old(self)@.batches.push(
                BatchView {
                    used_contract_hashes: used_contract_hashes@,
                    protective_reads: protective_reads@,
                    storage_logs: storage_logs@,
                },
            ),
            final(self)@.initial_writes == old(self)@.initial_writes,
            final(self)@.factory_deps == old(self)@.factory_deps,
            final(self)@.snapshot_recovery == old(self)@.snapshot_recovery,
    {
        let record = BatchRecord {
            header: L1BatchHeader { used_contract_hashes },
            protective_reads,
            storage_logs,
        };
        self.batches.push(record);
        proof {
            assert(self@.batches =~= old(self)@.batches.push(record@));
        }
    }

    /// Records the first write of `key`: the batch that made it and the index it was given.
    pub fn insert_initial_write(&mut self, key: StorageKey, l1_batch: L1BatchNumber, index: u64)
        ensures
            final(self).wf() == old(self).wf(),
            final(self)@.initial_writes == old(self)@.initial_writes.insert(
                key,
                InitialWrite { l1_batch, index },
            ),
            final(self)@.batches == old(self)@.batches,
            final(self)@.factory_deps == old(self)@.factory_deps,
            final(self)@.snapshot_recovery == old(self)@.snapshot_recovery,
    {
        let w = InitialWrite { l1_batch, index };
        proof {
            crate::table::lemma_push_pair(self.initial_writes@, key, w);
        }
        self.initial_writes.push((key, w));
    }

    /// Stores a bytecode under its hash.
    pub fn insert_factory_dep(&mut self, hash: H256, bytecode: Vec<u8>)
        ensures
            final(self).wf() == old(self).wf(),
            final(self)@.factory_deps == old(self)@.factory_deps.insert(hash, bytecode@),
            final(self)@.batches == old(self)@.batches,
            final(self)@.initial_writes == old(self)@.initial_writes,
            final(self)@.snapshot_recovery == old(self)@.snapshot_recovery,
    {
        let ghost before = self.factory_deps@;
        let ghost bytes = bytecode@;
        self.factory_deps.push((hash, bytecode));
        proof {
            assert(bytecode_pairs(self.factory_deps@) =~= bytecode_pairs(before).push((hash, bytes)));
            crate::table::lemma_push_pair(bytecode_pairs(before), hash, bytes);
        }
    }

    /// Marks the node as recovered from a state snapshot taken at `l1_batch`.
    pub fn set_snapshot_recovery(&mut self, l1_batch: L1BatchNumber)
        ensures
            final(self).wf() == old(self).wf(),
            final(self)@.snapshot_recovery == Some(l1_batch),
            final(self)@.batches == old(self)@.batches,
            final(self)@.initial_writes == old(self)@.initial_writes,
            final(self)@.factory_deps == old(self)@.factory_deps,
    {
        self.snapshot_recovery = Some(l1_batch);
    }

    pub fn get_applied_snapshot_status(&self) -> (r: Option<L1BatchNumber>)
        ensures
            r == self@.snapshot_recovery,
    {
        self.snapshot_recovery
    }

    /// The header of batch `b`, if the batch is sealed.
    pub fn get_l1_batch_header(&self, b: L1BatchNumber) -> (r: Option<&L1BatchHeader>)
        ensures
            r.is_some() == (b.0 < self@.batches.len()),
            r matches Some(h) ==> h.used_contract_hashes@ == self@.batches[b.0 as int].used_contract_hashes,
    {
        if (b.0 as usize) < self.batches.len() {
            Some(&self.batches[b.0 as usize].header)
        } else {
            None
        }
    }

    /// The slots that batch `b` read without writing; empty if the batch is not sealed.
    pub fn get_protective_reads_for_l1_batch(&self, b: L1BatchNumber) -> (r: Vec<StorageKey>)
        ensures
            r@ == if b.0 < self@.batches.len() {
                self@.batches[b.0 as int].protective_reads
            } else {
                Seq::empty()
            },
    {
        if (b.0 as usize) < self.batches.len() {
            copy_vec(&self.batches[b.0 as usize].protective_reads)
        } else {
            Vec::new()
        }
    }

    /// The writes of batch `b`; empty if the batch is not sealed.
    pub fn get_touched_slots_for_l1_batch(&self, b: L1BatchNumber) -> (r: Vec<(StorageKey, StorageValue)>)
        ensures
            r@ == if b.0 < self@.batches.len() {
                self@.batches[b.0 as int].storage_logs
            } else {
                Seq::empty()
            },
    {
        if (b.0 as usize) < self.batches.len() {
            copy_vec(&self.batches[b.0 as usize].storage_logs)
        } else {
            Vec::new()
        }
    }

    /// The last value written to `k` by the first `b` batches.
    pub fn value_before(&self, k: &StorageKey, b: u64) -> (r: Option<StorageValue>)
        ensures
            r == value_before(self@, *k, b as int),
    {
        let mut j: usize = if b < self.batches.len() as u64 {
            b as usize
        } else {
            self.batches.len()
        };
        while j > 0
            invariant
                j <= self@.batches.len(),
                value_before(self@, *k, b as int) == value_before(self@, *k, j as int),
            decreases j,
        {
            let logs = &self.batches[j - 1].storage_logs;
            assert(logs@ == self@.batches[j - 1].storage_logs);
            if let Some(v) = find_slot(logs, k) {
                return Some(*v);
            }
            j = j - 1;
        }
        None
    }

    /// For each of `keys`, the last value written to it before batch `b`.
    pub fn get_previous_storage_values(&self, keys: &Vec<StorageKey>, b: L1BatchNumber) -> (r: Vec<
        (StorageKey, Option<StorageValue>),
    >)
        ensures
            r@.len() == keys@.len(),
            forall|i: int|
                0 <= i < keys@.len() ==> #[trigger] r@[i] == (keys@[i], value_before(self@, keys@[i], b.0 as int)),
    {
        let mut r: Vec<(StorageKey, Option<StorageValue>)> = Vec::new();
        let mut i: usize = 0;
        while i < keys.len()
            invariant
                i <= keys@.len(),
                r@.len() == i,
                forall|j: int|
                    0 <= j < i ==> #[trigger] r@[j] == (keys@[j], value_before(self@, keys@[j], b.0 as int)),
            decreases keys@.len() - i,
        {
            let v = self.value_before(&keys[i], b.0 as u64);
            r.push((keys[i], v));
            i = i + 1;
        }
        r
    }

    /// The first write of `k`, if it was ever written.
    pub fn get_initial_write(&self, k: &StorageKey) -> (r: Option<InitialWrite>)
        ensures
            r == map_get(self@.initial_writes, *k),
    {
        match find_slot(&self.initial_writes, k) {
            Some(w) => Some(*w),
            None => None,
        }
    }

    /// For each of `keys`, the batch of its first write and the index that write gave it.
    pub fn get_l1_batches_and_indices_for_initial_writes(&self, keys: &Vec<StorageKey>) -> (r: Vec<
        (StorageKey, Option<InitialWrite>),
    >)
        ensures
            r@.len() == keys@.len(),
            forall|i: int|
                0 <= i < keys@.len() ==> #[trigger] r@[i] == (keys@[i], map_get(self@.initial_writes, keys@[i])),
    {
        let mut r: Vec<(StorageKey, Option<InitialWrite>)> = Vec::new();
        let mut i: usize = 0;
        while i < keys.len()
            invariant
                i <= keys@.len(),
                r@.len() == i,
                forall|j: int|
                    0 <= j < i ==> #[trigger] r@[j] == (keys@[j], map_get(self@.initial_writes, keys@[j])),
            decreases keys@.len() - i,
        {
            let w = self.get_initial_write(&keys[i]);
            r.push((keys[i], w));
            i = i + 1;
        }
        r
    }

    /// The stored bytecode for `hash`, if any.
    pub fn get_factory_dep(&self, hash: &H256) -> (r: Option<Vec<u8>>)
        ensures
            opt_bytes(r) == map_get(self@.factory_deps, *hash),
    {
        find_bytecode(&self.factory_deps, hash)
    }

    /// The stored bytecodes among `hashes`; a hash with no stored bytecode is left out.
    pub fn get_factory_deps(&self, hashes: &Vec<H256>) -> (r: Vec<(H256, Vec<u8>)>)
        ensures
            bytecode_map(r@) == Map::new(
                |h: H256| hashes@.contains(h) && self@.factory_deps.dom().contains(h),
                |h: H256| self@.factory_deps[h],
            ),
    {
        let mut r: Vec<(H256, Vec<u8>)> = Vec::new();
        let mut i: usize = 0;
        proof {
            assert(bytecode_map(r@) =~= Map::new(
                |h: H256| hashes@.subrange(0, 0).contains(h) && self@.factory_deps.dom().contains(h),
                |h: H256| self@.factory_deps[h],
            )) by {
                assert(bytecode_pairs(r@).len() == 0);
            }
        }
        while i < hashes.len()
            invariant
                i <= hashes@.len(),
                bytecode_map(r@) == Map::new(
                    |h: H256| hashes@.subrange(0, i as int).contains(h) && self@.factory_deps.dom().contains(h),
                    |h: H256| self@.factory_deps[h],
                ),
            decreases hashes@.len() - i,
        {
            let ghost before = r@;
            let h = hashes[i];
            match self.get_factory_dep(&h) {
                Some(bytes) => {
                    let ghost bv = bytes@;
                    r.push((h, bytes));
                    proof {
                        assert(bytecode_pairs(r@) =~= bytecode_pairs(before).push((h, bv)));
                        crate::table::lemma_push_pair(bytecode_pairs(before), h, bv);
                    }
                },
                None => {},
            }
            i = i + 1;
            proof {
                let p = hashes@.subrange(0, i as int);
                assert(p =~= hashes@.subrange(0, i - 1).push(h));
                assert forall|x: H256| #[trigger] p.contains(x) <==> (hashes@.subrange(0, i - 1).contains(x) || x == h) by {
                    if x == h {
                        assert(p[i - 1] == x);
                    }
                    if hashes@.subrange(0, i - 1).contains(x) {
                        let k = choose|k: int| 0 <= k < i - 1 && #[trigger] hashes@.subrange(0, i - 1)[k] == x;
                        assert(p[k] == x);
                    }
                }
                assert(bytecode_map(r@) =~= Map::new(
                    |h: H256| hashes@.subrange(0, i as int).contains(h) && self@.factory_deps.dom().contains(h),
                    |h: H256| self@.factory_deps[h],
                ));
            }
        }
        proof {
            assert(hashes@.subrange(0, hashes@.len() as int) =~= hashes@);
        }
        r
    }
}

} // verus!
