//! Point-in-time snapshots of the slots that one batch accesses.

use crate::ledger::{
    bytecode_map, find_bytecode, index_before, initial_writes_cover_writes,
    lemma_value_before_was_written, value_before, LedgerView,
};
use crate::postgres::PostgresStorage;
use crate::table::{opt_bytes, pairs_to_map};
use crate::types::{zero_word, InitialWrite, L1BatchNumber, StorageKey, StorageSlot, StorageValue, H256};
use vstd::prelude::*;

verus! {

/// The slots accessed by one batch as they stood before it, and the bytecodes it used.
#[derive(Debug)]
pub struct StorageSnapshot {
    storage: Vec<(StorageKey, StorageSlot)>,
    factory_deps: Vec<(H256, Vec<u8>)>,
}

pub struct SnapshotView {
    /// The slots in the order they were assembled; a later entry for a key shadows an earlier one.
    pub storage: Seq<(StorageKey, StorageSlot)>,
    pub factory_deps: Map<H256, Seq<u8>>,
}

impl View for StorageSnapshot {
    type V = SnapshotView;

    closed spec fn view(&self) -> SnapshotView {
        SnapshotView { storage: self.storage@, factory_deps: bytecode_map(self.factory_deps@) }
    }
}

/// The sequence with every element after its first occurrence removed.
pub open spec fn dedup<A>(s: Seq<A>) -> Seq<A>
    decreases s.len(),
{
    if s.len() == 0 {
        Seq::empty()
    } else {
        let d = dedup(s.drop_last());
        if d.contains(s.last()) {
            d
        } else {
            d.push(s.last())
        }
    }
}

/// Removing repeats keeps the elements and leaves none twice.
pub proof fn lemma_dedup<A>(s: Seq<A>)
    ensures
        dedup(s).to_set() == s.to_set(),
        dedup(s).no_duplicates(),
    decreases s.len(),
{
    if s.len() == 0 {
        assert(dedup(s).to_set() =~= s.to_set());
    } else {
        let t = s.drop_last();
        let x = s.last();
        lemma_dedup(t);
        let d = dedup(t);
        assert(s =~= t.push(x));
        assert forall|y: A| #[trigger] s.to_set().contains(y) <==> (t.to_set().contains(y) || y == x) by {
            if s.contains(y) {
                let k = choose|k: int| 0 <= k < s.len() && s[k] == y;
                if k < s.len() - 1 {
                    assert(t[k] == y);
                }
            }
            if t.contains(y) {
                let k = choose|k: int| 0 <= k < t.len() && t[k] == y;
                assert(s[k] == y);
            }
            if y == x {
                assert(s[s.len() - 1] == y);
            }
        }
        if d.contains(x) {
            assert(dedup(s).to_set() =~= s.to_set());
        } else {
            let e = d.push(x);
            assert forall|y: A| #[trigger] e.to_set().contains(y) <==> (d.to_set().contains(y) || y == x) by {
                if e.contains(y) {
                    let k = choose|k: int| 0 <= k < e.len() && e[k] == y;
                    if k < e.len() - 1 {
                        assert(d[k] == y);
                    }
                }
                if d.contains(y) {
                    let k = choose|k: int| 0 <= k < d.len() && d[k] == y;
                    assert(e[k] == y);
                }
                if y == x {
                    assert(e[e.len() - 1] == y);
                }
            }
            assert(dedup(s).to_set() =~= s.to_set());
            assert forall|i: int, j: int| 0 <= i < e.len() && 0 <= j < e.len() && i != j implies e[i] != e[j] by {
                if i == e.len() - 1 {
                    assert(d[j] == e[j]);
                } else if j == e.len() - 1 {
                    assert(d[i] == e[i]);
                }
            }
        }
    }
}

/// The slots of a list of writes.
pub open spec fn slot_keys(logs: Seq<(StorageKey, StorageValue)>) -> Seq<StorageKey> {
    logs.map_values(|p: (StorageKey, StorageValue)| p.0)
}

/// The slots of a list of snapshot entries.
pub open spec fn entry_keys(entries: Seq<(StorageKey, StorageSlot)>) -> Seq<StorageKey> {
    entries.map_values(|p: (StorageKey, StorageSlot)| p.0)
}

/// The slots that batch `b` accesses, each once: its protective reads, then the slots it wrote.
pub open spec fn accessed_keys(l: LedgerView, b: int) -> Seq<StorageKey> {
    dedup(l.batches[b].protective_reads + slot_keys(l.batches[b].storage_logs))
}

/// What a snapshot for batch `b` holds of slot `k`.
pub open spec fn slot_before(l: LedgerView, k: StorageKey, b: int) -> StorageSlot {
    StorageSlot {
        value: match value_before(l, k, b) {
            Some(v) => v,
            None => zero_word(),
        },
        enumeration_index: index_before(l, k, b),
    }
}

/// The snapshot for batch `b`: none if the batch is not sealed or recorded no protective reads.
pub open spec fn snapshot_model(l: LedgerView, b: L1BatchNumber) -> Option<SnapshotView> {
    if b.0 >= l.batches.len() || l.batches[b.0 as int].protective_reads.len() == 0 {
        None
    } else {
        let keys = accessed_keys(l, b.0 as int);
        Some(
            SnapshotView {
                storage: keys.map_values(|k: StorageKey| (k, slot_before(l, k, b.0 as int))),
                factory_deps: Map::new(
                    |h: H256|
                        l.batches[b.0 as int].used_contract_hashes.contains(h)
                            && l.factory_deps.dom().contains(h),
                    |h: H256| l.factory_deps[h],
                ),
            },
        )
    }
}

/// A batch that recorded no protective reads, or that is not sealed, has no snapshot.
pub proof fn lemma_no_protective_reads_no_snapshot(l: LedgerView, b: L1BatchNumber)
    requires
        b.0 < l.batches.len() ==> l.batches[b.0 as int].protective_reads.len() == 0,
    ensures
        snapshot_model(l, b).is_none(),
{
}

/// A snapshot for batch `b` gives a slot an enumeration index exactly when the slot's first
/// write came in a batch before `b`, and then gives the index of that write.
pub proof fn lemma_snapshot_indices_precede_batch(l: LedgerView, b: L1BatchNumber)
    ensures
        snapshot_model(l, b) matches Some(s) ==> forall|i: int|
            0 <= i < s.storage.len() ==> (#[trigger] s.storage[i]).1.enumeration_index == if l.initial_writes.dom().contains(s.storage[i].0)
                && l.initial_writes[s.storage[i].0].l1_batch.0 < b.0 {
                Some(l.initial_writes[s.storage[i].0].index)
            } else {
                None
            },
{
}

/// The slots of a snapshot for batch `b` are its protective reads and the slots it wrote,
/// each once and no other.
pub proof fn lemma_snapshot_keys_are_accessed_keys(l: LedgerView, b: L1BatchNumber)
    ensures
        snapshot_model(l, b) matches Some(s) ==> {
            &&& entry_keys(s.storage).no_duplicates()
            &&& entry_keys(s.storage).to_set() == l.batches[b.0 as int].protective_reads.to_set()
                + slot_keys(l.batches[b.0 as int].storage_logs).to_set()
        },
{
    if let Some(s) = snapshot_model(l, b) {
        let all = l.batches[b.0 as int].protective_reads + slot_keys(l.batches[b.0 as int].storage_logs);
        assert(entry_keys(s.storage) =~= dedup(all));
        lemma_dedup(all);
        vstd::seq_lib::seq_to_set_distributes_over_add(
            l.batches[b.0 as int].protective_reads,
            slot_keys(l.batches[b.0 as int].storage_logs),
        );
    }
}

/// Over a ledger whose initial writes cover its writes, a slot that a snapshot for batch `b`
/// gives no enumeration index was written by no batch before `b`, so it reads as zero.
pub proof fn lemma_unindexed_slots_read_zero(l: LedgerView, b: L1BatchNumber)
    requires
        initial_writes_cover_writes(l),
    ensures
        snapshot_model(l, b) matches Some(s) ==> forall|i: int|
            0 <= i < s.storage.len() && (#[trigger] s.storage[i]).1.enumeration_index is None
                ==> s.storage[i].1.value == zero_word(),
{
    if let Some(s) = snapshot_model(l, b) {
        assert forall|i: int|
            0 <= i < s.storage.len() && (#[trigger] s.storage[i]).1.enumeration_index is None implies s.storage[i].1.value
                == zero_word() by {
            let k = s.storage[i].0;
            if value_before(l, k, b.0 as int) is Some {
                lemma_value_before_was_written(l, k, b.0 as int);
                let (j, x) = choose|j: int, x: int|
                    0 <= j < b.0 && j < l.batches.len() && 0 <= x < l.batches[j].storage_logs.len()
                        && (#[trigger] l.batches[j].storage_logs[x]).0 == k;
                assert(l.batches[j].storage_logs[x].0 == k);
            }
        }
    }
}

/// The snapshot's view, if there is a snapshot.
pub open spec fn snapshot_view_opt(r: Option<StorageSnapshot>) -> Option<SnapshotView> {
    match r {
        Some(s) => Some(s@),
        None => None,
    }
}

/// Two builds of the snapshot of one batch over the same ledger give the same result:
/// both none, or two snapshots with the same entries in the same order and the same bytecodes.
pub proof fn lemma_snapshot_deterministic(
    l: LedgerView,
    b: L1BatchNumber,
    first: Option<StorageSnapshot>,
    second: Option<StorageSnapshot>,
)
    requires
        snapshot_view_opt(first) == snapshot_model(l, b),
        snapshot_view_opt(second) == snapshot_model(l, b),
    ensures
        first.is_some() == second.is_some(),
        first matches Some(x) ==> second matches Some(y) && x@ == y@,
{
}

/// Whether `v` holds `k`.
fn contains_key(v: &Vec<StorageKey>, k: &StorageKey) -> (r: bool)
    ensures
        r == v@.contains(*k),
{
    let mut i: usize = 0;
    while i < v.len()
        invariant
            i <= v@.len(),
            forall|j: int| 0 <= j < i ==> v@[j] != *k,
        decreases v@.len() - i,
    {
        if v[i] == *k {
            assert(v@[i as int] == *k);
            return true;
        }
        i = i + 1;
    }
    false
}

/// The slots that a batch accesses, each once: the protective reads, then the written slots,
/// in order of first appearance.
pub fn accessed_keys_of(
    protective_reads: &Vec<StorageKey>,
    touched_slots: &Vec<(StorageKey, StorageValue)>,
) -> (r: Vec<StorageKey>)
    ensures
        r@ == dedup(protective_reads@ + slot_keys(touched_slots@)),
{
    let ghost all = protective_reads@ + slot_keys(touched_slots@);
    let mut r: Vec<StorageKey> = Vec::new();
    let n = protective_reads.len();
    let mut i: usize = 0;
    assert(all.subrange(0, 0) =~= Seq::<StorageKey>::empty());
    while i < n
        invariant
            n == protective_reads@.len(),
            all == protective_reads@ + slot_keys(touched_slots@),
            i <= n,
            r@ == dedup(all.subrange(0, i as int)),
        decreases n - i,
    {
        let k = protective_reads[i];
        assert(all.subrange(0, i + 1).drop_last() =~= all.subrange(0, i as int));
        push_new(&mut r, k);
        i = i + 1;
    }
    let mut j: usize = 0;
    while j < touched_slots.len()
        invariant
            n == protective_reads@.len(),
            all == protective_reads@ + slot_keys(touched_slots@),
            j <= touched_slots@.len(),
            r@ == dedup(all.subrange(0, n + j)),
        decreases touched_slots@.len() - j,
    {
        let k = touched_slots[j].0;
        assert(all.subrange(0, n + j + 1).drop_last() =~= all.subrange(0, n + j));
        assert(all[n + j] == k);
        push_new(&mut r, k);
        j = j + 1;
    }
    assert(all.subrange(0, all.len() as int) =~= all);
    r
}

/// Appends `k` unless `r` already holds it.
fn push_new(r: &mut Vec<StorageKey>, k: StorageKey)
    ensures
        final(r)@ == if old(r)@.contains(k) {
            old(r)@
        } else {
            old(r)@.push(k)
        },
{
    if !contains_key(r, &k) {
        r.push(k);
    }
}

/// The slot entries of a snapshot for batch `b`, from the queried facts about `keys`:
/// `previous_values` and `initial_writes` hold one entry per key, in the order of `keys`.
/// A slot gets its enumeration index only if its first write came before `b`.
pub fn assemble_storage(
    l1_batch_number: L1BatchNumber,
    keys: &Vec<StorageKey>,
    previous_values: &Vec<(StorageKey, Option<StorageValue>)>,
    initial_writes: &Vec<(StorageKey, Option<InitialWrite>)>,
) -> (r: Vec<(StorageKey, StorageSlot)>)
    requires
        previous_values@.len() == keys@.len(),
        initial_writes@.len() == keys@.len(),
    ensures
        r@.len() == keys@.len(),
        forall|i: int|
            0 <= i < keys@.len() ==> #[trigger] r@[i] == (
                keys@[i],
                assembled_slot(l1_batch_number, previous_values@[i].1, initial_writes@[i].1),
            ),
{
    let mut r: Vec<(StorageKey, StorageSlot)> = Vec::new();
    let mut i: usize = 0;
    while i < keys.len()
        invariant
            previous_values@.len() == keys@.len(),
            initial_writes@.len() == keys@.len(),
            i <= keys@.len(),
            r@.len() == i,
            forall|j: int|
                0 <= j < i ==> #[trigger] r@[j] == (
                    keys@[j],
                    assembled_slot(l1_batch_number, previous_values@[j].1, initial_writes@[j].1),
                ),
        decreases keys@.len() - i,
    {
        let value = match previous_values[i].1 {
            Some(v) => v,
            None => H256::zero(),
        };
        let enumeration_index = match initial_writes[i].1 {
            Some(w) => if w.l1_batch.0 < l1_batch_number.0 {
                Some(w.index)
            } else {
                None
            },
            None => None,
        };
        r.push((keys[i], StorageSlot { value, enumeration_index }));
        i = i + 1;
    }
    r
}

/// A slot assembled from its previous value and initial write, for batch `b`.
pub open spec fn assembled_slot(
    b: L1BatchNumber,
    previous_value: Option<StorageValue>,
    initial_write: Option<InitialWrite>,
) -> StorageSlot {
    StorageSlot {
        value: match previous_value {
            Some(v) => v,
            None => zero_word(),
        },
        enumeration_index: match initial_write {
            Some(w) => if w.l1_batch.0 < b.0 {
                Some(w.index)
            } else {
                None
            },
            None => None,
        },
    }
}

impl StorageSnapshot {
    /// A snapshot over the given slot entries and bytecodes.
    pub fn new(storage: Vec<(StorageKey, StorageSlot)>, factory_deps: Vec<(H256, Vec<u8>)>) -> (r:
        StorageSnapshot)
        ensures
            r@.storage == storage@,
            r@.factory_deps == bytecode_map(factory_deps@),
    {
        StorageSnapshot { storage, factory_deps }
    }

    /// The slots of the snapshot, in order.
    pub fn keys(&self) -> (r: Vec<StorageKey>)
        ensures
            r@ == entry_keys(self@.storage),
    {
        let mut r: Vec<StorageKey> = Vec::new();
        let mut i: usize = 0;
        while i < self.storage.len()
            invariant
                i <= self@.storage.len(),
                r@ == entry_keys(self@.storage.subrange(0, i as int)),
            decreases self@.storage.len() - i,
        {
            r.push(self.storage[i].0);
            i = i + 1;
            assert(r@ =~= entry_keys(self@.storage.subrange(0, i as int)));
        }
        assert(self@.storage.subrange(0, i as int) =~= self@.storage);
        r
    }

    /// What the snapshot holds of `key`, if it covers the slot.
    pub fn slot(&self, key: &StorageKey) -> (r: Option<StorageSlot>)
        ensures
            r.is_some() == pairs_to_map(self@.storage).dom().contains(*key),
            r matches Some(s) ==> s == pairs_to_map(self@.storage)[*key],
    {
        match crate::table::find_slot(&self.storage, key) {
            Some(s) => Some(*s),
            None => None,
        }
    }

    /// The bytecode stored under `hash`, if the snapshot has it.
    pub fn factory_dep(&self, hash: &H256) -> (r: Option<Vec<u8>>)
        ensures
            r.is_some() == self@.factory_deps.dom().contains(*hash),
            r matches Some(b) ==> b@ == self@.factory_deps[*hash],
    {
        find_bytecode(&self.factory_deps, hash)
    }
}


/// Reads over a snapshot; a slot or bytecode that the snapshot does not cover is read
/// from the ledger instead.
#[derive(Debug)]
pub struct SnapshotStorage<'a> {
    snapshot: StorageSnapshot,
    fallback: PostgresStorage<'a>,
}

impl<'a> SnapshotStorage<'a> {
    pub closed spec fn snapshot(&self) -> SnapshotView {
        self.snapshot@
    }

    pub closed spec fn fallback(&self) -> PostgresStorage<'a> {
        self.fallback
    }

    pub fn new(snapshot: StorageSnapshot, fallback: PostgresStorage<'a>) -> (r: SnapshotStorage<'a>)
        ensures
            r.snapshot() == snapshot@,
            r.fallback() == fallback,
    {
        SnapshotStorage { snapshot, fallback }
    }

    /// Whether the snapshot covers slot `k`.
    pub open spec fn covers(&self, k: StorageKey) -> bool {
        pairs_to_map(self.snapshot().storage).dom().contains(k)
    }

    pub open spec fn spec_read_value(&self, k: StorageKey) -> StorageValue {
        if self.covers(k) {
            pairs_to_map(self.snapshot().storage)[k].value
        } else {
            self.fallback().spec_read_value(k)
        }
    }

    pub open spec fn spec_enumeration_index(&self, k: StorageKey) -> Option<u64> {
        if self.covers(k) {
            pairs_to_map(self.snapshot().storage)[k].enumeration_index
        } else {
            self.fallback().spec_enumeration_index(k)
        }
    }

    pub open spec fn spec_is_write_initial(&self, k: StorageKey) -> bool {
        if self.covers(k) {
            pairs_to_map(self.snapshot().storage)[k].enumeration_index.is_none()
        } else {
            self.fallback().spec_is_write_initial(k)
        }
    }

    pub open spec fn spec_factory_dep(&self, h: H256) -> Option<Seq<u8>> {
        if self.snapshot().factory_deps.dom().contains(h) {
            Some(self.snapshot().factory_deps[h])
        } else {
            self.fallback().spec_factory_dep(h)
        }
    }

    pub fn read_value(&self, key: &StorageKey) -> (r: StorageValue)
        ensures
            r == self.spec_read_value(*key),
    {
        match self.snapshot.slot(key) {
            Some(s) => s.value,
            None => self.fallback.read_value(key),
        }
    }

    /// Whether a write of `key` would be its first: for a covered slot, whether it has no
    /// enumeration index yet.
    pub fn is_write_initial(&self, key: &StorageKey) -> (r: bool)
        ensures
            r == self.spec_is_write_initial(*key),
    {
        match self.snapshot.slot(key) {
            Some(s) => s.enumeration_index.is_none(),
            None => self.fallback.is_write_initial(key),
        }
    }

    pub fn load_factory_dep(&self, hash: H256) -> (r: Option<Vec<u8>>)
        ensures
            opt_bytes(r) == self.spec_factory_dep(hash),
    {
        match self.snapshot.factory_dep(&hash) {
            Some(b) => Some(b),
            None => self.fallback.load_factory_dep(hash),
        }
    }

    pub fn get_enumeration_index(&self, key: &StorageKey) -> (r: Option<u64>)
        ensures
            r == self.spec_enumeration_index(*key),
    {
        match self.snapshot.slot(key) {
            Some(s) => s.enumeration_index,
            None => self.fallback.get_enumeration_index(key),
        }
    }
}

} // verus!
