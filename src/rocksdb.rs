//! The embedded cache of the latest state, and its catch-up from the ledger.

use crate::ledger::{bytecode_map, find_bytecode, map_get, Ledger, LedgerView};
use crate::table::{find_slot, lemma_push_pair, opt_bytes, pairs_to_map};
use crate::types::{
    zero_word, InitialWrite, L1BatchNumber, StorageKey, StorageSlot, StorageValue, H256,
};
use vstd::prelude::*;

verus! {

#[verifier::external_type_specification]
#[verifier::external_body]
#[verifier::reject_recursive_types(T)]
pub struct ExWatchReceiver<T>(tokio::sync::watch::Receiver<T>);

/// Relies on tokio::sync::watch::Receiver::borrow to read the current value of the stop flag.
/// The flag is set by another task at any moment, so nothing is promised of the value.
#[verifier::external_body]
fn stop_requested(stop_receiver: &tokio::sync::watch::Receiver<bool>) -> (r: bool) {
    *stop_receiver.borrow()
}

/// The cache as a value: the latest state of every slot it has seen, the bytecodes it holds,
/// and the number of the first batch it has not applied yet.
pub struct CacheView {
    pub state: Map<StorageKey, StorageSlot>,
    pub factory_deps: Map<H256, Seq<u8>>,
    pub next_l1_batch: nat,
}

/// The slot that a write of `v` to `k` leaves, given the ledger's initial writes.
pub open spec fn written_slot(
    iw: Map<StorageKey, InitialWrite>,
    k: StorageKey,
    v: StorageValue,
) -> StorageSlot {
    StorageSlot {
        value: v,
        enumeration_index: match map_get(iw, k) {
            Some(w) => Some(w.index),
            None => None,
        },
    }
}

/// The state `m` after the writes `logs`, in order.
pub open spec fn apply_logs(
    m: Map<StorageKey, StorageSlot>,
    logs: Seq<(StorageKey, StorageValue)>,
    iw: Map<StorageKey, InitialWrite>,
) -> Map<StorageKey, StorageSlot>
    decreases logs.len(),
{
    if logs.len() == 0 {
        m
    } else {
        apply_logs(m, logs.drop_last(), iw).insert(
            logs.last().0,
            written_slot(iw, logs.last().0, logs.last().1),
        )
    }
}

/// The bytecodes `d` with those of `hashes` that the ledger stores added.
pub open spec fn apply_deps(
    d: Map<H256, Seq<u8>>,
    hashes: Seq<H256>,
    fd: Map<H256, Seq<u8>>,
) -> Map<H256, Seq<u8>>
    decreases hashes.len(),
{
    if hashes.len() == 0 {
        d
    } else {
        let e = apply_deps(d, hashes.drop_last(), fd);
        if fd.dom().contains(hashes.last()) {
            e.insert(hashes.last(), fd[hashes.last()])
        } else {
            e
        }
    }
}

/// The cache `c` after applying batch `b` of the ledger.
pub open spec fn apply_batch(c: CacheView, l: LedgerView, b: int) -> CacheView {
    CacheView {
        state: apply_logs(c.state, l.batches[b].storage_logs, l.initial_writes),
        factory_deps: apply_deps(c.factory_deps, l.batches[b].used_contract_hashes, l.factory_deps),
        next_l1_batch: (b + 1) as nat,
    }
}

/// The cache `c` after applying the batches from its next one up to, not including, `end`.
pub open spec fn caught_up(c: CacheView, l: LedgerView, end: int) -> CacheView
    decreases end - c.next_l1_batch,
{
    if end <= c.next_l1_batch {
        c
    } else {
        apply_batch(caught_up(c, l, end - 1), l, end - 1)
    }
}

/// Catching up leaves the cache at `end`, or where it was if it was already past `end`.
pub proof fn lemma_caught_up_next(c: CacheView, l: LedgerView, end: int)
    ensures
        caught_up(c, l, end).next_l1_batch == if end <= c.next_l1_batch {
            c.next_l1_batch as int
        } else {
            end
        },
    decreases end - c.next_l1_batch,
{
    if end > c.next_l1_batch {
        lemma_caught_up_next(c, l, end - 1);
    }
}

/// The embedded cache of the latest state.
#[derive(Debug)]
pub struct RocksdbStorage {
    state: Vec<(StorageKey, StorageSlot)>,
    factory_deps: Vec<(H256, Vec<u8>)>,
    next_l1_batch: u32,
}

impl View for RocksdbStorage {
    type V = CacheView;

    closed spec fn view(&self) -> CacheView {
        CacheView {
            state: pairs_to_map(self.state@),
            factory_deps: bytecode_map(self.factory_deps@),
            next_l1_batch: self.next_l1_batch as nat,
        }
    }
}

impl RocksdbStorage {
    /// An empty cache, which has applied no batch.
    pub fn new() -> (r: RocksdbStorage)
        ensures
            r@.state == Map::<StorageKey, StorageSlot>::empty(),
            r@.factory_deps == Map::<H256, Seq<u8>>::empty(),
            r@.next_l1_batch == 0,
    {
        let r = RocksdbStorage { state: Vec::new(), factory_deps: Vec::new(), next_l1_batch: 0 };
        proof {
            assert(crate::ledger::bytecode_pairs(r.factory_deps@).len() == 0);
        }
        r
    }

    pub open spec fn spec_read_value(&self, k: StorageKey) -> StorageValue {
        if self@.state.dom().contains(k) {
            self@.state[k].value
        } else {
            zero_word()
        }
    }

    pub open spec fn spec_enumeration_index(&self, k: StorageKey) -> Option<u64> {
        if self@.state.dom().contains(k) {
            self@.state[k].enumeration_index
        } else {
            None
        }
    }

    pub open spec fn spec_is_write_initial(&self, k: StorageKey) -> bool {
        !self@.state.dom().contains(k)
    }

    pub open spec fn spec_factory_dep(&self, h: H256) -> Option<Seq<u8>> {
        map_get(self@.factory_deps, h)
    }

    /// The first batch that the cache has not applied; none while it has applied no batch.
    pub fn l1_batch_number(&self) -> (r: Option<L1BatchNumber>)
        ensures
            self@.next_l1_batch <= u32::MAX,
            r == if self@.next_l1_batch == 0 {
                None
            } else {
                Some(L1BatchNumber(self@.next_l1_batch as u32))
            },
    {
        if self.next_l1_batch == 0 {
            None
        } else {
            Some(L1BatchNumber(self.next_l1_batch))
        }
    }

    /// The latest value of `key`; zero if the cache never saw it written.
    pub fn read_value(&self, key: &StorageKey) -> (r: StorageValue)
        ensures
            r == self.spec_read_value(*key),
    {
        match find_slot(&self.state, key) {
            Some(s) => s.value,
            None => H256::zero(),
        }
    }

    /// Whether a write of `key` would be its first: the cache never saw it written.
    pub fn is_write_initial(&self, key: &StorageKey) -> (r: bool)
        ensures
            r == self.spec_is_write_initial(*key),
    {
        find_slot(&self.state, key).is_none()
    }

    /// The bytecode stored under `hash`.
    pub fn load_factory_dep(&self, hash: H256) -> (r: Option<Vec<u8>>)
        ensures
            opt_bytes(r) == self.spec_factory_dep(hash),
    {
        find_bytecode(&self.factory_deps, &hash)
    }

    /// The enumeration index of `key`, if the cache holds one.
    pub fn get_enumeration_index(&self, key: &StorageKey) -> (r: Option<u64>)
        ensures
            r == self.spec_enumeration_index(*key),
    {
        match find_slot(&self.state, key) {
            Some(s) => s.enumeration_index,
            None => None,
        }
    }

    /// Applies the next batch of the ledger.
    fn apply_next_batch(&mut self, connection: &Ledger)
        requires
            connection.wf(),
            old(self)@.next_l1_batch < connection@.batches.len(),
        ensures
            final(self)@ == apply_batch(old(self)@, connection@, old(self)@.next_l1_batch as int),
    {
        let b = self.next_l1_batch;
        let logs = connection.get_touched_slots_for_l1_batch(L1BatchNumber(b));
        let ghost iw = connection@.initial_writes;
        let ghost m0 = self@.state;
        let mut i: usize = 0;
        assert(logs@.subrange(0, 0) =~= Seq::<(StorageKey, StorageValue)>::empty());
        while i < logs.len()
            invariant
                i <= logs@.len(),
                iw == connection@.initial_writes,
                pairs_to_map(self.state@) == apply_logs(m0, logs@.subrange(0, i as int), iw),
                self.next_l1_batch == b,
                self.factory_deps@ == old(self).factory_deps@,
            decreases logs@.len() - i,
        {
            let (k, v) = logs[i];
            let enumeration_index = match connection.get_initial_write(&k) {
                Some(w) => Some(w.index),
                None => None,
            };
            let slot = StorageSlot { value: v, enumeration_index };
            proof {
                lemma_push_pair(self.state@, k, slot);
                assert(logs@.subrange(0, i + 1).drop_last() =~= logs@.subrange(0, i as int));
            }
            self.state.push((k, slot));
            i = i + 1;
        }
        assert(logs@.subrange(0, logs@.len() as int) =~= logs@);
        let header = connection.get_l1_batch_header(L1BatchNumber(b));
        let hashes = match header {
            Some(h) => &h.used_contract_hashes,
            None => {
                assert(false);
                return;
            },
        };
        let ghost fd = connection@.factory_deps;
        let ghost d0 = self@.factory_deps;
        let mut j: usize = 0;
        assert(hashes@.subrange(0, 0) =~= Seq::<H256>::empty());
        while j < hashes.len()
            invariant
                j <= hashes@.len(),
                fd == connection@.factory_deps,
                bytecode_map(self.factory_deps@) == apply_deps(d0, hashes@.subrange(0, j as int), fd),
                pairs_to_map(self.state@) == apply_logs(m0, logs@, iw),
                self.next_l1_batch == b,
            decreases hashes@.len() - j,
        {
            let h = hashes[j];
            assert(hashes@.subrange(0, j + 1).drop_last() =~= hashes@.subrange(0, j as int));
            match connection.get_factory_dep(&h) {
                Some(bytes) => {
                    let ghost before = self.factory_deps@;
                    let ghost bv = bytes@;
                    self.factory_deps.push((h, bytes));
                    proof {
                        assert(crate::ledger::bytecode_pairs(self.factory_deps@)
                            =~= crate::ledger::bytecode_pairs(before).push((h, bv)));
                        lemma_push_pair(crate::ledger::bytecode_pairs(before), h, bv);
                    }
                },
                None => {},
            }
            j = j + 1;
        }
        assert(hashes@.subrange(0, hashes@.len() as int) =~= hashes@);
        self.next_l1_batch = b + 1;
    }
}

/// Brings a cache up to date with the ledger.
#[derive(Debug)]
pub struct RocksdbStorageBuilder {
    rocksdb: RocksdbStorage,
}

/// The batch up to which a catch-up applies batches: the last sealed one, or `to` if it is earlier.
pub open spec fn catch_up_end(l: LedgerView, to: Option<L1BatchNumber>) -> int {
    match to {
        Some(t) => if t.0 + 1 < l.batches.len() {
            t.0 + 1
        } else {
            l.batches.len() as int
        },
        None => l.batches.len() as int,
    }
}

impl RocksdbStorageBuilder {
    pub closed spec fn cache(&self) -> CacheView {
        self.rocksdb@
    }

    pub fn from_rocksdb(rocksdb: RocksdbStorage) -> (r: RocksdbStorageBuilder)
        ensures
            r.cache() == rocksdb@,
    {
        RocksdbStorageBuilder { rocksdb }
    }

    /// Applies, in order, every ledger batch from the cache's next one up to `to_l1_batch_number`
    /// (the last sealed batch if none is given), checking the stop flag before each batch.
    /// Returns `None` only if a stop was requested. A cache that is already at or past that
    /// point is returned unchanged, without reading the stop flag.
    pub fn synchronize(
        self,
        connection: &Ledger,
        stop_receiver: &tokio::sync::watch::Receiver<bool>,
        to_l1_batch_number: Option<L1BatchNumber>,
    ) -> (r: Option<RocksdbStorage>)
        requires
            connection.wf(),
        ensures
            self.cache().next_l1_batch >= catch_up_end(connection@, to_l1_batch_number) ==> r is Some,
            r matches Some(c) ==> c@ == caught_up(
                self.cache(),
                connection@,
                catch_up_end(connection@, to_l1_batch_number),
            ),
    {
        let end: usize = match to_l1_batch_number {
            Some(t) => if (t.0 as u64) + 1 < connection.l1_batch_count() as u64 {
                t.0 as usize + 1
            } else {
                connection.l1_batch_count()
            },
            None => connection.l1_batch_count(),
        };
        let mut rocksdb = self.rocksdb;
        let ghost c0 = rocksdb@;
        if (rocksdb.next_l1_batch as usize) >= end {
            return Some(rocksdb);
        }
        while (rocksdb.next_l1_batch as usize) < end
            invariant
                connection.wf(),
                end == catch_up_end(connection@, to_l1_batch_number),
                end <= connection@.batches.len(),
                c0 == self.cache(),
                c0.next_l1_batch < end,
                c0.next_l1_batch <= rocksdb@.next_l1_batch <= end,
                rocksdb@ == caught_up(c0, connection@, rocksdb@.next_l1_batch as int),
            decreases end - rocksdb@.next_l1_batch,
        {
            if stop_requested(stop_receiver) {
                return None;
            }
            let ghost before = rocksdb@;
            rocksdb.apply_next_batch(connection);
            proof {
                assert(caught_up(c0, connection@, before.next_l1_batch + 1int) == apply_batch(
                    caught_up(c0, connection@, before.next_l1_batch as int),
                    connection@,
                    before.next_l1_batch as int,
                ));
            }
        }
        Some(rocksdb)
    }
}

/// Catching up to a sealed batch `t` from at most one past it leaves the cache right after
/// `t`: never before it, never past it.
pub proof fn lemma_catch_up_to_target(c: CacheView, l: LedgerView, t: L1BatchNumber)
    requires
        c.next_l1_batch <= t.0 + 1,
        t.0 < l.batches.len(),
    ensures
        caught_up(c, l, catch_up_end(l, Some(t))).next_l1_batch == t.0 + 1,
{
    lemma_caught_up_next(c, l, catch_up_end(l, Some(t)));
}

} // verus!
