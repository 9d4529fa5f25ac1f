//! Reads of the ledger as it stood after one batch.

use crate::ledger::{index_before, map_get, value_before, Ledger, LedgerView};
use crate::table::opt_bytes;
use crate::types::{zero_word, L1BatchNumber, StorageKey, StorageValue, H256};
use vstd::prelude::*;

verus! {

/// The value of `k` after the first `b` batches; zero if none of them wrote it.
pub open spec fn value_or_zero(l: LedgerView, k: StorageKey, b: int) -> StorageValue {
    match value_before(l, k, b) {
        Some(v) => v,
        None => zero_word(),
    }
}

/// The ledger as it stood after batch `l1_batch_number`.
#[derive(Debug)]
pub struct PostgresStorage<'a> {
    connection: &'a Ledger,
    l1_batch_number: L1BatchNumber,
}

impl<'a> PostgresStorage<'a> {
    pub closed spec fn ledger(&self) -> LedgerView {
        self.connection@
    }

    pub closed spec fn batch(&self) -> L1BatchNumber {
        self.l1_batch_number
    }

    /// The value of `k` as this storage reads it.
    pub open spec fn spec_read_value(&self, k: StorageKey) -> StorageValue {
        value_or_zero(self.ledger(), k, self.batch().0 + 1)
    }

    /// The enumeration index of `k` as this storage reads it.
    pub open spec fn spec_enumeration_index(&self, k: StorageKey) -> Option<u64> {
        index_before(self.ledger(), k, self.batch().0 + 1)
    }

    pub open spec fn spec_is_write_initial(&self, k: StorageKey) -> bool {
        self.spec_enumeration_index(k).is_none()
    }

    pub open spec fn spec_factory_dep(&self, h: H256) -> Option<Seq<u8>> {
        map_get(self.ledger().factory_deps, h)
    }

    /// Reads over `connection` after batch `l1_batch_number`.
    pub fn new(connection: &'a Ledger, l1_batch_number: L1BatchNumber) -> (r: PostgresStorage<'a>)
        ensures
            r.ledger() == connection@,
            r.batch() == l1_batch_number,
    {
        PostgresStorage { connection, l1_batch_number }
    }

    pub fn l1_batch_number(&self) -> (r: L1BatchNumber)
        ensures
            r == self.batch(),
    {
        self.l1_batch_number
    }

    /// The value of `key` after the batch; zero if it was never written.
    pub fn read_value(&self, key: &StorageKey) -> (r: StorageValue)
        ensures
            r == self.spec_read_value(*key),
    {
        match self.connection.value_before(key, self.l1_batch_number.0 as u64 + 1) {
            Some(v) => v,
            None => H256::zero(),
        }
    }

    /// Whether a write of `key` would be its first: no batch up to this one wrote it first.
    pub fn is_write_initial(&self, key: &StorageKey) -> (r: bool)
        ensures
            r == self.spec_is_write_initial(*key),
    {
        self.get_enumeration_index(key).is_none()
    }

    /// The bytecode stored under `hash`.
    pub fn load_factory_dep(&self, hash: H256) -> (r: Option<Vec<u8>>)
        ensures
            opt_bytes(r) == self.spec_factory_dep(hash),
    {
        self.connection.get_factory_dep(&hash)
    }

    /// The enumeration index of `key`, if a batch up to this one assigned it.
    pub fn get_enumeration_index(&self, key: &StorageKey) -> (r: Option<u64>)
        ensures
            r == self.spec_enumeration_index(*key),
    {
        match self.connection.get_initial_write(key) {
            Some(w) => if w.l1_batch.0 <= self.l1_batch_number.0 {
                Some(w.index)
            } else {
                None
            },
            None => None,
        }
    }
}

} // verus!
