//! A store held wholly in memory, for tests of code that reads state.

use crate::ledger::{bytecode_map, find_bytecode, map_get};
use crate::table::{find_slot, lemma_push_pair, opt_bytes, pairs_to_map};
use crate::types::{zero_word, StorageKey, StorageSlot, StorageValue, H256};
use vstd::prelude::*;

verus! {

pub struct InMemoryView {
    pub state: Map<StorageKey, StorageSlot>,
    pub factory_deps: Map<H256, Seq<u8>>,
}

/// Slots and bytecodes set by hand.
#[derive(Debug)]
pub struct InMemoryStorage {
    state: Vec<(StorageKey, StorageSlot)>,
    factory_deps: Vec<(H256, Vec<u8>)>,
}

impl View for InMemoryStorage {
    type V = InMemoryView;

    closed spec fn view(&self) -> InMemoryView {
        InMemoryView { state: pairs_to_map(self.state@), factory_deps: bytecode_map(self.factory_deps@) }
    }
}

impl InMemoryStorage {
    pub fn new() -> (r: InMemoryStorage)
        ensures
            r@.state == Map::<StorageKey, StorageSlot>::empty(),
            r@.factory_deps == Map::<H256, Seq<u8>>::empty(),
    {
        let r = InMemoryStorage { state: Vec::new(), factory_deps: Vec::new() };
        proof {
            assert(crate::ledger::bytecode_pairs(r.factory_deps@).len() == 0);
        }
        r
    }

    /// Sets the value and enumeration index of `key`.
    pub fn set_slot(&mut self, key: StorageKey, value: StorageValue, enumeration_index: Option<u64>)
        ensures
            final(self)@.state == old(self)@.state.insert(key, StorageSlot { value, enumeration_index }),
            final(self)@.factory_deps == old(self)@.factory_deps,
    {
        let slot = StorageSlot { value, enumeration_index };
        proof {
            lemma_push_pair(self.state@, key, slot);
        }
        self.state.push((key, slot));
    }

    /// Stores a bytecode under its hash.
    pub fn store_factory_dep(&mut self, hash: H256, bytecode: Vec<u8>)
        ensures
            final(self)@.factory_deps == old(self)@.factory_deps.insert(hash, bytecode@),
            final(self)@.state == old(self)@.state,
    {
        let ghost before = self.factory_deps@;
        let ghost bytes = bytecode@;
        self.factory_deps.push((hash, bytecode));
        proof {
            assert(crate::ledger::bytecode_pairs(self.factory_deps@) =~= crate::ledger::bytecode_pairs(before).push((hash, bytes)));
            lemma_push_pair(crate::ledger::bytecode_pairs(before), hash, bytes);
        }
    }

    pub open spec fn spec_read_value(&self, k: StorageKey) -> StorageValue {
        if self@.state.dom().contains(k) {
            self@.state[k].value
        } else {
            zero_word()
        }
    }

    pub open spec fn spec_enumeration_index(&self, k: StorageKey) -> Option<u64> {
        if self@.state.dom().contains(k) {
            self@.state[k].enumeration_index
        } else {
            None
        }
    }

    pub open spec fn spec_is_write_initial(&self, k: StorageKey) -> bool {
        self.spec_enumeration_index(k).is_none()
    }

    pub open spec fn spec_factory_dep(&self, h: H256) -> Option<Seq<u8>> {
        map_get(self@.factory_deps, h)
    }

    pub fn read_value(&self, key: &StorageKey) -> (r: StorageValue)
        ensures
            r == self.spec_read_value(*key),
    {
        match find_slot(&self.state, key) {
            Some(s) => s.value,
            None => H256::zero(),
        }
    }

    /// Whether a write of `key` would be its first: it has no enumeration index.
    pub fn is_write_initial(&self, key: &StorageKey) -> (r: bool)
        ensures
            r == self.spec_is_write_initial(*key),
    {
        self.get_enumeration_index(key).is_none()
    }

    pub fn load_factory_dep(&self, hash: H256) -> (r: Option<Vec<u8>>)
        ensures
            opt_bytes(r) == self.spec_factory_dep(hash),
    {
        find_bytecode(&self.factory_deps, &hash)
    }

    pub fn get_enumeration_index(&self, key: &StorageKey) -> (r: Option<u64>)
        ensures
            r == self.spec_enumeration_index(*key),
    {
        match find_slot(&self.state, key) {
            Some(s) => s.enumeration_index,
            None => None,
        }
    }
}

} // verus!
