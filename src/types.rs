//! Identifiers and values shared by every storage backend.

use vstd::prelude::*;

verus! {

/// A 256-bit word, stored as four big-endian 64-bit limbs (`w0` is the most significant).
#[derive(Debug, Clone, Copy, PartialEq, Eq, Structural, Hash)]
pub struct H256 {
    pub w0: u64,
    pub w1: u64,
    pub w2: u64,
    pub w3: u64,
}

/// The all-zero word.
pub open spec fn zero_word() -> H256 {
    H256 { w0: 0, w1: 0, w2: 0, w3: 0 }
}

impl H256 {
    /// The all-zero word, which is also the value of a slot that was never written.
    pub fn zero() -> (r: H256)
        ensures
            r == zero_word(),
    {
        H256 { w0: 0, w1: 0, w2: 0, w3: 0 }
    }

    /// The word whose numeric value is `v`.
    pub fn from_low_u64_be(v: u64) -> (r: H256)
        ensures
            r == (H256 { w0: 0, w1: 0, w2: 0, w3: v }),
    {
        H256 { w0: 0, w1: 0, w2: 0, w3: v }
    }

    pub fn is_zero(&self) -> (r: bool)
        ensures
            r == (*self == zero_word()),
    {
        self.w0 == 0 && self.w1 == 0 && self.w2 == 0 && self.w3 == 0
    }
}

/// A value stored in a slot.
pub type StorageValue = H256;

/// A 160-bit account address: 32 high bits, then two 64-bit limbs.
#[derive(Debug, Clone, Copy, PartialEq, Eq, Structural, Hash)]
pub struct Address {
    pub hi: u32,
    pub mid: u64,
    pub lo: u64,
}

impl Address {
    pub fn from_low_u64_be(v: u64) -> (r: Address)
        ensures
            r == (Address { hi: 0, mid: 0, lo: v }),
    {
        Address { hi: 0, mid: 0, lo: v }
    }
}

/// A storage slot: the account that owns it and the slot within that account.
#[derive(Debug, Clone, Copy, PartialEq, Eq, Structural, Hash)]
pub struct StorageKey {
    pub account: Address,
    pub key: H256,
}

impl StorageKey {
    pub fn new(account: Address, key: H256) -> (r: StorageKey)
        ensures
            r == (StorageKey { account, key }),
    {
        StorageKey { account, key }
    }
}

/// Number of an L1 batch. Batches are numbered consecutively from zero.
#[derive(Debug, Clone, Copy, PartialEq, Eq, Structural, Hash, PartialOrd, Ord)]
pub struct L1BatchNumber(pub u32);

/// The enumeration index of a slot: assigned once, at the slot's first write ever.
pub type EnumerationIndex = u64;

/// Where a slot was first written: the batch of that write and the index it was given.
#[derive(Debug, Clone, Copy, PartialEq, Eq, Structural)]
pub struct InitialWrite {
    pub l1_batch: L1BatchNumber,
    pub index: EnumerationIndex,
}

/// What a store holds of one slot: its value, and its enumeration index if it has one.
#[derive(Debug, Clone, Copy)]
pub struct StorageSlot {
    pub value: StorageValue,
    pub enumeration_index: Option<EnumerationIndex>,
}

} // verus!
