//! Association lists: a `Vec` of pairs read as a map in which a later pair
//! shadows an earlier pair with the same key.

use crate::types::StorageKey;
use vstd::prelude::*;

verus! {

/// The map that a list of pairs stands for: the last pair for a key wins.
pub open spec fn pairs_to_map<K, V>(s: Seq<(K, V)>) -> Map<K, V>
    decreases s.len(),
{
    if s.len() == 0 {
        Map::empty()
    } else {
        pairs_to_map(s.drop_last()).insert(s.last().0, s.last().1)
    }
}

/// Pairs past `i` whose keys differ from `k` do not change what the list says of `k`.
pub proof fn lemma_suffix_without_key<K, V>(s: Seq<(K, V)>, i: int, k: K)
    requires
        0 <= i <= s.len(),
        forall|j: int| i <= j < s.len() ==> s[j].0 != k,
    ensures
        pairs_to_map(s).dom().contains(k) == pairs_to_map(s.subrange(0, i)).dom().contains(k),
        pairs_to_map(s)[k] == pairs_to_map(s.subrange(0, i))[k],
    decreases s.len(),
{
    if i == s.len() {
        assert(s.subrange(0, i) =~= s);
    } else {
        let t = s.drop_last();
        assert(t.subrange(0, i) =~= s.subrange(0, i));
        lemma_suffix_without_key(t, i, k);
    }
}

/// The pair at `i` decides `k` when no later pair has that key.
pub proof fn lemma_last_pair_with_key<K, V>(s: Seq<(K, V)>, i: int)
    requires
        0 <= i < s.len(),
        forall|j: int| i < j < s.len() ==> s[j].0 != s[i].0,
    ensures
        pairs_to_map(s).dom().contains(s[i].0),
        pairs_to_map(s)[s[i].0] == s[i].1,
{
    lemma_suffix_without_key(s, i + 1, s[i].0);
    let p = s.subrange(0, i + 1);
    assert(p.drop_last() =~= s.subrange(0, i));
    assert(p.last() == s[i]);
}

/// Appending a pair sets its key.
pub proof fn lemma_push_pair<K, V>(s: Seq<(K, V)>, k: K, v: V)
    ensures
        pairs_to_map(s.push((k, v))) == pairs_to_map(s).insert(k, v),
{
    assert(s.push((k, v)).drop_last() =~= s);
}

/// A key the list maps has a pair in the list.
pub proof fn lemma_key_has_pair<K, V>(s: Seq<(K, V)>, k: K)
    requires
        pairs_to_map(s).dom().contains(k),
    ensures
        exists|i: int| 0 <= i < s.len() && (#[trigger] s[i]).0 == k,
    decreases s.len(),
{
    if s.len() == 0 {
        assert(pairs_to_map(s).dom() =~= Set::<K>::empty());
    } else if s.last().0 == k {
        assert(s[s.len() - 1].0 == k);
    } else {
        let t = s.drop_last();
        lemma_key_has_pair(t, k);
        let i = choose|i: int| 0 <= i < t.len() && (#[trigger] t[i]).0 == k;
        assert(s[i] == t[i]);
    }
}

/// Looks up the value of a slot in a list of pairs.
pub fn find_slot<'a, V>(table: &'a Vec<(StorageKey, V)>, k: &StorageKey) -> (r: Option<&'a V>)
    ensures
        r.is_some() == pairs_to_map(table@).dom().contains(*k),
        r matches Some(v) ==> *v == pairs_to_map(table@)[*k],
{
    let mut i: usize = table.len();
    while i > 0
        invariant
            i <= table@.len(),
            forall|j: int| i <= j < table@.len() ==> table@[j].0 != *k,
        decreases i,
    {
        if table[i - 1].0 == *k {
            proof {
                lemma_last_pair_with_key(table@, i - 1);
            }
            return Some(&table[i - 1].1);
        }
        i = i - 1;
    }
    proof {
        lemma_suffix_without_key(table@, 0, *k);
    }
    None
}

/// An optional bytecode seen as a sequence of bytes.
pub open spec fn opt_bytes(r: Option<Vec<u8>>) -> Option<Seq<u8>> {
    match r {
        Some(b) => Some(b@),
        None => None,
    }
}

/// A copy of a vector of plain values.
pub fn copy_vec<T: Copy>(v: &Vec<T>) -> (r: Vec<T>)
    ensures
        r@ == v@,
{
    let mut r: Vec<T> = Vec::new();
    let mut i: usize = 0;
    while i < v.len()
        invariant
            i <= v@.len(),
            r@ == v@.subrange(0, i as int),
        decreases v@.len() - i,
    {
        r.push(v[i]);
        i = i + 1;
        proof {
            assert(r@ =~= v@.subrange(0, i as int));
        }
    }
    proof {
        assert(v@.subrange(0, v@.len() as int) =~= v@);
    }
    r
}

} // verus!
