//! First-match lookup in a sequence of keys, the model behind every search by id.
use vstd::prelude::*;

verus! {

/// `k` occurs somewhere in `keys`.
pub open spec fn occurs<K>(keys: Seq<K>, k: K) -> bool {
    exists|i: int| 0 <= i < keys.len() && keys[i] == k
}

/// `i` is the first position of `keys` that holds `k`.
pub open spec fn is_first<K>(keys: Seq<K>, k: K, i: int) -> bool {
    &&& 0 <= i < keys.len()
    &&& keys[i] == k
    &&& forall|j: int| 0 <= j < i ==> keys[j] != k
}

/// The first position of `keys` that holds `k`; meaningful where `k` occurs.
pub open spec fn first<K>(keys: Seq<K>, k: K) -> int {
    choose|i: int| is_first(keys, k, i)
}

/// No key occurs twice.
pub open spec fn distinct<K>(keys: Seq<K>) -> bool {
    forall|i: int, j: int| 0 <= i < j < keys.len() ==> keys[i] != keys[j]
}

/// A position that is first is the one `first` names.
pub proof fn lemma_first_is<K>(keys: Seq<K>, k: K, i: int)
    requires
        is_first(keys, k, i),
    ensures
        first(keys, k) == i,
        occurs(keys, k),
{
    let c = first(keys, k);
    assert(is_first(keys, k, c));
    if c < i {
        assert(keys[c] != k);
    } else if i < c {
        assert(keys[i] != k);
    }
}

/// Where a key occurs, `first` names its first position.
pub proof fn lemma_first_of_occurring<K>(keys: Seq<K>, k: K)
    requires
        occurs(keys, k),
    ensures
        is_first(keys, k, first(keys, k)),
{
    let w = choose|i: int| 0 <= i < keys.len() && keys[i] == k;
    lemma_first_below(keys, k, w);
}

proof fn lemma_first_below<K>(keys: Seq<K>, k: K, w: int)
    requires
        0 <= w < keys.len(),
        keys[w] == k,
    ensures
        is_first(keys, k, first(keys, k)),
    decreases w,
{
    if exists|j: int| 0 <= j < w && keys[j] == k {
        let j = choose|j: int| 0 <= j < w && keys[j] == k;
        lemma_first_below(keys, k, j);
    } else {
        assert(is_first(keys, k, w));
    }
}

/// Among distinct keys, any position that holds `k` is the first.
pub proof fn lemma_distinct_first<K>(keys: Seq<K>, k: K, i: int)
    requires
        distinct(keys),
        0 <= i < keys.len(),
        keys[i] == k,
    ensures
        is_first(keys, k, i),
        first(keys, k) == i,
{
    assert(is_first(keys, k, i));
    lemma_first_is(keys, k, i);
}

} // verus!
