//! Lists of key and value pairs that stand for maps: a list stands for a
//! map where no key occurs twice.

use vstd::prelude::*;

verus! {

/// No key occurs twice in the list.
pub open spec fn keys_unique<K, V>(s: Seq<(K, V)>) -> bool {
    forall|a: int, b: int| 0 <= a < b < s.len() ==> (#[trigger] s[a]).0 != (#[trigger] s[b]).0
}

/// Some entry of the list has the key `k`.
pub open spec fn has_key<K, V>(s: Seq<(K, V)>, k: K) -> bool {
    exists|j: int| 0 <= j < s.len() && (#[trigger] s[j]).0 == k
}

/// The map the list stands for: each key to the value of an entry with it.
pub open spec fn entries_map<K, V>(s: Seq<(K, V)>) -> Map<K, V> {
    Map::new(|k: K| has_key(s, k), |k: K| s[choose|j: int| 0 <= j < s.len() && (#[trigger] s[j]).0 == k].1)
}

/// In a list without repeated keys, the map holds for a key the value of
/// the one entry with that key.
pub proof fn entry_is_the_map_value<K, V>(s: Seq<(K, V)>, k: K, j: int)
    requires
        keys_unique(s),
        0 <= j < s.len(),
        s[j].0 == k,
    ensures
        entries_map(s).contains_key(k),
        entries_map(s)[k] == s[j].1,
{
    assert(has_key(s, k));
    let c = choose|i: int| 0 <= i < s.len() && (#[trigger] s[i]).0 == k;
    if c != j {
        if c < j {
            assert(s[c].0 != s[j].0);
        } else {
            assert(s[j].0 != s[c].0);
        }
    }
}

/// A key that no entry has is not in the map.
pub proof fn missing_key_is_not_mapped<K, V>(s: Seq<(K, V)>, k: K)
    requires
        forall|j: int| 0 <= j < s.len() ==> (#[trigger] s[j]).0 != k,
    ensures
        !entries_map(s).contains_key(k),
{
}

} // verus!
