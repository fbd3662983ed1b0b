//! Keyed entries, as Kubernetes keeps annotations, labels and secret data.
use vstd::prelude::*;

verus! {

/// The position of the first entry whose key is `key`, if any.
pub open spec fn first_key_index<V>(kvs: Seq<(String, V)>, key: Seq<char>) -> Option<int> {
    if exists|i: int| 0 <= i < kvs.len() && kvs[i].0@ == key {
        Some(
            choose|i: int|
                0 <= i < kvs.len() && kvs[i].0@ == key && forall|j: int|
                    0 <= j < i ==> kvs[j].0@ != key,
        )
    } else {
        None
    }
}

/// The value under `key`: that of the first entry with that key.
pub open spec fn lookup<V>(kvs: Seq<(String, V)>, key: Seq<char>) -> Option<V> {
    match first_key_index(kvs, key) {
        Some(i) => Some(kvs[i].1),
        None => None,
    }
}

/// Whether some entry has the key `key`.
pub open spec fn has_key<V>(kvs: Seq<(String, V)>, key: Seq<char>) -> bool {
    lookup(kvs, key) is Some
}

proof fn lemma_first_key_index<V>(kvs: Seq<(String, V)>, key: Seq<char>, k: int)
    requires
        0 <= k < kvs.len(),
        kvs[k].0@ == key,
        forall|j: int| 0 <= j < k ==> kvs[j].0@ != key,
    ensures
        first_key_index(kvs, key) == Some(k),
{
    let i = choose|i: int|
        0 <= i < kvs.len() && kvs[i].0@ == key && forall|j: int| 0 <= j < i ==> kvs[j].0@ != key;
    assert(0 <= i < kvs.len() && kvs[i].0@ == key);
    assert(i == k) by {
        if i < k {
            assert(kvs[i].0@ != key);
        } else if i > k {
            assert(kvs[k].0@ != key);
        }
    }
}

/// The first entry's key is looked up to its value.
pub proof fn lemma_lookup_first<V>(kvs: Seq<(String, V)>, key: Seq<char>)
    requires
        kvs.len() >= 1,
        kvs[0].0@ == key,
    ensures
        lookup(kvs, key) == Some(kvs[0].1),
{
    lemma_first_key_index(kvs, key, 0);
}

/// Finds the position of the first entry whose key is `key`.
pub fn find_key<V>(kvs: &Vec<(String, V)>, key: &str) -> (r: Option<usize>)
    ensures
        r matches Some(i) ==> i < kvs@.len() && first_key_index(kvs@, key@) == Some(i as int),
        r is None ==> first_key_index(kvs@, key@) is None,
{
    let k = String::from_str(key);
    let mut i: usize = 0;
    while i < kvs.len()
        invariant
            i <= kvs@.len(),
            k@ == key@,
            forall|j: int| 0 <= j < i ==> kvs@[j].0@ != key@,
        decreases kvs@.len() - i,
    {
        if kvs[i].0 == k {
            proof { lemma_first_key_index(kvs@, key@, i as int); }
            return Some(i);
        }
        i = i + 1;
    }
    None
}

/// The text under `key`, if any.
pub fn get_value(kvs: &Vec<(String, String)>, key: &str) -> (r: Option<String>)
    ensures
        r == lookup(kvs@, key@),
{
    match find_key(kvs, key) {
        Some(i) => Some(kvs[i].1.clone()),
        None => None,
    }
}

/// Whether some entry has the key `key`.
pub fn contains_key<V>(kvs: &Vec<(String, V)>, key: &str) -> (r: bool)
    ensures
        r == has_key(kvs@, key@),
{
    find_key(kvs, key).is_some()
}

} // verus!
