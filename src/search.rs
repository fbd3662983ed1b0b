//! First and last positions that satisfy a predicate.
use vstd::prelude::*;

verus! {

/// The first position of `s` whose element satisfies `p`, if any.
pub open spec fn first_index<T>(s: Seq<T>, p: spec_fn(T) -> bool) -> Option<int> {
    if exists|i: int| 0 <= i < s.len() && #[trigger] p(s[i]) {
        Some(
            choose|i: int|
                0 <= i < s.len() && #[trigger] p(s[i]) && forall|j: int| 0 <= j < i ==> !p(s[j]),
        )
    } else {
        None
    }
}

/// The last position of `s` whose element satisfies `p`, if any.
pub open spec fn last_index<T>(s: Seq<T>, p: spec_fn(T) -> bool) -> Option<int> {
    if exists|i: int| 0 <= i < s.len() && #[trigger] p(s[i]) {
        Some(
            choose|i: int|
                0 <= i < s.len() && #[trigger] p(s[i]) && forall|j: int|
                    i < j < s.len() ==> !p(s[j]),
        )
    } else {
        None
    }
}

pub proof fn lemma_first_index<T>(s: Seq<T>, p: spec_fn(T) -> bool, k: int)
    requires
        0 <= k < s.len(),
        p(s[k]),
        forall|j: int| 0 <= j < k ==> !p(s[j]),
    ensures
        first_index(s, p) == Some(k),
{
    let i = choose|i: int|
        0 <= i < s.len() && #[trigger] p(s[i]) && forall|j: int| 0 <= j < i ==> !p(s[j]);
    assert(0 <= i < s.len() && p(s[i]) && forall|j: int| 0 <= j < i ==> !p(s[j]));
    assert(i == k) by {
        if i < k {
            assert(!p(s[i]));
        } else if i > k {
            assert(!p(s[k]));
        }
    }
}

pub proof fn lemma_last_index<T>(s: Seq<T>, p: spec_fn(T) -> bool, k: int)
    requires
        0 <= k < s.len(),
        p(s[k]),
        forall|j: int| k < j < s.len() ==> !p(s[j]),
    ensures
        last_index(s, p) == Some(k),
{
    let i = choose|i: int|
        0 <= i < s.len() && #[trigger] p(s[i]) && forall|j: int| i < j < s.len() ==> !p(s[j]);
    assert(0 <= i < s.len() && p(s[i]) && forall|j: int| i < j < s.len() ==> !p(s[j]));
    assert(i == k) by {
        if i < k {
            assert(!p(s[k]));
        } else if i > k {
            assert(!p(s[i]));
        }
    }
}

} // verus!
