//! The first position of a sequence at which a property holds.
//!
//! Both scans of this library, over the registry and over the attached
//! devices, stop at the first hit. What "first" means is said here once.

use vstd::prelude::*;

verus! {

/// Some element of `s` satisfies `p`.
pub open spec fn holds_somewhere<T>(s: Seq<T>, p: spec_fn(T) -> bool) -> bool {
    exists|i: int| 0 <= i < s.len() && #[trigger] p(s[i])
}

/// Position `i` is the first of `s` whose element satisfies `p`.
pub open spec fn is_first_where<T>(s: Seq<T>, p: spec_fn(T) -> bool, i: int) -> bool {
    &&& 0 <= i < s.len()
    &&& p(s[i])
    &&& forall|j: int| 0 <= j < i ==> !#[trigger] p(s[j])
}

/// The first position of `s` whose element satisfies `p`, if there is one.
pub open spec fn first_where<T>(s: Seq<T>, p: spec_fn(T) -> bool) -> Option<int> {
    if holds_somewhere(s, p) {
        Some(choose|i: int| is_first_where(s, p, i))
    } else {
        None
    }
}

/// Below any hit there is a first hit.
proof fn lemma_first_hit_exists<T>(s: Seq<T>, p: spec_fn(T) -> bool, i: int)
    requires
        0 <= i < s.len(),
        p(s[i]),
    ensures
        exists|k: int| is_first_where(s, p, k),
    decreases i,
{
    if exists|j: int| 0 <= j < i && #[trigger] p(s[j]) {
        let j = choose|j: int| 0 <= j < i && #[trigger] p(s[j]);
        lemma_first_hit_exists(s, p, j);
    } else {
        assert(is_first_where(s, p, i));
    }
}

/// A position that is the first hit is the one that `first_where` names.
pub proof fn lemma_first_where_is<T>(s: Seq<T>, p: spec_fn(T) -> bool, i: int)
    requires
        is_first_where(s, p, i),
    ensures
        first_where(s, p) == Some(i),
{
    let k = choose|k: int| is_first_where(s, p, k);
    assert(k == i) by {
        if k < i {
            assert(!p(s[k]));
        } else if i < k {
            assert(!p(s[i]));
        }
    }
}

/// Where the property holds somewhere, `first_where` names the first hit.
pub proof fn lemma_first_where_some<T>(s: Seq<T>, p: spec_fn(T) -> bool)
    requires
        holds_somewhere(s, p),
    ensures
        first_where(s, p) matches Some(i) && is_first_where(s, p, i),
{
    let i = choose|i: int| 0 <= i < s.len() && #[trigger] p(s[i]);
    lemma_first_hit_exists(s, p, i);
}

} // verus!
