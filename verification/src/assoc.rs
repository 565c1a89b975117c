//! First-match search over sequences.
//!
//! The registry, the per-state filesystem table and the in-memory file
//! store are all association lists looked up by their first matching
//! entry. The spec function [`first_where`] is the single mathematical
//! account of that lookup; the lemmas connect it to the loops that
//! implement it.

use vstd::prelude::*;

verus! {

/// Index of the first element of `s` satisfying `p`, if any.
pub open spec fn first_where<T>(s: Seq<T>, p: spec_fn(T) -> bool) -> Option<int>
    decreases s.len(),
{
    if s.len() == 0 {
        None
    } else if p(s[0]) {
        Some(0)
    } else {
        match first_where(s.drop_first(), p) {
            Some(i) => Some(i + 1),
            None => None,
        }
    }
}

/// What `first_where` returns: an in-bounds index of a matching
/// element before which nothing matches, or `None` when nothing
/// matches at all.
pub proof fn lemma_first_where_bounds<T>(s: Seq<T>, p: spec_fn(T) -> bool)
    ensures
        match first_where(s, p) {
            Some(i) => 0 <= i < s.len() && p(s[i]) && (forall|j: int| 0 <= j < i ==> !p(s[j])),
            None => forall|j: int| 0 <= j < s.len() ==> !p(s[j]),
        },
    decreases s.len(),
{
    if s.len() == 0 {
    } else if p(s[0]) {
    } else {
        lemma_first_where_bounds(s.drop_first(), p);
        match first_where(s.drop_first(), p) {
            Some(i) => {
                assert(s.drop_first()[i] == s[i + 1]);
                assert forall|j: int| 0 <= j < i + 1 implies !p(s[j]) by {
                    if j > 0 {
                        assert(s.drop_first()[j - 1] == s[j]);
                    }
                }
            },
            None => {
                assert forall|j: int| 0 <= j < s.len() implies !p(s[j]) by {
                    if j > 0 {
                        assert(s.drop_first()[j - 1] == s[j]);
                    }
                }
            },
        }
    }
}

/// A matching index before which nothing matches is the one
/// `first_where` returns.
pub proof fn lemma_first_where_at<T>(s: Seq<T>, p: spec_fn(T) -> bool, i: int)
    requires
        0 <= i < s.len(),
        p(s[i]),
        forall|j: int| 0 <= j < i ==> !p(s[j]),
    ensures
        first_where(s, p) == Some(i),
    decreases s.len(),
{
    if i == 0 {
    } else {
        assert(!p(s[0]));
        assert(s.drop_first()[i - 1] == s[i]);
        assert(forall|j: int| 0 <= j < i - 1 ==> s.drop_first()[j] == s[j + 1]);
        lemma_first_where_at(s.drop_first(), p, i - 1);
    }
}

/// When no element matches, `first_where` returns `None`.
pub proof fn lemma_first_where_none<T>(s: Seq<T>, p: spec_fn(T) -> bool)
    requires
        forall|j: int| 0 <= j < s.len() ==> !p(s[j]),
    ensures
        first_where(s, p) is None,
    decreases s.len(),
{
    if s.len() == 0 {
    } else {
        assert(forall|j: int| 0 <= j < s.drop_first().len() ==> s.drop_first()[j] == s[j + 1]);
        lemma_first_where_none(s.drop_first(), p);
    }
}

} // verus!
