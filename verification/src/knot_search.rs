//! Search algorithms for locating the knot that brackets a query `x` from the
//! left in a sorted knot sequence.
//!
//! All of them — binary, forward linear, reverse linear, the hybrid default,
//! and the cache-accelerated variant — ensure [`is_bracket`], and
//! [`lemma_bracket_unique`] shows that at most one index satisfies it, so the
//! algorithms always agree.

use vstd::prelude::*;

use vstd::slice::{slice_index_get, slice_subrange};

use crate::fixed::Fx;
use crate::knot::Knot;

verus! {

/// The knots are sorted by x, non-decreasing.
pub open spec fn knots_sorted(s: Seq<Knot>) -> bool {
    forall|i: int, j: int|
        0 <= i <= j < s.len() ==> s[i].position.x <= s[j].position.x
}

/// The query lies strictly between the first and the last knot's x, which is
/// what curve-level lookup guarantees before it searches.
pub open spec fn in_search_range(s: Seq<Knot>, x: int) -> bool {
    &&& s.len() >= 2
    &&& s[0].position.x < x
    &&& x < s[s.len() - 1].position.x
}

/// Index `i` brackets `x` from the left: the knot at `i` lies strictly left
/// of `x` and the next knot lies at or right of it. At an exact match the
/// tie therefore breaks toward the lower index.
pub open spec fn is_bracket(s: Seq<Knot>, x: int, i: int) -> bool {
    &&& 0 <= i
    &&& i + 1 < s.len()
    &&& s[i].position.x < x
    &&& s[i + 1].position.x >= x
}

/// The bracketing index of `x` in `s`. Well-defined whenever some index
/// satisfies [`is_bracket`]; unique by [`lemma_bracket_unique`].
pub open spec fn bracket_of(s: Seq<Knot>, x: int) -> int {
    choose|i: int| is_bracket(s, x, i)
}

/// Algorithm agreement: in a sorted knot sequence at most one index brackets
/// `x`, so every search that ensures [`is_bracket`] — binary, linear,
/// reverse linear, hybrid, or cached with any starting cache state — returns
/// the same index.
pub proof fn lemma_bracket_unique(s: Seq<Knot>, x: int, i: int, j: int)
    requires
        knots_sorted(s),
        is_bracket(s, x, i),
        is_bracket(s, x, j),
    ensures
        i == j,
{
    if i < j {
        assert(s[i + 1].position.x <= s[j].position.x);
    } else if j < i {
        assert(s[j + 1].position.x <= s[i].position.x);
    }
}

/// Index `p` splits `s` into the knots strictly left of `x` and the rest:
/// what the partition point of `k.position.x < x` satisfies.
pub open spec fn is_partition_point(s: Seq<Knot>, x: int, p: int) -> bool {
    &&& 0 <= p <= s.len()
    &&& forall|t: int| 0 <= t < p ==> s[t].position.x < x
    &&& forall|t: int| p <= t < s.len() ==> s[t].position.x >= x
}

/// The partition point of `k.position.x < x` in `s`. Well-defined for sorted
/// sequences; unique by [`lemma_partition_point_unique`].
pub open spec fn lower_pos(s: Seq<Knot>, x: int) -> int {
    choose|p: int| is_partition_point(s, x, p)
}

/// At most one index can be the partition point.
pub proof fn lemma_partition_point_unique(s: Seq<Knot>, x: int, p: int, q: int)
    requires
        is_partition_point(s, x, p),
        is_partition_point(s, x, q),
    ensures
        p == q,
{
    if p < q {
        assert(s[p].position.x >= x);
        assert(s[p].position.x < x);
    } else if q < p {
        assert(s[q].position.x >= x);
        assert(s[q].position.x < x);
    }
}

/// The first index whose knot lies at or right of `x` (the partition point
/// of `k.position.x < x`), by binary search.
pub(crate) fn first_ge(knots: &[Knot], x: Fx) -> (i: usize)
    requires
        knots_sorted(knots@),
    ensures
        i <= knots@.len(),
        forall|j: int| 0 <= j < i ==> knots@[j].position.x < x,
        forall|j: int| i <= j < knots@.len() ==> knots@[j].position.x >= x,
        i as int == lower_pos(knots@, x as int),
{
    let mut lo: usize = 0;
    let mut hi: usize = knots.len();
    while lo < hi
        invariant
            lo <= hi <= knots@.len(),
            knots_sorted(knots@),
            forall|j: int| 0 <= j < lo ==> knots@[j].position.x < x,
            forall|j: int| hi <= j < knots@.len() ==> knots@[j].position.x >= x,
        decreases hi - lo,
    {
        let mid = lo + (hi - lo) / 2;
        if slice_index_get(knots, mid).position.x < x {
            lo = mid + 1;
        } else {
            hi = mid;
        }
    }
    proof {
        assert(is_partition_point(knots@, x as int, lo as int));
        lemma_partition_point_unique(
            knots@,
            x as int,
            lo as int,
            lower_pos(knots@, x as int),
        );
    }
    lo
}

/// Binary search for the bracketing knot. O(log n).
pub fn search_knots_binary(knots: &[Knot], x: Fx) -> (i: usize)
    requires
        knots_sorted(knots@),
        in_search_range(knots@, x as int),
    ensures
        is_bracket(knots@, x as int, i as int),
{
    let p = first_ge(knots, x);
    assert(p >= 1) by {
        assert(knots@[0].position.x < x);
    }
    assert(p < knots@.len()) by {
        assert(knots@[knots@.len() - 1].position.x >= x);
    }
    p - 1
}

/// Forward linear scan: the first knot at or right of `x`, minus one. O(n),
/// cache-friendly for small sequences. Exact without any sortedness
/// assumption.
pub fn search_knots_linear(knots: &[Knot], x: Fx) -> (i: usize)
    requires
        knots@.len() >= 1,
        knots@[0].position.x < x,
        exists|t: int| 0 <= t < knots@.len() && knots@[t].position.x >= x,
    ensures
        i + 1 < knots@.len(),
        forall|t: int| 0 <= t <= i ==> knots@[t].position.x < x,
        knots@[i + 1].position.x >= x,
{
    let n = knots.len();
    let mut j: usize = 1;
    while slice_index_get(knots, j).position.x < x
        invariant
            n == knots@.len(),
            1 <= j < n,
            forall|t: int| 0 <= t < j ==> knots@[t].position.x < x,
            exists|t: int| j <= t < knots@.len() && knots@[t].position.x >= x,
        decreases knots@.len() - j,
    {
        j = j + 1;
    }
    j - 1
}

/// Reverse linear scan: the last knot strictly left of `x`. Used on the
/// prefix before a cache hint when the query moved left. Exact without any
/// sortedness assumption.
pub fn search_knots_linear_rev(knots: &[Knot], x: Fx) -> (i: usize)
    requires
        exists|t: int| 0 <= t < knots@.len() && knots@[t].position.x < x,
    ensures
        i < knots@.len(),
        knots@[i as int].position.x < x,
        forall|t: int| i < t < knots@.len() ==> knots@[t].position.x >= x,
{
    let mut j: usize = knots.len();
    while slice_index_get(knots, j - 1).position.x >= x
        invariant
            1 <= j <= knots@.len(),
            forall|t: int| j <= t < knots@.len() ==> knots@[t].position.x >= x,
            exists|t: int| 0 <= t < j && knots@[t].position.x < x,
        decreases j,
    {
        j = j - 1;
    }
    j - 1
}

/// The default search: binary search, which wins asymptotically and is never
/// worse in practice for this workload.
pub fn search_knots(knots: &[Knot], x: Fx) -> (i: usize)
    requires
        knots_sorted(knots@),
        in_search_range(knots@, x as int),
    ensures
        is_bracket(knots@, x as int, i as int),
{
    search_knots_binary(knots, x)
}

/// Cache-accelerated search. A hint that is absent or points at the last
/// knot or beyond (a stale cache, e.g. after curve mutation) falls back to
/// the full search; otherwise only the prefix or suffix around the hint is
/// scanned. Whatever the starting cache state, the result is the unique
/// bracketing index, and the hint is overwritten with it.
pub fn search_knots_with_cache(knots: &[Knot], x: Fx, cached_index: &mut Option<usize>) -> (i:
    usize)
    requires
        knots_sorted(knots@),
        in_search_range(knots@, x as int),
    ensures
        is_bracket(knots@, x as int, i as int),
        *final(cached_index) == Some(i),
{
    let len = knots.len();
    let i = match *cached_index {
        Some(ci) if ci <= len - 2 => {
            let cached_knot = slice_index_get(knots, ci);
            if x <= cached_knot.position.x {
                // The hint lies at or right of x: scan the prefix before it.
                assert(ci >= 1) by {
                    assert(knots@[0].position.x < x);
                }
                let prefix = slice_subrange(knots, 0, ci);
                assert(prefix@[0] == knots@[0]);
                let r = search_knots_linear_rev(prefix, x);
                assert(is_bracket(knots@, x as int, r as int)) by {
                    assert(knots@[r as int] == prefix@[r as int]);
                    if r + 1 < ci {
                        assert(knots@[r + 1] == prefix@[r + 1]);
                    }
                }
                r
            } else {
                // The hint lies strictly left of x: scan the suffix from it.
                let suffix = slice_subrange(knots, ci, len);
                assert(suffix@[0] == knots@[ci as int]);
                assert(suffix@[suffix@.len() - 1] == knots@[knots@.len() - 1]);
                let r = search_knots_linear(suffix, x);
                assert(is_bracket(knots@, x as int, ci + r as int)) by {
                    assert(knots@[ci + r as int] == suffix@[r as int]);
                    assert(knots@[ci + r + 1] == suffix@[r + 1]);
                }
                ci + r
            }
        },
        _ => search_knots(knots, x),
    };
    *cached_index = Some(i);
    i
}

} // verus!
