//! The lookup curve itself: an ordered knot sequence with mutation that
//! preserves order, and the `lookup` evaluation API.

use vstd::prelude::*;

use crate::cubic::{spec_bezier_segment, spec_newton_y, CubicSegment};
use crate::fixed::{
    fx_add, fx_add_s, fx_div, fx_div_s, fx_mul, fx_mul_s, fx_scale, fx_scale_s, fx_sub, fx_sub_s,
    lemma_fx_div_self, lemma_fx_div_zero, lemma_fx_mul_one, lemma_fx_mul_zero, Fx, SCALE,
};
use crate::knot::{spec_bezier_to, spec_lerp, Knot, KnotInterpolation, Vec2};
use crate::knot_search::{
    bracket_of, first_ge, in_search_range, is_bracket, knots_sorted, lemma_bracket_unique,
    lower_pos, search_knots, search_knots_with_cache,
};

verus! {

/// Default cap on Newton–Raphson iterations in weighted cubic segments.
pub const MAX_ITERS_DEFAULT: u8 = 20;

/// Default x-error (in millionths) below which Newton–Raphson iteration
/// stops: ten millionths.
pub const MAX_ERROR_DEFAULT: i64 = 10;

/// The default cap on Newton–Raphson iterations.
pub fn max_iters_default() -> (r: u8)
    ensures
        r == MAX_ITERS_DEFAULT,
{
    MAX_ITERS_DEFAULT
}

/// The default solver error tolerance.
pub fn max_error_default() -> (r: Fx)
    ensures
        r == MAX_ERROR_DEFAULT,
{
    MAX_ERROR_DEFAULT
}

/// Cache to speed up coherent lookups, see [`LookupCurve::lookup_cached`].
///
/// Purely advisory: it holds the index of the last resolved knot, becomes
/// stale (silently, safely) if the curve is mutated between calls, and never
/// changes a lookup's result.
#[derive(Debug, Clone)]
pub struct LookupCache {
    last_knot_index: Option<usize>,
}

impl View for LookupCache {
    type V = Option<usize>;

    closed spec fn view(&self) -> Option<usize> {
        self.last_knot_index
    }
}

impl LookupCache {
    pub fn new() -> (c: LookupCache)
        ensures
            c@ is None,
    {
        LookupCache { last_knot_index: None }
    }
}

impl Default for LookupCache {
    fn default() -> (c: LookupCache)
        ensures
            c@ is None,
    {
        LookupCache { last_knot_index: None }
    }
}

impl Default for LookupCurve {
    /// An empty curve (every lookup yields 0) with default iteration cap and
    /// tolerance.
    fn default() -> (c: LookupCurve)
        ensures
            c@ == Seq::<Knot>::empty(),
            c.wf(),
            c.spec_max_iters() == MAX_ITERS_DEFAULT,
            c.spec_max_error() == MAX_ERROR_DEFAULT,
            c.spec_name() is None,
    {
        LookupCurve {
            knots: Vec::new(),
            max_iters: MAX_ITERS_DEFAULT,
            max_error: MAX_ERROR_DEFAULT,
            name: None,
        }
    }
}

/// Insert `k` into the sorted sequence `s` after every knot whose x is at
/// most `k`'s: the insertion a stable sort performs.
pub open spec fn sorted_insert(s: Seq<Knot>, k: Knot) -> Seq<Knot>
    decreases s.len(),
{
    if s.len() == 0 {
        seq![k]
    } else if k.position.x < s.last().position.x {
        sorted_insert(s.drop_last(), k).push(s.last())
    } else {
        s.push(k)
    }
}

/// Stable sort of a knot sequence by x, as repeated [`sorted_insert`].
pub open spec fn sort_knots(s: Seq<Knot>) -> Seq<Knot>
    decreases s.len(),
{
    if s.len() == 0 {
        Seq::empty()
    } else {
        sorted_insert(sort_knots(s.drop_last()), s.last())
    }
}

/// The index where a knot ends up after `modify_knot(i, k)`: unchanged when
/// the x is unchanged or the partition point equals `i`; otherwise the
/// partition point of the new x, adjusted for the removal of the old entry.
pub open spec fn spec_modify_idx(s: Seq<Knot>, i: int, k: Knot) -> int {
    if s[i].position.x == k.position.x {
        i
    } else {
        let ni = lower_pos(s, k.position.x as int);
        if ni == i {
            i
        } else if i < ni {
            ni - 1
        } else {
            ni
        }
    }
}

/// The knot sequence after `modify_knot(i, k)`: an in-place overwrite when
/// the index is unchanged, otherwise removal of the old entry and insertion
/// of the new value at the adjusted index.
pub open spec fn spec_modify_seq(s: Seq<Knot>, i: int, k: Knot) -> Seq<Knot> {
    if s[i].position.x == k.position.x || lower_pos(s, k.position.x as int) == i {
        s.update(i, k)
    } else {
        s.remove(i).insert(spec_modify_idx(s, i, k), k)
    }
}

/// Inserting at an index that splits `s` into knots left of `k` and knots
/// right of it keeps the sequence sorted.
proof fn lemma_insert_sorted_pos(s: Seq<Knot>, k: Knot, p: int)
    requires
        knots_sorted(s),
        0 <= p <= s.len(),
        forall|t: int| 0 <= t < p ==> s[t].position.x <= k.position.x,
        forall|t: int| p <= t < s.len() ==> s[t].position.x >= k.position.x,
    ensures
        knots_sorted(s.insert(p, k)),
{
    s.insert_ensures(p, k);
    let s2 = s.insert(p, k);
    assert forall|a: int, b: int| 0 <= a <= b < s2.len() implies s2[a].position.x
        <= s2[b].position.x by {
        if a < p {
            assert(s2[a] == s[a]);
        }
        if b < p {
            assert(s2[b] == s[b]);
        }
        if a > p {
            assert(s2[a] == s[a - 1]);
        }
        if b > p {
            assert(s2[b] == s[b - 1]);
        }
    }
}

/// Removing an element keeps a sorted sequence sorted.
proof fn lemma_remove_sorted(s: Seq<Knot>, i: int)
    requires
        knots_sorted(s),
        0 <= i < s.len(),
    ensures
        knots_sorted(s.remove(i)),
{
    s.remove_ensures(i);
    let s2 = s.remove(i);
    assert forall|a: int, b: int| 0 <= a <= b < s2.len() implies s2[a].position.x
        <= s2[b].position.x by {
        if a < i {
            assert(s2[a] == s[a]);
        } else {
            assert(s2[a] == s[a + 1]);
        }
        if b < i {
            assert(s2[b] == s[b]);
        } else {
            assert(s2[b] == s[b + 1]);
        }
    }
}

/// Inserting `k` right after every knot whose x is at most `k`'s is exactly
/// what [`sorted_insert`] denotes.
proof fn lemma_sorted_insert_at(s: Seq<Knot>, k: Knot, j: int)
    requires
        knots_sorted(s),
        0 <= j <= s.len(),
        forall|t: int| j <= t < s.len() ==> s[t].position.x > k.position.x,
        j > 0 ==> s[j - 1].position.x <= k.position.x,
    ensures
        s.insert(j, k) == sorted_insert(s, k),
    decreases s.len(),
{
    s.insert_ensures(j, k);
    if s.len() == 0 {
        assert(s.insert(0, k) =~= seq![k]);
    } else if j == s.len() {
        assert(s.insert(j, k) =~= s.push(k));
        assert(!(k.position.x < s.last().position.x));
    } else {
        assert(s.last().position.x > k.position.x);
        let s1 = s.drop_last();
        assert(knots_sorted(s1));
        assert(forall|t: int| j <= t < s1.len() ==> s1[t] == s[t]);
        lemma_sorted_insert_at(s1, k, j);
        s1.insert_ensures(j, k);
        assert(s.insert(j, k) =~= s1.insert(j, k).push(s.last()));
    }
}

/// Insert a knot into a sorted vector at its stable position.
fn insert_sorted_vec(v: &mut Vec<Knot>, k: Knot)
    requires
        knots_sorted(old(v)@),
    ensures
        final(v)@ == sorted_insert(old(v)@, k),
        knots_sorted(final(v)@),
{
    let mut j: usize = v.len();
    while j > 0 && v[j - 1].position.x > k.position.x
        invariant
            j <= v@.len(),
            knots_sorted(v@),
            forall|t: int| j <= t < v@.len() ==> v@[t].position.x > k.position.x,
        decreases j,
    {
        j = j - 1;
    }
    proof {
        lemma_sorted_insert_at(v@, k, j as int);
        lemma_insert_sorted_pos(v@, k, j as int);
        assert forall|t: int| 0 <= t < j implies v@[t].position.x <= k.position.x by {
            assert(v@[t].position.x <= v@[j - 1].position.x);
        }
    }
    v.insert(j, k);
}

/// Two-dimensional spline that only allows a single y-value per x-value.
///
/// The knot sequence is kept sorted by x at all times: construction sorts
/// once, and every mutator preserves the order by relocating the affected
/// knot instead of re-sorting.
#[derive(Clone, Debug)]
pub struct LookupCurve {
    knots: Vec<Knot>,
    max_iters: u8,
    max_error: Fx,
    name: Option<String>,
}

impl View for LookupCurve {
    type V = Seq<Knot>;

    closed spec fn view(&self) -> Seq<Knot> {
        self.knots@
    }
}

impl LookupCurve {
    /// The curve's invariant: knots sorted by x, non-decreasing.
    pub open spec fn wf(&self) -> bool {
        knots_sorted(self@)
    }

    /// The Newton–Raphson iteration cap, in specifications.
    pub closed spec fn spec_max_iters(&self) -> u8 {
        self.max_iters
    }

    /// The Newton–Raphson error tolerance, in specifications.
    pub closed spec fn spec_max_error(&self) -> Fx {
        self.max_error
    }

    /// The curve's name, in specifications.
    pub closed spec fn spec_name(&self) -> Option<String> {
        self.name
    }

    /// Max number of iterations used for Newton-Raphson iteration in
    /// weighted cubic segments.
    pub fn max_iters(&self) -> (r: u8)
        ensures
            r == self.spec_max_iters(),
    {
        self.max_iters
    }

    /// Max error allowed before breaking Newton-Raphson iteration in
    /// weighted cubic segments.
    pub fn max_error(&self) -> (r: Fx)
        ensures
            r == self.spec_max_error(),
    {
        self.max_error
    }

    /// The curve's name, if it has one.
    pub fn name(&self) -> (r: &Option<String>)
        ensures
            *r == self.spec_name(),
    {
        &self.name
    }

    /// Build a curve from knots in any order; they are sorted (stably) by x
    /// once, here. Iteration and tolerance get their default values.
    pub fn new(knots: Vec<Knot>) -> (curve: LookupCurve)
        ensures
            curve@ == sort_knots(knots@),
            curve.wf(),
            curve.spec_max_iters() == MAX_ITERS_DEFAULT,
            curve.spec_max_error() == MAX_ERROR_DEFAULT,
            curve.spec_name() is None,
    {
        let mut sorted: Vec<Knot> = Vec::new();
        let n = knots.len();
        let mut idx: usize = 0;
        while idx < n
            invariant
                n == knots@.len(),
                idx <= n,
                knots_sorted(sorted@),
                sorted@ == sort_knots(knots@.take(idx as int)),
            decreases n - idx,
        {
            proof {
                assert(knots@.take(idx + 1).drop_last() =~= knots@.take(idx as int));
                assert(knots@.take(idx + 1).last() == knots@[idx as int]);
            }
            insert_sorted_vec(&mut sorted, knots[idx]);
            idx = idx + 1;
        }
        proof {
            assert(knots@.take(n as int) =~= knots@);
        }
        LookupCurve {
            knots: sorted,
            max_iters: MAX_ITERS_DEFAULT,
            max_error: MAX_ERROR_DEFAULT,
            name: None,
        }
    }

    /// Consumes the curve and returns it with max_iters set to the new value.
    pub fn with_max_iters(self, max_iters: u8) -> (r: LookupCurve)
        ensures
            r@ == self@,
            r.spec_max_iters() == max_iters,
            r.spec_max_error() == self.spec_max_error(),
            r.spec_name() == self.spec_name(),
    {
        LookupCurve { max_iters, ..self }
    }

    /// Consumes the curve and returns it with max_error set to the new value.
    pub fn with_max_error(self, max_error: Fx) -> (r: LookupCurve)
        ensures
            r@ == self@,
            r.spec_max_iters() == self.spec_max_iters(),
            r.spec_max_error() == max_error,
            r.spec_name() == self.spec_name(),
    {
        LookupCurve { max_error, ..self }
    }

    /// Consumes the curve and returns it with name set.
    pub fn with_name(self, name: String) -> (r: LookupCurve)
        ensures
            r@ == self@,
            r.spec_max_iters() == self.spec_max_iters(),
            r.spec_max_error() == self.spec_max_error(),
            r.spec_name() == Some(name),
    {
        LookupCurve { name: Some(name), ..self }
    }

    /// The curve's name, or a default label when it has none.
    pub fn name_or_default(&self) -> (r: &str)
        ensures
            r@ == match self.spec_name() {
                Some(n) => n@,
                None => "Unnamed lookup curve"@,
            },
    {
        match &self.name {
            Some(n) => n.as_str(),
            None => "Unnamed lookup curve",
        }
    }

    /// Returns the knots in the curve as a slice.
    pub fn knots(&self) -> (r: &[Knot])
        ensures
            r@ == self@,
    {
        self.knots.as_slice()
    }

    /// Given a knot index, returns the previous knot in the curve, or `None`
    /// if there is no previous knot.
    #[inline]
    pub fn prev_knot(&self, i: usize) -> (r: Option<&Knot>)
        requires
            i <= self@.len(),
        ensures
            match r {
                Some(k) => i > 0 && *k == self@[i - 1],
                None => i == 0,
            },
    {
        if i > 0 {
            Some(&self.knots[i - 1])
        } else {
            None
        }
    }

    /// Given a knot index, returns the next knot in the curve, or `None` if
    /// there is no next knot.
    #[inline]
    pub fn next_knot(&self, i: usize) -> (r: Option<&Knot>)
        ensures
            match r {
                Some(k) => i + 1 < self@.len() && *k == self@[i + 1],
                None => i + 1 >= self@.len(),
            },
    {
        let len = self.knots.len();
        if len >= 1 && i < len - 1 {
            Some(&self.knots[i + 1])
        } else {
            None
        }
    }

    /// Adds a knot to the curve, keeping the sequence sorted; an x beyond the
    /// current maximum is appended directly. Returns the index of the added
    /// knot: the first index whose knot lies at or right of the new x.
    pub fn add_knot(&mut self, knot: Knot) -> (i: usize)
        requires
            old(self).wf(),
        ensures
            final(self).wf(),
            i <= old(self)@.len(),
            final(self)@ == old(self)@.insert(i as int, knot),
            forall|j: int| 0 <= j < i ==> old(self)@[j].position.x < knot.position.x,
            forall|j: int|
                i <= j < old(self)@.len() ==> old(self)@[j].position.x >= knot.position.x,
            final(self).spec_max_iters() == old(self).spec_max_iters(),
            final(self).spec_max_error() == old(self).spec_max_error(),
            final(self).spec_name() == old(self).spec_name(),
    {
        let len = self.knots.len();
        if len == 0 || knot.position.x > self.knots[len - 1].position.x {
            proof {
                let s = self@;
                assert forall|j: int| 0 <= j < s.len() implies s[j].position.x < knot.position.x by {
                    assert(s[j].position.x <= s[s.len() - 1].position.x);
                }
                assert(self@.insert(s.len() as int, knot) =~= self@.push(knot));
                lemma_insert_sorted_pos(self@, knot, s.len() as int);
            }
            self.knots.push(knot);
            return len;
        }

        let i = first_ge(self.knots.as_slice(), knot.position.x);
        proof {
            lemma_insert_sorted_pos(self@, knot, i as int);
        }
        self.knots.insert(i, knot);
        i
    }

    /// Modifies an existing knot in the lookup curve, relocating it if its x
    /// changed so the sequence stays sorted. Returns the new (possibly
    /// unchanged) index of the knot; the caller must re-fetch by the
    /// returned index rather than trust the old one.
    pub fn modify_knot(&mut self, i: usize, new_value: Knot) -> (r: usize)
        requires
            old(self).wf(),
            i < old(self)@.len(),
        ensures
            final(self).wf(),
            final(self)@ == spec_modify_seq(old(self)@, i as int, new_value),
            r as int == spec_modify_idx(old(self)@, i as int, new_value),
            r < final(self)@.len(),
            final(self).spec_max_iters() == old(self).spec_max_iters(),
            final(self).spec_max_error() == old(self).spec_max_error(),
            final(self).spec_name() == old(self).spec_name(),
    {
        let old_value = self.knots[i];

        if old_value.position.x == new_value.position.x {
            // The knot has not been moved on the x axis, simply overwrite it
            proof {
                let s = self@;
                let s2 = s.update(i as int, new_value);
                assert forall|a: int, b: int| 0 <= a <= b < s2.len() implies s2[a].position.x
                    <= s2[b].position.x by {
                    assert(s[a].position.x <= s[b].position.x);
                }
            }
            self.knots.set(i, new_value);
            return i;
        }

        // binary search for new idx
        let new_i = first_ge(self.knots.as_slice(), new_value.position.x);
        if new_i == i {
            // knot stays in the same spot even though position was changed,
            // overwrite it
            proof {
                let s = self@;
                let s2 = s.update(i as int, new_value);
                assert forall|a: int, b: int| 0 <= a <= b < s2.len() implies s2[a].position.x
                    <= s2[b].position.x by {
                    assert(s[a].position.x <= s[b].position.x);
                }
            }
            self.knots.set(i, new_value);
            return i;
        }

        let ghost s = self@;
        proof {
            s.remove_ensures(i as int);
            lemma_remove_sorted(s, i as int);
        }
        self.knots.remove(i);

        let insert_i = if i < new_i {
            new_i - 1
        } else {
            new_i
        };
        proof {
            let s2 = s.remove(i as int);
            assert forall|t: int| 0 <= t < insert_i implies s2[t].position.x
                < new_value.position.x by {
                if t < i {
                    assert(s2[t] == s[t]);
                } else {
                    assert(s2[t] == s[t + 1]);
                }
            }
            assert forall|t: int| insert_i <= t < s2.len() implies s2[t].position.x
                >= new_value.position.x by {
                if t < i {
                    assert(s2[t] == s[t]);
                } else {
                    assert(s2[t] == s[t + 1]);
                }
            }
            lemma_insert_sorted_pos(s2, new_value, insert_i as int);
        }
        self.knots.insert(insert_i, new_value);

        insert_i
    }

    /// Deletes a knot given index.
    pub fn delete_knot(&mut self, i: usize)
        requires
            old(self).wf(),
            i < old(self)@.len(),
        ensures
            final(self).wf(),
            final(self)@ == old(self)@.remove(i as int),
            final(self).spec_max_iters() == old(self).spec_max_iters(),
            final(self).spec_max_error() == old(self).spec_max_error(),
            final(self).spec_name() == old(self).spec_name(),
    {
        proof {
            lemma_remove_sorted(self@, i as int);
        }
        self.knots.remove(i);
    }

    /// Interpolate within the segment whose left knot has index `i`.
    fn lookup_segment(&self, i: usize, x: Fx) -> (y: Fx)
        requires
            self.wf(),
            is_bracket(self@, x as int, i as int),
        ensures
            y as int == spec_segment_y(*self, i as int, x as int),
    {
        let len = self.knots.len();
        assert(i + 1 < len);
        let knot_a = self.knots[i];

        match knot_a.interpolation {
            KnotInterpolation::Constant => knot_a.position.y,
            KnotInterpolation::Linear => {
                let knot_b = &self.knots[i + 1];
                let s = fx_div(
                    fx_sub(x, knot_a.position.x),
                    fx_sub(knot_b.position.x, knot_a.position.x),
                );
                knot_a.position.lerp(knot_b.position, s).y
            },
            KnotInterpolation::Cubic => {
                let knot_b = &self.knots[i + 1];
                if knot_a.right_tangent.weight.is_some() || knot_b.left_tangent.weight.is_some() {
                    weighted_cubic_interp(&knot_a, knot_b, x, self.max_error, self.max_iters)
                } else {
                    unweighted_cubic_interp(&knot_a, knot_b, x)
                }
            },
        }
    }

    /// Find y for given x on the curve.
    ///
    /// An empty curve yields 0; left and right of the knot range the first
    /// and last knot's y is held (flat extrapolation); in between, the
    /// bracketing segment's interpolation decides.
    #[inline]
    pub fn lookup(&self, x: Fx) -> (y: Fx)
        requires
            self.wf(),
        ensures
            y as int == spec_lookup(*self, x as int),
            self@.len() == 0 ==> y == 0,
            self@.len() == 1 ==> y == self@[0].position.y,
            self@.len() >= 1 && x as int <= self@[0].position.x ==> y == self@[0].position.y,
            self@.len() >= 2 && x as int >= self@[self@.len() - 1].position.x && x as int
                > self@[0].position.x ==> y == self@[self@.len() - 1].position.y,
    {
        // Return repeated constant values outside of knot range
        let len = self.knots.len();
        if len == 0 {
            return 0;
        }
        if len == 1 || x <= self.knots[0].position.x {
            return self.knots[0].position.y;
        }
        if x >= self.knots[len - 1].position.x {
            return self.knots[len - 1].position.y;
        }

        // Find left knot
        let i = search_knots(self.knots.as_slice(), x);
        proof {
            lemma_bracket_unique(self@, x as int, i as int, bracket_of(self@, x as int));
        }

        // Interpolate
        self.lookup_segment(i, x)
    }

    /// Find y for given x on the curve, with a [`LookupCache`]. Can speed up
    /// coherent lookups, but might slow down random lookups.
    ///
    /// The result is always the same as [`LookupCurve::lookup`]; the cache
    /// only changes how the bracketing knot is found. When the query is in
    /// the interpolated range the cache is overwritten with the resolved
    /// index, otherwise it is left untouched.
    #[inline]
    pub fn lookup_cached(&self, x: Fx, cache: &mut LookupCache) -> (y: Fx)
        requires
            self.wf(),
        ensures
            y as int == spec_lookup(*self, x as int),
            in_search_range(self@, x as int) ==> (final(cache)@ matches Some(ci) && is_bracket(
                self@,
                x as int,
                ci as int,
            )),
            !in_search_range(self@, x as int) ==> final(cache)@ == old(cache)@,
    {
        // Return repeated constant values outside of knot range
        let len = self.knots.len();
        if len == 0 {
            return 0;
        }
        if len == 1 || x <= self.knots[0].position.x {
            return self.knots[0].position.y;
        }
        if x >= self.knots[len - 1].position.x {
            return self.knots[len - 1].position.y;
        }

        // Find left knot
        let i = search_knots_with_cache(self.knots.as_slice(), x, &mut cache.last_knot_index);
        proof {
            lemma_bracket_unique(self@, x as int, i as int, bracket_of(self@, x as int));
        }

        // Interpolate
        self.lookup_segment(i, x)
    }
}

/// y of the linear segment from `a` to `b` at `x`: linear interpolation of
/// the positions by the normalized fraction `(x - a.x) / (b.x - a.x)`.
pub open spec fn spec_linear_y(a: Knot, b: Knot, x: int) -> int {
    let s = fx_div_s(
        fx_sub_s(x, a.position.x as int),
        fx_sub_s(b.position.x as int, a.position.x as int),
    );
    spec_lerp(a.position@, b.position@, s).y
}

/// y of the unweighted cubic Hermite segment from `a` to `b` at `x`: the
/// standard Hermite blend of the endpoint ys and the tangent slopes scaled
/// by the segment width.
pub open spec fn spec_hermite_y(a: Knot, b: Knot, x: int) -> int {
    let ax = a.position.x as int;
    let bx = b.position.x as int;
    let s = fx_div_s(fx_sub_s(x, ax), fx_sub_s(bx, ax));
    let dx = fx_sub_s(bx, ax);
    let m0 = fx_mul_s(a.right_tangent.slope as int, dx);
    let m1 = fx_mul_s(b.left_tangent.slope as int, dx);
    let s2 = fx_mul_s(s, s);
    let s3 = fx_mul_s(s2, s);
    let ca = fx_add_s(fx_sub_s(fx_scale_s(2, s3), fx_scale_s(3, s2)), SCALE as int);
    let cb = fx_add_s(fx_sub_s(s3, fx_scale_s(2, s2)), s);
    let cc = fx_sub_s(s3, s2);
    let cd = fx_add_s(fx_scale_s(-2, s3), fx_scale_s(3, s2));
    fx_add_s(
        fx_add_s(
            fx_add_s(fx_mul_s(ca, a.position.y as int), fx_mul_s(cb, m0)),
            fx_mul_s(cc, m1),
        ),
        fx_mul_s(cd, b.position.y as int),
    )
}

/// y of the weighted cubic segment from `a` to `b` at `x`: the Newton–
/// Raphson inversion of the Bezier segment through the four control points.
pub open spec fn spec_weighted_y(a: Knot, b: Knot, x: int, max_error: int, max_iters: int) -> int {
    let (p0, p1, p2, p3) = spec_bezier_to(a, b);
    spec_newton_y(spec_bezier_segment(p0, p1, p2, p3), x, max_error, max_iters, x, 0)
}

/// y of the segment whose left knot has index `i`, per that knot's
/// interpolation mode. A cubic segment uses the iterative weighted path
/// exactly when either facing tangent carries a weight.
pub open spec fn spec_segment_y(c: LookupCurve, i: int, x: int) -> int {
    let a = c@[i];
    let b = c@[i + 1];
    match a.interpolation {
        KnotInterpolation::Constant => a.position.y as int,
        KnotInterpolation::Linear => spec_linear_y(a, b, x),
        KnotInterpolation::Cubic => if a.right_tangent.weight is Some || b.left_tangent.weight
            is Some {
            spec_weighted_y(a, b, x, c.spec_max_error() as int, c.spec_max_iters() as int)
        } else {
            spec_hermite_y(a, b, x)
        },
    }
}

/// What `lookup` returns: 0 on an empty curve, flat extrapolation outside
/// the knot range, and the bracketing segment's interpolation in between.
pub open spec fn spec_lookup(c: LookupCurve, x: int) -> int {
    let s = c@;
    if s.len() == 0 {
        0
    } else if s.len() == 1 || x <= s[0].position.x {
        s[0].position.y as int
    } else if x >= s[s.len() - 1].position.x {
        s[s.len() - 1].position.y as int
    } else {
        spec_segment_y(c, bracket_of(s, x), x)
    }
}

/// Unweighted cubic Hermite interpolation between two knots, evaluated in
/// closed form (no iteration: with canonical weights, x is affine in the
/// Hermite parameter, so the inverse is exact).
#[inline]
pub fn unweighted_cubic_interp(knot_a: &Knot, knot_b: &Knot, x: Fx) -> (y: Fx)
    ensures
        y as int == spec_hermite_y(*knot_a, *knot_b, x as int),
{
    let s = fx_div(
        fx_sub(x, knot_a.position.x),
        fx_sub(knot_b.position.x, knot_a.position.x),
    );
    let dx = fx_sub(knot_b.position.x, knot_a.position.x);
    let m0 = fx_mul(knot_a.right_tangent.slope, dx);
    let m1 = fx_mul(knot_b.left_tangent.slope, dx);

    let s2 = fx_mul(s, s);
    let s3 = fx_mul(s2, s);

    let ca = fx_add(fx_sub(fx_scale(2, s3), fx_scale(3, s2)), SCALE);
    let cb = fx_add(fx_sub(s3, fx_scale(2, s2)), s);
    let cc = fx_sub(s3, s2);
    let cd = fx_add(fx_scale(-2, s3), fx_scale(3, s2));

    fx_add(
        fx_add(
            fx_add(fx_mul(ca, knot_a.position.y), fx_mul(cb, m0)),
            fx_mul(cc, m1),
        ),
        fx_mul(cd, knot_b.position.y),
    )
}

/// Bound on knot coordinates within which the continuity proofs hold: far
/// inside the `i64` range, so none of the fixed-point operations involved
/// saturates. A billion curve units in either direction.
pub const COORD_LIMIT: i64 = 1_000_000_000_000_000;

/// The position's coordinates lie within [`COORD_LIMIT`].
pub open spec fn in_coord_range(p: Vec2) -> bool {
    &&& -(COORD_LIMIT as int) <= p.x as int <= COORD_LIMIT as int
    &&& -(COORD_LIMIT as int) <= p.y as int <= COORD_LIMIT as int
}

/// Continuity of linear segments at a shared knot: with knots `a`, `b`, `c`
/// at strictly increasing x (within [`COORD_LIMIT`]), evaluating the left
/// segment's formula exactly at `b.x` and the right segment's formula at the
/// same point both give exactly `b`'s y — the two segments meet.
pub proof fn lemma_linear_continuity(a: Knot, b: Knot, c: Knot)
    requires
        a.position.x < b.position.x,
        b.position.x < c.position.x,
        in_coord_range(a.position),
        in_coord_range(b.position),
        in_coord_range(c.position),
    ensures
        spec_linear_y(a, b, b.position.x as int) == b.position.y as int,
        spec_linear_y(b, c, b.position.x as int) == b.position.y as int,
{
    let ax = a.position.x as int;
    let ay = a.position.y as int;
    let bx = b.position.x as int;
    let by = b.position.y as int;
    let cx = c.position.x as int;

    // Left segment at its right endpoint: s is exactly one.
    let d = bx - ax;
    lemma_fx_div_self(d);
    assert(fx_div_s(fx_sub_s(bx, ax), fx_sub_s(bx, ax)) == SCALE as int);
    lemma_fx_mul_one(by - ay);

    // Right segment at its left endpoint: s is exactly zero.
    let d2 = cx - bx;
    lemma_fx_div_zero(d2);
    lemma_fx_mul_zero(fx_sub_s(c.position.y as int, by));
}

/// Continuity of unweighted cubic Hermite segments at a shared knot: with
/// knots `a`, `b`, `c` at strictly increasing x (within [`COORD_LIMIT`]),
/// the left segment's formula at exactly `b.x` and the right segment's
/// formula at the same point both give exactly `b`'s y, whatever the
/// tangent slopes.
pub proof fn lemma_hermite_continuity(a: Knot, b: Knot, c: Knot)
    requires
        a.position.x < b.position.x,
        b.position.x < c.position.x,
        in_coord_range(a.position),
        in_coord_range(b.position),
        in_coord_range(c.position),
    ensures
        spec_hermite_y(a, b, b.position.x as int) == b.position.y as int,
        spec_hermite_y(b, c, b.position.x as int) == b.position.y as int,
{
    let ax = a.position.x as int;
    let ay = a.position.y as int;
    let bx = b.position.x as int;
    let by = b.position.y as int;
    let cx = c.position.x as int;

    // Left segment at its right endpoint: s = 1, so the blend weights
    // collapse to (0, 0, 0, 1).
    let d = bx - ax;
    lemma_fx_div_self(d);
    lemma_fx_mul_one(SCALE as int);
    let dx = fx_sub_s(bx, ax);
    let m0 = fx_mul_s(a.right_tangent.slope as int, dx);
    let m1 = fx_mul_s(b.left_tangent.slope as int, dx);
    lemma_fx_mul_zero(ay);
    lemma_fx_mul_zero(m0);
    lemma_fx_mul_zero(m1);
    lemma_fx_mul_one(by);

    // Right segment at its left endpoint: s = 0, so the blend weights
    // collapse to (1, 0, 0, 0).
    let d2 = cx - bx;
    lemma_fx_div_zero(d2);
    let dx2 = fx_sub_s(cx, bx);
    let m0r = fx_mul_s(b.right_tangent.slope as int, dx2);
    let m1r = fx_mul_s(c.left_tangent.slope as int, dx2);
    lemma_fx_mul_zero(0);
    lemma_fx_mul_zero(m0r);
    lemma_fx_mul_zero(m1r);
    lemma_fx_mul_zero(c.position.y as int);
}

/// Idempotence of modification: writing a knot's current value back returns
/// the same index and leaves the knot sequence unmodified.
pub proof fn lemma_modify_knot_idempotent(s: Seq<Knot>, i: int)
    requires
        0 <= i < s.len(),
    ensures
        spec_modify_idx(s, i, s[i]) == i,
        spec_modify_seq(s, i, s[i]) == s,
{
    assert(s.update(i, s[i]) =~= s);
}

/// Round trip of ordering: adding a knot and deleting it again at the index
/// `add_knot` returned restores the knot sequence as it was.
pub proof fn lemma_add_then_delete_restores(s: Seq<Knot>, k: Knot, i: int)
    requires
        0 <= i <= s.len(),
    ensures
        s.insert(i, k).remove(i) == s,
{
    s.insert_ensures(i, k);
    assert(s.insert(i, k).remove(i) =~= s);
}

/// Weighted cubic interpolation between two knots: build the Bezier segment
/// and invert it iteratively.
#[inline]
pub fn weighted_cubic_interp(
    knot_a: &Knot,
    knot_b: &Knot,
    x: Fx,
    max_error: Fx,
    max_iters: u8,
) -> (y: Fx)
    ensures
        y as int == spec_weighted_y(
            *knot_a,
            *knot_b,
            x as int,
            max_error as int,
            max_iters as int,
        ),
{
    CubicSegment::from_bezier_points(knot_a.compute_bezier_to(knot_b)).find_y_given_x(
        x,
        max_error,
        max_iters,
    )
}

} // verus!
