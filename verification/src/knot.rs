//! Knots: the control points of a lookup curve, with their tangents.

use vstd::prelude::*;

use crate::fixed::{
    fx_add, fx_add_s, fx_mul, fx_mul_s, fx_sub, fx_sub_s, Fx, SCALE,
};

verus! {

/// The default Bezier weight: one third, in millionths (truncated), matching
/// the canonical Hermite control-point placement.
pub const THIRD: i64 = 333_333;

/// A mathematical point: the model of a [`Vec2`] in specifications.
pub ghost struct Pt {
    pub x: int,
    pub y: int,
}

/// A two-dimensional fixed-point vector, used for knot positions in curve space.
#[derive(Clone, Copy, Debug, PartialEq, Eq, Structural)]
pub struct Vec2 {
    pub x: Fx,
    pub y: Fx,
}

impl View for Vec2 {
    type V = Pt;

    open spec fn view(&self) -> Pt {
        Pt { x: self.x as int, y: self.y as int }
    }
}

/// Linear interpolation between two points: `a + (b - a) * s`, per component.
pub open spec fn spec_lerp(a: Pt, b: Pt, s: int) -> Pt {
    Pt {
        x: fx_add_s(a.x, fx_mul_s(fx_sub_s(b.x, a.x), s)),
        y: fx_add_s(a.y, fx_mul_s(fx_sub_s(b.y, a.y), s)),
    }
}

impl Vec2 {
    pub fn new(x: Fx, y: Fx) -> (v: Vec2)
        ensures
            v == (Vec2 { x, y }),
    {
        Vec2 { x, y }
    }

    /// The zero vector.
    pub fn zero() -> (v: Vec2)
        ensures
            v == (Vec2 { x: 0, y: 0 }),
    {
        Vec2 { x: 0, y: 0 }
    }

    /// Linear interpolation from `self` toward `rhs` by the fixed-point fraction `s`.
    pub fn lerp(self, rhs: Vec2, s: Fx) -> (r: Vec2)
        ensures
            r@ == spec_lerp(self@, rhs@, s as int),
    {
        Vec2 {
            x: fx_add(self.x, fx_mul(fx_sub(rhs.x, self.x), s)),
            y: fx_add(self.y, fx_mul(fx_sub(rhs.y, self.y), s)),
        }
    }
}

/// How a tangent behaves when a knot or its tangents are moved.
#[derive(Clone, Copy, Debug, PartialEq, Eq, Structural)]
pub enum TangentMode {
    /// The tangent can be freely moved without affecting the other tangent.
    Free,
    /// When moving the tangent, the other tangent is updated for a smooth
    /// curve. Both tangents need [`TangentMode::Aligned`] for this to apply.
    Aligned,
}

/// A one-sided derivative at a knot: a slope and an optional Bezier weight.
///
/// An absent weight means canonical (unweighted) Hermite interpolation; a
/// present weight is the control point's fractional distance along `dx`,
/// clamped to `[0, SCALE]`.
#[derive(Clone, Copy, Debug, PartialEq)]
pub struct Tangent {
    pub slope: Fx,
    pub mode: TangentMode,
    pub weight: Option<Fx>,
}

impl Tangent {
    pub fn default_left() -> (t: Tangent)
        ensures
            t == (Tangent { slope: 0, mode: TangentMode::Aligned, weight: None }),
    {
        Tangent { slope: 0, mode: TangentMode::Aligned, weight: None }
    }

    pub fn default_right() -> (t: Tangent)
        ensures
            t == (Tangent { slope: 0, mode: TangentMode::Aligned, weight: None }),
    {
        Tangent { slope: 0, mode: TangentMode::Aligned, weight: None }
    }
}

impl Default for Tangent {
    fn default() -> (t: Tangent)
        ensures
            t == (Tangent { slope: 0, mode: TangentMode::Aligned, weight: None }),
    {
        Tangent { slope: 0, mode: TangentMode::Aligned, weight: None }
    }
}

/// Interpolation used between a [`Knot`] and the next knot.
#[derive(Clone, Copy, Debug, PartialEq, Eq, Structural)]
pub enum KnotInterpolation {
    Constant,
    Linear,
    Cubic,
}

/// Which of a knot's two tangents an edit applies to.
#[derive(Clone, Copy, Debug, PartialEq, Eq, Structural)]
pub enum TangentSide {
    Left,
    Right,
}

/// A knot in a lookup curve.
#[derive(Clone, Copy, Debug, PartialEq)]
pub struct Knot {
    /// The position of this knot in curve space.
    pub position: Vec2,
    /// Interpolation used between this and the next knot.
    pub interpolation: KnotInterpolation,
    /// Left tangent, defining the incoming slope and weight.
    pub left_tangent: Tangent,
    /// Right tangent, defining the outgoing slope and weight.
    pub right_tangent: Tangent,
    /// Identity that stays stable while edits reorder the knot sequence.
    /// Issued by [`unique_knot_id`] from a caller-owned counter.
    pub id: u64,
}

/// Issues the next knot id from a caller-owned counter and advances the
/// counter. Counters conventionally start at 1, so id 0 marks a knot that was
/// never registered with an allocator.
pub fn unique_knot_id(counter: &mut u64) -> (id: u64)
    requires
        *old(counter) < u64::MAX,
    ensures
        id == *old(counter),
        *final(counter) == *old(counter) + 1,
{
    let id = *counter;
    *counter = *counter + 1;
    id
}

/// The Bezier weight to use for a tangent: the stored weight, or the
/// canonical one third.
pub open spec fn spec_weight_or_default(w: Option<Fx>) -> int {
    match w {
        Some(v) => v as int,
        None => THIRD as int,
    }
}

/// A tangent weight as stored: clamped into `[0, SCALE]`.
pub open spec fn spec_clamp_weight(w: int) -> int {
    if w < 0 {
        0
    } else if w > SCALE {
        SCALE as int
    } else {
        w
    }
}

/// The four Bezier control points of the segment from `a` to `b`: each
/// control point sits `weight * dx` along x from its endpoint, and
/// `weight * slope * dx` along y.
pub open spec fn spec_bezier_to(a: Knot, b: Knot) -> (Pt, Pt, Pt, Pt) {
    let wa = spec_weight_or_default(a.right_tangent.weight);
    let sa = a.right_tangent.slope as int;
    let wb = spec_weight_or_default(b.left_tangent.weight);
    let sb = b.left_tangent.slope as int;
    let dx = fx_sub_s(b.position.x as int, a.position.x as int);
    (
        a.position@,
        Pt {
            x: fx_add_s(a.position.x as int, fx_mul_s(wa, dx)),
            y: fx_add_s(a.position.y as int, fx_mul_s(fx_mul_s(wa, sa), dx)),
        },
        Pt {
            x: fx_sub_s(b.position.x as int, fx_mul_s(wb, dx)),
            y: fx_sub_s(b.position.y as int, fx_mul_s(fx_mul_s(wb, sb), dx)),
        },
        b.position@,
    )
}

impl Knot {
    /// Returns a copy of `self` with the tangent slope on `side` set to
    /// `slope`. When both tangents are aligned, the other slope follows.
    pub fn with_tangent_slope(&self, side: TangentSide, slope: Fx) -> (r: Knot)
        ensures
            r.position == self.position,
            r.interpolation == self.interpolation,
            r.id == self.id,
            r.left_tangent.mode == self.left_tangent.mode,
            r.left_tangent.weight == self.left_tangent.weight,
            r.right_tangent.mode == self.right_tangent.mode,
            r.right_tangent.weight == self.right_tangent.weight,
            ({
                let aligned = self.left_tangent.mode is Aligned && self.right_tangent.mode
                    is Aligned;
                &&& r.left_tangent.slope == if side is Left || aligned {
                    slope
                } else {
                    self.left_tangent.slope
                }
                &&& r.right_tangent.slope == if side is Right || aligned {
                    slope
                } else {
                    self.right_tangent.slope
                }
            }),
    {
        let mut knot = *self;

        let aligned = matches!(
            (self.left_tangent.mode, self.right_tangent.mode),
            (TangentMode::Aligned, TangentMode::Aligned)
        );

        if matches!(side, TangentSide::Left) || aligned {
            knot.left_tangent.slope = slope;
        }
        if matches!(side, TangentSide::Right) || aligned {
            knot.right_tangent.slope = slope;
        }

        knot
    }

    /// Returns a copy of `self` with the tangent mode on `side` set to `mode`.
    pub fn with_tangent_mode(&self, side: TangentSide, mode: TangentMode) -> (r: Knot)
        ensures
            r.position == self.position,
            r.interpolation == self.interpolation,
            r.id == self.id,
            r.left_tangent.slope == self.left_tangent.slope,
            r.left_tangent.weight == self.left_tangent.weight,
            r.right_tangent.slope == self.right_tangent.slope,
            r.right_tangent.weight == self.right_tangent.weight,
            r.left_tangent.mode == if side is Left {
                mode
            } else {
                self.left_tangent.mode
            },
            r.right_tangent.mode == if side is Right {
                mode
            } else {
                self.right_tangent.mode
            },
    {
        let mut knot = *self;
        match side {
            TangentSide::Left => knot.left_tangent.mode = mode,
            TangentSide::Right => knot.right_tangent.mode = mode,
        }
        knot
    }

    /// Returns a copy of `self` with the tangent weight on `side` set to
    /// `weight`, clamped into `[0, SCALE]`.
    pub fn with_tangent_weight(&self, side: TangentSide, weight: Option<Fx>) -> (r: Knot)
        ensures
            r.position == self.position,
            r.interpolation == self.interpolation,
            r.id == self.id,
            r.left_tangent.mode == self.left_tangent.mode,
            r.left_tangent.slope == self.left_tangent.slope,
            r.right_tangent.mode == self.right_tangent.mode,
            r.right_tangent.slope == self.right_tangent.slope,
            ({
                let clamped = match weight {
                    Some(w) => Some(spec_clamp_weight(w as int)),
                    None => None,
                };
                &&& (if side is Left {
                    match (r.left_tangent.weight, clamped) {
                        (Some(a), Some(b)) => a as int == b,
                        (None, None) => true,
                        _ => false,
                    }
                } else {
                    r.left_tangent.weight == self.left_tangent.weight
                })
                &&& (if side is Right {
                    match (r.right_tangent.weight, clamped) {
                        (Some(a), Some(b)) => a as int == b,
                        (None, None) => true,
                        _ => false,
                    }
                } else {
                    r.right_tangent.weight == self.right_tangent.weight
                })
            }),
    {
        let mut knot = *self;
        let weight = match weight {
            Some(w) => Some(
                if w < 0 {
                    0
                } else if w > SCALE {
                    SCALE
                } else {
                    w
                },
            ),
            None => None,
        };
        match side {
            TangentSide::Left => knot.left_tangent.weight = weight,
            TangentSide::Right => knot.right_tangent.weight = weight,
        }
        knot
    }

    /// The four Bezier control points from `self` to `knot_b`, from which a
    /// weighted cubic segment is built.
    #[inline]
    pub fn compute_bezier_to(&self, knot_b: &Knot) -> (r: [Vec2; 4])
        ensures
            (r[0]@, r[1]@, r[2]@, r[3]@) == spec_bezier_to(*self, *knot_b),
    {
        let slope_a = self.right_tangent.slope;
        let weight_a = match self.right_tangent.weight {
            Some(w) => w,
            None => THIRD,
        };
        let slope_b = knot_b.left_tangent.slope;
        let weight_b = match knot_b.left_tangent.weight {
            Some(w) => w,
            None => THIRD,
        };
        let dx = fx_sub(knot_b.position.x, self.position.x);
        [
            self.position,
            Vec2::new(
                fx_add(self.position.x, fx_mul(weight_a, dx)),
                fx_add(self.position.y, fx_mul(fx_mul(weight_a, slope_a), dx)),
            ),
            Vec2::new(
                fx_sub(knot_b.position.x, fx_mul(weight_b, dx)),
                fx_sub(knot_b.position.y, fx_mul(fx_mul(weight_b, slope_b), dx)),
            ),
            knot_b.position,
        ]
    }
}

impl Default for Knot {
    /// A linear knot at the origin with flat, unweighted tangents and id 0
    /// (no allocator involved).
    fn default() -> (k: Knot)
        ensures
            k.position == (Vec2 { x: 0, y: 0 }),
            k.interpolation == KnotInterpolation::Linear,
            k.left_tangent == (Tangent { slope: 0, mode: TangentMode::Aligned, weight: None }),
            k.right_tangent == (Tangent { slope: 0, mode: TangentMode::Aligned, weight: None }),
            k.id == 0,
    {
        Knot {
            position: Vec2::zero(),
            interpolation: KnotInterpolation::Linear,
            id: 0,
            right_tangent: Tangent::default_right(),
            left_tangent: Tangent::default_left(),
        }
    }
}

} // verus!
