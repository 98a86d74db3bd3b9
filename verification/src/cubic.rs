//! A cubic Bezier/Hermite segment in monomial form, with forward evaluation
//! and the Newton–Raphson inversion used for weighted cubic interpolation.

use vstd::prelude::*;

use crate::fixed::{
    fx_abs, fx_abs_s, fx_add, fx_add_s, fx_div, fx_div_s, fx_mul, fx_mul_s, fx_scale, fx_scale_s,
    fx_sub, fx_sub_s, Fx,
};
use crate::knot::{Pt, Vec2};

verus! {

/// The model of a [`CubicSegment`]: its four monomial coefficients as
/// mathematical points.
pub ghost struct SpecCubic {
    pub c0: Pt,
    pub c1: Pt,
    pub c2: Pt,
    pub c3: Pt,
}

/// One cubic polynomial segment `c0 + c1 t + c2 t^2 + c3 t^3` (per axis,
/// `t` nominally in `[0, SCALE]` but not clamped), stored as monomial-basis
/// coefficients derived from four Bezier control points.
#[derive(Clone, Copy, Debug, PartialEq)]
pub struct CubicSegment {
    pub coeff: [Vec2; 4],
}

impl View for CubicSegment {
    type V = SpecCubic;

    open spec fn view(&self) -> SpecCubic {
        SpecCubic {
            c0: self.coeff[0]@,
            c1: self.coeff[1]@,
            c2: self.coeff[2]@,
            c3: self.coeff[3]@,
        }
    }
}

/// Position on the segment at parametric value `t`.
pub open spec fn spec_position(seg: SpecCubic, t: int) -> Pt {
    let t2 = fx_mul_s(t, t);
    let t3 = fx_mul_s(t2, t);
    Pt {
        x: fx_add_s(
            fx_add_s(fx_add_s(seg.c0.x, fx_mul_s(seg.c1.x, t)), fx_mul_s(seg.c2.x, t2)),
            fx_mul_s(seg.c3.x, t3),
        ),
        y: fx_add_s(
            fx_add_s(fx_add_s(seg.c0.y, fx_mul_s(seg.c1.y, t)), fx_mul_s(seg.c2.y, t2)),
            fx_mul_s(seg.c3.y, t3),
        ),
    }
}

/// Velocity (derivative) of the segment at parametric value `t`:
/// `c1 + 2 c2 t + 3 c3 t^2`.
pub open spec fn spec_velocity(seg: SpecCubic, t: int) -> Pt {
    let t2 = fx_mul_s(t, t);
    Pt {
        x: fx_add_s(
            fx_add_s(seg.c1.x, fx_mul_s(fx_scale_s(2, seg.c2.x), t)),
            fx_mul_s(fx_scale_s(3, seg.c3.x), t2),
        ),
        y: fx_add_s(
            fx_add_s(seg.c1.y, fx_mul_s(fx_scale_s(2, seg.c2.y), t)),
            fx_mul_s(fx_scale_s(3, seg.c3.y), t2),
        ),
    }
}

/// One row of the characteristic-matrix product: the linear combination
/// `k0 p0 + k1 p1 + k2 p2 + k3 p3` with plain integer factors.
pub open spec fn spec_matrix_row(
    k0: int,
    k1: int,
    k2: int,
    k3: int,
    p0: Pt,
    p1: Pt,
    p2: Pt,
    p3: Pt,
) -> Pt {
    Pt {
        x: fx_add_s(
            fx_add_s(fx_add_s(fx_scale_s(k0, p0.x), fx_scale_s(k1, p1.x)), fx_scale_s(k2, p2.x)),
            fx_scale_s(k3, p3.x),
        ),
        y: fx_add_s(
            fx_add_s(fx_add_s(fx_scale_s(k0, p0.y), fx_scale_s(k1, p1.y)), fx_scale_s(k2, p2.y)),
            fx_scale_s(k3, p3.y),
        ),
    }
}

/// The monomial coefficients of the cubic Bezier through the four control
/// points, via the fixed Bezier characteristic matrix.
pub open spec fn spec_bezier_segment(p0: Pt, p1: Pt, p2: Pt, p3: Pt) -> SpecCubic {
    SpecCubic {
        c0: spec_matrix_row(1, 0, 0, 0, p0, p1, p2, p3),
        c1: spec_matrix_row(-3, 3, 0, 0, p0, p1, p2, p3),
        c2: spec_matrix_row(3, -6, 3, 0, p0, p1, p2, p3),
        c3: spec_matrix_row(-1, 3, -3, 1, p0, p1, p2, p3),
    }
}

/// The y returned by Newton–Raphson iteration for the x-inverse of the
/// segment: starting from guess `t`, up to `iters` steps of
/// `t <- t - (position(t).x - x) / velocity(t).x`, stopping early once the
/// x-error is within `max_error`, and returning the y of the last evaluated
/// position (or `fallback_y` when no step ran at all).
pub open spec fn spec_newton_y(
    seg: SpecCubic,
    x: int,
    max_error: int,
    iters: int,
    t: int,
    fallback_y: int,
) -> int
    decreases iters,
{
    if iters <= 0 {
        fallback_y
    } else {
        let p = spec_position(seg, t);
        let e = fx_sub_s(p.x, x);
        if fx_abs_s(e) <= max_error {
            p.y
        } else {
            spec_newton_y(
                seg,
                x,
                max_error,
                iters - 1,
                fx_sub_s(t, fx_div_s(e, spec_velocity(seg, t).x)),
                p.y,
            )
        }
    }
}

impl CubicSegment {
    /// Instantaneous position of a point at parametric value `t`.
    #[inline]
    pub fn position(&self, t: Fx) -> (p: Vec2)
        ensures
            p@ == spec_position(self@, t as int),
    {
        let t2 = fx_mul(t, t);
        let t3 = fx_mul(t2, t);
        Vec2::new(
            fx_add(
                fx_add(
                    fx_add(self.coeff[0].x, fx_mul(self.coeff[1].x, t)),
                    fx_mul(self.coeff[2].x, t2),
                ),
                fx_mul(self.coeff[3].x, t3),
            ),
            fx_add(
                fx_add(
                    fx_add(self.coeff[0].y, fx_mul(self.coeff[1].y, t)),
                    fx_mul(self.coeff[2].y, t2),
                ),
                fx_mul(self.coeff[3].y, t3),
            ),
        )
    }

    /// Instantaneous velocity of a point at parametric value `t`.
    #[inline]
    pub fn velocity(&self, t: Fx) -> (v: Vec2)
        ensures
            v@ == spec_velocity(self@, t as int),
    {
        let t2 = fx_mul(t, t);
        Vec2::new(
            fx_add(
                fx_add(self.coeff[1].x, fx_mul(fx_scale(2, self.coeff[2].x), t)),
                fx_mul(fx_scale(3, self.coeff[3].x), t2),
            ),
            fx_add(
                fx_add(self.coeff[1].y, fx_mul(fx_scale(2, self.coeff[2].y), t)),
                fx_mul(fx_scale(3, self.coeff[3].y), t2),
            ),
        )
    }

    /// Invert the segment: find the y whose position has the given `x`,
    /// treating `x` as the initial guess for `t` (valid because segments of
    /// an x-monotonic curve keep x close to affine in `t`). Runs at most
    /// `max_iters` Newton–Raphson steps and stops early once the x-error is
    /// within `max_error`; the y of the last evaluated position is returned
    /// whether or not the iteration converged. A vanishing velocity makes
    /// the division saturate, the fixed-point analogue of the unguarded
    /// division of the classical algorithm.
    #[inline]
    pub fn find_y_given_x(&self, x: Fx, max_error: Fx, max_iters: u8) -> (y: Fx)
        ensures
            y as int == spec_newton_y(
                self@,
                x as int,
                max_error as int,
                max_iters as int,
                x as int,
                0,
            ),
    {
        let ghost target = spec_newton_y(
            self@,
            x as int,
            max_error as int,
            max_iters as int,
            x as int,
            0,
        );
        let mut t_guess = x;
        let mut last_y: Fx = 0;
        let mut n = max_iters;
        while n > 0
            invariant
                target == spec_newton_y(
                    self@,
                    x as int,
                    max_error as int,
                    max_iters as int,
                    x as int,
                    0,
                ),
                spec_newton_y(
                    self@,
                    x as int,
                    max_error as int,
                    n as int,
                    t_guess as int,
                    last_y as int,
                ) == target,
            decreases n,
        {
            let pos_guess = self.position(t_guess);
            let error = fx_sub(pos_guess.x, x);
            if fx_abs(error) <= max_error {
                return pos_guess.y;
            }
            // Using Newton's method, use the tangent line to estimate a better guess value.
            let slope = self.velocity(t_guess).x;
            t_guess = fx_sub(t_guess, fx_div(error, slope));
            last_y = pos_guess.y;
            n = n - 1;
        }
        last_y
    }

    /// Build a segment from four Bezier control points.
    #[inline]
    pub fn from_bezier_points(control_points: [Vec2; 4]) -> (seg: CubicSegment)
        ensures
            seg@ == spec_bezier_segment(
                control_points[0]@,
                control_points[1]@,
                control_points[2]@,
                control_points[3]@,
            ),
    {
        let char_matrix: [[i64; 4]; 4] = [
            [1, 0, 0, 0],
            [-3, 3, 0, 0],
            [3, -6, 3, 0],
            [-1, 3, -3, 1],
        ];

        Self::coefficients(control_points, char_matrix)
    }

    /// The polynomial coefficients, computed by multiplying the
    /// characteristic matrix by the point matrix.
    #[inline]
    pub fn coefficients(p: [Vec2; 4], char_matrix: [[i64; 4]; 4]) -> (seg: CubicSegment)
        ensures
            seg@.c0 == spec_matrix_row(
                char_matrix[0][0] as int,
                char_matrix[0][1] as int,
                char_matrix[0][2] as int,
                char_matrix[0][3] as int,
                p[0]@,
                p[1]@,
                p[2]@,
                p[3]@,
            ),
            seg@.c1 == spec_matrix_row(
                char_matrix[1][0] as int,
                char_matrix[1][1] as int,
                char_matrix[1][2] as int,
                char_matrix[1][3] as int,
                p[0]@,
                p[1]@,
                p[2]@,
                p[3]@,
            ),
            seg@.c2 == spec_matrix_row(
                char_matrix[2][0] as int,
                char_matrix[2][1] as int,
                char_matrix[2][2] as int,
                char_matrix[2][3] as int,
                p[0]@,
                p[1]@,
                p[2]@,
                p[3]@,
            ),
            seg@.c3 == spec_matrix_row(
                char_matrix[3][0] as int,
                char_matrix[3][1] as int,
                char_matrix[3][2] as int,
                char_matrix[3][3] as int,
                p[0]@,
                p[1]@,
                p[2]@,
                p[3]@,
            ),
    {
        let coeff = [
            Self::matrix_row(&p, &char_matrix, 0),
            Self::matrix_row(&p, &char_matrix, 1),
            Self::matrix_row(&p, &char_matrix, 2),
            Self::matrix_row(&p, &char_matrix, 3),
        ];
        CubicSegment { coeff }
    }

    fn matrix_row(p: &[Vec2; 4], char_matrix: &[[i64; 4]; 4], r: usize) -> (v: Vec2)
        requires
            r < 4,
        ensures
            v@ == spec_matrix_row(
                char_matrix[r as int][0] as int,
                char_matrix[r as int][1] as int,
                char_matrix[r as int][2] as int,
                char_matrix[r as int][3] as int,
                p[0]@,
                p[1]@,
                p[2]@,
                p[3]@,
            ),
    {
        let row = char_matrix[r];
        Vec2::new(
            fx_add(
                fx_add(
                    fx_add(fx_scale(row[0], p[0].x), fx_scale(row[1], p[1].x)),
                    fx_scale(row[2], p[2].x),
                ),
                fx_scale(row[3], p[3].x),
            ),
            fx_add(
                fx_add(
                    fx_add(fx_scale(row[0], p[0].y), fx_scale(row[1], p[1].y)),
                    fx_scale(row[2], p[2].y),
                ),
                fx_scale(row[3], p[3].y),
            ),
        )
    }
}

impl Default for CubicSegment {
    fn default() -> (seg: CubicSegment)
        ensures
            seg.coeff[0] == (Vec2 { x: 0, y: 0 }),
            seg.coeff[1] == (Vec2 { x: 0, y: 0 }),
            seg.coeff[2] == (Vec2 { x: 0, y: 0 }),
            seg.coeff[3] == (Vec2 { x: 0, y: 0 }),
    {
        let z = Vec2::zero();
        CubicSegment { coeff: [z, z, z, z] }
    }
}

} // verus!
