//! A two-dimensional lookup curve: a spline that maps each x to a single y.
//!
//! Coordinates are fixed-point numbers stored as `i64` millionths, so the
//! whole evaluation engine — knot search, linear and cubic Hermite
//! interpolation, and the Newton–Raphson inversion of weighted Bezier
//! segments — is deterministic integer arithmetic, verified end to end.

pub mod cubic;
pub mod curve;
pub mod fixed;
pub mod knot;
pub mod knot_search;

pub use cubic::CubicSegment;
pub use curve::{
    max_error_default, max_iters_default, unweighted_cubic_interp, weighted_cubic_interp,
    LookupCache, LookupCurve, MAX_ERROR_DEFAULT, MAX_ITERS_DEFAULT,
};
pub use fixed::{Fx, SCALE};
pub use knot::{
    unique_knot_id, Knot, KnotInterpolation, Tangent, TangentMode, TangentSide, Vec2, THIRD,
};
