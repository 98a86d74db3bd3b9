//! Curve construction, mutation, and evaluation.
//! Coordinates are in millionths: 0.25 is written 250_000.

use lookup_curve::{
    max_error_default, max_iters_default, Knot, KnotInterpolation, LookupCache, LookupCurve,
    Tangent, Vec2,
};

fn knot(x: i64, y: i64, interpolation: KnotInterpolation, id: u64) -> Knot {
    Knot {
        position: Vec2 { x, y },
        interpolation,
        id,
        ..Default::default()
    }
}

#[test]
fn empty_curve_returns_zero() {
    let curve = LookupCurve::new(Vec::new());
    assert_eq!(curve.lookup(0), 0);
    assert_eq!(curve.lookup(-5_000_000), 0);
    assert_eq!(curve.lookup(i64::MAX), 0);
}

#[test]
fn single_knot_is_constant_everywhere() {
    let curve = LookupCurve::new(vec![knot(500_000, 123_456, KnotInterpolation::Linear, 1)]);
    assert_eq!(curve.lookup(-1_000_000), 123_456);
    assert_eq!(curve.lookup(500_000), 123_456);
    assert_eq!(curve.lookup(9_000_000), 123_456);
}

#[test]
fn linear_two_knots() {
    let curve = LookupCurve::new(vec![
        knot(0, 0, KnotInterpolation::Linear, 1),
        knot(1_000_000, 1_000_000, KnotInterpolation::Linear, 2),
    ]);
    assert_eq!(curve.lookup(250_000), 250_000);
    assert_eq!(curve.lookup(-1_000_000), 0);
    assert_eq!(curve.lookup(2_000_000), 1_000_000);
}

#[test]
fn flat_extrapolation_outside_range() {
    let curve = LookupCurve::new(vec![
        knot(0, 111_111, KnotInterpolation::Linear, 1),
        knot(1_000_000, 222_222, KnotInterpolation::Linear, 2),
    ]);
    assert_eq!(curve.lookup(-1), 111_111);
    assert_eq!(curve.lookup(0), 111_111);
    assert_eq!(curve.lookup(1_000_000), 222_222);
    assert_eq!(curve.lookup(5_000_000), 222_222);
}

#[test]
fn hermite_midpoint_fixed_point() {
    // Symmetric unweighted Hermite ease between (0,0) and (1,1) with both
    // slopes 0 has a fixed point at the midpoint.
    let curve = LookupCurve::new(vec![
        knot(0, 0, KnotInterpolation::Cubic, 1),
        knot(1_000_000, 1_000_000, KnotInterpolation::Cubic, 2),
    ]);
    assert_eq!(curve.lookup(500_000), 500_000);
}

#[test]
fn hermite_matches_endpoints() {
    let curve = LookupCurve::new(vec![
        knot(0, 0, KnotInterpolation::Cubic, 1),
        knot(1_000_000, 1_000_000, KnotInterpolation::Cubic, 2),
        knot(2_000_000, 0, KnotInterpolation::Cubic, 3),
    ]);
    // Exactly at the shared knot the left segment's formula yields the
    // knot's own y: the segments meet.
    assert_eq!(curve.lookup(1_000_000), 1_000_000);
    assert_eq!(curve.lookup(2_000_000), 0);
}

#[test]
fn linear_continuous_at_shared_knot() {
    let curve = LookupCurve::new(vec![
        knot(0, 0, KnotInterpolation::Linear, 1),
        knot(1_000_000, 2_000_000, KnotInterpolation::Linear, 2),
        knot(2_000_000, 0, KnotInterpolation::Linear, 3),
    ]);
    assert_eq!(curve.lookup(1_000_000), 2_000_000);
    assert_eq!(curve.lookup(500_000), 1_000_000);
    assert_eq!(curve.lookup(1_500_000), 1_000_000);
}

#[test]
fn constant_interpolation_steps() {
    // Constant segments hold the left knot's y until the next knot: the
    // step is left-continuous, so exactly at a knot's x the segment left of
    // it still decides.
    let curve = LookupCurve::new(vec![
        knot(0, 0, KnotInterpolation::Constant, 1),
        knot(500_000, 5_000_000, KnotInterpolation::Constant, 2),
        knot(1_000_000, 10_000_000, KnotInterpolation::Constant, 3),
    ]);
    assert_eq!(curve.lookup(300_000), 0);
    assert_eq!(curve.lookup(500_000), 0);
    assert_eq!(curve.lookup(500_001), 5_000_000);
    assert_eq!(curve.lookup(990_000), 5_000_000);
    assert_eq!(curve.lookup(1_000_000), 10_000_000);
}

fn weighted_knot(x: i64, y: i64, weight: Option<i64>, id: u64) -> Knot {
    let tangent = Tangent {
        slope: 0,
        weight,
        ..Default::default()
    };
    Knot {
        position: Vec2 { x, y },
        interpolation: KnotInterpolation::Cubic,
        left_tangent: tangent,
        right_tangent: tangent,
        id,
    }
}

#[test]
fn weighted_cubic_symmetric_midpoint() {
    // Both weights 0.5, slopes 0: the segment is symmetric, so the solver
    // hits x = 0.5 exactly on the first iteration.
    let curve = LookupCurve::new(vec![
        weighted_knot(0, 0, Some(500_000), 1),
        weighted_knot(1_000_000, 1_000_000, Some(500_000), 2),
    ]);
    assert_eq!(curve.lookup(500_000), 500_000);
}

#[test]
fn weighted_cubic_iterates_to_tolerance() {
    let curve = LookupCurve::new(vec![
        weighted_knot(0, 0, Some(500_000), 1),
        weighted_knot(1_000_000, 1_000_000, Some(500_000), 2),
    ]);
    // Newton-Raphson needs three iterations here; the deterministic
    // fixed-point result is within tolerance of the mathematical value
    // (~0.105888).
    assert_eq!(curve.lookup(250_000), 105_887);
}

#[test]
fn weighted_cubic_zero_iterations_returns_unrefined_guess() {
    let curve = LookupCurve::new(vec![
        weighted_knot(0, 0, Some(500_000), 1),
        weighted_knot(1_000_000, 1_000_000, Some(500_000), 2),
    ])
    .with_max_iters(0);
    // With no iterations allowed the solver never evaluates the segment and
    // returns the y of the zero position.
    assert_eq!(curve.lookup(250_000), 0);
}

#[test]
fn lookup_cached_matches_lookup() {
    let curve = LookupCurve::new(vec![
        knot(0, 0, KnotInterpolation::Linear, 1),
        knot(334_000, 334_000, KnotInterpolation::Linear, 2),
        knot(1_000_000, 1_000_000, KnotInterpolation::Linear, 3),
        knot(2_000_000, 0, KnotInterpolation::Linear, 4),
    ]);
    let mut cache = LookupCache::new();
    // Coherent sweep up, then jumps: the cache never changes the result.
    for x in [
        -1_000_000,
        0,
        100_000,
        200_000,
        334_000,
        335_000,
        900_000,
        1_999_999,
        2_000_000,
        50_000,
        1_500_000,
        50_000,
    ] {
        assert_eq!(curve.lookup_cached(x, &mut cache), curve.lookup(x));
    }
}

#[test]
fn lookup_cached_survives_mutation() {
    let mut curve = LookupCurve::new(vec![
        knot(0, 0, KnotInterpolation::Linear, 1),
        knot(1_000_000, 1_000_000, KnotInterpolation::Linear, 2),
        knot(2_000_000, 2_000_000, KnotInterpolation::Linear, 3),
    ]);
    let mut cache = LookupCache::new();
    assert_eq!(curve.lookup_cached(1_500_000, &mut cache), 1_500_000);
    // Shrink the curve: the cached index now points at the last knot and is
    // treated as stale, falling back to a full search.
    curve.delete_knot(2);
    assert_eq!(curve.lookup_cached(500_000, &mut cache), 500_000);
}

#[test]
fn new_sorts_stably() {
    let curve = LookupCurve::new(vec![
        knot(1_000_000, 1, KnotInterpolation::Linear, 1),
        knot(0, 2, KnotInterpolation::Linear, 2),
        knot(500_000, 3, KnotInterpolation::Linear, 3),
        knot(500_000, 4, KnotInterpolation::Linear, 4),
    ]);
    let ids: Vec<u64> = curve.knots().iter().map(|k| k.id).collect();
    assert_eq!(ids, vec![2, 3, 4, 1]);
}

#[test]
fn add_knot_keeps_order() {
    let mut curve = LookupCurve::new(vec![
        knot(0, 0, KnotInterpolation::Linear, 1),
        knot(1_000_000, 1_000_000, KnotInterpolation::Linear, 2),
    ]);
    let i = curve.add_knot(knot(500_000, 500_000, KnotInterpolation::Linear, 3));
    assert_eq!(i, 1);
    let i = curve.add_knot(knot(2_000_000, 0, KnotInterpolation::Linear, 4));
    assert_eq!(i, 3);
    let xs: Vec<i64> = curve.knots().iter().map(|k| k.position.x).collect();
    assert_eq!(xs, vec![0, 500_000, 1_000_000, 2_000_000]);
}

#[test]
fn add_then_delete_restores_sequence() {
    let mut curve = LookupCurve::new(vec![
        knot(0, 0, KnotInterpolation::Linear, 1),
        knot(1_000_000, 1_000_000, KnotInterpolation::Linear, 2),
    ]);
    let before: Vec<Knot> = curve.knots().to_vec();
    let i = curve.add_knot(knot(500_000, 7, KnotInterpolation::Linear, 3));
    curve.delete_knot(i);
    assert_eq!(curve.knots(), &before[..]);
}

#[test]
fn modify_knot_same_value_is_identity() {
    let mut curve = LookupCurve::new(vec![
        knot(0, 0, KnotInterpolation::Linear, 1),
        knot(500_000, 1, KnotInterpolation::Linear, 2),
        knot(1_000_000, 2, KnotInterpolation::Linear, 3),
    ]);
    let before: Vec<Knot> = curve.knots().to_vec();
    let same = curve.knots()[1];
    assert_eq!(curve.modify_knot(1, same), 1);
    assert_eq!(curve.knots(), &before[..]);
}

#[test]
fn modify_knot_relocates_past_neighbor() {
    let mut curve = LookupCurve::new(vec![
        knot(0, 0, KnotInterpolation::Linear, 1),
        knot(500_000, 1, KnotInterpolation::Linear, 2),
        knot(1_000_000, 2, KnotInterpolation::Linear, 3),
    ]);
    // Drag the first knot past its right neighbor.
    let moved = knot(700_000, 0, KnotInterpolation::Linear, 1);
    let i = curve.modify_knot(0, moved);
    assert_eq!(i, 1);
    let ids: Vec<u64> = curve.knots().iter().map(|k| k.id).collect();
    assert_eq!(ids, vec![2, 1, 3]);
    let xs: Vec<i64> = curve.knots().iter().map(|k| k.position.x).collect();
    assert_eq!(xs, vec![500_000, 700_000, 1_000_000]);
}

#[test]
fn modify_knot_y_only_overwrites_in_place() {
    let mut curve = LookupCurve::new(vec![
        knot(0, 0, KnotInterpolation::Linear, 1),
        knot(500_000, 1, KnotInterpolation::Linear, 2),
    ]);
    let changed = knot(500_000, 999, KnotInterpolation::Linear, 2);
    assert_eq!(curve.modify_knot(1, changed), 1);
    assert_eq!(curve.knots()[1].position.y, 999);
}

#[test]
fn prev_and_next_knot_at_boundaries() {
    let curve = LookupCurve::new(vec![
        knot(0, 0, KnotInterpolation::Linear, 1),
        knot(500_000, 1, KnotInterpolation::Linear, 2),
        knot(1_000_000, 2, KnotInterpolation::Linear, 3),
    ]);
    assert!(curve.prev_knot(0).is_none());
    assert_eq!(curve.prev_knot(1).unwrap().id, 1);
    assert_eq!(curve.next_knot(1).unwrap().id, 3);
    assert!(curve.next_knot(2).is_none());

    let empty = LookupCurve::new(Vec::new());
    assert!(empty.next_knot(0).is_none());
}

#[test]
fn defaults_and_builders() {
    assert_eq!(max_iters_default(), 20);
    assert_eq!(max_error_default(), 10);

    let curve = LookupCurve::new(Vec::new());
    assert_eq!(curve.max_iters(), 20);
    assert_eq!(curve.max_error(), 10);
    assert!(curve.name().is_none());
    assert_eq!(curve.name_or_default(), "Unnamed lookup curve");

    let curve = curve
        .with_max_iters(5)
        .with_max_error(1)
        .with_name(String::from("ease"));
    assert_eq!(curve.max_iters(), 5);
    assert_eq!(curve.max_error(), 1);
    assert_eq!(curve.name().as_deref(), Some("ease"));
    assert_eq!(curve.name_or_default(), "ease");
}
