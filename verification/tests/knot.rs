//! Knots, tangents, and the id allocator.

use lookup_curve::{
    unique_knot_id, Knot, KnotInterpolation, Tangent, TangentMode, TangentSide, Vec2, SCALE, THIRD,
};

#[test]
fn unique_knot_id_advances_counter() {
    let mut counter: u64 = 1;
    assert_eq!(unique_knot_id(&mut counter), 1);
    assert_eq!(unique_knot_id(&mut counter), 2);
    assert_eq!(unique_knot_id(&mut counter), 3);
    assert_eq!(counter, 4);
}

#[test]
fn knot_default_values() {
    let k = Knot::default();
    assert_eq!(k.position, Vec2 { x: 0, y: 0 });
    assert!(matches!(k.interpolation, KnotInterpolation::Linear));
    assert_eq!(k.id, 0);
    assert_eq!(k.left_tangent.slope, 0);
    assert!(matches!(k.left_tangent.mode, TangentMode::Aligned));
    assert!(k.left_tangent.weight.is_none());
    assert!(k.right_tangent.weight.is_none());
}

#[test]
fn tangent_slope_aligned_mirrors_both_sides() {
    let k = Knot::default();
    // Both tangents aligned: editing one slope updates both.
    let k2 = k.with_tangent_slope(TangentSide::Left, 42);
    assert_eq!(k2.left_tangent.slope, 42);
    assert_eq!(k2.right_tangent.slope, 42);
}

#[test]
fn tangent_slope_free_moves_one_side() {
    let k = Knot::default()
        .with_tangent_mode(TangentSide::Left, TangentMode::Free)
        .with_tangent_slope(TangentSide::Left, 42);
    assert_eq!(k.left_tangent.slope, 42);
    assert_eq!(k.right_tangent.slope, 0);
}

#[test]
fn tangent_mode_changes_one_side() {
    let k = Knot::default().with_tangent_mode(TangentSide::Right, TangentMode::Free);
    assert!(matches!(k.left_tangent.mode, TangentMode::Aligned));
    assert!(matches!(k.right_tangent.mode, TangentMode::Free));
}

#[test]
fn tangent_weight_is_clamped() {
    let k = Knot::default().with_tangent_weight(TangentSide::Right, Some(2 * SCALE));
    assert_eq!(k.right_tangent.weight, Some(SCALE));
    let k = k.with_tangent_weight(TangentSide::Right, Some(-7));
    assert_eq!(k.right_tangent.weight, Some(0));
    let k = k.with_tangent_weight(TangentSide::Right, Some(250_000));
    assert_eq!(k.right_tangent.weight, Some(250_000));
    let k = k.with_tangent_weight(TangentSide::Right, None);
    assert_eq!(k.right_tangent.weight, None);
}

#[test]
fn bezier_control_points_use_weights_and_slopes() {
    let a = Knot {
        position: Vec2 { x: 0, y: 0 },
        interpolation: KnotInterpolation::Cubic,
        right_tangent: Tangent {
            slope: 1_000_000,
            mode: TangentMode::Aligned,
            weight: Some(500_000),
        },
        ..Default::default()
    };
    let b = Knot {
        position: Vec2 {
            x: 1_000_000,
            y: 1_000_000,
        },
        id: 1,
        ..Default::default()
    };
    let points = a.compute_bezier_to(&b);
    assert_eq!(points[0], Vec2 { x: 0, y: 0 });
    // Control point one: weight 0.5 along dx, slope 1 lifting y equally.
    assert_eq!(
        points[1],
        Vec2 {
            x: 500_000,
            y: 500_000
        }
    );
    // Control point two: unweighted tangent defaults to one third.
    assert_eq!(
        points[2],
        Vec2 {
            x: 1_000_000 - THIRD,
            y: 1_000_000
        }
    );
    assert_eq!(
        points[3],
        Vec2 {
            x: 1_000_000,
            y: 1_000_000
        }
    );
}

#[test]
fn lerp_interpolates_componentwise() {
    let a = Vec2 { x: 0, y: 0 };
    let b = Vec2 {
        x: 1_000_000,
        y: 2_000_000,
    };
    assert_eq!(
        a.lerp(b, 250_000),
        Vec2 {
            x: 250_000,
            y: 500_000
        }
    );
    assert_eq!(a.lerp(b, 0), a);
    assert_eq!(a.lerp(b, SCALE), b);
}
