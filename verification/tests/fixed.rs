//! Fixed-point arithmetic: exactness, truncation, and saturation.

use lookup_curve::fixed::{fx_abs, fx_add, fx_div, fx_mul, fx_scale, fx_sub};
use lookup_curve::{CubicSegment, Vec2, SCALE};

#[test]
fn multiplication_scales_and_truncates() {
    assert_eq!(fx_mul(2_000_000, 3_000_000), 6_000_000);
    assert_eq!(fx_mul(SCALE, 123_456), 123_456);
    assert_eq!(fx_mul(500_000, 500_000), 250_000);
    // Truncation is toward zero on both sides.
    assert_eq!(fx_mul(-1, 500_000), 0);
    assert_eq!(fx_mul(1, 500_000), 0);
    assert_eq!(fx_mul(-500_000, 3), -1);
}

#[test]
fn division_scales_and_truncates() {
    assert_eq!(fx_div(1_000_000, 3_000_000), 333_333);
    assert_eq!(fx_div(-1_000_000, 3_000_000), -333_333);
    assert_eq!(fx_div(1_000_000, -3_000_000), -333_333);
    assert_eq!(fx_div(-1_000_000, -3_000_000), 333_333);
    assert_eq!(fx_div(250_000, 1_000_000), 250_000);
}

#[test]
fn division_by_zero_saturates() {
    assert_eq!(fx_div(1, 0), i64::MAX);
    assert_eq!(fx_div(-1, 0), i64::MIN);
    assert_eq!(fx_div(0, 0), 0);
}

#[test]
fn addition_and_subtraction_saturate() {
    assert_eq!(fx_add(i64::MAX, 1), i64::MAX);
    assert_eq!(fx_sub(i64::MIN, 1), i64::MIN);
    assert_eq!(fx_add(1, 2), 3);
    assert_eq!(fx_scale(3, 4), 12);
    assert_eq!(fx_scale(i64::MAX, 2), i64::MAX);
    assert_eq!(fx_abs(i64::MIN), i64::MAX);
    assert_eq!(fx_abs(-7), 7);
}

fn segment() -> CubicSegment {
    CubicSegment::from_bezier_points([
        Vec2 { x: 0, y: 0 },
        Vec2 { x: 250_000, y: 0 },
        Vec2 {
            x: 750_000,
            y: 1_000_000,
        },
        Vec2 {
            x: 1_000_000,
            y: 1_000_000,
        },
    ])
}

#[test]
fn bezier_segment_hits_its_endpoints() {
    let seg = segment();
    assert_eq!(seg.position(0), Vec2 { x: 0, y: 0 });
    assert_eq!(
        seg.position(SCALE),
        Vec2 {
            x: 1_000_000,
            y: 1_000_000
        }
    );
}

#[test]
fn newton_converges_on_symmetric_segment() {
    let seg = segment();
    // The segment is symmetric about the midpoint, so the initial guess is
    // already exact.
    assert_eq!(seg.find_y_given_x(500_000, 10, 20), 500_000);
}

#[test]
fn newton_iterates_when_guess_is_off() {
    let seg = segment();
    // Three iterations bring the x-error within tolerance; the result is
    // the deterministic fixed-point value.
    assert_eq!(seg.find_y_given_x(250_000, 10, 20), 182_356);
}

#[test]
fn newton_zero_iterations_returns_zero_y() {
    let seg = segment();
    assert_eq!(seg.find_y_given_x(250_000, 10, 0), 0);
}
