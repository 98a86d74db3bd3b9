//! Fixed-point scalars: curve coordinates stored as `i64` millionths.
//!
//! All operations saturate at the `i64` range instead of overflowing, and
//! division by zero saturates toward the sign of the dividend. This gives
//! every arithmetic operation a total, deterministic meaning, which the
//! spec twins below state exactly.

use vstd::prelude::*;

verus! {

/// A fixed-point scalar: the represented value is `raw / 1_000_000`.
pub type Fx = i64;

/// Number of raw units per one: `Fx` values are millionths.
pub const SCALE: i64 = 1_000_000;

/// Mathematical absolute value.
pub open spec fn abs_s(a: int) -> int {
    if a >= 0 {
        a
    } else {
        -a
    }
}

/// Clamp an unbounded integer into the `i64` range.
pub open spec fn clamp_s(v: int) -> int {
    if v > i64::MAX {
        i64::MAX as int
    } else if v < i64::MIN {
        i64::MIN as int
    } else {
        v
    }
}

/// Signed division truncating toward zero (the rounding of machine division),
/// defined through Euclidean division of the magnitudes.
pub open spec fn sdiv(a: int, b: int) -> int
    recommends
        b != 0,
{
    if (a >= 0) == (b >= 0) {
        abs_s(a) / abs_s(b)
    } else {
        -(abs_s(a) / abs_s(b))
    }
}

/// Saturating fixed-point addition.
pub open spec fn fx_add_s(a: int, b: int) -> int {
    clamp_s(a + b)
}

/// Saturating fixed-point subtraction.
pub open spec fn fx_sub_s(a: int, b: int) -> int {
    clamp_s(a - b)
}

/// Saturating multiplication by a small plain integer (not a fixed-point value).
pub open spec fn fx_scale_s(k: int, v: int) -> int {
    clamp_s(k * v)
}

/// Saturating fixed-point multiplication: `(a * b) / SCALE`, truncated.
pub open spec fn fx_mul_s(a: int, b: int) -> int {
    clamp_s(sdiv(a * b, SCALE as int))
}

/// Saturating fixed-point division: `(a * SCALE) / b`, truncated.
/// Division by zero saturates toward the sign of the dividend.
pub open spec fn fx_div_s(a: int, b: int) -> int {
    if b == 0 {
        if a > 0 {
            i64::MAX as int
        } else if a < 0 {
            i64::MIN as int
        } else {
            0
        }
    } else {
        clamp_s(sdiv(a * (SCALE as int), b))
    }
}

/// Saturating absolute value (`|i64::MIN|` clamps to `i64::MAX`).
pub open spec fn fx_abs_s(a: int) -> int {
    clamp_s(abs_s(a))
}

/// Clamp an `i128` intermediate into the `i64` range.
fn clamp128(v: i128) -> (r: i64)
    ensures
        r as int == clamp_s(v as int),
{
    if v > i64::MAX as i128 {
        i64::MAX
    } else if v < i64::MIN as i128 {
        i64::MIN
    } else {
        v as i64
    }
}

/// Magnitude of an `i64` as a `u64` (total, including `i64::MIN`).
fn abs_mag(a: i64) -> (r: u64)
    ensures
        r as int == abs_s(a as int),
{
    if a >= 0 {
        a as u64
    } else {
        (-(a as i128)) as u64
    }
}

/// Saturating addition.
pub fn fx_add(a: Fx, b: Fx) -> (r: Fx)
    ensures
        r as int == fx_add_s(a as int, b as int),
{
    clamp128(a as i128 + b as i128)
}

/// Saturating subtraction.
pub fn fx_sub(a: Fx, b: Fx) -> (r: Fx)
    ensures
        r as int == fx_sub_s(a as int, b as int),
{
    clamp128(a as i128 - b as i128)
}

/// Saturating multiplication by a plain integer factor.
pub fn fx_scale(k: i64, v: Fx) -> (r: Fx)
    ensures
        r as int == fx_scale_s(k as int, v as int),
{
    proof {
        assert(-0x4000_0000_0000_0000_0000_0000_0000_0000int <= (k as int) * (v as int)
            <= 0x4000_0000_0000_0000_0000_0000_0000_0000int) by (nonlinear_arith)
            requires
                -0x8000_0000_0000_0000int <= k as int <= 0x7fff_ffff_ffff_ffffint,
                -0x8000_0000_0000_0000int <= v as int <= 0x7fff_ffff_ffff_ffffint,
        ;
    }
    clamp128(k as i128 * v as i128)
}

/// Saturating absolute value.
pub fn fx_abs(a: Fx) -> (r: Fx)
    ensures
        r as int == fx_abs_s(a as int),
{
    if a == i64::MIN {
        i64::MAX
    } else if a < 0 {
        -a
    } else {
        a
    }
}

/// Rebuild a signed `i64` from a magnitude and a sign, saturating.
fn from_mag(q: u128, neg: bool) -> (r: i64)
    ensures
        r as int == clamp_s(if neg {
            -(q as int)
        } else {
            q as int
        }),
{
    if !neg {
        if q > i64::MAX as u128 {
            i64::MAX
        } else {
            q as i64
        }
    } else {
        if q > 9_223_372_036_854_775_808u128 {
            i64::MIN
        } else {
            (-(q as i128)) as i64
        }
    }
}

proof fn lemma_abs_product(a: int, b: int)
    ensures
        abs_s(a) * abs_s(b) == abs_s(a * b),
        (a * b >= 0) == ((a >= 0) == (b >= 0)) || a * b == 0,
{
    assert(abs_s(a) * abs_s(b) == abs_s(a * b) && ((a * b >= 0) == ((a >= 0) == (b >= 0)) || a * b
        == 0)) by (nonlinear_arith);
}

/// Saturating fixed-point multiplication.
pub fn fx_mul(a: Fx, b: Fx) -> (r: Fx)
    ensures
        r as int == fx_mul_s(a as int, b as int),
{
    let ma = abs_mag(a);
    let mb = abs_mag(b);
    proof {
        lemma_abs_product(a as int, b as int);
        assert((ma as int) * (mb as int) < 0x1_0000_0000_0000_0000_0000_0000_0000_0000int)
            by (nonlinear_arith)
            requires
                ma as int <= 0x8000_0000_0000_0000int,
                mb as int <= 0x8000_0000_0000_0000int,
        ;
    }
    let prod: u128 = (ma as u128) * (mb as u128);
    let q: u128 = prod / (SCALE as u128);
    from_mag(q, (a < 0) != (b < 0))
}

/// Dividing a positive value by itself gives exactly one.
pub proof fn lemma_fx_div_self(d: int)
    requires
        0 < d <= i64::MAX,
    ensures
        fx_div_s(d, d) == SCALE as int,
{
    assert(d * (SCALE as int) > 0) by (nonlinear_arith)
        requires
            d > 0,
    ;
    vstd::arithmetic::div_mod::lemma_div_multiples_vanish(SCALE as int, d);
    assert((d * (SCALE as int)) / d == SCALE as int);
}

/// Multiplying by one (the scale) is exact, in either operand order, for
/// values in the `i64` range.
pub proof fn lemma_fx_mul_one(v: int)
    requires
        -(i64::MAX as int) <= v <= i64::MAX as int,
    ensures
        fx_mul_s(SCALE as int, v) == v,
        fx_mul_s(v, SCALE as int) == v,
{
    lemma_abs_product(SCALE as int, v);
    lemma_abs_product(v, SCALE as int);
    vstd::arithmetic::div_mod::lemma_div_multiples_vanish(abs_s(v), SCALE as int);
    assert(((SCALE as int) * abs_s(v)) / (SCALE as int) == abs_s(v));
    assert(abs_s(SCALE as int) * abs_s(v) == (SCALE as int) * abs_s(v));
    assert(abs_s(v) * abs_s(SCALE as int) == (SCALE as int) * abs_s(v)) by (nonlinear_arith);
}

/// Multiplying by zero gives zero, whichever operand is zero.
pub proof fn lemma_fx_mul_zero(v: int)
    ensures
        fx_mul_s(0, v) == 0,
        fx_mul_s(v, 0) == 0,
{
    assert(0 * v == 0) by (nonlinear_arith);
    assert(v * 0 == 0) by (nonlinear_arith);
    vstd::arithmetic::div_mod::lemma_div_of0(SCALE as int);
}

/// A zero dividend gives a zero quotient.
pub proof fn lemma_fx_div_zero(b: int)
    requires
        b != 0,
    ensures
        fx_div_s(0, b) == 0,
{
    assert(0 * (SCALE as int) == 0) by (nonlinear_arith);
    vstd::arithmetic::div_mod::lemma_div_of0(abs_s(b));
}

/// Saturating fixed-point division; division by zero saturates.
pub fn fx_div(a: Fx, b: Fx) -> (r: Fx)
    ensures
        r as int == fx_div_s(a as int, b as int),
{
    if b == 0 {
        if a > 0 {
            i64::MAX
        } else if a < 0 {
            i64::MIN
        } else {
            0
        }
    } else {
        let ma = abs_mag(a);
        let mb = abs_mag(b);
        proof {
            lemma_abs_product(a as int, SCALE as int);
            assert((ma as int) * (SCALE as int) < 0x1_0000_0000_0000_0000_0000_0000_0000_0000int)
                by (nonlinear_arith)
                requires
                    ma as int <= 0x8000_0000_0000_0000int,
            ;
        }
        let num: u128 = (ma as u128) * (SCALE as u128);
        let q: u128 = num / (mb as u128);
        from_mag(q, (a < 0) != (b < 0))
    }
}

} // verus!
