//! Fixed-point scalars. Every scalar quantity of the engine (positions,
//! scales, colors, intensities, angles in degrees) is an `i64` holding the
//! real value times `FX_ONE`. All operations round toward zero, and each
//! executable operation is verified against an exact integer specification.

use vstd::prelude::*;
use vstd::arithmetic::div_mod::{
    lemma_add_mod_noop, lemma_div_is_ordered, lemma_div_by_multiple,
    lemma_fundamental_div_mod_converse_mod, lemma_mod_bound, lemma_small_mod,
};

verus! {

/// One whole unit: scalars carry 16 fractional bits.
pub const FX_ONE: i64 = 65536;

/// A full turn, in fixed-point degrees.
pub const FX_DEG_FULL: i64 = 360 * FX_ONE;

/// Half a turn, in fixed-point degrees.
pub const FX_DEG_HALF: i64 = 180 * FX_ONE;

/// A quarter turn, in fixed-point degrees.
pub const FX_DEG_QUARTER: i64 = 90 * FX_ONE;

/// Largest magnitude a factor handed to `FxDot4` may have.
pub const FX_FACTOR_MAX: i64 = 0x4000_0000_0000_0000;

/// Magnitude of an integer.
pub open spec fn fx_abs(x: int) -> int {
    if x >= 0 {
        x
    } else {
        -x
    }
}

/// Division by `FX_ONE` rounding toward zero: the scaling-down step that each
/// executable fixed-point product performs.
pub open spec fn fx_scale_down(x: int) -> int {
    if x >= 0 {
        x / (FX_ONE as int)
    } else {
        -((-x) / (FX_ONE as int))
    }
}

/// Four-term dot product, before scaling down.
pub open spec fn dot4_spec(
    a0: int, a1: int, a2: int, a3: int,
    b0: int, b1: int, b2: int, b3: int,
) -> int {
    a0 * b0 + a1 * b1 + a2 * b2 + a3 * b3
}

/// `|a * b| <= aa * bb` whenever `|a| <= aa` and `|b| <= bb`.
pub proof fn lemma_mul_bounds(a: int, b: int, aa: int, bb: int)
    by (nonlinear_arith)
    requires
        -aa <= a <= aa,
        -bb <= b <= bb,
    ensures
        -(aa * bb) <= a * b <= aa * bb,
{
}

/// Scaling down keeps magnitudes: `|x| <= c * FX_ONE` gives `|x / FX_ONE| <= c`.
pub proof fn lemma_scale_down_bound(x: int, c: int)
    requires
        0 <= c,
        -(c * (FX_ONE as int)) <= x <= c * (FX_ONE as int),
    ensures
        -c <= fx_scale_down(x) <= c,
{
    if x >= 0 {
        lemma_div_is_ordered(x, c * (FX_ONE as int), FX_ONE as int);
        lemma_div_by_multiple(c, FX_ONE as int);
    } else {
        lemma_div_is_ordered(-x, c * (FX_ONE as int), FX_ONE as int);
        lemma_div_by_multiple(c, FX_ONE as int);
    }
}

/// Fixed-point combination of four products: the sum is taken exactly in
/// 128-bit arithmetic and scaled down once at the end.
pub fn FxDot4(
    a0: i64, a1: i64, a2: i64, a3: i64,
    b0: i64, b1: i64, b2: i64, b3: i64,
) -> (r: i64)
    requires
        fx_abs(a0 as int) <= FX_FACTOR_MAX as int,
        fx_abs(a1 as int) <= FX_FACTOR_MAX as int,
        fx_abs(a2 as int) <= FX_FACTOR_MAX as int,
        fx_abs(a3 as int) <= FX_FACTOR_MAX as int,
        fx_abs(b0 as int) <= FX_FACTOR_MAX as int,
        fx_abs(b1 as int) <= FX_FACTOR_MAX as int,
        fx_abs(b2 as int) <= FX_FACTOR_MAX as int,
        fx_abs(b3 as int) <= FX_FACTOR_MAX as int,
        fx_abs(fx_scale_down(dot4_spec(
            a0 as int, a1 as int, a2 as int, a3 as int,
            b0 as int, b1 as int, b2 as int, b3 as int,
        ))) <= i64::MAX as int,
    ensures
        r as int == fx_scale_down(dot4_spec(
            a0 as int, a1 as int, a2 as int, a3 as int,
            b0 as int, b1 as int, b2 as int, b3 as int,
        )),
{
    proof {
        lemma_mul_bounds(a0 as int, b0 as int, FX_FACTOR_MAX as int, FX_FACTOR_MAX as int);
        lemma_mul_bounds(a1 as int, b1 as int, FX_FACTOR_MAX as int, FX_FACTOR_MAX as int);
        lemma_mul_bounds(a2 as int, b2 as int, FX_FACTOR_MAX as int, FX_FACTOR_MAX as int);
        lemma_mul_bounds(a3 as int, b3 as int, FX_FACTOR_MAX as int, FX_FACTOR_MAX as int);
    }
    let s: i128 = (a0 as i128) * (b0 as i128) + (a1 as i128) * (b1 as i128)
        + (a2 as i128) * (b2 as i128) + (a3 as i128) * (b3 as i128);
    if s >= 0 {
        let q: u128 = (s as u128) / (FX_ONE as u128);
        q as i64
    } else {
        let m: u128 = (-s) as u128;
        let q: u128 = m / (FX_ONE as u128);
        -(q as i64)
    }
}

/// Reduction of an angle into `[0, FX_DEG_FULL)`: the Euclidean remainder.
pub open spec fn reduce_deg_spec(d: int) -> int {
    d % (FX_DEG_FULL as int)
}

/// Reduces an angle in fixed-point degrees into `[0, 360)` degrees.
pub fn ReduceDeg(d: i64) -> (r: i64)
    ensures
        r as int == reduce_deg_spec(d as int),
        0 <= r < FX_DEG_FULL,
{
    let ghost full: int = FX_DEG_FULL as int;
    if d >= 0 {
        let q: u64 = (d as u64) % (FX_DEG_FULL as u64);
        proof {
            lemma_mod_bound(d as int, full);
            lemma_fundamental_div_mod_converse_mod(
                d as int, full, (d as u64 / FX_DEG_FULL as u64) as int, q as int);
        }
        q as i64
    } else {
        let m: u128 = (-(d as i128)) as u128;
        let k: u128 = m % (FX_DEG_FULL as u128);
        proof {
            let mi: int = -(d as int);
            let qi: int = mi / full;
            let ri: int = mi % full;
            lemma_mod_bound(mi, full);
            // d == (-qi) * full + (-ri); shift the remainder into range.
            if ri == 0 {
                lemma_fundamental_div_mod_converse_mod(d as int, full, -qi, 0);
            } else {
                lemma_fundamental_div_mod_converse_mod(d as int, full, -qi - 1, full - ri);
            }
        }
        if k == 0 {
            0
        } else {
            (FX_DEG_FULL as u128 - k) as i64
        }
    }
}

/// Sine over a half turn, exact at 0, 90 and 180 degrees, a close rational
/// approximation in between. The argument is in fixed-point degrees within
/// `[0, FX_DEG_HALF]`; the result lies in `[0, FX_ONE]`.
pub open spec fn half_sine_spec(x: int) -> int {
    let t = x * ((FX_DEG_HALF as int) - x);
    (4 * t * (FX_ONE as int)) / (40500 * (FX_ONE as int) * (FX_ONE as int) - t)
}

/// `x * (h - x)` peaks at the midpoint of `[0, h]`.
proof fn lemma_peak(x: int, h: int)
    by (nonlinear_arith)
    requires
        0 <= x <= 2 * h,
    ensures
        0 <= x * (2 * h - x) <= h * h,
{
}

fn HalfSine(x: i64) -> (r: i64)
    requires
        0 <= x <= FX_DEG_HALF,
    ensures
        r as int == half_sine_spec(x as int),
        0 <= r <= FX_ONE,
{
    proof {
        lemma_peak(x as int, FX_DEG_QUARTER as int);
        assert((x as int) * ((FX_DEG_HALF as int) - (x as int))
            <= (FX_DEG_QUARTER as int) * (FX_DEG_QUARTER as int));
    }
    let xe: u128 = x as u128;
    let t: u128 = xe * ((FX_DEG_HALF as u128) - xe);
    proof {
        assert(t as int == (x as int) * ((FX_DEG_HALF as int) - (x as int)));
        assert(t <= 34789235097600);
    }
    let t4: u128 = 4 * t;
    let num: u128 = t4 * 65536;
    let den: u128 = 40500u128 * 65536 * 65536 - t;
    let q: u128 = num / den;
    proof {
        // num <= FX_ONE * den, so the quotient stays within one unit.
        lemma_div_is_ordered(num as int, (FX_ONE as int) * (den as int), den as int);
        lemma_div_by_multiple(FX_ONE as int, den as int);
    }
    q as i64
}

/// Sine of an angle in fixed-point degrees, any winding.
pub open spec fn sin_spec(d: int) -> int {
    let r = reduce_deg_spec(d);
    if r < FX_DEG_HALF {
        half_sine_spec(r)
    } else {
        -half_sine_spec(r - (FX_DEG_HALF as int))
    }
}

/// Cosine of an angle in fixed-point degrees: sine shifted by a quarter turn.
pub open spec fn cos_spec(d: int) -> int {
    sin_spec(d + (FX_DEG_QUARTER as int))
}

/// Sine in fixed point; the result lies in `[-FX_ONE, FX_ONE]`.
pub fn FxSin(d: i64) -> (r: i64)
    ensures
        r as int == sin_spec(d as int),
        -FX_ONE <= r <= FX_ONE,
{
    let a = ReduceDeg(d);
    if a < FX_DEG_HALF {
        HalfSine(a)
    } else {
        let s = HalfSine(a - FX_DEG_HALF);
        -s
    }
}

/// Cosine in fixed point; the result lies in `[-FX_ONE, FX_ONE]`.
pub fn FxCos(d: i64) -> (r: i64)
    ensures
        r as int == cos_spec(d as int),
        -FX_ONE <= r <= FX_ONE,
{
    let a = ReduceDeg(d);
    proof {
        let full: int = FX_DEG_FULL as int;
        let q: int = FX_DEG_QUARTER as int;
        lemma_small_mod(q as nat, full as nat);
        lemma_add_mod_noop(d as int, q, full);
        lemma_mod_bound(a as int + q, full);
        lemma_mod_bound(d as int, full);
        // reduce(reduce(d) + q) == reduce(d + q)
        lemma_add_mod_noop(a as int, q, full);
        lemma_small_mod(a as nat, full as nat);
    }
    FxSin(a + FX_DEG_QUARTER)
}

} // verus!
