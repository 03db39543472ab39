//! Fixed-point scalar arithmetic for neuron signal values.
//!
//! A signal is an `i64` counting millionths: `FP_ONE` stands for 1.0. All
//! operations are total; sums and products saturate at the `i64` range, and
//! quotients truncate toward zero, as each operation's specification states.

use vstd::prelude::*;

verus! {

/// Number of fixed-point units in 1.0.
pub const FP_ONE: i64 = 1_000_000;

/// Fixed-point 0.5.
pub const FP_HALF: i64 = 500_000;

/// Fixed-point 0.01, the slope of the leaky rectifier below zero.
pub const FP_HUNDREDTH: i64 = 10_000;

/// Fixed-point pi, rounded to the nearest millionth.
pub const FP_PI: i64 = 3_141_593;

/// Magnitude of an integer.
pub open spec fn abs_int(x: int) -> int {
    if x >= 0 {
        x
    } else {
        -x
    }
}

/// Clamp an unbounded integer into the `i64` range.
pub open spec fn sat64(x: int) -> i64 {
    if x > i64::MAX {
        i64::MAX
    } else if x < i64::MIN {
        i64::MIN
    } else {
        x as i64
    }
}

/// Quotient of `n` by a positive `d`, truncated toward zero (the rounding of
/// machine division).
pub open spec fn tdiv(n: int, d: int) -> int {
    if n >= 0 {
        n / d
    } else {
        -((-n) / d)
    }
}

/// Saturating fixed-point sum.
pub open spec fn fp_sat_add(a: i64, b: i64) -> i64 {
    sat64(a + b)
}

/// Saturating fixed-point difference.
pub open spec fn fp_sat_sub(a: i64, b: i64) -> i64 {
    sat64(a - b)
}

/// Saturating fixed-point product: the exact product rescaled by `FP_ONE`,
/// truncated toward zero.
pub open spec fn fp_mul(a: i64, b: i64) -> i64 {
    sat64(tdiv(a as int * b as int, FP_ONE as int))
}

/// Fixed-point hyperbolic-tangent curve `x / (1 + |x|)`: an odd, bounded,
/// increasing sigmoidal transform that is exactly zero at zero.
pub open spec fn fp_tanh(x: i64) -> i64 {
    sat64(tdiv(x as int * FP_ONE, FP_ONE + abs_int(x as int)))
}

/// Fixed-point logistic curve `1/2 + tanh(x)/2`, exactly one half at zero.
pub open spec fn fp_sigmoid(x: i64) -> i64 {
    sat64(FP_HALF + tdiv(fp_tanh(x) as int, 2))
}

/// Clamp an `i128` into the `i64` range.
fn sat_from_i128(q: i128) -> (r: i64)
    ensures
        r == sat64(q as int),
{
    if q > i64::MAX as i128 {
        i64::MAX
    } else if q < i64::MIN as i128 {
        i64::MIN
    } else {
        q as i64
    }
}

/// Machine division of an `i128` by a positive divisor, truncating toward
/// zero.
fn div_trunc_i128(n: i128, d: i128) -> (r: i128)
    requires
        0 < d,
        i128::MIN < n,
    ensures
        r as int == tdiv(n as int, d as int),
        abs_int(r as int) <= abs_int(n as int),
{
    if n >= 0 {
        let q: u128 = (n as u128) / (d as u128);
        proof {
            vstd::arithmetic::div_mod::lemma_div_nonincreasing(n as int, d as int);
        }
        q as i128
    } else {
        let m: u128 = (-n) as u128;
        let q: u128 = m / (d as u128);
        proof {
            vstd::arithmetic::div_mod::lemma_div_nonincreasing(-(n as int), d as int);
        }
        -(q as i128)
    }
}

/// Saturating sum of two fixed-point signals.
pub fn sat_add(a: i64, b: i64) -> (r: i64)
    ensures
        r == fp_sat_add(a, b),
{
    let s: i128 = a as i128 + b as i128;
    sat_from_i128(s)
}

/// Saturating difference of two fixed-point signals.
pub fn sat_sub(a: i64, b: i64) -> (r: i64)
    ensures
        r == fp_sat_sub(a, b),
{
    let s: i128 = a as i128 - b as i128;
    sat_from_i128(s)
}

/// Saturating fixed-point product.
pub fn mul_fp(a: i64, b: i64) -> (r: i64)
    ensures
        r == fp_mul(a, b),
{
    proof {
        let ai = a as int;
        let bi = b as int;
        assert(ai * bi <= i128::MAX && i128::MIN < ai * bi) by (nonlinear_arith)
            requires
                -0x8000_0000_0000_0000 <= ai <= 0x7fff_ffff_ffff_ffff,
                -0x8000_0000_0000_0000 <= bi <= 0x7fff_ffff_ffff_ffff,
        ;
    }
    let p: i128 = (a as i128) * (b as i128);
    let q: i128 = div_trunc_i128(p, 1_000_000);
    sat_from_i128(q)
}

/// The tanh curve stays strictly inside (-1, 1).
pub proof fn lemma_tanh_range(x: i64)
    ensures
        -FP_ONE < fp_tanh(x) < FP_ONE,
        fp_tanh(x) as int == tdiv(x as int * FP_ONE, FP_ONE + abs_int(x as int)),
{
    let xi = x as int;
    let ax = abs_int(xi);
    let num = xi * FP_ONE;
    let den = FP_ONE + ax;
    assert(abs_int(num) == ax * FP_ONE) by (nonlinear_arith)
        requires
            num == xi * FP_ONE,
            ax == abs_int(xi),
    ;
    vstd::arithmetic::mul::lemma_mul_strict_inequality(ax, den, FP_ONE as int);
    assert(ax * FP_ONE < den * FP_ONE);
    vstd::arithmetic::div_mod::lemma_multiply_divide_lt(ax * FP_ONE, den, FP_ONE as int);
    assert((ax * FP_ONE) / den < FP_ONE);
    if xi >= 0 {
        assert(tdiv(num, den) == (ax * FP_ONE) / den);
        vstd::arithmetic::div_mod::lemma_div_pos_is_pos(ax * FP_ONE, den);
    } else {
        assert(tdiv(num, den) == -((ax * FP_ONE) / den));
        vstd::arithmetic::div_mod::lemma_div_pos_is_pos(ax * FP_ONE, den);
    }
}

/// Fixed-point hyperbolic-tangent transform.
pub fn tanh_fp(x: i64) -> (r: i64)
    ensures
        r == fp_tanh(x),
{
    let xi: i128 = x as i128;
    let ax: i128 = if xi < 0 {
        -xi
    } else {
        xi
    };
    let num: i128 = xi * 1_000_000;
    let den: i128 = 1_000_000 + ax;
    let q: i128 = div_trunc_i128(num, den);
    proof {
        lemma_tanh_range(x);
    }
    q as i64
}

/// Fixed-point logistic transform.
pub fn sigmoid_fp(x: i64) -> (r: i64)
    ensures
        r == fp_sigmoid(x),
{
    let t: i64 = tanh_fp(x);
    proof {
        lemma_tanh_range(x);
    }
    let h: i64 = if t >= 0 {
        ((t as u64) / 2) as i64
    } else {
        -((((-t) as u64) / 2) as i64)
    };
    assert(h as int == tdiv(t as int, 2));
    FP_HALF + h
}

} // verus!
