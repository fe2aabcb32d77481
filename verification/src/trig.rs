//! Angles in fixed-point radians, and a rational approximation of the sine.
//!
//! `PI` is the even raw value next to pi, so that a quarter turn is a whole
//! raw value and the sine of a quarter turn is exactly 1. On a half turn the
//! sine is Bhaskara's quotient `16 x (pi - x) / (5 pi^2 - 4 x (pi - x))`,
//! which stays within 0.002 of the true sine; the other half turn mirrors it.

use vstd::prelude::*;
use vstd::arithmetic::div_mod::lemma_div_is_ordered;
use vstd::arithmetic::div_mod::lemma_div_multiples_vanish;
use crate::fixed::Fixed;
use crate::fixed::ONE;
use crate::fixed::floor_mod;

verus! {

/// Half a turn.
pub const PI: i64 = 52_707_178;

/// A quarter turn.
pub const HALF_PI: i64 = 26_353_589;

/// A full turn.
pub const TAU: i64 = 105_414_356;

/// The angle in `[0, TAU)` that points the same way as `angle`.
pub open spec fn spec_wrap(angle: int) -> int {
    angle % (TAU as int)
}

/// The sine of an angle `x` of the first half turn.
pub open spec fn spec_sin_half(x: int) -> int {
    let p = x * (PI - x);
    (16 * p * ONE) / (5 * PI * PI - 4 * p)
}

/// The sine of any angle.
pub open spec fn spec_sin(angle: int) -> int {
    let w = spec_wrap(angle);
    if w < PI {
        spec_sin_half(w)
    } else {
        -spec_sin_half(w - PI)
    }
}

/// The cosine of any angle: the sine a quarter turn further on.
pub open spec fn spec_cos(angle: int) -> int {
    spec_sin(angle + HALF_PI)
}

/// On the first half turn the sine lies between 0 and 1.
pub proof fn lemma_sin_half_range(x: int)
    requires
        0 <= x <= PI,
    ensures
        0 <= spec_sin_half(x) <= ONE,
        0 <= x * (PI - x),
        4 * (x * (PI - x)) <= PI * PI,
{
    let pi = PI as int;
    let one = ONE as int;
    let p = x * (pi - x);
    assert(0 <= p && 4 * p <= pi * pi) by (nonlinear_arith)
        requires
            0 <= x <= pi,
            p == x * (pi - x),
    ;
    let den = 5 * pi * pi - 4 * p;
    let num = 16 * p * one;
    assert(pi * pi == 2_778_046_612_723_684) by (nonlinear_arith)
        requires
            pi == 52_707_178,
    ;
    assert(den > 0);
    assert(0 <= num <= one * den) by (nonlinear_arith)
        requires
            0 <= p,
            20 * p <= 5 * pi * pi,
            den == 5 * pi * pi - 4 * p,
            num == 16 * p * one,
            one == 16_777_216,
    ;
    lemma_div_is_ordered(0, num, den);
    lemma_div_is_ordered(num, one * den, den);
    assert(one * den == den * one) by (nonlinear_arith);
    lemma_div_multiples_vanish(one, den);
}

/// Brings an angle into `[0, TAU)`.
pub fn wrap_angle(angle: i128) -> (r: Fixed)
    ensures
        r == spec_wrap(angle as int),
        0 <= r < TAU,
{
    floor_mod(angle, TAU as i128) as i64
}

/// The sine of an angle that may lie outside `i64`, between -1 and 1.
pub fn sin_wide(angle: i128) -> (r: Fixed)
    ensures
        r == spec_sin(angle as int),
        -ONE <= r <= ONE,
{
    let w: i64 = wrap_angle(angle);
    let x: i64 = if w < PI {
        w
    } else {
        w - PI
    };
    proof {
        lemma_sin_half_range(x as int);
        assert(PI * PI == 2_778_046_612_723_684) by (nonlinear_arith);
    }
    let p: i64 = x * (PI - x);
    let num: i128 = 16 * (p as i128) * (ONE as i128);
    let den: i128 = 5 * (PI as i128) * (PI as i128) - 4 * (p as i128);
    let half: i64 = (num / den) as i64;
    if w < PI {
        half
    } else {
        -half
    }
}

/// The sine of `angle`, between -1 and 1.
pub fn sin(angle: Fixed) -> (r: Fixed)
    ensures
        r == spec_sin(angle as int),
        -ONE <= r <= ONE,
{
    sin_wide(angle as i128)
}

/// The cosine of `angle`, between -1 and 1.
pub fn cos(angle: Fixed) -> (r: Fixed)
    ensures
        r == spec_cos(angle as int),
        -ONE <= r <= ONE,
{
    sin_wide(angle as i128 + HALF_PI as i128)
}

} // verus!
