//! Fixed-point numbers with 24 fractional bits, held in an `i64`.
//!
//! A raw value `r` stands for the rational `r / 2^24`. One draw of the random
//! stream carries 24 bits, so a uniform draw from `[0, 1)` is a raw value as it
//! stands. Products and quotients round towards negative infinity.

use vstd::prelude::*;
use vstd::arithmetic::div_mod::lemma_fundamental_div_mod_converse;
use vstd::arithmetic::div_mod::lemma_fundamental_div_mod;
use vstd::arithmetic::div_mod::lemma_div_is_ordered;
use vstd::arithmetic::div_mod::lemma_div_multiples_vanish;

verus! {

/// A fixed-point number: the raw value is the number times `ONE`.
pub type Fixed = i64;

/// The raw value of 1.
pub const ONE: i64 = 16_777_216;

/// The raw value of 1/2.
pub const HALF: i64 = 8_388_608;

/// The fixed-point product of two raw values.
pub open spec fn spec_mul(a: int, b: int) -> int {
    (a * b) / (ONE as int)
}

/// The fixed-point quotient of two raw values, for a positive divisor.
pub open spec fn spec_div(a: int, b: int) -> int {
    (a * ONE) / b
}

/// `x` held between `lower` and `upper`.
pub open spec fn spec_clamp(x: int, lower: int, upper: int) -> int {
    if x < lower {
        lower
    } else if x > upper {
        upper
    } else {
        x
    }
}

/// The point a fraction `t` of the way from `from` to `to`, with `t` held
/// between 0 and 1.
pub open spec fn spec_lerp(from: int, to: int, t: int) -> int {
    from + spec_mul(to - from, spec_clamp(t, 0, ONE as int))
}

/// Division that rounds towards negative infinity.
pub fn floor_div(n: i128, d: i128) -> (q: i128)
    requires
        d > 0,
    ensures
        q == n / d,
{
    if n >= 0 {
        n / d
    } else {
        let m: i128 = -(n + 1);
        let k: i128 = m / d;
        proof {
            let r = m % d;
            lemma_fundamental_div_mod(m as int, d as int);
            assert(d * k == k * d) by (nonlinear_arith);
            assert((-k - 1) * d == -(k * d) - d) by (nonlinear_arith);
            assert(n == (-k - 1) * d + (d - 1 - r));
            lemma_fundamental_div_mod_converse(n as int, d as int, -k - 1, d - 1 - r);
        }
        -k - 1
    }
}

/// The remainder that goes with `floor_div`: never negative.
pub fn floor_mod(n: i128, d: i128) -> (r: i128)
    requires
        d > 0,
    ensures
        r == n % d,
        0 <= r < d,
{
    if n >= 0 {
        n % d
    } else {
        let m: i128 = -(n + 1);
        let s: i128 = m % d;
        proof {
            let k = m / d;
            lemma_fundamental_div_mod(m as int, d as int);
            assert(d * k == k * d) by (nonlinear_arith);
            assert((-k - 1) * d == -(k * d) - d) by (nonlinear_arith);
            assert(n == (-k - 1) * d + (d - 1 - s));
            lemma_fundamental_div_mod_converse(n as int, d as int, -k - 1, d - 1 - s);
        }
        d - 1 - s
    }
}

/// The product of two 64-bit values lies well inside 128 bits.
pub proof fn lemma_product_fits(a: i64, b: i64)
    ensures
        -0x4000_0000_0000_0000_0000_0000_0000_0000 <= a * b
            <= 0x4000_0000_0000_0000_0000_0000_0000_0000,
{
    assert(-0x4000_0000_0000_0000_0000_0000_0000_0000 <= a * b
        <= 0x4000_0000_0000_0000_0000_0000_0000_0000) by (nonlinear_arith)
        requires
            -0x8000_0000_0000_0000 <= a < 0x8000_0000_0000_0000,
            -0x8000_0000_0000_0000 <= b < 0x8000_0000_0000_0000,
    ;
}

/// The fixed-point product of two 64-bit values fits 104 bits.
pub proof fn lemma_mul_fits(a: i64, b: i64)
    ensures
        -0x100_0000_0000_0000_0000_0000_0000 <= spec_mul(a as int, b as int)
            <= 0x100_0000_0000_0000_0000_0000_0000,
{
    lemma_product_fits(a, b);
    lemma_div_is_ordered(-0x4000_0000_0000_0000_0000_0000_0000_0000, a * b, ONE as int);
    lemma_div_is_ordered(a * b, 0x4000_0000_0000_0000_0000_0000_0000_0000, ONE as int);
}

/// A quotient by a positive divisor lies between 0 and the dividend.
pub proof fn lemma_div_shrinks(n: int, d: int)
    requires
        d >= 1,
    ensures
        n >= 0 ==> 0 <= n / d <= n,
        n <= 0 ==> n <= n / d <= 0,
{
    lemma_fundamental_div_mod(n, d);
    let q = n / d;
    let r = n % d;
    assert(0 <= r < d);
    assert((n >= 0 ==> 0 <= q <= n) && (n <= 0 ==> n <= q <= 0)) by (nonlinear_arith)
        requires
            n == d * q + r,
            0 <= r < d,
            d >= 1,
    ;
}

/// The fixed-point product, widened so that it cannot overflow.
pub fn mul_wide(a: Fixed, b: Fixed) -> (r: i128)
    ensures
        r == spec_mul(a as int, b as int),
        -0x100_0000_0000_0000_0000_0000_0000 <= r <= 0x100_0000_0000_0000_0000_0000_0000,
{
    proof {
        lemma_product_fits(a, b);
        lemma_mul_fits(a, b);
    }
    floor_div((a as i128) * (b as i128), ONE as i128)
}

/// A wide value brought into the range of `i64`.
pub fn saturate(v: i128) -> (r: i64)
    ensures
        r == spec_clamp(v as int, i64::MIN as int, i64::MAX as int),
{
    if v < i64::MIN as i128 {
        i64::MIN
    } else if v > i64::MAX as i128 {
        i64::MAX
    } else {
        v as i64
    }
}

/// A product with a factor between 0 and 1 lies between 0 and the other
/// factor.
pub proof fn lemma_mul_fraction(a: int, t: int)
    requires
        0 <= t <= ONE,
    ensures
        a >= 0 ==> 0 <= spec_mul(a, t) <= a,
        a <= 0 ==> a <= spec_mul(a, t) <= 0,
{
    let one = ONE as int;
    if a >= 0 {
        assert(0 <= a * t <= a * one) by (nonlinear_arith)
            requires
                a >= 0,
                0 <= t <= one,
        ;
        lemma_div_is_ordered(0, a * t, one);
        lemma_div_is_ordered(a * t, a * one, one);
    } else {
        assert(a * one <= a * t <= 0) by (nonlinear_arith)
            requires
                a < 0,
                0 <= t <= one,
        ;
        lemma_div_is_ordered(a * t, 0, one);
        lemma_div_is_ordered(a * one, a * t, one);
    }
    assert(a * one == one * a) by (nonlinear_arith);
    lemma_div_multiples_vanish(a, one);
}

/// A product with a factor between -1 and 1 is no larger in size than the
/// other factor.
pub proof fn lemma_mul_signed_fraction(a: int, s: int)
    requires
        -ONE <= s <= ONE,
    ensures
        a >= 0 ==> -a <= spec_mul(a, s) <= a,
        a <= 0 ==> a <= spec_mul(a, s) <= -a,
{
    let one = ONE as int;
    assert(one * a == a * one && one * (-a) == -(a * one)) by (nonlinear_arith);
    lemma_div_multiples_vanish(a, one);
    lemma_div_multiples_vanish(-a, one);
    if a >= 0 {
        assert(-(a * one) <= a * s <= a * one) by (nonlinear_arith)
            requires
                a >= 0,
                -one <= s <= one,
        ;
        lemma_div_is_ordered(-(a * one), a * s, one);
        lemma_div_is_ordered(a * s, a * one, one);
    } else {
        assert(a * one <= a * s <= -(a * one)) by (nonlinear_arith)
            requires
                a < 0,
                -one <= s <= one,
        ;
        lemma_div_is_ordered(a * one, a * s, one);
        lemma_div_is_ordered(a * s, -(a * one), one);
    }
}

/// `Clamp::clamped` of `vek` on `i64`: the value held between the two bounds.
/// The call panics where the lower bound is above the upper one.
#[verifier::external_body]
pub(crate) fn clamped(value: i64, lower: i64, upper: i64) -> (r: i64)
    requires
        lower <= upper,
    ensures
        r == spec_clamp(value as int, lower as int, upper as int),
{
    vek::ops::Clamp::clamped(value, lower, upper)
}

/// A wide value held between two bounds.
pub fn clamp_wide(value: i128, lower: i64, upper: i64) -> (r: i64)
    requires
        lower <= upper,
    ensures
        r == spec_clamp(value as int, lower as int, upper as int),
{
    clamped(saturate(value), lower, upper)
}

/// Linear interpolation from `from` to `to` by the fraction `t`, which is
/// held between 0 and 1 first.
pub fn lerp(from: Fixed, to: Fixed, t: Fixed) -> (r: Fixed)
    ensures
        r == spec_lerp(from as int, to as int, t as int),
        from <= to ==> from <= r <= to,
        to <= from ==> to <= r <= from,
{
    let fraction: i64 = clamped(t, 0, ONE);
    let span: i128 = to as i128 - from as i128;
    proof {
        lemma_mul_fraction(span as int, fraction as int);
        assert(-0x1_0000_0000_0000_0000 <= span <= 0x1_0000_0000_0000_0000);
        assert(-0x100_0000_0000_0000_0000_0000 <= span * fraction
            <= 0x100_0000_0000_0000_0000_0000) by (nonlinear_arith)
            requires
                -0x1_0000_0000_0000_0000 <= span <= 0x1_0000_0000_0000_0000,
                0 <= fraction <= 0x100_0000,
        ;
    }
    let part: i128 = floor_div(span * (fraction as i128), ONE as i128);
    (from as i128 + part) as i64
}

} // verus!
