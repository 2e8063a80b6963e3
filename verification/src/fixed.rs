//! Fixed-point scalar arithmetic.
//!
//! A real number `r` is represented by the `i64` value `r * FP_ONE`,
//! rounded to the nearest integer. All operations round to the nearest
//! representable value (ties away from zero) and saturate at `FX_SAT`
//! instead of overflowing, the fixed-point analogue of the reference
//! pipeline's silent floating-point infinities.
use vstd::prelude::*;

verus! {

/// The fixed-point unit: the representation of the real number 1.
pub const FP_ONE: i64 = 65536;

/// Saturation bound of every fixed-point operation (2^62).
pub const FX_SAT: i64 = 0x4000_0000_0000_0000;

/// Clamp a mathematical result into the saturation range.
pub open spec fn fx_clamp(v: int) -> int {
    if v > FX_SAT as int {
        FX_SAT as int
    } else if v < -(FX_SAT as int) {
        -(FX_SAT as int)
    } else {
        v
    }
}

/// Division of `n` by `d > 0`, rounded to the nearest integer,
/// ties away from zero.
pub open spec fn round_div(n: int, d: int) -> int
    recommends
        d > 0,
{
    if n >= 0 {
        (2 * n + d) / (2 * d)
    } else {
        -((2 * (-n) + d) / (2 * d))
    }
}

/// Fixed-point product: `x * y / FP_ONE`, rounded then saturated.
pub open spec fn fx_mul_spec(x: int, y: int) -> int {
    fx_clamp(round_div(x * y, FP_ONE as int))
}

/// Fixed-point quotient: `x / y` promoted by `FP_ONE`, rounded then
/// saturated.
pub open spec fn fx_div_spec(x: int, y: int) -> int
    recommends
        y != 0,
{
    if y > 0 {
        fx_clamp(round_div(x * FP_ONE, y))
    } else {
        fx_clamp(round_div(-(x * FP_ONE), -y))
    }
}

/// Saturating sum.
pub open spec fn fx_add_spec(x: int, y: int) -> int {
    fx_clamp(x + y)
}

/// Saturating negation.
pub open spec fn fx_neg_spec(x: int) -> int {
    fx_clamp(-x)
}

/// Four-term fixed-point dot product: the four products are each rounded,
/// summed exactly, and the sum is saturated once.
pub open spec fn fx_dot4_spec(a0: int, a1: int, a2: int, a3: int, b0: int, b1: int, b2: int, b3: int) -> int {
    fx_clamp(
        round_div(a0 * b0, FP_ONE as int) + round_div(a1 * b1, FP_ONE as int)
            + round_div(a2 * b2, FP_ONE as int) + round_div(a3 * b3, FP_ONE as int),
    )
}

/// Three-term fixed-point dot product.
pub open spec fn fx_dot3_spec(a0: int, a1: int, a2: int, b0: int, b1: int, b2: int) -> int {
    fx_clamp(
        round_div(a0 * b0, FP_ONE as int) + round_div(a1 * b1, FP_ONE as int)
            + round_div(a2 * b2, FP_ONE as int),
    )
}

/// `round_div` of a nonnegative numerator is bounded by the numerator
/// itself plus one (a crude bound, enough to exclude machine overflow).
pub proof fn lemma_round_div_crude(n: int, d: int)
    requires
        d > 0,
    ensures
        n >= 0 ==> 0 <= round_div(n, d) <= n + 1,
        n < 0 ==> -(-n + 1) <= round_div(n, d) <= 0,
{
    if n >= 0 {
        assert(0 <= (2 * n + d) / (2 * d) <= n + 1) by (nonlinear_arith)
            requires
                d > 0,
                n >= 0,
        ;
    } else {
        let m = -n;
        assert(0 <= (2 * m + d) / (2 * d) <= m + 1) by (nonlinear_arith)
            requires
                d > 0,
                m > 0,
        ;
    }
}

/// Exact division: a numerator that is a multiple of the denominator
/// rounds to the exact quotient.
pub proof fn lemma_round_div_exact(a: int, d: int)
    requires
        d > 0,
    ensures
        round_div(a * d, d) == a,
{
    if a >= 0 {
        assert(a * d >= 0) by (nonlinear_arith)
            requires
                d > 0,
                a >= 0,
        ;
        assert((2 * (a * d) + d) / (2 * d) == a) by (nonlinear_arith)
            requires
                d > 0,
                a >= 0,
        ;
    } else {
        assert(a * d < 0) by (nonlinear_arith)
            requires
                d > 0,
                a < 0,
        ;
        assert((2 * (-(a * d)) + d) / (2 * d) == -a) by (nonlinear_arith)
            requires
                d > 0,
                a < 0,
        ;
    }
}

/// Rounded division stays between any integer bounds that frame the
/// exact quotient: if `lo*d <= n <= hi*d` then `lo <= round_div(n, d) <= hi`.
pub proof fn lemma_round_div_bounds(n: int, d: int, lo: int, hi: int)
    requires
        d > 0,
        lo * d <= n,
        n <= hi * d,
    ensures
        lo <= round_div(n, d),
        round_div(n, d) <= hi,
{
    if n >= 0 {
        assert(lo <= (2 * n + d) / (2 * d) <= hi) by (nonlinear_arith)
            requires
                d > 0,
                n >= 0,
                lo * d <= n,
                n <= hi * d,
        ;
    } else {
        let m = -n;
        assert((-hi) * d <= m <= (-lo) * d) by (nonlinear_arith)
            requires
                lo * d <= n,
                n <= hi * d,
                m == -n,
        ;
        assert(-hi <= (2 * m + d) / (2 * d) <= -lo) by (nonlinear_arith)
            requires
                d > 0,
                m > 0,
                (-hi) * d <= m,
                m <= (-lo) * d,
        ;
    }
}

/// Dividing numerator and denominator by two does not change the rounded
/// quotient; lets the executable code avoid doubling large numerators.
proof fn lemma_div_half(p: int, h: int)
    requires
        h > 0,
        p >= 0,
    ensures
        (p + h) / (2 * h) == (2 * p + 2 * h) / (4 * h),
{
    assert((p + h) / (2 * h) == (2 * (p + h)) / (2 * (2 * h))) by (nonlinear_arith)
        requires
            h > 0,
            p >= 0,
    ;
}

/// The product of two machine doublewords fits a quadword.
proof fn lemma_i64_mul_fits(x: int, y: int)
    requires
        -0x8000_0000_0000_0000 <= x <= 0x7fff_ffff_ffff_ffff,
        -0x8000_0000_0000_0000 <= y <= 0x7fff_ffff_ffff_ffff,
    ensures
        -0x4000_0000_0000_0000_0000_0000_0000_0000 <= x * y,
        x * y <= 0x4000_0000_0000_0000_0000_0000_0000_0000,
{
    assert(-0x4000_0000_0000_0000_0000_0000_0000_0000 <= x * y
        <= 0x4000_0000_0000_0000_0000_0000_0000_0000) by (nonlinear_arith)
        requires
            -0x8000_0000_0000_0000 <= x <= 0x7fff_ffff_ffff_ffff,
            -0x8000_0000_0000_0000 <= y <= 0x7fff_ffff_ffff_ffff,
    ;
}

/// Widening product of two fixed-point values.
fn wide_mul(x: i64, y: i64) -> (p: i128)
    ensures
        p == (x as int) * (y as int),
        -0x4000_0000_0000_0000_0000_0000_0000_0000 <= p,
        p <= 0x4000_0000_0000_0000_0000_0000_0000_0000,
{
    proof {
        lemma_i64_mul_fits(x as int, y as int);
    }
    (x as i128) * (y as i128)
}

/// Rounded division by `FP_ONE`, on a wide intermediate value.
fn rdiv_fp(p: i128) -> (q: i128)
    requires
        -0x4000_0000_0000_0000_0000_0000_0000_0000 <= p,
        p <= 0x4000_0000_0000_0000_0000_0000_0000_0000,
    ensures
        q == round_div(p as int, FP_ONE as int),
        p >= 0 ==> 0 <= q <= p + 1,
        p < 0 ==> -(-(p as int) + 1) <= q <= 0,
{
    proof {
        lemma_round_div_crude(p as int, FP_ONE as int);
    }
    if p >= 0 {
        let q: i128 = (p + 32768) / 65536;
        proof {
            lemma_div_half(p as int, 32768);
            assert(2 * (p as int) + 2 * 32768 == 2 * (p as int) + FP_ONE) by {
            }
        }
        q
    } else {
        let m: i128 = -p;
        let q: i128 = (m + 32768) / 65536;
        proof {
            lemma_div_half(m as int, 32768);
        }
        -q
    }
}

/// Saturate a wide intermediate value into the `i64` fixed-point range.
fn fx_saturate(v: i128) -> (r: i64)
    ensures
        r as int == fx_clamp(v as int),
{
    if v > FX_SAT as i128 {
        FX_SAT
    } else if v < -(FX_SAT as i128) {
        -FX_SAT
    } else {
        v as i64
    }
}

/// Fixed-point multiplication.
pub fn fx_mul(x: i64, y: i64) -> (r: i64)
    ensures
        r as int == fx_mul_spec(x as int, y as int),
{
    let p: i128 = wide_mul(x, y);
    let q: i128 = rdiv_fp(p);
    fx_saturate(q)
}

/// Fixed-point division; the divisor must be nonzero.
pub fn fx_div(x: i64, y: i64) -> (r: i64)
    requires
        y != 0,
    ensures
        r as int == fx_div_spec(x as int, y as int),
{
    let n: i128 = wide_mul(x, FP_ONE);
    let num: i128 = if y > 0 {
        n
    } else {
        -n
    };
    let den: i128 = if y > 0 {
        y as i128
    } else {
        -(y as i128)
    };
    let q: i128 = if num >= 0 {
        (2 * num + den) / (2 * den)
    } else {
        let m: i128 = -num;
        -((2 * m + den) / (2 * den))
    };
    proof {
        lemma_round_div_crude(num as int, den as int);
    }
    fx_saturate(q)
}

/// Saturating fixed-point addition.
pub fn fx_add(x: i64, y: i64) -> (r: i64)
    ensures
        r as int == fx_add_spec(x as int, y as int),
{
    let s: i128 = (x as i128) + (y as i128);
    fx_saturate(s)
}

/// Saturating fixed-point negation.
pub fn fx_neg(x: i64) -> (r: i64)
    ensures
        r as int == fx_neg_spec(x as int),
{
    let v: i128 = -(x as i128);
    fx_saturate(v)
}

/// Four-term fixed-point dot product.
pub fn fx_dot4(a0: i64, a1: i64, a2: i64, a3: i64, b0: i64, b1: i64, b2: i64, b3: i64) -> (r: i64)
    ensures
        r as int == fx_dot4_spec(
            a0 as int,
            a1 as int,
            a2 as int,
            a3 as int,
            b0 as int,
            b1 as int,
            b2 as int,
            b3 as int,
        ),
{
    let q0: i128 = rdiv_fp(wide_mul(a0, b0));
    let q1: i128 = rdiv_fp(wide_mul(a1, b1));
    let q2: i128 = rdiv_fp(wide_mul(a2, b2));
    let q3: i128 = rdiv_fp(wide_mul(a3, b3));
    fx_saturate(q0 + q1 + q2 + q3)
}

/// Three-term fixed-point dot product (the homogeneous coordinate is
/// ignored).
pub fn fx_dot3(a0: i64, a1: i64, a2: i64, b0: i64, b1: i64, b2: i64) -> (r: i64)
    ensures
        r as int == fx_dot3_spec(a0 as int, a1 as int, a2 as int, b0 as int, b1 as int, b2 as int),
{
    let q0: i128 = rdiv_fp(wide_mul(a0, b0));
    let q1: i128 = rdiv_fp(wide_mul(a1, b1));
    let q2: i128 = rdiv_fp(wide_mul(a2, b2));
    fx_saturate(q0 + q1 + q2)
}

} // verus!
