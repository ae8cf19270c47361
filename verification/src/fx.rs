//! The simulation's scalar: a signed fixed-point number with 40 fractional
//! bits, held in an `i64`.
//!
//! Every arithmetic operation saturates at the ends of the `i64` range and
//! rounds toward zero, and each executable operation is proved equal to a
//! spec-level mirror written over exact integers, so contracts elsewhere in
//! the library pin results down bit for bit.

use vstd::prelude::*;

verus! {

/// The denominator of the fixed-point format: `2^40`.
pub const FX_SCALE: i64 = 0x100_0000_0000;

/// `1.0` in fixed point.
pub const FX_ONE: i64 = 1099511627776;

/// `2.0` in fixed point.
pub const FX_TWO: i64 = 2199023255552;

/// `0.5` in fixed point.
pub const FX_HALF: i64 = 549755813888;

/// `4.0` in fixed point.
pub const FX_FOUR: i64 = 4398046511104;

/// The nearest fixed-point value to pi.
pub const FX_PI: i64 = 3454217652358;

/// The nearest fixed-point value to 2*pi, the length of one anomaly cycle.
pub const FX_TWO_PI: i64 = 6908435304715;

/// The nearest fixed-point value to pi/2.
pub const FX_HALF_PI: i64 = 1727108826179;

/// The nearest fixed-point value to 3*pi/2.
pub const FX_THREE_HALF_PI: i64 = 5181326478536;

/// The magnitude of a value, as an exact integer.
pub open spec fn iabs(a: int) -> int {
    if a < 0 {
        -a
    } else {
        a
    }
}

/// Saturation of an exact integer into the `i64` range.
pub open spec fn clamp_of(v: int) -> i64 {
    if v > i64::MAX {
        i64::MAX
    } else if v < i64::MIN {
        i64::MIN
    } else {
        v as i64
    }
}

/// Division of exact integers, rounded toward zero, as Rust's `/` rounds.
pub open spec fn tdiv_of(p: int, d: int) -> int
    recommends
        d != 0,
{
    let m = iabs(p) / iabs(d);
    if (p < 0) != (d < 0) {
        -m
    } else {
        m
    }
}

/// Saturating fixed-point sum.
pub open spec fn fxadd_of(a: i64, b: i64) -> i64 {
    clamp_of(a + b)
}

/// Saturating fixed-point difference.
pub open spec fn fxsub_of(a: i64, b: i64) -> i64 {
    clamp_of(a - b)
}

/// Saturating fixed-point negation.
pub open spec fn fxneg_of(a: i64) -> i64 {
    clamp_of(-a)
}

/// Saturating fixed-point product: the exact product, scaled back down and
/// rounded toward zero.
pub open spec fn fxmul_of(a: i64, b: i64) -> i64 {
    clamp_of(tdiv_of(a * b, FX_SCALE as int))
}

/// Saturating fixed-point quotient; division by zero saturates by the sign
/// of the dividend.
pub open spec fn fxdiv_of(a: i64, b: i64) -> i64 {
    if b == 0 {
        if a > 0 {
            i64::MAX
        } else if a < 0 {
            i64::MIN
        } else {
            0
        }
    } else {
        clamp_of(tdiv_of(a * (FX_SCALE as int), b as int))
    }
}

/// The least non-negative remainder of `x` modulo one anomaly cycle.
pub open spec fn fxrem2pi_of(x: i64) -> i64 {
    if x >= 0 {
        ((x as int) % (FX_TWO_PI as int)) as i64
    } else {
        let m = (-(x as int)) % (FX_TWO_PI as int);
        if m == 0 {
            0
        } else {
            (FX_TWO_PI - m) as i64
        }
    }
}

/// The non-negative integer square root, floor-rounded.
pub open spec fn sqrt_floor_of(v: int) -> int {
    choose|r: int| 0 <= r && #[trigger] (r * r) <= v < (r + 1) * (r + 1)
}

/// The square root of a fixed-point value, floor-rounded to the format;
/// zero for arguments at or below zero.
pub open spec fn fxsqrt_of(x: i64) -> i64 {
    if x <= 0 {
        0
    } else {
        sqrt_floor_of(x * (FX_SCALE as int)) as i64
    }
}

proof fn lemma_abs_mul(a: int, b: int)
    ensures
        iabs(a * b) == iabs(a) * iabs(b),
{
    if a >= 0 && b >= 0 {
        assert(a * b >= 0) by (nonlinear_arith)
            requires
                a >= 0 && b >= 0,
        ;
    } else if a < 0 && b >= 0 {
        assert(a * b <= 0 && (-a) * b == -(a * b)) by (nonlinear_arith)
            requires
                a < 0 && b >= 0,
        ;
    } else if a >= 0 && b < 0 {
        assert(a * b <= 0 && a * (-b) == -(a * b)) by (nonlinear_arith)
            requires
                a >= 0 && b < 0,
        ;
    } else {
        assert(a * b > 0 && (-a) * (-b) == a * b) by (nonlinear_arith)
            requires
                a < 0 && b < 0,
        ;
    }
}

/// A product with a factor drawn from `[0, 1)` stays within `[0, a]` for a
/// non-negative `a`, and strictly below a positive `a`.
pub proof fn lemma_fxmul_unit(a: i64, u: i64)
    requires
        0 <= a,
        0 <= u < FX_ONE,
    ensures
        0 <= fxmul_of(a, u) <= a,
        a > 0 ==> fxmul_of(a, u) < a,
{
    let s = FX_SCALE as int;
    let p = (a as int) * (u as int);
    assert(0 <= p) by (nonlinear_arith)
        requires
            0 <= a && 0 <= u && p == (a as int) * (u as int),
    ;
    assert(p <= (a as int) * s) by (nonlinear_arith)
        requires
            0 <= a && (u as int) <= s && p == (a as int) * (u as int),
    ;
    vstd::arithmetic::div_mod::lemma_div_pos_is_pos(p, s);
    vstd::arithmetic::div_mod::lemma_div_is_ordered(p, (a as int) * s, s);
    vstd::arithmetic::div_mod::lemma_div_by_multiple(a as int, s);
    assert(tdiv_of(p, s) == p / s);
    if a > 0 {
        assert(p < s * (a as int)) by (nonlinear_arith)
            requires
                0 < a && 0 <= u && (u as int) < s && p == (a as int) * (u as int),
        ;
        vstd::arithmetic::div_mod::lemma_multiply_divide_lt(p, s, a as int);
    }
}

/// The magnitude of an `i64`, widened so that `i64::MIN` carries over.
fn mag128(a: i64) -> (m: u128)
    ensures
        m == iabs(a as int),
{
    let w: i128 = a as i128;
    if w < 0 {
        (-w) as u128
    } else {
        w as u128
    }
}

/// Saturates a magnitude-and-sign pair into the `i64` range.
fn clamp_signed(q: u128, neg: bool) -> (r: i64)
    ensures
        r == clamp_of(if neg { -(q as int) } else { q as int }),
{
    if neg {
        if q >= 0x8000_0000_0000_0000u128 {
            i64::MIN
        } else {
            -(q as i64)
        }
    } else {
        if q >= 0x8000_0000_0000_0000u128 {
            i64::MAX
        } else {
            q as i64
        }
    }
}

/// Saturating sum.
pub fn fxadd(a: i64, b: i64) -> (r: i64)
    ensures
        r == fxadd_of(a, b),
{
    let s: i128 = a as i128 + b as i128;
    if s > i64::MAX as i128 {
        i64::MAX
    } else if s < i64::MIN as i128 {
        i64::MIN
    } else {
        s as i64
    }
}

/// Saturating difference.
pub fn fxsub(a: i64, b: i64) -> (r: i64)
    ensures
        r == fxsub_of(a, b),
{
    let s: i128 = a as i128 - b as i128;
    if s > i64::MAX as i128 {
        i64::MAX
    } else if s < i64::MIN as i128 {
        i64::MIN
    } else {
        s as i64
    }
}

/// Saturating negation.
pub fn fxneg(a: i64) -> (r: i64)
    ensures
        r == fxneg_of(a),
{
    if a == i64::MIN {
        i64::MAX
    } else {
        -a
    }
}

/// Saturating product, rounded toward zero.
pub fn fxmul(a: i64, b: i64) -> (r: i64)
    ensures
        r == fxmul_of(a, b),
{
    let ma = mag128(a);
    let mb = mag128(b);
    proof {
        assert(ma * mb <= 0x8000_0000_0000_0000u128 * 0x8000_0000_0000_0000u128)
            by (nonlinear_arith)
            requires
                ma <= 0x8000_0000_0000_0000u128 && mb <= 0x8000_0000_0000_0000u128,
        ;
        lemma_abs_mul(a as int, b as int);
    }
    let prod: u128 = ma * mb;
    let q: u128 = prod / (FX_SCALE as u128);
    let neg = (a < 0) != (b < 0);
    let r = clamp_signed(q, neg);
    proof {
        let p = (a as int) * (b as int);
        let s = FX_SCALE as int;
        assert(iabs(p) == prod);
        assert(q == iabs(p) / s);
        if neg {
            if p < 0 {
                assert(tdiv_of(p, s) == -q);
            } else {
                // opposite sign flags force a non-positive product, so it is zero here
                assert(p <= 0) by (nonlinear_arith)
                    requires
                        (a as int) * (b as int) == p && ((a < 0) != (b < 0)),
                ;
                assert(p == 0);
                assert(tdiv_of(p, s) == 0 && q == 0);
            }
            assert(r == clamp_of(tdiv_of(p, s)));
        } else {
            if p < 0 {
                assert(iabs(a as int) * iabs(b as int) == prod);
                assert(false) by (nonlinear_arith)
                    requires
                        (a as int) * (b as int) < 0 && !((a < 0) != (b < 0)),
                ;
            }
            assert(tdiv_of(p, s) == q);
            assert(r == clamp_of(tdiv_of(p, s)));
        }
    }
    r
}

/// Saturating quotient, rounded toward zero; division by zero saturates by
/// the sign of the dividend.
pub fn fxdiv(a: i64, b: i64) -> (r: i64)
    ensures
        r == fxdiv_of(a, b),
{
    if b == 0 {
        if a > 0 {
            i64::MAX
        } else if a < 0 {
            i64::MIN
        } else {
            0
        }
    } else {
        let ma = mag128(a);
        let mb = mag128(b);
        let num: u128 = ma * (FX_SCALE as u128);
        proof {
            assert(ma * (FX_SCALE as u128) <= 0x8000_0000_0000_0000u128 * (FX_SCALE as u128))
                by (nonlinear_arith)
                requires
                    ma <= 0x8000_0000_0000_0000u128,
            ;
            lemma_abs_mul(a as int, FX_SCALE as int);
        }
        let q: u128 = num / mb;
        let neg = (a < 0) != (b < 0);
        let r = clamp_signed(q, neg);
        proof {
            let p = (a as int) * (FX_SCALE as int);
            assert(iabs(p) == num);
            assert(q == iabs(p) / iabs(b as int));
            if a == 0 {
                assert(p == 0) by (nonlinear_arith)
                    requires
                        (a as int) * (FX_SCALE as int) == p && a == 0,
                ;
                assert(q == 0);
                assert(tdiv_of(p, b as int) == 0);
            } else if a > 0 {
                assert(p > 0) by (nonlinear_arith)
                    requires
                        (a as int) * (FX_SCALE as int) == p && a > 0 && FX_SCALE > 0,
                ;
                assert((p < 0) != (b < 0) <==> neg);
            } else {
                assert(p < 0) by (nonlinear_arith)
                    requires
                        (a as int) * (FX_SCALE as int) == p && a < 0 && FX_SCALE > 0,
                ;
                assert((p < 0) != (b < 0) <==> neg);
            }
            assert(r == clamp_of(tdiv_of(p, b as int)));
        }
        r
    }
}

/// The least non-negative remainder of `x` modulo one anomaly cycle; the
/// mean-anomaly normalization into `[0, 2*pi)`.
pub fn fxrem2pi(x: i64) -> (r: i64)
    ensures
        r == fxrem2pi_of(x),
        0 <= r < FX_TWO_PI,
{
    if x >= 0 {
        let ux: u64 = x as u64;
        let m: u64 = ux % (FX_TWO_PI as u64);
        m as i64
    } else {
        let w: i128 = x as i128;
        let mw: u128 = (-w) as u128;
        let m: u128 = mw % (FX_TWO_PI as u128);
        if m == 0 {
            0
        } else {
            FX_TWO_PI - (m as i64)
        }
    }
}

/// Arguments above this bound (`16.0`) have their cube root saturated.
pub const FX_CBRT_CAP_IN: i64 = 0x1000_0000_0000;

/// The cube root of the saturation bound, floor-rounded to the format.
pub const FX_CBRT_CAP_OUT: i64 = 2770595688878;

/// The non-negative integer cube root, floor-rounded.
pub open spec fn cbrt_floor_of(v: int) -> int {
    choose|r: int| 0 <= r && #[trigger] (r * r * r) <= v < (r + 1) * (r + 1) * (r + 1)
}

/// The cube root of a fixed-point value, floor-rounded to the format; zero
/// for arguments at or below zero, saturated above `16.0`.
pub open spec fn fxcbrt_of(x: i64) -> i64 {
    if x <= 0 {
        0
    } else if x > FX_CBRT_CAP_IN {
        FX_CBRT_CAP_OUT
    } else {
        cbrt_floor_of(x * 0x100000000000000000000) as i64
    }
}

proof fn lemma_cbrt_floor_unique(v: int, r: int)
    requires
        0 <= r,
        r * r * r <= v,
        v < (r + 1) * (r + 1) * (r + 1),
    ensures
        cbrt_floor_of(v) == r,
{
    assert(0 <= r && r * r * r <= v < (r + 1) * (r + 1) * (r + 1));
    let w = choose|w: int| 0 <= w && #[trigger] (w * w * w) <= v < (w + 1) * (w + 1) * (w + 1);
    assert(0 <= w && w * w * w <= v < (w + 1) * (w + 1) * (w + 1));
    if w < r {
        assert((w + 1) * (w + 1) * (w + 1) <= r * r * r) by (nonlinear_arith)
            requires
                0 <= w && w < r,
        ;
    }
    if r < w {
        assert((r + 1) * (r + 1) * (r + 1) <= w * w * w) by (nonlinear_arith)
            requires
                0 <= r && r < w,
        ;
    }
}

/// The floor-rounded non-negative integer cube root, by bisection.
fn icbrt_u128(v: u128) -> (r: u128)
    requires
        v < (0x400_0000_0000u128) * (0x400_0000_0000u128) * (0x400_0000_0000u128),
    ensures
        r * r * r <= v,
        v < (r + 1) * (r + 1) * (r + 1),
        r < 0x400_0000_0000u128,
{
    let mut lo: u128 = 0;
    let mut hi: u128 = 0x400_0000_0000u128;
    while lo + 1 < hi
        invariant
            lo < hi <= 0x400_0000_0000u128,
            lo * lo * lo <= v,
            v < hi * hi * hi,
        decreases hi - lo,
    {
        let mid: u128 = lo + (hi - lo) / 2;
        proof {
            assert(mid * mid < 0x400_0000_0000u128 * 0x400_0000_0000u128 && mid * mid * mid
                < 0x400_0000_0000u128 * 0x400_0000_0000u128 * 0x400_0000_0000u128)
                by (nonlinear_arith)
                requires
                    mid < 0x400_0000_0000u128,
            ;
        }
        let sq: u128 = mid * mid;
        if sq * mid <= v {
            lo = mid;
        } else {
            hi = mid;
        }
    }
    proof {
        assert(lo + 1 == hi);
    }
    lo
}

/// The cube root, floor-rounded to the fixed-point format; zero for
/// arguments at or below zero, saturated above `16.0`.
pub fn fxcbrt(x: i64) -> (r: i64)
    ensures
        r == fxcbrt_of(x),
        r >= 0,
{
    if x <= 0 {
        0
    } else if x > FX_CBRT_CAP_IN {
        FX_CBRT_CAP_OUT
    } else {
        proof {
            assert((x as u128) * 0x100000000000000000000u128 < (0x400_0000_0000u128)
                * (0x400_0000_0000u128) * (0x400_0000_0000u128)) by (nonlinear_arith)
                requires
                    x as u128 <= 0x1000_0000_0000u128,
            ;
        }
        let v: u128 = (x as u128) * 0x100000000000000000000u128;
        let r = icbrt_u128(v);
        proof {
            lemma_cbrt_floor_unique((x as int) * 0x100000000000000000000, r as int);
        }
        r as i64
    }
}

proof fn lemma_sqrt_floor_unique(v: int, r: int)
    requires
        0 <= r,
        r * r <= v,
        v < (r + 1) * (r + 1),
    ensures
        sqrt_floor_of(v) == r,
{
    assert(0 <= r && r * r <= v < (r + 1) * (r + 1));
    let w = choose|w: int| 0 <= w && #[trigger] (w * w) <= v < (w + 1) * (w + 1);
    assert(0 <= w && w * w <= v < (w + 1) * (w + 1));
    if w < r {
        assert((w + 1) * (w + 1) <= r * r) by (nonlinear_arith)
            requires
                0 <= w && w < r,
        ;
    }
    if r < w {
        assert((r + 1) * (r + 1) <= w * w) by (nonlinear_arith)
            requires
                0 <= r && r < w,
        ;
    }
}

/// The floor-rounded non-negative integer square root, by bisection.
fn isqrt_u128(v: u128) -> (r: u128)
    requires
        v < (0x10_0000_0000_0000u128) * (0x10_0000_0000_0000u128),
    ensures
        r * r <= v,
        v < (r + 1) * (r + 1),
        r < 0x10_0000_0000_0000u128,
{
    let mut lo: u128 = 0;
    let mut hi: u128 = 0x10_0000_0000_0000u128;
    while lo + 1 < hi
        invariant
            lo < hi <= 0x10_0000_0000_0000u128,
            lo * lo <= v,
            v < hi * hi,
        decreases hi - lo,
    {
        let mid: u128 = lo + (hi - lo) / 2;
        proof {
            assert(mid * mid < 0x10_0000_0000_0000u128 * 0x10_0000_0000_0000u128)
                by (nonlinear_arith)
                requires
                    mid < 0x10_0000_0000_0000u128,
            ;
        }
        if mid * mid <= v {
            lo = mid;
        } else {
            hi = mid;
        }
    }
    proof {
        assert(lo + 1 == hi);
    }
    lo
}

/// The square root, floor-rounded to the fixed-point format; zero for
/// arguments at or below zero.
pub fn fxsqrt(x: i64) -> (r: i64)
    ensures
        r == fxsqrt_of(x),
        r >= 0,
{
    if x <= 0 {
        0
    } else {
        proof {
            assert((x as u128) * (FX_SCALE as u128) < (0x10_0000_0000_0000u128)
                * (0x10_0000_0000_0000u128)) by (nonlinear_arith)
                requires
                    x as u128 <= 0x8000_0000_0000_0000u128 && FX_SCALE == 0x100_0000_0000,
            ;
        }
        let v: u128 = (x as u128) * (FX_SCALE as u128);
        let r = isqrt_u128(v);
        proof {
            lemma_sqrt_floor_unique((x as int) * (FX_SCALE as int), r as int);
        }
        r as i64
    }
}

} // verus!
