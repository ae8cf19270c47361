//! Trigonometric functions on the fixed-point scalar, evaluated by range
//! reduction and polynomial approximation.
//!
//! Each executable function is proved equal to a spec-level mirror written
//! over the exact fixed-point operations, so every trigonometric value in a
//! contract is pinned down bit for bit.

use vstd::prelude::*;

use crate::fx::{
    fxadd, fxadd_of, fxdiv, fxdiv_of, fxmul, fxmul_of, fxneg, fxneg_of, fxrem2pi, fxrem2pi_of,
    fxsqrt, fxsqrt_of, fxsub, fxsub_of, FX_FOUR, FX_HALF_PI, FX_ONE, FX_PI, FX_THREE_HALF_PI,
    FX_TWO_PI,
};

verus! {

/// Coefficient `-1/3!` of the sine series, in fixed point.
pub const FX_SIN_C3: i64 = -183251937963;

/// Coefficient `1/5!` of the sine series, in fixed point.
pub const FX_SIN_C5: i64 = 9162596898;

/// Coefficient `-1/7!` of the sine series, in fixed point.
pub const FX_SIN_C7: i64 = -218157069;

/// Coefficient `1/9!` of the sine series, in fixed point.
pub const FX_SIN_C9: i64 = 3029959;

/// Coefficient `-1/11!` of the sine series, in fixed point.
pub const FX_SIN_C11: i64 = -27545;

/// Coefficient `1/13!` of the sine series, in fixed point.
pub const FX_SIN_C13: i64 = 177;

/// Coefficient `-1/15!` of the sine series, in fixed point.
pub const FX_SIN_C15: i64 = -1;

/// Coefficient `-1/3` of the arctangent series, in fixed point.
pub const FX_ATAN_C3: i64 = -366503875925;

/// Coefficient `1/5` of the arctangent series, in fixed point.
pub const FX_ATAN_C5: i64 = 219902325555;

/// Coefficient `-1/7` of the arctangent series, in fixed point.
pub const FX_ATAN_C7: i64 = -157073089682;

/// Coefficient `1/9` of the arctangent series, in fixed point.
pub const FX_ATAN_C9: i64 = 122167958642;

/// Coefficient `-1/11` of the arctangent series, in fixed point.
pub const FX_ATAN_C11: i64 = -99955602525;

/// Coefficient `1/13` of the arctangent series, in fixed point.
pub const FX_ATAN_C13: i64 = 84577817521;

/// The sine series through degree 15, for arguments within a quadrant of
/// zero, as a Horner evaluation.
pub open spec fn poly_sin_of(x: i64) -> i64 {
    let s = fxmul_of(x, x);
    let a1 = fxadd_of(FX_SIN_C13, fxmul_of(FX_SIN_C15, s));
    let a2 = fxadd_of(FX_SIN_C11, fxmul_of(a1, s));
    let a3 = fxadd_of(FX_SIN_C9, fxmul_of(a2, s));
    let a4 = fxadd_of(FX_SIN_C7, fxmul_of(a3, s));
    let a5 = fxadd_of(FX_SIN_C5, fxmul_of(a4, s));
    let a6 = fxadd_of(FX_SIN_C3, fxmul_of(a5, s));
    let a7 = fxadd_of(FX_ONE, fxmul_of(a6, s));
    fxmul_of(x, a7)
}

/// The sine of any scalar: the argument is reduced modulo one cycle, folded
/// into a quadrant of zero, and fed to the series.
pub open spec fn fxsin_of(x: i64) -> i64 {
    let m = fxrem2pi_of(x);
    if m <= FX_HALF_PI {
        poly_sin_of(m)
    } else if m <= FX_THREE_HALF_PI {
        poly_sin_of(fxsub_of(FX_PI, m))
    } else {
        poly_sin_of(fxsub_of(m, FX_TWO_PI))
    }
}

/// The cosine, as the sine a quarter cycle ahead.
pub open spec fn fxcos_of(x: i64) -> i64 {
    fxsin_of(fxadd_of(x, FX_HALF_PI))
}

/// The arctangent series through degree 13, for arguments reduced below
/// `tan(pi/8)`, as a Horner evaluation.
pub open spec fn poly_atan_of(x: i64) -> i64 {
    let s = fxmul_of(x, x);
    let a1 = fxadd_of(FX_ATAN_C11, fxmul_of(FX_ATAN_C13, s));
    let a2 = fxadd_of(FX_ATAN_C9, fxmul_of(a1, s));
    let a3 = fxadd_of(FX_ATAN_C7, fxmul_of(a2, s));
    let a4 = fxadd_of(FX_ATAN_C5, fxmul_of(a3, s));
    let a5 = fxadd_of(FX_ATAN_C3, fxmul_of(a4, s));
    let a6 = fxadd_of(FX_ONE, fxmul_of(a5, s));
    fxmul_of(x, a6)
}

/// The arctangent of an argument in `[0, 1]`: two half-angle reductions
/// through `x / (1 + sqrt(1 + x^2))`, the series, and two doublings.
pub open spec fn atan_small_of(x: i64) -> i64 {
    let t1 = fxdiv_of(x, fxadd_of(FX_ONE, fxsqrt_of(fxadd_of(FX_ONE, fxmul_of(x, x)))));
    let t2 = fxdiv_of(t1, fxadd_of(FX_ONE, fxsqrt_of(fxadd_of(FX_ONE, fxmul_of(t1, t1)))));
    fxmul_of(FX_FOUR, poly_atan_of(t2))
}

/// The arctangent of a non-negative argument; arguments above one go through
/// the reciprocal identity.
pub open spec fn atan_nn_of(x: i64) -> i64 {
    if x > FX_ONE {
        fxsub_of(FX_HALF_PI, atan_small_of(fxdiv_of(FX_ONE, x)))
    } else {
        atan_small_of(x)
    }
}

/// The arctangent of any scalar, with range `[-pi/2, pi/2]`.
pub open spec fn fxatan_of(x: i64) -> i64 {
    if x < 0 {
        fxneg_of(atan_nn_of(fxneg_of(x)))
    } else {
        atan_nn_of(x)
    }
}

/// The quadrant-aware arctangent of `y/x`, with range `(-pi, pi]`.
pub open spec fn fxatan2_of(y: i64, x: i64) -> i64 {
    if x > 0 {
        fxatan_of(fxdiv_of(y, x))
    } else if x < 0 {
        if y >= 0 {
            fxadd_of(fxatan_of(fxdiv_of(y, x)), FX_PI)
        } else {
            fxsub_of(fxatan_of(fxdiv_of(y, x)), FX_PI)
        }
    } else {
        if y > 0 {
            FX_HALF_PI
        } else if y < 0 {
            fxneg_of(FX_HALF_PI)
        } else {
            0
        }
    }
}

/// The arccosine, with range `[0, pi]`, through the arctangent of
/// `sqrt(1 - x^2) / x`.
pub open spec fn fxacos_of(x: i64) -> i64 {
    fxatan2_of(fxsqrt_of(fxsub_of(FX_ONE, fxmul_of(x, x))), x)
}

fn poly_sin(x: i64) -> (r: i64)
    ensures
        r == poly_sin_of(x),
{
    let s = fxmul(x, x);
    let mut a = fxadd(FX_SIN_C13, fxmul(FX_SIN_C15, s));
    a = fxadd(FX_SIN_C11, fxmul(a, s));
    a = fxadd(FX_SIN_C9, fxmul(a, s));
    a = fxadd(FX_SIN_C7, fxmul(a, s));
    a = fxadd(FX_SIN_C5, fxmul(a, s));
    a = fxadd(FX_SIN_C3, fxmul(a, s));
    a = fxadd(FX_ONE, fxmul(a, s));
    fxmul(x, a)
}

/// The sine of any scalar.
pub fn fxsin(x: i64) -> (r: i64)
    ensures
        r == fxsin_of(x),
{
    let m = fxrem2pi(x);
    if m <= FX_HALF_PI {
        poly_sin(m)
    } else if m <= FX_THREE_HALF_PI {
        poly_sin(fxsub(FX_PI, m))
    } else {
        poly_sin(fxsub(m, FX_TWO_PI))
    }
}

/// The cosine of any scalar.
pub fn fxcos(x: i64) -> (r: i64)
    ensures
        r == fxcos_of(x),
{
    fxsin(fxadd(x, FX_HALF_PI))
}

fn poly_atan(x: i64) -> (r: i64)
    ensures
        r == poly_atan_of(x),
{
    let s = fxmul(x, x);
    let mut a = fxadd(FX_ATAN_C11, fxmul(FX_ATAN_C13, s));
    a = fxadd(FX_ATAN_C9, fxmul(a, s));
    a = fxadd(FX_ATAN_C7, fxmul(a, s));
    a = fxadd(FX_ATAN_C5, fxmul(a, s));
    a = fxadd(FX_ATAN_C3, fxmul(a, s));
    a = fxadd(FX_ONE, fxmul(a, s));
    fxmul(x, a)
}

fn atan_small(x: i64) -> (r: i64)
    ensures
        r == atan_small_of(x),
{
    let t1 = fxdiv(x, fxadd(FX_ONE, fxsqrt(fxadd(FX_ONE, fxmul(x, x)))));
    let t2 = fxdiv(t1, fxadd(FX_ONE, fxsqrt(fxadd(FX_ONE, fxmul(t1, t1)))));
    fxmul(FX_FOUR, poly_atan(t2))
}

fn atan_nn(x: i64) -> (r: i64)
    ensures
        r == atan_nn_of(x),
{
    if x > FX_ONE {
        fxsub(FX_HALF_PI, atan_small(fxdiv(FX_ONE, x)))
    } else {
        atan_small(x)
    }
}

/// The arctangent of any scalar.
pub fn fxatan(x: i64) -> (r: i64)
    ensures
        r == fxatan_of(x),
{
    if x < 0 {
        fxneg(atan_nn(fxneg(x)))
    } else {
        atan_nn(x)
    }
}

/// The quadrant-aware arctangent of `y/x`.
pub fn fxatan2(y: i64, x: i64) -> (r: i64)
    ensures
        r == fxatan2_of(y, x),
{
    if x > 0 {
        fxatan(fxdiv(y, x))
    } else if x < 0 {
        if y >= 0 {
            fxadd(fxatan(fxdiv(y, x)), FX_PI)
        } else {
            fxsub(fxatan(fxdiv(y, x)), FX_PI)
        }
    } else {
        if y > 0 {
            FX_HALF_PI
        } else if y < 0 {
            fxneg(FX_HALF_PI)
        } else {
            0
        }
    }
}

/// The arccosine of any scalar.
pub fn fxacos(x: i64) -> (r: i64)
    ensures
        r == fxacos_of(x),
{
    fxatan2(fxsqrt(fxsub(FX_ONE, fxmul(x, x))), x)
}

} // verus!
