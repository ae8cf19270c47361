//! The fixed-point scalar and vector layer, held against f64 reference
//! values.

use galaxy::fx::{fxadd, fxcbrt, fxdiv, fxmul, fxneg, fxrem2pi, fxsqrt, fxsub, FX_ONE, FX_TWO};
use galaxy::trig::{fxacos, fxatan, fxatan2, fxcos, fxsin};
use galaxy::vec3::V3;

const SCALE: f64 = 1099511627776.0;

fn fx(x: f64) -> i64 {
    (x * SCALE).round() as i64
}

fn fl(b: i64) -> f64 {
    (b as f64) / SCALE
}

#[test]
fn arithmetic_exact_on_small_integers() {
    assert_eq!(fxadd(fx(3.0), fx(4.0)), fx(7.0));
    assert_eq!(fxsub(fx(3.0), fx(4.0)), fx(-1.0));
    assert_eq!(fxmul(fx(3.0), fx(4.0)), fx(12.0));
    assert_eq!(fxdiv(fx(12.0), fx(4.0)), fx(3.0));
    assert_eq!(fxneg(fx(5.0)), fx(-5.0));
    assert_eq!(fxmul(FX_TWO, FX_TWO), fx(4.0));
}

#[test]
fn division_by_zero_saturates() {
    assert_eq!(fxdiv(FX_ONE, 0), i64::MAX);
    assert_eq!(fxdiv(-FX_ONE, 0), i64::MIN);
    assert_eq!(fxdiv(0, 0), 0);
}

#[test]
fn square_root_matches_reference() {
    assert_eq!(fxsqrt(fx(4.0)), FX_TWO);
    assert!((fl(fxsqrt(fx(2.0))) - 2.0_f64.sqrt()).abs() < 1e-9);
    assert_eq!(fxsqrt(fx(-1.0)), 0);
}

#[test]
fn cube_root_matches_reference() {
    assert!((fl(fxcbrt(fx(8.0))) - 2.0).abs() < 1e-9);
    assert!((fl(fxcbrt(fx(0.001))) - 0.1).abs() < 1e-9);
    assert_eq!(fxcbrt(fx(-1.0)), 0);
}

#[test]
fn remainder_wraps_into_one_cycle() {
    let two_pi = 2.0 * std::f64::consts::PI;
    assert!((fl(fxrem2pi(fx(-1.0))) - (two_pi - 1.0)).abs() < 1e-9);
    assert!((fl(fxrem2pi(fx(7.0))) - (7.0 - two_pi)).abs() < 1e-9);
    assert_eq!(fxrem2pi(fx(1.0)), fx(1.0));
}

#[test]
fn sine_and_cosine_match_reference() {
    for k in 0..32 {
        let x = -8.0 + 0.5 * (k as f64);
        assert!(
            (fl(fxsin(fx(x))) - x.sin()).abs() < 1e-9,
            "sin({}) = {} differs from {}",
            x,
            fl(fxsin(fx(x))),
            x.sin()
        );
        assert!(
            (fl(fxcos(fx(x))) - x.cos()).abs() < 1e-9,
            "cos({}) = {} differs from {}",
            x,
            fl(fxcos(fx(x))),
            x.cos()
        );
    }
}

#[test]
fn arctangent_matches_reference() {
    for k in 0..21 {
        let x = -5.0 + 0.5 * (k as f64);
        assert!(
            (fl(fxatan(fx(x))) - x.atan()).abs() < 1e-9,
            "atan({}) = {} differs from {}",
            x,
            fl(fxatan(fx(x))),
            x.atan()
        );
    }
}

#[test]
fn quadrant_arctangent_matches_reference() {
    let cases = [(1.0, 1.0), (1.0, -1.0), (-1.0, -1.0), (-1.0, 1.0), (1.0, 0.0), (-1.0, 0.0)];
    for (y, x) in cases {
        assert!(
            (fl(fxatan2(fx(y), fx(x))) - y.atan2(x)).abs() < 1e-9,
            "atan2({}, {}) differs",
            y,
            x
        );
    }
}

#[test]
fn arccosine_matches_reference() {
    for k in 0..21 {
        let x = -1.0 + 0.1 * (k as f64);
        assert!(
            (fl(fxacos(fx(x))) - x.acos()).abs() < 1e-8,
            "acos({}) = {} differs from {}",
            x,
            fl(fxacos(fx(x))),
            x.acos()
        );
    }
}

#[test]
fn vector_algebra_exact_on_small_integers() {
    let a = V3 { x: fx(1.0), y: fx(2.0), z: fx(3.0) };
    let b = V3 { x: fx(4.0), y: fx(5.0), z: fx(6.0) };
    assert_eq!(a.dot(b), fx(32.0));
    let c = a.cross(b);
    assert_eq!((c.x, c.y, c.z), (fx(-3.0), fx(6.0), fx(-3.0)));
    let d = V3 { x: fx(3.0), y: fx(4.0), z: 0 };
    assert_eq!(d.norm(), fx(5.0));
    let u = d.normalized();
    assert!((fl(u.x) - 0.6).abs() < 1e-9);
    assert!((fl(u.y) - 0.8).abs() < 1e-9);
    assert_eq!(u.z, 0);
}
