//! Orientation of the orbital plane: the minimal rotation carrying the
//! reference axis onto an orbit normal, its inverse, and rotation about the
//! reference axis by the heading angle.
//!
//! The reference axis is the `y` axis. For a unit normal `n`, the minimal
//! rotation has cosine `c = n.y` and axis along `w = (n.z, 0, -n.x)`; by the
//! Rodrigues formula it needs no trigonometry:
//! `v' = v*c + w x v + w*((w . v)/(1 + c))`.
//! When `n` is antiparallel to the reference axis the minimal rotation is
//! ambiguous; it is resolved deterministically as the half-turn about the
//! fixed `x` axis, which maps `(x, y, z)` to `(x, -y, -z)`.

use vstd::prelude::*;

use crate::fx::{fxadd, fxadd_of, fxdiv, fxdiv_of, fxmul, fxmul_of, fxneg, fxneg_of, fxsub,
    fxsub_of, FX_ONE};
use crate::trig::{fxcos, fxcos_of, fxsin, fxsin_of};
use crate::vec3::{v3_add_of, v3_cross_of, v3_dot_of, v3_scale_of, V3};

verus! {

/// Below this bound on `1 + n.y` (`1.0e-9`) a normal counts as antiparallel
/// to the reference axis.
pub const FX_ALIGN_EPS: i64 = 1100;

/// The rotation axis scaled by the sine of the minimal angle: the cross
/// product of the reference axis with the normal.
pub open spec fn align_axis_of(n: V3) -> V3 {
    V3 { x: n.z, y: 0, z: fxneg_of(n.x) }
}

/// Whether the normal counts as antiparallel to the reference axis.
pub open spec fn align_degenerate_of(n: V3) -> bool {
    fxadd_of(FX_ONE, n.y) < FX_ALIGN_EPS
}

/// The half-turn about the fixed `x` axis, the deterministic resolution of
/// the antiparallel case.
pub open spec fn flip_of(v: V3) -> V3 {
    V3 { x: v.x, y: fxneg_of(v.y), z: fxneg_of(v.z) }
}

/// The minimal rotation carrying the reference axis onto the unit normal
/// `n`, applied to `v`.
pub open spec fn align_of(n: V3, v: V3) -> V3 {
    if align_degenerate_of(n) {
        flip_of(v)
    } else {
        let w = align_axis_of(n);
        let k = fxdiv_of(v3_dot_of(w, v), fxadd_of(FX_ONE, n.y));
        v3_add_of(v3_add_of(v3_scale_of(v, n.y), v3_cross_of(w, v)), v3_scale_of(w, k))
    }
}

/// The inverse of [`align_of`]: the same rotation taken backwards, carrying
/// the unit normal `n` onto the reference axis, applied to `v`.
pub open spec fn align_inv_of(n: V3, v: V3) -> V3 {
    if align_degenerate_of(n) {
        flip_of(v)
    } else {
        let w = align_axis_of(n);
        let k = fxdiv_of(v3_dot_of(w, v), fxadd_of(FX_ONE, n.y));
        v3_add_of(v3_add_of(v3_scale_of(v, n.y), v3_cross_of(v, w)), v3_scale_of(w, k))
    }
}

/// Rotation about the reference axis by the heading angle `theta`, applied
/// to `v`.
pub open spec fn rot_y_of(theta: i64, v: V3) -> V3 {
    let c = fxcos_of(theta);
    let s = fxsin_of(theta);
    V3 {
        x: fxadd_of(fxmul_of(c, v.x), fxmul_of(s, v.z)),
        y: v.y,
        z: fxsub_of(fxmul_of(c, v.z), fxmul_of(s, v.x)),
    }
}

/// The minimal rotation carrying the reference axis onto `n`, applied to `v`.
pub fn align(n: V3, v: V3) -> (r: V3)
    ensures
        r == align_of(n, v),
{
    if fxadd(FX_ONE, n.y) < FX_ALIGN_EPS {
        V3 { x: v.x, y: fxneg(v.y), z: fxneg(v.z) }
    } else {
        let w = V3 { x: n.z, y: 0, z: fxneg(n.x) };
        let k = fxdiv(w.dot(v), fxadd(FX_ONE, n.y));
        v.scale(n.y).add(w.cross(v)).add(w.scale(k))
    }
}

/// The inverse of [`align`].
pub fn align_inv(n: V3, v: V3) -> (r: V3)
    ensures
        r == align_inv_of(n, v),
{
    if fxadd(FX_ONE, n.y) < FX_ALIGN_EPS {
        V3 { x: v.x, y: fxneg(v.y), z: fxneg(v.z) }
    } else {
        let w = V3 { x: n.z, y: 0, z: fxneg(n.x) };
        let k = fxdiv(w.dot(v), fxadd(FX_ONE, n.y));
        v.scale(n.y).add(v.cross(w)).add(w.scale(k))
    }
}

/// Rotation about the reference axis by `theta`, applied to `v`.
pub fn rot_y(theta: i64, v: V3) -> (r: V3)
    ensures
        r == rot_y_of(theta, v),
{
    let c = fxcos(theta);
    let s = fxsin(theta);
    V3 {
        x: fxadd(fxmul(c, v.x), fxmul(s, v.z)),
        y: v.y,
        z: fxsub(fxmul(c, v.z), fxmul(s, v.x)),
    }
}

} // verus!
