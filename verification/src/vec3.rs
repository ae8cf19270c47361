//! Three-component vectors of fixed-point scalars, with the algebra the
//! simulation needs: sums, scalings, dot and cross products, norms.

use vstd::prelude::*;

use crate::fx::{
    fxadd, fxadd_of, fxdiv, fxdiv_of, fxmul, fxmul_of, fxsqrt, fxsqrt_of, fxsub, fxsub_of,
};

verus! {

/// A world- or orbit-frame vector of fixed-point scalars.
#[derive(Clone, Copy, PartialEq, Eq, Structural, Debug)]
pub struct V3 {
    pub x: i64,
    pub y: i64,
    pub z: i64,
}

pub open spec fn v3_add_of(a: V3, b: V3) -> V3 {
    V3 { x: fxadd_of(a.x, b.x), y: fxadd_of(a.y, b.y), z: fxadd_of(a.z, b.z) }
}

pub open spec fn v3_sub_of(a: V3, b: V3) -> V3 {
    V3 { x: fxsub_of(a.x, b.x), y: fxsub_of(a.y, b.y), z: fxsub_of(a.z, b.z) }
}

pub open spec fn v3_scale_of(a: V3, k: i64) -> V3 {
    V3 { x: fxmul_of(a.x, k), y: fxmul_of(a.y, k), z: fxmul_of(a.z, k) }
}

pub open spec fn v3_div_of(a: V3, k: i64) -> V3 {
    V3 { x: fxdiv_of(a.x, k), y: fxdiv_of(a.y, k), z: fxdiv_of(a.z, k) }
}

pub open spec fn v3_dot_of(a: V3, b: V3) -> i64 {
    fxadd_of(fxadd_of(fxmul_of(a.x, b.x), fxmul_of(a.y, b.y)), fxmul_of(a.z, b.z))
}

pub open spec fn v3_cross_of(a: V3, b: V3) -> V3 {
    V3 {
        x: fxsub_of(fxmul_of(a.y, b.z), fxmul_of(a.z, b.y)),
        y: fxsub_of(fxmul_of(a.z, b.x), fxmul_of(a.x, b.z)),
        z: fxsub_of(fxmul_of(a.x, b.y), fxmul_of(a.y, b.x)),
    }
}

pub open spec fn v3_norm_of(a: V3) -> i64 {
    fxsqrt_of(v3_dot_of(a, a))
}

pub open spec fn v3_normalize_of(a: V3) -> V3 {
    v3_div_of(a, v3_norm_of(a))
}

impl V3 {
    /// Componentwise sum.
    pub fn add(self, o: V3) -> (r: V3)
        ensures
            r == v3_add_of(self, o),
    {
        V3 { x: fxadd(self.x, o.x), y: fxadd(self.y, o.y), z: fxadd(self.z, o.z) }
    }

    /// Componentwise difference.
    pub fn sub(self, o: V3) -> (r: V3)
        ensures
            r == v3_sub_of(self, o),
    {
        V3 { x: fxsub(self.x, o.x), y: fxsub(self.y, o.y), z: fxsub(self.z, o.z) }
    }

    /// Each component multiplied by the scalar `k`.
    pub fn scale(self, k: i64) -> (r: V3)
        ensures
            r == v3_scale_of(self, k),
    {
        V3 { x: fxmul(self.x, k), y: fxmul(self.y, k), z: fxmul(self.z, k) }
    }

    /// Each component divided by the scalar `k`.
    pub fn div_s(self, k: i64) -> (r: V3)
        ensures
            r == v3_div_of(self, k),
    {
        V3 { x: fxdiv(self.x, k), y: fxdiv(self.y, k), z: fxdiv(self.z, k) }
    }

    /// Dot product.
    pub fn dot(self, o: V3) -> (r: i64)
        ensures
            r == v3_dot_of(self, o),
    {
        fxadd(fxadd(fxmul(self.x, o.x), fxmul(self.y, o.y)), fxmul(self.z, o.z))
    }

    /// Cross product.
    pub fn cross(self, o: V3) -> (r: V3)
        ensures
            r == v3_cross_of(self, o),
    {
        V3 {
            x: fxsub(fxmul(self.y, o.z), fxmul(self.z, o.y)),
            y: fxsub(fxmul(self.z, o.x), fxmul(self.x, o.z)),
            z: fxsub(fxmul(self.x, o.y), fxmul(self.y, o.x)),
        }
    }

    /// Euclidean norm.
    pub fn norm(self) -> (r: i64)
        ensures
            r == v3_norm_of(self),
            r >= 0,
    {
        fxsqrt(self.dot(self))
    }

    /// The vector divided by its own norm.
    pub fn normalized(self) -> (r: V3)
        ensures
            r == v3_normalize_of(self),
    {
        let n = self.norm();
        self.div_s(n)
    }
}

} // verus!
