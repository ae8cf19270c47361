//! An orbiting body and its analytic propagation: orbital elements to
//! world-frame position and velocity at any simulation time.

use vstd::prelude::*;

use crate::fx::{fxadd, fxadd_of, fxdiv, fxdiv_of, fxmul, fxmul_of, fxneg, fxneg_of, fxsqrt,
    fxsqrt_of, fxsub, fxsub_of, FX_ONE, FX_TWO};
use crate::kepler::{anomaly_mean_to_true, mean_anomaly, mean_anomaly_of, mean_motion_of,
    mean_to_true_of};
use crate::rotation::{align, align_of, rot_y, rot_y_of};
use crate::trig::{fxcos, fxcos_of, fxsin, fxsin_of};
use crate::vec3::{v3_add_of, v3_scale_of, V3};

verus! {

/// An orbiting body: a sphere of the given radius on a Keplerian ellipse
/// about the fixed central mass.
///
/// `radius` doubles as the mass proxy (`mass = radius^3`, unit density);
/// `ecc` and `semi_major` shape the ellipse; `phase` is the mean anomaly at
/// time zero; `mean_motion` is `sqrt(mu / semi_major^3)`; `normal` is the
/// unit normal of the orbital plane, and `heading` turns the periapsis
/// direction about it.
#[derive(Clone, Copy, PartialEq, Eq, Structural, Debug)]
pub struct Particle {
    pub radius: i64,
    pub ecc: i64,
    pub semi_major: i64,
    pub phase: i64,
    pub mean_motion: i64,
    pub heading: i64,
    pub normal: V3,
}

/// The mass proxy of a body: its radius cubed.
pub open spec fn mass_of(radius: i64) -> i64 {
    fxmul_of(fxmul_of(radius, radius), radius)
}

/// A well-formed body: positive radius below the representation bound of
/// `2.0` (so that masses stay within the cube root's domain), an
/// eccentricity in `[0, 1)`, a positive semi-major axis, and a mean motion
/// consistent with the central mass `mu`.
pub open spec fn valid_particle(p: Particle, mu: i64) -> bool {
    &&& 0 < p.radius < FX_TWO
    &&& 0 <= p.ecc < FX_ONE
    &&& 0 < p.semi_major
    &&& p.mean_motion == mean_motion_of(p.semi_major, mu)
}

/// The true anomaly of a body at time `t`.
pub open spec fn true_anomaly_at_of(p: Particle, t: i64) -> i64 {
    mean_to_true_of(mean_anomaly_of(p.phase, p.mean_motion, t), p.ecc)
}

/// The orbital distance at true anomaly `nu`:
/// `a*(1 - e^2) / (1 + e*cos(nu))`.
pub open spec fn orbital_distance_of(a: i64, e: i64, nu: i64) -> i64 {
    fxdiv_of(
        fxmul_of(a, fxsub_of(FX_ONE, fxmul_of(e, e))),
        fxadd_of(FX_ONE, fxmul_of(e, fxcos_of(nu))),
    )
}

/// The orbit-plane position at true anomaly `nu`:
/// `(-r*cos(nu), 0, r*sin(nu))` with `r` the orbital distance.
pub open spec fn local_coord_of(a: i64, e: i64, nu: i64) -> V3 {
    let r = orbital_distance_of(a, e, nu);
    V3 { x: fxneg_of(fxmul_of(r, fxcos_of(nu))), y: 0, z: fxmul_of(r, fxsin_of(nu)) }
}

/// The orbit-plane velocity at true anomaly `nu`: radial component
/// `n*a*e*sin(nu) / sqrt(1 - e^2)` and tangential component
/// `n*a*(1 + e*cos(nu)) / sqrt(1 - e^2)`, combined with the local radial and
/// tangential unit vectors.
pub open spec fn local_velocity_of(n: i64, a: i64, e: i64, nu: i64) -> V3 {
    let term = fxdiv_of(fxmul_of(n, a), fxsqrt_of(fxsub_of(FX_ONE, fxmul_of(e, e))));
    let vr = fxmul_of(fxmul_of(term, e), fxsin_of(nu));
    let vt = fxmul_of(term, fxadd_of(FX_ONE, fxmul_of(e, fxcos_of(nu))));
    let ur = V3 { x: fxneg_of(fxcos_of(nu)), y: 0, z: fxsin_of(nu) };
    let ut = V3 { x: fxsin_of(nu), y: 0, z: fxcos_of(nu) };
    v3_add_of(v3_scale_of(ur, vr), v3_scale_of(ut, vt))
}

/// The transform from the orbit plane to the world frame: rotation about the
/// reference axis by the heading, then the minimal rotation onto the normal.
pub open spec fn to_world_of(p: Particle, v: V3) -> V3 {
    align_of(p.normal, rot_y_of(p.heading, v))
}

/// The world-frame position of body `p` at time `t`.
#[verifier::opaque]
pub open spec fn coord_of(p: Particle, t: i64) -> V3 {
    to_world_of(p, local_coord_of(p.semi_major, p.ecc, true_anomaly_at_of(p, t)))
}

/// The world-frame velocity of body `p` at time `t`.
#[verifier::opaque]
pub open spec fn velocity_of(p: Particle, t: i64) -> V3 {
    to_world_of(
        p,
        local_velocity_of(p.mean_motion, p.semi_major, p.ecc, true_anomaly_at_of(p, t)),
    )
}

impl Particle {
    /// The true anomaly of the body at time `t`.
    pub fn true_anomaly_at(&self, t: i64) -> (r: i64)
        ensures
            r == true_anomaly_at_of(*self, t),
    {
        let m = mean_anomaly(self.phase, self.mean_motion, t);
        anomaly_mean_to_true(m, self.ecc)
    }

    /// The world-frame position of the body at time `t`.
    pub fn coord(&self, t: i64) -> (r: V3)
        ensures
            r == coord_of(*self, t),
    {
        proof {
            reveal(crate::particle::coord_of);
        }
        let nu = self.true_anomaly_at(t);
        let dist = fxdiv(
            fxmul(self.semi_major, fxsub(FX_ONE, fxmul(self.ecc, self.ecc))),
            fxadd(FX_ONE, fxmul(self.ecc, fxcos(nu))),
        );
        let local = V3 {
            x: fxneg(fxmul(dist, fxcos(nu))),
            y: 0,
            z: fxmul(dist, fxsin(nu)),
        };
        align(self.normal, rot_y(self.heading, local))
    }

    /// The world-frame velocity of the body at time `t`.
    pub fn velocity(&self, t: i64) -> (r: V3)
        ensures
            r == velocity_of(*self, t),
    {
        proof {
            reveal(crate::particle::velocity_of);
        }
        let nu = self.true_anomaly_at(t);
        let term = fxdiv(
            fxmul(self.mean_motion, self.semi_major),
            fxsqrt(fxsub(FX_ONE, fxmul(self.ecc, self.ecc))),
        );
        let vr = fxmul(fxmul(term, self.ecc), fxsin(nu));
        let vt = fxmul(term, fxadd(FX_ONE, fxmul(self.ecc, fxcos(nu))));
        let ur = V3 { x: fxneg(fxcos(nu)), y: 0, z: fxsin(nu) };
        let ut = V3 { x: fxsin(nu), y: 0, z: fxcos(nu) };
        let local = ur.scale(vr).add(ut.scale(vt));
        align(self.normal, rot_y(self.heading, local))
    }
}

} // verus!
