//! Collision resolution: the inelastic, momentum-conserving merge of two
//! bodies, and orbit determination, which recovers orbital elements from the
//! merged state vector.

use vstd::prelude::*;

use crate::fx::{fxadd, fxadd_of, fxcbrt, fxcbrt_of, fxdiv, fxdiv_of, fxmul, fxmul_of, fxneg,
    fxneg_of, fxrem2pi, fxrem2pi_of, fxsub, fxsub_of, FX_ONE, FX_TWO, FX_TWO_PI};
use crate::kepler::{anomaly_true_to_mean, mean_motion, mean_motion_of, true_to_mean_of};
use crate::particle::{mass_of, valid_particle, Particle};
use crate::rotation::{align_inv, align_inv_of};
use crate::trig::{fxacos, fxacos_of, fxatan2, fxatan2_of, fxcos, fxcos_of, fxsin, fxsin_of};
use crate::vec3::{v3_add_of, v3_cross_of, v3_div_of, v3_dot_of, v3_norm_of, v3_normalize_of,
    v3_scale_of, v3_sub_of, V3};

verus! {

/// Below this norm (`1.0e-9`) the angular momentum or the position of a
/// merged state counts as degenerate, and the merge is skipped.
pub const FX_DEGENERATE_EPS: i64 = 1100;

/// The radius of the merged body: the cube root of the summed mass proxies.
pub open spec fn merged_radius_of(ra: i64, rb: i64) -> i64 {
    fxcbrt_of(fxadd_of(mass_of(ra), mass_of(rb)))
}

/// The mass-weighted mean of the two positions at time `t`.
pub open spec fn merged_coord_of(a: Particle, b: Particle, t: i64) -> V3 {
    let ma = mass_of(a.radius);
    let mb = mass_of(b.radius);
    v3_div_of(
        v3_add_of(
            v3_scale_of(crate::particle::coord_of(a, t), ma),
            v3_scale_of(crate::particle::coord_of(b, t), mb),
        ),
        fxadd_of(ma, mb),
    )
}

/// The merged velocity: the summed momenta divided by the summed mass.
pub open spec fn merged_velocity_of(a: Particle, b: Particle, t: i64) -> V3 {
    let ma = mass_of(a.radius);
    let mb = mass_of(b.radius);
    v3_div_of(
        v3_add_of(
            v3_scale_of(crate::particle::velocity_of(a, t), ma),
            v3_scale_of(crate::particle::velocity_of(b, t), mb),
        ),
        fxadd_of(ma, mb),
    )
}

/// The state of a freshly merged body, before orbit determination.
#[derive(Clone, Copy, PartialEq, Eq, Structural, Debug)]
pub struct MergedState {
    pub radius: i64,
    pub coord: V3,
    pub velocity: V3,
}

/// The orbital elements recovered from the state vector `(pos, vel)` at time
/// `t` about a center of gravitational parameter `mu`, for a body of the
/// given radius; `None` where determination is degenerate (near-zero angular
/// momentum or position) or where the recovered elements leave the
/// bound-orbit domain.
#[verifier::opaque]
pub open spec fn determine_of(pos: V3, vel: V3, radius: i64, t: i64, mu: i64) -> Option<
    Particle,
> {
    let h = v3_cross_of(pos, vel);
    let hn = v3_norm_of(h);
    let pn = v3_norm_of(pos);
    if hn < FX_DEGENERATE_EPS || pn < FX_DEGENERATE_EPS {
        None
    } else {
        let normal = v3_div_of(h, hn);
        let lp = align_inv_of(normal, pos);
        let lv = align_inv_of(normal, vel);
        let ev = v3_sub_of(
            v3_div_of(v3_cross_of(lv, v3_cross_of(lp, lv)), mu),
            v3_normalize_of(lp),
        );
        let e = v3_norm_of(ev);
        let lpn = v3_norm_of(lp);
        let cos_nu = fxdiv_of(fxdiv_of(v3_dot_of(ev, lp), e), lpn);
        let nu0 = fxacos_of(cos_nu);
        let nu = if v3_dot_of(lp, lv) < 0 {
            fxsub_of(FX_TWO_PI, nu0)
        } else {
            nu0
        };
        let a = fxdiv_of(
            fxmul_of(lpn, fxadd_of(FX_ONE, fxmul_of(e, fxcos_of(nu)))),
            fxsub_of(FX_ONE, fxmul_of(e, e)),
        );
        if !(0 < radius && radius < FX_TWO && 0 <= e && e < FX_ONE && 0 < a) {
            None
        } else {
            let n = mean_motion_of(a, mu);
            let m = true_to_mean_of(nu, e);
            let phase = fxrem2pi_of(fxsub_of(m, fxmul_of(n, t)));
            let dist = fxdiv_of(
                fxmul_of(a, fxsub_of(FX_ONE, fxmul_of(e, e))),
                fxadd_of(FX_ONE, fxmul_of(e, fxcos_of(nu))),
            );
            let lc = V3 {
                x: fxneg_of(fxmul_of(dist, fxcos_of(nu))),
                y: 0,
                z: fxmul_of(dist, fxsin_of(nu)),
            };
            let heading = fxrem2pi_of(fxatan2_of(v3_cross_of(lc, lp).y, v3_dot_of(lc, lp)));
            Some(
                Particle {
                    radius,
                    ecc: e,
                    semi_major: a,
                    phase,
                    mean_motion: n,
                    heading,
                    normal,
                },
            )
        }
    }
}

/// The outcome of merging bodies `a` and `b` at time `t`: the orbital
/// elements determined from the merged state, or `None` where determination
/// fails and the merge is skipped.
#[verifier::opaque]
pub open spec fn collide_of(a: Particle, b: Particle, t: i64, mu: i64) -> Option<Particle> {
    determine_of(
        merged_coord_of(a, b, t),
        merged_velocity_of(a, b, t),
        merged_radius_of(a.radius, b.radius),
        t,
        mu,
    )
}

/// A body produced by orbit determination is well formed: every validity
/// condition stands in the guard of the successful branch.
pub proof fn lemma_determine_valid(pos: V3, vel: V3, radius: i64, t: i64, mu: i64)
    ensures
        determine_of(pos, vel, radius, t, mu) is Some ==> valid_particle(
            determine_of(pos, vel, radius, t, mu)->Some_0,
            mu,
        ),
{
    reveal(crate::merge::determine_of);
}

/// A body produced by a merge is well formed.
pub proof fn lemma_collide_valid(a: Particle, b: Particle, t: i64, mu: i64)
    ensures
        collide_of(a, b, t, mu) is Some ==> valid_particle(collide_of(a, b, t, mu)->Some_0, mu),
{
    reveal(crate::merge::collide_of);
    lemma_determine_valid(
        merged_coord_of(a, b, t),
        merged_velocity_of(a, b, t),
        merged_radius_of(a.radius, b.radius),
        t,
        mu,
    );
}

/// Computes the merged state of two colliding bodies at time `t`: summed
/// mass, mass-weighted position, and momentum-conserving velocity.
pub fn merged_state(a: &Particle, b: &Particle, t: i64) -> (r: MergedState)
    ensures
        r.radius == merged_radius_of(a.radius, b.radius),
        r.coord == merged_coord_of(*a, *b, t),
        r.velocity == merged_velocity_of(*a, *b, t),
{
    let ma = fxmul(fxmul(a.radius, a.radius), a.radius);
    let mb = fxmul(fxmul(b.radius, b.radius), b.radius);
    let mass = fxadd(ma, mb);
    let radius = fxcbrt(mass);
    let ca = a.coord(t);
    let cb = b.coord(t);
    let coord = ca.scale(ma).add(cb.scale(mb)).div_s(mass);
    let va = a.velocity(t);
    let vb = b.velocity(t);
    let velocity = va.scale(ma).add(vb.scale(mb)).div_s(mass);
    MergedState { radius, coord, velocity }
}

/// Recovers orbital elements from a state vector, or reports a degenerate or
/// out-of-domain determination with `None`.
pub fn determine_orbit(pos: V3, vel: V3, radius: i64, t: i64, mu: i64) -> (r: Option<Particle>)
    ensures
        r == determine_of(pos, vel, radius, t, mu),
{
    proof {
        reveal(crate::merge::determine_of);
    }
    let h = pos.cross(vel);
    let hn = h.norm();
    let pn = pos.norm();
    if hn < FX_DEGENERATE_EPS || pn < FX_DEGENERATE_EPS {
        return None;
    }
    let normal = h.div_s(hn);
    let lp = align_inv(normal, pos);
    let lv = align_inv(normal, vel);
    let ev = lv.cross(lp.cross(lv)).div_s(mu).sub(lp.normalized());
    let e = ev.norm();
    let lpn = lp.norm();
    let cos_nu = fxdiv(fxdiv(ev.dot(lp), e), lpn);
    let nu0 = fxacos(cos_nu);
    let nu = if lp.dot(lv) < 0 {
        fxsub(FX_TWO_PI, nu0)
    } else {
        nu0
    };
    let a = fxdiv(
        fxmul(lpn, fxadd(FX_ONE, fxmul(e, fxcos(nu)))),
        fxsub(FX_ONE, fxmul(e, e)),
    );
    if !(0 < radius && radius < FX_TWO && 0 <= e && e < FX_ONE && 0 < a) {
        return None;
    }
    let n = mean_motion(a, mu);
    let m = anomaly_true_to_mean(nu, e);
    let phase = fxrem2pi(fxsub(m, fxmul(n, t)));
    let dist = fxdiv(
        fxmul(a, fxsub(FX_ONE, fxmul(e, e))),
        fxadd(FX_ONE, fxmul(e, fxcos(nu))),
    );
    let lc = V3 { x: fxneg(fxmul(dist, fxcos(nu))), y: 0, z: fxmul(dist, fxsin(nu)) };
    let heading = fxrem2pi(fxatan2(lc.cross(lp).y, lc.dot(lp)));
    Some(Particle { radius, ecc: e, semi_major: a, phase, mean_motion: n, heading, normal })
}

/// Merges bodies `a` and `b` at time `t`: the merged state is computed, and
/// orbit determination recovers the new elements, or `None` skips the merge.
pub fn collide(a: &Particle, b: &Particle, t: i64, mu: i64) -> (r: Option<Particle>)
    ensures
        r == collide_of(*a, *b, t, mu),
{
    proof {
        reveal(crate::merge::collide_of);
    }
    let ms = merged_state(a, b, t);
    determine_orbit(ms.coord, ms.velocity, ms.radius, t, mu)
}

} // verus!
