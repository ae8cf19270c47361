//! Kepler's equation and the anomaly conversions: mean anomaly to eccentric
//! anomaly by a capped Newton iteration, eccentric to true anomaly, true
//! anomaly back to mean anomaly, and the mean motion of an orbit.

use vstd::prelude::*;

use crate::fx::{fxadd, fxadd_of, fxdiv, fxdiv_of, fxmul, fxmul_of, fxrem2pi, fxrem2pi_of,
    fxsqrt, fxsqrt_of, fxsub, fxsub_of, FX_HALF, FX_ONE, FX_PI, FX_TWO};
use crate::trig::{fxatan, fxatan_of, fxcos, fxcos_of, fxsin, fxsin_of};

verus! {

/// Eccentricities at or above this bound (`0.8`) start the Newton iteration
/// from pi instead of the mean anomaly.
pub const FX_HIGH_ECC: i64 = 879609302221;

/// The iteration cap of the Kepler solver.
pub const KEPLER_CAP: usize = 50;

/// The convergence tolerance of the Kepler solver, as a count of scalar
/// units: an update of magnitude below `1.0e-10` is exactly one whose
/// magnitude in units lies below `110`, since `1.0e-10 * 2^40` is just short
/// of `110`.
pub const FX_KEPLER_TOL: i64 = 110;

/// The mean motion `sqrt(mu / a^3)` of an orbit with semi-major axis `a`
/// about a center with gravitational parameter `mu`.
pub open spec fn mean_motion_of(a: i64, mu: i64) -> i64 {
    fxsqrt_of(fxdiv_of(mu, fxmul_of(fxmul_of(a, a), a)))
}

/// The mean anomaly at time `t` of a body with phase `phase` at time zero
/// and mean motion `n`, normalized into `[0, 2*pi)`.
pub open spec fn mean_anomaly_of(phase: i64, n: i64, t: i64) -> i64 {
    fxrem2pi_of(fxadd_of(phase, fxmul_of(n, t)))
}

/// The starting estimate of the Newton iteration: the mean anomaly itself,
/// or pi for highly eccentric orbits, where convergence from the mean
/// anomaly stalls near apoapsis.
pub open spec fn kepler_init_of(m: i64, e: i64) -> i64 {
    if e < FX_HIGH_ECC {
        m
    } else {
        FX_PI
    }
}

/// One Newton step on `f(E) = E - e*sin(E) - m`.
pub open spec fn kepler_step_of(m: i64, e: i64, ek: i64) -> i64 {
    fxsub_of(
        ek,
        fxdiv_of(
            fxsub_of(fxsub_of(ek, fxmul_of(e, fxsin_of(ek))), m),
            fxsub_of(FX_ONE, fxmul_of(e, fxcos_of(ek))),
        ),
    )
}

/// The Newton iteration, stopped when the update's magnitude falls below
/// the tolerance or when the fuel runs out; the newest estimate is returned
/// either way.
pub open spec fn kepler_iter_of(m: i64, e: i64, ek: i64, fuel: nat) -> i64
    decreases fuel,
{
    if fuel == 0 {
        ek
    } else {
        let next = kepler_step_of(m, e, ek);
        let d = fxsub_of(next, ek);
        if -FX_KEPLER_TOL < d < FX_KEPLER_TOL {
            next
        } else {
            kepler_iter_of(m, e, next, (fuel - 1) as nat)
        }
    }
}

/// The eccentric anomaly returned for mean anomaly `m` and eccentricity `e`:
/// the capped Newton iteration from the standard starting estimate. If the
/// cap is reached the best available estimate stands, with no failure
/// signalled.
pub open spec fn kepler_solve_of(m: i64, e: i64) -> i64 {
    kepler_iter_of(m, e, kepler_init_of(m, e), KEPLER_CAP as nat)
}

/// The true anomaly for eccentric anomaly `ec` and eccentricity `e`:
/// `ec + 2*atan(beta*sin(ec) / (1 - beta*cos(ec)))` with
/// `beta = e / (1 + sqrt(1 - e^2))`.
pub open spec fn ecc_to_true_of(ec: i64, e: i64) -> i64 {
    let beta = fxdiv_of(e, fxadd_of(FX_ONE, fxsqrt_of(fxsub_of(FX_ONE, fxmul_of(e, e)))));
    fxadd_of(
        ec,
        fxmul_of(
            FX_TWO,
            fxatan_of(
                fxdiv_of(
                    fxmul_of(beta, fxsin_of(ec)),
                    fxsub_of(FX_ONE, fxmul_of(beta, fxcos_of(ec))),
                ),
            ),
        ),
    )
}

/// The true anomaly for mean anomaly `m` and eccentricity `e`.
pub open spec fn mean_to_true_of(m: i64, e: i64) -> i64 {
    ecc_to_true_of(kepler_solve_of(m, e), e)
}

/// The mean anomaly for true anomaly `nu` and eccentricity `e`, closed form:
/// `E = 2*atan(sqrt((1 - e)/(1 + e)) * tan(nu/2))`, then `M = E - e*sin(E)`.
pub open spec fn true_to_mean_of(nu: i64, e: i64) -> i64 {
    let half = fxmul_of(nu, FX_HALF);
    let tan_half = fxdiv_of(fxsin_of(half), fxcos_of(half));
    let ec = fxmul_of(
        FX_TWO,
        fxatan_of(
            fxmul_of(fxsqrt_of(fxdiv_of(fxsub_of(FX_ONE, e), fxadd_of(FX_ONE, e))), tan_half),
        ),
    );
    fxsub_of(ec, fxmul_of(e, fxsin_of(ec)))
}

/// The mean motion `sqrt(mu / a^3)`.
pub fn mean_motion(a: i64, mu: i64) -> (r: i64)
    ensures
        r == mean_motion_of(a, mu),
{
    fxsqrt(fxdiv(mu, fxmul(fxmul(a, a), a)))
}

/// The mean anomaly at time `t`, normalized into `[0, 2*pi)`.
pub fn mean_anomaly(phase: i64, n: i64, t: i64) -> (r: i64)
    ensures
        r == mean_anomaly_of(phase, n, t),
{
    fxrem2pi(fxadd(phase, fxmul(n, t)))
}

fn kepler_step(m: i64, e: i64, ek: i64) -> (r: i64)
    ensures
        r == kepler_step_of(m, e, ek),
{
    let f = fxsub(fxsub(ek, fxmul(e, fxsin(ek))), m);
    let fp = fxsub(FX_ONE, fxmul(e, fxcos(ek)));
    fxsub(ek, fxdiv(f, fp))
}

/// Solves Kepler's equation `E - e*sin(E) = m` for the eccentric anomaly by
/// Newton iteration, stopping when the update's magnitude falls below
/// `1.0e-10` or after the cap.
pub fn anomaly_mean_to_eccentric(m: i64, e: i64) -> (r: i64)
    ensures
        r == kepler_solve_of(m, e),
{
    let mut ek: i64 = if e < FX_HIGH_ECC {
        m
    } else {
        FX_PI
    };
    let mut i: usize = 0;
    while i < KEPLER_CAP
        invariant
            i <= KEPLER_CAP,
            kepler_iter_of(m, e, ek, (KEPLER_CAP - i) as nat) == kepler_solve_of(m, e),
        decreases KEPLER_CAP - i,
    {
        let next = kepler_step(m, e, ek);
        let d = fxsub(next, ek);
        if -FX_KEPLER_TOL < d && d < FX_KEPLER_TOL {
            proof {
                assert(kepler_iter_of(m, e, ek, (KEPLER_CAP - i) as nat) == next);
            }
            return next;
        }
        proof {
            assert(kepler_iter_of(m, e, ek, (KEPLER_CAP - i) as nat) == kepler_iter_of(
                m,
                e,
                kepler_step_of(m, e, ek),
                (KEPLER_CAP - i - 1) as nat,
            ));
        }
        ek = next;
        i = i + 1;
    }
    ek
}

/// The true anomaly for an eccentric anomaly and an eccentricity.
pub fn anomaly_eccentric_to_true(ec: i64, e: i64) -> (r: i64)
    ensures
        r == ecc_to_true_of(ec, e),
{
    let beta = fxdiv(e, fxadd(FX_ONE, fxsqrt(fxsub(FX_ONE, fxmul(e, e)))));
    fxadd(
        ec,
        fxmul(
            FX_TWO,
            fxatan(fxdiv(fxmul(beta, fxsin(ec)), fxsub(FX_ONE, fxmul(beta, fxcos(ec))))),
        ),
    )
}

/// The true anomaly for a mean anomaly and an eccentricity.
pub fn anomaly_mean_to_true(m: i64, e: i64) -> (r: i64)
    ensures
        r == mean_to_true_of(m, e),
{
    let ec = anomaly_mean_to_eccentric(m, e);
    anomaly_eccentric_to_true(ec, e)
}

/// The mean anomaly for a true anomaly and an eccentricity, closed form.
pub fn anomaly_true_to_mean(nu: i64, e: i64) -> (r: i64)
    ensures
        r == true_to_mean_of(nu, e),
{
    let half = fxmul(nu, FX_HALF);
    let tan_half = fxdiv(fxsin(half), fxcos(half));
    let ec = fxmul(
        FX_TWO,
        fxatan(fxmul(fxsqrt(fxdiv(fxsub(FX_ONE, e), fxadd(FX_ONE, e))), tan_half)),
    );
    fxsub(ec, fxmul(e, fxsin(ec)))
}

} // verus!
