//! Collision resolution: merged state, conservation, orbit determination.

use galaxy::kepler::mean_motion;
use galaxy::merge::{collide, determine_orbit, merged_state};
use galaxy::particle::Particle;
use galaxy::vec3::V3;

const SCALE: f64 = 1099511627776.0;

fn fx(x: f64) -> i64 {
    (x * SCALE).round() as i64
}

fn fl(b: i64) -> f64 {
    (b as f64) / SCALE
}

fn dist(a: V3, b: V3) -> f64 {
    ((fl(a.x) - fl(b.x)).powi(2) + (fl(a.y) - fl(b.y)).powi(2) + (fl(a.z) - fl(b.z)).powi(2))
        .sqrt()
}

fn body(radius: f64, ecc: f64, sma: f64, phase: f64, heading: f64, normal: (f64, f64, f64),
    mu: f64) -> Particle {
    Particle {
        radius: fx(radius),
        ecc: fx(ecc),
        semi_major: fx(sma),
        phase: fx(phase),
        mean_motion: mean_motion(fx(sma), fx(mu)),
        heading: fx(heading),
        normal: V3 { x: fx(normal.0), y: fx(normal.1), z: fx(normal.2) },
    }
}

const MU: f64 = 0.01;
const HALF_PI: f64 = std::f64::consts::FRAC_PI_2;
const S: f64 = std::f64::consts::FRAC_1_SQRT_2;

/// Two bodies on planes tilted against each other, phased to coincide at
/// `t = 0` with velocities opposite along one axis and equal along another.
fn crossing_pair(ra: f64, rb: f64) -> (Particle, Particle) {
    let a = body(ra, 0.0, 0.25, HALF_PI, 0.0, (S, S, 0.0), MU);
    let b = body(rb, 0.0, 0.25, HALF_PI, 0.0, (S, -S, 0.0), MU);
    (a, b)
}

#[test]
fn crossing_pair_coincides_at_time_zero() {
    let (a, b) = crossing_pair(0.005, 0.005);
    let d = dist(a.coord(0), b.coord(0));
    assert!(d < 1e-9, "bodies are {} apart", d);
}

#[test]
fn merged_mass_is_conserved() {
    // mergedRadius^3 equals radius_a^3 + radius_b^3 up to the scalar's
    // rounding.
    let (a, b) = crossing_pair(0.005, 0.007);
    let ms = merged_state(&a, &b, 0);
    let merged_mass = fl(ms.radius).powi(3);
    let expect = 0.005_f64.powi(3) + 0.007_f64.powi(3);
    assert!((merged_mass - expect).abs() < 1e-9, "{} vs {}", merged_mass, expect);
}

#[test]
fn merged_momentum_is_conserved() {
    // mergedVelocity * (mass_a + mass_b) equals the summed momenta.
    let (a, b) = crossing_pair(0.005, 0.007);
    let ma = fl(a.radius).powi(3);
    let mb = fl(b.radius).powi(3);
    let va = a.velocity(0);
    let vb = b.velocity(0);
    let vm = merged_state(&a, &b, 0).velocity;
    for (m, pa, pb) in [(fl(vm.x), fl(va.x), fl(vb.x)), (fl(vm.y), fl(va.y), fl(vb.y)), (
        fl(vm.z),
        fl(va.z),
        fl(vb.z),
    )] {
        let lhs = m * (ma + mb);
        let rhs = ma * pa + mb * pb;
        assert!((lhs - rhs).abs() < 1e-9, "momentum component {} vs {}", lhs, rhs);
    }
}

#[test]
fn merged_position_is_mass_weighted_mean() {
    let (a, b) = crossing_pair(0.005, 0.007);
    let ma = fl(a.radius).powi(3);
    let mb = fl(b.radius).powi(3);
    let ca = a.coord(0);
    let cb = b.coord(0);
    let cm = merged_state(&a, &b, 0).coord;
    for (m, pa, pb) in [(fl(cm.x), fl(ca.x), fl(cb.x)), (fl(cm.y), fl(ca.y), fl(cb.y)), (
        fl(cm.z),
        fl(ca.z),
        fl(cb.z),
    )] {
        // the mass proxies sit near the bottom of the scalar format, so the
        // weighted mean carries their rounding
        let expect = (ma * pa + mb * pb) / (ma + mb);
        assert!((m - expect).abs() < 1e-5, "position component {} vs {}", m, expect);
    }
}

#[test]
fn merged_radius_of_equal_bodies() {
    // Two equal radii r0 merge to r0 * 2^(1/3).
    let (a, b) = crossing_pair(0.005, 0.005);
    let ms = merged_state(&a, &b, 0);
    let expect = 0.005 * 2.0_f64.powf(1.0 / 3.0);
    assert!((fl(ms.radius) - expect).abs() < 1e-7, "{} vs {}", fl(ms.radius), expect);
}

#[test]
fn crossing_merge_succeeds() {
    let (a, b) = crossing_pair(0.005, 0.005);
    let m = collide(&a, &b, 0, fx(MU));
    assert!(m.is_some(), "the crossing merge was unexpectedly degenerate");
    let m = m.unwrap();
    assert!(fl(m.ecc) < 1.0 && fl(m.ecc) >= 0.0);
    assert!(fl(m.semi_major) > 0.0);
}

#[test]
fn merge_is_order_independent() {
    // Identical outcomes whichever body of the pair stands first.
    let (a, b) = crossing_pair(0.005, 0.007);
    assert_eq!(collide(&a, &b, 0, fx(MU)), collide(&b, &a, 0, fx(MU)));
}

#[test]
fn opposite_velocities_trigger_degenerate_skip() {
    // Two bodies on the same circle run in opposite senses: at the meeting
    // point the merged velocity vanishes, the angular momentum is
    // near zero, and the merge is skipped.
    let a = body(0.005, 0.0, 0.25, HALF_PI, 0.0, (0.0, 1.0, 0.0), MU);
    let b = body(0.005, 0.0, 0.25, 3.0 * HALF_PI, 0.0, (0.0, -1.0, 0.0), MU);
    let d = dist(a.coord(0), b.coord(0));
    assert!(d < 1e-9, "bodies are {} apart", d);
    assert_eq!(collide(&a, &b, 0, fx(MU)), None);
}

#[test]
fn determination_round_trip_reproduces_state() {
    // Elements recovered from a propagated state vector, re-propagated at
    // the same time, reproduce the position and velocity.
    let p = body(0.005, 0.3, 0.25, 1.0, 1.3, (0.0, 1.0, 0.0), MU);
    let t = fx(0.7);
    let pos = p.coord(t);
    let vel = p.velocity(t);
    let q = determine_orbit(pos, vel, p.radius, t, fx(MU));
    assert!(q.is_some(), "determination was unexpectedly degenerate");
    let q = q.unwrap();
    let dp = dist(q.coord(t), pos);
    let dv = dist(q.velocity(t), vel);
    assert!(dp < 1e-5, "position came back {} away", dp);
    assert!(dv < 1e-4, "velocity came back {} away", dv);
}

#[test]
fn determination_round_trip_on_tilted_plane() {
    let tilt = (0.6_f64, 0.64_f64, -0.48_f64);
    let tn = (tilt.0 * tilt.0 + tilt.1 * tilt.1 + tilt.2 * tilt.2).sqrt();
    let p = body(0.005, 0.2, 0.3, 2.5, 4.0, (tilt.0 / tn, tilt.1 / tn, tilt.2 / tn), MU);
    let t = fx(1.9);
    let pos = p.coord(t);
    let vel = p.velocity(t);
    let q = determine_orbit(pos, vel, p.radius, t, fx(MU)).unwrap();
    let dp = dist(q.coord(t), pos);
    let dv = dist(q.velocity(t), vel);
    assert!(dp < 1e-5, "position came back {} away", dp);
    assert!(dv < 1e-4, "velocity came back {} away", dv);
}
