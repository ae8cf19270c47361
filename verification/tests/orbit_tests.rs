//! Orbit kinematics: positions and velocities from orbital elements.

use galaxy::kepler::mean_motion;
use galaxy::particle::Particle;
use galaxy::vec3::V3;

const SCALE: f64 = 1099511627776.0;

fn fx(x: f64) -> i64 {
    (x * SCALE).round() as i64
}

fn fl(b: i64) -> f64 {
    (b as f64) / SCALE
}

fn norm(v: V3) -> f64 {
    (fl(v.x).powi(2) + fl(v.y).powi(2) + fl(v.z).powi(2)).sqrt()
}

fn dist(a: V3, b: V3) -> f64 {
    ((fl(a.x) - fl(b.x)).powi(2) + (fl(a.y) - fl(b.y)).powi(2) + (fl(a.z) - fl(b.z)).powi(2))
        .sqrt()
}

fn body(radius: f64, ecc: f64, sma: f64, phase: f64, heading: f64, normal: (f64, f64, f64),
    mu: f64) -> Particle {
    Particle {
        radius: fx(radius),
        ecc: fx(ecc),
        semi_major: fx(sma),
        phase: fx(phase),
        mean_motion: mean_motion(fx(sma), fx(mu)),
        heading: fx(heading),
        normal: V3 { x: fx(normal.0), y: fx(normal.1), z: fx(normal.2) },
    }
}

#[test]
fn circular_orbit_traces_fixed_radius() {
    // e = 0, a = 0.25, mu = 0.01: every position lies on a circle of radius
    // 0.25 about the center.
    let p = body(0.005, 0.0, 0.25, 1.0, 0.7, (0.0, 1.0, 0.0), 0.01);
    for k in 0..24 {
        let t = fx(0.5 * (k as f64));
        let r = norm(p.coord(t));
        assert!((r - 0.25).abs() < 1e-9, "radius {} at step {}", r, k);
    }
}

#[test]
fn circular_orbit_returns_after_one_period() {
    // After one full period 2*pi/n the body returns to its start within
    // 1e-9.
    let p = body(0.005, 0.0, 0.25, 1.0, 0.0, (0.0, 1.0, 0.0), 0.01);
    let n = fl(p.mean_motion);
    let period = 2.0 * std::f64::consts::PI / n;
    let d = dist(p.coord(fx(0.0)), p.coord(fx(period)));
    assert!(d < 1e-9, "returned {} away from the start", d);
}

#[test]
fn eccentric_orbit_is_periodic() {
    // Periodicity holds for eccentric orbits and tilted planes too.
    let tilt = (0.3_f64, 0.9_f64, -0.3064466_f64);
    let tn = (tilt.0 * tilt.0 + tilt.1 * tilt.1 + tilt.2 * tilt.2).sqrt();
    let p = body(0.005, 0.3, 0.2, 2.0, 1.3, (tilt.0 / tn, tilt.1 / tn, tilt.2 / tn), 0.01);
    let n = fl(p.mean_motion);
    let period = 2.0 * std::f64::consts::PI / n;
    for k in 1..4 {
        let t0 = 0.4 * (k as f64);
        let d = dist(p.coord(fx(t0)), p.coord(fx(t0 + period)));
        assert!(d < 1e-7, "position drifted {} over one period from t = {}", d, t0);
    }
}

#[test]
fn distance_stays_between_apsides() {
    // a*(1 - e) <= |position| <= a*(1 + e) at every sampled time.
    let p = body(0.005, 0.5, 0.25, 0.3, 2.1, (0.0, 1.0, 0.0), 0.01);
    let n = fl(p.mean_motion);
    let period = 2.0 * std::f64::consts::PI / n;
    for k in 0..50 {
        let t = fx(period * (k as f64) / 50.0);
        let r = norm(p.coord(t));
        assert!(r >= 0.25 * 0.5 - 1e-6, "distance {} below periapsis", r);
        assert!(r <= 0.25 * 1.5 + 1e-6, "distance {} above apoapsis", r);
    }
}

#[test]
fn velocity_matches_finite_difference() {
    // The analytic velocity agrees with a central difference of positions.
    let p = body(0.005, 0.3, 0.25, 1.0, 0.5, (0.0, 1.0, 0.0), 0.01);
    let t = 2.0;
    let h = 1e-4;
    let c0 = p.coord(fx(t - h));
    let c1 = p.coord(fx(t + h));
    let v = p.velocity(fx(t));
    let vx = (fl(c1.x) - fl(c0.x)) / (2.0 * h);
    let vy = (fl(c1.y) - fl(c0.y)) / (2.0 * h);
    let vz = (fl(c1.z) - fl(c0.z)) / (2.0 * h);
    assert!((fl(v.x) - vx).abs() < 1e-4, "vx {} vs {}", fl(v.x), vx);
    assert!((fl(v.y) - vy).abs() < 1e-4, "vy {} vs {}", fl(v.y), vy);
    assert!((fl(v.z) - vz).abs() < 1e-4, "vz {} vs {}", fl(v.z), vz);
}

#[test]
fn antiparallel_normal_is_resolved_deterministically() {
    // A normal opposite to the reference axis takes the fixed-axis path:
    // the same elements mirrored through the x axis, and the same radius.
    let up = body(0.005, 0.0, 0.25, 0.5, 0.0, (0.0, 1.0, 0.0), 0.01);
    let down = body(0.005, 0.0, 0.25, 0.5, 0.0, (0.0, -1.0, 0.0), 0.01);
    let cu = up.coord(fx(0.0));
    let cd = down.coord(fx(0.0));
    assert!((fl(cu.x) - fl(cd.x)).abs() < 1e-9);
    assert!((fl(cu.y) + fl(cd.y)).abs() < 1e-9);
    assert!((fl(cu.z) + fl(cd.z)).abs() < 1e-9);
    assert!((norm(cd) - 0.25).abs() < 1e-9);
}
