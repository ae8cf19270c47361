//! The simulation driver: construction, rejection, ticks, merges, and the
//! lifecycle of ids.

use galaxy::system::{BodyElements, ConfigError, GenConfig, System};
use galaxy::vec3::V3;

const SCALE: f64 = 1099511627776.0;

fn fx(x: f64) -> i64 {
    (x * SCALE).round() as i64
}

fn fl(b: i64) -> f64 {
    (b as f64) / SCALE
}

const MU: f64 = 0.01;
const HALF_PI: f64 = std::f64::consts::FRAC_PI_2;
const S: f64 = std::f64::consts::FRAC_1_SQRT_2;

fn elements(radius: f64, ecc: f64, sma: f64, phase: f64, heading: f64,
    normal: (f64, f64, f64)) -> BodyElements {
    BodyElements {
        radius: fx(radius),
        ecc: fx(ecc),
        semi_major: fx(sma),
        phase: fx(phase),
        heading: fx(heading),
        normal: V3 { x: fx(normal.0), y: fx(normal.1), z: fx(normal.2) },
    }
}

/// Two bodies phased to coincide at `t = 0`, plus one far away.
fn crossing_elements() -> Vec<BodyElements> {
    vec![
        elements(0.005, 0.0, 0.25, HALF_PI, 0.0, (S, S, 0.0)),
        elements(0.005, 0.0, 0.25, HALF_PI, 0.0, (S, -S, 0.0)),
        elements(0.005, 0.0, 0.45, 0.0, 0.0, (0.0, 1.0, 0.0)),
    ]
}

#[test]
fn construction_rejects_high_eccentricity() {
    let elems = vec![elements(0.005, 1.2, 0.25, 0.0, 0.0, (0.0, 1.0, 0.0))];
    let r = System::from_elements(&elems, fx(MU));
    assert_eq!(r.err(), Some(ConfigError::EccentricityOutOfRange));
}

#[test]
fn construction_rejects_nonpositive_radius() {
    let elems = vec![elements(0.0, 0.1, 0.25, 0.0, 0.0, (0.0, 1.0, 0.0))];
    let r = System::from_elements(&elems, fx(MU));
    assert_eq!(r.err(), Some(ConfigError::RadiusOutOfRange));
}

#[test]
fn construction_rejects_nonpositive_semi_major_axis() {
    let elems = vec![elements(0.005, 0.1, -0.25, 0.0, 0.0, (0.0, 1.0, 0.0))];
    let r = System::from_elements(&elems, fx(MU));
    assert_eq!(r.err(), Some(ConfigError::SemiMajorAxisOutOfRange));
}

#[test]
fn construction_reports_first_flaw() {
    let elems = vec![
        elements(0.005, 0.1, 0.25, 0.0, 0.0, (0.0, 1.0, 0.0)),
        elements(0.005, 1.5, 0.25, 0.0, 0.0, (0.0, 1.0, 0.0)),
        elements(-1.0, 0.1, 0.25, 0.0, 0.0, (0.0, 1.0, 0.0)),
    ];
    let r = System::from_elements(&elems, fx(MU));
    assert_eq!(r.err(), Some(ConfigError::EccentricityOutOfRange));
}

#[test]
fn construction_accepts_valid_elements() {
    let sim = System::from_elements(&crossing_elements(), fx(MU)).unwrap();
    assert_eq!(sim.size(), 3);
    assert!(sim.particle_active(0) && sim.particle_active(1) && sim.particle_active(2));
    assert!(!sim.particle_active(3));
    assert_eq!(sim.particle_radius(0), fx(0.005));
}

#[test]
fn random_construction_fills_every_slot() {
    let cfg = GenConfig {
        radius: fx(0.005),
        ecc_span: fx(0.25),
        sma_min: fx(0.125),
        sma_span: fx(0.25),
    };
    let sim = System::new(40, fx(MU), cfg).unwrap();
    assert_eq!(sim.size(), 40);
    for i in 0..40 {
        assert!(sim.particle_active(i));
        assert_eq!(sim.particle_radius(i), fx(0.005));
    }
}

#[test]
fn merge_reduces_active_count_by_one() {
    // Three bodies, two of them colliding: one tick retires exactly one id.
    let mut sim = System::from_elements(&crossing_elements(), fx(MU)).unwrap();
    assert_eq!(sim.size(), 3);
    sim.run(0);
    assert_eq!(sim.size(), 2);
    assert!(sim.particle_active(0));
    assert!(!sim.particle_active(1));
    assert!(sim.particle_active(2));
}

#[test]
fn winner_grows_and_bystander_is_untouched() {
    let mut sim = System::from_elements(&crossing_elements(), fx(MU)).unwrap();
    sim.run(0);
    let expect = 0.005 * 2.0_f64.powf(1.0 / 3.0);
    let grown = fl(sim.particle_radius(0));
    assert!((grown - expect).abs() < 1e-7, "merged radius {} vs {}", grown, expect);
    assert_eq!(sim.particle_radius(2), fx(0.005));
}

#[test]
fn retired_id_never_reactivates() {
    let mut sim = System::from_elements(&crossing_elements(), fx(MU)).unwrap();
    sim.run(0);
    assert!(!sim.particle_active(1));
    for _ in 0..5 {
        sim.run(fx(0.25));
        assert!(!sim.particle_active(1));
        assert!(sim.size() <= 2);
    }
}

#[test]
fn winner_skips_second_collision_in_same_tick() {
    // A and B merge into A'; C coincides with both, so pairs (A, C) and
    // (B, C) are also detected, but both reference a consumed id and must
    // wait for the next tick: C survives this one unchanged.
    let elems = vec![
        elements(0.005, 0.0, 0.25, HALF_PI, 0.0, (S, S, 0.0)),
        elements(0.005, 0.0, 0.25, HALF_PI, 0.0, (S, -S, 0.0)),
        elements(0.005, 0.0, 0.25, HALF_PI, 0.0, (S, S, 0.0)),
    ];
    let mut sim = System::from_elements(&elems, fx(MU)).unwrap();
    sim.run(0);
    assert_eq!(sim.size(), 2);
    assert!(sim.particle_active(0));
    assert!(!sim.particle_active(1));
    assert!(sim.particle_active(2));
    assert_eq!(sim.particle_radius(2), fx(0.005));
}

#[test]
fn random_construction_rejects_high_eccentricity_span() {
    // An eccentricity range reaching 1.2 is rejected before any body is
    // drawn.
    let cfg = GenConfig {
        radius: fx(0.005),
        ecc_span: fx(1.2),
        sma_min: fx(0.125),
        sma_span: fx(0.25),
    };
    assert!(System::new(3, fx(MU), cfg).is_none());
}

#[test]
fn random_construction_rejects_bad_radius() {
    let cfg = GenConfig {
        radius: fx(0.0),
        ecc_span: fx(0.25),
        sma_min: fx(0.125),
        sma_span: fx(0.25),
    };
    assert!(System::new(3, fx(MU), cfg).is_none());
}

#[test]
fn deferred_collision_resolves_on_the_next_tick() {
    // The pair the consumed-id rule skipped is detected again on the next
    // tick and merges then.
    let elems = vec![
        elements(0.005, 0.0, 0.25, HALF_PI, 0.0, (S, S, 0.0)),
        elements(0.005, 0.0, 0.25, HALF_PI, 0.0, (S, -S, 0.0)),
        elements(0.005, 0.0, 0.25, HALF_PI, 0.0, (S, S, 0.0)),
    ];
    let mut sim = System::from_elements(&elems, fx(MU)).unwrap();
    sim.run(0);
    assert_eq!(sim.size(), 2);
    sim.run(0);
    assert_eq!(sim.size(), 1);
    assert!(sim.particle_active(0));
    assert!(!sim.particle_active(2));
}

#[test]
fn degenerate_pair_survives_the_tick() {
    // Opposite velocities at the meeting point: near-zero angular momentum,
    // merge skipped, both bodies remain active.
    let elems = vec![
        elements(0.005, 0.0, 0.25, HALF_PI, 0.0, (0.0, 1.0, 0.0)),
        elements(0.005, 0.0, 0.25, 3.0 * HALF_PI, 0.0, (0.0, -1.0, 0.0)),
    ];
    let mut sim = System::from_elements(&elems, fx(MU)).unwrap();
    sim.run(0);
    assert_eq!(sim.size(), 2);
    assert!(sim.particle_active(0) && sim.particle_active(1));
}

#[test]
fn identical_systems_evolve_identically() {
    let mut first = System::from_elements(&crossing_elements(), fx(MU)).unwrap();
    let mut second = System::from_elements(&crossing_elements(), fx(MU)).unwrap();
    for _ in 0..4 {
        first.run(fx(0.125));
        second.run(fx(0.125));
    }
    assert_eq!(first.size(), second.size());
    for i in 0..3 {
        assert_eq!(first.particle_active(i), second.particle_active(i));
        if first.particle_active(i) {
            assert_eq!(first.particle_radius(i), second.particle_radius(i));
            let a = first.particle_coord(i);
            let b = second.particle_coord(i);
            assert_eq!((a.x, a.y, a.z), (b.x, b.y, b.z));
        }
    }
}

#[test]
fn time_accumulates_across_ticks() {
    // A body far from everything moves with simulation time accumulated
    // over several ticks exactly as with one big tick.
    let elems = vec![elements(0.005, 0.2, 0.25, 1.0, 0.5, (0.0, 1.0, 0.0))];
    let mut by_steps = System::from_elements(&elems, fx(MU)).unwrap();
    let mut at_once = System::from_elements(&elems, fx(MU)).unwrap();
    let step = fx(0.5);
    by_steps.run(step);
    by_steps.run(step);
    at_once.run(step + step);
    let a = by_steps.particle_coord(0);
    let b = at_once.particle_coord(0);
    assert_eq!((a.x, a.y, a.z), (b.x, b.y, b.z));
}
