//! The simulation driver: the registry of active bodies, per-tick collision
//! detection, and the commit of merges in deterministic pair order.
//!
//! Bodies live in an arena of slots; a body's id is its slot index, an id is
//! never reused, and a retired body leaves a vacant slot behind. One call of
//! [`System::run`] advances the simulation time, detects every overlapping
//! pair at the new time in ascending id order, and resolves each pair whose
//! two ids have not already been consumed by an earlier merge of the same
//! tick; the body with the lower id keeps its slot, the other is retired.

use vstd::prelude::*;

use crate::fx::{fxadd, fxadd_of, fxmul, fxsub, lemma_fxmul_unit, FX_HALF, FX_ONE, FX_TWO,
    FX_TWO_PI};
use crate::kepler::{mean_motion, mean_motion_of};
use crate::merge::{collide, collide_of};
use crate::particle::{coord_of, valid_particle, Particle};
use crate::vec3::{v3_add_of, v3_norm_of, v3_normalize_of, v3_sub_of, V3};

verus! {

/// A rejected construction: the offending range of the first invalid body.
#[derive(Clone, Copy, PartialEq, Eq, Structural, Debug)]
pub enum ConfigError {
    /// The radius was not strictly between zero and the representation
    /// bound of `2.0`.
    RadiusOutOfRange,
    /// The eccentricity was outside `[0, 1)`.
    EccentricityOutOfRange,
    /// The semi-major axis was not positive.
    SemiMajorAxisOutOfRange,
}

/// The orbital elements handed to construction; the mean motion is derived
/// from them and the central mass.
#[derive(Clone, Copy, PartialEq, Eq, Structural, Debug)]
pub struct BodyElements {
    pub radius: i64,
    pub ecc: i64,
    pub semi_major: i64,
    pub phase: i64,
    pub heading: i64,
    /// The orbital-plane normal, expected to be a unit vector.
    pub normal: V3,
}

/// The ranges of the random element distribution used by [`System::new`]:
/// eccentricities are uniform over `[0, ecc_span)`, semi-major axes over
/// `[sma_min, sma_min + sma_span)`, and every body gets the same radius.
#[derive(Clone, Copy, PartialEq, Eq, Structural, Debug)]
pub struct GenConfig {
    pub radius: i64,
    pub ecc_span: i64,
    pub sma_min: i64,
    pub sma_span: i64,
}

/// A valid generation configuration, the exact condition under which random
/// construction succeeds: a radius in the valid domain, an eccentricity span
/// within `[0, 1]`, a positive least semi-major axis, and a non-negative
/// semi-major-axis span. No draw from such ranges can produce an invalid
/// body; anything else is rejected before the first draw.
pub open spec fn gen_config_ok(cfg: GenConfig) -> bool {
    &&& 0 < cfg.radius < FX_TWO
    &&& 0 <= cfg.ecc_span <= FX_ONE
    &&& 0 < cfg.sma_min
    &&& 0 <= cfg.sma_span
}

/// The orbit normal a jitter draw produces: the reference axis plus the
/// jitter, normalized.
pub open spec fn jittered_normal_of(j: V3) -> V3 {
    v3_normalize_of(v3_add_of(V3 { x: 0, y: FX_ONE, z: 0 }, j))
}

/// What holds of every randomly generated body, whatever the draws were: it
/// is well formed; it carries the configured radius; its eccentricity lies
/// in `[0, ecc_span)` (degenerating to zero for a zero span) and its
/// semi-major axis in `[sma_min, sma_min + sma_span)` (the upper end closed
/// only where the sum saturates the scalar range); its phase and heading lie
/// inside one turn; and its orbit normal is the normalized sum of the
/// reference axis and a jitter with components drawn from `[-1/2, 1/2)`.
pub open spec fn generated_body_ok(p: Particle, cfg: GenConfig, mu: i64) -> bool {
    &&& valid_particle(p, mu)
    &&& p.radius == cfg.radius
    &&& cfg.ecc_span >= 0 ==> p.ecc <= cfg.ecc_span
    &&& cfg.ecc_span > 0 ==> p.ecc < cfg.ecc_span
    &&& cfg.sma_span >= 0 ==> cfg.sma_min <= p.semi_major <= fxadd_of(
        cfg.sma_min,
        cfg.sma_span,
    )
    &&& (cfg.sma_span > 0 && cfg.sma_min + cfg.sma_span <= i64::MAX) ==> p.semi_major
        < fxadd_of(cfg.sma_min, cfg.sma_span)
    &&& 0 <= p.phase < FX_TWO_PI
    &&& 0 <= p.heading < FX_TWO_PI
    &&& exists|j: V3|
        -FX_HALF <= j.x < FX_HALF && -FX_HALF <= j.y < FX_HALF && -FX_HALF <= j.z < FX_HALF
            && p.normal == #[trigger] jittered_normal_of(j)
}

/// What disqualifies a set of elements, if anything; checks run in the order
/// radius, eccentricity, semi-major axis.
pub open spec fn flaw_of(el: BodyElements) -> Option<ConfigError> {
    if !(0 < el.radius < FX_TWO) {
        Some(ConfigError::RadiusOutOfRange)
    } else if !(0 <= el.ecc < FX_ONE) {
        Some(ConfigError::EccentricityOutOfRange)
    } else if !(0 < el.semi_major) {
        Some(ConfigError::SemiMajorAxisOutOfRange)
    } else {
        None
    }
}

/// The first flaw among a sequence of element sets.
pub open spec fn first_flaw_of(elems: Seq<BodyElements>) -> Option<ConfigError>
    decreases elems.len(),
{
    if elems.len() == 0 {
        None
    } else {
        match flaw_of(elems[0]) {
            Some(f) => Some(f),
            None => first_flaw_of(elems.drop_first()),
        }
    }
}

/// The body built from a set of elements about a center of gravitational
/// parameter `mu`.
pub open spec fn particle_from_of(el: BodyElements, mu: i64) -> Particle {
    Particle {
        radius: el.radius,
        ecc: el.ecc,
        semi_major: el.semi_major,
        phase: el.phase,
        mean_motion: mean_motion_of(el.semi_major, mu),
        heading: el.heading,
        normal: el.normal,
    }
}

/// The number of occupied slots.
pub open spec fn count_active_of(s: Seq<Option<Particle>>) -> nat
    decreases s.len(),
{
    if s.len() == 0 {
        0
    } else {
        count_active_of(s.drop_last()) + (if s.last() is Some {
            1nat
        } else {
            0nat
        })
    }
}

/// Whether the volumes of two bodies overlap at time `t`: the distance of
/// their positions lies below the sum of their radii.
#[verifier::opaque]
pub open spec fn overlap_of(p: Particle, q: Particle, t: i64) -> bool {
    v3_norm_of(v3_sub_of(coord_of(p, t), coord_of(q, t))) < fxadd_of(p.radius, q.radius)
}

/// The overlapping pairs among slots `(i, j)` with `i < j`, from position
/// `(i, j)` onward, in ascending lexicographic order.
pub open spec fn pairs_from_of(s: Seq<Option<Particle>>, t: i64, i: nat, j: nat) -> Seq<
    (usize, usize),
>
    decreases s.len() - i, s.len() - j,
{
    if i >= s.len() {
        Seq::empty()
    } else if j >= s.len() {
        pairs_from_of(s, t, i + 1, i + 2)
    } else {
        let rest = pairs_from_of(s, t, i, j + 1);
        if s[i as int] is Some && s[j as int] is Some && overlap_of(
            s[i as int]->Some_0,
            s[j as int]->Some_0,
            t,
        ) {
            seq![(i as usize, j as usize)] + rest
        } else {
            rest
        }
    }
}

/// Every unordered pair of distinct occupied slots whose bodies overlap at
/// time `t`, lower id first within a pair, pairs in ascending lexicographic
/// order.
pub open spec fn detect_of(s: Seq<Option<Particle>>, t: i64) -> Seq<(usize, usize)> {
    pairs_from_of(s, t, 0, 1)
}

/// The slots after resolving the listed pairs in order at time `t`: a pair
/// is merged only if neither id was consumed by an earlier merge of the same
/// tick and both are still active; on a merge the lower id keeps its slot
/// with the merged body, the higher id is retired, and both count as
/// consumed. A degenerate determination leaves the pair untouched and
/// unconsumed.
pub open spec fn apply_pairs_of(
    s: Seq<Option<Particle>>,
    consumed: Seq<bool>,
    pairs: Seq<(usize, usize)>,
    t: i64,
    mu: i64,
) -> Seq<Option<Particle>>
    decreases pairs.len(),
{
    if pairs.len() == 0 {
        s
    } else {
        let a = pairs[0].0 as int;
        let b = pairs[0].1 as int;
        if 0 <= a < s.len() && 0 <= b < s.len() && a < consumed.len() && b < consumed.len()
            && !consumed[a] && !consumed[b] && s[a] is Some && s[b] is Some {
            match collide_of(s[a]->Some_0, s[b]->Some_0, t, mu) {
                Some(m) => apply_pairs_of(
                    s.update(a, Some(m)).update(b, None),
                    consumed.update(a, true).update(b, true),
                    pairs.drop_first(),
                    t,
                    mu,
                ),
                None => apply_pairs_of(s, consumed, pairs.drop_first(), t, mu),
            }
        } else {
            apply_pairs_of(s, consumed, pairs.drop_first(), t, mu)
        }
    }
}

/// The number of merges that resolving the listed pairs commits: those
/// reaching two distinct, unconsumed, active ids whose orbit determination
/// succeeds.
pub open spec fn committed_merges_of(
    s: Seq<Option<Particle>>,
    consumed: Seq<bool>,
    pairs: Seq<(usize, usize)>,
    t: i64,
    mu: i64,
) -> nat
    decreases pairs.len(),
{
    if pairs.len() == 0 {
        0
    } else {
        let a = pairs[0].0 as int;
        let b = pairs[0].1 as int;
        if 0 <= a < s.len() && 0 <= b < s.len() && a < consumed.len() && b < consumed.len()
            && !consumed[a] && !consumed[b] && s[a] is Some && s[b] is Some {
            match collide_of(s[a]->Some_0, s[b]->Some_0, t, mu) {
                Some(m) => 1 + committed_merges_of(
                    s.update(a, Some(m)).update(b, None),
                    consumed.update(a, true).update(b, true),
                    pairs.drop_first(),
                    t,
                    mu,
                ),
                None => committed_merges_of(s, consumed, pairs.drop_first(), t, mu),
            }
        } else {
            committed_merges_of(s, consumed, pairs.drop_first(), t, mu)
        }
    }
}

/// The world-frame positions of the occupied slots at time `t`.
fn positions(slots: &Vec<Option<Particle>>, t: i64) -> (r: Vec<Option<V3>>)
    ensures
        r@.len() == slots@.len(),
        forall|i: int|
            0 <= i < slots@.len() ==> r@[i] == (match slots@[i] {
                Some(p) => Some(coord_of(p, t)),
                None => None,
            }),
{
    let mut r: Vec<Option<V3>> = Vec::new();
    let mut i: usize = 0;
    while i < slots.len()
        invariant
            i <= slots@.len(),
            r@.len() == i,
            forall|k: int|
                0 <= k < i ==> r@[k] == (match slots@[k] {
                    Some(p) => Some(coord_of(p, t)),
                    None => None,
                }),
        decreases slots@.len() - i,
    {
        match &slots[i] {
            Some(p) => {
                let c = p.coord(t);
                r.push(Some(c));
            },
            None => {
                r.push(None);
            },
        }
        i = i + 1;
    }
    r
}

/// Detects every pair of distinct active bodies whose volumes overlap at
/// time `t`, in ascending id order.
pub fn detect(slots: &Vec<Option<Particle>>, t: i64) -> (r: Vec<(usize, usize)>)
    ensures
        r@ == detect_of(slots@, t),
        forall|k: int|
            0 <= k < r@.len() ==> #[trigger] r@[k].0 < slots@.len() && r@[k].1 < slots@.len(),
{
    let ghost target = detect_of(slots@, t);
    let pos = positions(slots, t);
    let mut r: Vec<(usize, usize)> = Vec::new();
    let n = slots.len();
    let mut i: usize = 0;
    proof {
        assert(r@ + pairs_from_of(slots@, t, 0nat, 1nat) =~= target);
    }
    while i < n
        invariant
            n == slots@.len(),
            i <= n,
            pos@.len() == n,
            forall|k: int|
                0 <= k < n ==> pos@[k] == (match slots@[k] {
                    Some(p) => Some(coord_of(p, t)),
                    None => None,
                }),
            r@ + pairs_from_of(slots@, t, i as nat, (i + 1) as nat) == target,
            forall|k: int|
                0 <= k < r@.len() ==> #[trigger] r@[k].0 < slots@.len() && r@[k].1
                    < slots@.len(),
        decreases n - i,
    {
        let mut j: usize = i + 1;
        while j < n
            invariant
                n == slots@.len(),
                i < n,
                i + 1 <= j <= n,
                pos@.len() == n,
                forall|k: int|
                    0 <= k < n ==> pos@[k] == (match slots@[k] {
                        Some(p) => Some(coord_of(p, t)),
                        None => None,
                    }),
                r@ + pairs_from_of(slots@, t, i as nat, j as nat) == target,
                forall|k: int|
                    0 <= k < r@.len() ==> #[trigger] r@[k].0 < slots@.len() && r@[k].1
                        < slots@.len(),
            decreases n - j,
        {
            if let (Some(pi), Some(pj)) = (&slots[i], &slots[j]) {
                let ci = pos[i].unwrap();
                let cj = pos[j].unwrap();
                let d = ci.sub(cj).norm();
                proof {
                    reveal(crate::system::overlap_of);
                }
                if d < fxadd(pi.radius, pj.radius) {
                    proof {
                        assert(pairs_from_of(slots@, t, i as nat, j as nat) == seq![
                            (i as usize, j as usize),
                        ] + pairs_from_of(slots@, t, i as nat, (j + 1) as nat));
                        assert((r@ + seq![(i as usize, j as usize)]) + pairs_from_of(
                            slots@,
                            t,
                            i as nat,
                            (j + 1) as nat,
                        ) =~= r@ + (seq![(i as usize, j as usize)] + pairs_from_of(
                            slots@,
                            t,
                            i as nat,
                            (j + 1) as nat,
                        )));
                    }
                    r.push((i, j));
                } else {
                    proof {
                        assert(pairs_from_of(slots@, t, i as nat, j as nat) == pairs_from_of(
                            slots@,
                            t,
                            i as nat,
                            (j + 1) as nat,
                        ));
                    }
                }
            } else {
                proof {
                    assert(pairs_from_of(slots@, t, i as nat, j as nat) == pairs_from_of(
                        slots@,
                        t,
                        i as nat,
                        (j + 1) as nat,
                    ));
                }
            }
            j = j + 1;
        }
        proof {
            assert(pairs_from_of(slots@, t, i as nat, n as nat) == pairs_from_of(
                slots@,
                t,
                (i + 1) as nat,
                (i + 2) as nat,
            ));
        }
        i = i + 1;
    }
    proof {
        assert(pairs_from_of(slots@, t, n as nat, (n + 1) as nat) =~= Seq::<
            (usize, usize),
        >::empty());
        assert(r@ + Seq::<(usize, usize)>::empty() =~= r@);
    }
    r
}

/// Relies on `rand::random::<u64>()`: a draw from the thread-local
/// generator, uniform over all of `u64`. The result depends on the
/// generator's state, so nothing is promised of it.
#[verifier::external_body]
fn sample_raw() -> u64 {
    rand::random::<u64>()
}

/// A uniform sample of `[0, 1)` in fixed point: the low fractional bits of
/// a raw draw.
fn sample_unit() -> (r: i64)
    ensures
        0 <= r < FX_ONE,
{
    let raw = sample_raw();
    (raw % 0x100_0000_0000u64) as i64
}

/// The simulation: the arena of body slots, the current simulation time,
/// and the gravitational parameter of the fixed central mass.
pub struct System {
    slots: Vec<Option<Particle>>,
    time: i64,
    mu: i64,
}

impl System {
    /// The slot contents: `None` marks a retired id.
    pub closed spec fn bodies(self) -> Seq<Option<Particle>> {
        self.slots@
    }

    /// The current simulation time.
    pub closed spec fn sim_time(self) -> i64 {
        self.time
    }

    /// The gravitational parameter of the central mass.
    pub closed spec fn center_mu(self) -> i64 {
        self.mu
    }

    /// Every body in a slot is well formed and its mean motion matches the
    /// central mass.
    #[verifier::type_invariant]
    pub closed spec fn wf(self) -> bool {
        forall|i: int|
            0 <= i < self.slots@.len() && self.slots@[i] is Some ==> valid_particle(
                #[trigger] self.slots@[i]->Some_0,
                self.mu,
            )
    }

    /// Builds a simulation from explicit orbital elements, rejecting the
    /// first body whose elements leave the valid domain.
    pub fn from_elements(elems: &Vec<BodyElements>, mu: i64) -> (r: Result<System, ConfigError>)
        ensures
            r is Ok <==> first_flaw_of(elems@) is None,
            r is Err ==> Some(r->Err_0) == first_flaw_of(elems@),
            r is Ok ==> (r->Ok_0).bodies().len() == elems@.len() && (r->Ok_0).sim_time() == 0
                && (r->Ok_0).center_mu() == mu && forall|i: int|
                0 <= i < elems@.len() ==> (r->Ok_0).bodies()[i] == Some(
                    particle_from_of(elems@[i], mu),
                ),
    {
        let mut slots: Vec<Option<Particle>> = Vec::new();
        let mut k: usize = 0;
        proof {
            assert(elems@.skip(0) =~= elems@);
        }
        while k < elems.len()
            invariant
                k <= elems@.len(),
                slots@.len() == k,
                first_flaw_of(elems@) == first_flaw_of(elems@.skip(k as int)),
                forall|i: int|
                    0 <= i < k ==> slots@[i] == Some(particle_from_of(elems@[i], mu)),
                forall|i: int|
                    0 <= i < k ==> flaw_of(elems@[i]) is None,
            decreases elems@.len() - k,
        {
            let el = elems[k];
            proof {
                assert(elems@.skip(k as int)[0] == elems@[k as int]);
                assert(elems@.skip(k as int).drop_first() =~= elems@.skip(k as int + 1));
            }
            if !(0 < el.radius && el.radius < FX_TWO) {
                return Err(ConfigError::RadiusOutOfRange);
            }
            if !(0 <= el.ecc && el.ecc < FX_ONE) {
                return Err(ConfigError::EccentricityOutOfRange);
            }
            if !(0 < el.semi_major) {
                return Err(ConfigError::SemiMajorAxisOutOfRange);
            }
            let n = mean_motion(el.semi_major, mu);
            slots.push(
                Some(
                    Particle {
                        radius: el.radius,
                        ecc: el.ecc,
                        semi_major: el.semi_major,
                        phase: el.phase,
                        mean_motion: n,
                        heading: el.heading,
                        normal: el.normal,
                    },
                ),
            );
            k = k + 1;
        }
        proof {
            assert(elems@.skip(k as int) =~= Seq::<BodyElements>::empty());
        }
        Ok(System { slots, time: 0, mu })
    }

    /// Builds a simulation of `count` bodies with randomly drawn elements:
    /// eccentricity and semi-major axis uniform over the configured ranges,
    /// phase and heading uniform over a full turn, and the orbit normal the
    /// reference axis with a uniform jitter of up to one half on each
    /// component, normalized. An invalid configuration (see
    /// [`gen_config_ok`]) is rejected up front, before the first draw; a
    /// valid one always succeeds, whatever is drawn.
    pub fn new(count: usize, mu: i64, cfg: GenConfig) -> (r: Option<System>)
        ensures
            r is Some <==> gen_config_ok(cfg),
            r is Some ==> (r->Some_0).bodies().len() == count && (r->Some_0).sim_time() == 0
                && (r->Some_0).center_mu() == mu,
            r is Some ==> forall|i: int|
                0 <= i < count ==> (#[trigger] (r->Some_0).bodies()[i]) is Some
                    && generated_body_ok((r->Some_0).bodies()[i]->Some_0, cfg, mu),
    {
        if !(0 < cfg.radius && cfg.radius < FX_TWO && 0 <= cfg.ecc_span && cfg.ecc_span
            <= FX_ONE && 0 < cfg.sma_min && 0 <= cfg.sma_span) {
            return None;
        }
        let mut slots: Vec<Option<Particle>> = Vec::new();
        let mut k: usize = 0;
        while k < count
            invariant
                gen_config_ok(cfg),
                k <= count,
                slots@.len() == k,
                forall|i: int|
                    0 <= i < k ==> (#[trigger] slots@[i]) is Some && generated_body_ok(
                        slots@[i]->Some_0,
                        cfg,
                        mu,
                    ),
            decreases count - k,
        {
            let u_ecc = sample_unit();
            let ecc = fxmul(cfg.ecc_span, u_ecc);
            let u_sma = sample_unit();
            let stretch = fxmul(cfg.sma_span, u_sma);
            let sma = fxadd(cfg.sma_min, stretch);
            let jitter = V3 {
                x: fxsub(sample_unit(), FX_HALF),
                y: fxsub(sample_unit(), FX_HALF),
                z: fxsub(sample_unit(), FX_HALF),
            };
            let tilted = V3 { x: 0, y: FX_ONE, z: 0 }.add(jitter);
            let normal = tilted.normalized();
            proof {
                lemma_fxmul_unit(cfg.ecc_span, u_ecc);
                lemma_fxmul_unit(cfg.sma_span, u_sma);
                assert(normal == jittered_normal_of(jitter));
            }
            let n = mean_motion(sma, mu);
            let u_phase = sample_unit();
            let phase = fxmul(FX_TWO_PI, u_phase);
            let u_heading = sample_unit();
            let heading = fxmul(FX_TWO_PI, u_heading);
            proof {
                lemma_fxmul_unit(FX_TWO_PI, u_phase);
                lemma_fxmul_unit(FX_TWO_PI, u_heading);
            }
            slots.push(
                Some(
                    Particle {
                        radius: cfg.radius,
                        ecc,
                        semi_major: sma,
                        phase,
                        mean_motion: n,
                        heading,
                        normal,
                    },
                ),
            );
            k = k + 1;
        }
        Some(System { slots, time: 0, mu })
    }

    /// The number of active bodies.
    pub fn size(&self) -> (r: usize)
        ensures
            r as nat == count_active_of(self.bodies()),
    {
        let mut r: usize = 0;
        let mut i: usize = 0;
        proof {
            assert(self.slots@.take(0) =~= Seq::<Option<Particle>>::empty());
        }
        while i < self.slots.len()
            invariant
                i <= self.slots@.len(),
                r <= i,
                r as nat == count_active_of(self.slots@.take(i as int)),
            decreases self.slots@.len() - i,
        {
            proof {
                assert(self.slots@.take(i as int + 1).drop_last() =~= self.slots@.take(
                    i as int,
                ));
                assert(self.slots@.take(i as int + 1).last() == self.slots@[i as int]);
            }
            if self.slots[i].is_some() {
                r = r + 1;
            }
            i = i + 1;
        }
        proof {
            assert(self.slots@.take(self.slots@.len() as int) =~= self.slots@);
        }
        r
    }

    /// Whether id `i` names an active body.
    pub fn particle_active(&self, i: usize) -> (r: bool)
        ensures
            r == (i < self.bodies().len() && self.bodies()[i as int] is Some),
    {
        i < self.slots.len() && self.slots[i].is_some()
    }

    /// The world-frame position of the active body `i` at the current
    /// simulation time.
    pub fn particle_coord(&self, i: usize) -> (r: V3)
        requires
            i < self.bodies().len(),
            self.bodies()[i as int] is Some,
        ensures
            r == coord_of(self.bodies()[i as int]->Some_0, self.sim_time()),
    {
        let p = self.slots[i].unwrap();
        p.coord(self.time)
    }

    /// The radius of the active body `i`; always positive and below the
    /// representation bound.
    pub fn particle_radius(&self, i: usize) -> (r: i64)
        requires
            i < self.bodies().len(),
            self.bodies()[i as int] is Some,
        ensures
            r == self.bodies()[i as int]->Some_0.radius,
            0 < r < FX_TWO,
    {
        proof {
            use_type_invariant(&*self);
        }
        let p = self.slots[i].unwrap();
        p.radius
    }

    /// One tick: advances the simulation time by the non-negative duration
    /// `elapsed`, detects every overlapping pair at the new time, and
    /// resolves the pairs in deterministic order, each body participating in
    /// at most one merge.
    pub fn run(&mut self, elapsed: i64)
        requires
            elapsed >= 0,
        ensures
            final(self).sim_time() == fxadd_of(old(self).sim_time(), elapsed),
            final(self).center_mu() == old(self).center_mu(),
            final(self).bodies() == apply_pairs_of(
                old(self).bodies(),
                Seq::new(old(self).bodies().len(), |i: int| false),
                detect_of(old(self).bodies(), fxadd_of(old(self).sim_time(), elapsed)),
                fxadd_of(old(self).sim_time(), elapsed),
                old(self).center_mu(),
            ),
            final(self).bodies().len() == old(self).bodies().len(),
            forall|i: int|
                0 <= i < old(self).bodies().len() && old(self).bodies()[i] is None
                    ==> (final(self).bodies()[i] is None),
            count_active_of(final(self).bodies()) <= count_active_of(old(self).bodies()),
            count_active_of(final(self).bodies()) + committed_merges_of(
                old(self).bodies(),
                Seq::new(old(self).bodies().len(), |i: int| false),
                detect_of(old(self).bodies(), fxadd_of(old(self).sim_time(), elapsed)),
                fxadd_of(old(self).sim_time(), elapsed),
                old(self).center_mu(),
            ) == count_active_of(old(self).bodies()),
    {
        proof {
            use_type_invariant(&*self);
        }
        let t = fxadd(self.time, elapsed);
        let pairs = detect(&self.slots, t);
        let n = self.slots.len();
        let mut slots: Vec<Option<Particle>> = Vec::new();
        let mut w: usize = 0;
        while w < n
            invariant
                w <= n,
                n == self.slots@.len(),
                slots@.len() == w,
                forall|i: int| 0 <= i < w ==> #[trigger] slots@[i] == self.slots@[i],
            decreases n - w,
        {
            slots.push(self.slots[w]);
            w = w + 1;
        }
        proof {
            assert(slots@ =~= self.slots@);
        }
        let mut consumed: Vec<bool> = Vec::new();
        let mut c: usize = 0;
        while c < n
            invariant
                c <= n,
                consumed@.len() == c,
                forall|i: int| 0 <= i < c ==> !(#[trigger] consumed@[i]),
            decreases n - c,
        {
            consumed.push(false);
            c = c + 1;
        }
        proof {
            assert(consumed@ =~= Seq::new(old(self).bodies().len(), |i: int| false));
        }
        let ghost target = apply_pairs_of(
            old(self).bodies(),
            consumed@,
            pairs@,
            t,
            old(self).center_mu(),
        );
        let mut k: usize = 0;
        proof {
            assert(pairs@.skip(0) =~= pairs@);
        }
        let mu = self.mu;
        while k < pairs.len()
            invariant
                k <= pairs@.len(),
                n == old(self).bodies().len(),
                slots@.len() == n,
                consumed@.len() == n,
                mu == old(self).center_mu(),
                forall|q: int|
                    0 <= q < pairs@.len() ==> #[trigger] pairs@[q].0 < n && pairs@[q].1 < n,
                forall|i: int|
                    0 <= i < n && slots@[i] is Some ==> valid_particle(
                        #[trigger] slots@[i]->Some_0,
                        mu,
                    ),
                apply_pairs_of(slots@, consumed@, pairs@.skip(k as int), t, mu) == target,
            decreases pairs@.len() - k,
        {
            proof {
                assert(pairs@.skip(k as int)[0] == pairs@[k as int]);
                assert(pairs@.skip(k as int).drop_first() =~= pairs@.skip(k as int + 1));
            }
            let (a, b) = pairs[k];
            if !consumed[a] && !consumed[b] {
                let (oa, ob) = (slots[a], slots[b]);
                if let (Some(pa), Some(pb)) = (oa, ob) {
                    match collide(&pa, &pb, t, mu) {
                        Some(m) => {
                            proof {
                                crate::merge::lemma_collide_valid(pa, pb, t, mu);
                            }
                            slots[a] = Some(m);
                            slots[b] = None;
                            consumed[a] = true;
                            consumed[b] = true;
                        },
                        None => {},
                    }
                }
            }
            k = k + 1;
        }
        proof {
            assert(pairs@.skip(pairs@.len() as int) =~= Seq::<(usize, usize)>::empty());
            let ghost zeroed = Seq::new(old(self).bodies().len(), |i: int| false);
            crate::laws::lemma_apply_pairs_len(
                old(self).bodies(),
                zeroed,
                pairs@,
                t,
                old(self).center_mu(),
            );
            assert forall|q: int| 0 <= q < pairs@.len() implies (#[trigger] pairs@[q]).0
                < pairs@[q].1 by {
                crate::laws::lemma_detect_sound(old(self).bodies(), t, q);
            }
            crate::laws::lemma_tick_count_equation(
                old(self).bodies(),
                zeroed,
                pairs@,
                t,
                old(self).center_mu(),
            );
            assert forall|i: int|
                0 <= i < old(self).bodies().len() && old(self).bodies()[i] is None implies
                apply_pairs_of(
                    old(self).bodies(),
                    zeroed,
                    pairs@,
                    t,
                    old(self).center_mu(),
                )[i] is None by {
                crate::laws::lemma_retired_stays_retired(
                    old(self).bodies(),
                    zeroed,
                    pairs@,
                    t,
                    old(self).center_mu(),
                    i,
                );
            }
        }
        *self = System { slots, time: t, mu };
    }
}

} // verus!
