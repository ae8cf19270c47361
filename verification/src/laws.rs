//! Laws of the simulation: properties that relate several functions, stated
//! and proved over the same spec functions the contracts use.

use vstd::prelude::*;

use crate::merge::{collide_of, merged_coord_of, merged_radius_of, merged_velocity_of};
use crate::particle::Particle;
use crate::system::{apply_pairs_of, committed_merges_of, count_active_of, detect_of,
    overlap_of, pairs_from_of};

verus! {

proof fn lemma_count_update(s: Seq<Option<Particle>>, i: int, v: Option<Particle>)
    requires
        0 <= i < s.len(),
    ensures
        count_active_of(s.update(i, v)) == count_active_of(s) - (if s[i] is Some {
            1int
        } else {
            0int
        }) + (if v is Some {
            1int
        } else {
            0int
        }),
    decreases s.len(),
{
    if i == s.len() - 1 {
        assert(s.update(i, v).drop_last() =~= s.drop_last());
    } else {
        lemma_count_update(s.drop_last(), i, v);
        assert(s.update(i, v).drop_last() =~= s.drop_last().update(i, v));
    }
}

/// Cardinality: one confirmed, non-degenerate merge — the winning slot `a`
/// replaced by the merged body, the losing slot `b` vacated — reduces the
/// active count by exactly one.
pub proof fn lemma_merge_reduces_count(s: Seq<Option<Particle>>, a: int, b: int, m: Particle)
    requires
        0 <= a < s.len(),
        0 <= b < s.len(),
        a != b,
        s[a] is Some,
        s[b] is Some,
    ensures
        count_active_of(s.update(a, Some(m)).update(b, None)) == count_active_of(s) - 1,
{
    lemma_count_update(s, a, Some(m));
    lemma_count_update(s.update(a, Some(m)), b, None);
}

/// A tick never changes the number of slots: ids are never reused and no
/// slot is ever created or destroyed by merging.
pub proof fn lemma_apply_pairs_len(
    s: Seq<Option<Particle>>,
    consumed: Seq<bool>,
    pairs: Seq<(usize, usize)>,
    t: i64,
    mu: i64,
)
    ensures
        apply_pairs_of(s, consumed, pairs, t, mu).len() == s.len(),
    decreases pairs.len(),
{
    if pairs.len() > 0 {
        let a = pairs[0].0 as int;
        let b = pairs[0].1 as int;
        if 0 <= a < s.len() && 0 <= b < s.len() && a < consumed.len() && b < consumed.len()
            && !consumed[a] && !consumed[b] && s[a] is Some && s[b] is Some {
            match collide_of(s[a]->Some_0, s[b]->Some_0, t, mu) {
                Some(m) => {
                    lemma_apply_pairs_len(
                        s.update(a, Some(m)).update(b, None),
                        consumed.update(a, true).update(b, true),
                        pairs.drop_first(),
                        t,
                        mu,
                    );
                },
                None => {
                    lemma_apply_pairs_len(s, consumed, pairs.drop_first(), t, mu);
                },
            }
        } else {
            lemma_apply_pairs_len(s, consumed, pairs.drop_first(), t, mu);
        }
    }
}

/// A retired id never reappears: a vacant slot stays vacant through any run
/// of merges.
pub proof fn lemma_retired_stays_retired(
    s: Seq<Option<Particle>>,
    consumed: Seq<bool>,
    pairs: Seq<(usize, usize)>,
    t: i64,
    mu: i64,
    i: int,
)
    requires
        0 <= i < s.len(),
        s[i] is None,
    ensures
        apply_pairs_of(s, consumed, pairs, t, mu)[i] is None,
    decreases pairs.len(),
{
    if pairs.len() > 0 {
        let a = pairs[0].0 as int;
        let b = pairs[0].1 as int;
        if 0 <= a < s.len() && 0 <= b < s.len() && a < consumed.len() && b < consumed.len()
            && !consumed[a] && !consumed[b] && s[a] is Some && s[b] is Some {
            match collide_of(s[a]->Some_0, s[b]->Some_0, t, mu) {
                Some(m) => {
                    lemma_retired_stays_retired(
                        s.update(a, Some(m)).update(b, None),
                        consumed.update(a, true).update(b, true),
                        pairs.drop_first(),
                        t,
                        mu,
                        i,
                    );
                },
                None => {
                    lemma_retired_stays_retired(s, consumed, pairs.drop_first(), t, mu, i);
                },
            }
        } else {
            lemma_retired_stays_retired(s, consumed, pairs.drop_first(), t, mu, i);
        }
    }
}

/// Cardinality over a whole tick: resolving the pairs reduces the active
/// count by exactly the number of committed merges, so each confirmed,
/// non-degenerate merge retires exactly one body.
pub proof fn lemma_tick_count_equation(
    s: Seq<Option<Particle>>,
    consumed: Seq<bool>,
    pairs: Seq<(usize, usize)>,
    t: i64,
    mu: i64,
)
    requires
        forall|q: int| 0 <= q < pairs.len() ==> (#[trigger] pairs[q]).0 < pairs[q].1,
    ensures
        count_active_of(apply_pairs_of(s, consumed, pairs, t, mu)) + committed_merges_of(
            s,
            consumed,
            pairs,
            t,
            mu,
        ) == count_active_of(s),
    decreases pairs.len(),
{
    if pairs.len() > 0 {
        let a = pairs[0].0 as int;
        let b = pairs[0].1 as int;
        assert(forall|q: int|
            0 <= q < pairs.drop_first().len() ==> (#[trigger] pairs.drop_first()[q]).0
                < pairs.drop_first()[q].1);
        if 0 <= a < s.len() && 0 <= b < s.len() && a < consumed.len() && b < consumed.len()
            && !consumed[a] && !consumed[b] && s[a] is Some && s[b] is Some {
            match collide_of(s[a]->Some_0, s[b]->Some_0, t, mu) {
                Some(m) => {
                    lemma_merge_reduces_count(s, a, b, m);
                    lemma_tick_count_equation(
                        s.update(a, Some(m)).update(b, None),
                        consumed.update(a, true).update(b, true),
                        pairs.drop_first(),
                        t,
                        mu,
                    );
                },
                None => {
                    lemma_tick_count_equation(s, consumed, pairs.drop_first(), t, mu);
                },
            }
        } else {
            lemma_tick_count_equation(s, consumed, pairs.drop_first(), t, mu);
        }
    }
}

/// A tick never creates a body: resolving any run of pairs leaves the active
/// count at most what it was.
pub proof fn lemma_tick_never_grows(
    s: Seq<Option<Particle>>,
    consumed: Seq<bool>,
    pairs: Seq<(usize, usize)>,
    t: i64,
    mu: i64,
)
    ensures
        count_active_of(apply_pairs_of(s, consumed, pairs, t, mu)) <= count_active_of(s),
    decreases pairs.len(),
{
    if pairs.len() > 0 {
        let a = pairs[0].0 as int;
        let b = pairs[0].1 as int;
        if 0 <= a < s.len() && 0 <= b < s.len() && a < consumed.len() && b < consumed.len()
            && !consumed[a] && !consumed[b] && s[a] is Some && s[b] is Some {
            match collide_of(s[a]->Some_0, s[b]->Some_0, t, mu) {
                Some(m) => {
                    lemma_count_update(s, a, Some(m));
                    lemma_count_update(s.update(a, Some(m)), b, None);
                    lemma_tick_never_grows(
                        s.update(a, Some(m)).update(b, None),
                        consumed.update(a, true).update(b, true),
                        pairs.drop_first(),
                        t,
                        mu,
                    );
                },
                None => {
                    lemma_tick_never_grows(s, consumed, pairs.drop_first(), t, mu);
                },
            }
        } else {
            lemma_tick_never_grows(s, consumed, pairs.drop_first(), t, mu);
        }
    }
}

proof fn lemma_pairs_from_sound(
    s: Seq<Option<Particle>>,
    t: i64,
    i0: nat,
    j0: nat,
    k: int,
)
    requires
        s.len() <= usize::MAX,
        i0 < j0,
        0 <= k < pairs_from_of(s, t, i0, j0).len(),
    ensures
        ({
            let (i, j) = pairs_from_of(s, t, i0, j0)[k];
            &&& i < j < s.len()
            &&& s[i as int] is Some
            &&& s[j as int] is Some
            &&& overlap_of(s[i as int]->Some_0, s[j as int]->Some_0, t)
        }),
    decreases s.len() - i0, s.len() - j0,
{
    if i0 >= s.len() {
    } else if j0 >= s.len() {
        lemma_pairs_from_sound(s, t, i0 + 1, i0 + 2, k);
    } else {
        let rest = pairs_from_of(s, t, i0, j0 + 1);
        if s[i0 as int] is Some && s[j0 as int] is Some && overlap_of(
            s[i0 as int]->Some_0,
            s[j0 as int]->Some_0,
            t,
        ) {
            if k == 0 {
            } else {
                assert(pairs_from_of(s, t, i0, j0)[k] == rest[k - 1]);
                lemma_pairs_from_sound(s, t, i0, j0 + 1, k - 1);
            }
        } else {
            lemma_pairs_from_sound(s, t, i0, j0 + 1, k);
        }
    }
}

/// The detector confirms only genuine collisions: every reported pair names
/// two distinct active bodies whose volumes overlap, lower id first.
pub proof fn lemma_detect_sound(s: Seq<Option<Particle>>, t: i64, k: int)
    requires
        s.len() <= usize::MAX,
        0 <= k < detect_of(s, t).len(),
    ensures
        ({
            let (i, j) = detect_of(s, t)[k];
            &&& i < j < s.len()
            &&& s[i as int] is Some
            &&& s[j as int] is Some
            &&& overlap_of(s[i as int]->Some_0, s[j as int]->Some_0, t)
        }),
{
    lemma_pairs_from_sound(s, t, 0, 1, k);
}

proof fn lemma_pairs_from_complete(
    s: Seq<Option<Particle>>,
    t: i64,
    i0: nat,
    j0: nat,
    i: nat,
    j: nat,
)
    requires
        s.len() <= usize::MAX,
        i0 < j0,
        i0 <= i,
        i0 < i || j0 <= j,
        i < j < s.len(),
        s[i as int] is Some,
        s[j as int] is Some,
        overlap_of(s[i as int]->Some_0, s[j as int]->Some_0, t),
    ensures
        pairs_from_of(s, t, i0, j0).contains((i as usize, j as usize)),
    decreases s.len() - i0, s.len() - j0,
{
    let p = (i as usize, j as usize);
    if j0 >= s.len() {
        lemma_pairs_from_complete(s, t, i0 + 1, i0 + 2, i, j);
    } else {
        let rest = pairs_from_of(s, t, i0, j0 + 1);
        if s[i0 as int] is Some && s[j0 as int] is Some && overlap_of(
            s[i0 as int]->Some_0,
            s[j0 as int]->Some_0,
            t,
        ) {
            let whole = seq![(i0 as usize, j0 as usize)] + rest;
            assert(pairs_from_of(s, t, i0, j0) == whole);
            if i0 == i && j0 == j {
                assert(whole[0] == p);
            } else {
                lemma_pairs_from_complete(s, t, i0, j0 + 1, i, j);
                let w = choose|w: int| 0 <= w < rest.len() && rest[w] == p;
                assert(whole[w + 1] == p);
            }
        } else {
            assert(!(i0 == i && j0 == j));
            lemma_pairs_from_complete(s, t, i0, j0 + 1, i, j);
        }
    }
}

/// The detector never misses a collision: any two distinct active bodies
/// whose volumes overlap appear among the reported pairs.
pub proof fn lemma_detect_complete(s: Seq<Option<Particle>>, t: i64, i: nat, j: nat)
    requires
        s.len() <= usize::MAX,
        i < j < s.len(),
        s[i as int] is Some,
        s[j as int] is Some,
        overlap_of(s[i as int]->Some_0, s[j as int]->Some_0, t),
    ensures
        detect_of(s, t).contains((i as usize, j as usize)),
{
    lemma_pairs_from_complete(s, t, 0, 1, i, j);
}

/// A pair that references an already-consumed id is skipped: through any run
/// of later pairs, the consumed id's slot stays exactly what it was when the
/// id was consumed.
pub proof fn lemma_consumed_id_is_skipped(
    s: Seq<Option<Particle>>,
    consumed: Seq<bool>,
    pairs: Seq<(usize, usize)>,
    t: i64,
    mu: i64,
    c: int,
)
    requires
        0 <= c < s.len(),
        c < consumed.len(),
        consumed[c],
    ensures
        apply_pairs_of(s, consumed, pairs, t, mu)[c] == s[c],
    decreases pairs.len(),
{
    if pairs.len() > 0 {
        let a = pairs[0].0 as int;
        let b = pairs[0].1 as int;
        if 0 <= a < s.len() && 0 <= b < s.len() && a < consumed.len() && b < consumed.len()
            && !consumed[a] && !consumed[b] && s[a] is Some && s[b] is Some {
            match collide_of(s[a]->Some_0, s[b]->Some_0, t, mu) {
                Some(m) => {
                    // a committing pair names no consumed id, so both of its
                    // ids differ from the consumed one
                    lemma_consumed_id_is_skipped(
                        s.update(a, Some(m)).update(b, None),
                        consumed.update(a, true).update(b, true),
                        pairs.drop_first(),
                        t,
                        mu,
                        c,
                    );
                },
                None => {
                    lemma_consumed_id_is_skipped(s, consumed, pairs.drop_first(), t, mu, c);
                },
            }
        } else {
            lemma_consumed_id_is_skipped(s, consumed, pairs.drop_first(), t, mu, c);
        }
    }
}

/// A body participates in at most one merge per tick: when a pair commits,
/// both of its ids count as consumed, so through every later pair of the
/// same tick the winner keeps the merged body and the loser stays retired.
pub proof fn lemma_winner_merges_once(
    s: Seq<Option<Particle>>,
    consumed: Seq<bool>,
    pairs: Seq<(usize, usize)>,
    t: i64,
    mu: i64,
)
    requires
        pairs.len() > 0,
        pairs[0].0 < pairs[0].1,
        pairs[0].1 < s.len(),
        s.len() == consumed.len(),
        !consumed[pairs[0].0 as int],
        !consumed[pairs[0].1 as int],
        s[pairs[0].0 as int] is Some,
        s[pairs[0].1 as int] is Some,
        collide_of(s[pairs[0].0 as int]->Some_0, s[pairs[0].1 as int]->Some_0, t, mu)
            is Some,
    ensures
        apply_pairs_of(s, consumed, pairs, t, mu)[pairs[0].0 as int] == Some(
            collide_of(s[pairs[0].0 as int]->Some_0, s[pairs[0].1 as int]->Some_0, t, mu)
                ->Some_0,
        ),
        apply_pairs_of(s, consumed, pairs, t, mu)[pairs[0].1 as int] is None,
{
    let a = pairs[0].0 as int;
    let b = pairs[0].1 as int;
    let m = collide_of(s[a]->Some_0, s[b]->Some_0, t, mu)->Some_0;
    let s1 = s.update(a, Some(m)).update(b, None);
    let c1 = consumed.update(a, true).update(b, true);
    lemma_consumed_id_is_skipped(s1, c1, pairs.drop_first(), t, mu, a);
    lemma_consumed_id_is_skipped(s1, c1, pairs.drop_first(), t, mu, b);
}

/// Determinism of the merge: the outcome does not depend on which body of a
/// pair stands first. In particular two bodies with identical elements merge
/// to the same body whichever order a tick processes them in.
pub proof fn lemma_merge_commutative(a: Particle, b: Particle, t: i64, mu: i64)
    ensures
        collide_of(a, b, t, mu) == collide_of(b, a, t, mu),
{
    reveal(crate::merge::collide_of);
    assert(merged_radius_of(a.radius, b.radius) == merged_radius_of(b.radius, a.radius));
    assert(merged_coord_of(a, b, t) == merged_coord_of(b, a, t));
    assert(merged_velocity_of(a, b, t) == merged_velocity_of(b, a, t));
}

} // verus!
