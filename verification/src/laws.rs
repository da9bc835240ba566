//! Library-wide laws, stated and proved over the same spec functions that
//! the executable contracts use.

use vstd::prelude::*;
use vstd::arithmetic::div_mod::{
    lemma_div_multiples_vanish, lemma_div_pos_is_pos, lemma_multiply_divide_lt,
};
use crate::body::valid_mu;
use crate::error::OrbitError;
use crate::fixed::{sqrt_floor, SCALE};
use crate::orbit::{
    spec_ecc_from_apses, spec_period, spec_va, spec_vp, OrbitState, MAX_RADIUS, MIN_RADIUS, TWO_PI,
};
use crate::resolver::{spec_classify, spec_resolve, OrbitSpec, ParamPair};

verus! {

/// How many of the five shape-determining parameters a record supplies.
pub open spec fn count_present(s: OrbitSpec) -> int {
    (if s.peri is Some {
        1int
    } else {
        0
    }) + (if s.apo is Some {
        1int
    } else {
        0
    }) + (if s.ecc is Some {
        1int
    } else {
        0
    }) + (if s.vel_p is Some {
        1int
    } else {
        0
    }) + (if s.vel_a is Some {
        1int
    } else {
        0
    })
}

/// Round trip: an orbit resolved from periapsis and apoapsis radii keeps
/// both radii, and stores exactly the eccentricity that the resolved radii
/// give back through `(ra - rp) / (ra + rp)`.
pub proof fn lemma_round_trip_ecc(rp: i64, ra: i64, mu: i64)
    requires
        valid_mu(mu),
        MIN_RADIUS <= rp <= ra <= MAX_RADIUS,
    ensures
        ({
            let s = OrbitSpec {
                peri: Some(rp),
                apo: Some(ra),
                ecc: None,
                vel_p: None,
                vel_a: None,
                spk_id: None,
            };
            let r = spec_resolve(s, mu);
            &&& r is Ok
            &&& r->Ok_0.rp == rp
            &&& r->Ok_0.ra == ra
            &&& r->Ok_0.ecc == spec_ecc_from_apses(r->Ok_0.rp as int, r->Ok_0.ra as int)
        }),
{
    // the eccentricity lies in [0, SCALE), so it survives the i64 cast
    lemma_multiply_divide_lt((ra - rp) * SCALE, (ra + rp) as int, SCALE as int);
    lemma_div_pos_is_pos((ra - rp) * SCALE, (ra + rp) as int);
}

/// A circular orbit: equal periapsis and apoapsis radii resolve to zero
/// eccentricity, and the period is Kepler's third law with the semi-major
/// axis equal to that radius: `2 * pi * rp^(3/2) / sqrt(mu)`.
pub proof fn lemma_circular_orbit(rp: i64, mu: i64)
    requires
        valid_mu(mu),
        MIN_RADIUS <= rp <= MAX_RADIUS,
    ensures
        ({
            let s = OrbitSpec {
                peri: Some(rp),
                apo: Some(rp),
                ecc: None,
                vel_p: None,
                vel_a: None,
                spk_id: None,
            };
            let r = spec_resolve(s, mu);
            &&& r is Ok
            &&& r->Ok_0.rp == rp
            &&& r->Ok_0.ra == rp
            &&& r->Ok_0.ecc == 0
            &&& spec_period(r->Ok_0) == (TWO_PI * rp * sqrt_floor(rp * SCALE)) / (sqrt_floor(
                mu * SCALE,
            ) * SCALE)
        }),
{
    assert((rp - rp) * SCALE == 0);
    lemma_div_pos_is_pos(0, (rp + rp) as int);
    lemma_multiply_divide_lt(0, (rp + rp) as int, 1);
    assert(spec_ecc_from_apses(rp as int, rp as int) == 0);
    assert(rp + rp == 2 * rp);
    lemma_div_multiples_vanish(rp as int, 2);
    assert(((rp + rp) / 2) as int == rp);
}

/// A record with fewer than two of the five shape-determining parameters is
/// rejected as `InsufficientArguments`, whatever else it holds.
pub proof fn lemma_insufficient_arguments(s: OrbitSpec, mu: i64)
    requires
        count_present(s) < 2,
    ensures
        spec_resolve(s, mu) == Err::<OrbitState, OrbitError>(OrbitError::InsufficientArguments),
{
}

/// A record that supplies two or more shape-determining parameters but none
/// of the five supported combinations (periapsis with apoapsis, periapsis
/// with eccentricity or periapsis speed, apoapsis with eccentricity or
/// apoapsis speed) is rejected as `IncompatibleArguments`.
pub proof fn lemma_incompatible_arguments(s: OrbitSpec, mu: i64)
    requires
        count_present(s) >= 2,
        !(s.peri is Some && s.apo is Some),
        !(s.peri is Some && s.ecc is Some),
        !(s.peri is Some && s.vel_p is Some),
        !(s.apo is Some && s.ecc is Some),
        !(s.apo is Some && s.vel_a is Some),
    ensures
        spec_resolve(s, mu) == Err::<OrbitState, OrbitError>(OrbitError::IncompatibleArguments),
{
}

/// The rule table is exhaustive: every record that supplies at least two
/// shape-determining parameters is either classified into one of the five
/// supported combinations or rejected as `IncompatibleArguments`; nothing
/// falls through.
pub proof fn lemma_rule_table_exhaustive(s: OrbitSpec)
    requires
        count_present(s) >= 2,
    ensures
        spec_classify(s) is Ok || spec_classify(s) == Err::<ParamPair, OrbitError>(
            OrbitError::IncompatibleArguments,
        ),
{
}

/// The orbit queries are pure: their contracts determine the period and the
/// apsis speeds from the orbit state alone, so repeated calls agree.
pub proof fn lemma_queries_deterministic(
    o: OrbitState,
    t1: u128,
    t2: u128,
    v1: (i64, i64),
    v2: (i64, i64),
)
    requires
        t1 as int == spec_period(o),
        t2 as int == spec_period(o),
        v1.0 as int == spec_va(o),
        v2.0 as int == spec_va(o),
        v1.1 as int == spec_vp(o),
        v2.1 as int == spec_vp(o),
    ensures
        t1 == t2,
        v1 == v2,
{
}

} // verus!
