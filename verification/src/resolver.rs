//! The orbit resolver: from a partial parameter record to a full
//! [`OrbitState`], or a typed failure.
//!
//! An orbit's shape is fully determined by exactly two independent
//! parameters (plus the gravitational parameter), so the resolver first
//! classifies which supported two-parameter combination was supplied
//! ([`classify`]) and then applies the matching closed form
//! ([`resolve_pair`]).

use vstd::prelude::*;
use vstd::arithmetic::div_mod::{
    lemma_div_is_ordered, lemma_div_by_multiple, lemma_div_pos_is_pos, lemma_multiply_divide_le,
};
use crate::body::{spec_lookup, lookup, valid_mu};
use crate::error::OrbitError;
use crate::fixed::{isqrt, lemma_sqrt_floor_ge, lemma_sqrt_floor_le, SCALE, sqrt_floor};
use crate::orbit::{
    from_apses, spec_ecc_from_apses, spec_h_from_apses, OrbitState, MAX_H, MAX_RADIUS, MIN_RADIUS,
};

verus! {

/// The raw, possibly under- or over-determined, input record: every field is
/// optional, and consistency is established (or rejected) by [`resolve`].
/// Radii in km, speeds in km/s, all scaled by [`SCALE`]; `spk_id` is the
/// central-body identifier code.
#[derive(Clone, Copy, Debug, PartialEq, Eq)]
pub struct OrbitSpec {
    /// Periapsis radius.
    pub peri: Option<i64>,
    /// Apoapsis radius.
    pub apo: Option<i64>,
    /// Eccentricity.
    pub ecc: Option<i64>,
    /// Speed at periapsis.
    pub vel_p: Option<i64>,
    /// Speed at apoapsis.
    pub vel_a: Option<i64>,
    /// Central-body identifier code.
    pub spk_id: Option<i32>,
}

/// The supported two-parameter combinations, as an explicit tagged type so
/// that the rule table is exhaustive by construction.
#[derive(Clone, Copy, Debug, PartialEq, Eq, Structural)]
pub enum ParamPair {
    /// Periapsis and apoapsis radius.
    PeriApo(i64, i64),
    /// Periapsis radius and eccentricity.
    PeriEcc(i64, i64),
    /// Periapsis radius and speed at periapsis.
    PeriVelP(i64, i64),
    /// Apoapsis radius and eccentricity.
    ApoEcc(i64, i64),
    /// Apoapsis radius and speed at apoapsis.
    ApoVelA(i64, i64),
}

/// Which rule the supplied fields select, in priority order (the first
/// matching rule wins); or which failure the record is rejected with.
///
/// Combinations of two supplied fields that no closed form of this library
/// combines (apoapsis with periapsis speed, periapsis with apoapsis speed,
/// eccentricity with either speed, the two speeds alone) are
/// `IncompatibleArguments`; fewer than two supplied shape fields are
/// `InsufficientArguments`.
pub open spec fn spec_classify(s: OrbitSpec) -> Result<ParamPair, OrbitError> {
    if s.peri is Some {
        if s.apo is Some {
            Ok(ParamPair::PeriApo(s.peri->Some_0, s.apo->Some_0))
        } else if s.ecc is Some {
            Ok(ParamPair::PeriEcc(s.peri->Some_0, s.ecc->Some_0))
        } else if s.vel_p is Some {
            Ok(ParamPair::PeriVelP(s.peri->Some_0, s.vel_p->Some_0))
        } else if s.vel_a is Some {
            Err(OrbitError::IncompatibleArguments)
        } else {
            Err(OrbitError::InsufficientArguments)
        }
    } else if s.apo is Some {
        if s.ecc is Some {
            Ok(ParamPair::ApoEcc(s.apo->Some_0, s.ecc->Some_0))
        } else if s.vel_a is Some {
            Ok(ParamPair::ApoVelA(s.apo->Some_0, s.vel_a->Some_0))
        } else if s.vel_p is Some {
            Err(OrbitError::IncompatibleArguments)
        } else {
            Err(OrbitError::InsufficientArguments)
        }
    } else {
        if (s.ecc is Some && s.vel_p is Some) || (s.ecc is Some && s.vel_a is Some) || (
        s.vel_p is Some && s.vel_a is Some) {
            Err(OrbitError::IncompatibleArguments)
        } else {
            Err(OrbitError::InsufficientArguments)
        }
    }
}

/// Classifies which two shape parameters a record supplies.
pub fn classify(s: &OrbitSpec) -> (r: Result<ParamPair, OrbitError>)
    ensures
        r == spec_classify(*s),
{
    match (s.peri, s.apo, s.ecc, s.vel_p, s.vel_a) {
        (Some(rp), Some(ra), _, _, _) => Ok(ParamPair::PeriApo(rp, ra)),
        (Some(rp), None, Some(e), _, _) => Ok(ParamPair::PeriEcc(rp, e)),
        (Some(rp), None, None, Some(vp), _) => Ok(ParamPair::PeriVelP(rp, vp)),
        (Some(_), None, None, None, Some(_)) => Err(OrbitError::IncompatibleArguments),
        (Some(_), None, None, None, None) => Err(OrbitError::InsufficientArguments),
        (None, Some(ra), Some(e), _, _) => Ok(ParamPair::ApoEcc(ra, e)),
        (None, Some(ra), None, _, Some(va)) => Ok(ParamPair::ApoVelA(ra, va)),
        (None, Some(_), None, Some(_), None) => Err(OrbitError::IncompatibleArguments),
        (None, Some(_), None, None, None) => Err(OrbitError::InsufficientArguments),
        (None, None, Some(_), Some(_), _) => Err(OrbitError::IncompatibleArguments),
        (None, None, Some(_), None, Some(_)) => Err(OrbitError::IncompatibleArguments),
        (None, None, None, Some(_), Some(_)) => Err(OrbitError::IncompatibleArguments),
        (None, None, _, _, _) => Err(OrbitError::InsufficientArguments),
    }
}

/// The apoapsis radius of the conic with periapsis `rp` and eccentricity
/// `e`: `rp * (1 + e) / (1 - e)`.
pub open spec fn sp_ra_from_peri_ecc(rp: int, e: int) -> int {
    (rp * (SCALE + e)) / (SCALE - e)
}

/// The periapsis radius of the conic with apoapsis `ra` and eccentricity
/// `e`: `ra * (1 - e) / (1 + e)`.
pub open spec fn sp_rp_from_apo_ecc(ra: int, e: int) -> int {
    (ra * (SCALE - e)) / (SCALE + e)
}

/// Specific angular momentum `sqrt(rp * mu * (1 + e))` of the conic with
/// periapsis `rp` and eccentricity `e`.
pub open spec fn sp_h_from_peri_ecc(rp: int, e: int, mu: int) -> int {
    sqrt_floor((rp * mu / (SCALE as int) * (SCALE + e) / (SCALE as int)) * SCALE)
}

/// Specific angular momentum `sqrt(ra * mu * (1 - e))` of the conic with
/// apoapsis `ra` and eccentricity `e`.
pub open spec fn sp_h_from_apo_ecc(ra: int, e: int, mu: int) -> int {
    sqrt_floor((ra * mu / (SCALE as int) * (SCALE - e) / (SCALE as int)) * SCALE)
}

/// Rule for periapsis and apoapsis both given: build the orbit directly.
/// The radii must be ordered and within the supported range.
pub open spec fn sp_rule_apses(rp: i64, ra: i64, mu: i64) -> Result<OrbitState, OrbitError> {
    if MIN_RADIUS <= rp && rp <= ra && ra <= MAX_RADIUS {
        Ok(OrbitState {
            rp,
            ra,
            mu,
            h: spec_h_from_apses(rp as int, ra as int, mu as int) as i64,
            ecc: spec_ecc_from_apses(rp as int, ra as int) as i64,
        })
    } else {
        Err(OrbitError::DomainError)
    }
}

/// Rule for periapsis radius and eccentricity given: derive the apoapsis
/// from the conic identity and the angular momentum from the orbit equation.
pub open spec fn sp_rule_peri_ecc(rp: i64, e: i64, mu: i64) -> Result<OrbitState, OrbitError> {
    if !(MIN_RADIUS <= rp <= MAX_RADIUS) || !(0 <= e < SCALE) {
        Err(OrbitError::DomainError)
    } else {
        let ra = sp_ra_from_peri_ecc(rp as int, e as int);
        if ra > MAX_RADIUS {
            Err(OrbitError::DomainError)
        } else {
            Ok(OrbitState {
                rp,
                ra: ra as i64,
                mu,
                h: sp_h_from_peri_ecc(rp as int, e as int, mu as int) as i64,
                ecc: e,
            })
        }
    }
}

/// Rule for periapsis radius and periapsis speed given: the angular momentum
/// is `rp * vp` directly; eccentricity follows from the orbit equation at
/// periapsis, `e = (rp * vp)^2 / (rp * mu) - 1`, and the apoapsis from the
/// conic identity `ra = h^2 / mu / (1 - e)`.
pub open spec fn sp_rule_peri_vel(rp: i64, vp: i64, mu: i64) -> Result<OrbitState, OrbitError> {
    if !(MIN_RADIUS <= rp <= MAX_RADIUS) || vp <= 0 {
        Err(OrbitError::DomainError)
    } else {
        let h = (rp * vp) / (SCALE as int);
        if h == 0 || h > MAX_H {
            Err(OrbitError::DomainError)
        } else {
            let t = (h * h) / (rp * mu / (SCALE as int));
            if !(SCALE <= t < 2 * SCALE) {
                Err(OrbitError::DomainError)
            } else {
                let e = t - SCALE;
                let ra = h * h / (mu as int) * SCALE / (SCALE - e);
                if ra > MAX_RADIUS || ra < rp {
                    Err(OrbitError::DomainError)
                } else {
                    Ok(OrbitState { rp, ra: ra as i64, mu, h: h as i64, ecc: e as i64 })
                }
            }
        }
    }
}

/// Rule for apoapsis radius and eccentricity given: derive the periapsis
/// from the conic identity and the angular momentum from the orbit equation.
pub open spec fn sp_rule_apo_ecc(ra: i64, e: i64, mu: i64) -> Result<OrbitState, OrbitError> {
    if !(MIN_RADIUS <= ra <= MAX_RADIUS) || !(0 <= e < SCALE) {
        Err(OrbitError::DomainError)
    } else {
        let rp = sp_rp_from_apo_ecc(ra as int, e as int);
        if rp < MIN_RADIUS {
            Err(OrbitError::DomainError)
        } else {
            Ok(OrbitState {
                rp: rp as i64,
                ra,
                mu,
                h: sp_h_from_apo_ecc(ra as int, e as int, mu as int) as i64,
                ecc: e,
            })
        }
    }
}

/// Rule for apoapsis radius and apoapsis speed given: the angular momentum
/// is `ra * va` directly; eccentricity follows from the orbit equation at
/// apoapsis, `e = 1 - ra * va^2 / mu`, and the periapsis from the conic
/// identity `rp = h^2 / mu / (1 + e)`.
pub open spec fn sp_rule_apo_vel(ra: i64, va: i64, mu: i64) -> Result<OrbitState, OrbitError> {
    if !(MIN_RADIUS <= ra <= MAX_RADIUS) || va <= 0 {
        Err(OrbitError::DomainError)
    } else {
        let h = (ra * va) / (SCALE as int);
        if h == 0 || h > MAX_H {
            Err(OrbitError::DomainError)
        } else {
            let q = (h * va) / (mu as int);
            if q == 0 || q > SCALE {
                Err(OrbitError::DomainError)
            } else {
                let e = SCALE - q;
                let rp = h * h / (mu as int) * SCALE / (SCALE + e);
                if rp < MIN_RADIUS || rp > ra {
                    Err(OrbitError::DomainError)
                } else {
                    Ok(OrbitState { rp: rp as i64, ra, mu, h: h as i64, ecc: e as i64 })
                }
            }
        }
    }
}

/// The closed form applied to each supported parameter pair.
pub open spec fn spec_resolve_pair(p: ParamPair, mu: i64) -> Result<OrbitState, OrbitError> {
    match p {
        ParamPair::PeriApo(rp, ra) => sp_rule_apses(rp, ra, mu),
        ParamPair::PeriEcc(rp, e) => sp_rule_peri_ecc(rp, e, mu),
        ParamPair::PeriVelP(rp, vp) => sp_rule_peri_vel(rp, vp, mu),
        ParamPair::ApoEcc(ra, e) => sp_rule_apo_ecc(ra, e, mu),
        ParamPair::ApoVelA(ra, va) => sp_rule_apo_vel(ra, va, mu),
    }
}

/// What [`resolve`] returns: classification followed by the matching rule.
pub open spec fn spec_resolve(s: OrbitSpec, mu: i64) -> Result<OrbitState, OrbitError> {
    match spec_classify(s) {
        Ok(p) => spec_resolve_pair(p, mu),
        Err(e) => Err(e),
    }
}

/// What [`resolve_spec`] returns: the central-body lookup followed by
/// [`resolve`] under the looked-up gravitational parameter.
pub open spec fn spec_resolve_spec(s: OrbitSpec) -> Result<OrbitState, OrbitError> {
    match spec_lookup(s.spk_id) {
        Ok(mu) => spec_resolve(s, mu),
        Err(e) => Err(e),
    }
}

fn rule_apses(rp: i64, ra: i64, mu: i64) -> (r: Result<OrbitState, OrbitError>)
    requires
        valid_mu(mu),
    ensures
        r == sp_rule_apses(rp, ra, mu),
        r is Ok ==> r->Ok_0.wf(),
{
    if MIN_RADIUS <= rp && rp <= ra && ra <= MAX_RADIUS {
        Ok(from_apses(ra, rp, mu))
    } else {
        Err(OrbitError::DomainError)
    }
}

fn rule_peri_ecc(rp: i64, e: i64, mu: i64) -> (r: Result<OrbitState, OrbitError>)
    requires
        valid_mu(mu),
    ensures
        r == sp_rule_peri_ecc(rp, e, mu),
        r is Ok ==> r->Ok_0.wf(),
{
    if rp < MIN_RADIUS || rp > MAX_RADIUS || e < 0 || e >= SCALE {
        return Err(OrbitError::DomainError);
    }
    let rp_u = rp as u128;
    let e_u = e as u128;
    let s_u = SCALE as u128;
    let mu_u = mu as u128;
    proof {
        assert(rp_u * (s_u + e_u) <= 20_000_000_000_000_000_000_000) by (nonlinear_arith)
            requires
                0 <= rp_u <= 10_000_000_000_000_000,
                0 <= e_u < 1_000_000,
                s_u == 1_000_000,
        ;
        assert(rp_u * (s_u - e_u) <= rp_u * (s_u + e_u)) by (nonlinear_arith)
            requires
                0 <= rp_u,
                0 <= e_u < 1_000_000,
                s_u == 1_000_000,
        ;
    }
    let ra_w: u128 = rp_u * (s_u + e_u) / (s_u - e_u);
    proof {
        // ra_w >= rp: the numerator is at least rp times the denominator
        lemma_div_is_ordered(
            rp_u as int * (s_u - e_u) as int,
            rp_u as int * (s_u + e_u) as int,
            (s_u - e_u) as int,
        );
        lemma_div_by_multiple(rp_u as int, (s_u - e_u) as int);
    }
    if ra_w > (MAX_RADIUS as u128) {
        return Err(OrbitError::DomainError);
    }
    let ra = ra_w as i64;
    proof {
        assert(rp_u * mu_u <= 1_400_000_000_000_000_000_000_000_000_000_000) by (nonlinear_arith)
            requires
                0 <= rp_u <= 10_000_000_000_000_000,
                0 <= mu_u <= 132_700_000_000_000_000,
        ;
        assert(rp_u * mu_u >= 4_902_799_000_000_000) by (nonlinear_arith)
            requires
                rp_u >= 1_000_000,
                mu_u >= 4_902_799_000,
        ;
        lemma_multiply_divide_le(
            rp_u as int * mu_u as int,
            SCALE as int,
            1_400_000_000_000_000_000_000_000_000,
        );
        lemma_div_is_ordered(4_902_799_000_000_000, rp_u as int * mu_u as int, SCALE as int);
    }
    let t1: u128 = rp_u * mu_u / s_u;
    proof {
        assert(t1 * (s_u + e_u) <= 2_800_000_000_000_000_000_000_000_000_000_000)
            by (nonlinear_arith)
            requires
                0 <= t1 <= 1_400_000_000_000_000_000_000_000_000,
                0 <= e_u < 1_000_000,
                s_u == 1_000_000,
        ;
        assert(t1 * s_u <= t1 * (s_u + e_u)) by (nonlinear_arith)
            requires
                0 <= t1,
                0 <= e_u,
                s_u == 1_000_000,
        ;
        lemma_div_is_ordered(t1 as int * s_u as int, t1 as int * (s_u + e_u) as int, s_u as int);
        lemma_div_by_multiple(t1 as int, s_u as int);
        lemma_multiply_divide_le(
            t1 as int * (s_u + e_u) as int,
            SCALE as int,
            2_800_000_000_000_000_000_000_000_000,
        );
    }
    let t2: u128 = t1 * (s_u + e_u) / s_u;
    let h_w: u128 = isqrt(t2 * s_u);
    proof {
        lemma_sqrt_floor_le(t2 as int * SCALE, 53_000_000_000_000_000);
        lemma_sqrt_floor_ge(t2 as int * SCALE, 70_000_000);
        assert(53_000_000_000_000_000 < MAX_H);
    }
    Ok(OrbitState { rp, ra, mu, h: h_w as i64, ecc: e })
}

fn rule_peri_vel(rp: i64, vp: i64, mu: i64) -> (r: Result<OrbitState, OrbitError>)
    requires
        valid_mu(mu),
    ensures
        r == sp_rule_peri_vel(rp, vp, mu),
        r is Ok ==> r->Ok_0.wf(),
{
    if rp < MIN_RADIUS || rp > MAX_RADIUS || vp <= 0 {
        return Err(OrbitError::DomainError);
    }
    let rp_u = rp as u128;
    let vp_u = vp as u128;
    let s_u = SCALE as u128;
    let mu_u = mu as u128;
    proof {
        assert(rp_u * vp_u <= 100_000_000_000_000_000_000_000_000_000_000_000)
            by (nonlinear_arith)
            requires
                0 <= rp_u <= 10_000_000_000_000_000,
                0 <= vp_u <= 10_000_000_000_000_000_000,
        ;
    }
    let h_w: u128 = rp_u * vp_u / s_u;
    if h_w == 0 || h_w > (MAX_H as u128) {
        return Err(OrbitError::DomainError);
    }
    proof {
        assert(rp_u * mu_u <= 1_400_000_000_000_000_000_000_000_000_000_000) by (nonlinear_arith)
            requires
                0 <= rp_u <= 10_000_000_000_000_000,
                0 <= mu_u <= 132_700_000_000_000_000,
        ;
        assert(rp_u * mu_u >= 4_902_799_000_000_000) by (nonlinear_arith)
            requires
                rp_u >= 1_000_000,
                mu_u >= 4_902_799_000,
        ;
        lemma_div_is_ordered(4_902_799_000_000_000, rp_u as int * mu_u as int, SCALE as int);
        assert(h_w * h_w <= 10_000_000_000_000_000_000_000_000_000_000_000) by (nonlinear_arith)
            requires
                0 <= h_w <= 100_000_000_000_000_000,
        ;
    }
    let t1: u128 = rp_u * mu_u / s_u;
    let hh: u128 = h_w * h_w;
    let t: u128 = hh / t1;
    if t < s_u || t >= 2 * s_u {
        return Err(OrbitError::DomainError);
    }
    let e_w: u128 = t - s_u;
    proof {
        assert(hh <= mu_u * 2_100_000_000_000_000_000_000_000) by (nonlinear_arith)
            requires
                0 <= hh <= 10_000_000_000_000_000_000_000_000_000_000_000,
                mu_u >= 4_902_799_000,
        ;
        lemma_multiply_divide_le(hh as int, mu_u as int, 2_100_000_000_000_000_000_000_000);
        lemma_div_pos_is_pos(hh as int, mu_u as int);
    }
    let ra_w: u128 = hh / mu_u * s_u / (s_u - e_w);
    if ra_w > (MAX_RADIUS as u128) || ra_w < rp_u {
        return Err(OrbitError::DomainError);
    }
    Ok(OrbitState { rp, ra: ra_w as i64, mu, h: h_w as i64, ecc: e_w as i64 })
}

fn rule_apo_ecc(ra: i64, e: i64, mu: i64) -> (r: Result<OrbitState, OrbitError>)
    requires
        valid_mu(mu),
    ensures
        r == sp_rule_apo_ecc(ra, e, mu),
        r is Ok ==> r->Ok_0.wf(),
{
    if ra < MIN_RADIUS || ra > MAX_RADIUS || e < 0 || e >= SCALE {
        return Err(OrbitError::DomainError);
    }
    let ra_u = ra as u128;
    let e_u = e as u128;
    let s_u = SCALE as u128;
    let mu_u = mu as u128;
    proof {
        assert(ra_u * (s_u - e_u) <= 10_000_000_000_000_000_000_000) by (nonlinear_arith)
            requires
                0 <= ra_u <= 10_000_000_000_000_000,
                0 <= e_u < 1_000_000,
                s_u == 1_000_000,
        ;
        assert(ra_u * (s_u - e_u) <= ra_u * (s_u + e_u)) by (nonlinear_arith)
            requires
                0 <= ra_u,
                0 <= e_u < 1_000_000,
                s_u == 1_000_000,
        ;
    }
    let rp_w: u128 = ra_u * (s_u - e_u) / (s_u + e_u);
    proof {
        // rp_w <= ra: the numerator is at most ra times the denominator
        lemma_div_is_ordered(
            ra_u as int * (s_u - e_u) as int,
            ra_u as int * (s_u + e_u) as int,
            (s_u + e_u) as int,
        );
        lemma_div_by_multiple(ra_u as int, (s_u + e_u) as int);
        lemma_div_pos_is_pos(ra_u as int * (s_u - e_u) as int, (s_u + e_u) as int);
    }
    if rp_w < (MIN_RADIUS as u128) {
        return Err(OrbitError::DomainError);
    }
    let rp = rp_w as i64;
    proof {
        assert(ra_u * mu_u <= 1_400_000_000_000_000_000_000_000_000_000_000) by (nonlinear_arith)
            requires
                0 <= ra_u <= 10_000_000_000_000_000,
                0 <= mu_u <= 132_700_000_000_000_000,
        ;
        assert(ra_u * mu_u >= 4_902_799_000_000_000) by (nonlinear_arith)
            requires
                ra_u >= 1_000_000,
                mu_u >= 4_902_799_000,
        ;
        lemma_multiply_divide_le(
            ra_u as int * mu_u as int,
            SCALE as int,
            1_400_000_000_000_000_000_000_000_000,
        );
        lemma_div_is_ordered(4_902_799_000_000_000, ra_u as int * mu_u as int, SCALE as int);
    }
    let t1: u128 = ra_u * mu_u / s_u;
    proof {
        assert(t1 * (s_u - e_u) <= 1_400_000_000_000_000_000_000_000_000_000_000)
            by (nonlinear_arith)
            requires
                0 <= t1 <= 1_400_000_000_000_000_000_000_000_000,
                0 <= e_u < 1_000_000,
                s_u == 1_000_000,
        ;
        assert(t1 * 1 <= t1 * (s_u - e_u)) by (nonlinear_arith)
            requires
                0 <= t1,
                0 <= e_u < 1_000_000,
                s_u == 1_000_000,
        ;
        lemma_div_is_ordered(t1 as int * 1, t1 as int * (s_u - e_u) as int, s_u as int);
        lemma_div_is_ordered(4_902_799_000, t1 as int * 1, s_u as int);
        lemma_multiply_divide_le(
            t1 as int * (s_u - e_u) as int,
            SCALE as int,
            1_400_000_000_000_000_000_000_000_000,
        );
    }
    let t2: u128 = t1 * (s_u - e_u) / s_u;
    let h_w: u128 = isqrt(t2 * s_u);
    proof {
        lemma_sqrt_floor_le(t2 as int * SCALE, 37_500_000_000_000_000);
        lemma_sqrt_floor_ge(t2 as int * SCALE, 70_000);
        assert(37_500_000_000_000_000 < MAX_H);
    }
    Ok(OrbitState { rp, ra, mu, h: h_w as i64, ecc: e })
}

fn rule_apo_vel(ra: i64, va: i64, mu: i64) -> (r: Result<OrbitState, OrbitError>)
    requires
        valid_mu(mu),
    ensures
        r == sp_rule_apo_vel(ra, va, mu),
        r is Ok ==> r->Ok_0.wf(),
{
    if ra < MIN_RADIUS || ra > MAX_RADIUS || va <= 0 {
        return Err(OrbitError::DomainError);
    }
    let ra_u = ra as u128;
    let va_u = va as u128;
    let s_u = SCALE as u128;
    let mu_u = mu as u128;
    proof {
        assert(ra_u * va_u <= 100_000_000_000_000_000_000_000_000_000_000_000)
            by (nonlinear_arith)
            requires
                0 <= ra_u <= 10_000_000_000_000_000,
                0 <= va_u <= 10_000_000_000_000_000_000,
        ;
    }
    let h_w: u128 = ra_u * va_u / s_u;
    if h_w == 0 || h_w > (MAX_H as u128) {
        return Err(OrbitError::DomainError);
    }
    proof {
        assert(h_w * va_u <= 1_000_000_000_000_000_000_000_000_000_000_000_000)
            by (nonlinear_arith)
            requires
                0 <= h_w <= 100_000_000_000_000_000,
                0 <= va_u <= 10_000_000_000_000_000_000,
        ;
    }
    let q: u128 = h_w * va_u / mu_u;
    if q == 0 || q > s_u {
        return Err(OrbitError::DomainError);
    }
    let e_w: u128 = s_u - q;
    proof {
        assert(h_w * h_w <= 10_000_000_000_000_000_000_000_000_000_000_000) by (nonlinear_arith)
            requires
                0 <= h_w <= 100_000_000_000_000_000,
        ;
        assert(h_w * h_w <= mu_u * 2_100_000_000_000_000_000_000_000) by (nonlinear_arith)
            requires
                0 <= h_w * h_w <= 10_000_000_000_000_000_000_000_000_000_000_000,
                mu_u >= 4_902_799_000,
        ;
        lemma_multiply_divide_le(
            h_w as int * h_w as int,
            mu_u as int,
            2_100_000_000_000_000_000_000_000,
        );
        lemma_div_pos_is_pos(h_w as int * h_w as int, mu_u as int);
    }
    let hh: u128 = h_w * h_w;
    let rp_w: u128 = hh / mu_u * s_u / (s_u + e_w);
    if rp_w < (MIN_RADIUS as u128) || rp_w > ra_u {
        return Err(OrbitError::DomainError);
    }
    Ok(OrbitState { rp: rp_w as i64, ra, mu, h: h_w as i64, ecc: e_w as i64 })
}

/// Applies the matching closed form to a classified parameter pair under the
/// given gravitational parameter.
pub fn resolve_pair(p: ParamPair, mu: i64) -> (r: Result<OrbitState, OrbitError>)
    requires
        valid_mu(mu),
    ensures
        r == spec_resolve_pair(p, mu),
        r is Ok ==> r->Ok_0.wf(),
{
    match p {
        ParamPair::PeriApo(rp, ra) => rule_apses(rp, ra, mu),
        ParamPair::PeriEcc(rp, e) => rule_peri_ecc(rp, e, mu),
        ParamPair::PeriVelP(rp, vp) => rule_peri_vel(rp, vp, mu),
        ParamPair::ApoEcc(ra, e) => rule_apo_ecc(ra, e, mu),
        ParamPair::ApoVelA(ra, va) => rule_apo_vel(ra, va, mu),
    }
}

/// Resolves a partial parameter record into a full orbital state around a
/// body of gravitational parameter `mu`, or rejects it with a typed failure.
/// A pure function: the result is fully determined by the record and `mu`.
pub fn resolve(s: &OrbitSpec, mu: i64) -> (r: Result<OrbitState, OrbitError>)
    requires
        valid_mu(mu),
    ensures
        r == spec_resolve(*s, mu),
        r is Ok ==> r->Ok_0.wf() && r->Ok_0.mu == mu,
{
    match classify(s) {
        Ok(p) => resolve_pair(p, mu),
        Err(e) => Err(e),
    }
}

/// Resolves a record whose central body is named by its `spk_id` field:
/// looks the body up, then resolves under its gravitational parameter.
pub fn resolve_spec(s: &OrbitSpec) -> (r: Result<OrbitState, OrbitError>)
    ensures
        r == spec_resolve_spec(*s),
        r is Ok ==> r->Ok_0.wf(),
{
    match lookup(s.spk_id) {
        Ok(mu) => resolve(s, mu),
        Err(e) => Err(e),
    }
}

} // verus!
