//! The resolved orbital state and its derived queries.

use vstd::prelude::*;
use vstd::arithmetic::div_mod::{
    lemma_div_is_ordered, lemma_div_is_ordered_by_denominator, lemma_div_multiples_vanish,
    lemma_div_pos_is_pos, lemma_multiply_divide_le, lemma_multiply_divide_lt,
};
use crate::body::valid_mu;
use crate::fixed::{isqrt, lemma_sqrt_floor_ge, lemma_sqrt_floor_le, sqrt_floor, SCALE};

verus! {

/// Smallest supported apsis radius: 1 km.
pub const MIN_RADIUS: i64 = 1_000_000;

/// Largest supported apsis radius: ten billion km, beyond every planetary
/// orbit of the solar system.
pub const MAX_RADIUS: i64 = 10_000_000_000_000_000;

/// Largest supported specific angular momentum, comfortably above that of
/// any bound orbit within the supported radius and mass ranges.
pub const MAX_H: i64 = 100_000_000_000_000_000;

/// Two pi in fixed-point representation, rounded down.
pub const TWO_PI: i64 = 6_283_185;

/// A fully resolved, immutable elliptical orbit around one central body.
///
/// Invariants are captured by [`OrbitState::wf`]; every constructor of the
/// library establishes them and no method mutates a state.
#[derive(Clone, Copy, Debug, PartialEq, Eq, Structural)]
pub struct OrbitState {
    /// Periapsis radius (km, scaled).
    pub rp: i64,
    /// Apoapsis radius (km, scaled).
    pub ra: i64,
    /// Standard gravitational parameter of the central body (km^3/s^2,
    /// scaled).
    pub mu: i64,
    /// Specific angular momentum (km^2/s, scaled).
    pub h: i64,
    /// Eccentricity (dimensionless, scaled); `0 <= ecc < 1` since only bound
    /// elliptical orbits are supported.
    pub ecc: i64,
}

impl OrbitState {
    /// Well-formedness: radii ordered and in range, gravitational parameter
    /// within the supported table span, positive bounded angular momentum,
    /// eccentricity in `[0, 1)`.
    pub open spec fn wf(self) -> bool {
        &&& MIN_RADIUS <= self.rp <= self.ra <= MAX_RADIUS
        &&& valid_mu(self.mu)
        &&& 0 < self.h <= MAX_H
        &&& 0 <= self.ecc < SCALE
    }
}

/// Eccentricity of the ellipse through both apses: `(ra - rp) / (ra + rp)`.
pub open spec fn spec_ecc_from_apses(rp: int, ra: int) -> int {
    ((ra - rp) * SCALE) / (ra + rp)
}

/// Specific angular momentum of the ellipse through both apses:
/// `sqrt(2 * mu) * sqrt(rp * ra / (rp + ra))`.
pub open spec fn spec_h_from_apses(rp: int, ra: int, mu: int) -> int {
    (sqrt_floor(2 * mu * SCALE) * sqrt_floor(((rp * ra) / (rp + ra)) * SCALE)) / (SCALE as int)
}

/// Orbital period by Kepler's third law, `2 * pi / sqrt(mu) * a^(3/2)` with
/// semi-major axis `a == (rp + ra) / 2`, in seconds (scaled).
pub open spec fn spec_period(o: OrbitState) -> int {
    let a = (o.rp + o.ra) / 2;
    (TWO_PI * a * sqrt_floor(a * SCALE)) / (sqrt_floor(o.mu * SCALE) * SCALE)
}

/// Speed at apoapsis, `h / ra` (km/s, scaled).
pub open spec fn spec_va(o: OrbitState) -> int {
    (o.h * SCALE) / (o.ra as int)
}

/// Speed at periapsis, `h / rp` (km/s, scaled).
pub open spec fn spec_vp(o: OrbitState) -> int {
    (o.h * SCALE) / (o.rp as int)
}

/// Builds the orbit through a given apoapsis and periapsis around a body of
/// gravitational parameter `mu`.
pub fn from_apses(ra: i64, rp: i64, mu: i64) -> (r: OrbitState)
    requires
        MIN_RADIUS <= rp <= ra <= MAX_RADIUS,
        valid_mu(mu),
    ensures
        r.wf(),
        r.rp == rp,
        r.ra == ra,
        r.mu == mu,
        r.h == spec_h_from_apses(rp as int, ra as int, mu as int),
        r.ecc == spec_ecc_from_apses(rp as int, ra as int),
{
    let rp_u = rp as u128;
    let ra_u = ra as u128;
    let s: u128 = rp_u + ra_u;
    proof {
        assert(rp_u * ra_u <= 100_000_000_000_000_000_000_000_000_000_000) by (nonlinear_arith)
            requires
                0 <= rp_u <= 10_000_000_000_000_000,
                0 <= ra_u <= 10_000_000_000_000_000,
        ;
    }
    let prod: u128 = rp_u * ra_u;
    let q: u128 = prod / s;
    proof {
        // q is between half the periapsis radius and the apoapsis radius
        assert(prod <= s * 10_000_000_000_000_000) by (nonlinear_arith)
            requires
                prod == rp_u * ra_u,
                s == rp_u + ra_u,
                0 <= rp_u <= 10_000_000_000_000_000,
                0 <= ra_u,
        ;
        lemma_multiply_divide_le(prod as int, s as int, 10_000_000_000_000_000);
        assert(s * 500_000 <= prod) by (nonlinear_arith)
            requires
                prod == rp_u * ra_u,
                s == rp_u + ra_u,
                1_000_000 <= rp_u,
                rp_u <= ra_u,
        ;
        lemma_div_is_ordered(s as int * 500_000, prod as int, s as int);
        lemma_div_multiples_vanish(500_000, s as int);
        assert(500_000 <= q <= 10_000_000_000_000_000);
    }
    let qa: u128 = isqrt(q * (SCALE as u128));
    let qb: u128 = isqrt(2 * (mu as u128) * (SCALE as u128));
    proof {
        lemma_sqrt_floor_le(q as int * SCALE, 100_000_000_000);
        lemma_sqrt_floor_ge(q as int * SCALE, 700_000);
        lemma_sqrt_floor_le(2 * mu * SCALE, 520_000_000_000);
        lemma_sqrt_floor_ge(2 * mu * SCALE, 98_000_000);
        assert(qb * qa <= 52_000_000_000_000_000_000_000) by (nonlinear_arith)
            requires
                0 <= qa <= 100_000_000_000,
                0 <= qb <= 520_000_000_000,
        ;
        assert(68_600_000_000_000 <= qb * qa) by (nonlinear_arith)
            requires
                700_000 <= qa,
                98_000_000 <= qb,
        ;
    }
    let h_u: u128 = qb * qa / (SCALE as u128);
    proof {
        lemma_multiply_divide_le(qb as int * qa as int, SCALE as int, 52_000_000_000_000_000);
        lemma_div_is_ordered(68_600_000_000_000, qb as int * qa as int, SCALE as int);
        assert(0 < h_u <= MAX_H);
    }
    let e_u: u128 = ((ra - rp) as u128) * (SCALE as u128) / s;
    proof {
        lemma_multiply_divide_lt((ra - rp) as int * SCALE, s as int, SCALE as int);
        lemma_div_pos_is_pos((ra - rp) as int * SCALE, s as int);
        assert(e_u < SCALE);
    }
    OrbitState { rp, ra, mu, h: h_u as i64, ecc: e_u as i64 }
}

impl OrbitState {
    /// Orbital period of this orbit, in seconds (scaled): Kepler's third law
    /// over the semi-major axis. Total on well-formed states; a pure query.
    pub fn period(&self) -> (t: u128)
        requires
            self.wf(),
        ensures
            t as int == spec_period(*self),
    {
        let a: u128 = ((self.rp as u128) + (self.ra as u128)) / 2;
        let qa: u128 = isqrt(a * (SCALE as u128));
        let qm: u128 = isqrt((self.mu as u128) * (SCALE as u128));
        proof {
            lemma_sqrt_floor_le(a as int * SCALE, 100_000_000_000);
            lemma_sqrt_floor_le(self.mu * SCALE, 370_000_000_000);
            lemma_sqrt_floor_ge(self.mu * SCALE, 70_000_000);
            assert((TWO_PI as u128) * a * qa <= 7_000_000_000_000_000_000_000_000_000_000_000)
                by (nonlinear_arith)
                requires
                    (TWO_PI as u128) == 6_283_185,
                    0 <= a <= 10_000_000_000_000_000,
                    0 <= qa <= 100_000_000_000,
            ;
        }
        let num: u128 = (TWO_PI as u128) * a * qa;
        let den: u128 = qm * (SCALE as u128);
        num / den
    }

    /// Speeds at apoapsis and periapsis, in that order (km/s, scaled):
    /// `(h / ra, h / rp)`. A pure query on well-formed states.
    pub fn apsis_velocities(&self) -> (v: (i64, i64))
        requires
            self.wf(),
        ensures
            v.0 as int == spec_va(*self),
            v.1 as int == spec_vp(*self),
            0 <= v.0 <= v.1 <= MAX_H,
    {
        let hs: u128 = (self.h as u128) * (SCALE as u128);
        let va: u128 = hs / (self.ra as u128);
        let vp: u128 = hs / (self.rp as u128);
        proof {
            lemma_multiply_divide_le(hs as int, self.rp as int, MAX_H as int);
            lemma_div_is_ordered_by_denominator(hs as int, self.rp as int, self.ra as int);
            lemma_div_pos_is_pos(hs as int, self.ra as int);
        }
        (va as i64, vp as i64)
    }
}

} // verus!
