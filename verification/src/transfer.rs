//! The transfer planner: a coplanar Hohmann transfer between two orbits
//! around the same central body.

use vstd::prelude::*;
use crate::error::OrbitError;
use crate::orbit::{
    from_apses, spec_ecc_from_apses, spec_h_from_apses, spec_period, spec_va, spec_vp, OrbitState,
};

verus! {

/// The two burns of a Hohmann transfer (km/s, scaled): signed velocity
/// change at injection onto the transfer ellipse, signed velocity change at
/// insertion into the destination orbit, and the total magnitude of both.
#[derive(Clone, Copy, Debug, PartialEq, Eq, Structural)]
pub struct DeltaVResult {
    /// Signed velocity change at transfer injection.
    pub burn1: i64,
    /// Signed velocity change at transfer insertion.
    pub burn2: i64,
    /// `|burn1| + |burn2|`.
    pub total: i64,
}

/// A planned transfer: the transfer ellipse, the two burns, and the time of
/// flight (half the transfer ellipse's period, in seconds, scaled).
#[derive(Clone, Copy, Debug, PartialEq, Eq, Structural)]
pub struct TransferPlan {
    /// The transfer ellipse: periapsis at the inner orbit's periapsis,
    /// apoapsis at the outer orbit's apoapsis, same central body.
    pub transfer: OrbitState,
    /// The two burns.
    pub delta_v: DeltaVResult,
    /// Time of flight: half the transfer ellipse's period.
    pub transfer_time: u128,
}

/// The absolute value.
pub open spec fn abs_val(x: int) -> int {
    if x >= 0 {
        x
    } else {
        -x
    }
}

/// The origin orbit lies inside the destination orbit: an outward transfer.
/// Two confocal coaxial ellipses are nested or disjoint exactly when their
/// apsis radii are ordered componentwise.
pub open spec fn spec_outward(o: OrbitState, d: OrbitState) -> bool {
    o.rp <= d.rp && o.ra <= d.ra
}

/// The destination orbit lies inside the origin orbit: an inward transfer.
pub open spec fn spec_inward(o: OrbitState, d: OrbitState) -> bool {
    d.rp <= o.rp && d.ra <= o.ra
}

/// The transfer ellipse: periapsis at the smaller periapsis radius, apoapsis
/// at the larger apoapsis radius, around the common central body.
pub open spec fn spec_transfer_orbit(o: OrbitState, d: OrbitState) -> OrbitState {
    let rp = if o.rp <= d.rp {
        o.rp
    } else {
        d.rp
    };
    let ra = if o.ra >= d.ra {
        o.ra
    } else {
        d.ra
    };
    OrbitState {
        rp,
        ra,
        mu: o.mu,
        h: spec_h_from_apses(rp as int, ra as int, o.mu as int) as i64,
        ecc: spec_ecc_from_apses(rp as int, ra as int) as i64,
    }
}

/// Packs two signed burns with the total of their magnitudes.
pub open spec fn spec_dv(b1: int, b2: int) -> DeltaVResult {
    DeltaVResult { burn1: b1 as i64, burn2: b2 as i64, total: (abs_val(b1) + abs_val(b2)) as i64 }
}

/// What [`plan_transfer`] returns. Outward: depart with a periapsis burn,
/// arrive with an apoapsis burn. Inward: depart with an apoapsis burn,
/// arrive with a periapsis burn. Orbits that are neither nested nor disjoint
/// cannot be classified and are rejected. When both classifications hold the
/// two differ only in the bookkeeping of the (identical) burns; the outward
/// reading is used.
pub open spec fn spec_plan(o: OrbitState, d: OrbitState) -> Result<TransferPlan, OrbitError> {
    if spec_outward(o, d) {
        let t = spec_transfer_orbit(o, d);
        Ok(TransferPlan {
            transfer: t,
            delta_v: spec_dv(spec_vp(t) - spec_vp(o), spec_va(d) - spec_va(t)),
            transfer_time: (spec_period(t) / 2) as u128,
        })
    } else if spec_inward(o, d) {
        let t = spec_transfer_orbit(o, d);
        Ok(TransferPlan {
            transfer: t,
            delta_v: spec_dv(spec_va(t) - spec_va(o), spec_vp(d) - spec_vp(t)),
            transfer_time: (spec_period(t) / 2) as u128,
        })
    } else {
        Err(OrbitError::AmbiguousDirection)
    }
}

/// Plans the Hohmann transfer from `origin` to `destination`: classifies the
/// direction, constructs the transfer ellipse through the innermost
/// periapsis and the outermost apoapsis, and computes the two burns and the
/// time of flight. Both orbits must share the central body; that is a caller
/// contract, not a silently handled case.
pub fn plan_transfer(origin: &OrbitState, destination: &OrbitState) -> (r: Result<
    TransferPlan,
    OrbitError,
>)
    requires
        origin.wf(),
        destination.wf(),
        origin.mu == destination.mu,
    ensures
        r == spec_plan(*origin, *destination),
        r is Ok <==> (spec_outward(*origin, *destination) || spec_inward(
            *origin,
            *destination,
        )),
        r is Ok ==> {
            let p = r->Ok_0;
            &&& p.transfer.wf()
            &&& p.transfer.mu == origin.mu
            &&& p.transfer_time as int == spec_period(p.transfer) / 2
            &&& p.delta_v.total == abs_val(p.delta_v.burn1 as int) + abs_val(
                p.delta_v.burn2 as int,
            )
        },
{
    let o = *origin;
    let d = *destination;
    let outward = o.rp <= d.rp && o.ra <= d.ra;
    let inward = d.rp <= o.rp && d.ra <= o.ra;
    if !outward && !inward {
        return Err(OrbitError::AmbiguousDirection);
    }
    let rp = if o.rp <= d.rp {
        o.rp
    } else {
        d.rp
    };
    let ra = if o.ra >= d.ra {
        o.ra
    } else {
        d.ra
    };
    let t = from_apses(ra, rp, o.mu);
    let (va_t, vp_t) = t.apsis_velocities();
    let p = t.period();
    let time: u128 = p / 2;
    if outward {
        let (_, vp_o) = o.apsis_velocities();
        let (va_d, _) = d.apsis_velocities();
        let b1 = vp_t - vp_o;
        let b2 = va_d - va_t;
        let m1 = if b1 < 0 {
            -b1
        } else {
            b1
        };
        let m2 = if b2 < 0 {
            -b2
        } else {
            b2
        };
        Ok(TransferPlan {
            transfer: t,
            delta_v: DeltaVResult { burn1: b1, burn2: b2, total: m1 + m2 },
            transfer_time: time,
        })
    } else {
        let (va_o, _) = o.apsis_velocities();
        let (_, vp_d) = d.apsis_velocities();
        let b1 = va_t - va_o;
        let b2 = vp_d - vp_t;
        let m1 = if b1 < 0 {
            -b1
        } else {
            b1
        };
        let m2 = if b2 < 0 {
            -b2
        } else {
            b2
        };
        Ok(TransferPlan {
            transfer: t,
            delta_v: DeltaVResult { burn1: b1, burn2: b2, total: m1 + m2 },
            transfer_time: time,
        })
    }
}

} // verus!
