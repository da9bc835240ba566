//! The table of standard gravitational parameters of the supported central
//! bodies, keyed by their identifier codes.

use vstd::prelude::*;
use crate::error::OrbitError;

verus! {

/// Standard gravitational parameters, in km^3/s^2 scaled by
/// [`crate::fixed::SCALE`].
pub const MU_SUN: i64 = 132_700_000_000_000_000;

pub const MU_MERCURY: i64 = 22_030_000_000;

pub const MU_VENUS: i64 = 325_700_000_000;

pub const MU_EARTH: i64 = 398_600_000_000;

pub const MU_MARS: i64 = 43_050_000_000;

pub const MU_JUPITER: i64 = 126_800_000_000_000;

pub const MU_SATURN: i64 = 37_940_000_000_000;

pub const MU_URANUS: i64 = 5_794_000_000_000;

pub const MU_NEPTUNE: i64 = 6_809_000_000_000;

pub const MU_MOON: i64 = 4_902_799_000;

/// The smallest gravitational parameter in the table (the Moon's).
pub const MIN_MU: i64 = MU_MOON;

/// The largest gravitational parameter in the table (the Sun's).
pub const MAX_MU: i64 = MU_SUN;

/// A gravitational parameter within the span of the supported table. The
/// resolver accepts any such value.
pub open spec fn valid_mu(mu: i64) -> bool {
    MIN_MU <= mu <= MAX_MU
}

/// What [`lookup`] returns: the table row of the given code, `MissingBody`
/// when no code was supplied, `UnsupportedBody` for a code outside the table.
pub open spec fn spec_lookup(code: Option<i32>) -> Result<i64, OrbitError> {
    match code {
        None => Err(OrbitError::MissingBody),
        Some(c) => if c == 0 {
            Ok(MU_SUN)
        } else if c == 1 {
            Ok(MU_MERCURY)
        } else if c == 2 {
            Ok(MU_VENUS)
        } else if c == 3 {
            Ok(MU_EARTH)
        } else if c == 4 {
            Ok(MU_MARS)
        } else if c == 5 {
            Ok(MU_JUPITER)
        } else if c == 6 {
            Ok(MU_SATURN)
        } else if c == 7 {
            Ok(MU_URANUS)
        } else if c == 8 {
            Ok(MU_NEPTUNE)
        } else if c == 301 {
            Ok(MU_MOON)
        } else {
            Err(OrbitError::UnsupportedBody)
        },
    }
}

/// Maps a central-body identifier code to its standard gravitational
/// parameter. Codes 0 through 8 are the Sun and the eight planets; 301 is
/// the Moon. Any other code is a data-coverage gap (`UnsupportedBody`);
/// a missing code is a caller-contract violation (`MissingBody`).
pub fn lookup(code: Option<i32>) -> (r: Result<i64, OrbitError>)
    ensures
        r == spec_lookup(code),
        r is Ok ==> valid_mu(r->Ok_0),
{
    match code {
        None => Err(OrbitError::MissingBody),
        Some(c) => match c {
            0 => Ok(MU_SUN),
            1 => Ok(MU_MERCURY),
            2 => Ok(MU_VENUS),
            3 => Ok(MU_EARTH),
            4 => Ok(MU_MARS),
            5 => Ok(MU_JUPITER),
            6 => Ok(MU_SATURN),
            7 => Ok(MU_URANUS),
            8 => Ok(MU_NEPTUNE),
            301 => Ok(MU_MOON),
            _ => Err(OrbitError::UnsupportedBody),
        },
    }
}

} // verus!
