//! Two-body orbital mechanics over fixed-point arithmetic.
//!
//! The library derives a complete orbital state (periapsis, apoapsis,
//! gravitational parameter, specific angular momentum, eccentricity) from a
//! partial set of orbital parameters, and plans a coplanar Hohmann transfer
//! between two such orbits: the transfer ellipse, the two burns, and the
//! transfer time.
//!
//! All physical quantities are fixed-point integers with six fractional
//! decimal digits (see [`fixed::SCALE`]): radii in km, speeds in km/s,
//! gravitational parameters in km^3/s^2, times in s.

pub mod body;
pub mod error;
pub mod fixed;
pub mod laws;
pub mod orbit;
pub mod resolver;
pub mod transfer;
