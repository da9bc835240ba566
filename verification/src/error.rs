//! The failure taxonomy of orbit resolution and transfer planning.

use vstd::prelude::*;

verus! {

/// Every way in which building an orbit or planning a transfer can fail.
/// Failures are always surfaced to the caller as a typed result; nothing is
/// silently defaulted and nothing aborts.
#[derive(Clone, Copy, Debug, PartialEq, Eq, Structural)]
pub enum OrbitError {
    /// No central-body code was supplied at all.
    MissingBody,
    /// A central-body code outside the supported table was supplied.
    UnsupportedBody,
    /// Fewer than two shape-determining parameters were supplied.
    InsufficientArguments,
    /// Two parameters were supplied, but no supported closed form combines
    /// them into an orbit shape.
    IncompatibleArguments,
    /// The two orbits of a transfer cannot be classified as one inner and one
    /// outer orbit: their radial ranges interleave.
    AmbiguousDirection,
    /// The supplied values are outside the supported physical domain: a
    /// radius or speed that is not positive, a radius beyond the supported
    /// range, an eccentricity not in `[0, 1)`, or a combination that does not
    /// describe a bound elliptical orbit.
    DomainError,
}

} // verus!
