//! Domain errors reported by the toolpath core.  All are explicit local
//! failures: nothing in the core is silently clamped or skipped.

use vstd::prelude::*;

verus! {

/// Why a geometric or sequencing operation was rejected.
#[derive(Clone, Copy, Debug, PartialEq, Eq, Structural)]
pub enum ToolpathError {
    /// An interpolation weight outside the open interval between the
    /// endpoints was requested.
    InterpolationWeight,
    /// A duration was requested over a single point, which spans no distance.
    SinglePointDuration,
    /// A duration was requested over a point count no interpolator supports.
    UnsupportedPointCount,
    /// The operation is not defined for this curve kind (for example closing
    /// a loop over a particle set).
    UnsupportedOperation,
}

} // verus!
