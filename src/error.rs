use vstd::prelude::*;

verus! {

/// The ways an operation of this library can fail.
#[derive(Debug, Clone, Copy, PartialEq, Eq, Structural)]
pub enum DspError {
    /// A constructor was given a size or span it cannot build.
    InvalidParameter,
    /// A buffer's length differs from the length the component is fixed to.
    LengthMismatch,
    /// A required input was absent.
    NullOrMissing,
}

} // verus!
