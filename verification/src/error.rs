//! The error type handed to user callbacks.

use vstd::prelude::*;

verus! {

/// A failure reported by the engine to the calling update code.
///
/// Tessellation failures are returned to the caller as typed values;
/// the current frame's partially built geometry is left intact, so the
/// caller decides whether to abort the frame.
#[derive(Clone, Copy, Debug, PartialEq, Eq, Structural)]
pub enum PumiceError {
    /// The shape outline has zero area (or cannot be closed), so there
    /// is nothing to fill.
    DegenerateGeometry,
    /// Appending the shape would push the vertex count past the 16-bit
    /// index space of the geometry buffer.
    GeometryFull,
}

/// Result alias used throughout the engine's public interface.
pub type PumiceResult<T> = Result<T, PumiceError>;

impl PumiceError {
    /// A short description of the failure.  (The engine's types carry
    /// no `Display` implementation; embedders wrap them if they need
    /// one.)
    pub fn message(&self) -> (s: &'static str)
        ensures
            *self is DegenerateGeometry ==> s@ == "degenerate geometry cannot be filled"@,
            *self is GeometryFull ==> s@ == "geometry buffer is full"@,
    {
        match self {
            PumiceError::DegenerateGeometry => "degenerate geometry cannot be filled",
            PumiceError::GeometryFull => "geometry buffer is full",
        }
    }
}

} // verus!
