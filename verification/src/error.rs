use vstd::prelude::*;

verus! {

/// An error originating from this crate's own logic.
///
/// Transport (bus) errors cannot appear here: this type is only used by
/// functions that never touch hardware.
#[derive(Debug, Clone, Copy, PartialEq, Eq, Structural)]
pub enum HytError {
    /// The sensor answered in command mode while normal-mode measurement data
    /// was expected; the frame carries no measurement.
    MeasurementTakenInCommandMode,
    /// The requested scale is too large for every possible reading of the
    /// chosen range to be representable in the result type.
    ScaleValueOutOfBounds,
}

} // verus!
