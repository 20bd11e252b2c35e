//! Failure taxonomy for the acquisition core.

use vstd::prelude::*;

verus! {

/// The status code with which the native scanning subsystem reports
/// success.
pub const STATUS_GOOD: u32 = 0;

/// Everything that can go wrong while materializing native data.
///
/// Absent descriptor text fields are deliberately *not* an error: they
/// degrade to empty strings during materialization.
#[derive(Clone, Copy, Debug, PartialEq, Eq, Structural)]
pub enum ScanError {
    /// The native scanning subsystem reported a non-success status code;
    /// the code is carried unchanged for the caller to inspect.
    NativeStatus { code: u32 },
    /// The byte count of a transferred page disagrees with
    /// `pixels_per_line * lines * channels` for the reported format.
    /// Truncating or padding the sample stream would hide a driver
    /// inconsistency, so construction fails instead.
    BufferConstruction,
}

} // verus!
