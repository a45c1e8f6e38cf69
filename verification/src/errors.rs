//! Error taxonomy for the capture pipeline.

use vstd::prelude::*;

verus! {

/// Display enumeration failed: the OS listed no displays, or the listing call
/// itself reported an error.
#[derive(Debug, Clone, PartialEq, Eq, Structural)]
pub enum EnumerationError {
    /// The enumeration call reported an error.
    OsFailure,
    /// The OS reported zero displays.
    NoScreens,
}

/// Grabbing one display's pixels failed.
#[derive(Debug, Clone, PartialEq, Eq, Structural)]
pub enum CaptureError {
    /// The OS-level grab reported an error.
    OsFailure,
    /// The returned buffer could not be reinterpreted as a rectangular RGBA
    /// buffer matching the reported dimensions.
    BadFrame,
}

/// Compositing failed. These conditions indicate an enumeration inconsistency
/// or an unaddressable canvas, never a user mistake.
#[derive(Debug, Clone, PartialEq, Eq, Structural)]
pub enum CompositionError {
    /// No captures were given.
    EmptyInput,
    /// The bounding box of the displays exceeds what a canvas can address.
    CanvasTooLarge,
}

/// A selection could not be mapped to a crop.
#[derive(Debug, Clone, PartialEq, Eq, Structural)]
pub enum RegionError {
    /// The requested rectangle extends beyond the canvas.
    OutOfBounds,
    /// The requested rectangle has zero width or height.
    EmptyRegion,
    /// The monitor index does not refer to a display of the layout.
    InvalidMonitorIndex,
}

/// The caller used the session API out of order: a single-slot store was read
/// although it holds nothing.
#[derive(Debug, Clone, PartialEq, Eq, Structural)]
pub enum ProtocolError {
    /// The pending preview or layout store is empty.
    NoPendingData,
    /// The pending capture store is empty.
    NoPendingCapture,
}

/// Encoding a preview failed.
#[derive(Debug, Clone, PartialEq, Eq, Structural)]
pub enum EncodeError {
    /// The lossless encoder reported an error.
    PngFailure,
}

/// Everything that can go wrong while finalizing a session.
#[derive(Debug, Clone, PartialEq, Eq, Structural)]
pub enum SessionError {
    Protocol(ProtocolError),
    Region(RegionError),
}

/// Everything that can abort a capture before a canvas exists. Each of these
/// is terminal for the session: no partial composite is ever handed on.
#[derive(Debug, Clone, PartialEq, Eq, Structural)]
pub enum CaptureFailure {
    Enumeration(EnumerationError),
    Capture(CaptureError),
    Composition(CompositionError),
}

} // verus!
