//! Error taxonomy and the small value types the driver speaks in.

use vstd::prelude::*;

verus! {

/// Every way a driver operation can fail. Each failure aborts the current
/// multi-step operation immediately; nothing is retried or rolled back.
#[derive(Clone, Copy, PartialEq, Eq, Structural, Debug)]
pub enum Zoom65Error {
    /// Device discovery found no allow-listed target.
    DeviceNotFound,
    /// The version byte returned at session open is not in the allow-list.
    UnknownFirmwareVersion,
    /// The underlying HID write or read failed; propagated opaquely.
    TransportFailure,
    /// A response violates the framing invariants (too short, or the wrong
    /// marker byte where a fixed one is required).
    MalformedResponse,
    /// The device answered with a non-success status pair.
    UpdateCommandFailed,
    /// An animated-media buffer was rejected by the local size pre-check.
    ImageTooLarge,
    /// A command payload does not fit the fixed frame (more than 27 bytes).
    EncodingError,
}

/// A weather icon code. The device is authoritative about which codes it
/// renders; no range validation is performed locally.
#[derive(Clone, Copy, PartialEq, Eq, Structural, Debug)]
pub struct Icon {
    pub code: u8,
}

/// A logical screen page coordinate: a signed row and an unsigned column,
/// relative to the home position the reset primitive returns to.
#[derive(Clone, Copy, PartialEq, Eq, Structural, Debug)]
pub struct ScreenPosition {
    pub row: i8,
    pub col: u8,
}

impl ScreenPosition {
    /// The (row delta, column delta) pair relative to home. Home is the
    /// origin, so the deltas are the coordinates themselves.
    pub fn to_directions(&self) -> (r: (i8, u8))
        ensures
            r.0 == self.row,
            r.1 == self.col,
    {
        (self.row, self.col)
    }
}

} // verus!
