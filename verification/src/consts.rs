//! Protocol constants: frame layout bytes, method identifiers, device
//! identity, firmware allow-list and size limits.

use vstd::prelude::*;

verus! {

/// Every report written to the device is exactly this long (zero-padded).
pub const FRAME_LEN: usize = 64;

/// Second byte of every command frame, echoed as the first byte of an
/// ordinary command response.
pub const FRAME_MARKER: u8 = 88;

/// Fourth byte of every command frame.
pub const PROTOCOL_MARKER: u8 = 165;

/// Largest payload a command frame can carry (frame capacity minus the
/// 6-byte header of the 33 significant bytes).
pub const MAX_PAYLOAD: usize = 27;

/// Both status bytes of a response must equal this sentinel.
pub const STATUS_SUCCESS: u8 = 1;

/// The version-query response carries this marker as its first byte.
pub const VERSION_MARKER: u8 = 1;

/// Raw media bytes carried by one upload chunk.
pub const CHUNK_LEN: usize = 24;

/// Animated-media uploads at or above this many bytes are rejected locally.
pub const GIF_SIZE_LIMIT: usize = 1013808;

/// Chunk indices are 16-bit, so a media buffer can span at most this many
/// bytes (65536 chunks of 24 bytes).
pub const MAX_MEDIA_LEN: usize = 24 * 65536;

/// Storage slot class for still images.
pub const CHANNEL_IMAGE: u8 = 1;

/// Storage slot class for animated media; its final chunk is padded so the
/// checksummed span is 32-bit aligned.
pub const CHANNEL_GIF: u8 = 2;

// Method identifiers, one big-endian byte pair per primitive.
pub const ZOOM65_SCREEN_UP: [u8; 2] = [16, 1];

pub const ZOOM65_SCREEN_DOWN: [u8; 2] = [16, 2];

pub const ZOOM65_SCREEN_SWITCH: [u8; 2] = [16, 3];

pub const ZOOM65_RESET_SCREEN_ID: [u8; 2] = [16, 4];

pub const ZOOM65_SET_TIME_ID: [u8; 2] = [32, 1];

pub const ZOOM65_SET_WEATHER_ID: [u8; 2] = [32, 2];

pub const ZOOM65_SET_SYSINFO_ID: [u8; 2] = [32, 3];

pub const ZOOM65_UPLOAD_START_ID: [u8; 2] = [64, 1];

pub const ZOOM65_UPLOAD_LENGTH: [u8; 2] = [64, 2];

pub const ZOOM65_UPLOAD_END: [u8; 2] = [64, 3];

pub const ZOOM65_IMAGE_DELETE: [u8; 2] = [80, 1];

pub const ZOOM65_GIF_DELETE: [u8; 2] = [80, 2];

// Identity of the one allow-listed HID target.
pub const ZOOM65_VENDOR_ID: u16 = 0x36b0;

pub const ZOOM65_PRODUCT_ID: u16 = 0x5501;

pub const ZOOM65_USAGE_PAGE: u16 = 0xff00;

pub const ZOOM65_USAGE: u16 = 1;

// Firmware versions the driver knows how to talk to.
pub const APPROVED_VERSION_A: u8 = 4;

pub const APPROVED_VERSION_B: u8 = 5;

} // verus!
