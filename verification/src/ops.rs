//! High-level operations: thin, fully specified builders for the frames of
//! the clock, weather, system-telemetry and slot-clearing commands. Each
//! builds one command frame; the transport shell exchanges it and validates
//! the response.

use vstd::prelude::*;

use crate::consts::{
    FRAME_LEN, ZOOM65_GIF_DELETE, ZOOM65_IMAGE_DELETE, ZOOM65_SET_SYSINFO_ID, ZOOM65_SET_TIME_ID,
    ZOOM65_SET_WEATHER_ID,
};
use crate::frame::{build_frame, spec_command_frame, Frame};
use crate::types::Icon;

verus! {

/// The clock payload: the year without its century (the device renders two
/// digits, so the value aliases every 100 years by design), then month,
/// day, hour, minute and second, one byte each.
pub open spec fn spec_time_payload(
    year: nat,
    month: u8,
    day: u8,
    hour: u8,
    minute: u8,
    second: u8,
) -> Seq<u8> {
    seq![(year % 100) as u8, month, day, hour, minute, second]
}

/// Frames a time synchronisation command.
pub fn set_time_frame(year: u16, month: u8, day: u8, hour: u8, minute: u8, second: u8) -> (f:
    Frame)
    ensures
        f@ == spec_command_frame(
            ZOOM65_SET_TIME_ID[0],
            ZOOM65_SET_TIME_ID[1],
            spec_time_payload(year as nat, month, day, hour, minute, second),
        ),
        f@.len() == FRAME_LEN,
{
    let payload: [u8; 6] = [(year % 100) as u8, month, day, hour, minute, second];
    proof {
        assert(payload@ =~= spec_time_payload(year as nat, month, day, hour, minute, second));
    }
    build_frame(ZOOM65_SET_TIME_ID, payload.as_slice())
}

/// The weather payload: icon code, then current, low and high temperature,
/// one byte each. No range validation happens locally; the device is
/// authoritative.
pub open spec fn spec_weather_payload(icon: Icon, current: u8, low: u8, high: u8) -> Seq<u8> {
    seq![icon.code, current, low, high]
}

/// Frames a weather report command.
pub fn set_weather_frame(icon: Icon, current: u8, low: u8, high: u8) -> (f: Frame)
    ensures
        f@ == spec_command_frame(
            ZOOM65_SET_WEATHER_ID[0],
            ZOOM65_SET_WEATHER_ID[1],
            spec_weather_payload(icon, current, low, high),
        ),
        f@.len() == FRAME_LEN,
{
    let payload: [u8; 4] = [icon.code, current, low, high];
    proof {
        assert(payload@ =~= spec_weather_payload(icon, current, low, high));
    }
    build_frame(ZOOM65_SET_WEATHER_ID, payload.as_slice())
}

/// The system-telemetry payload: CPU and GPU temperature, then the two
/// bytes of the externally quantized download rate.
pub open spec fn spec_sysinfo_payload(cpu_temp: u8, gpu_temp: u8, rate: Seq<u8>) -> Seq<u8>
    recommends
        rate.len() == 2,
{
    seq![cpu_temp, gpu_temp, rate[0], rate[1]]
}

/// Frames a system info command. The download rate arrives already
/// quantized to its compact 2-byte encoding by the external codec.
pub fn set_system_info_frame(cpu_temp: u8, gpu_temp: u8, rate: [u8; 2]) -> (f: Frame)
    ensures
        f@ == spec_command_frame(
            ZOOM65_SET_SYSINFO_ID[0],
            ZOOM65_SET_SYSINFO_ID[1],
            spec_sysinfo_payload(cpu_temp, gpu_temp, rate@),
        ),
        f@.len() == FRAME_LEN,
{
    let payload: [u8; 4] = [cpu_temp, gpu_temp, rate[0], rate[1]];
    proof {
        assert(payload@ =~= spec_sysinfo_payload(cpu_temp, gpu_temp, rate@));
    }
    build_frame(ZOOM65_SET_SYSINFO_ID, payload.as_slice())
}

/// Frames the command that clears the still-image slot.
pub fn clear_image_frame() -> (f: Frame)
    ensures
        f@ == spec_command_frame(ZOOM65_IMAGE_DELETE[0], ZOOM65_IMAGE_DELETE[1], Seq::empty()),
        f@.len() == FRAME_LEN,
{
    let empty: [u8; 0] = [];
    proof {
        assert(empty@ =~= Seq::<u8>::empty());
    }
    build_frame(ZOOM65_IMAGE_DELETE, empty.as_slice())
}

/// Frames the command that clears the animated-media slot.
pub fn clear_gif_frame() -> (f: Frame)
    ensures
        f@ == spec_command_frame(ZOOM65_GIF_DELETE[0], ZOOM65_GIF_DELETE[1], Seq::empty()),
        f@.len() == FRAME_LEN,
{
    let empty: [u8; 0] = [];
    proof {
        assert(empty@ =~= Seq::<u8>::empty());
    }
    build_frame(ZOOM65_GIF_DELETE, empty.as_slice())
}

} // verus!
