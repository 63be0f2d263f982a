//! Command frame builder and response validation.
//!
//! A command frame is a fixed 64-byte report: a 6-byte header (report id,
//! frame marker, payload length byte, protocol marker, 2-byte method id)
//! followed by up to 27 payload bytes, zero-padded to the end. The header
//! length byte is always `payload.len() + 3`.

use vstd::prelude::*;

use crate::consts::{
    APPROVED_VERSION_A, APPROVED_VERSION_B, FRAME_LEN, FRAME_MARKER, MAX_PAYLOAD, PROTOCOL_MARKER,
    STATUS_SUCCESS, VERSION_MARKER,
};
use crate::types::Zoom65Error;

verus! {

/// A sequence of `n` zero bytes.
pub open spec fn zeros(n: nat) -> Seq<u8> {
    Seq::new(n, |i: int| 0u8)
}

/// The full 64 bytes of the command frame for a method id and payload.
pub open spec fn spec_command_frame(m0: u8, m1: u8, payload: Seq<u8>) -> Seq<u8>
    recommends
        payload.len() <= MAX_PAYLOAD,
{
    seq![0u8, FRAME_MARKER, (payload.len() + 3) as u8, PROTOCOL_MARKER, m0, m1] + payload + zeros(
        (FRAME_LEN - 6 - payload.len()) as nat,
    )
}

/// One fixed-size report, constructed per call, sent once and discarded.
#[derive(Debug)]
pub struct Frame {
    pub bytes: Vec<u8>,
}

impl View for Frame {
    type V = Seq<u8>;

    open spec fn view(&self) -> Seq<u8> {
        self.bytes@
    }
}

/// Builds a command frame whose payload is known to fit.
pub(crate) fn build_frame(method_id: [u8; 2], payload: &[u8]) -> (f: Frame)
    requires
        payload@.len() <= MAX_PAYLOAD,
    ensures
        f@ == spec_command_frame(method_id@[0], method_id@[1], payload@),
        f@.len() == FRAME_LEN,
{
    let mut bytes: Vec<u8> = Vec::new();
    bytes.push(0u8);
    bytes.push(FRAME_MARKER);
    bytes.push(payload.len() as u8 + 3);
    bytes.push(PROTOCOL_MARKER);
    bytes.push(method_id[0]);
    bytes.push(method_id[1]);
    let ghost header = seq![
        0u8,
        FRAME_MARKER,
        (payload@.len() + 3) as u8,
        PROTOCOL_MARKER,
        method_id@[0],
        method_id@[1],
    ];
    proof {
        assert(bytes@ =~= header);
    }
    let mut i: usize = 0;
    while i < payload.len()
        invariant
            i <= payload@.len(),
            header.len() == 6,
            bytes@ == header + payload@.take(i as int),
        decreases payload@.len() - i,
    {
        bytes.push(payload[i]);
        proof {
            assert(payload@.take(i as int + 1) =~= payload@.take(i as int).push(
                payload@[i as int],
            ));
            assert(bytes@ =~= header + payload@.take(i as int + 1));
        }
        i = i + 1;
    }
    proof {
        assert(payload@.take(payload@.len() as int) =~= payload@);
        assert(bytes@ =~= header + payload@ + zeros(0));
    }
    while bytes.len() < FRAME_LEN
        invariant
            header.len() == 6,
            payload@.len() <= MAX_PAYLOAD,
            6 + payload@.len() <= bytes@.len() <= FRAME_LEN,
            bytes@ == header + payload@ + zeros((bytes@.len() - 6 - payload@.len()) as nat),
        decreases FRAME_LEN - bytes@.len(),
    {
        bytes.push(0u8);
        proof {
            assert(bytes@ =~= header + payload@ + zeros(
                (bytes@.len() - 6 - payload@.len()) as nat,
            ));
        }
    }
    proof {
        assert(bytes@ =~= spec_command_frame(method_id@[0], method_id@[1], payload@));
    }
    Frame { bytes }
}

/// Assembles the command envelope for a method id and payload, or fails
/// with an encoding error when the payload cannot fit the fixed frame.
/// Performs no transport interaction in either case.
pub fn build_command(method_id: [u8; 2], payload: &[u8]) -> (r: Result<Frame, Zoom65Error>)
    ensures
        r is Err <==> payload@.len() > MAX_PAYLOAD,
        r matches Err(e) ==> e == Zoom65Error::EncodingError,
        r matches Ok(f) ==> f@ == spec_command_frame(method_id@[0], method_id@[1], payload@)
            && f@.len() == FRAME_LEN && f@[2] == payload@.len() + 3,
{
    if payload.len() > MAX_PAYLOAD {
        return Err(Zoom65Error::EncodingError);
    }
    Ok(build_frame(method_id, payload))
}

/// Validates an ordinary command response: the first byte must echo the
/// frame marker, and both status bytes must equal the success sentinel.
/// On success the full response is handed back for the caller to interpret.
pub fn validate_response(raw: &[u8]) -> (r: Result<Vec<u8>, Zoom65Error>)
    ensures
        r is Ok <==> raw@.len() >= 3 && raw@[0] == FRAME_MARKER && raw@[1] == STATUS_SUCCESS
            && raw@[2] == STATUS_SUCCESS,
        r matches Ok(v) ==> v@ == raw@,
        r matches Err(e) ==> e == (if raw@.len() < 3 || raw@[0] != FRAME_MARKER {
            Zoom65Error::MalformedResponse
        } else {
            Zoom65Error::UpdateCommandFailed
        }),
{
    if raw.len() < 3 || raw[0] != FRAME_MARKER {
        return Err(Zoom65Error::MalformedResponse);
    }
    if raw[1] == STATUS_SUCCESS && raw[2] == STATUS_SUCCESS {
        Ok(vstd::slice::slice_to_vec(raw))
    } else {
        Err(Zoom65Error::UpdateCommandFailed)
    }
}

/// Validates the acknowledgement of an upload chunk: only the status pair
/// is inspected, and a non-success pair aborts the upload.
pub fn validate_status(raw: &[u8]) -> (r: Result<(), Zoom65Error>)
    ensures
        r is Ok <==> raw@.len() >= 3 && raw@[1] == STATUS_SUCCESS && raw@[2] == STATUS_SUCCESS,
        r matches Err(e) ==> e == (if raw@.len() < 3 {
            Zoom65Error::MalformedResponse
        } else {
            Zoom65Error::UpdateCommandFailed
        }),
{
    if raw.len() < 3 {
        return Err(Zoom65Error::MalformedResponse);
    }
    if raw[1] == STATUS_SUCCESS && raw[2] == STATUS_SUCCESS {
        Ok(())
    } else {
        Err(Zoom65Error::UpdateCommandFailed)
    }
}

/// Extracts the firmware version byte from a version-query response. The
/// version query uses its own first-byte convention: the marker is 1, not
/// the frame marker, and the version byte sits at offset 2.
pub fn parse_version_response(raw: &[u8]) -> (r: Result<u8, Zoom65Error>)
    ensures
        r is Ok <==> raw@.len() >= 3 && raw@[0] == VERSION_MARKER,
        r matches Ok(v) ==> v == raw@[2],
        r matches Err(e) ==> e == Zoom65Error::MalformedResponse,
{
    if raw.len() < 3 || raw[0] != VERSION_MARKER {
        return Err(Zoom65Error::MalformedResponse);
    }
    Ok(raw[2])
}

/// True exactly for the firmware versions this driver knows how to talk to.
pub open spec fn is_approved_version(v: u8) -> bool {
    v == APPROVED_VERSION_A || v == APPROVED_VERSION_B
}

/// The compatibility gate applied at session open: any version byte
/// outside the fixed allow-list fails, and no further operation may be
/// attempted on the device.
pub fn check_firmware_version(version: u8) -> (r: Result<(), Zoom65Error>)
    ensures
        r is Ok <==> is_approved_version(version),
        r matches Err(e) ==> e == Zoom65Error::UnknownFirmwareVersion,
{
    if version == APPROVED_VERSION_A || version == APPROVED_VERSION_B {
        Ok(())
    } else {
        Err(Zoom65Error::UnknownFirmwareVersion)
    }
}

/// The raw version-query report: a report id byte, the query opcode, and
/// zero padding out to the fixed report size.
pub fn build_version_query() -> (f: Frame)
    ensures
        f@.len() == FRAME_LEN,
        f@[0] == 0,
        f@[1] == VERSION_MARKER,
        forall|i: int| 2 <= i < FRAME_LEN ==> f@[i] == 0,
{
    let mut bytes: Vec<u8> = Vec::new();
    bytes.push(0u8);
    bytes.push(VERSION_MARKER);
    while bytes.len() < FRAME_LEN
        invariant
            2 <= bytes@.len() <= FRAME_LEN,
            bytes@[0] == 0,
            bytes@[1] == VERSION_MARKER,
            forall|i: int| 2 <= i < bytes@.len() ==> bytes@[i] == 0,
        decreases FRAME_LEN - bytes@.len(),
    {
        bytes.push(0u8);
    }
    Frame { bytes }
}

} // verus!
