use zoom65v3::consts;
use zoom65v3::frame::{
    build_command, build_version_query, check_firmware_version, parse_version_response,
    validate_response, validate_status,
};
use zoom65v3::types::Zoom65Error;

#[test]
fn command_frame_layout() {
    let f = build_command([1, 2], &[7, 8, 9]).unwrap();
    assert_eq!(f.bytes.len(), 64);
    assert_eq!(f.bytes[0], 0);
    assert_eq!(f.bytes[1], 88);
    assert_eq!(f.bytes[2], 3 + 3);
    assert_eq!(f.bytes[3], 165);
    assert_eq!(f.bytes[4], 1);
    assert_eq!(f.bytes[5], 2);
    assert_eq!(&f.bytes[6..9], &[7, 8, 9]);
    for i in 9..64 {
        assert_eq!(f.bytes[i], 0);
    }
}

#[test]
fn command_header_length_byte_tracks_payload() {
    for n in 0..=27usize {
        let payload = vec![0xAAu8; n];
        let f = build_command([9, 9], &payload).unwrap();
        assert_eq!(f.bytes[2] as usize, n + 3);
    }
}

#[test]
fn command_empty_payload() {
    let f = build_command([3, 4], &[]).unwrap();
    assert_eq!(f.bytes[2], 3);
    for i in 6..64 {
        assert_eq!(f.bytes[i], 0);
    }
}

#[test]
fn command_oversized_payload_rejected() {
    let payload = [0u8; 28];
    assert_eq!(
        build_command([1, 1], &payload).unwrap_err(),
        Zoom65Error::EncodingError
    );
    let payload = [0u8; 27];
    assert!(build_command([1, 1], &payload).is_ok());
}

#[test]
fn response_success_echoes_bytes() {
    let raw = [88u8, 1, 1, 42, 43];
    let v = validate_response(&raw).unwrap();
    assert_eq!(v, raw.to_vec());
}

#[test]
fn response_wrong_marker_is_malformed() {
    assert_eq!(
        validate_response(&[87, 1, 1]).unwrap_err(),
        Zoom65Error::MalformedResponse
    );
    assert_eq!(
        validate_response(&[1, 1, 1]).unwrap_err(),
        Zoom65Error::MalformedResponse
    );
    assert_eq!(
        validate_response(&[]).unwrap_err(),
        Zoom65Error::MalformedResponse
    );
    assert_eq!(
        validate_response(&[88, 1]).unwrap_err(),
        Zoom65Error::MalformedResponse
    );
}

#[test]
fn response_non_success_status_rejected() {
    assert_eq!(
        validate_response(&[88, 0, 1]).unwrap_err(),
        Zoom65Error::UpdateCommandFailed
    );
    assert_eq!(
        validate_response(&[88, 1, 0]).unwrap_err(),
        Zoom65Error::UpdateCommandFailed
    );
    assert_eq!(
        validate_response(&[88, 2, 2]).unwrap_err(),
        Zoom65Error::UpdateCommandFailed
    );
}

#[test]
fn chunk_ack_checks_status_pair_only() {
    assert!(validate_status(&[0, 1, 1]).is_ok());
    assert!(validate_status(&[88, 1, 1, 9]).is_ok());
    assert_eq!(
        validate_status(&[88, 1, 0]).unwrap_err(),
        Zoom65Error::UpdateCommandFailed
    );
    assert_eq!(
        validate_status(&[88]).unwrap_err(),
        Zoom65Error::MalformedResponse
    );
}

#[test]
fn version_response_has_its_own_marker() {
    assert_eq!(parse_version_response(&[1, 0, 7]).unwrap(), 7);
    assert_eq!(
        parse_version_response(&[88, 0, 7]).unwrap_err(),
        Zoom65Error::MalformedResponse
    );
    assert_eq!(
        parse_version_response(&[1, 0]).unwrap_err(),
        Zoom65Error::MalformedResponse
    );
}

#[test]
fn firmware_gate_rejects_unknown_versions() {
    assert!(check_firmware_version(consts::APPROVED_VERSION_A).is_ok());
    assert!(check_firmware_version(consts::APPROVED_VERSION_B).is_ok());
    for v in 0..=255u8 {
        let approved = v == consts::APPROVED_VERSION_A || v == consts::APPROVED_VERSION_B;
        match check_firmware_version(v) {
            Ok(()) => assert!(approved),
            Err(e) => {
                assert!(!approved);
                assert_eq!(e, Zoom65Error::UnknownFirmwareVersion);
            }
        }
    }
}

#[test]
fn version_query_frame_layout() {
    let f = build_version_query();
    assert_eq!(f.bytes.len(), 64);
    assert_eq!(f.bytes[0], 0);
    assert_eq!(f.bytes[1], 1);
    for i in 2..64 {
        assert_eq!(f.bytes[i], 0);
    }
}
