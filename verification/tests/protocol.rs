//! Frame codec, response validation, status decoding and command builders.

use cryo_cooler_controller_lib::client::{
    decode_heartbeat, disable_request, enable_requests, fw_version_from_payload,
    heart_beat_request, needs_reset, power_level_from_payload, reset_request, scalar_get_request,
    set_pid_requests, set_power_request, set_setpoint_request, u32_from_le, validate_response,
    PortIdent, TecError,
};
use cryo_cooler_controller_lib::codec::{Request, Response};
use cryo_cooler_controller_lib::commands;
use cryo_cooler_controller_lib::status::{
    TecStatus, STATUS_BOARD_INIT, STATUS_MASK, STATUS_POWER_OK,
};

/// Independent CRC-16/XMODEM: polynomial 0x1021, init 0, no reflection, no
/// final xor. Used to hold the library's checksums to the published
/// algorithm rather than to the crate that computes them.
fn reference_crc16_xmodem(data: &[u8]) -> u16 {
    let mut crc: u16 = 0;
    for &byte in data {
        crc ^= (byte as u16) << 8;
        for _ in 0..8 {
            if crc & 0x8000 != 0 {
                crc = (crc << 1) ^ 0x1021;
            } else {
                crc <<= 1;
            }
        }
    }
    crc
}

#[test]
fn reference_crc_matches_published_check_value() {
    // The catalog's check value for CRC-16/XMODEM over "123456789".
    assert_eq!(reference_crc16_xmodem(b"123456789"), 0x31C3);
}

#[test]
fn encoded_checksum_matches_reference() {
    // Holds the library's checksum computation to the independent reference
    // through the public encoder.
    let frames: [(u8, [u8; 4]); 2] = [(0x00, [0, 0, 0, 0]), (0x18, [1, 0, 0, 0])];
    for &(op_code, payload) in &frames {
        let bytes = Request::new(op_code, payload).as_bytes();
        let expected = reference_crc16_xmodem(&bytes[0..6]);
        assert_eq!(bytes[6], (expected & 0xFF) as u8);
        assert_eq!(bytes[7], (expected >> 8) as u8);
    }
}

#[test]
fn round_trip_preserves_op_and_payload() {
    let cases: [(u8, [u8; 4]); 3] = [
        (0x00, [0, 0, 0, 0]),
        (0x01, [1, 2, 3, 4]),
        (0x24, [0xFF, 0x00, 0xAB, 0x7F]),
    ];
    for &(op_code, payload) in &cases {
        let request = Request::new(op_code, payload);
        let bytes = request.as_bytes();
        assert_eq!(bytes[0], 0xAA);
        assert_eq!(bytes[1], op_code);
        assert_eq!(&bytes[2..6], &payload);
        let response = Response::from_bytes(bytes);
        assert_eq!(response.op_code, op_code);
        assert_eq!(response.data, payload);
        let recomputed = reference_crc16_xmodem(&bytes[0..6]);
        assert_eq!(response.crc, recomputed);
        assert_eq!(bytes[6], (recomputed & 0xFF) as u8);
        assert_eq!(bytes[7], (recomputed >> 8) as u8);
    }
}

/// A response frame answering op-code `request_op`, with a correct checksum.
fn valid_response_bytes(request_op: u8, payload: [u8; 4]) -> [u8; 8] {
    let mut bytes = [0u8; 8];
    bytes[0] = 0xAA;
    bytes[1] = request_op.wrapping_add(127);
    bytes[2..6].copy_from_slice(&payload);
    let crc = reference_crc16_xmodem(&bytes[0..6]);
    bytes[6] = (crc & 0xFF) as u8;
    bytes[7] = (crc >> 8) as u8;
    bytes
}

#[test]
fn validate_accepts_matching_response() {
    let bytes = valid_response_bytes(0x01, [10, 20, 30, 40]);
    let response = validate_response(0x01, bytes).expect("valid response must pass");
    assert_eq!(response.op_code, 0x01u8.wrapping_add(127));
    assert_eq!(response.data, [10, 20, 30, 40]);
}

#[test]
fn mismatched_op_code_is_protocol_mismatch_despite_valid_checksum() {
    // The frame answers op-code 0x02 and its checksum is correct for its own
    // bytes, but it is judged against a request with op-code 0x01.
    let bytes = valid_response_bytes(0x02, [0, 0, 0, 0]);
    assert_eq!(validate_response(0x01, bytes), Err(TecError::ProtocolMismatch));
}

#[test]
fn mismatched_op_code_wins_over_bad_checksum() {
    let mut bytes = valid_response_bytes(0x02, [0, 0, 0, 0]);
    bytes[6] ^= 0xFF;
    assert_eq!(validate_response(0x01, bytes), Err(TecError::ProtocolMismatch));
}

#[test]
fn corrupted_frame_is_checksum_error() {
    let mut bytes = valid_response_bytes(0x01, [1, 1, 1, 1]);
    bytes[3] ^= 0x40;
    assert_eq!(validate_response(0x01, bytes), Err(TecError::ChecksumError));
}

#[test]
fn status_masking_low_bits() {
    // Raw 0b1 decodes to exactly {BOARD_INIT}; 0b11 to {BOARD_INIT, POWER_OK}.
    let status = decode_heartbeat(&[0b1, 0, 0, 0]).expect("decode never fails");
    assert_eq!(status.bits(), STATUS_BOARD_INIT);
    assert!(status.contains(STATUS_BOARD_INIT));
    assert!(!status.contains(STATUS_POWER_OK));

    let status = decode_heartbeat(&[0b11, 0, 0, 0]).expect("decode never fails");
    assert_eq!(status.bits(), STATUS_BOARD_INIT | STATUS_POWER_OK);
}

#[test]
fn status_high_bits_are_truncated_not_rejected() {
    let status = decode_heartbeat(&[0xFF, 0xFF, 0xFF, 0xFF]).expect("decode never fails");
    assert_eq!(status.bits(), STATUS_MASK);
    let status = decode_heartbeat(&[0x03, 0x00, 0x04, 0x80]).expect("decode never fails");
    assert_eq!(status.bits(), 0x3);
}

#[test]
fn from_bits_rejects_unknown_bits() {
    assert!(TecStatus::from_bits(STATUS_MASK).is_some());
    assert!(TecStatus::from_bits(0x40000).is_none());
    assert!(TecStatus::from_bits(u32::MAX).is_none());
}

#[test]
fn needs_reset_follows_board_init_flag() {
    let uninitialized = TecStatus::from_bits(0).unwrap();
    assert!(needs_reset(&uninitialized));
    let initialized = TecStatus::from_bits(STATUS_BOARD_INIT | STATUS_POWER_OK).unwrap();
    assert!(!needs_reset(&initialized));
}

#[test]
fn simple_request_builders() {
    let heartbeat = heart_beat_request();
    assert_eq!(heartbeat.op_code, commands::HEART_BEAT);
    assert_eq!(heartbeat.data, [0, 0, 0, 0]);

    let reset = reset_request();
    assert_eq!(reset.op_code, commands::SET_RESET_BOARD);
    assert_eq!(reset.data, [0, 0, 0, 0]);

    let getter = scalar_get_request(commands::GET_HUMIDITY);
    assert_eq!(getter.op_code, commands::GET_HUMIDITY);
    assert_eq!(getter.data, [0, 0, 0, 0]);

    let power = set_power_request(80);
    assert_eq!(power.op_code, commands::SET_TEC_POWER_LEVEL);
    assert_eq!(power.data, [80, 0, 0, 0]);

    let setpoint = set_setpoint_request([1, 2, 3, 4]);
    assert_eq!(setpoint.op_code, commands::SET_POINT_OFFSET);
    assert_eq!(setpoint.data, [1, 2, 3, 4]);
}

#[test]
fn pid_writes_are_ordered_p_i_d() {
    let requests = set_pid_requests([1, 0, 0, 0], [2, 0, 0, 0], [3, 0, 0, 0]);
    assert_eq!(requests.len(), 3);
    assert_eq!(requests[0].op_code, commands::SET_P_COEFFICIENT);
    assert_eq!(requests[0].data, [1, 0, 0, 0]);
    assert_eq!(requests[1].op_code, commands::SET_I_COEFFICIENT);
    assert_eq!(requests[1].data, [2, 0, 0, 0]);
    assert_eq!(requests[2].op_code, commands::SET_D_COEFFICIENT);
    assert_eq!(requests[2].data, [3, 0, 0, 0]);
}

#[test]
fn enable_sequence_arms_last() {
    let requests = enable_requests(90, [9, 9, 9, 9], [1, 0, 0, 0], [2, 0, 0, 0], [3, 0, 0, 0]);
    assert_eq!(requests.len(), 6);
    assert_eq!(requests[0].op_code, commands::SET_TEC_POWER_LEVEL);
    assert_eq!(requests[0].data, [90, 0, 0, 0]);
    assert_eq!(requests[1].op_code, commands::SET_POINT_OFFSET);
    assert_eq!(requests[1].data, [9, 9, 9, 9]);
    assert_eq!(requests[2].op_code, commands::SET_P_COEFFICIENT);
    assert_eq!(requests[3].op_code, commands::SET_I_COEFFICIENT);
    assert_eq!(requests[4].op_code, commands::SET_D_COEFFICIENT);
    assert_eq!(requests[5].op_code, commands::SET_DISABLE_NOT_ENABLE);
    assert_eq!(requests[5].data, [0, 0, 0, 0]);
}

#[test]
fn disable_twice_yields_identical_frames() {
    // No state is read between the two calls; the frames must agree byte for
    // byte, with the mode payload [1, 0, 0, 0].
    let first = disable_request();
    let second = disable_request();
    assert_eq!(first.op_code, commands::SET_DISABLE_NOT_ENABLE);
    assert_eq!(first.data, [1, 0, 0, 0]);
    assert_eq!(first.as_bytes(), second.as_bytes());
}

#[test]
fn payload_decoders() {
    assert_eq!(u32_from_le(&[0x78, 0x56, 0x34, 0x12]), 0x12345678);
    assert_eq!(u32_from_le(&[0xFF, 0xFF, 0xFF, 0xFF]), u32::MAX);
    assert_eq!(power_level_from_payload(&[55, 9, 9, 9]), 55);
    assert_eq!(fw_version_from_payload(&[1, 2, 3, 4]), (1, 2, 3, 4));
}

#[test]
fn port_ident_remembers_its_path() {
    let port = PortIdent::new("/dev/ttyUSB0".to_owned());
    assert_eq!(port.path().as_str(), "/dev/ttyUSB0");
    assert_eq!(port.clone(), port);
}
