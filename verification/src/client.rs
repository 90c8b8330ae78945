//! The typed command layer of the protocol client.
//!
//! A command exchange writes one request frame and reads one 8-byte response.
//! The transport itself (opening the serial device, writing, reading) is the
//! caller's: this module builds the request frames, validates and decodes the
//! responses, and fixes the order of the multi-frame mutators. A valid
//! response answers its request with the request's op-code plus 127 (mod 256)
//! and carries a checksum that matches the CRC-16/XMODEM digest of its first
//! six bytes; both are validation invariants, not advisory.

use vstd::prelude::*;
use crate::codec::{
    crc16_xmodem, crc16_xmodem_of, le_u16_value, spec_frame_body, Request, Response,
};
use crate::commands::{
    HEART_BEAT, SET_DISABLE_NOT_ENABLE, SET_D_COEFFICIENT, SET_I_COEFFICIENT, SET_POINT_OFFSET,
    SET_P_COEFFICIENT, SET_RESET_BOARD, SET_TEC_POWER_LEVEL,
};
use crate::status::{spec_masked_status, TecStatus, STATUS_BOARD_INIT, STATUS_MASK};

verus! {

/// How a command exchange can fail. Transport failures (a short or failed
/// read or write, a failed open) are reported by the caller as `IoError`;
/// the other three arise from validating and decoding the response here.
/// All four are recoverable by reopening the connection.
#[derive(Clone, Copy, Debug, PartialEq, Eq, Structural)]
pub enum TecError {
    /// The transport failed to move the bytes.
    IoError,
    /// The response checksum disagrees with the digest of its frame: the
    /// frame was corrupted in transit.
    ChecksumError,
    /// The response op-code does not answer the request: the stream is
    /// desynchronized or the device is not the expected one.
    ProtocolMismatch,
    /// The status field holds a bit pattern the defined flag set cannot
    /// represent: firmware and client disagree on the encoding.
    InvalidStatus,
}

/// The op-code a valid response to `request_op` must carry.
pub open spec fn spec_response_op(request_op: u8) -> u8 {
    ((request_op + 127) % 256) as u8
}

/// Why an 8-byte response buffer is rejected for a request op-code, or `None`
/// when it is accepted. The op-code is judged first, so a mismatched op-code
/// is reported whatever the checksum holds.
pub open spec fn spec_validate_err(request_op: u8, buffer: Seq<u8>) -> Option<TecError> {
    if buffer[1] != spec_response_op(request_op) {
        Some(TecError::ProtocolMismatch)
    } else if le_u16_value(buffer[6], buffer[7]) != crc16_xmodem_of(buffer.subrange(0, 6)) {
        Some(TecError::ChecksumError)
    } else {
        None
    }
}

/// Validates a received 8-byte buffer against the op-code of the request it
/// must answer, and decodes it on success.
pub fn validate_response(request_op: u8, buffer: [u8; 8]) -> (r: Result<Response, TecError>)
    ensures
        match r {
            Ok(resp) => {
                &&& spec_validate_err(request_op, buffer@) is None
                &&& resp.fixed == buffer@[0]
                &&& resp.op_code == buffer@[1]
                &&& resp.data@ == buffer@.subrange(2, 6)
                &&& resp.crc == le_u16_value(buffer@[6], buffer@[7])
            },
            Err(e) => spec_validate_err(request_op, buffer@) == Some(e),
        },
{
    if buffer[1] != request_op.wrapping_add(127) {
        return Err(TecError::ProtocolMismatch);
    }
    let body: [u8; 6] = [buffer[0], buffer[1], buffer[2], buffer[3], buffer[4], buffer[5]];
    proof {
        assert(body@ =~= buffer@.subrange(0, 6));
    }
    let crc = crc16_xmodem(&body);
    let response = Response::from_bytes(buffer);
    if response.crc == crc {
        Ok(response)
    } else {
        Err(TecError::ChecksumError)
    }
}

/// Op-code validation: a response whose op-code does not answer the request
/// is rejected as a protocol mismatch, whatever its checksum holds.
pub proof fn lemma_op_code_validation(request_op: u8, buffer: Seq<u8>)
    requires
        buffer.len() == 8,
        buffer[1] != spec_response_op(request_op),
    ensures
        spec_validate_err(request_op, buffer) == Some(TecError::ProtocolMismatch),
{
}

/// A response frame correctly built for a request — the answering op-code,
/// any 4-byte payload, the checksum of its own first six bytes — always
/// passes validation: the validator rejects nothing the wire format allows.
pub proof fn lemma_validate_accepts_well_formed_response(request_op: u8, data: Seq<u8>)
    requires
        data.len() == 4,
    ensures
        spec_validate_err(
            request_op,
            crate::codec::spec_encode(spec_response_op(request_op), data),
        ) is None,
{
    crate::codec::lemma_checksum_round_trip(spec_response_op(request_op), data);
}

/// The value of four bytes read as a little-endian `u32`.
pub open spec fn le_u32_of(b: Seq<u8>) -> u32 {
    (b[0] + 256 * (b[1] + 256 * (b[2] + 256 * b[3]))) as u32
}

/// Reads a 4-byte response payload as a little-endian `u32`.
pub fn u32_from_le(data: &[u8; 4]) -> (r: u32)
    ensures
        r == le_u32_of(data@),
{
    data[0] as u32 + 256 * (data[1] as u32) + 65536 * (data[2] as u32) + 16777216 * (data[3] as u32)
}

/// The flag set a heartbeat payload decodes to: the payload read as a
/// little-endian `u32`, truncated to the defined status mask.
pub open spec fn spec_heartbeat_status(data: Seq<u8>) -> TecStatus {
    TecStatus { bits: spec_masked_status(le_u32_of(data)) }
}

/// Decodes the heartbeat response payload into the status flag set. High bits
/// beyond the defined mask are truncated away, so the decode owes success on
/// every payload; the `InvalidStatus` arm guards the representability check
/// and is proved unreachable.
pub fn decode_heartbeat(data: &[u8; 4]) -> (r: Result<TecStatus, TecError>)
    ensures
        r == Ok::<TecStatus, TecError>(spec_heartbeat_status(data@)),
{
    let raw = u32_from_le(data);
    let masked = raw & STATUS_MASK;
    proof {
        crate::status::lemma_status_masking(raw);
    }
    match TecStatus::from_bits(masked) {
        Some(status) => Ok(status),
        None => Err(TecError::InvalidStatus),
    }
}

/// Whether a freshly opened connection must reset the board before it is
/// handed out: the cold-start policy resets whenever the board does not
/// report itself initialized, so callers never observe an un-initialized
/// board.
pub fn needs_reset(status: &TecStatus) -> (r: bool)
    ensures
        r == (status.bits & STATUS_BOARD_INIT != STATUS_BOARD_INIT),
{
    !status.contains(STATUS_BOARD_INIT)
}

/// The heartbeat request: the heartbeat op-code with a zeroed payload.
pub fn heart_beat_request() -> (r: Request)
    ensures
        r.wf(),
        r.op_code == HEART_BEAT,
        r.data@ == seq![0u8, 0u8, 0u8, 0u8],
{
    let r = Request::new(HEART_BEAT, [0u8; 4]);
    proof {
        assert(r.data@ =~= seq![0u8, 0u8, 0u8, 0u8]);
    }
    r
}

/// The board-reset request: the reset op-code with a zeroed payload.
pub fn reset_request() -> (r: Request)
    ensures
        r.wf(),
        r.op_code == SET_RESET_BOARD,
        r.data@ == seq![0u8, 0u8, 0u8, 0u8],
{
    let r = Request::new(SET_RESET_BOARD, [0u8; 4]);
    proof {
        assert(r.data@ =~= seq![0u8, 0u8, 0u8, 0u8]);
    }
    r
}

/// A scalar read request: the getter's op-code with a zeroed payload. Every
/// typed getter issues exactly one of these.
pub fn scalar_get_request(op_code: u8) -> (r: Request)
    ensures
        r.wf(),
        r.op_code == op_code,
        r.data@ == seq![0u8, 0u8, 0u8, 0u8],
{
    let r = Request::new(op_code, [0u8; 4]);
    proof {
        assert(r.data@ =~= seq![0u8, 0u8, 0u8, 0u8]);
    }
    r
}

/// The set-power-level request: the target level in payload byte 0.
pub fn set_power_request(power_level: u8) -> (r: Request)
    ensures
        r.wf(),
        r.op_code == SET_TEC_POWER_LEVEL,
        r.data@ == seq![power_level, 0u8, 0u8, 0u8],
{
    let r = Request::new(SET_TEC_POWER_LEVEL, [power_level, 0, 0, 0]);
    proof {
        assert(r.data@ =~= seq![power_level, 0u8, 0u8, 0u8]);
    }
    r
}

/// The set-setpoint-offset request; the payload is the setpoint's 4-byte
/// little-endian wire encoding.
pub fn set_setpoint_request(setpoint: [u8; 4]) -> (r: Request)
    ensures
        r.wf(),
        r.op_code == SET_POINT_OFFSET,
        r.data == setpoint,
{
    Request::new(SET_POINT_OFFSET, setpoint)
}

/// The three PID-coefficient writes, in the fixed order P, I, D. The writes
/// are independent: if a later one fails on the wire, the board keeps the
/// earlier coefficients, a documented partial-failure risk of the protocol.
pub fn set_pid_requests(p: [u8; 4], i: [u8; 4], d: [u8; 4]) -> (r: Vec<Request>)
    ensures
        r@.len() == 3,
        r@[0].wf() && r@[0].op_code == SET_P_COEFFICIENT && r@[0].data == p,
        r@[1].wf() && r@[1].op_code == SET_I_COEFFICIENT && r@[1].data == i,
        r@[2].wf() && r@[2].op_code == SET_D_COEFFICIENT && r@[2].data == d,
{
    let mut requests: Vec<Request> = Vec::new();
    requests.push(Request::new(SET_P_COEFFICIENT, p));
    requests.push(Request::new(SET_I_COEFFICIENT, i));
    requests.push(Request::new(SET_D_COEFFICIENT, d));
    requests
}

/// The enable sequence: power level and setpoint are established first, the
/// three PID coefficients follow, and the arming command (payload byte 0
/// zero) comes last, so the controller is never armed before its operating
/// parameters are in place.
pub fn enable_requests(
    power_level: u8,
    setpoint: [u8; 4],
    p: [u8; 4],
    i: [u8; 4],
    d: [u8; 4],
) -> (r: Vec<Request>)
    ensures
        r@.len() == 6,
        r@[0].wf() && r@[0].op_code == SET_TEC_POWER_LEVEL && r@[0].data@ == seq![
            power_level,
            0u8,
            0u8,
            0u8,
        ],
        r@[1].wf() && r@[1].op_code == SET_POINT_OFFSET && r@[1].data == setpoint,
        r@[2].wf() && r@[2].op_code == SET_P_COEFFICIENT && r@[2].data == p,
        r@[3].wf() && r@[3].op_code == SET_I_COEFFICIENT && r@[3].data == i,
        r@[4].wf() && r@[4].op_code == SET_D_COEFFICIENT && r@[4].data == d,
        r@[5].wf() && r@[5].op_code == SET_DISABLE_NOT_ENABLE && r@[5].data@ == seq![
            0u8,
            0u8,
            0u8,
            0u8,
        ],
{
    let mut requests: Vec<Request> = Vec::new();
    requests.push(set_power_request(power_level));
    requests.push(set_setpoint_request(setpoint));
    requests.push(Request::new(SET_P_COEFFICIENT, p));
    requests.push(Request::new(SET_I_COEFFICIENT, i));
    requests.push(Request::new(SET_D_COEFFICIENT, d));
    let arm = Request::new(SET_DISABLE_NOT_ENABLE, [0u8; 4]);
    proof {
        assert(arm.data@ =~= seq![0u8, 0u8, 0u8, 0u8]);
    }
    requests.push(arm);
    requests
}

/// What the one disable frame is: well-formed, the disable op-code, and the
/// mode payload `[1, 0, 0, 0]`.
pub open spec fn is_disable_request(r: Request) -> bool {
    &&& r.wf()
    &&& r.op_code == SET_DISABLE_NOT_ENABLE
    &&& r.data@ == seq![1u8, 0u8, 0u8, 0u8]
}

/// The disable request: the disable op-code with mode byte 1. Disabling reads
/// no state, so any two of these frames are identical.
pub fn disable_request() -> (r: Request)
    ensures
        is_disable_request(r),
{
    let r = Request::new(SET_DISABLE_NOT_ENABLE, [1, 0, 0, 0]);
    proof {
        assert(r.data@ =~= seq![1u8, 0u8, 0u8, 0u8]);
    }
    r
}

/// Idempotent disable: two disable requests, built independently with no
/// state read between them, serialize to the same 8 bytes, with the mode
/// payload `[1, 0, 0, 0]`.
pub proof fn lemma_disable_idempotent(r1: Request, r2: Request)
    requires
        is_disable_request(r1),
        is_disable_request(r2),
    ensures
        r1.spec_as_bytes() == r2.spec_as_bytes(),
        r1.data@ == seq![1u8, 0u8, 0u8, 0u8],
{
    assert(spec_frame_body(r1.op_code, r1.data@) =~= spec_frame_body(r2.op_code, r2.data@));
    assert(r1.spec_as_bytes() =~= r2.spec_as_bytes());
}

/// The power level reported by the power-level getter: payload byte 0.
pub fn power_level_from_payload(data: &[u8; 4]) -> (r: u8)
    ensures
        r == data@[0],
{
    data[0]
}

/// The firmware version quadruple, one byte per component.
pub fn fw_version_from_payload(data: &[u8; 4]) -> (r: (u8, u8, u8, u8))
    ensures
        r.0 == data@[0],
        r.1 == data@[1],
        r.2 == data@[2],
        r.3 == data@[3],
{
    (data[0], data[1], data[2], data[3])
}

/// Identity of a serial device path, as selected by the user and remembered
/// for reconnection: reopening after a transport fault uses the same path
/// with the same configuration.
#[derive(Clone, Debug, PartialEq, Eq)]
pub struct PortIdent {
    pub path: String,
}

impl PortIdent {
    pub fn new(path: String) -> (r: PortIdent)
        ensures
            r.path@ == path@,
    {
        PortIdent { path }
    }

    pub fn path(&self) -> (r: &String)
        ensures
            r@ == self.path@,
    {
        &self.path
    }
}

} // verus!
