//! The 8-byte wire frame: `[0xAA, op_code, payload[0..4], crc_lo, crc_hi]`.
//!
//! The checksum is CRC-16/XMODEM over the first six bytes, stored
//! little-endian in the last two. Requests are built here with their checksum;
//! responses are split back into their fields without validation, since only
//! the caller knows which request an incoming frame must answer.

use vstd::prelude::*;

verus! {

/// The fixed first byte of every frame.
pub const FRAME_MARKER: u8 = 0xAA;

/// The CRC-16/XMODEM digest of a byte sequence, as the `crc` crate computes
/// it. The digest is a pure function of the bytes; nothing further is assumed
/// about its value.
pub uninterp spec fn crc16_xmodem_of(bytes: Seq<u8>) -> u16;

/// Relies on `crc::Crc::<u16>::checksum` with the `CRC_16_XMODEM` algorithm
/// from the crate's catalog: a table-driven digest that depends on the input
/// bytes alone.
#[verifier::external_body]
pub(crate) fn crc16_xmodem(bytes: &[u8; 6]) -> (r: u16)
    ensures
        r == crc16_xmodem_of(bytes@),
{
    crc::Crc::<u16>::new(&crc::CRC_16_XMODEM).checksum(bytes)
}

/// The low byte of a little-endian `u16`.
pub open spec fn lo_byte(x: u16) -> u8 {
    (x % 256) as u8
}

/// The high byte of a little-endian `u16`.
pub open spec fn hi_byte(x: u16) -> u8 {
    (x / 256) as u8
}

/// The value of two bytes read as a little-endian `u16`.
pub open spec fn le_u16_value(lo: u8, hi: u8) -> int {
    lo + 256 * hi
}

/// The first six bytes of a frame: marker, op-code and payload.
pub open spec fn spec_frame_body(op_code: u8, data: Seq<u8>) -> Seq<u8> {
    seq![FRAME_MARKER, op_code] + data
}

/// The full 8-byte frame for an op-code and a 4-byte payload.
pub open spec fn spec_encode(op_code: u8, data: Seq<u8>) -> Seq<u8> {
    let body = spec_frame_body(op_code, data);
    let crc = crc16_xmodem_of(body);
    body + seq![lo_byte(crc), hi_byte(crc)]
}

/// A request frame, held as its fields with the checksum already computed
/// over marker, op-code and payload.
#[derive(Clone, Copy, Debug, PartialEq, Eq)]
pub struct Request {
    pub fixed: u8,
    pub op_code: u8,
    pub data: [u8; 4],
    pub crc: u16,
}

impl Request {
    /// A request is well-formed when its marker is the fixed frame marker and
    /// its checksum is the CRC-16/XMODEM digest of its own first six bytes.
    pub open spec fn wf(self) -> bool {
        &&& self.fixed == FRAME_MARKER
        &&& self.crc == crc16_xmodem_of(spec_frame_body(self.op_code, self.data@))
    }

    /// The frame this request serializes to.
    pub open spec fn spec_as_bytes(self) -> Seq<u8> {
        seq![
            self.fixed,
            self.op_code,
            self.data@[0],
            self.data@[1],
            self.data@[2],
            self.data@[3],
            lo_byte(self.crc),
            hi_byte(self.crc),
        ]
    }

    pub fn new(op_code: u8, data: [u8; 4]) -> (r: Request)
        ensures
            r.fixed == FRAME_MARKER,
            r.op_code == op_code,
            r.data == data,
            r.wf(),
    {
        let buffer: [u8; 6] = [FRAME_MARKER, op_code, data[0], data[1], data[2], data[3]];
        proof {
            assert(buffer@ =~= spec_frame_body(op_code, data@));
        }
        let crc = crc16_xmodem(&buffer);
        Request { fixed: FRAME_MARKER, op_code, data, crc }
    }

    pub fn as_bytes(&self) -> (r: [u8; 8])
        ensures
            r@ == self.spec_as_bytes(),
            self.wf() ==> r@ == spec_encode(self.op_code, self.data@),
    {
        let r: [u8; 8] = [
            self.fixed,
            self.op_code,
            self.data[0],
            self.data[1],
            self.data[2],
            self.data[3],
            (self.crc % 256) as u8,
            (self.crc / 256) as u8,
        ];
        proof {
            assert(r@ =~= self.spec_as_bytes());
            if self.wf() {
                assert(r@ =~= spec_encode(self.op_code, self.data@));
            }
        }
        r
    }
}

/// A response frame, split back into its fields. No validation happens here:
/// whether the op-code answers the request and whether the checksum matches
/// is the protocol layer's judgement.
#[derive(Clone, Copy, Debug, PartialEq, Eq)]
pub struct Response {
    pub fixed: u8,
    pub op_code: u8,
    pub data: [u8; 4],
    pub crc: u16,
}

impl Response {
    pub fn from_bytes(bytes: [u8; 8]) -> (r: Response)
        ensures
            r.fixed == bytes@[0],
            r.op_code == bytes@[1],
            r.data@ == bytes@.subrange(2, 6),
            r.crc == le_u16_value(bytes@[6], bytes@[7]),
    {
        let data: [u8; 4] = [bytes[2], bytes[3], bytes[4], bytes[5]];
        let crc: u16 = bytes[6] as u16 + 256 * (bytes[7] as u16);
        proof {
            assert(data@ =~= bytes@.subrange(2, 6));
        }
        Response { fixed: bytes[0], op_code: bytes[1], data, crc }
    }
}

/// Checksum round-trip: decoding an encoded frame yields back the op-code and
/// payload it was built from, and the checksum stored in the last two bytes
/// is exactly the CRC-16/XMODEM digest of the first six.
pub proof fn lemma_checksum_round_trip(op_code: u8, data: Seq<u8>)
    requires
        data.len() == 4,
    ensures
        spec_encode(op_code, data).len() == 8,
        spec_encode(op_code, data)[0] == FRAME_MARKER,
        spec_encode(op_code, data)[1] == op_code,
        spec_encode(op_code, data).subrange(2, 6) == data,
        le_u16_value(spec_encode(op_code, data)[6], spec_encode(op_code, data)[7])
            == crc16_xmodem_of(spec_encode(op_code, data).subrange(0, 6)),
{
    let frame = spec_encode(op_code, data);
    let body = spec_frame_body(op_code, data);
    let crc = crc16_xmodem_of(body);
    assert(frame.subrange(2, 6) =~= data);
    assert(frame.subrange(0, 6) =~= body);
    assert(le_u16_value(lo_byte(crc), hi_byte(crc)) == crc);
}

} // verus!
