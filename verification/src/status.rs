//! The device status model: an 18-bit flag set decoded from the status
//! telemetry field.
//!
//! The board reports its health as a little-endian `u32` of which only the
//! low 18 bits carry meaning. Decoding masks the field down to those bits and
//! never fails for nonzero high bits: they are tolerated by truncation.

use vstd::prelude::*;

verus! {

pub const STATUS_BOARD_INIT: u32 = 0x1;
pub const STATUS_POWER_OK: u32 = 0x2;
pub const STATUS_TEMP_SENSE_OK: u32 = 0x4;
pub const STATUS_HUM_SENSE_OK: u32 = 0x8;
pub const STATUS_LAST_CMD_OK: u32 = 0x10;
pub const STATUS_LAST_CMD_BAD_CRC: u32 = 0x20;
pub const STATUS_LAST_CMD_INCOMPLETE: u32 = 0x40;
pub const STATUS_FAILSAFE_ACTIVE: u32 = 0x80;
pub const STATUS_PID_READY: u32 = 0x100;
pub const STATUS_PID_INVALID: u32 = 0x200;
pub const STATUS_PID_OUT_OF_RANGE: u32 = 0x400;
pub const STATUS_PID_DEFAULT: u32 = 0x800;
pub const STATUS_PID_RUNNING: u32 = 0x1000;
pub const STATUS_OCP_ACTIVE: u32 = 0x2000;
pub const STATUS_BOARD_TEMP_OK: u32 = 0x4000;
pub const STATUS_TEC_CONN_OK: u32 = 0x8000;
pub const STATUS_LOW_POWER_MODE_ACTIVE: u32 = 0x10000;
pub const STATUS_TEMP_MODE: u32 = 0x20000;

/// All eighteen defined flags together; equally, the mask applied to the raw
/// status field before it is interpreted.
pub const STATUS_MASK: u32 = 0x3FFFF;

/// The decoded status flag set. A value is representable exactly when no bit
/// outside the defined mask is set, which for the contiguous low-bit mask
/// means the bits do not exceed it.
#[derive(Clone, Copy, Debug, PartialEq, Eq, Structural)]
pub struct TecStatus {
    pub bits: u32,
}

impl TecStatus {
    /// Builds a status from raw bits, refusing any bit pattern with a bit set
    /// outside the defined flag set.
    pub fn from_bits(bits: u32) -> (r: Option<TecStatus>)
        ensures
            r == if bits <= STATUS_MASK {
                Some(TecStatus { bits })
            } else {
                None::<TecStatus>
            },
    {
        if bits <= STATUS_MASK {
            Some(TecStatus { bits })
        } else {
            None
        }
    }

    /// Whether every flag of `flags` is set.
    pub fn contains(&self, flags: u32) -> (r: bool)
        ensures
            r == (self.bits & flags == flags),
    {
        self.bits & flags == flags
    }

    pub fn bits(&self) -> (r: u32)
        ensures
            r == self.bits,
    {
        self.bits
    }
}

/// What decoding a raw status field yields: the field truncated to the
/// eighteen meaningful bits.
pub open spec fn spec_masked_status(raw: u32) -> u32 {
    raw & STATUS_MASK
}

/// Status masking: truncating a raw field to the defined mask always yields a
/// representable flag set, whatever the high bits held, so decoding a status
/// field never fails.
pub proof fn lemma_status_masking(raw: u32)
    ensures
        spec_masked_status(raw) <= STATUS_MASK,
        raw <= STATUS_MASK ==> spec_masked_status(raw) == raw,
{
    assert(raw & 0x3FFFF <= 0x3FFFF) by (bit_vector);
    assert(raw <= 0x3FFFF ==> raw & 0x3FFFF == raw) by (bit_vector);
}

} // verus!
