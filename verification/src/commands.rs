//! Op-codes of the controller's command set.
//!
//! Every exchange is one 8-byte request frame carrying one of these op-codes;
//! the board answers with a frame whose op-code is the request's plus 127
//! (mod 256).

use vstd::prelude::*;

verus! {

/// Reads the status bitfield; also serves as the connection heartbeat.
pub const HEART_BEAT: u8 = 0x00;

pub const GET_TEC_TEMPERATURE: u8 = 0x01;
pub const GET_HUMIDITY: u8 = 0x02;
pub const GET_DEW_POINT: u8 = 0x03;
pub const GET_SET_POINT_OFFSET: u8 = 0x04;
pub const GET_P_COEFFICIENT: u8 = 0x05;
pub const GET_I_COEFFICIENT: u8 = 0x06;
pub const GET_D_COEFFICIENT: u8 = 0x07;
pub const GET_TEC_POWERLEVEL: u8 = 0x08;
pub const GET_HW_VERSION: u8 = 0x09;
pub const GET_FW_VERSION: u8 = 0x0A;
pub const GET_NTC_COEFFICIENT: u8 = 0x1B;
pub const GET_BOARD_TEMP: u8 = 0x1F;
pub const GET_VOLTAGE_AND_CURRENT: u8 = 0x22;
pub const GET_TEC_VOLTAGE: u8 = 0x23;
pub const GET_TEC_CURRENT: u8 = 0x24;

pub const SET_POINT_OFFSET: u8 = 0x14;
pub const SET_P_COEFFICIENT: u8 = 0x15;
pub const SET_I_COEFFICIENT: u8 = 0x16;
pub const SET_D_COEFFICIENT: u8 = 0x17;
/// Payload byte 0 selects the mode: 0 arms the controller, 1 disables it.
pub const SET_DISABLE_NOT_ENABLE: u8 = 0x18;
pub const SET_CPU_TEMP: u8 = 0x19;
pub const SET_TEMP_SENSOR: u8 = 0x1C;
pub const SET_TEC_POWER_LEVEL: u8 = 0x1D;
pub const SET_RESET_BOARD: u8 = 0x1E;
pub const SET_NTC_COEFFICIENT: u8 = 0x20;

} // verus!
