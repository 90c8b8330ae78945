//! Device protocol client and telemetry windowing for a thermoelectric-cooler
//! (TEC) controller board that speaks a fixed 8-byte binary frame format over
//! a serial link.
//!
//! The crate covers the frame codec (encoding, decoding and CRC-16/XMODEM
//! checksum validation), the typed command layer (request builders, response
//! validation, status decoding), and the per-metric telemetry windows with
//! time-horizon eviction, auto-scaling display bounds and the hover lookup
//! used for interactive read-outs. Serial transport itself is left to the
//! caller: every operation here is a pure function over bytes and samples.

pub mod codec;
pub mod commands;
pub mod status;
pub mod client;
pub mod window;
pub mod hover;
