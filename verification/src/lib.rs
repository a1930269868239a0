//! Protocol driver core for a two-wire humidity/temperature sensor.
//!
//! The crate is split in two layers. The protocol table ([`protocol`],
//! [`status`]) is a pure mapping from enumerated configuration values to
//! 16-bit command codes, status-register bit positions and numeric
//! constants. The measurement sequencer ([`driver`]) owns a bus handle and
//! a delay provider, issues commands built from the table, enforces the
//! conversion-time wait of a one-shot measurement, and validates the
//! checksum of every multi-byte response ([`checksum`], [`response`])
//! before a raw value reaches a caller.

pub mod checksum;
pub mod driver;
pub mod error;
pub mod protocol;
pub mod response;
pub mod status;
