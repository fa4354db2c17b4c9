//! Driver core for a MAP power inverter that speaks a byte-stuffed,
//! checksummed request/response protocol over a serial link.
//!
//! The crate holds the verified protocol logic: the frame codec (escape
//! encoding, checksums, response validation), the status-page decoder with
//! its mode classifier, the EEPROM image assembly, and the poll/publish
//! decision loop.  The serial transport and the publish transport are
//! driven by an unverified shell that feeds raw bytes in and carries
//! frames out.

pub mod error;
pub mod high_level;
pub mod low_level;
pub mod poll;
