//! Error taxonomy of the protocol session.
//!
//! Every error is fatal to the session except the degraded read of the
//! optional eco/phase-current page, which the status decoder tolerates by
//! substituting a sentinel value.

use vstd::prelude::*;

verus! {

/// Everything that can go wrong while talking to the device.
///
/// Transport failures are reported by the unverified shell as `IOError`;
/// the remaining variants are produced by the verified protocol logic and
/// carry the offending value so a misbehaving device or cable can be
/// diagnosed without re-running.
#[derive(Clone, Copy, Debug, PartialEq, Eq, Structural)]
pub enum MapError {
    /// Underlying I/O failure on the byte channel.
    IOError,
    /// The device-present marker in the configuration image is wrong.
    NotFound,
    /// The echo channel returned a short read while confirming a write.
    VerifyReadAfterWriteError { count: usize },
    /// More than the tolerated number of mismatched echoes in a row.
    VerifyReadAfterWriteRunawayError,
    /// A write to the byte channel did not accept the byte.
    WriteError,
    /// The response opened with the device's error marker.
    FirstByteis65DontKnowWhatItMeans,
    /// The response opened with a byte that is neither the success nor the
    /// error marker.
    UnknownValueError { value: u8 },
    /// The response checksum did not match; carries the expected value.
    ChecksumFailed { value: u8 },
    /// The status page reported a raw operating mode outside the base
    /// enumeration.
    UnknownMode { value: u8 },
}

} // verus!
