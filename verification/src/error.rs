//! The library's error taxonomy: transport failures surfaced verbatim,
//! malformed device responses, and out-of-range test durations.

use vstd::prelude::*;

verus! {

/// Why an operation against the UPS failed. Every failure is terminal for
/// the operation that raised it; no partial result is handed out.
#[derive(Debug)]
pub enum UpsError {
    /// A failure reported by the underlying USB control-transfer primitive
    /// (timeout, stall, disconnect, permission), propagated unchanged.
    Usb(rusb::Error),
    /// The device returned too little data, or a status line that does not
    /// resolve to exactly seven numeric fields.
    InvalidResponse,
    /// A test duration outside 1..=99 minutes was requested.
    InvalidTime,
}

} // verus!
