//! Error taxonomy of the controller core.

use vstd::prelude::*;

verus! {

/// A failure of one bus exchange, as the transport reports it.
/// The session manager performs no retry; the caller owns retry policy.
#[derive(Clone, Copy, Debug, PartialEq, Eq, Structural)]
pub enum TransportError {
    /// No response arrived within the transport's window.
    Timeout,
    /// A response arrived but failed its integrity checks.
    MalformedFrame,
    /// The device explicitly rejected the request.
    Nack,
}

impl TransportError {
    /// A short diagnostic name for this failure.
    pub fn label(&self) -> &'static str {
        match self {
            TransportError::Timeout => "timeout",
            TransportError::MalformedFrame => "malformed frame",
            TransportError::Nack => "nack",
        }
    }
}

/// A failure to encode a physical value for a device.
#[derive(Clone, Copy, Debug, PartialEq, Eq, Structural)]
pub enum CodecError {
    /// The value exceeds the device's representable span.
    OutOfRange,
}

/// A decoded reading fell outside the device's plausible range.
#[derive(Clone, Copy, Debug, PartialEq, Eq, Structural)]
pub struct ValueError {
    /// The implausible reading, in micro-units.
    pub observed_micro: u64,
    /// The largest plausible reading, in micro-units.
    pub ceiling_micro: u64,
}

} // verus!
