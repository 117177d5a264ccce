//! Error taxonomy of the RCON client core.

use vstd::prelude::*;

verus! {

/// Every failure the protocol core can report.
///
/// The codec reports `PayloadTooLarge`, `Truncated` and `LengthMismatch`;
/// the handshake reports `AuthenticationFailed`; reassembly reports
/// `Protocol` for an unexpected packet type or an unbounded fragment
/// stream.  `Network`, `Timeout` and `Disconnected` are raised by the
/// unverified I/O layer and merely pass through the core's signatures.
#[derive(Clone, Copy, Debug, PartialEq, Eq, Structural)]
pub enum RconError {
    /// Socket-level I/O failure.
    Network,
    /// Connection establishment exceeded its bound.
    Timeout,
    /// Bad credential or request-id mismatch during the handshake.
    AuthenticationFailed,
    /// Malformed or unexpected packet sequence.
    Protocol,
    /// A request payload exceeded the client-to-server limit.
    PayloadTooLarge,
    /// A frame shorter than the minimum legal frame.
    Truncated,
    /// The declared size field contradicts the buffer length.
    LengthMismatch,
    /// The server closed the connection.
    Disconnected,
    /// A configuration value was missing or unusable.
    InvalidConfig,
}

impl RconError {
    /// A fixed human-readable description of the error.
    pub fn message(&self) -> (r: &'static str)
        ensures
            r@ == match *self {
                RconError::Network => "network error"@,
                RconError::Timeout => "connection timeout"@,
                RconError::AuthenticationFailed => "authentication failed"@,
                RconError::Protocol => "protocol error"@,
                RconError::PayloadTooLarge => "payload too large"@,
                RconError::Truncated => "packet too short"@,
                RconError::LengthMismatch => "packet length mismatch"@,
                RconError::Disconnected => "server disconnected"@,
                RconError::InvalidConfig => "invalid configuration"@,
            },
    {
        match *self {
            RconError::Network => "network error",
            RconError::Timeout => "connection timeout",
            RconError::AuthenticationFailed => "authentication failed",
            RconError::Protocol => "protocol error",
            RconError::PayloadTooLarge => "payload too large",
            RconError::Truncated => "packet too short",
            RconError::LengthMismatch => "packet length mismatch",
            RconError::Disconnected => "server disconnected",
            RconError::InvalidConfig => "invalid configuration",
        }
    }
}

} // verus!
