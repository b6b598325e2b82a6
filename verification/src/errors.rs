//! The error taxonomy of the gateway client.

use vstd::prelude::*;

verus! {

/// Every failure the client distinguishes.  All are handled internally
/// with bounded, observable retry -- except authentication failure, which
/// is terminal and surfaced to the owning application.
#[derive(Debug, Clone, Copy, PartialEq, Eq, Structural)]
pub enum GatewayError {
    /// Connect, read or write failure; always retried via backoff.
    Transport,
    /// A single malformed frame; the frame is dropped, the connection
    /// survives.
    Decode,
    /// The server declared the session fatally invalid; the session is
    /// cleared and a fresh identify attempted.
    ProtocolViolation,
    /// The identify credentials were rejected; terminal, never retried.
    Authentication,
    /// A heartbeat ack was missed; the connection is force-closed and
    /// reconnected.
    ZombieConnection,
}

impl GatewayError {
    /// Whether the client keeps retrying after this error.  Only
    /// authentication failure is non-retriable.
    pub fn retriable(&self) -> (r: bool)
        ensures
            r == !(*self is Authentication),
    {
        match self {
            GatewayError::Authentication => false,
            _ => true,
        }
    }

    /// Short diagnostic name of the error.
    pub fn label(&self) -> (r: &'static str)
        ensures
            (*self is Transport ==> r@ == "transport error"@),
            (*self is Decode ==> r@ == "decode error"@),
            (*self is ProtocolViolation ==> r@ == "protocol violation"@),
            (*self is Authentication ==> r@ == "authentication error"@),
            (*self is ZombieConnection ==> r@ == "zombie connection"@),
    {
        match self {
            GatewayError::Transport => "transport error",
            GatewayError::Decode => "decode error",
            GatewayError::ProtocolViolation => "protocol violation",
            GatewayError::Authentication => "authentication error",
            GatewayError::ZombieConnection => "zombie connection",
        }
    }
}

} // verus!
