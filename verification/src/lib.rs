//! Process-supervised RPC channel: line-delimited JSON-RPC over a child
//! process's standard streams, with request/response correlation, per-call
//! timeouts, and fan-out of unsolicited events.

use vstd::prelude::*;

pub mod correlator;
pub mod encode;
pub mod jsonval;
pub mod session;
pub mod sink;
mod text;
pub mod wire;

verus! {

/// Errors a single `call` can end in, and the error of `start`.
pub enum CallError {
    /// `start` failed: the worker executable is missing or could not be spawned.
    SpawnError,
    /// `call` was invoked before any live session existed.
    NotStarted,
    /// The request line could not be written to the worker's input stream.
    WriteFailure,
    /// The worker reported an error for this request; carries its message.
    RemoteError(String),
    /// No response arrived within the per-call timeout.
    Timeout,
    /// The completion handle was abandoned before resolution.
    ChannelClosed,
}

/// Seconds a call waits for its response before it fails with `Timeout`.
pub const CALL_TIMEOUT_SECS: u64 = 30;

impl CallError {
    /// The text of this error, as it is surfaced to callers.
    pub fn message(&self) -> (r: String)
        ensures
            match self {
                CallError::SpawnError => r@ == "Failed to spawn sidecar"@,
                CallError::NotStarted => r@ == "Sidecar not started"@,
                CallError::WriteFailure => r@ == "Failed to write to sidecar"@,
                CallError::RemoteError(m) => r@ == m@,
                CallError::Timeout => r@ == "Sidecar call timed out (30s)"@,
                CallError::ChannelClosed => r@ == "Sidecar response channel closed"@,
            },
    {
        match self {
            CallError::SpawnError => String::from_str("Failed to spawn sidecar"),
            CallError::NotStarted => String::from_str("Sidecar not started"),
            CallError::WriteFailure => String::from_str("Failed to write to sidecar"),
            CallError::RemoteError(m) => m.clone(),
            CallError::Timeout => String::from_str("Sidecar call timed out (30s)"),
            CallError::ChannelClosed => String::from_str("Sidecar response channel closed"),
        }
    }
}

} // verus!
