//! Failure taxonomy of the liveness core.
//!
//! `HandleDropped`, `TimerDropped` and `Transport` reflect the health of the
//! whole connection and terminate the background task. `ChannelLimitReached`
//! and `ProtocolError` are local to a single command and are reported back to
//! the command's issuer; they never terminate the task.

use vstd::prelude::*;

verus! {

/// The kind of a failure. The payloads of `Transport` and `ProtocolError`
/// are the numeric codes under which the driver and the protocol engine
/// identify the underlying error.
#[derive(Debug, Clone, Copy, PartialEq, Eq, Structural)]
pub enum ErrorKind {
    /// The shutdown channel errored instead of delivering a signal.
    HandleDropped,
    /// The heartbeat timer source was torn down.
    TimerDropped,
    /// The transport failed with an I/O error.
    Transport(u64),
    /// No channel id was available on the connection.
    ChannelLimitReached,
    /// The protocol engine rejected an operation.
    ProtocolError(u64),
}

/// An error surfaced by the background task or by a command.
#[derive(Debug, Clone, Copy, PartialEq, Eq, Structural)]
pub struct Error {
    pub kind: ErrorKind,
}

impl Error {
    /// The kind of this error.
    pub fn kind(&self) -> (k: ErrorKind)
        ensures
            k == self.kind,
    {
        self.kind
    }

    /// A human-readable description of this error.
    pub fn message(&self) -> (m: &'static str)
        ensures
            m@ == self.kind.spec_message(),
    {
        self.kind.message()
    }
}

impl ErrorKind {
    /// The description that `message` returns for each kind.
    pub open spec fn spec_message(self) -> Seq<char> {
        match self {
            ErrorKind::HandleDropped => "the handle to the background task was dropped without signaling it to stop"@,
            ErrorKind::TimerDropped => "the timer used for the heartbeat has been dropped"@,
            ErrorKind::Transport(_) => "an error occured in the transport"@,
            ErrorKind::ChannelLimitReached => "open channel limit reached"@,
            ErrorKind::ProtocolError(_) => "a protocol error occured"@,
        }
    }

    /// A human-readable description of this kind of failure.
    pub fn message(&self) -> (m: &'static str)
        ensures
            m@ == self.spec_message(),
    {
        match self {
            ErrorKind::HandleDropped => "the handle to the background task was dropped without signaling it to stop",
            ErrorKind::TimerDropped => "the timer used for the heartbeat has been dropped",
            ErrorKind::Transport(_) => "an error occured in the transport",
            ErrorKind::ChannelLimitReached => "open channel limit reached",
            ErrorKind::ProtocolError(_) => "a protocol error occured",
        }
    }
}

impl From<ErrorKind> for Error {
    fn from(kind: ErrorKind) -> (e: Error) {
        Error { kind }
    }
}

impl vstd::std_specs::convert::FromSpecImpl<ErrorKind> for Error {
    open spec fn obeys_from_spec() -> bool {
        true
    }

    open spec fn from_spec(kind: ErrorKind) -> Error {
        Error { kind }
    }
}

} // verus!
