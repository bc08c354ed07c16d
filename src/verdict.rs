use vstd::prelude::*;
use crate::engine::{ConnState, conn_state_name};

verus! {

/// Why a scenario failed.
#[derive(Clone, Copy, Debug, PartialEq, Eq, Structural)]
pub enum FailureReason {
    /// The stream ended before any response byte arrived.
    EmptyResponse,
    /// The phase ended before the end of the response stream.
    NoFin,
    /// An event named a stream that the probe did not open.
    UnexpectedStream,
    /// The socket failed to receive.
    ReadError,
    /// The socket failed to send.
    SendError,
    /// No local endpoint could be bound.
    BindError,
    /// The peer's address could not be resolved, or the socket could not be
    /// connected to it.
    ConnectError,
    /// The handshake ended in this state instead of `Connected`.
    Handshake(ConnState),
}

/// The result of one scenario against one peer.
#[derive(Clone, Copy, Debug, PartialEq, Eq, Structural)]
pub enum Verdict {
    Success,
    Failure(FailureReason),
    Timeout,
    /// The worker that ran the scenario failed unexpectedly.
    Crashed,
}

pub open spec fn verdict_text(v: Verdict) -> Seq<char> {
    match v {
        Verdict::Success => "OK"@,
        Verdict::Timeout => "ERROR: Timed out"@,
        Verdict::Crashed => "CRASHED"@,
        Verdict::Failure(FailureReason::EmptyResponse) => "Empty response"@,
        Verdict::Failure(FailureReason::NoFin) => "No FIN"@,
        Verdict::Failure(FailureReason::UnexpectedStream) => "Data on unexpected stream"@,
        Verdict::Failure(FailureReason::ReadError) => "ERROR: Read error"@,
        Verdict::Failure(FailureReason::SendError) => "ERROR: Send error"@,
        Verdict::Failure(FailureReason::BindError) => "ERROR: Bind error"@,
        Verdict::Failure(FailureReason::ConnectError) => "ERROR: Connect error"@,
        Verdict::Failure(FailureReason::Handshake(s)) => conn_state_name(s),
    }
}

impl Verdict {
    /// The text reported for the verdict.
    pub fn text(&self) -> (r: String)
        ensures
            r@ == verdict_text(*self),
    {
        match self {
            Verdict::Success => "OK".to_owned(),
            Verdict::Timeout => "ERROR: Timed out".to_owned(),
            Verdict::Crashed => "CRASHED".to_owned(),
            Verdict::Failure(FailureReason::EmptyResponse) => "Empty response".to_owned(),
            Verdict::Failure(FailureReason::NoFin) => "No FIN".to_owned(),
            Verdict::Failure(FailureReason::UnexpectedStream) => "Data on unexpected stream".to_owned(),
            Verdict::Failure(FailureReason::ReadError) => "ERROR: Read error".to_owned(),
            Verdict::Failure(FailureReason::SendError) => "ERROR: Send error".to_owned(),
            Verdict::Failure(FailureReason::BindError) => "ERROR: Bind error".to_owned(),
            Verdict::Failure(FailureReason::ConnectError) => "ERROR: Connect error".to_owned(),
            Verdict::Failure(FailureReason::Handshake(s)) => s.name(),
        }
    }

    /// Whether the verdict is a failure of any reason.
    pub fn is_failure(&self) -> (r: bool)
        ensures
            r == (*self is Failure),
    {
        match self {
            Verdict::Failure(_) => true,
            _ => false,
        }
    }
}

/// A step in setting up a worker's socket that can fail.
#[derive(Clone, Copy, Debug, PartialEq, Eq, Structural)]
pub enum ChannelError {
    /// Binding the local endpoint.
    Bind,
    /// Resolving the peer's address, or connecting the socket to it.
    Connect,
}

pub open spec fn channel_failure(e: ChannelError) -> Verdict {
    match e {
        ChannelError::Bind => Verdict::Failure(FailureReason::BindError),
        ChannelError::Connect => Verdict::Failure(FailureReason::ConnectError),
    }
}

/// The verdict of a worker whose socket could not be set up: a failure of
/// that worker alone, never a crash.
pub fn setup_failure(e: ChannelError) -> (r: Verdict)
    ensures
        r == channel_failure(e),
{
    match e {
        ChannelError::Bind => Verdict::Failure(FailureReason::BindError),
        ChannelError::Connect => Verdict::Failure(FailureReason::ConnectError),
    }
}

} // verus!
