//! One iteration of the driver loop at a time: the caller feeds the engine,
//! consults the probe, sends, and waits on the socket; these functions decide
//! what comes next after each of those steps.
use vstd::prelude::*;
use crate::engine::ConnState;

verus! {

/// The budget of one phase (connectivity, or the scenario), in milliseconds.
pub const PHASE_BUDGET_MS: u64 = 5000;

/// The size of the receive buffer. A read that fills it may have been cut
/// short and is dropped.
pub const RECV_CAPACITY: usize = 2048;

/// How a run of the driver loop ended.
#[derive(Clone, Copy, Debug, PartialEq, Eq, Structural)]
pub enum LoopEnd {
    /// The engine closed, or the probe stopped; the engine's state then.
    State(ConnState),
    /// The phase's deadline passed.
    TimedOut,
    /// The socket reported an error other than a timeout.
    ReadError,
    /// The socket failed to send a datagram.
    SendError,
}

/// What the socket's receive call gave.
#[derive(Clone, Copy, Debug, PartialEq, Eq, Structural)]
pub enum RecvStatus {
    /// That many bytes were read into the buffer.
    Data(usize),
    /// Nothing arrived before the read timeout.
    WouldBlock,
    /// Any other receive error.
    Failed,
}

/// What the socket's send call gave for one datagram.
#[derive(Clone, Copy, Debug, PartialEq, Eq, Structural)]
pub enum SendStatus {
    /// That many bytes were sent.
    Sent(usize),
    /// The send failed.
    Failed,
}

/// How one send went, as the loop sees it.
#[derive(Clone, Copy, Debug, PartialEq, Eq, Structural)]
pub enum SendCheck {
    /// The whole datagram went out.
    Complete,
    /// Only part of it went out: reported, not retried, and the loop goes on.
    Short,
    /// The loop ends with this result.
    Abort(LoopEnd),
}

pub open spec fn send_check(status: SendStatus, len: usize) -> SendCheck {
    match status {
        SendStatus::Failed => SendCheck::Abort(LoopEnd::SendError),
        SendStatus::Sent(n) => if n == len { SendCheck::Complete } else { SendCheck::Short },
    }
}

/// The next thing the caller does.
#[derive(Clone, Copy, Debug, PartialEq, Eq, Structural)]
pub enum LoopAction {
    /// Hand the engine's queued events to the probe.
    ConsultProbe,
    /// Block on the socket for at most this many milliseconds.
    Receive(u64),
    /// Keep the first this many bytes of the buffer as a datagram for the
    /// next feed, and iterate.
    Deliver(usize),
    /// Drop what was read and iterate.
    Skip,
    /// Leave the loop with this result.
    Finish(LoopEnd),
}

pub open spec fn feed_action(state: ConnState) -> LoopAction {
    if state == ConnState::Closed {
        LoopAction::Finish(LoopEnd::State(state))
    } else {
        LoopAction::ConsultProbe
    }
}

pub open spec fn probe_action(keep_going: bool, state: ConnState, spent_ms: u64, budget_ms: u64) -> LoopAction {
    if !keep_going {
        LoopAction::Finish(LoopEnd::State(state))
    } else if spent_ms >= budget_ms {
        LoopAction::Finish(LoopEnd::TimedOut)
    } else {
        LoopAction::Receive((budget_ms - spent_ms) as u64)
    }
}

pub open spec fn receive_action(status: RecvStatus, capacity: usize) -> LoopAction {
    match status {
        RecvStatus::WouldBlock => LoopAction::Finish(LoopEnd::TimedOut),
        RecvStatus::Failed => LoopAction::Finish(LoopEnd::ReadError),
        RecvStatus::Data(n) => if n == 0 || n >= capacity {
            LoopAction::Skip
        } else {
            LoopAction::Deliver(n)
        },
    }
}

/// After the received datagrams have been fed to the engine, which is now in
/// `state`: a closed connection ends the loop at once, without the probe.
pub fn after_feed(state: ConnState) -> (r: LoopAction)
    ensures
        r == feed_action(state),
{
    match state {
        ConnState::Closed => LoopAction::Finish(LoopEnd::State(state)),
        _ => LoopAction::ConsultProbe,
    }
}

/// After the probe has answered `keep_going` and the engine's output has been
/// sent, `spent_ms` into a phase of `budget_ms`: stop with the engine's
/// `state`, time out, or wait for what remains of the budget.
pub fn after_probe(keep_going: bool, state: ConnState, spent_ms: u64, budget_ms: u64) -> (r: LoopAction)
    ensures
        r == probe_action(keep_going, state, spent_ms, budget_ms),
{
    if !keep_going {
        LoopAction::Finish(LoopEnd::State(state))
    } else if spent_ms >= budget_ms {
        LoopAction::Finish(LoopEnd::TimedOut)
    } else {
        LoopAction::Receive(budget_ms - spent_ms)
    }
}

/// After the socket's receive call gave `status` into a buffer of `capacity`
/// bytes: a timeout or an error ends the loop; an empty read, or one that
/// filled the buffer, is dropped; any other read is kept.
pub fn after_receive(status: RecvStatus, capacity: usize) -> (r: LoopAction)
    ensures
        r == receive_action(status, capacity),
{
    match status {
        RecvStatus::WouldBlock => LoopAction::Finish(LoopEnd::TimedOut),
        RecvStatus::Failed => LoopAction::Finish(LoopEnd::ReadError),
        RecvStatus::Data(n) => {
            if n == 0 || n >= capacity {
                LoopAction::Skip
            } else {
                LoopAction::Deliver(n)
            }
        },
    }
}

/// After sending one datagram of `len` bytes with result `status`: a failed
/// send ends the loop; a short one is only reported.
pub fn after_send(status: SendStatus, len: usize) -> (r: SendCheck)
    ensures
        r == send_check(status, len),
{
    match status {
        SendStatus::Failed => SendCheck::Abort(LoopEnd::SendError),
        SendStatus::Sent(n) => {
            if n == len {
                SendCheck::Complete
            } else {
                SendCheck::Short
            }
        },
    }
}

/// A wait never reaches past the phase's deadline, and a phase whose budget
/// is spent ends in a timeout unless the probe has stopped: whatever the
/// caller's clock says, the time in one phase stays within that phase's own
/// budget.
pub proof fn lemma_wait_within_budget(keep_going: bool, state: ConnState, spent_ms: u64, budget_ms: u64)
    ensures
        probe_action(keep_going, state, spent_ms, budget_ms) matches LoopAction::Receive(wait)
            ==> 0 < wait && spent_ms + wait == budget_ms,
        keep_going && spent_ms >= budget_ms ==> probe_action(keep_going, state, spent_ms, budget_ms)
            == LoopAction::Finish(LoopEnd::TimedOut),
{
}

} // verus!
