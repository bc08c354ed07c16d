//! The scenario logic consulted at each iteration of the driver loop. A probe
//! tracks the one stream that it opened; an event about any other stream is a
//! protocol violation, which stops the probe and fails the scenario.
use vstd::prelude::*;
use crate::driver::{LoopEnd, PHASE_BUDGET_MS};
use crate::engine::{ConnState, OverlayEvent, TransportEvent};
use crate::peer::Test;
use crate::verdict::{FailureReason, Verdict};

verus! {

/// What a probe asks the caller to do for one event.
#[derive(Clone, Copy, Debug, PartialEq, Eq, Structural)]
pub enum ProbeAction {
    /// Go on with the next event.
    Continue,
    /// Read from the stream and report what was read.
    Read(u64),
    /// Fetch and report the response headers of the stream.
    FetchHeaders(u64),
    /// Stop: the probe is done with this iteration and with the loop.
    Stop,
    /// Close the connection, then stop.
    CloseAndStop,
}

/// Whether the connectivity phase goes on: it stops once the engine is
/// connected or closing.
pub open spec fn connectivity_continues(state: ConnState) -> bool {
    state != ConnState::Connected && state != ConnState::Closing
}

/// The probe of the connectivity phase: it has no logic of its own beyond
/// the engine's state.
pub fn connectivity_keep_going(state: ConnState) -> (r: bool)
    ensures
        r == connectivity_continues(state),
{
    match state {
        ConnState::Connected => false,
        ConnState::Closing => false,
        _ => true,
    }
}

/// The stream that a transport event names, if any.
pub open spec fn transport_event_stream(ev: TransportEvent) -> Option<u64> {
    match ev {
        TransportEvent::RecvStreamReadable { stream_id } => Some(stream_id),
        TransportEvent::SendStreamWritable { stream_id } => Some(stream_id),
        TransportEvent::OtherStream { stream_id } => Some(stream_id),
        TransportEvent::Other => None,
    }
}

/// The stream that an overlay event names, if any.
pub open spec fn overlay_event_stream(ev: OverlayEvent) -> Option<u64> {
    match ev {
        OverlayEvent::HeaderReady { stream_id } => Some(stream_id),
        OverlayEvent::DataReadable { stream_id } => Some(stream_id),
        OverlayEvent::OtherStream { stream_id } => Some(stream_id),
        OverlayEvent::Other => None,
    }
}

/// The probe of a single request and response on one bidirectional stream.
#[derive(Clone, Copy, Debug, PartialEq, Eq, Structural)]
pub struct SimpleRequestProbe {
    /// The stream that the probe opened.
    pub stream_id: u64,
    /// Bytes received on it so far (saturating).
    pub received: u64,
    /// Whether the end of the stream was seen.
    pub fin: bool,
    /// Whether an event named another stream.
    pub violation: bool,
}

pub open spec fn simple_event_step(p: SimpleRequestProbe, ev: TransportEvent) -> (SimpleRequestProbe, ProbeAction) {
    match transport_event_stream(ev) {
        None => (p, ProbeAction::Continue),
        Some(id) => if id != p.stream_id {
            (SimpleRequestProbe { violation: true, ..p }, ProbeAction::Stop)
        } else if ev is RecvStreamReadable {
            (p, ProbeAction::Read(id))
        } else {
            (p, ProbeAction::Continue)
        },
    }
}

pub open spec fn saturating_sum(a: u64, b: u64) -> u64 {
    if a + b > u64::MAX { u64::MAX } else { (a + b) as u64 }
}

pub open spec fn simple_read_step(p: SimpleRequestProbe, n: u64, fin: bool) -> (SimpleRequestProbe, ProbeAction) {
    let q = SimpleRequestProbe { received: saturating_sum(p.received, n), ..p };
    if fin {
        (SimpleRequestProbe { fin: true, ..q }, ProbeAction::CloseAndStop)
    } else {
        (q, ProbeAction::Continue)
    }
}

/// The scenario's verdict once its driver loop ended with `end`.
pub open spec fn simple_verdict(p: SimpleRequestProbe, end: LoopEnd) -> Verdict {
    if p.violation {
        Verdict::Failure(FailureReason::UnexpectedStream)
    } else {
        match end {
            LoopEnd::TimedOut => Verdict::Timeout,
            LoopEnd::ReadError => Verdict::Failure(FailureReason::ReadError),
            LoopEnd::SendError => Verdict::Failure(FailureReason::SendError),
            LoopEnd::State(_) => if p.received == 0 {
                Verdict::Failure(FailureReason::EmptyResponse)
            } else if !p.fin {
                Verdict::Failure(FailureReason::NoFin)
            } else {
                Verdict::Success
            },
        }
    }
}

impl SimpleRequestProbe {
    pub open spec fn new_spec(stream_id: u64) -> SimpleRequestProbe {
        SimpleRequestProbe { stream_id, received: 0, fin: false, violation: false }
    }

    /// A probe that tracks `stream_id`, on which the request was sent.
    pub fn new(stream_id: u64) -> (r: SimpleRequestProbe)
        ensures
            r == SimpleRequestProbe::new_spec(stream_id),
    {
        SimpleRequestProbe { stream_id, received: 0, fin: false, violation: false }
    }

    /// Judges one queued event: one that names another stream is a violation
    /// and stops the probe; readable data on the tracked stream is to be
    /// read; anything else is passed over.
    pub fn on_event(&mut self, ev: TransportEvent) -> (r: ProbeAction)
        ensures
            (*final(self), r) == simple_event_step(*old(self), ev),
    {
        match ev {
            TransportEvent::RecvStreamReadable { stream_id } => {
                if stream_id != self.stream_id {
                    self.violation = true;
                    ProbeAction::Stop
                } else {
                    ProbeAction::Read(stream_id)
                }
            },
            TransportEvent::SendStreamWritable { stream_id } => {
                if stream_id != self.stream_id {
                    self.violation = true;
                    ProbeAction::Stop
                } else {
                    ProbeAction::Continue
                }
            },
            TransportEvent::OtherStream { stream_id } => {
                if stream_id != self.stream_id {
                    self.violation = true;
                    ProbeAction::Stop
                } else {
                    ProbeAction::Continue
                }
            },
            TransportEvent::Other => ProbeAction::Continue,
        }
    }

    /// Takes in a read of `n` bytes from the tracked stream, `fin` telling
    /// whether the stream ended: the end of the stream closes the connection
    /// and stops the probe.
    pub fn on_read(&mut self, n: u64, fin: bool) -> (r: ProbeAction)
        ensures
            (*final(self), r) == simple_read_step(*old(self), n, fin),
    {
        self.received = self.received.saturating_add(n);
        if fin {
            self.fin = true;
            ProbeAction::CloseAndStop
        } else {
            ProbeAction::Continue
        }
    }

    /// The verdict once the scenario's driver loop ended with `end`.
    pub fn verdict(&self, end: LoopEnd) -> (r: Verdict)
        ensures
            r == simple_verdict(*self, end),
    {
        if self.violation {
            Verdict::Failure(FailureReason::UnexpectedStream)
        } else {
            match end {
                LoopEnd::TimedOut => Verdict::Timeout,
                LoopEnd::ReadError => Verdict::Failure(FailureReason::ReadError),
                LoopEnd::SendError => Verdict::Failure(FailureReason::SendError),
                LoopEnd::State(_) => {
                    if self.received == 0 {
                        Verdict::Failure(FailureReason::EmptyResponse)
                    } else if !self.fin {
                        Verdict::Failure(FailureReason::NoFin)
                    } else {
                        Verdict::Success
                    }
                },
            }
        }
    }
}

/// The probe of a single request through the HTTP/3 overlay.
#[derive(Clone, Copy, Debug, PartialEq, Eq, Structural)]
pub struct MultiplexedProbe {
    /// The request stream that the probe opened.
    pub stream_id: u64,
    /// Response body bytes received so far (saturating).
    pub received: u64,
    /// Whether the end of the response was seen.
    pub fin: bool,
    /// Whether an event named another stream.
    pub violation: bool,
}

pub open spec fn multiplexed_event_step(p: MultiplexedProbe, ev: OverlayEvent) -> (MultiplexedProbe, ProbeAction) {
    match overlay_event_stream(ev) {
        None => (p, ProbeAction::Continue),
        Some(id) => if id != p.stream_id {
            (MultiplexedProbe { violation: true, ..p }, ProbeAction::Stop)
        } else if ev is HeaderReady {
            (p, ProbeAction::FetchHeaders(id))
        } else if ev is DataReadable {
            (p, ProbeAction::Read(id))
        } else {
            (p, ProbeAction::Continue)
        },
    }
}

pub open spec fn multiplexed_read_step(p: MultiplexedProbe, n: u64, fin: bool) -> (MultiplexedProbe, ProbeAction) {
    let q = MultiplexedProbe { received: saturating_sum(p.received, n), ..p };
    if fin {
        (MultiplexedProbe { fin: true, ..q }, ProbeAction::CloseAndStop)
    } else {
        (q, ProbeAction::Continue)
    }
}

pub open spec fn multiplexed_verdict(p: MultiplexedProbe, end: LoopEnd) -> Verdict {
    if p.violation {
        Verdict::Failure(FailureReason::UnexpectedStream)
    } else {
        match end {
            LoopEnd::TimedOut => Verdict::Timeout,
            LoopEnd::ReadError => Verdict::Failure(FailureReason::ReadError),
            LoopEnd::SendError => Verdict::Failure(FailureReason::SendError),
            LoopEnd::State(_) => if p.fin {
                Verdict::Success
            } else {
                Verdict::Failure(FailureReason::NoFin)
            },
        }
    }
}

impl MultiplexedProbe {
    /// A probe that tracks the request stream `stream_id`.
    pub fn new(stream_id: u64) -> (r: MultiplexedProbe)
        ensures
            r == (MultiplexedProbe { stream_id, received: 0, fin: false, violation: false }),
    {
        MultiplexedProbe { stream_id, received: 0, fin: false, violation: false }
    }

    /// Judges one event of the overlay (which the caller has advanced one
    /// step first): one that names another stream is a violation and stops
    /// the probe; headers and data of the tracked stream are to be fetched.
    pub fn on_event(&mut self, ev: OverlayEvent) -> (r: ProbeAction)
        ensures
            (*final(self), r) == multiplexed_event_step(*old(self), ev),
    {
        match ev {
            OverlayEvent::HeaderReady { stream_id } => {
                if stream_id != self.stream_id {
                    self.violation = true;
                    ProbeAction::Stop
                } else {
                    ProbeAction::FetchHeaders(stream_id)
                }
            },
            OverlayEvent::DataReadable { stream_id } => {
                if stream_id != self.stream_id {
                    self.violation = true;
                    ProbeAction::Stop
                } else {
                    ProbeAction::Read(stream_id)
                }
            },
            OverlayEvent::OtherStream { stream_id } => {
                if stream_id != self.stream_id {
                    self.violation = true;
                    ProbeAction::Stop
                } else {
                    ProbeAction::Continue
                }
            },
            OverlayEvent::Other => ProbeAction::Continue,
        }
    }

    /// Takes in a read of `n` bytes of response data, `fin` telling whether
    /// the response ended: its end closes the session and stops the probe.
    pub fn on_read(&mut self, n: u64, fin: bool) -> (r: ProbeAction)
        ensures
            (*final(self), r) == multiplexed_read_step(*old(self), n, fin),
    {
        self.received = self.received.saturating_add(n);
        if fin {
            self.fin = true;
            ProbeAction::CloseAndStop
        } else {
            ProbeAction::Continue
        }
    }

    /// The verdict once the scenario's driver loop ended with `end`.
    pub fn verdict(&self, end: LoopEnd) -> (r: Verdict)
        ensures
            r == multiplexed_verdict(*self, end),
    {
        if self.violation {
            Verdict::Failure(FailureReason::UnexpectedStream)
        } else {
            match end {
                LoopEnd::TimedOut => Verdict::Timeout,
                LoopEnd::ReadError => Verdict::Failure(FailureReason::ReadError),
                LoopEnd::SendError => Verdict::Failure(FailureReason::SendError),
                LoopEnd::State(_) => {
                    if self.fin {
                        Verdict::Success
                    } else {
                        Verdict::Failure(FailureReason::NoFin)
                    }
                },
            }
        }
    }
}

/// What a probe worker does once its connectivity phase has ended.
#[derive(Clone, Copy, Debug, PartialEq, Eq, Structural)]
pub enum NextPhase {
    /// The worker is done, with this verdict.
    Done(Verdict),
    /// Run the scenario on the same connection, with a budget of its own in
    /// milliseconds.
    Scenario(u64),
}

pub open spec fn connect_phase_next(test: Test, end: LoopEnd) -> NextPhase {
    match end {
        LoopEnd::TimedOut => NextPhase::Done(Verdict::Timeout),
        LoopEnd::ReadError => NextPhase::Done(Verdict::Failure(FailureReason::ReadError)),
        LoopEnd::SendError => NextPhase::Done(Verdict::Failure(FailureReason::SendError)),
        LoopEnd::State(s) => if s != ConnState::Connected {
            NextPhase::Done(Verdict::Failure(FailureReason::Handshake(s)))
        } else if test == Test::Connect {
            NextPhase::Done(Verdict::Success)
        } else {
            NextPhase::Scenario(PHASE_BUDGET_MS)
        },
    }
}

/// Decides, for a worker running `test`, what follows a connectivity phase
/// that ended with `end`: a connection is needed to go on, and the scenario
/// then gets a full budget of its own, whatever the first phase spent.
pub fn after_connect(test: Test, end: LoopEnd) -> (r: NextPhase)
    ensures
        r == connect_phase_next(test, end),
{
    match end {
        LoopEnd::TimedOut => NextPhase::Done(Verdict::Timeout),
        LoopEnd::ReadError => NextPhase::Done(Verdict::Failure(FailureReason::ReadError)),
        LoopEnd::SendError => NextPhase::Done(Verdict::Failure(FailureReason::SendError)),
        LoopEnd::State(s) => {
            if s != ConnState::Connected {
                NextPhase::Done(Verdict::Failure(FailureReason::Handshake(s)))
            } else if test == Test::Connect {
                NextPhase::Done(Verdict::Success)
            } else {
                NextPhase::Scenario(PHASE_BUDGET_MS)
            }
        },
    }
}

/// Each phase is judged on its own: a connectivity phase that times out is
/// the worker's timeout and no scenario follows; a completed handshake hands
/// the scenario a full budget of its own; and a scenario whose loop times
/// out, with no stray stream seen, is a timeout of that phase.
pub proof fn lemma_phases_judged_apart(test: Test, p: SimpleRequestProbe, q: MultiplexedProbe)
    ensures
        connect_phase_next(test, LoopEnd::TimedOut) == NextPhase::Done(Verdict::Timeout),
        test != Test::Connect ==> connect_phase_next(test, LoopEnd::State(ConnState::Connected))
            == NextPhase::Scenario(PHASE_BUDGET_MS),
        test == Test::Connect ==> connect_phase_next(test, LoopEnd::State(ConnState::Connected))
            == NextPhase::Done(Verdict::Success),
        !p.violation ==> simple_verdict(p, LoopEnd::TimedOut) == Verdict::Timeout,
        !q.violation ==> multiplexed_verdict(q, LoopEnd::TimedOut) == Verdict::Timeout,
{
}

/// An HTTP/3 request succeeds exactly when its response ended, with no stray
/// stream seen, before the loop stopped on its own.
pub proof fn lemma_multiplexed_success_needs_end(q: MultiplexedProbe, end: LoopEnd)
    ensures
        multiplexed_verdict(q, end) == Verdict::Success <==> (!q.violation && end is State && q.fin),
        !q.violation && end is State && !q.fin ==> multiplexed_verdict(q, end)
            == Verdict::Failure(FailureReason::NoFin),
{
}

/// The state of a request probe after the reads `reads` (byte count, end of
/// stream), one after another, from `p`.
pub open spec fn replay_reads(p: SimpleRequestProbe, reads: Seq<(u64, bool)>) -> SimpleRequestProbe
    decreases reads.len(),
{
    if reads.len() == 0 {
        p
    } else {
        simple_read_step(replay_reads(p, reads.drop_last()), reads.last().0, reads.last().1).0
    }
}

proof fn lemma_replay_reads(p: SimpleRequestProbe, reads: Seq<(u64, bool)>)
    ensures
        replay_reads(p, reads).stream_id == p.stream_id,
        replay_reads(p, reads).violation == p.violation,
        replay_reads(p, reads).received > 0 <==> (p.received > 0 || exists|i: int| 0 <= i < reads.len() && reads[i].0 > 0),
        replay_reads(p, reads).fin <==> (p.fin || exists|i: int| 0 <= i < reads.len() && reads[i].1),
    decreases reads.len(),
{
    if reads.len() > 0 {
        let prefix = reads.drop_last();
        lemma_replay_reads(p, prefix);
        let q = replay_reads(p, prefix);
        if q.received > 0 || reads.last().0 > 0 {
            if q.received > 0 && p.received == 0 {
                let i = choose|i: int| 0 <= i < prefix.len() && prefix[i].0 > 0;
                assert(reads[i] == prefix[i]);
            }
        }
        if exists|i: int| 0 <= i < reads.len() && reads[i].0 > 0 {
            let i = choose|i: int| 0 <= i < reads.len() && reads[i].0 > 0;
            if i < prefix.len() {
                assert(prefix[i] == reads[i]);
            }
        }
        if exists|i: int| 0 <= i < reads.len() && reads[i].1 {
            let i = choose|i: int| 0 <= i < reads.len() && reads[i].1;
            if i < prefix.len() {
                assert(prefix[i] == reads[i]);
            }
        }
        if q.fin && !p.fin {
            let i = choose|i: int| 0 <= i < prefix.len() && prefix[i].1;
            assert(reads[i] == prefix[i]);
        }
    }
}

/// A request probe succeeds exactly when its stream ended after a positive
/// number of bytes: from a fresh probe, after reads of which only the last
/// may carry the end of the stream, the scenario succeeds if and only if the
/// last read carried the end and some read carried bytes; where the end came
/// with no byte at all, the verdict is an empty response.
pub proof fn lemma_success_needs_bytes_then_end(stream_id: u64, reads: Seq<(u64, bool)>, state: ConnState)
    requires
        forall|i: int| 0 <= i < reads.len() - 1 ==> !reads[i].1,
    ensures
        simple_verdict(replay_reads(SimpleRequestProbe::new_spec(stream_id), reads), LoopEnd::State(state))
            == Verdict::Success
            <==> (reads.len() > 0 && reads.last().1 && exists|i: int| 0 <= i < reads.len() && reads[i].0 > 0),
        (reads.len() > 0 && reads.last().1 && forall|i: int| 0 <= i < reads.len() ==> reads[i].0 == 0)
            ==> simple_verdict(replay_reads(SimpleRequestProbe::new_spec(stream_id), reads), LoopEnd::State(state))
            == Verdict::Failure(FailureReason::EmptyResponse),
{
    let p = SimpleRequestProbe::new_spec(stream_id);
    lemma_replay_reads(p, reads);
    if exists|i: int| 0 <= i < reads.len() && reads[i].1 {
        let i = choose|i: int| 0 <= i < reads.len() && reads[i].1;
        assert(i == reads.len() - 1);
    }
}

/// An event about a stream that the probe did not open always fails the
/// scenario: it stops the probe, and no later event, read or end of the loop
/// turns the verdict into anything but that failure.
pub proof fn lemma_untracked_stream_fails(
    p: SimpleRequestProbe,
    ev: TransportEvent,
    later_ev: TransportEvent,
    later_read: (u64, bool),
    end: LoopEnd,
    q: MultiplexedProbe,
    oev: OverlayEvent,
    later_oev: OverlayEvent,
    later_oread: (u64, bool),
)
    ensures
        transport_event_stream(ev) matches Some(id) && id != p.stream_id ==> {
            let after = simple_event_step(p, ev).0;
            &&& simple_event_step(p, ev).1 == ProbeAction::Stop
            &&& simple_verdict(after, end) == Verdict::Failure(FailureReason::UnexpectedStream)
            &&& simple_verdict(simple_event_step(after, later_ev).0, end)
                == Verdict::Failure(FailureReason::UnexpectedStream)
            &&& simple_verdict(simple_read_step(after, later_read.0, later_read.1).0, end)
                == Verdict::Failure(FailureReason::UnexpectedStream)
        },
        overlay_event_stream(oev) matches Some(id) && id != q.stream_id ==> {
            let after = multiplexed_event_step(q, oev).0;
            &&& multiplexed_event_step(q, oev).1 == ProbeAction::Stop
            &&& multiplexed_verdict(after, end) == Verdict::Failure(FailureReason::UnexpectedStream)
            &&& multiplexed_verdict(multiplexed_event_step(after, later_oev).0, end)
                == Verdict::Failure(FailureReason::UnexpectedStream)
            &&& multiplexed_verdict(multiplexed_read_step(after, later_oread.0, later_oread.1).0, end)
                == Verdict::Failure(FailureReason::UnexpectedStream)
        },
{
}

} // verus!
