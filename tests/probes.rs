use neqo_interop::driver::{after_feed, after_probe, after_receive, after_send, LoopAction, LoopEnd, RecvStatus, SendCheck, SendStatus, PHASE_BUDGET_MS, RECV_CAPACITY};
use neqo_interop::engine::{ConnState, OverlayEvent, TransportEvent};
use neqo_interop::peer::{AddrFamily, Peer, Test};
use neqo_interop::probes::{after_connect, connectivity_keep_going, MultiplexedProbe, NextPhase, ProbeAction, SimpleRequestProbe};
use neqo_interop::verdict::{setup_failure, ChannelError, FailureReason, Verdict};

#[test]
fn labels_and_alpn() {
    assert_eq!(Test::Connect.label(), "connect");
    assert_eq!(Test::H9.label(), "h9");
    assert_eq!(Test::H3.label(), "h3");
    assert_eq!(Test::H3.alpn(), vec!["h3-20".to_string()]);
    assert_eq!(Test::H9.alpn(), vec!["hq-20".to_string()]);
    assert_eq!(Test::Connect.alpn(), vec!["hq-20".to_string()]);
    assert_eq!(Test::all(), vec![Test::Connect, Test::H9, Test::H3]);
}

#[test]
fn every_peer_runs_every_test() {
    let p = Peer { label: "local".to_string(), host: "127.0.0.1".to_string(), port: 4433 };
    assert!(p.test_enabled(&Test::Connect));
    assert!(p.test_enabled(&Test::H3));
}

#[test]
fn bind_address_follows_family() {
    let v4 = Peer::bind(AddrFamily::V4);
    assert_eq!(v4.family, AddrFamily::V4);
    assert_eq!(v4.octets, vec![0u8; 4]);
    assert_eq!(v4.port, 0);
    let v6 = Peer::bind(AddrFamily::V6);
    assert_eq!(v6.family, AddrFamily::V6);
    assert_eq!(v6.octets, vec![0u8; 16]);
    assert_eq!(v6.port, 0);
}

#[test]
fn closed_engine_ends_loop_before_probe() {
    assert_eq!(after_feed(ConnState::Closed), LoopAction::Finish(LoopEnd::State(ConnState::Closed)));
    assert_eq!(after_feed(ConnState::Connecting), LoopAction::ConsultProbe);
    assert_eq!(after_feed(ConnState::Closing), LoopAction::ConsultProbe);
}

#[test]
fn wait_uses_what_is_left_of_the_budget() {
    assert_eq!(after_probe(true, ConnState::Connecting, 1200, 5000), LoopAction::Receive(3800));
    assert_eq!(after_probe(true, ConnState::Connecting, 0, PHASE_BUDGET_MS), LoopAction::Receive(5000));
    assert_eq!(after_probe(true, ConnState::Connected, 5000, 5000), LoopAction::Finish(LoopEnd::TimedOut));
    assert_eq!(after_probe(true, ConnState::Connected, 7000, 5000), LoopAction::Finish(LoopEnd::TimedOut));
    assert_eq!(
        after_probe(false, ConnState::Connected, 7000, 5000),
        LoopAction::Finish(LoopEnd::State(ConnState::Connected))
    );
}

#[test]
fn receive_classification() {
    assert_eq!(after_receive(RecvStatus::WouldBlock, RECV_CAPACITY), LoopAction::Finish(LoopEnd::TimedOut));
    assert_eq!(after_receive(RecvStatus::Failed, RECV_CAPACITY), LoopAction::Finish(LoopEnd::ReadError));
    assert_eq!(after_receive(RecvStatus::Data(0), RECV_CAPACITY), LoopAction::Skip);
    assert_eq!(after_receive(RecvStatus::Data(2048), RECV_CAPACITY), LoopAction::Skip);
    assert_eq!(after_receive(RecvStatus::Data(2047), RECV_CAPACITY), LoopAction::Deliver(2047));
    assert_eq!(after_receive(RecvStatus::Data(1), RECV_CAPACITY), LoopAction::Deliver(1));
}

#[test]
fn connectivity_stops_when_connected_or_closing() {
    assert!(!connectivity_keep_going(ConnState::Connected));
    assert!(!connectivity_keep_going(ConnState::Closing));
    assert!(connectivity_keep_going(ConnState::Connecting));
    assert!(connectivity_keep_going(ConnState::Closed));
}

#[test]
fn simple_request_succeeds_after_bytes_and_end() {
    let mut p = SimpleRequestProbe::new(0);
    assert_eq!(p.on_event(TransportEvent::SendStreamWritable { stream_id: 0 }), ProbeAction::Continue);
    assert_eq!(p.on_event(TransportEvent::Other), ProbeAction::Continue);
    assert_eq!(p.on_event(TransportEvent::RecvStreamReadable { stream_id: 0 }), ProbeAction::Read(0));
    assert_eq!(p.on_read(100, false), ProbeAction::Continue);
    assert_eq!(p.on_read(20, true), ProbeAction::CloseAndStop);
    assert_eq!(p.received, 120);
    assert!(p.fin);
    assert_eq!(p.verdict(LoopEnd::State(ConnState::Closing)), Verdict::Success);
    assert_eq!(Verdict::Success.text(), "OK");
}

#[test]
fn end_without_bytes_is_empty_response() {
    let mut p = SimpleRequestProbe::new(4);
    assert_eq!(p.on_read(0, true), ProbeAction::CloseAndStop);
    let v = p.verdict(LoopEnd::State(ConnState::Closing));
    assert_eq!(v, Verdict::Failure(FailureReason::EmptyResponse));
    assert_eq!(v.text(), "Empty response");
}

#[test]
fn bytes_without_end_is_no_fin() {
    let mut p = SimpleRequestProbe::new(4);
    assert_eq!(p.on_read(30, false), ProbeAction::Continue);
    let v = p.verdict(LoopEnd::State(ConnState::Closed));
    assert_eq!(v, Verdict::Failure(FailureReason::NoFin));
    assert_eq!(v.text(), "No FIN");
}

#[test]
fn byte_count_saturates() {
    let mut p = SimpleRequestProbe::new(0);
    p.on_read(u64::MAX - 1, false);
    p.on_read(5, false);
    assert_eq!(p.received, u64::MAX);
}

#[test]
fn untracked_stream_always_fails() {
    let mut p = SimpleRequestProbe::new(0);
    assert_eq!(p.on_event(TransportEvent::RecvStreamReadable { stream_id: 4 }), ProbeAction::Stop);
    assert!(p.violation);
    let v = p.verdict(LoopEnd::State(ConnState::Connected));
    assert_eq!(v, Verdict::Failure(FailureReason::UnexpectedStream));
    assert!(v.is_failure());
    assert_eq!(p.verdict(LoopEnd::TimedOut), Verdict::Failure(FailureReason::UnexpectedStream));
    p.on_read(10, true);
    assert_eq!(p.verdict(LoopEnd::State(ConnState::Closing)), Verdict::Failure(FailureReason::UnexpectedStream));

    let mut q = SimpleRequestProbe::new(0);
    assert_eq!(q.on_event(TransportEvent::SendStreamWritable { stream_id: 8 }), ProbeAction::Stop);
    assert_eq!(q.verdict(LoopEnd::ReadError), Verdict::Failure(FailureReason::UnexpectedStream));

    let mut m = MultiplexedProbe::new(0);
    assert_eq!(m.on_event(OverlayEvent::HeaderReady { stream_id: 2 }), ProbeAction::Stop);
    assert_eq!(m.verdict(LoopEnd::State(ConnState::Connected)), Verdict::Failure(FailureReason::UnexpectedStream));
    assert_ne!(m.verdict(LoopEnd::State(ConnState::Connected)), Verdict::Crashed);
    let mut m2 = MultiplexedProbe::new(0);
    assert_eq!(m2.on_event(OverlayEvent::DataReadable { stream_id: 6 }), ProbeAction::Stop);
    assert_eq!(m2.verdict(LoopEnd::TimedOut), Verdict::Failure(FailureReason::UnexpectedStream));
}

#[test]
fn multiplexed_request_flow() {
    let mut m = MultiplexedProbe::new(0);
    assert_eq!(m.on_event(OverlayEvent::Other), ProbeAction::Continue);
    assert_eq!(m.on_event(OverlayEvent::HeaderReady { stream_id: 0 }), ProbeAction::FetchHeaders(0));
    assert_eq!(m.on_event(OverlayEvent::DataReadable { stream_id: 0 }), ProbeAction::Read(0));
    assert_eq!(m.on_read(12, false), ProbeAction::Continue);
    assert_eq!(m.on_read(3, true), ProbeAction::CloseAndStop);
    assert!(m.fin);
    assert_eq!(m.received, 15);
    assert_eq!(m.verdict(LoopEnd::State(ConnState::Closing)), Verdict::Success);
    assert_eq!(m.verdict(LoopEnd::TimedOut), Verdict::Timeout);
    assert_eq!(m.verdict(LoopEnd::ReadError), Verdict::Failure(FailureReason::ReadError));
    assert_eq!(m.verdict(LoopEnd::SendError), Verdict::Failure(FailureReason::SendError));
}

#[test]
fn multiplexed_needs_end_of_response() {
    let m = MultiplexedProbe::new(0);
    assert_eq!(m.verdict(LoopEnd::State(ConnState::Closed)), Verdict::Failure(FailureReason::NoFin));
    let mut m2 = MultiplexedProbe::new(0);
    assert_eq!(m2.on_event(OverlayEvent::DataReadable { stream_id: 0 }), ProbeAction::Read(0));
    assert_eq!(m2.on_read(40, false), ProbeAction::Continue);
    assert_eq!(m2.verdict(LoopEnd::State(ConnState::Closing)), Verdict::Failure(FailureReason::NoFin));
}

#[test]
fn other_stream_events() {
    let mut p = SimpleRequestProbe::new(0);
    assert_eq!(p.on_event(TransportEvent::OtherStream { stream_id: 0 }), ProbeAction::Continue);
    assert!(!p.violation);
    assert_eq!(p.on_event(TransportEvent::OtherStream { stream_id: 3 }), ProbeAction::Stop);
    assert_eq!(p.verdict(LoopEnd::State(ConnState::Closing)), Verdict::Failure(FailureReason::UnexpectedStream));
    let mut m = MultiplexedProbe::new(0);
    assert_eq!(m.on_event(OverlayEvent::OtherStream { stream_id: 0 }), ProbeAction::Continue);
    assert_eq!(m.on_event(OverlayEvent::OtherStream { stream_id: 7 }), ProbeAction::Stop);
    assert_eq!(m.verdict(LoopEnd::State(ConnState::Closing)), Verdict::Failure(FailureReason::UnexpectedStream));
}

#[test]
fn send_results() {
    assert_eq!(after_send(SendStatus::Sent(1200), 1200), SendCheck::Complete);
    assert_eq!(after_send(SendStatus::Sent(100), 1200), SendCheck::Short);
    assert_eq!(after_send(SendStatus::Failed, 1200), SendCheck::Abort(LoopEnd::SendError));
    let p = SimpleRequestProbe::new(0);
    assert_eq!(p.verdict(LoopEnd::SendError), Verdict::Failure(FailureReason::SendError));
    assert_eq!(
        after_connect(Test::H9, LoopEnd::SendError),
        NextPhase::Done(Verdict::Failure(FailureReason::SendError))
    );
    assert_eq!(Verdict::Failure(FailureReason::SendError).text(), "ERROR: Send error");
}

#[test]
fn setup_failures_are_failures() {
    let b = setup_failure(ChannelError::Bind);
    assert_eq!(b, Verdict::Failure(FailureReason::BindError));
    assert_eq!(b.text(), "ERROR: Bind error");
    let c = setup_failure(ChannelError::Connect);
    assert_eq!(c, Verdict::Failure(FailureReason::ConnectError));
    assert_eq!(c.text(), "ERROR: Connect error");
    assert!(c.is_failure());
}

#[test]
fn handshake_outcomes() {
    assert_eq!(after_connect(Test::Connect, LoopEnd::State(ConnState::Connected)), NextPhase::Done(Verdict::Success));
    assert_eq!(after_connect(Test::H9, LoopEnd::State(ConnState::Connected)), NextPhase::Scenario(5000));
    assert_eq!(after_connect(Test::H3, LoopEnd::State(ConnState::Connected)), NextPhase::Scenario(5000));
    let closing = after_connect(Test::H9, LoopEnd::State(ConnState::Closing));
    assert_eq!(closing, NextPhase::Done(Verdict::Failure(FailureReason::Handshake(ConnState::Closing))));
    assert_eq!(Verdict::Failure(FailureReason::Handshake(ConnState::Closing)).text(), "Closing");
    assert_eq!(
        after_connect(Test::H3, LoopEnd::ReadError),
        NextPhase::Done(Verdict::Failure(FailureReason::ReadError))
    );
    assert_eq!(Verdict::Failure(FailureReason::ReadError).text(), "ERROR: Read error");
    assert_eq!(Verdict::Crashed.text(), "CRASHED");
    assert_eq!(Verdict::Failure(FailureReason::UnexpectedStream).text(), "Data on unexpected stream");
    assert_eq!(ConnState::Connecting.name(), "Connecting");
    assert_eq!(ConnState::Closed.name(), "Closed");
}

#[test]
fn silent_peer_times_out_in_connectivity() {
    // The handshake packet goes out, nothing ever comes back.
    let action = after_feed(ConnState::Connecting);
    assert_eq!(action, LoopAction::ConsultProbe);
    let keep = connectivity_keep_going(ConnState::Connecting);
    assert!(keep);
    assert_eq!(after_probe(keep, ConnState::Connecting, 0, PHASE_BUDGET_MS), LoopAction::Receive(5000));
    let end = match after_receive(RecvStatus::WouldBlock, RECV_CAPACITY) {
        LoopAction::Finish(end) => end,
        other => panic!("unexpected {:?}", other),
    };
    assert_eq!(end, LoopEnd::TimedOut);
    // The scenario phase is never entered.
    let next = after_connect(Test::H9, end);
    assert_eq!(next, NextPhase::Done(Verdict::Timeout));
    assert_eq!(Verdict::Timeout.text(), "ERROR: Timed out");
}

#[test]
fn handshake_then_no_end_of_stream_times_out_in_scenario() {
    assert!(!connectivity_keep_going(ConnState::Connected));
    assert_eq!(
        after_probe(false, ConnState::Connected, 300, PHASE_BUDGET_MS),
        LoopAction::Finish(LoopEnd::State(ConnState::Connected))
    );
    let budget = match after_connect(Test::H9, LoopEnd::State(ConnState::Connected)) {
        NextPhase::Scenario(b) => b,
        other => panic!("unexpected {:?}", other),
    };
    // The scenario gets its full budget, whatever the handshake spent.
    assert_eq!(budget, PHASE_BUDGET_MS);
    let mut p = SimpleRequestProbe::new(0);
    assert_eq!(p.on_event(TransportEvent::RecvStreamReadable { stream_id: 0 }), ProbeAction::Read(0));
    assert_eq!(p.on_read(50, false), ProbeAction::Continue);
    assert_eq!(after_probe(true, ConnState::Connected, 2000, budget), LoopAction::Receive(3000));
    assert_eq!(after_probe(true, ConnState::Connected, 5000, budget), LoopAction::Finish(LoopEnd::TimedOut));
    assert_eq!(p.verdict(LoopEnd::TimedOut), Verdict::Timeout);
}
