use kcp_tunnel::bridge::{Bridge, Half, RelayAction, RelayEvent, SessionState};
use kcp_tunnel::outcome::{Direction, FaultKind, Outcome};
use kcp_tunnel::session::run_session;

#[test]
fn ping_echo_success_four_bytes_each_way() {
    // A probe sends b"ping" down the stream half, the far side echoes it
    // back through the tunnel half, then the probe closes.
    let events = vec![
        RelayEvent::StreamData(b"ping".to_vec()),
        RelayEvent::TunnelData(b"ping".to_vec()),
        RelayEvent::StreamEof,
    ];
    let r = run_session(events);
    assert_eq!(r.to_tunnel, b"ping".to_vec());
    assert_eq!(r.to_stream, b"ping".to_vec());
    assert_eq!(
        r.outcome,
        Some(Outcome::Success { stream_to_tunnel: 4, tunnel_to_stream: 4 })
    );
    assert_eq!(r.bridge.state(), SessionState::Closed);
    assert_eq!(r.bridge.outcome(), r.outcome);
    assert_eq!(r.bridge.shutdowns_attempted(), (true, true));
}

#[test]
fn stream_eof_mid_write_terminates_and_shuts_down_both() {
    // The stream half closes gracefully while the tunnel direction still
    // has traffic queued behind it: the session ends at the EOF, both
    // halves get exactly one shutdown attempt, and the late traffic is
    // not relayed.
    let events = vec![
        RelayEvent::StreamData(vec![1, 2, 3]),
        RelayEvent::StreamEof,
        RelayEvent::TunnelData(vec![9, 9]),
    ];
    let r = run_session(events);
    assert_eq!(r.to_tunnel, vec![1, 2, 3]);
    assert_eq!(r.to_stream, Vec::<u8>::new());
    assert_eq!(
        r.outcome,
        Some(Outcome::Success { stream_to_tunnel: 3, tunnel_to_stream: 0 })
    );
    assert_eq!(r.bridge.state(), SessionState::Closed);
    assert_eq!(r.bridge.shutdowns_attempted(), (true, true));
}

#[test]
fn simultaneous_failures_yield_one_outcome() {
    // Both directions fail back to back; only the first failure decides
    // the single outcome record.
    let events = vec![RelayEvent::StreamReadFailed, RelayEvent::TunnelReadFailed];
    let r = run_session(events);
    assert_eq!(
        r.outcome,
        Some(Outcome::Failure { direction: Direction::StreamToTunnel, kind: FaultKind::Read })
    );
    assert_eq!(r.bridge.outcome(), r.outcome);
    assert_eq!(r.bridge.state(), SessionState::Closed);
}

#[test]
fn tunnel_eof_is_graceful() {
    let events = vec![RelayEvent::TunnelData(vec![7]), RelayEvent::TunnelEof];
    let r = run_session(events);
    assert_eq!(
        r.outcome,
        Some(Outcome::Success { stream_to_tunnel: 0, tunnel_to_stream: 1 })
    );
    assert_eq!(r.to_stream, vec![7]);
}

#[test]
fn tunnel_read_error_is_a_tunnel_to_stream_read_failure() {
    let r = run_session(vec![RelayEvent::TunnelReadFailed]);
    assert_eq!(
        r.outcome,
        Some(Outcome::Failure { direction: Direction::TunnelToStream, kind: FaultKind::Read })
    );
}

#[test]
fn tunnel_write_error_is_a_stream_to_tunnel_write_failure() {
    let r = run_session(vec![
        RelayEvent::StreamData(vec![5]),
        RelayEvent::TunnelWriteFailed,
    ]);
    assert_eq!(
        r.outcome,
        Some(Outcome::Failure { direction: Direction::StreamToTunnel, kind: FaultKind::Write })
    );
    assert_eq!(r.to_tunnel, vec![5]);
}

#[test]
fn stream_write_error_is_a_tunnel_to_stream_write_failure() {
    let r = run_session(vec![
        RelayEvent::TunnelData(vec![8]),
        RelayEvent::StreamWriteFailed,
    ]);
    assert_eq!(
        r.outcome,
        Some(Outcome::Failure { direction: Direction::TunnelToStream, kind: FaultKind::Write })
    );
}

#[test]
fn no_terminal_event_keeps_relaying_without_outcome() {
    let r = run_session(vec![RelayEvent::StreamData(vec![1])]);
    assert_eq!(r.outcome, None);
    assert_eq!(r.bridge.outcome(), None);
    assert_eq!(r.bridge.state(), SessionState::Relaying);
    assert_eq!(r.to_tunnel, vec![1]);
}

#[test]
fn empty_read_forwards_nothing() {
    let r = run_session(vec![RelayEvent::StreamData(Vec::new()), RelayEvent::TunnelEof]);
    assert_eq!(r.to_tunnel, Vec::<u8>::new());
    assert_eq!(
        r.outcome,
        Some(Outcome::Success { stream_to_tunnel: 0, tunnel_to_stream: 0 })
    );
}

#[test]
fn manual_lifecycle_walk() {
    let mut bridge = Bridge::new();
    assert_eq!(bridge.state(), SessionState::Paired);
    bridge.start_relay();
    assert_eq!(bridge.state(), SessionState::Relaying);

    match bridge.on_event(RelayEvent::StreamData(vec![10, 20])) {
        RelayAction::WriteTunnel(b) => assert_eq!(b, vec![10, 20]),
        _ => panic!("data must be forwarded to the tunnel half"),
    }
    match bridge.on_event(RelayEvent::TunnelData(vec![30])) {
        RelayAction::WriteStream(b) => assert_eq!(b, vec![30]),
        _ => panic!("data must be forwarded to the stream half"),
    }
    assert_eq!(bridge.byte_counts(), (2, 1));

    match bridge.on_event(RelayEvent::StreamEof) {
        RelayAction::ShutdownBoth => {}
        _ => panic!("end of stream must trigger shutdown of both halves"),
    }
    assert_eq!(bridge.state(), SessionState::ShuttingDown);
    assert_eq!(bridge.outcome(), None);

    // One shutdown attempt per half; a failed attempt (false) must not
    // alter the outcome's classification.
    bridge.record_shutdown(Half::Stream, true);
    bridge.record_shutdown(Half::Tunnel, false);
    let outcome = bridge.finish();
    assert_eq!(outcome, Outcome::Success { stream_to_tunnel: 2, tunnel_to_stream: 1 });
    assert_eq!(bridge.state(), SessionState::Closed);
    assert_eq!(bridge.outcome(), Some(outcome));
    assert!(outcome.is_success());
}

#[test]
fn hundred_sessions_are_independent() {
    // One hundred sessions with distinct payloads, one of which fails:
    // each reaches Closed with its own bytes and its own outcome.
    let mut reports = Vec::new();
    for k in 0..100u8 {
        let events = if k == 37 {
            vec![RelayEvent::StreamData(vec![k]), RelayEvent::TunnelReadFailed]
        } else {
            vec![
                RelayEvent::StreamData(vec![k]),
                RelayEvent::TunnelData(vec![k, k]),
                RelayEvent::TunnelEof,
            ]
        };
        reports.push(run_session(events));
    }
    for (k, r) in reports.iter().enumerate() {
        let k = k as u8;
        assert_eq!(r.bridge.state(), SessionState::Closed);
        assert_eq!(r.to_tunnel, vec![k]);
        if k == 37 {
            assert_eq!(
                r.outcome,
                Some(Outcome::Failure {
                    direction: Direction::TunnelToStream,
                    kind: FaultKind::Read,
                })
            );
        } else {
            assert_eq!(r.to_stream, vec![k, k]);
            assert_eq!(
                r.outcome,
                Some(Outcome::Success { stream_to_tunnel: 1, tunnel_to_stream: 2 })
            );
        }
    }
}
