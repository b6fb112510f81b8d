use kcp_tunnel::acceptor::Acceptor;
use kcp_tunnel::bridge::SessionState;
use kcp_tunnel::config::Mode;

#[test]
fn session_ids_are_36_characters() {
    let mut acceptor = Acceptor::new(Mode::Client);
    let id = acceptor.begin_session();
    assert_eq!(id.len(), 36);
    assert_eq!(acceptor.accepted, 1);
}

#[test]
fn dial_failure_leaves_the_acceptor_accepting() {
    // A session arrives, the upstream dial fails: the session is never
    // created, the failure is counted, and the next session is accepted
    // and established as if nothing had happened.
    let mut acceptor = Acceptor::new(Mode::Server);

    let first = acceptor.begin_session();
    acceptor.on_dial_failure();
    assert_eq!(acceptor.mode, Mode::Server);
    assert_eq!(acceptor.accepted, 1);
    assert_eq!(acceptor.dial_failures, 1);
    assert_eq!(acceptor.established, 0);

    let second = acceptor.begin_session();
    let bridge = acceptor.on_dial_success();
    assert_eq!(bridge.state(), SessionState::Paired);
    assert_eq!(acceptor.accepted, 2);
    assert_eq!(acceptor.dial_failures, 1);
    assert_eq!(acceptor.established, 1);
    assert_eq!(first.len(), 36);
    assert_eq!(second.len(), 36);
}

#[test]
fn fresh_acceptor_starts_at_zero() {
    let acceptor = Acceptor::new(Mode::Client);
    assert_eq!(acceptor.mode, Mode::Client);
    assert_eq!(acceptor.accepted, 0);
    assert_eq!(acceptor.dial_failures, 0);
    assert_eq!(acceptor.established, 0);
}
