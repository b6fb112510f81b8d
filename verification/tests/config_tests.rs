use kcp_tunnel::config::{Mode, TransportConfig, default_listen_addr, select_mode};

#[test]
fn aggressive_profile_values() {
    let c = TransportConfig::aggressive();
    assert_eq!(c.mtu, 1400);
    assert!(c.stream_framing);
    assert!(c.immediate_retransmit);
    assert_eq!(c.probe_interval_ms, 40);
    assert_eq!(c.fast_resend_threshold, 2);
    assert!(c.congestion_control_disabled);
    assert_eq!(c.recv_window, 1024);
    assert_eq!(c.send_window, 1024);
}

#[test]
fn exactly_one_mode_flag_is_required() {
    assert_eq!(select_mode(true, false), Some(Mode::Server));
    assert_eq!(select_mode(false, true), Some(Mode::Client));
    assert_eq!(select_mode(false, false), None);
    assert_eq!(select_mode(true, true), None);
}

#[test]
fn listen_addr_defaults_to_the_well_known_port() {
    assert_eq!(default_listen_addr(), "0.0.0.0:25565");
}
