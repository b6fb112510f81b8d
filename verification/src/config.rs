//! Startup configuration: the transport tuning profile and the choice of
//! operating role.

use vstd::prelude::*;

verus! {

/// Tuning values for the reliable-messaging transport. Constructed once at
/// startup and shared read-only by every session; pure data, so sharing it
/// needs no locking.
#[derive(Clone, Copy, Debug, PartialEq, Eq, Structural)]
pub struct TransportConfig {
    /// Upper bound on the payload carried by one underlying packet.
    pub mtu: usize,
    /// Byte-stream framing: the transport keeps no message boundaries.
    pub stream_framing: bool,
    /// Retransmit immediately instead of waiting out a full timeout.
    pub immediate_retransmit: bool,
    /// Interval between retransmission probes, in milliseconds.
    pub probe_interval_ms: u32,
    /// Count of duplicate acknowledgements that triggers a fast resend.
    pub fast_resend_threshold: u32,
    /// Congestion control is switched off when true.
    pub congestion_control_disabled: bool,
    /// Receive window capacity, in messages.
    pub recv_window: u16,
    /// Send window capacity, in messages.
    pub send_window: u16,
}

impl TransportConfig {
    /// The aggressive low-latency profile the tunnel always runs with:
    /// stream framing, immediate retransmission, short probe interval, low
    /// fast-resend threshold, congestion control off, and windows sized for
    /// bulk transfers.
    pub fn aggressive() -> (c: TransportConfig)
        ensures
            c.mtu == 1400,
            c.stream_framing,
            c.immediate_retransmit,
            c.probe_interval_ms == 40,
            c.fast_resend_threshold == 2,
            c.congestion_control_disabled,
            c.recv_window == 1024,
            c.send_window == 1024,
    {
        TransportConfig {
            mtu: 1400,
            stream_framing: true,
            immediate_retransmit: true,
            probe_interval_ms: 40,
            fast_resend_threshold: 2,
            congestion_control_disabled: true,
            recv_window: 1024,
            send_window: 1024,
        }
    }
}

/// The two operating roles. `Client` listens for local stream connections
/// and originates a tunnel session for each; `Server` listens for tunnel
/// sessions and terminates each into a dialed upstream stream connection.
#[derive(Clone, Copy, Debug, PartialEq, Eq, Structural)]
pub enum Mode {
    Client,
    Server,
}

/// Resolves the two mode flags. Exactly one must be set; an ambiguous
/// selection (neither, or both) is a usage error and yields `None`.
pub fn select_mode(server: bool, client: bool) -> (r: Option<Mode>)
    ensures
        r == Some(Mode::Server) <==> server && !client,
        r == Some(Mode::Client) <==> client && !server,
        r is None <==> server == client,
{
    if server && !client {
        Some(Mode::Server)
    } else if client && !server {
        Some(Mode::Client)
    } else {
        None
    }
}

/// The listen address used when the command line names none.
pub fn default_listen_addr() -> (s: String)
    ensures
        s@ == "0.0.0.0:25565"@,
{
    "0.0.0.0:25565".to_owned()
}

} // verus!
