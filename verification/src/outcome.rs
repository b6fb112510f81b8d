//! Per-session outcome reporting: what ended a session's relay and the one
//! record that summarizes it.

use vstd::prelude::*;

verus! {

/// One direction of relay within a session: bytes read from the stream half
/// and written to the tunnel half, or the reverse.
#[derive(Clone, Copy, Debug, PartialEq, Eq, Structural)]
pub enum Direction {
    StreamToTunnel,
    TunnelToStream,
}

/// The class of I/O fault recorded in a failure outcome.
#[derive(Clone, Copy, Debug, PartialEq, Eq, Structural)]
pub enum FaultKind {
    Read,
    Write,
}

/// The terminal condition that ended a session's relay. End of stream on
/// either half is the expected, graceful way for a session to finish; the
/// four fault causes are true I/O errors and classify the session as failed.
#[derive(Clone, Copy, Debug, PartialEq, Eq, Structural)]
pub enum TermCause {
    /// The stream half reported end of stream (a zero-length read).
    EofOnStream,
    /// The tunnel half reported end of stream.
    EofOnTunnel,
    /// Reading the stream half failed.
    ReadErrorOnStream,
    /// Reading the tunnel half failed.
    ReadErrorOnTunnel,
    /// Writing relayed bytes to the tunnel half failed.
    WriteErrorOnTunnel,
    /// Writing relayed bytes to the stream half failed.
    WriteErrorOnStream,
}

/// The single record emitted per session at teardown: success with the byte
/// count relayed in each direction, or failure with the fault's class and
/// the direction it occurred on.
#[derive(Clone, Copy, Debug, PartialEq, Eq, Structural)]
pub enum Outcome {
    Success { stream_to_tunnel: u64, tunnel_to_stream: u64 },
    Failure { direction: Direction, kind: FaultKind },
}

/// A graceful cause is an end of stream on either half; every other cause
/// marks the session as failed.
pub open spec fn cause_is_graceful(c: TermCause) -> bool {
    c == TermCause::EofOnStream || c == TermCause::EofOnTunnel
}

/// The outcome a session closes with, given its terminal cause and the byte
/// counters of its two directions. A fault is attributed to the direction it
/// interrupted: a fault on the stream-to-tunnel direction arose while reading
/// the stream half or writing the tunnel half.
pub open spec fn outcome_for(c: TermCause, s2t: u64, t2s: u64) -> Outcome {
    match c {
        TermCause::EofOnStream => Outcome::Success { stream_to_tunnel: s2t, tunnel_to_stream: t2s },
        TermCause::EofOnTunnel => Outcome::Success { stream_to_tunnel: s2t, tunnel_to_stream: t2s },
        TermCause::ReadErrorOnStream => Outcome::Failure {
            direction: Direction::StreamToTunnel,
            kind: FaultKind::Read,
        },
        TermCause::ReadErrorOnTunnel => Outcome::Failure {
            direction: Direction::TunnelToStream,
            kind: FaultKind::Read,
        },
        TermCause::WriteErrorOnTunnel => Outcome::Failure {
            direction: Direction::StreamToTunnel,
            kind: FaultKind::Write,
        },
        TermCause::WriteErrorOnStream => Outcome::Failure {
            direction: Direction::TunnelToStream,
            kind: FaultKind::Write,
        },
    }
}

impl Outcome {
    /// Whether this record marks a graceful session end.
    pub fn is_success(&self) -> (r: bool)
        ensures
            r == (self is Success),
    {
        match self {
            Outcome::Success { .. } => true,
            Outcome::Failure { .. } => false,
        }
    }
}

} // verus!
