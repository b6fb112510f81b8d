//! The session bridge: the state machine that relays bytes between a
//! session's two halves until either half closes or fails, then shuts both
//! halves down and closes with exactly one outcome record.
//!
//! The bridge itself performs no I/O. The surrounding process owns the two
//! halves, reads and writes them, and reports every observation here as a
//! [`RelayEvent`]; the bridge answers with the [`RelayAction`] the driver
//! must perform next. Everything the bridge decides is therefore verified
//! for every possible sequence of observations.

use vstd::prelude::*;

use crate::outcome::{Direction, FaultKind, Outcome, TermCause, outcome_for};
use vstd::pervasive::unreached;

verus! {

/// Lifecycle of a session. A session moves through these states in order
/// and never revisits one: it is paired when both halves exist, relays until
/// a terminal condition, shuts both halves down, and closes once its single
/// outcome record is produced.
#[derive(Clone, Copy, Debug, PartialEq, Eq, Structural)]
pub enum SessionState {
    Paired,
    Relaying,
    ShuttingDown,
    Closed,
}

/// Which of the session's two halves an operation concerns.
#[derive(Clone, Copy, Debug, PartialEq, Eq, Structural)]
pub enum Half {
    Stream,
    Tunnel,
}

/// One observation the I/O driver made on a session's halves.
pub enum RelayEvent {
    /// Bytes read from the stream half, in the order they arrived.
    StreamData(Vec<u8>),
    /// The stream half reported end of stream (a zero-length read).
    StreamEof,
    /// Reading the stream half failed.
    StreamReadFailed,
    /// Bytes read from the tunnel half, in the order they arrived.
    TunnelData(Vec<u8>),
    /// The tunnel half reported end of stream.
    TunnelEof,
    /// Reading the tunnel half failed.
    TunnelReadFailed,
    /// Writing relayed bytes to the tunnel half failed.
    TunnelWriteFailed,
    /// Writing relayed bytes to the stream half failed.
    StreamWriteFailed,
}

/// The mathematical form of an observation: payloads as byte sequences.
pub enum Ev {
    StreamData(Seq<u8>),
    StreamEof,
    StreamReadFailed,
    TunnelData(Seq<u8>),
    TunnelEof,
    TunnelReadFailed,
    TunnelWriteFailed,
    StreamWriteFailed,
}

impl View for RelayEvent {
    type V = Ev;

    open spec fn view(&self) -> Ev {
        match self {
            RelayEvent::StreamData(b) => Ev::StreamData(b@),
            RelayEvent::StreamEof => Ev::StreamEof,
            RelayEvent::StreamReadFailed => Ev::StreamReadFailed,
            RelayEvent::TunnelData(b) => Ev::TunnelData(b@),
            RelayEvent::TunnelEof => Ev::TunnelEof,
            RelayEvent::TunnelReadFailed => Ev::TunnelReadFailed,
            RelayEvent::TunnelWriteFailed => Ev::TunnelWriteFailed,
            RelayEvent::StreamWriteFailed => Ev::StreamWriteFailed,
        }
    }
}

/// What the driver must do next with the session's halves.
pub enum RelayAction {
    /// Write these bytes, in order, to the tunnel half, then flush it.
    WriteTunnel(Vec<u8>),
    /// Write these bytes, in order, to the stream half, then flush it.
    WriteStream(Vec<u8>),
    /// A terminal condition was reached: attempt an orderly shutdown of
    /// both halves, each exactly once, then collect the outcome.
    ShutdownBoth,
}

/// The mathematical form of a driver instruction.
pub enum Act {
    WriteTunnel(Seq<u8>),
    WriteStream(Seq<u8>),
    ShutdownBoth,
}

impl View for RelayAction {
    type V = Act;

    open spec fn view(&self) -> Act {
        match self {
            RelayAction::WriteTunnel(b) => Act::WriteTunnel(b@),
            RelayAction::WriteStream(b) => Act::WriteStream(b@),
            RelayAction::ShutdownBoth => Act::ShutdownBoth,
        }
    }
}

/// The terminal cause an observation carries, if any. Data events carry
/// none; every other event ends the relay.
pub open spec fn ev_cause(ev: Ev) -> Option<TermCause> {
    match ev {
        Ev::StreamData(_) => None,
        Ev::StreamEof => Some(TermCause::EofOnStream),
        Ev::StreamReadFailed => Some(TermCause::ReadErrorOnStream),
        Ev::TunnelData(_) => None,
        Ev::TunnelEof => Some(TermCause::EofOnTunnel),
        Ev::TunnelReadFailed => Some(TermCause::ReadErrorOnTunnel),
        Ev::TunnelWriteFailed => Some(TermCause::WriteErrorOnTunnel),
        Ev::StreamWriteFailed => Some(TermCause::WriteErrorOnStream),
    }
}

/// A byte count capped at the counter's range; counters saturate rather
/// than wrap once a direction has relayed more than `u64::MAX` bytes.
pub open spec fn cap_u64(n: nat) -> u64 {
    if n <= u64::MAX {
        n as u64
    } else {
        u64::MAX
    }
}

/// The abstract state of a session bridge: its lifecycle state, the bytes
/// taken in from and handed out to each half, the two saturating byte
/// counters, which halves have had shutdown attempted, the recorded
/// terminal cause, and the outcome record once emitted.
pub struct BridgeView {
    pub state: SessionState,
    /// Bytes read from the stream half, in order.
    pub stream_read: Seq<u8>,
    /// Bytes handed out for writing to the tunnel half, in order.
    pub tunnel_written: Seq<u8>,
    /// Bytes read from the tunnel half, in order.
    pub tunnel_read: Seq<u8>,
    /// Bytes handed out for writing to the stream half, in order.
    pub stream_written: Seq<u8>,
    pub s2t_count: u64,
    pub t2s_count: u64,
    pub stream_shutdown: bool,
    pub tunnel_shutdown: bool,
    pub cause: Option<TermCause>,
    pub outcome: Option<Outcome>,
}

impl BridgeView {
    /// Well-formedness. The heart of it is byte-exact passthrough: in each
    /// direction the bytes handed out for writing equal, in order, the
    /// bytes read from the source half. The rest ties the counters to the
    /// byte logs and the bookkeeping to the lifecycle state.
    pub open spec fn wf(self) -> bool {
        &&& self.tunnel_written == self.stream_read
        &&& self.stream_written == self.tunnel_read
        &&& self.s2t_count == cap_u64(self.stream_read.len())
        &&& self.t2s_count == cap_u64(self.tunnel_read.len())
        &&& (self.state == SessionState::Paired ==> {
            &&& self.stream_read.len() == 0
            &&& self.tunnel_read.len() == 0
        })
        &&& (self.state == SessionState::Paired || self.state == SessionState::Relaying ==> {
            &&& !self.stream_shutdown
            &&& !self.tunnel_shutdown
            &&& self.cause.is_none()
            &&& self.outcome.is_none()
        })
        &&& (self.state == SessionState::ShuttingDown ==> {
            &&& self.cause.is_some()
            &&& self.outcome.is_none()
        })
        &&& (self.state == SessionState::Closed ==> {
            &&& self.cause.is_some()
            &&& self.stream_shutdown
            &&& self.tunnel_shutdown
            &&& self.outcome == Some(
                outcome_for(self.cause.unwrap(), self.s2t_count, self.t2s_count),
            )
        })
    }

    /// The fresh state of a just-paired session: nothing relayed, nothing
    /// shut down, no cause, no outcome.
    pub open spec fn paired() -> BridgeView {
        BridgeView {
            state: SessionState::Paired,
            stream_read: Seq::empty(),
            tunnel_written: Seq::empty(),
            tunnel_read: Seq::empty(),
            stream_written: Seq::empty(),
            s2t_count: 0,
            t2s_count: 0,
            stream_shutdown: false,
            tunnel_shutdown: false,
            cause: None,
            outcome: None,
        }
    }

    /// One relay step. A data event extends the source half's read log and
    /// the destination half's write log with the same bytes; a terminal
    /// event records its cause and moves the session to shutting down.
    pub open spec fn step(self, ev: Ev) -> BridgeView {
        match ev_cause(ev) {
            Some(c) => BridgeView { state: SessionState::ShuttingDown, cause: Some(c), ..self },
            None => match ev {
                Ev::StreamData(b) => BridgeView {
                    stream_read: self.stream_read + b,
                    tunnel_written: self.tunnel_written + b,
                    s2t_count: cap_u64(self.stream_read.len() + b.len()),
                    ..self
                },
                Ev::TunnelData(b) => BridgeView {
                    tunnel_read: self.tunnel_read + b,
                    stream_written: self.stream_written + b,
                    t2s_count: cap_u64(self.tunnel_read.len() + b.len()),
                    ..self
                },
                _ => self,
            },
        }
    }

    /// The instruction a relay step hands the driver.
    pub open spec fn step_action(self, ev: Ev) -> Act {
        match ev_cause(ev) {
            Some(_) => Act::ShutdownBoth,
            None => match ev {
                Ev::StreamData(b) => Act::WriteTunnel(b),
                Ev::TunnelData(b) => Act::WriteStream(b),
                _ => Act::ShutdownBoth,
            },
        }
    }

    /// Recording that shutdown of one half was attempted.
    pub open spec fn mark_shutdown(self, half: Half) -> BridgeView {
        match half {
            Half::Stream => BridgeView { stream_shutdown: true, ..self },
            Half::Tunnel => BridgeView { tunnel_shutdown: true, ..self },
        }
    }

    /// Closing the session: the single outcome record is produced from the
    /// recorded cause and the byte counters.
    pub open spec fn close(self) -> BridgeView {
        BridgeView {
            state: SessionState::Closed,
            outcome: Some(outcome_for(self.cause.unwrap(), self.s2t_count, self.t2s_count)),
            ..self
        }
    }
}

/// Every relay step preserves well-formedness, and with it byte-exact
/// passthrough: after any observation, the bytes handed out for writing to
/// each half still equal, in order and without loss or duplication, the
/// bytes read from the opposite half.
pub proof fn lemma_step_passthrough(m: BridgeView, ev: Ev)
    requires
        m.wf(),
        m.state == SessionState::Relaying,
    ensures
        m.step(ev).wf(),
        m.step(ev).tunnel_written == m.step(ev).stream_read,
        m.step(ev).stream_written == m.step(ev).tunnel_read,
{
}

/// A relaying session's lifecycle only moves forward: an observation keeps
/// it relaying or moves it to shutting down — the latter exactly when the
/// observation is terminal — and never skips or revisits a state.
pub proof fn lemma_state_order(m: BridgeView, ev: Ev)
    requires
        m.wf(),
        m.state == SessionState::Relaying,
    ensures
        m.step(ev).state == SessionState::Relaying || m.step(ev).state
            == SessionState::ShuttingDown,
        (m.step(ev).state == SessionState::ShuttingDown) <==> ev_cause(ev).is_some(),
{
}

/// An outcome record exists exactly in the closed state: none is emitted
/// before teardown completes, and a closed session holds exactly the one
/// record its cause and byte counters determine.
pub proof fn lemma_outcome_iff_closed(m: BridgeView)
    requires
        m.wf(),
    ensures
        m.outcome.is_some() <==> m.state == SessionState::Closed,
        m.state == SessionState::Closed ==> m.outcome == Some(
            outcome_for(m.cause.unwrap(), m.s2t_count, m.t2s_count),
        ),
{
}

/// A graceful close of the stream half, whenever it arrives — in
/// particular while the tunnel direction is anywhere in its own work —
/// terminates the session: the bridge enters shutdown with neither half's
/// shutdown attempted yet, and after exactly one shutdown attempt per half
/// it closes with a success record carrying both byte counters.
pub proof fn lemma_stream_eof_terminates(m: BridgeView)
    requires
        m.wf(),
        m.state == SessionState::Relaying,
    ensures
        m.step(Ev::StreamEof).state == SessionState::ShuttingDown,
        m.step(Ev::StreamEof).cause == Some(TermCause::EofOnStream),
        !m.step(Ev::StreamEof).stream_shutdown,
        !m.step(Ev::StreamEof).tunnel_shutdown,
        ({
            let closed = m.step(Ev::StreamEof).mark_shutdown(Half::Stream).mark_shutdown(
                Half::Tunnel,
            ).close();
            &&& closed.wf()
            &&& closed.state == SessionState::Closed
            &&& closed.stream_shutdown
            &&& closed.tunnel_shutdown
            &&& closed.outcome == Some(
                outcome_for(TermCause::EofOnStream, m.s2t_count, m.t2s_count),
            )
        }),
{
}

/// The per-session bridge. Owns nothing but bookkeeping: the driver owns
/// the two halves and feeds observations in.
pub struct Bridge {
    state: SessionState,
    s2t_count: u64,
    t2s_count: u64,
    stream_shutdown: bool,
    tunnel_shutdown: bool,
    cause: Option<TermCause>,
    outcome: Option<Outcome>,
    stream_read: Ghost<Seq<u8>>,
    tunnel_written: Ghost<Seq<u8>>,
    tunnel_read: Ghost<Seq<u8>>,
    stream_written: Ghost<Seq<u8>>,
}

impl View for Bridge {
    type V = BridgeView;

    closed spec fn view(&self) -> BridgeView {
        BridgeView {
            state: self.state,
            stream_read: self.stream_read@,
            tunnel_written: self.tunnel_written@,
            tunnel_read: self.tunnel_read@,
            stream_written: self.stream_written@,
            s2t_count: self.s2t_count,
            t2s_count: self.t2s_count,
            stream_shutdown: self.stream_shutdown,
            tunnel_shutdown: self.tunnel_shutdown,
            cause: self.cause,
            outcome: self.outcome,
        }
    }
}

impl Bridge {
    /// Pairs a fresh session: both halves exist and nothing has been
    /// relayed yet.
    pub fn new() -> (b: Bridge)
        ensures
            b@ == BridgeView::paired(),
            b@.wf(),
    {
        Bridge {
            state: SessionState::Paired,
            s2t_count: 0,
            t2s_count: 0,
            stream_shutdown: false,
            tunnel_shutdown: false,
            cause: None,
            outcome: None,
            stream_read: Ghost(Seq::empty()),
            tunnel_written: Ghost(Seq::empty()),
            tunnel_read: Ghost(Seq::empty()),
            stream_written: Ghost(Seq::empty()),
        }
    }

    /// Both directions of relay begin; the driver may start feeding
    /// observations in.
    pub fn start_relay(&mut self)
        requires
            old(self)@.wf(),
            old(self)@.state == SessionState::Paired,
        ensures
            final(self)@.wf(),
            final(self)@ == (BridgeView { state: SessionState::Relaying, ..old(self)@ }),
    {
        self.state = SessionState::Relaying;
    }

    /// Handles one observation while relaying. Data read from one half is
    /// answered, byte for byte and in order, with the instruction to write
    /// it to the other half; a terminal observation records its cause,
    /// moves the session to shutting down, and instructs the driver to
    /// attempt shutdown of both halves.
    pub fn on_event(&mut self, ev: RelayEvent) -> (act: RelayAction)
        requires
            old(self)@.wf(),
            old(self)@.state == SessionState::Relaying,
        ensures
            final(self)@.wf(),
            final(self)@ == old(self)@.step(ev@),
            act@ == old(self)@.step_action(ev@),
    {
        match ev {
            RelayEvent::StreamData(b) => {
                let n: u64 = b.len() as u64;
                self.s2t_count = if self.s2t_count <= u64::MAX - n {
                    self.s2t_count + n
                } else {
                    u64::MAX
                };
                proof {
                    self.stream_read@ = self.stream_read@ + b@;
                    self.tunnel_written@ = self.tunnel_written@ + b@;
                }
                RelayAction::WriteTunnel(b)
            }
            RelayEvent::TunnelData(b) => {
                let n: u64 = b.len() as u64;
                self.t2s_count = if self.t2s_count <= u64::MAX - n {
                    self.t2s_count + n
                } else {
                    u64::MAX
                };
                proof {
                    self.tunnel_read@ = self.tunnel_read@ + b@;
                    self.stream_written@ = self.stream_written@ + b@;
                }
                RelayAction::WriteStream(b)
            }
            RelayEvent::StreamEof => {
                self.terminate(TermCause::EofOnStream)
            }
            RelayEvent::StreamReadFailed => {
                self.terminate(TermCause::ReadErrorOnStream)
            }
            RelayEvent::TunnelEof => {
                self.terminate(TermCause::EofOnTunnel)
            }
            RelayEvent::TunnelReadFailed => {
                self.terminate(TermCause::ReadErrorOnTunnel)
            }
            RelayEvent::TunnelWriteFailed => {
                self.terminate(TermCause::WriteErrorOnTunnel)
            }
            RelayEvent::StreamWriteFailed => {
                self.terminate(TermCause::WriteErrorOnStream)
            }
        }
    }

    /// Records the terminal cause and enters shutdown.
    fn terminate(&mut self, c: TermCause) -> (act: RelayAction)
        requires
            old(self)@.wf(),
            old(self)@.state == SessionState::Relaying,
        ensures
            final(self)@.wf(),
            final(self)@ == (BridgeView {
                state: SessionState::ShuttingDown,
                cause: Some(c),
                ..old(self)@
            }),
            act@ == Act::ShutdownBoth,
    {
        self.state = SessionState::ShuttingDown;
        self.cause = Some(c);
        RelayAction::ShutdownBoth
    }

    /// Records that the driver attempted an orderly shutdown of one half.
    /// Each half is recorded at most once per session. Whether the attempt
    /// succeeded is noted by the caller only: a shutdown failure is
    /// best-effort and alters nothing, as the contract's independence from
    /// `succeeded` states.
    pub fn record_shutdown(&mut self, half: Half, succeeded: bool)
        requires
            old(self)@.wf(),
            old(self)@.state == SessionState::ShuttingDown,
            half == Half::Stream ==> !old(self)@.stream_shutdown,
            half == Half::Tunnel ==> !old(self)@.tunnel_shutdown,
        ensures
            final(self)@.wf(),
            final(self)@ == old(self)@.mark_shutdown(half),
    {
        match half {
            Half::Stream => {
                self.stream_shutdown = true;
            }
            Half::Tunnel => {
                self.tunnel_shutdown = true;
            }
        }
    }

    /// Closes the session once both shutdowns have been attempted, and
    /// produces its single outcome record: success with the byte count of
    /// each direction when a half reached end of stream, failure with the
    /// fault's class and direction otherwise.
    pub fn finish(&mut self) -> (o: Outcome)
        requires
            old(self)@.wf(),
            old(self)@.state == SessionState::ShuttingDown,
            old(self)@.stream_shutdown,
            old(self)@.tunnel_shutdown,
        ensures
            final(self)@.wf(),
            final(self)@ == old(self)@.close(),
            o == outcome_for(old(self)@.cause.unwrap(), old(self)@.s2t_count, old(self)@.t2s_count),
            final(self)@.outcome == Some(o),
    {
        let c = match self.cause {
            Some(c) => c,
            None => unreached(),
        };
        let o = match c {
            TermCause::EofOnStream | TermCause::EofOnTunnel => Outcome::Success {
                stream_to_tunnel: self.s2t_count,
                tunnel_to_stream: self.t2s_count,
            },
            TermCause::ReadErrorOnStream => Outcome::Failure {
                direction: Direction::StreamToTunnel,
                kind: FaultKind::Read,
            },
            TermCause::ReadErrorOnTunnel => Outcome::Failure {
                direction: Direction::TunnelToStream,
                kind: FaultKind::Read,
            },
            TermCause::WriteErrorOnTunnel => Outcome::Failure {
                direction: Direction::StreamToTunnel,
                kind: FaultKind::Write,
            },
            TermCause::WriteErrorOnStream => Outcome::Failure {
                direction: Direction::TunnelToStream,
                kind: FaultKind::Write,
            },
        };
        self.state = SessionState::Closed;
        self.outcome = Some(o);
        o
    }

    /// The session's lifecycle state.
    pub fn state(&self) -> (s: SessionState)
        ensures
            s == self@.state,
    {
        self.state
    }

    /// The outcome record, present once the session is closed.
    pub fn outcome(&self) -> (o: Option<Outcome>)
        ensures
            o == self@.outcome,
    {
        self.outcome
    }

    /// The saturating byte counters: stream-to-tunnel, then
    /// tunnel-to-stream.
    pub fn byte_counts(&self) -> (p: (u64, u64))
        ensures
            p.0 == self@.s2t_count,
            p.1 == self@.t2s_count,
    {
        (self.s2t_count, self.t2s_count)
    }

    /// Whether shutdown has been attempted on the stream half and on the
    /// tunnel half.
    pub fn shutdowns_attempted(&self) -> (p: (bool, bool))
        ensures
            p.0 == self@.stream_shutdown,
            p.1 == self@.tunnel_shutdown,
    {
        (self.stream_shutdown, self.tunnel_shutdown)
    }
}

} // verus!
