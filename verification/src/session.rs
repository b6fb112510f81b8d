//! A whole session as a function of what its halves did: the specification
//! of a complete relay run over a sequence of observations, and a scripted
//! driver that executes one.
//!
//! The I/O driver around the library performs the same loop on live
//! sockets; [`run_session`] is that loop on a recorded script, with its
//! behaviour pinned down for every script.

use vstd::prelude::*;

use crate::bridge::{
    Bridge, BridgeView, Ev, Half, RelayAction, RelayEvent, SessionState, cap_u64, ev_cause,
};
use crate::outcome::{Outcome, TermCause, outcome_for};

verus! {

/// The observations of a script, in mathematical form.
pub open spec fn evs_of(s: Seq<RelayEvent>) -> Seq<Ev> {
    s.map_values(|e: RelayEvent| e@)
}

/// The terminal cause carried by the first terminal observation, if any.
pub open spec fn first_cause(evs: Seq<Ev>) -> Option<TermCause>
    decreases evs.len(),
{
    if evs.len() == 0 {
        None
    } else {
        match first_cause(evs.drop_last()) {
            Some(c) => Some(c),
            None => ev_cause(evs.last()),
        }
    }
}

/// The observations before the first terminal one: the part of the script
/// the session actually relays.
pub open spec fn live_prefix(evs: Seq<Ev>) -> Seq<Ev>
    decreases evs.len(),
{
    if evs.len() == 0 {
        Seq::empty()
    } else if first_cause(evs.drop_last()).is_some() {
        live_prefix(evs.drop_last())
    } else if ev_cause(evs.last()).is_some() {
        evs.drop_last()
    } else {
        evs
    }
}

/// The bytes the stream half delivered, in order.
pub open spec fn stream_payload(evs: Seq<Ev>) -> Seq<u8>
    decreases evs.len(),
{
    if evs.len() == 0 {
        Seq::empty()
    } else {
        stream_payload(evs.drop_last()) + (match evs.last() {
            Ev::StreamData(b) => b,
            _ => Seq::empty(),
        })
    }
}

/// The bytes the tunnel half delivered, in order.
pub open spec fn tunnel_payload(evs: Seq<Ev>) -> Seq<u8>
    decreases evs.len(),
{
    if evs.len() == 0 {
        Seq::empty()
    } else {
        tunnel_payload(evs.drop_last()) + (match evs.last() {
            Ev::TunnelData(b) => b,
            _ => Seq::empty(),
        })
    }
}

/// The single outcome record a script produces: none while no terminal
/// observation has arrived, and otherwise the record determined by the
/// first terminal cause and the bytes relayed before it.
pub open spec fn session_outcome(evs: Seq<Ev>) -> Option<Outcome> {
    match first_cause(evs) {
        Some(c) => Some(
            outcome_for(
                c,
                cap_u64(stream_payload(live_prefix(evs)).len()),
                cap_u64(tunnel_payload(live_prefix(evs)).len()),
            ),
        ),
        None => None,
    }
}

/// A script with no terminal observation is relayed in full.
pub proof fn lemma_live_prefix_whole(evs: Seq<Ev>)
    requires
        first_cause(evs).is_none(),
    ensures
        live_prefix(evs) == evs,
    decreases evs.len(),
{
    if evs.len() == 0 {
        assert(live_prefix(evs) =~= evs);
    } else {
        lemma_live_prefix_whole(evs.drop_last());
    }
}

/// Once a script holds a terminal observation, whatever follows changes
/// neither the terminal cause nor the relayed part.
pub proof fn lemma_terminal_stays(evs: Seq<Ev>, more: Seq<Ev>)
    requires
        first_cause(evs).is_some(),
    ensures
        first_cause(evs + more) == first_cause(evs),
        live_prefix(evs + more) == live_prefix(evs),
    decreases more.len(),
{
    if more.len() == 0 {
        assert(evs + more =~= evs);
    } else {
        lemma_terminal_stays(evs, more.drop_last());
        assert((evs + more).drop_last() =~= evs + more.drop_last());
        assert((evs + more).last() == more.last());
    }
}

/// Exactly one outcome record per session: once a script holds a terminal
/// observation the record exists, and nothing that happens afterwards — a
/// simultaneous failure of the other direction included — changes it or
/// produces a second one.
pub proof fn lemma_one_outcome(evs: Seq<Ev>, more: Seq<Ev>)
    requires
        first_cause(evs).is_some(),
    ensures
        session_outcome(evs).is_some(),
        session_outcome(evs + more) == session_outcome(evs),
{
    lemma_terminal_stays(evs, more);
}

/// Sessions are fully independent: a step of one session in a group leaves
/// every other session exactly as it was — in particular, the failure of
/// one session cannot alter the state or outcome of any other.
pub proof fn lemma_session_isolation(sessions: Seq<BridgeView>, k: int, ev: Ev)
    requires
        0 <= k < sessions.len(),
    ensures
        sessions.update(k, sessions[k].step(ev)).len() == sessions.len(),
        forall|j: int|
            0 <= j < sessions.len() && j != k ==> sessions.update(k, sessions[k].step(ev))[j]
                == sessions[j],
{
}

/// What one scripted session produced: the closed (or still relaying)
/// bridge, its outcome record if one was emitted, and the bytes handed out
/// for writing to each half.
pub struct SessionReport {
    pub bridge: Bridge,
    pub outcome: Option<Outcome>,
    pub to_tunnel: Vec<u8>,
    pub to_stream: Vec<u8>,
}

/// Runs one session over a recorded script of observations: relays until
/// the first terminal observation, then shuts both halves down exactly once
/// each and closes with the session's single outcome record. Observations
/// after the first terminal one are not consumed.
///
/// The contract pins the whole run down: the bytes handed out for writing
/// to the tunnel half are exactly, in order, the bytes the stream half
/// delivered before termination, and symmetrically; the outcome record is
/// exactly the one the script's first terminal cause and relayed byte
/// counts determine.
pub fn run_session(events: Vec<RelayEvent>) -> (r: SessionReport)
    ensures
        r.bridge@.wf(),
        r.outcome == session_outcome(evs_of(events@)),
        r.bridge@.outcome == r.outcome,
        r.to_tunnel@ == stream_payload(live_prefix(evs_of(events@))),
        r.to_stream@ == tunnel_payload(live_prefix(evs_of(events@))),
        r.bridge@.stream_read == r.to_tunnel@,
        r.bridge@.tunnel_read == r.to_stream@,
        first_cause(evs_of(events@)).is_some() ==> {
            &&& r.bridge@.state == SessionState::Closed
            &&& r.bridge@.stream_shutdown
            &&& r.bridge@.tunnel_shutdown
            &&& r.bridge@.cause == first_cause(evs_of(events@))
        },
        first_cause(evs_of(events@)).is_none() ==> r.bridge@.state == SessionState::Relaying,
{
    let ghost all: Seq<Ev> = evs_of(events@);
    let mut q = events;
    let mut bridge = Bridge::new();
    bridge.start_relay();
    let mut to_tunnel: Vec<u8> = Vec::new();
    let mut to_stream: Vec<u8> = Vec::new();
    let mut outcome: Option<Outcome> = None;
    let mut done: bool = false;
    let ghost mut seen: Seq<Ev> = Seq::empty();

    while q.len() > 0 && !done
        invariant
            seen + evs_of(q@) == all,
            bridge@.wf(),
            !done ==> {
                &&& first_cause(seen).is_none()
                &&& bridge@.state == SessionState::Relaying
                &&& bridge@.stream_read == stream_payload(seen)
                &&& bridge@.tunnel_read == tunnel_payload(seen)
                &&& outcome.is_none()
                &&& to_tunnel@ == stream_payload(seen)
                &&& to_stream@ == tunnel_payload(seen)
            },
            done ==> {
                &&& first_cause(seen).is_some()
                &&& bridge@.state == SessionState::Closed
                &&& bridge@.stream_shutdown
                &&& bridge@.tunnel_shutdown
                &&& bridge@.cause == first_cause(seen)
                &&& outcome == session_outcome(seen)
                &&& bridge@.outcome == outcome
                &&& to_tunnel@ == stream_payload(live_prefix(seen))
                &&& to_stream@ == tunnel_payload(live_prefix(seen))
                &&& bridge@.stream_read == to_tunnel@
                &&& bridge@.tunnel_read == to_stream@
            },
        decreases q@.len(),
    {
        let ghost q_before = q@;
        let ev = q.remove(0);
        let ghost evv = ev@;
        proof {
            assert(evs_of(q_before) =~= seq![evv] + evs_of(q@));
            assert(seen.push(evv) + evs_of(q@) =~= seen + evs_of(q_before));
            assert(seen.push(evv).drop_last() =~= seen);
        }
        let act = bridge.on_event(ev);
        match act {
            RelayAction::WriteTunnel(mut b) => {
                to_tunnel.append(&mut b);
            }
            RelayAction::WriteStream(mut b) => {
                to_stream.append(&mut b);
            }
            RelayAction::ShutdownBoth => {
                bridge.record_shutdown(Half::Stream, true);
                bridge.record_shutdown(Half::Tunnel, true);
                let o = bridge.finish();
                outcome = Some(o);
                done = true;
            }
        }
        proof {
            seen = seen.push(evv);
            if ev_cause(evv).is_none() {
                lemma_live_prefix_whole(seen);
            }
        }
    }

    proof {
        if done {
            lemma_terminal_stays(seen, evs_of(q@));
        } else {
            assert(evs_of(q@) =~= Seq::<Ev>::empty());
            assert(seen =~= all);
            lemma_live_prefix_whole(all);
        }
    }

    SessionReport { bridge, outcome, to_tunnel, to_stream }
}

} // verus!
