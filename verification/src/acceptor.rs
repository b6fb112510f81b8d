//! Acceptor bookkeeping for the two roles: per accepted connection or
//! session, a fresh identifier is drawn, the opposite side is dialed once,
//! and on success a paired bridge is handed out. A dial failure discards
//! the would-be session and leaves the acceptor untouched otherwise.
//!
//! The accept loop itself — binding, accepting, dialing — is socket work
//! the surrounding process performs; it reports each step here.

use vstd::prelude::*;

use crate::bridge::{Bridge, BridgeView};
use crate::config::Mode;

verus! {

/// A counter increment that saturates instead of wrapping.
pub open spec fn cap_inc(a: u64) -> u64 {
    if a < u64::MAX {
        (a + 1) as u64
    } else {
        u64::MAX
    }
}

/// Relies on `uuid::Uuid::new_v4` and its `Display` form: a freshly drawn
/// version 4 UUID rendered in the hyphenated lowercase form, which is
/// always 36 characters. The value is random, so nothing more is promised
/// of it.
#[verifier::external_body]
fn fresh_session_id() -> (id: String)
    ensures
        id@.len() == 36,
{
    uuid::Uuid::new_v4().to_string()
}

/// One role's acceptor: which role it runs, and its progress counters.
/// All counters saturate at their range's top.
pub struct Acceptor {
    /// The role this acceptor serves.
    pub mode: Mode,
    /// Connections or sessions accepted so far.
    pub accepted: u64,
    /// Accepted pairings discarded because the single dial attempt failed.
    pub dial_failures: u64,
    /// Sessions successfully paired and handed to a bridge.
    pub established: u64,
}

/// The acceptor after one accepted pairing's dial attempt failed: only the
/// failure counter moves. Everything acceptance and establishment depend
/// on is untouched, which is the failure-isolation guarantee.
pub open spec fn spec_dial_failure(a: Acceptor) -> Acceptor {
    Acceptor { dial_failures: cap_inc(a.dial_failures), ..a }
}

impl Acceptor {
    /// A fresh acceptor for the given role.
    pub fn new(mode: Mode) -> (a: Acceptor)
        ensures
            a.mode == mode,
            a.accepted == 0,
            a.dial_failures == 0,
            a.established == 0,
    {
        Acceptor { mode, accepted: 0, dial_failures: 0, established: 0 }
    }

    /// One connection or session was accepted: counts it and draws the
    /// fresh identifier that correlates everything later reported about
    /// this pairing. Always possible, whatever happened to earlier
    /// pairings.
    pub fn begin_session(&mut self) -> (id: String)
        ensures
            final(self).mode == old(self).mode,
            final(self).accepted == cap_inc(old(self).accepted),
            final(self).dial_failures == old(self).dial_failures,
            final(self).established == old(self).established,
            id@.len() == 36,
    {
        self.accepted = if self.accepted < u64::MAX {
            self.accepted + 1
        } else {
            u64::MAX
        };
        fresh_session_id()
    }

    /// The single dial attempt for an accepted pairing failed: the session
    /// is never created, only the failure is counted. The contract shows
    /// the isolation: no other field moves.
    pub fn on_dial_failure(&mut self)
        ensures
            *final(self) == spec_dial_failure(*old(self)),
    {
        self.dial_failures = if self.dial_failures < u64::MAX {
            self.dial_failures + 1
        } else {
            u64::MAX
        };
    }

    /// The dial attempt succeeded: both halves exist, and a freshly paired
    /// bridge is handed out for this session alone.
    pub fn on_dial_success(&mut self) -> (b: Bridge)
        ensures
            final(self).mode == old(self).mode,
            final(self).accepted == old(self).accepted,
            final(self).dial_failures == old(self).dial_failures,
            final(self).established == cap_inc(old(self).established),
            b@ == BridgeView::paired(),
            b@.wf(),
    {
        self.established = if self.established < u64::MAX {
            self.established + 1
        } else {
            u64::MAX
        };
        Bridge::new()
    }
}

/// A dial failure is isolated: it leaves the acceptor's role and its
/// acceptance and establishment progress exactly as they were, so the next
/// pairing is accepted and established as if the failure had not happened.
pub proof fn lemma_dial_failure_isolated(a: Acceptor)
    ensures
        spec_dial_failure(a).mode == a.mode,
        spec_dial_failure(a).accepted == a.accepted,
        spec_dial_failure(a).established == a.established,
{
}

} // verus!
