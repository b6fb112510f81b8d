//! A bidirectional tunnel bridging ordered byte streams to sessions of a
//! reliable-messaging transport that runs over an unreliable packet network.
//!
//! The crate holds the verified core: the transport configuration, the
//! per-session bridge state machine that relays bytes in both directions
//! until either half closes or fails, and the acceptor bookkeeping for the
//! two operating roles. The surrounding process performs the actual socket
//! I/O and feeds every observation into this core as a plain event.

pub mod acceptor;
pub mod config;
pub mod bridge;
pub mod outcome;
pub mod session;
