//! Packet relay and handshake engine for a proxy that sits between a game
//! console and a wireless controller and answers each as if it were the
//! other.
//!
//! The library holds the decisions: how an address is substituted in a
//! packet, how the running id of a report advances, what the negotiation
//! does next, and what a relay direction does next. It performs no socket
//! operation and reads no clock; whoever owns the sockets performs what the
//! state machines ask for and reports the outcome.
use vstd::prelude::*;

pub mod address;
pub mod flags;
pub mod handshake;
pub mod relay;
pub mod report;

verus! {

/// Capacity of the buffer that takes one packet during the negotiation.
pub const HANDSHAKE_BUFFER_LEN: usize = 350;

/// Capacity of the buffer that takes one packet during relay.
pub const RELAY_BUFFER_LEN: usize = 1024;

} // verus!
