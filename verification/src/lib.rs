//! Stateless TCP reply engine for a network responder that answers probe
//! traffic on every port as though a live service were listening.
//!
//! Instead of a per-connection table, the engine encodes handshake state in a
//! keyed, deterministic token (a SYN cookie) placed in the sequence number of
//! the SYN-ACK it emits, and re-derives that token to validate later data
//! segments. Every decision is a pure function of the inbound segment, the
//! process-wide responder identity, and the per-packet connection record.

pub mod client;
pub mod layer_4;
pub mod proto;
pub mod synackcookie;

use vstd::prelude::*;

use crate::client::{IpAddr, MacAddr};

verus! {

/// Process-wide responder identity: immutable once initialized and shared
/// read-only by every per-packet invocation of the reply engine.
pub struct Masscanned {
    /// Link-layer address the responder answers from.
    pub mac: MacAddr,
    /// Network addresses the responder is bound to, if restricted.
    pub ip_addresses: Option<Vec<IpAddr>>,
    /// Long-lived secret key for minting and checking handshake tokens.
    pub synack_key: [u64; 2],
    /// Egress interface handle, opaque to this engine.
    pub iface: Option<usize>,
}

} // verus!
