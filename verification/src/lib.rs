//! Core of an MQTT v5 client: the packet model, the framing codec around an
//! MQTT wire-format collaborator, the per-direction QoS trackers, the packet
//! router, and the topic-pattern router with its extractors.
//!
//! Everything that decides or computes lives here and is verified; the
//! surrounding sockets, tasks and handler plumbing live outside the library
//! and drive these state machines with plain values.

pub mod codec;
pub mod connect_tracker;
pub mod extract;
pub mod notify;
pub mod options;
pub mod packet;
pub mod pkid;
pub mod received_publish;
pub mod router;
pub mod sent_publish;
pub mod subscribe_tracker;
pub mod topic;

use vstd::prelude::*;

verus! {

/// Largest packet the parser will frame, in bytes.
pub const MAX_PACKET_SIZE: usize = 1024;

} // verus!
