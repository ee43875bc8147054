//! A peer-to-peer node library: topic tickets, signed message envelopes,
//! a gossip node state machine, multi-room chat with bounded history, and a
//! content-addressed file-transfer client.

pub mod agent_api;
pub mod chat;
pub mod chat_client;
pub mod client;
pub mod envelope;
pub mod error;
pub mod identity;
pub mod integrated_client;
pub mod message;
pub mod node;
pub mod progress;
pub mod registry;
pub mod standalone;
pub mod ticket;
pub mod transfer_error;
pub mod types;
pub mod web_api;
pub mod wire;

use vstd::prelude::*;

verus! {

/// Number of bytes in a topic identifier, a node identifier, and a public key.
pub const ID_LEN: usize = 32;

} // verus!
