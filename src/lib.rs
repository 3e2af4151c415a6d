//! Peer-session layer of a peer-to-peer messenger: the per-peer directory
//! records, the bounded payload reader, the per-connection multiplexer and the
//! request/acknowledge exchange, each as verified logic over plain values.
//! The transport, the durable store and the event delivery stay with the
//! caller, which hands these functions what it received and performs what
//! they return.

pub mod client;
pub mod directory;
pub mod events;
pub mod exchange;
pub mod identity;
pub mod payload;
pub mod session;
