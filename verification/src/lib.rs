//! Client library for a JSON-RPC-over-websocket subscription protocol that
//! streams blockchain trace events.
//!
//! The crate separates a transport facade (connect, split, send, receive)
//! from the protocol layer: a split read client that classifies inbound
//! frames into typed protocol messages or raw payloads, and a split write
//! client that serializes JSON-RPC request envelopes under monotonically
//! increasing request ids.

pub mod encode;
pub mod error;
pub mod json;
pub mod server;
pub mod websocket;
pub mod ws;
