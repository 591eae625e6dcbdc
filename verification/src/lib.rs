//! Core of a sharded gateway client for a chat bot: shard-session state
//! machines, cluster supervision, an in-memory projection of remote state,
//! one-time resolution of the application identity, and command dispatch.
//!
//! Everything here is pure logic over plain values; the process around it
//! owns the sockets, timers and HTTP calls and feeds events in.

pub mod cache;
pub mod cluster;
pub mod config;
pub mod endpoint;
pub mod events;
pub mod registry;
pub mod runtime;
pub mod session;
