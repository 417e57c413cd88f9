//! A broadcast relay: clients connect over a persistent bidirectional channel,
//! and every message one client sends is fanned out to all other currently
//! connected clients. The crate holds the connection registry, the fresh-id
//! allocator, the per-connection session state machine, and the fan-out logic;
//! the surrounding server binds the listener, performs the protocol upgrade,
//! and drives the asynchronous loops.

pub mod exts;
pub mod hub;
pub mod laws;
pub mod registry;
pub mod session;
