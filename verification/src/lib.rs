//! Connection registry and broadcast synchronization core of a small
//! real-time record server.
//!
//! The library is the decision core: it owns the record store, the registry
//! of connected clients, and the protocol that decides, per inbound request,
//! how the store changes and which client receives which message. The
//! surrounding process drives it in a loop: it decodes transport frames,
//! hands the core one event at a time, and performs the deliveries the core
//! returns.

pub mod delivery;
pub mod laws;
pub mod message;
pub mod record;
pub mod registry;
pub mod server;
pub mod session;
pub mod store;
