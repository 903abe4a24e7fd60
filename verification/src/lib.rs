//! Core of a relay daemon: a reconnecting upstream client's protocol state
//! machine, a latest-state entity store with an append-only history log, and
//! a lossy fan-out hub that distributes every accepted entity to local
//! subscribers. The surrounding transport (sockets, HTTP, async runtime)
//! lives outside this library and drives it through plain values.

pub mod client;
pub mod component;
pub mod daemon;
pub mod hub;
pub mod json;
pub mod message;
pub mod store;
