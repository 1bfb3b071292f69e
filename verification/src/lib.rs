//! Core of an HTTP-to-WebSocket bridge: a versioned shared state store,
//! a request router that writes matched content into the store, and a
//! per-connection broadcast session that polls the store and pushes
//! changes to its client.
//!
//! All I/O (the HTTP listener, the WebSocket listener, timers, file and
//! configuration reading) lives outside this crate; these modules hold
//! the decisions and the data, each with a verified contract.

pub mod router;
pub mod session;
pub mod shared;
pub mod store;
