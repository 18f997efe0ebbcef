//! Core of a UDP rendezvous ("hole punching") service: the wire codec for
//! its datagrams, the name-to-endpoint registry, the coordinator's dispatch
//! rules, and the peer agent's protocol decisions.
//!
//! Everything here is pure computation on plain values; sockets, argument
//! parsing and logging live outside the library and hand bytes in and out.

pub mod agent;
pub mod coordinator;
pub mod endpoint;
pub mod names;
pub mod registry;
pub mod wire;
