//! Typed JSON transport over a WebSocket gateway connection.
//!
//! The crate holds the decisions of the transport: how an inbound frame
//! becomes a structured value or a typed error, what a bounded wait on the
//! stream amounts to, which frame a value is sent as, and the fixed handshake
//! that opens a connection. Driving the socket itself is left to the caller.

pub mod json;
pub mod inflate;
pub mod error;
pub mod frame;
pub mod stream;
pub mod handshake;
pub mod laws;
