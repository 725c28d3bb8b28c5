//! A minimal server-side WebSocket protocol engine.
//!
//! The crate covers the bit-level core of the protocol: deriving the
//! `Sec-WebSocket-Accept` handshake value, encoding and decoding the
//! two-byte frame header, masking and unmasking payload bytes, and the
//! per-connection state machine that dispatches frames by opcode.
//! Reading and writing the underlying byte stream is left to the caller.

pub mod error;
pub mod frame;
pub mod handshake;
pub mod mask;
pub mod request;
pub mod server;
pub mod session;
