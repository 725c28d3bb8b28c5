//! The error taxonomy of the protocol engine.

use vstd::prelude::*;

verus! {

/// Everything that can go wrong on one connection.
///
/// The protocol engine itself produces `UnknownOpCode` and
/// `InvalidUtf8Payload`; both are fatal for the session. The remaining
/// variants describe failures at the stream boundary: `BindFailure` when
/// the listening address cannot be bound, `HandshakeRejected` when the
/// request line is not the expected upgrade request, `MissingHandshakeKey`
/// when no `Sec-WebSocket-Key` header is present, and `TruncatedRead` /
/// `StreamError` when the stream delivers fewer bytes than a frame needs
/// or fails outright. Nothing is recovered mid-session: every variant ends
/// the session it occurs on.
#[derive(Clone, Copy, PartialEq, Eq, Structural, Debug)]
pub enum WsError {
    BindFailure,
    HandshakeRejected,
    MissingHandshakeKey,
    UnknownOpCode,
    TruncatedRead,
    StreamError,
    InvalidUtf8Payload,
}

} // verus!
