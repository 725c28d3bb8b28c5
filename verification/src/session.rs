//! The connection session: the state machine driving one accepted
//! connection from handshake to close.
//!
//! The caller owns the byte stream and performs every read and write;
//! the session decides, from the bytes handed to it, what to answer,
//! what to read next, and when the connection is over.

use vstd::prelude::*;
use vstd::string::StringExecFns;
use vstd::utf8::decode_utf8;
use vstd::utf8::valid_utf8;

use crate::error::WsError;
use crate::frame::decode_header;
use crate::frame::spec_is_final;
use crate::frame::spec_is_masked;
use crate::frame::spec_payload_length;
use crate::frame::Frame;
use crate::frame::OpCode;
use crate::handshake::find_websocket_key;
use crate::handshake::generate_hash;
use crate::handshake::spec_accept_value;
use crate::handshake::spec_find_key;
use crate::handshake::str_eq;
use crate::mask::mask_bytes;
use crate::mask::unmask_easy;

verus! {

/// Relies on str::from_utf8: it succeeds exactly on valid UTF-8, and
/// the string it yields decodes those bytes.
#[verifier::external_body]
fn utf8_to_string(bytes: &[u8]) -> (r: Option<String>)
    ensures
        r is Some <==> valid_utf8(bytes@),
        r matches Some(s) ==> s@ == decode_utf8(bytes@),
{
    match core::str::from_utf8(bytes) {
        Ok(s) => Some(s.to_owned()),
        Err(_) => None,
    }
}

/// The phase one connection is in.
#[derive(Clone, Copy, PartialEq, Eq, Structural, Debug)]
pub enum SessionState {
    AwaitingHandshake,
    Open,
    Closed,
}

/// The only request line the handshake accepts.
pub open spec fn spec_request_line() -> Seq<char> {
    "GET /ws HTTP/1.1"@
}

/// The response written when the request line is anything else.
pub open spec fn spec_not_found_response() -> Seq<char> {
    "HTTP/1.1 404 Not Found"@
}

/// The successful upgrade response for a given client key.
pub open spec fn spec_switching_response(key: Seq<char>) -> Seq<char> {
    "HTTP/1.1 101 Switching Protocols\r\nUpgrade: websocket\r\nConnection: Upgrade\r\nSec-WebSocket-Accept: "@
        + spec_accept_value(key) + "\r\n\r\n"@
}

/// What the caller owes the stream after one frame header.
#[derive(Clone, Copy, PartialEq, Eq, Structural, Debug)]
pub enum FrameAction {
    /// A masked text frame: read the 4-byte key, then `payload_length`
    /// payload bytes, and hand both to
    /// [`ConnectionSession::on_masked_text`]; then send a text frame in
    /// reply.
    ReadMaskedText,
    /// An unmasked text frame: nothing further to read; send a text
    /// frame in reply.
    ReplyText,
    /// A masked close frame: read and discard the 4-byte key, then send
    /// the close frame; the session is over.
    ReadKeyAndClose,
    /// An unmasked close frame: send the close frame; the session is
    /// over.
    CloseNow,
    /// A ping or pong frame: nothing is read and nothing is sent.
    Ignore,
}

/// The action owed after a frame with this opcode and mask flag.
pub open spec fn spec_action(op: OpCode, masked: bool) -> FrameAction {
    match op {
        OpCode::Text => if masked {
            FrameAction::ReadMaskedText
        } else {
            FrameAction::ReplyText
        },
        OpCode::Close => if masked {
            FrameAction::ReadKeyAndClose
        } else {
            FrameAction::CloseNow
        },
        OpCode::Ping => FrameAction::Ignore,
        OpCode::Pong => FrameAction::Ignore,
    }
}

/// The state machine of one accepted connection.
pub struct ConnectionSession {
    pub state: SessionState,
}

impl ConnectionSession {
    /// A fresh session, waiting for the opening handshake.
    pub fn new() -> (s: Self)
        ensures
            s.state is AwaitingHandshake,
    {
        ConnectionSession { state: SessionState::AwaitingHandshake }
    }

    /// Runs the handshake phase on the request's header lines (request
    /// line first, terminating blank line already stripped).
    ///
    /// A request line other than `GET /ws HTTP/1.1` is answered with
    /// the bare 404 line and closes the session. The expected line with
    /// a `Sec-WebSocket-Key` header is answered with the 101 upgrade
    /// response carrying the accept value, and opens the session. The
    /// expected line without a key draws no response, yet the session
    /// still proceeds to the open phase: a known quirk of this engine,
    /// kept deliberately; rejecting such requests outright is left as
    /// future work.
    pub fn on_handshake(&mut self, lines: Vec<String>) -> (resp: Option<String>)
        requires
            old(self).state is AwaitingHandshake,
            lines@.len() > 0,
        ensures
            lines@[0]@ != spec_request_line() ==> {
                &&& final(self).state is Closed
                &&& (resp matches Some(s) && s@ == spec_not_found_response())
            },
            lines@[0]@ == spec_request_line() ==> {
                &&& final(self).state is Open
                &&& (match spec_find_key(lines@.map_values(|s: String| s@)) {
                    Some(k) => resp matches Some(s) && s@ == spec_switching_response(k),
                    None => resp is None,
                })
            },
    {
        if !str_eq(lines[0].as_str(), "GET /ws HTTP/1.1") {
            self.state = SessionState::Closed;
            return Some("HTTP/1.1 404 Not Found".to_owned());
        }
        self.state = SessionState::Open;
        match find_websocket_key(lines) {
            Some(key) => {
                let hash = generate_hash(key);
                let mut resp =
                    "HTTP/1.1 101 Switching Protocols\r\nUpgrade: websocket\r\nConnection: Upgrade\r\nSec-WebSocket-Accept: ".to_owned();
                resp.append(hash.as_str());
                resp.append("\r\n\r\n");
                Some(resp)
            },
            None => None,
        }
    }

    /// Handles one two-byte frame header read in the open phase.
    ///
    /// An unknown opcode is fatal: the session closes with
    /// `UnknownOpCode` and nothing is sent. Otherwise the decoded frame
    /// comes back with the action the caller owes, and a close frame of
    /// either kind moves the session to `Closed`.
    pub fn on_frame_header(&mut self, head: [u8; 2]) -> (r: Result<(Frame, FrameAction), WsError>)
        requires
            old(self).state is Open,
        ensures
            r is Ok <==> OpCode::spec_from_nibble(head[0] & 0x0F) is Some,
            r matches Ok((f, a)) ==> {
                &&& Some(f.op_code) == OpCode::spec_from_nibble(head[0] & 0x0F)
                &&& f.is_final == spec_is_final(head[0])
                &&& f.is_masked == spec_is_masked(head[1])
                &&& f.payload_length == spec_payload_length(head[1])
                &&& f.masking_key is None
                &&& f.wf()
                &&& a == spec_action(f.op_code, f.is_masked)
                &&& final(self).state == (if f.op_code is Close {
                    SessionState::Closed
                } else {
                    SessionState::Open
                })
            },
            r matches Err(e) ==> e == WsError::UnknownOpCode && final(self).state is Closed,
    {
        match decode_header(head) {
            Ok(f) => {
                let action = match f.op_code {
                    OpCode::Text => if f.is_masked {
                        FrameAction::ReadMaskedText
                    } else {
                        FrameAction::ReplyText
                    },
                    OpCode::Close => if f.is_masked {
                        FrameAction::ReadKeyAndClose
                    } else {
                        FrameAction::CloseNow
                    },
                    OpCode::Ping => FrameAction::Ignore,
                    OpCode::Pong => FrameAction::Ignore,
                };
                match f.op_code {
                    OpCode::Close => {
                        self.state = SessionState::Closed;
                    },
                    _ => {},
                }
                Ok((f, action))
            },
            Err(e) => {
                self.state = SessionState::Closed;
                Err(e)
            },
        }
    }

    /// Handles the masking key and payload of a masked text frame:
    /// records the key on the frame, unmasks the payload in place, and
    /// decodes it as UTF-8.
    ///
    /// Invalid UTF-8 is fatal: the session closes with
    /// `InvalidUtf8Payload`. Valid UTF-8 keeps the session open and
    /// yields the decoded message; the caller then answers with one
    /// text frame.
    pub fn on_masked_text(&mut self, f: &mut Frame, key: [u8; 4], payload: Vec<u8>) -> (r:
        Result<String, WsError>)
        requires
            old(self).state is Open,
            old(f).op_code is Text,
            old(f).is_masked,
            old(f).wf(),
            payload@.len() == old(f).payload_length,
        ensures
            final(f).masking_key == Some(key),
            final(f).payload matches Some(p) && p@ == mask_bytes(payload@, key@),
            final(f).op_code == old(f).op_code,
            final(f).is_final == old(f).is_final,
            final(f).is_masked == old(f).is_masked,
            final(f).payload_length == old(f).payload_length,
            final(f).wf(),
            r is Ok <==> valid_utf8(mask_bytes(payload@, key@)),
            r matches Ok(m) ==> m@ == decode_utf8(mask_bytes(payload@, key@))
                && final(self).state is Open,
            r matches Err(e) ==> e == WsError::InvalidUtf8Payload && final(self).state is Closed,
    {
        f.masking_key = Some(key);
        let mut p = payload;
        unmask_easy(&mut p, key);
        let decoded = utf8_to_string(p.as_slice());
        f.payload = Some(p);
        match decoded {
            Some(m) => Ok(m),
            None => {
                self.state = SessionState::Closed;
                Err(WsError::InvalidUtf8Payload)
            },
        }
    }
}

} // verus!
