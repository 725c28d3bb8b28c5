//! The frame codec: the two-byte WebSocket frame header and the frames
//! built from it.

use vstd::prelude::*;

use crate::error::WsError;

verus! {

/// The 4-bit frame opcode. Only the four values used by this engine are
/// representable; every other nibble is a decode error.
#[derive(Clone, Copy, PartialEq, Eq, Structural, Debug)]
pub enum OpCode {
    Text,
    Close,
    Ping,
    Pong,
}

impl OpCode {
    /// The wire value of this opcode.
    pub open spec fn spec_value(self) -> u8 {
        match self {
            OpCode::Text => 1,
            OpCode::Close => 8,
            OpCode::Ping => 9,
            OpCode::Pong => 10,
        }
    }

    /// The opcode a nibble decodes to, if any.
    pub open spec fn spec_from_nibble(n: u8) -> Option<OpCode> {
        if n == 1 {
            Some(OpCode::Text)
        } else if n == 8 {
            Some(OpCode::Close)
        } else if n == 9 {
            Some(OpCode::Ping)
        } else if n == 10 {
            Some(OpCode::Pong)
        } else {
            None
        }
    }

    /// The wire value of this opcode, as executable code.
    pub fn to_u8(self) -> (r: u8)
        ensures
            r == self.spec_value(),
    {
        match self {
            OpCode::Text => 1,
            OpCode::Close => 8,
            OpCode::Ping => 9,
            OpCode::Pong => 10,
        }
    }

    /// Decodes the low 4 bits of a header byte into an opcode.
    ///
    /// Callers must know the nibble is one of the four mapped values;
    /// for arbitrary bytes use [`OpCode::checked_from_u8`].
    pub fn from_u8(v: u8) -> (r: OpCode)
        requires
            OpCode::spec_from_nibble(v & 0x0F) is Some,
        ensures
            Some(r) == OpCode::spec_from_nibble(v & 0x0F),
    {
        let n = v & 0x0F;
        if n == 1 {
            OpCode::Text
        } else if n == 8 {
            OpCode::Close
        } else if n == 9 {
            OpCode::Ping
        } else {
            OpCode::Pong
        }
    }

    /// The display name of this opcode.
    pub open spec fn spec_name(self) -> Seq<char> {
        match self {
            OpCode::Text => "TEXT"@,
            OpCode::Close => "CLOSE"@,
            OpCode::Ping => "PING"@,
            OpCode::Pong => "PONG"@,
        }
    }

    /// The display name of this opcode, for logging.
    pub fn name(&self) -> (r: String)
        ensures
            r@ == self.spec_name(),
    {
        match self {
            OpCode::Text => "TEXT".to_owned(),
            OpCode::Close => "CLOSE".to_owned(),
            OpCode::Ping => "PING".to_owned(),
            OpCode::Pong => "PONG".to_owned(),
        }
    }

    /// Decodes the low 4 bits of a header byte, reporting failure.
    ///
    /// Returns `Some` exactly when the nibble is 1, 8, 9 or 10, and maps
    /// those to `Text`, `Close`, `Ping` and `Pong` respectively.
    pub fn checked_from_u8(v: u8) -> (r: Option<OpCode>)
        ensures
            r == OpCode::spec_from_nibble(v & 0x0F),
            r is Some <==> (v & 0x0F == 1 || v & 0x0F == 8 || v & 0x0F == 9 || v & 0x0F == 10),
    {
        let n = v & 0x0F;
        if n == 1 {
            Some(OpCode::Text)
        } else if n == 8 {
            Some(OpCode::Close)
        } else if n == 9 {
            Some(OpCode::Ping)
        } else if n == 10 {
            Some(OpCode::Pong)
        } else {
            None
        }
    }
}

/// Whether header byte 0 marks the frame as final.
///
/// This engine follows its wire convention of reading the frame as final
/// when the top bit is clear, the inverse of the RFC 6455 FIN bit.
pub open spec fn spec_is_final(b0: u8) -> bool {
    b0 & 0x80 == 0
}

/// Whether header byte 1 carries the MASK flag.
pub open spec fn spec_is_masked(b1: u8) -> bool {
    b1 & 0x80 == 0x80
}

/// The payload length carried in the low 7 bits of header byte 1.
pub open spec fn spec_payload_length(b1: u8) -> u8 {
    b1 & 0x7F
}

/// One WebSocket frame, assembled from the two header bytes and, when
/// present, the masking key and payload read after them.
#[derive(Debug)]
pub struct Frame {
    pub is_final: bool,
    pub op_code: OpCode,
    pub is_masked: bool,
    pub masking_key: Option<[u8; 4]>,
    pub payload_length: u8,
    pub payload: Option<Vec<u8>>,
}

impl Frame {
    /// The structural invariant of a frame: the payload, when present,
    /// has exactly `payload_length` bytes; the length fits the single
    /// 7-bit encoding; and a masking key is only held by masked frames.
    pub open spec fn wf(self) -> bool {
        &&& (self.payload matches Some(p) ==> p@.len() == self.payload_length)
        &&& self.payload_length <= 127
        &&& (self.masking_key is Some ==> self.is_masked)
    }

    /// Decodes a two-byte header into a frame by direct bit arithmetic.
    ///
    /// Callers must know the opcode nibble is valid; [`decode_header`]
    /// is the checked form.
    pub fn new(head: [u8; 2]) -> (f: Self)
        requires
            OpCode::spec_from_nibble(head[0] & 0x0F) is Some,
        ensures
            Some(f.op_code) == OpCode::spec_from_nibble(head[0] & 0x0F),
            f.is_final == spec_is_final(head[0]),
            f.is_masked == spec_is_masked(head[1]),
            f.payload_length == spec_payload_length(head[1]),
            f.masking_key is None,
            f.payload_length > 0 ==> (f.payload matches Some(p) && p@ == Seq::new(
                spec_payload_length(head[1]) as nat,
                |i: int| 0u8,
            )),
            f.payload_length == 0 ==> f.payload is None,
            f.wf(),
    {
        let b0 = head[0];
        let b1 = head[1];
        let mut f = Self {
            op_code: OpCode::from_u8(b0),
            is_final: (b0 & 0x80) == 0x00,
            is_masked: (b1 & 0x80) == 0x80,
            payload_length: b1 & 0x7F,
            masking_key: None,
            payload: None,
        };

        proof {
            assert(b1 & 0x7F <= 127) by (bit_vector);
        }
        if f.payload_length > 0 {
            let mut zeroed: Vec<u8> = Vec::new();
            let mut i: usize = 0;
            let n = f.payload_length as usize;
            while i < n
                invariant
                    i <= n,
                    zeroed@ =~= Seq::new(i as nat, |j: int| 0u8),
                decreases n - i,
            {
                zeroed.push(0);
                i += 1;
            }
            f.payload = Some(zeroed);
        }

        f
    }

    /// Builds the outgoing text frame for a message: final, unmasked,
    /// carrying the UTF-8 bytes of `msg` as payload.
    ///
    /// The single-byte length encoding caps the message at 127 bytes.
    pub fn text(msg: String) -> (f: Self)
        requires
            vstd::utf8::encode_utf8(msg@).len() <= 127,
        ensures
            f.op_code == OpCode::Text,
            f.is_final,
            !f.is_masked,
            f.masking_key is None,
            f.payload_length == vstd::utf8::encode_utf8(msg@).len(),
            f.payload matches Some(p) && p@ == vstd::utf8::encode_utf8(msg@),
            f.wf(),
    {
        let len = msg.as_str().len() as u8;
        let bytes = msg.as_str().as_bytes_vec();
        Self {
            op_code: OpCode::Text,
            is_final: true,
            is_masked: false,
            payload_length: len,
            masking_key: None,
            payload: Some(bytes),
        }
    }

    /// Builds the outgoing close frame: final, unmasked, empty.
    pub fn close() -> (f: Self)
        ensures
            f.op_code == OpCode::Close,
            f.is_final,
            !f.is_masked,
            f.masking_key is None,
            f.payload_length == 0,
            f.payload is None,
            f.wf(),
    {
        Self {
            op_code: OpCode::Close,
            is_final: true,
            is_masked: false,
            payload_length: 0,
            masking_key: None,
            payload: None,
        }
    }
}

/// The wire bytes of an outgoing text frame: the Text opcode with the
/// FIN bit set, the payload length, then the payload itself.
pub open spec fn spec_text_frame(payload: Seq<u8>) -> Seq<u8>
    recommends
        payload.len() <= 127,
{
    seq![0x81u8, payload.len() as u8] + payload
}

/// The wire bytes of the outgoing close frame: the Close opcode with the
/// FIN bit set and a zero payload length.
pub open spec fn spec_close_frame() -> Seq<u8> {
    seq![0x88u8, 0u8]
}

/// Encodes a message as one complete, final, unmasked text frame.
///
/// The single-byte length encoding caps the message at 127 bytes of
/// UTF-8; server-to-client frames are never masked.
pub fn encode_text(msg: String) -> (r: Vec<u8>)
    requires
        vstd::utf8::encode_utf8(msg@).len() <= 127,
    ensures
        r@ == spec_text_frame(vstd::utf8::encode_utf8(msg@)),
{
    let f = Frame::text(msg);
    let mut b0 = f.op_code.to_u8();
    if f.is_final {
        b0 = b0 | 0x80;
    }
    proof {
        assert(1u8 | 0x80 == 0x81) by (bit_vector);
    }
    let mut out: Vec<u8> = Vec::new();
    out.push(b0);
    out.push(f.payload_length);
    if let Some(mut p) = f.payload {
        out.append(&mut p);
    }
    proof {
        assert(out@ =~= spec_text_frame(vstd::utf8::encode_utf8(msg@)));
    }
    out
}

/// Encodes the two-byte close frame `[0x88, 0x00]`.
pub fn encode_close() -> (r: Vec<u8>)
    ensures
        r@ == spec_close_frame(),
{
    let f = Frame::close();
    let mut b0 = f.op_code.to_u8();
    if f.is_final {
        b0 = b0 | 0x80;
    }
    proof {
        assert(8u8 | 0x80 == 0x88) by (bit_vector);
    }
    let mut out: Vec<u8> = Vec::new();
    out.push(b0);
    out.push(f.payload_length);
    proof {
        assert(out@ =~= spec_close_frame());
    }
    out
}

/// Decodes a two-byte header, reporting an unknown opcode as an error.
///
/// Every byte pattern yields well-formed `is_final`, `is_masked` and
/// `payload_length` fields; the decode fails exactly when the low 4 bits
/// of byte 0 name no opcode, and then returns `UnknownOpCode`.
pub fn decode_header(head: [u8; 2]) -> (r: Result<Frame, WsError>)
    ensures
        r is Ok <==> OpCode::spec_from_nibble(head[0] & 0x0F) is Some,
        r matches Ok(f) ==> {
            &&& Some(f.op_code) == OpCode::spec_from_nibble(head[0] & 0x0F)
            &&& f.is_final == spec_is_final(head[0])
            &&& f.is_masked == spec_is_masked(head[1])
            &&& f.payload_length == spec_payload_length(head[1])
            &&& f.masking_key is None
            &&& (f.payload_length > 0 ==> (f.payload matches Some(p) && p@ == Seq::new(
                spec_payload_length(head[1]) as nat,
                |i: int| 0u8,
            )))
            &&& (f.payload_length == 0 ==> f.payload is None)
            &&& f.wf()
        },
        r matches Err(e) ==> e == WsError::UnknownOpCode,
{
    if OpCode::checked_from_u8(head[0]).is_some() {
        Ok(Frame::new(head))
    } else {
        Err(WsError::UnknownOpCode)
    }
}

} // verus!
