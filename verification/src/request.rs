//! The request-side view of a connection: the path it asks for, and the
//! opcode mapping as this module states it for its own callers.

use vstd::prelude::*;

verus! {

/// An HTTP request, reduced to the path it asks for.
pub struct Request {
    pub path: String,
}

/// The 4-bit frame opcode, carrying the same wire mapping as
/// [`crate::frame::OpCode`].
#[derive(Clone, Copy, PartialEq, Eq, Structural, Debug)]
pub enum OpCode {
    Text,
    Close,
    Ping,
    Pong,
}

impl OpCode {
    /// The wire value of this opcode.
    pub open spec fn spec_value(self) -> u8 {
        match self {
            OpCode::Text => 1,
            OpCode::Close => 8,
            OpCode::Ping => 9,
            OpCode::Pong => 10,
        }
    }

    /// The display name of this opcode.
    pub open spec fn spec_name(self) -> Seq<char> {
        match self {
            OpCode::Text => "TEXT"@,
            OpCode::Close => "CLOSE"@,
            OpCode::Ping => "PING"@,
            OpCode::Pong => "PONG"@,
        }
    }

    /// The display name of this opcode, for logging.
    pub fn name(&self) -> (r: String)
        ensures
            r@ == self.spec_name(),
    {
        match self {
            OpCode::Text => "TEXT".to_owned(),
            OpCode::Close => "CLOSE".to_owned(),
            OpCode::Ping => "PING".to_owned(),
            OpCode::Pong => "PONG".to_owned(),
        }
    }

    /// Decodes the low 4 bits of a header byte into an opcode.
    ///
    /// Callers must know the nibble is one of the four mapped values.
    pub fn from_u8(v: u8) -> (r: OpCode)
        requires
            v & 0x0F == 1 || v & 0x0F == 8 || v & 0x0F == 9 || v & 0x0F == 10,
        ensures
            r.spec_value() == v & 0x0F,
    {
        let n = v & 0x0F;
        if n == 1 {
            OpCode::Text
        } else if n == 8 {
            OpCode::Close
        } else if n == 9 {
            OpCode::Ping
        } else {
            OpCode::Pong
        }
    }
}

} // verus!
