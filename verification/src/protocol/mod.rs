//! Protocol definitions of RFC 6455: opcodes, header bits and constants.

use vstd::prelude::*;

pub mod constants;
pub mod extensions;
pub mod frame;
pub mod http_header;
pub mod http_method;
pub mod http_status;
pub mod http_value;
pub mod utils;

verus! {

/// The sixteen values of the four opcode bits of a frame header.
///
/// Six of them are defined by RFC 6455; the others are reserved and never
/// appear in a frame that the codec accepts.
#[derive(Debug, Clone, Copy, PartialEq, Eq, Structural)]
pub enum Opcode {
    /// Continuation frame
    Continuation,
    /// Text frame
    Text,
    /// Binary frame
    Binary,
    /// Reserved for future use
    Reserved3,
    /// Reserved for future use
    Reserved4,
    /// Reserved for future use
    Reserved5,
    /// Reserved for future use
    Reserved6,
    /// Reserved for future use
    Reserved7,
    /// Close frame
    Close,
    /// Ping frame
    Ping,
    /// Pong frame
    Pong,
    /// Reserved for future use
    ReservedB,
    /// Reserved for future use
    ReservedC,
    /// Reserved for future use
    ReservedD,
    /// Reserved for future use
    ReservedE,
    /// Reserved for future use
    ReservedF,
}

impl Opcode {
    /// The opcode that a four-bit value decodes to, if it is a defined one.
    pub open spec fn decode(value: u8) -> Option<Opcode> {
        if value == 0x0 {
            Some(Opcode::Continuation)
        } else if value == 0x1 {
            Some(Opcode::Text)
        } else if value == 0x2 {
            Some(Opcode::Binary)
        } else if value == 0x8 {
            Some(Opcode::Close)
        } else if value == 0x9 {
            Some(Opcode::Ping)
        } else if value == 0xA {
            Some(Opcode::Pong)
        } else {
            None
        }
    }

    /// The four-bit value of an opcode.
    pub open spec fn spec_value(&self) -> u8 {
        match self {
            Opcode::Continuation => 0x0,
            Opcode::Text => 0x1,
            Opcode::Binary => 0x2,
            Opcode::Reserved3 => 0x3,
            Opcode::Reserved4 => 0x4,
            Opcode::Reserved5 => 0x5,
            Opcode::Reserved6 => 0x6,
            Opcode::Reserved7 => 0x7,
            Opcode::Close => 0x8,
            Opcode::Ping => 0x9,
            Opcode::Pong => 0xA,
            Opcode::ReservedB => 0xB,
            Opcode::ReservedC => 0xC,
            Opcode::ReservedD => 0xD,
            Opcode::ReservedE => 0xE,
            Opcode::ReservedF => 0xF,
        }
    }

    /// Close, Ping and Pong are the control opcodes.
    pub open spec fn spec_is_control(&self) -> bool {
        *self == Opcode::Close || *self == Opcode::Ping || *self == Opcode::Pong
    }

    /// Continuation, Text and Binary are the data opcodes.
    pub open spec fn spec_is_data(&self) -> bool {
        *self == Opcode::Continuation || *self == Opcode::Text || *self == Opcode::Binary
    }

    /// An opcode is reserved when it is neither a data nor a control opcode.
    pub open spec fn spec_is_reserved(&self) -> bool {
        !self.spec_is_control() && !self.spec_is_data()
    }

    /// Create an Opcode from a u8
    pub fn from(value: u8) -> (r: Option<Opcode>)
        ensures
            r == Opcode::decode(value),
    {
        match value {
            0x0 => Some(Opcode::Continuation),
            0x1 => Some(Opcode::Text),
            0x2 => Some(Opcode::Binary),
            0x8 => Some(Opcode::Close),
            0x9 => Some(Opcode::Ping),
            0xA => Some(Opcode::Pong),
            _ => None,
        }
    }

    /// Get the numeric value of the opcode
    #[verifier::when_used_as_spec(spec_value)]
    pub fn value(&self) -> (r: u8)
        ensures
            r == self.spec_value(),
            r < 16,
    {
        match self {
            Opcode::Continuation => 0x0,
            Opcode::Text => 0x1,
            Opcode::Binary => 0x2,
            Opcode::Reserved3 => 0x3,
            Opcode::Reserved4 => 0x4,
            Opcode::Reserved5 => 0x5,
            Opcode::Reserved6 => 0x6,
            Opcode::Reserved7 => 0x7,
            Opcode::Close => 0x8,
            Opcode::Ping => 0x9,
            Opcode::Pong => 0xA,
            Opcode::ReservedB => 0xB,
            Opcode::ReservedC => 0xC,
            Opcode::ReservedD => 0xD,
            Opcode::ReservedE => 0xE,
            Opcode::ReservedF => 0xF,
        }
    }

    /// Check if this is a control opcode
    #[verifier::when_used_as_spec(spec_is_control)]
    pub fn is_control(&self) -> (r: bool)
        ensures
            r == self.spec_is_control(),
    {
        matches!(self, Opcode::Close | Opcode::Ping | Opcode::Pong)
    }

    /// Check if this is a data opcode
    #[verifier::when_used_as_spec(spec_is_data)]
    pub fn is_data(&self) -> (r: bool)
        ensures
            r == self.spec_is_data(),
    {
        matches!(self, Opcode::Text | Opcode::Binary | Opcode::Continuation)
    }

    /// Check if this is a reserved opcode
    #[verifier::when_used_as_spec(spec_is_reserved)]
    pub fn is_reserved(&self) -> (r: bool)
        ensures
            r == self.spec_is_reserved(),
    {
        matches!(
            self,
            Opcode::Reserved3
                | Opcode::Reserved4
                | Opcode::Reserved5
                | Opcode::Reserved6
                | Opcode::Reserved7
                | Opcode::ReservedB
                | Opcode::ReservedC
                | Opcode::ReservedD
                | Opcode::ReservedE
                | Opcode::ReservedF
        )
    }
}

/// Decoding the value of a defined opcode gives the opcode back, and a value
/// that decodes has the decoded opcode's value.
pub proof fn lemma_opcode_value_roundtrip(op: Opcode, value: u8)
    ensures
        !op.spec_is_reserved() ==> Opcode::decode(op.spec_value()) == Some(op),
        op.spec_is_reserved() ==> Opcode::decode(op.spec_value()) is None,
        Opcode::decode(value) matches Some(o) ==> o.spec_value() == value && !o.spec_is_reserved(),
{
}

} // verus!
