//! The wire format of a frame, and writing it.

use bytes::{Bytes, BytesMut};
use crate::buffer::{bytes_as_slice, bytes_from_vec, bytes_mut_extend, bytes_mut_seq, bytes_seq};
use crate::error::FrameError;
use crate::frame::{Frame, FrameView, MAX_PAYLOAD_LEN, Role};
use crate::protocol::Opcode;
use vstd::prelude::*;

verus! {

/// One for a set bit, zero for a clear one.
pub open spec fn bit(b: bool) -> int {
    if b {
        1
    } else {
        0
    }
}

/// The first header byte: FIN, the three reserved bits and the opcode.
pub open spec fn first_byte(f: FrameView) -> u8 {
    (128 * bit(f.fin) + 64 * bit(f.rsv1) + 32 * bit(f.rsv2) + 16 * bit(f.rsv3)
        + f.opcode.spec_value()) as u8
}

/// A 16-bit number as two bytes, most significant first.
pub open spec fn be16_bytes(n: nat) -> Seq<u8> {
    seq![(n / 256 % 256) as u8, (n % 256) as u8]
}

/// A 64-bit number as eight bytes, most significant first.
pub open spec fn be64_bytes(n: nat) -> Seq<u8> {
    seq![
        (n / 0x100_0000_0000_0000 % 256) as u8,
        (n / 0x1_0000_0000_0000 % 256) as u8,
        (n / 0x100_0000_0000 % 256) as u8,
        (n / 0x1_0000_0000 % 256) as u8,
        (n / 0x100_0000 % 256) as u8,
        (n / 0x1_0000 % 256) as u8,
        (n / 0x100 % 256) as u8,
        (n % 256) as u8,
    ]
}

/// The number that two bytes of `s`, from index `at`, spell out.
pub open spec fn be16_value(s: Seq<u8>, at: int) -> nat {
    (s[at] * 256 + s[at + 1]) as nat
}

/// The number that eight bytes of `s`, from index `at`, spell out.
pub open spec fn be64_value(s: Seq<u8>, at: int) -> nat {
    (((((((s[at] * 256 + s[at + 1]) * 256 + s[at + 2]) * 256 + s[at + 3]) * 256 + s[at + 4]) * 256
        + s[at + 5]) * 256 + s[at + 6]) * 256 + s[at + 7]) as nat
}

/// The mask bit and the payload length, in the shortest form that holds
/// the length.
pub open spec fn length_bytes(len: nat, masked: bool) -> Seq<u8> {
    let m = 128 * bit(masked);
    if len < 126 {
        seq![(m + len) as u8]
    } else if len <= 0xFFFF {
        seq![(m + 126) as u8] + be16_bytes(len)
    } else {
        seq![(m + 127) as u8] + be64_bytes(len)
    }
}

/// The bytes of the masking key, if there is one.
pub open spec fn key_bytes(mask: Option<[u8; 4]>) -> Seq<u8> {
    match mask {
        Some(k) => k@,
        None => Seq::<u8>::empty(),
    }
}

/// Each byte of `data` combined by exclusive or with the key byte at its
/// index modulo four.
pub open spec fn xor_mask(data: Seq<u8>, key: [u8; 4]) -> Seq<u8> {
    Seq::new(data.len(), |i: int| data[i] ^ key[i % 4])
}

/// The payload as it travels: masked by the key if there is one.
pub open spec fn wire_payload(f: FrameView) -> Seq<u8> {
    match f.mask {
        Some(k) => xor_mask(f.payload, k),
        None => f.payload,
    }
}

/// The header of a frame on the wire.
pub open spec fn wire_header(f: FrameView) -> Seq<u8> {
    seq![first_byte(f)] + length_bytes(f.payload.len(), f.masked) + key_bytes(f.mask)
}

/// A frame on the wire.
pub open spec fn wire_bytes(f: FrameView) -> Seq<u8> {
    wire_header(f) + wire_payload(f)
}

/// Why a frame is refused for sending, if it is. A control frame must be
/// final and carry at most 125 bytes; a mask key is present exactly when
/// the frame is marked as masked; a server does not mask.
pub open spec fn encode_fault(f: FrameView, role: Role) -> Option<Rejection> {
    if f.opcode.spec_is_control() && !f.fin {
        Some(Rejection::FragmentedControl)
    } else if f.opcode.spec_is_control() && f.payload.len() > 125 {
        Some(Rejection::TooLarge { size: f.payload.len(), max: 125 })
    } else if f.masked != (f.mask is Some) || (role == Role::Server && f.masked) {
        Some(Rejection::Masking)
    } else if f.payload.len() > MAX_PAYLOAD_LEN {
        Some(Rejection::LengthOverflow)
    } else {
        None
    }
}

/// The structural reasons for which the codec refuses a frame.
pub enum Rejection {
    /// The 64-bit length has its high bit set, or the payload is too long
    /// for the length field.
    LengthOverflow,
    /// The opcode bits are none of the six defined opcodes.
    InvalidOpcode(u8),
    /// A reserved bit is set that nothing negotiated.
    ReservedBits,
    /// A control frame without FIN.
    FragmentedControl,
    /// The payload is longer than allowed.
    TooLarge { size: nat, max: nat },
    /// The frame breaks the masking rule.
    Masking,
}

/// The error value `e` reports the rejection `r`.
pub open spec fn reports(e: FrameError, r: Rejection) -> bool {
    match r {
        Rejection::LengthOverflow => e is InvalidHeader,
        Rejection::InvalidOpcode(v) => e == FrameError::InvalidOpcode(v),
        Rejection::ReservedBits => e == FrameError::ReservedBitsSet,
        Rejection::FragmentedControl => e == FrameError::FragmentedControlFrame,
        Rejection::TooLarge { size, max } => e matches FrameError::TooLarge { size: s, max: m }
            && s == size && m == max,
        Rejection::Masking => e is InvalidMasking,
    }
}

/// Apply masking to bytes: every byte is combined with the key byte at its
/// index modulo four. Applying the same key twice gives the input back.
pub fn mask_bytes(data: &[u8], mask: &[u8; 4]) -> (out: Vec<u8>)
    ensures
        out@ == xor_mask(data@, *mask),
{
    let mut out: Vec<u8> = Vec::new();
    let mut i: usize = 0;
    while i < data.len()
        invariant
            i <= data.len(),
            out@ == xor_mask(data@, *mask).take(i as int),
        decreases data.len() - i,
    {
        out.push(data[i] ^ mask[i % 4]);
        i += 1;
    }
    out
}

fn push_be64(out: &mut Vec<u8>, n: u64)
    ensures
        final(out)@ == old(out)@ + be64_bytes(n as nat),
{
    out.push((n / 0x100_0000_0000_0000 % 256) as u8);
    out.push((n / 0x1_0000_0000_0000 % 256) as u8);
    out.push((n / 0x100_0000_0000 % 256) as u8);
    out.push((n / 0x1_0000_0000 % 256) as u8);
    out.push((n / 0x100_0000 % 256) as u8);
    out.push((n / 0x1_0000 % 256) as u8);
    out.push((n / 0x100 % 256) as u8);
    out.push((n % 256) as u8);
}

fn push_length(out: &mut Vec<u8>, len: usize, masked: bool)
    ensures
        final(out)@ == old(out)@ + length_bytes(len as nat, masked),
{
    let m: u8 = if masked {
        128
    } else {
        0
    };
    if len < 126 {
        out.push(m + (len as u8));
    } else if len <= 0xFFFF {
        out.push(m + 126);
        out.push((len / 256 % 256) as u8);
        out.push((len % 256) as u8);
    } else {
        out.push(m + 127);
        push_be64(out, len as u64);
    }
}

fn header_byte(fin: bool, rsv: &[bool; 3], opcode: Opcode) -> (b: u8)
    ensures
        b == 128 * bit(fin) + 64 * bit(rsv[0]) + 32 * bit(rsv[1]) + 16 * bit(rsv[2])
            + opcode.spec_value(),
{
    let mut b: u8 = opcode.value();
    if fin {
        b = b + 128;
    }
    if rsv[0] {
        b = b + 64;
    }
    if rsv[1] {
        b = b + 32;
    }
    if rsv[2] {
        b = b + 16;
    }
    b
}

impl Frame {
    /// Serialize the frame to bytes, whatever its fields are.
    pub fn to_bytes(&self) -> (b: Bytes)
        ensures
            bytes_seq(b) == wire_bytes(self@),
    {
        let mut out: Vec<u8> = Vec::new();
        self.write_wire(&mut out);
        bytes_from_vec(out)
    }

    /// Write the frame to a buffer
    pub fn write_to(&self, buf: &mut BytesMut)
        requires
            bytes_mut_seq(*old(buf)).len() + wire_bytes(self@).len() <= usize::MAX,
        ensures
            bytes_mut_seq(*final(buf)) == bytes_mut_seq(*old(buf)) + wire_bytes(self@),
    {
        let mut out: Vec<u8> = Vec::new();
        self.write_wire(&mut out);
        bytes_mut_extend(buf, out.as_slice());
    }

    /// Serialize the frame for sending by `role`.
    ///
    /// Fails only for a control frame that is not final or longer than 125
    /// bytes, for a frame whose key and mask mark disagree, for a masked
    /// frame of a server, and for a payload beyond what the length field
    /// holds.
    pub fn encode(&self, role: Role) -> (r: Result<Vec<u8>, FrameError>)
        ensures
            match r {
                Ok(bytes) => encode_fault(self@, role) is None && bytes@ == wire_bytes(self@),
                Err(e) => encode_fault(self@, role) matches Some(rej) && reports(e, rej),
            },
    {
        let len = bytes_as_slice(&self.payload).len();
        if self.opcode.is_control() && !self.fin {
            return Err(FrameError::FragmentedControlFrame);
        }
        if self.opcode.is_control() && len > 125 {
            return Err(FrameError::TooLarge { size: len, max: 125 });
        }
        let server = match role {
            Role::Server => true,
            Role::Client => false,
        };
        if self.masked != self.mask.is_some() || (server && self.masked) {
            return Err(FrameError::InvalidMasking("frame breaks the masking rule".to_string()));
        }
        if len as u64 > MAX_PAYLOAD_LEN {
            return Err(
                FrameError::InvalidHeader("payload length exceeds 63 bits".to_string()),
            );
        }
        let mut out: Vec<u8> = Vec::new();
        self.write_wire(&mut out);
        Ok(out)
    }

    /// Append the wire form of the frame to `out`.
    fn write_wire(&self, out: &mut Vec<u8>)
        ensures
            final(out)@ == old(out)@ + wire_bytes(self@),
    {
        let payload = bytes_as_slice(&self.payload);
        out.push(header_byte(self.fin, &self.rsv, self.opcode));
        push_length(out, payload.len(), self.masked);
        match self.mask {
            Some(key) => {
                out.push(key[0]);
                out.push(key[1]);
                out.push(key[2]);
                out.push(key[3]);
                let masked_payload = mask_bytes(payload, &key);
                out.extend_from_slice(masked_payload.as_slice());
            },
            None => {
                out.extend_from_slice(payload);
            },
        }
    }
}

} // verus!
