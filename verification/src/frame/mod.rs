//! The frame codec: serialising frames to the wire format of RFC 6455 and
//! parsing them back from a byte buffer.
//!
//! A [`Frame`] always holds its payload in the clear. Masking is applied
//! while a frame is written and removed while it is parsed, so a frame that
//! is written and parsed again comes back unchanged.
//!
//! The wire format is laid down in [`wire`], reading it in [`parse`], and
//! what holds of the two together in [`laws`].

use bytes::Bytes;
use crate::buffer::{bytes_as_slice, bytes_from_vec, bytes_seq};
use crate::protocol::Opcode;
use crate::random::random_mask_key;
use vstd::prelude::*;

pub mod close;
pub mod deflate;
pub mod laws;
pub mod parse;
pub mod parser;
pub mod wire;

pub use self::parse::{
    finish_frame, parse_incremental, scan_frame, MaskPolicy, ParseConfig, ParseOutcome,
};
pub use self::parser::FrameParser;
pub use self::wire::mask_bytes;

verus! {

/// Largest payload length that the 64-bit length form can carry: its high
/// bit must be zero.
pub const MAX_PAYLOAD_LEN: u64 = 0x7FFF_FFFF_FFFF_FFFF;

/// Which end of a connection a frame is written by.
#[derive(Debug, Clone, Copy, PartialEq, Eq, Structural)]
pub enum Role {
    /// The end that opened the connection; its frames are masked.
    Client,
    /// The end that accepted the connection; its frames are not masked.
    Server,
}

/// Represents a WebSocket frame according to RFC 6455
#[derive(Debug, Clone)]
pub struct Frame {
    /// Indicates if this is the final frame in a message
    pub fin: bool,
    /// Reserved bits (RSV1, RSV2, RSV3)
    pub rsv: [bool; 3],
    /// Frame opcode
    pub opcode: Opcode,
    /// Indicates if the payload is masked on the wire
    pub masked: bool,
    /// Masking key (if present)
    pub mask: Option<[u8; 4]>,
    /// Payload data, in the clear
    pub payload: Bytes,
}

/// The mathematical value of a frame.
pub struct FrameView {
    pub fin: bool,
    pub rsv1: bool,
    pub rsv2: bool,
    pub rsv3: bool,
    pub opcode: Opcode,
    pub masked: bool,
    pub mask: Option<[u8; 4]>,
    pub payload: Seq<u8>,
}

impl View for Frame {
    type V = FrameView;

    open spec fn view(&self) -> FrameView {
        FrameView {
            fin: self.fin,
            rsv1: self.rsv[0],
            rsv2: self.rsv[1],
            rsv3: self.rsv[2],
            opcode: self.opcode,
            masked: self.masked,
            mask: self.mask,
            payload: bytes_seq(self.payload),
        }
    }
}

/// Frame kind for easier matching
#[derive(Debug, Clone, Copy, PartialEq, Eq, Structural)]
pub enum FrameKind {
    /// Text frame
    Text,
    /// Binary frame
    Binary,
    /// Close frame
    Close,
    /// Ping frame
    Ping,
    /// Pong frame
    Pong,
    /// Continuation frame
    Continuation,
    /// Reserved frame
    Reserved,
}

/// The kind that an opcode stands for.
pub open spec fn kind_of(opcode: Opcode) -> FrameKind {
    match opcode {
        Opcode::Text => FrameKind::Text,
        Opcode::Binary => FrameKind::Binary,
        Opcode::Close => FrameKind::Close,
        Opcode::Ping => FrameKind::Ping,
        Opcode::Pong => FrameKind::Pong,
        Opcode::Continuation => FrameKind::Continuation,
        _ => FrameKind::Reserved,
    }
}

/// A final, unmasked frame without reserved bits.
pub open spec fn plain_frame(opcode: Opcode, payload: Seq<u8>) -> FrameView {
    FrameView {
        fin: true,
        rsv1: false,
        rsv2: false,
        rsv3: false,
        opcode,
        masked: false,
        mask: None,
        payload,
    }
}

impl Frame {
    /// Create a new frame with the given opcode and payload
    pub fn new(opcode: Opcode, payload: Vec<u8>) -> (f: Frame)
        ensures
            f@ == plain_frame(opcode, payload@),
    {
        Frame {
            fin: true,
            rsv: [false; 3],
            opcode,
            masked: false,
            mask: None,
            payload: bytes_from_vec(payload),
        }
    }

    /// Create a continuation frame
    pub fn continuation(payload: Vec<u8>) -> (f: Frame)
        ensures
            f@ == plain_frame(Opcode::Continuation, payload@),
    {
        Frame::new(Opcode::Continuation, payload)
    }

    /// Create a text frame
    pub fn text(payload: Vec<u8>) -> (f: Frame)
        ensures
            f@ == plain_frame(Opcode::Text, payload@),
    {
        Frame::new(Opcode::Text, payload)
    }

    /// Create a binary frame
    pub fn binary(payload: Vec<u8>) -> (f: Frame)
        ensures
            f@ == plain_frame(Opcode::Binary, payload@),
    {
        Frame::new(Opcode::Binary, payload)
    }

    /// Create a ping frame
    pub fn ping(payload: Vec<u8>) -> (f: Frame)
        ensures
            f@ == plain_frame(Opcode::Ping, payload@),
    {
        Frame::new(Opcode::Ping, payload)
    }

    /// Create a pong frame
    pub fn pong(payload: Vec<u8>) -> (f: Frame)
        ensures
            f@ == plain_frame(Opcode::Pong, payload@),
    {
        Frame::new(Opcode::Pong, payload)
    }

    /// Set the FIN bit
    pub fn fin(self, fin: bool) -> (f: Frame)
        ensures
            f@ == (FrameView { fin, ..self@ }),
    {
        let mut f = self;
        f.fin = fin;
        f
    }

    /// Set reserved bits
    pub fn rsv(self, rsv1: bool, rsv2: bool, rsv3: bool) -> (f: Frame)
        ensures
            f@ == (FrameView { rsv1, rsv2, rsv3, ..self@ }),
    {
        let mut f = self;
        f.rsv = [rsv1, rsv2, rsv3];
        f
    }

    /// Mark the frame as masked with the given key. The payload stays in
    /// the clear: the key is applied when the frame is written.
    pub fn mask_with(self, key: [u8; 4]) -> (f: Frame)
        ensures
            f@ == (FrameView { masked: true, mask: Some(key), ..self@ }),
    {
        let mut f = self;
        f.masked = true;
        f.mask = Some(key);
        f
    }

    /// Switch masking on or off (client frames are masked). Switching it
    /// on for a frame that is not masked yet draws a fresh random key;
    /// switching it off removes the key.
    pub fn mask(self, enabled: bool) -> (f: Frame)
        ensures
            enabled && !self.masked ==> f.mask is Some && f@ == (FrameView {
                masked: true,
                mask: f.mask,
                ..self@
            }),
            enabled && self.masked ==> f@ == self@,
            !enabled ==> f@ == (FrameView { masked: false, mask: None, ..self@ }),
    {
        if enabled && !self.masked {
            let key = random_mask_key();
            self.mask_with(key)
        } else if !enabled {
            let mut f = self;
            f.masked = false;
            f.mask = None;
            f
        } else {
            self
        }
    }

    /// Get the frame kind
    pub fn kind(&self) -> (k: FrameKind)
        ensures
            k == kind_of(self.opcode),
    {
        match self.opcode {
            Opcode::Text => FrameKind::Text,
            Opcode::Binary => FrameKind::Binary,
            Opcode::Close => FrameKind::Close,
            Opcode::Ping => FrameKind::Ping,
            Opcode::Pong => FrameKind::Pong,
            Opcode::Continuation => FrameKind::Continuation,
            _ => FrameKind::Reserved,
        }
    }

    /// Get the payload length
    pub fn payload_len(&self) -> (n: usize)
        ensures
            n == self@.payload.len(),
    {
        bytes_as_slice(&self.payload).len()
    }

    /// Check if this is a control frame
    pub fn is_control(&self) -> (r: bool)
        ensures
            r == self.opcode.spec_is_control(),
    {
        self.opcode.is_control()
    }

    /// Check if this is a data frame
    pub fn is_data(&self) -> (r: bool)
        ensures
            r == self.opcode.spec_is_data(),
    {
        self.opcode.is_data()
    }

    /// Check if this is the final frame
    pub fn is_final(&self) -> (r: bool)
        ensures
            r == self.fin,
    {
        self.fin
    }
}

} // verus!
