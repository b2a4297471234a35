//! Messages: what an application sends and receives.
//!
//! A message is a text, a binary blob, or one of the control messages. The
//! [`MessageAssembler`] turns the frames of a connection into messages.

use bytes::Bytes;
use crate::buffer::{bytes_as_slice, bytes_from_vec, bytes_seq};
use crate::error::CloseCode;
use crate::frame::{Frame, FrameView, plain_frame};
use crate::frame::close::close_payload;
use crate::protocol::Opcode;
use crate::text::{decimal, decimal_string};
use vstd::prelude::*;
use vstd::slice::slice_to_vec;
use vstd::string::StringExecFns;
use vstd::utf8::encode_utf8;

pub mod assembler;

pub use self::assembler::MessageAssembler;

verus! {

/// Represents a complete WebSocket message
#[derive(Debug, Clone)]
pub enum Message {
    /// Text message
    Text(TextMessage),
    /// Binary message
    Binary(BinaryMessage),
    /// Ping message
    Ping(PingMessage),
    /// Pong message
    Pong(PongMessage),
    /// Close message
    Close(CloseMessage),
}

/// The mathematical value of a message.
pub enum MessageView {
    Text(Seq<char>),
    Binary(Seq<u8>),
    Ping(Seq<u8>),
    Pong(Seq<u8>),
    Close { code: Option<u16>, reason: Seq<char> },
}

/// Message kind for easier matching
#[derive(Debug, Clone, Copy, PartialEq, Eq, Structural)]
pub enum MessageKind {
    /// Text message
    Text,
    /// Binary message
    Binary,
    /// Ping message
    Ping,
    /// Pong message
    Pong,
    /// Close message
    Close,
}

/// Text message
#[derive(Debug, Clone)]
pub struct TextMessage {
    text: String,
}

/// Binary message
#[derive(Debug, Clone)]
pub struct BinaryMessage {
    data: Bytes,
}

/// Ping message
#[derive(Debug, Clone)]
pub struct PingMessage {
    data: Bytes,
}

/// Pong message
#[derive(Debug, Clone)]
pub struct PongMessage {
    data: Bytes,
}

/// Close message
#[derive(Debug, Clone)]
pub struct CloseMessage {
    code: Option<u16>,
    reason: String,
}

impl View for TextMessage {
    type V = Seq<char>;

    closed spec fn view(&self) -> Seq<char> {
        self.text@
    }
}

impl View for BinaryMessage {
    type V = Seq<u8>;

    closed spec fn view(&self) -> Seq<u8> {
        bytes_seq(self.data)
    }
}

impl View for PingMessage {
    type V = Seq<u8>;

    closed spec fn view(&self) -> Seq<u8> {
        bytes_seq(self.data)
    }
}

impl View for PongMessage {
    type V = Seq<u8>;

    closed spec fn view(&self) -> Seq<u8> {
        bytes_seq(self.data)
    }
}

impl View for Message {
    type V = MessageView;

    open spec fn view(&self) -> MessageView {
        match self {
            Message::Text(m) => MessageView::Text(m@),
            Message::Binary(m) => MessageView::Binary(m@),
            Message::Ping(m) => MessageView::Ping(m@),
            Message::Pong(m) => MessageView::Pong(m@),
            Message::Close(m) =>
                MessageView::Close { code: m.spec_code(), reason: m.spec_reason() },
        }
    }
}

/// The bytes of an optional byte vector; none stands for no bytes.
pub open spec fn bytes_or_empty(data: Option<Vec<u8>>) -> Seq<u8> {
    match data {
        Some(v) => v@,
        None => Seq::<u8>::empty(),
    }
}

/// The characters of an optional string; none stands for the empty text.
pub open spec fn text_or_empty(text: Option<String>) -> Seq<char> {
    match text {
        Some(s) => s@,
        None => Seq::<char>::empty(),
    }
}

impl MessageView {
    /// The kind of a message.
    pub open spec fn kind(self) -> MessageKind {
        match self {
            MessageView::Text(_) => MessageKind::Text,
            MessageView::Binary(_) => MessageKind::Binary,
            MessageView::Ping(_) => MessageKind::Ping,
            MessageView::Pong(_) => MessageKind::Pong,
            MessageView::Close { .. } => MessageKind::Close,
        }
    }

    /// Ping, pong and close are control messages.
    pub open spec fn is_control(self) -> bool {
        self is Ping || self is Pong || self is Close
    }

    /// The payload of a message: the bytes of a text or of a close reason,
    /// or the data.
    pub open spec fn bytes(self) -> Seq<u8> {
        match self {
            MessageView::Text(t) => encode_utf8(t),
            MessageView::Binary(d) => d,
            MessageView::Ping(d) => d,
            MessageView::Pong(d) => d,
            MessageView::Close { code, reason } => encode_utf8(reason),
        }
    }

    /// The single frame that carries a message.
    pub open spec fn frame(self) -> FrameView {
        match self {
            MessageView::Text(t) => plain_frame(Opcode::Text, encode_utf8(t)),
            MessageView::Binary(d) => plain_frame(Opcode::Binary, d),
            MessageView::Ping(d) => plain_frame(Opcode::Ping, d),
            MessageView::Pong(d) => plain_frame(Opcode::Pong, d),
            MessageView::Close { code, reason } => plain_frame(
                Opcode::Close,
                close_payload(
                    code,
                    if reason.len() == 0 {
                        None
                    } else {
                        Some(encode_utf8(reason))
                    },
                ),
            ),
        }
    }

    /// A message in words, for logs.
    pub open spec fn description(self) -> Seq<char> {
        match self {
            MessageView::Text(t) => "Text("@ + t + ")"@,
            MessageView::Binary(d) => "Binary("@ + decimal(d.len()) + " bytes)"@,
            MessageView::Ping(d) => "Ping("@ + decimal(d.len()) + " bytes)"@,
            MessageView::Pong(d) => "Pong("@ + decimal(d.len()) + " bytes)"@,
            MessageView::Close { code, reason } => match code {
                Some(c) => "Close("@ + decimal(c as nat) + ": "@ + reason + ")"@,
                None => "Close("@ + reason + ")"@,
            },
        }
    }
}

impl Message {
    /// Create a text message
    pub fn text(text: &str) -> (m: Message)
        ensures
            m@ == MessageView::Text(text@),
    {
        Message::Text(TextMessage::new(text))
    }

    /// Create a binary message
    pub fn binary(data: Vec<u8>) -> (m: Message)
        ensures
            m@ == MessageView::Binary(data@),
    {
        Message::Binary(BinaryMessage::new(data))
    }

    /// Create a ping message
    pub fn ping(data: Option<Vec<u8>>) -> (m: Message)
        ensures
            m@ == MessageView::Ping(bytes_or_empty(data)),
    {
        Message::Ping(PingMessage::new(data))
    }

    /// Create a pong message
    pub fn pong(data: Option<Vec<u8>>) -> (m: Message)
        ensures
            m@ == MessageView::Pong(bytes_or_empty(data)),
    {
        Message::Pong(PongMessage::new(data))
    }

    /// Create a close message
    pub fn close(code: Option<u16>, reason: Option<String>) -> (m: Message)
        ensures
            m@ == (MessageView::Close { code, reason: text_or_empty(reason) }),
    {
        Message::Close(CloseMessage::new(code, reason))
    }

    /// Get the message kind
    pub fn kind(&self) -> (k: MessageKind)
        ensures
            k == self@.kind(),
    {
        match self {
            Message::Text(_) => MessageKind::Text,
            Message::Binary(_) => MessageKind::Binary,
            Message::Ping(_) => MessageKind::Ping,
            Message::Pong(_) => MessageKind::Pong,
            Message::Close(_) => MessageKind::Close,
        }
    }

    /// Check if this is a control message
    pub fn is_control(&self) -> (r: bool)
        ensures
            r == self@.is_control(),
    {
        matches!(self, Message::Ping(_) | Message::Pong(_) | Message::Close(_))
    }

    /// Check if this is a data message
    pub fn is_data(&self) -> (r: bool)
        ensures
            r == !self@.is_control(),
    {
        matches!(self, Message::Text(_) | Message::Binary(_))
    }

    /// Get the message payload as text
    pub fn as_text(&self) -> (r: Option<&str>)
        ensures
            match self@ {
                MessageView::Text(t) => r matches Some(s) && s@ == t,
                _ => r is None,
            },
    {
        match self {
            Message::Text(msg) => Some(msg.as_str()),
            _ => None,
        }
    }

    /// Get the message payload as bytes
    pub fn as_bytes(&self) -> (r: &[u8])
        ensures
            r@ == self@.bytes(),
    {
        match self {
            Message::Text(msg) => msg.as_bytes(),
            Message::Binary(msg) => msg.as_bytes(),
            Message::Ping(msg) => msg.as_bytes(),
            Message::Pong(msg) => msg.as_bytes(),
            Message::Close(msg) => msg.as_bytes(),
        }
    }

    /// Convert message to frames
    pub fn to_frames(&self) -> (frames: Vec<Frame>)
        ensures
            frames@.len() == 1,
            frames@[0]@ == self@.frame(),
    {
        let mut frames: Vec<Frame> = Vec::new();
        frames.push(self.to_frame());
        frames
    }

    /// Convert message to a single frame
    pub fn to_frame(&self) -> (f: Frame)
        ensures
            f@ == self@.frame(),
    {
        match self {
            Message::Text(msg) => msg.to_frame(),
            Message::Binary(msg) => msg.to_frame(),
            Message::Ping(msg) => msg.to_frame(),
            Message::Pong(msg) => msg.to_frame(),
            Message::Close(msg) => msg.to_frame(),
        }
    }

    /// The message in words: a text in full, other messages by their size.
    pub fn to_string(&self) -> (s: String)
        ensures
            s@ == self@.description(),
    {
        match self {
            Message::Text(msg) => {
                let mut s = "Text(".to_string();
                s.append(msg.as_str());
                s.append(")");
                s
            },
            Message::Binary(msg) => sized("Binary(", msg.len()),
            Message::Ping(msg) => sized("Ping(", msg.len()),
            Message::Pong(msg) => sized("Pong(", msg.len()),
            Message::Close(msg) => {
                let mut s = "Close(".to_string();
                match msg.code() {
                    Some(c) => {
                        let n = decimal_string(c as u64);
                        s.append(n.as_str());
                        s.append(": ");
                    },
                    None => {},
                }
                s.append(msg.reason());
                s.append(")");
                s
            },
        }
    }
}

fn sized(head: &str, len: usize) -> (s: String)
    ensures
        s@ == head@ + decimal(len as nat) + " bytes)"@,
{
    let mut s = head.to_string();
    let n = decimal_string(len as u64);
    s.append(n.as_str());
    s.append(" bytes)");
    s
}

impl TextMessage {
    /// Create a new text message
    pub fn new(text: &str) -> (m: TextMessage)
        ensures
            m@ == text@,
    {
        TextMessage { text: text.to_string() }
    }

    /// Get the text content
    pub fn as_str(&self) -> (s: &str)
        ensures
            s@ == self@,
    {
        self.text.as_str()
    }

    /// Get the text as bytes
    pub fn as_bytes(&self) -> (b: &[u8])
        ensures
            b@ == encode_utf8(self@),
    {
        self.text.as_str().as_bytes()
    }

    /// Get the text length in bytes
    pub fn len(&self) -> (n: usize)
        ensures
            n == encode_utf8(self@).len(),
    {
        self.text.as_str().as_bytes().len()
    }

    /// Check if the text is empty
    pub fn is_empty(&self) -> (r: bool)
        ensures
            r == (self@.len() == 0),
    {
        self.text.as_str().is_empty()
    }

    /// Convert to frame
    pub fn to_frame(&self) -> (f: Frame)
        ensures
            f@ == plain_frame(Opcode::Text, encode_utf8(self@)),
    {
        Frame::text(slice_to_vec(self.text.as_str().as_bytes()))
    }
}

impl BinaryMessage {
    /// Create a new binary message
    pub fn new(data: Vec<u8>) -> (m: BinaryMessage)
        ensures
            m@ == data@,
    {
        BinaryMessage { data: bytes_from_vec(data) }
    }

    /// Get the binary data
    pub fn as_bytes(&self) -> (b: &[u8])
        ensures
            b@ == self@,
    {
        bytes_as_slice(&self.data)
    }

    /// Get the data length
    pub fn len(&self) -> (n: usize)
        ensures
            n == self@.len(),
    {
        bytes_as_slice(&self.data).len()
    }

    /// Check if the data is empty
    pub fn is_empty(&self) -> (r: bool)
        ensures
            r == (self@.len() == 0),
    {
        bytes_as_slice(&self.data).len() == 0
    }

    /// Convert to frame
    pub fn to_frame(&self) -> (f: Frame)
        ensures
            f@ == plain_frame(Opcode::Binary, self@),
    {
        Frame::binary(slice_to_vec(bytes_as_slice(&self.data)))
    }
}

impl PingMessage {
    /// Create a new ping message
    pub fn new(data: Option<Vec<u8>>) -> (m: PingMessage)
        ensures
            m@ == bytes_or_empty(data),
    {
        match data {
            Some(v) => PingMessage { data: bytes_from_vec(v) },
            None => PingMessage { data: bytes_from_vec(Vec::new()) },
        }
    }

    /// Get the ping data
    pub fn as_bytes(&self) -> (b: &[u8])
        ensures
            b@ == self@,
    {
        bytes_as_slice(&self.data)
    }

    /// Get the data length
    pub fn len(&self) -> (n: usize)
        ensures
            n == self@.len(),
    {
        bytes_as_slice(&self.data).len()
    }

    /// Check if the data is empty
    pub fn is_empty(&self) -> (r: bool)
        ensures
            r == (self@.len() == 0),
    {
        bytes_as_slice(&self.data).len() == 0
    }

    /// Convert to frame
    pub fn to_frame(&self) -> (f: Frame)
        ensures
            f@ == plain_frame(Opcode::Ping, self@),
    {
        Frame::ping(slice_to_vec(bytes_as_slice(&self.data)))
    }
}

impl PongMessage {
    /// Create a new pong message
    pub fn new(data: Option<Vec<u8>>) -> (m: PongMessage)
        ensures
            m@ == bytes_or_empty(data),
    {
        match data {
            Some(v) => PongMessage { data: bytes_from_vec(v) },
            None => PongMessage { data: bytes_from_vec(Vec::new()) },
        }
    }

    /// Get the pong data
    pub fn as_bytes(&self) -> (b: &[u8])
        ensures
            b@ == self@,
    {
        bytes_as_slice(&self.data)
    }

    /// Get the data length
    pub fn len(&self) -> (n: usize)
        ensures
            n == self@.len(),
    {
        bytes_as_slice(&self.data).len()
    }

    /// Check if the data is empty
    pub fn is_empty(&self) -> (r: bool)
        ensures
            r == (self@.len() == 0),
    {
        bytes_as_slice(&self.data).len() == 0
    }

    /// Convert to frame
    pub fn to_frame(&self) -> (f: Frame)
        ensures
            f@ == plain_frame(Opcode::Pong, self@),
    {
        Frame::pong(slice_to_vec(bytes_as_slice(&self.data)))
    }
}

impl CloseMessage {
    /// The close code of the message.
    pub closed spec fn spec_code(&self) -> Option<u16> {
        self.code
    }

    /// The close reason of the message.
    pub closed spec fn spec_reason(&self) -> Seq<char> {
        self.reason@
    }

    /// Create a new close message
    pub fn new(code: Option<u16>, reason: Option<String>) -> (m: CloseMessage)
        ensures
            m.spec_code() == code,
            m.spec_reason() == text_or_empty(reason),
    {
        match reason {
            Some(reason) => CloseMessage { code, reason },
            None => CloseMessage { code, reason: String::new() },
        }
    }

    /// Get the close code
    pub fn code(&self) -> (c: Option<u16>)
        ensures
            c == self.spec_code(),
    {
        self.code
    }

    /// Get the close reason
    pub fn reason(&self) -> (r: &str)
        ensures
            r@ == self.spec_reason(),
    {
        self.reason.as_str()
    }

    /// Get the close code as CloseCode enum
    pub fn close_code(&self) -> (c: Option<CloseCode>)
        ensures
            c == match self.spec_code() {
                Some(code) => Some(CloseCode::spec_from(code)),
                None => None,
            },
    {
        match self.code {
            Some(code) => Some(CloseCode::from(code)),
            None => None,
        }
    }

    /// Get the reason as bytes
    pub fn as_bytes(&self) -> (b: &[u8])
        ensures
            b@ == encode_utf8(self.spec_reason()),
    {
        self.reason.as_str().as_bytes()
    }

    /// Get the total payload length: two bytes for a code, and the reason
    pub fn len(&self) -> (n: usize)
        requires
            encode_utf8(self.spec_reason()).len() + 2 <= usize::MAX,
        ensures
            n == (if self.spec_code() is Some {
                2nat
            } else {
                0nat
            }) + encode_utf8(self.spec_reason()).len(),
    {
        let base: usize = if self.code.is_some() {
            2
        } else {
            0
        };
        base + self.reason.as_str().as_bytes().len()
    }

    /// Check if the message is empty
    pub fn is_empty(&self) -> (r: bool)
        ensures
            r == (self.spec_code() is None && self.spec_reason().len() == 0),
    {
        self.code.is_none() && self.reason.as_str().is_empty()
    }

    /// Convert to frame
    pub fn to_frame(&self) -> (f: Frame)
        ensures
            f@ == (MessageView::Close {
                code: self.spec_code(),
                reason: self.spec_reason(),
            }).frame(),
    {
        if self.reason.as_str().is_empty() {
            Frame::close(self.code, None)
        } else {
            Frame::close(self.code, Some(self.reason.as_str()))
        }
    }
}

} // verus!
