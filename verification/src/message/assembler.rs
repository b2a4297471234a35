//! Reassembly of messages from frames.
//!
//! The assembler joins the fragments of a fragmented message and checks
//! what the frame codec cannot check: that continuation frames come when
//! they should, that a text is UTF-8 and that a close payload is well
//! formed.

use bytes::BytesMut;
use crate::buffer::{
    bytes_as_slice, bytes_mut_as_slice, bytes_mut_clear, bytes_mut_extend, bytes_mut_len,
    bytes_mut_new, bytes_mut_seq,
};
use crate::error::{CloseError, Error, MessageError, ProtocolError};
use crate::frame::{Frame, FrameKind, FrameView};
use crate::frame::wire::be16_value;
use crate::message::{Message, MessageView, text_or_empty};
use crate::protocol::Opcode;
use crate::protocol::constants::DEFAULT_MAX_MESSAGE_SIZE;
use crate::protocol::utils::{close_code_is_sendable, is_valid_close_code};
use crate::text::string_from_utf8;
use vstd::prelude::*;
use vstd::slice::{slice_subrange, slice_to_vec};
use vstd::utf8::{decode_utf8, valid_utf8};

verus! {

/// The mathematical value of an assembler.
pub struct AssemblerView {
    /// Payload bytes of the message in progress
    pub buffer: Seq<u8>,
    /// Opcode of the message in progress
    pub opcode: Option<Opcode>,
    /// Whether a message is in progress
    pub assembling: bool,
    /// Largest message, in bytes, that is put together
    pub max_message_size: nat,
}

/// The reasons for which the assembler refuses a frame.
pub enum Fault {
    /// A control frame without FIN
    FragmentedControl,
    /// A control frame with more than 125 payload bytes
    ControlTooLong(nat),
    /// A frame whose opcode is reserved
    ReservedOpcode,
    /// A close payload of one byte
    BadClosePayload,
    /// A close code that may not be sent
    BadCloseCode(u16),
    /// A close reason that is not UTF-8
    BadCloseReason,
    /// A continuation frame while no message is in progress
    UnexpectedContinuation,
    /// A text or binary frame while a message is in progress
    ExpectedContinuation,
    /// A message longer than allowed
    TooBig { size: nat, max: nat },
    /// A text message that is not UTF-8
    InvalidText,
}

/// What feeding one frame gives.
pub enum Step {
    /// A whole message
    Yield(MessageView),
    /// Nothing yet: the frame was a fragment
    Pending,
    /// The frame is refused
    Fault(Fault),
}

/// The close message that a close payload holds: nothing, or a code that
/// may be sent followed by a reason in UTF-8.
pub open spec fn close_step(payload: Seq<u8>) -> Step {
    if payload.len() == 0 {
        Step::Yield(MessageView::Close { code: None, reason: Seq::empty() })
    } else if payload.len() == 1 {
        Step::Fault(Fault::BadClosePayload)
    } else {
        let code = be16_value(payload, 0) as u16;
        if !close_code_is_sendable(code) {
            Step::Fault(Fault::BadCloseCode(code))
        } else if !valid_utf8(payload.skip(2)) {
            Step::Fault(Fault::BadCloseReason)
        } else {
            Step::Yield(
                MessageView::Close { code: Some(code), reason: decode_utf8(payload.skip(2)) },
            )
        }
    }
}

/// The message that a control frame holds.
pub open spec fn control_step(f: FrameView) -> Step {
    if !f.fin {
        Step::Fault(Fault::FragmentedControl)
    } else if f.payload.len() > 125 {
        Step::Fault(Fault::ControlTooLong(f.payload.len()))
    } else if f.opcode == Opcode::Ping {
        Step::Yield(MessageView::Ping(f.payload))
    } else if f.opcode == Opcode::Pong {
        Step::Yield(MessageView::Pong(f.payload))
    } else {
        close_step(f.payload)
    }
}

/// The data message that the joined payload `bytes` of a message with
/// opcode `opcode` is: a text must be UTF-8.
pub open spec fn data_step(opcode: Option<Opcode>, bytes: Seq<u8>) -> Step {
    if opcode == Some(Opcode::Text) {
        if valid_utf8(bytes) {
            Step::Yield(MessageView::Text(decode_utf8(bytes)))
        } else {
            Step::Fault(Fault::InvalidText)
        }
    } else if opcode == Some(Opcode::Binary) {
        Step::Yield(MessageView::Binary(bytes))
    } else {
        Step::Fault(Fault::ReservedOpcode)
    }
}

impl AssemblerView {
    /// The assembler with nothing in progress.
    pub open spec fn idle(self) -> AssemblerView {
        AssemblerView {
            buffer: Seq::empty(),
            opcode: None,
            assembling: false,
            max_message_size: self.max_message_size,
        }
    }

    /// The assembler after `f` was fed, and what feeding gave.
    ///
    /// A control frame gives its message at once and leaves the message in
    /// progress alone. A text or binary frame starts a message, which is
    /// complete at once if the frame is final. A continuation frame extends
    /// the message in progress and completes it if the frame is final. Any
    /// other order is refused, and so is a message beyond the size limit.
    /// Whenever a data frame completes a message or is refused, nothing is
    /// in progress afterwards.
    pub open spec fn fed(self, f: FrameView) -> (AssemblerView, Step) {
        if f.opcode.spec_is_control() {
            (self, control_step(f))
        } else if !f.opcode.spec_is_data() {
            (self.idle(), Step::Fault(Fault::ReservedOpcode))
        } else if !self.assembling {
            if f.opcode == Opcode::Continuation {
                (self.idle(), Step::Fault(Fault::UnexpectedContinuation))
            } else if f.payload.len() > self.max_message_size {
                (
                    self.idle(),
                    Step::Fault(
                        Fault::TooBig { size: f.payload.len(), max: self.max_message_size },
                    ),
                )
            } else if f.fin {
                (self.idle(), data_step(Some(f.opcode), f.payload))
            } else {
                (
                    AssemblerView {
                        buffer: f.payload,
                        opcode: Some(f.opcode),
                        assembling: true,
                        max_message_size: self.max_message_size,
                    },
                    Step::Pending,
                )
            }
        } else {
            if f.opcode != Opcode::Continuation {
                (self.idle(), Step::Fault(Fault::ExpectedContinuation))
            } else if self.buffer.len() + f.payload.len() > self.max_message_size {
                (
                    self.idle(),
                    Step::Fault(
                        Fault::TooBig {
                            size: self.buffer.len() + f.payload.len(),
                            max: self.max_message_size,
                        },
                    ),
                )
            } else if f.fin {
                (self.idle(), data_step(self.opcode, self.buffer + f.payload))
            } else {
                (AssemblerView { buffer: self.buffer + f.payload, ..self }, Step::Pending)
            }
        }
    }

    /// The assembler after the frames of `frames` were fed in order.
    pub open spec fn fed_all(self, frames: Seq<FrameView>) -> AssemblerView
        decreases frames.len(),
    {
        if frames.len() == 0 {
            self
        } else {
            self.fed_all(frames.drop_last()).fed(frames.last()).0
        }
    }

    /// The payload bytes of the frames of `frames` that were fed since a
    /// data frame last completed a message, or since the start.
    pub open spec fn fed_since_yield(self, frames: Seq<FrameView>) -> nat
        decreases frames.len(),
    {
        if frames.len() == 0 {
            0
        } else {
            let before = self.fed_all(frames.drop_last());
            let f = frames.last();
            if before.fed(f).1 is Yield && !f.opcode.spec_is_control() {
                0
            } else {
                self.fed_since_yield(frames.drop_last()) + f.payload.len()
            }
        }
    }
}

impl AssemblerView {
    /// What holds of an assembler between any two frames: either nothing
    /// is in progress and the buffer is empty, or a text or a binary
    /// message is in progress and the buffer holds no more than a message
    /// may have.
    pub open spec fn wf(self) -> bool {
        if self.assembling {
            (self.opcode == Some(Opcode::Text) || self.opcode == Some(Opcode::Binary))
                && self.buffer.len() <= self.max_message_size
        } else {
            self.opcode is None && self.buffer.len() == 0
        }
    }
}

/// Feeding a frame keeps an assembler well formed, and a message in
/// progress is never given up as a message of another kind.
pub proof fn lemma_fed_keeps_wf(a: AssemblerView, f: FrameView)
    requires
        a.wf(),
    ensures
        a.fed(f).0.wf(),
        a.fed(f).0.max_message_size == a.max_message_size,
        a.fed(f).1 matches Step::Yield(MessageView::Text(_)) ==> (if a.assembling {
            a.opcode == Some(Opcode::Text)
        } else {
            f.opcode == Opcode::Text
        }),
        a.fed(f).1 matches Step::Yield(m) ==> m.bytes().len() <= a.max_message_size || m is Ping
            || m is Pong || m is Close,
{
    if a.fed(f).1 matches Step::Yield(MessageView::Text(t)) {
        let bytes = if a.assembling {
            a.buffer + f.payload
        } else {
            f.payload
        };
        vstd::utf8::decode_utf8_encode_utf8(bytes);
    }
}

/// The error value `e` reports the fault `fault`.
pub open spec fn reports_fault(e: Error, fault: Fault) -> bool {
    match fault {
        Fault::FragmentedControl => e matches Error::Protocol(
            ProtocolError::FragmentedControlFrame,
        ),
        Fault::ControlTooLong(n) => e matches Error::Message(
            MessageError::TooLarge { size, max },
        ) && size == n && max == 125,
        Fault::ReservedOpcode => e matches Error::Protocol(ProtocolError::InvalidFrame(_)),
        Fault::BadClosePayload => e matches Error::Protocol(ProtocolError::InvalidFrame(_)),
        Fault::BadCloseCode(c) => e matches Error::Protocol(ProtocolError::InvalidCloseCode(code))
            && code == c,
        Fault::BadCloseReason => e matches Error::Close(CloseError::InvalidUtf8),
        Fault::UnexpectedContinuation => e matches Error::Protocol(ProtocolError::InvalidFrame(_)),
        Fault::ExpectedContinuation => e matches Error::Protocol(ProtocolError::InvalidFrame(_)),
        Fault::TooBig { size, max } => e matches Error::Message(
            MessageError::TooLarge { size: s, max: m },
        ) && m == max && s == (if size > usize::MAX {
            usize::MAX as nat
        } else {
            size
        }),
        Fault::InvalidText => e matches Error::InvalidUtf8,
    }
}

/// The answer `r` of the assembler is the step `step`.
pub open spec fn answers(r: Result<Option<Message>, Error>, step: Step) -> bool {
    match step {
        Step::Yield(m) => r matches Ok(Some(msg)) && msg@ == m,
        Step::Pending => r matches Ok(None),
        Step::Fault(fault) => r matches Err(e) && reports_fault(e, fault),
    }
}

/// The memory of the assembler is bounded by what it was fed: starting
/// with an empty buffer, the bytes held never exceed the payload bytes of
/// the frames fed since a data frame last completed a message, and no byte
/// is held right after a data frame completed one. A control frame, which
/// gives a message in the middle of a fragmented one, leaves the buffer as
/// it is.
pub proof fn lemma_buffer_bounded(a: AssemblerView, frames: Seq<FrameView>)
    requires
        a.buffer.len() == 0,
    ensures
        a.fed_all(frames).buffer.len() <= a.fed_since_yield(frames),
        frames.len() > 0 && a.fed_all(frames.drop_last()).fed(frames.last()).1 is Yield ==> {
            if frames.last().opcode.spec_is_control() {
                a.fed_all(frames).buffer == a.fed_all(frames.drop_last()).buffer
            } else {
                a.fed_all(frames).buffer.len() == 0
            }
        },
    decreases frames.len(),
{
    if frames.len() > 0 {
        lemma_buffer_bounded(a, frames.drop_last());
    }
}

/// Message assembler for fragmented messages
#[derive(Debug)]
pub struct MessageAssembler {
    /// Buffer for assembling fragmented messages
    buffer: BytesMut,
    /// Opcode of the message being assembled
    opcode: Option<Opcode>,
    /// Whether we're currently assembling a message
    assembling: bool,
    /// Largest message that is put together
    max_message_size: usize,
}

impl View for MessageAssembler {
    type V = AssemblerView;

    closed spec fn view(&self) -> AssemblerView {
        AssemblerView {
            buffer: bytes_mut_seq(self.buffer),
            opcode: self.opcode,
            assembling: self.assembling,
            max_message_size: self.max_message_size as nat,
        }
    }
}

/// An assembler with nothing in progress.
pub open spec fn fresh_assembler(max_message_size: nat) -> AssemblerView {
    AssemblerView {
        buffer: Seq::empty(),
        opcode: None,
        assembling: false,
        max_message_size,
    }
}

impl Default for MessageAssembler {
    fn default() -> (a: Self)
        ensures
            a@ == fresh_assembler(DEFAULT_MAX_MESSAGE_SIZE as nat),
    {
        MessageAssembler::new()
    }
}

impl MessageAssembler {
    /// Create a new message assembler for messages of up to 64 MiB
    pub fn new() -> (a: Self)
        ensures
            a@ == fresh_assembler(DEFAULT_MAX_MESSAGE_SIZE as nat),
    {
        MessageAssembler {
            buffer: bytes_mut_new(),
            opcode: None,
            assembling: false,
            max_message_size: DEFAULT_MAX_MESSAGE_SIZE,
        }
    }

    /// Create a new message assembler with a size limit of its own
    pub fn with_max_message_size(max_message_size: usize) -> (a: Self)
        ensures
            a@ == fresh_assembler(max_message_size as nat),
            a@.wf(),
    {
        MessageAssembler {
            buffer: bytes_mut_new(),
            opcode: None,
            assembling: false,
            max_message_size,
        }
    }

    /// Feed a frame and try to assemble a complete message
    pub fn feed_frame(&mut self, frame: Frame) -> (r: Result<Option<Message>, Error>)
        ensures
            final(self)@ == old(self)@.fed(frame@).0,
            answers(r, old(self)@.fed(frame@).1),
    {
        if frame.is_control() {
            return match control_frame_to_message(&frame) {
                Ok(m) => Ok(Some(m)),
                Err(e) => Err(e),
            };
        }
        if !frame.is_data() {
            self.reset();
            return Err(Error::Protocol(ProtocolError::InvalidFrame("Reserved opcode".to_string())));
        }
        let payload = bytes_as_slice(&frame.payload);
        let held = bytes_mut_len(&self.buffer);
        if !self.assembling {
            if frame.opcode == Opcode::Continuation {
                self.reset();
                return Err(
                    Error::Protocol(
                        ProtocolError::InvalidFrame(
                            "Continuation frame without a message in progress".to_string(),
                        ),
                    ),
                );
            }
            if payload.len() > self.max_message_size {
                let max = self.max_message_size;
                self.reset();
                return Err(Error::Message(MessageError::TooLarge { size: payload.len(), max }));
            }
            if frame.fin {
                self.reset();
                assemble_complete_message(Some(frame.opcode), slice_to_vec(payload))
            } else {
                bytes_mut_clear(&mut self.buffer);
                bytes_mut_extend(&mut self.buffer, payload);
                self.opcode = Some(frame.opcode);
                self.assembling = true;
                Ok(None)
            }
        } else {
            if frame.opcode != Opcode::Continuation {
                self.reset();
                return Err(
                    Error::Protocol(
                        ProtocolError::InvalidFrame(
                            "Expected continuation frame in fragmented message".to_string(),
                        ),
                    ),
                );
            }
            if held > self.max_message_size || payload.len() > self.max_message_size - held {
                let max = self.max_message_size;
                let size = if payload.len() > usize::MAX - held {
                    usize::MAX
                } else {
                    held + payload.len()
                };
                self.reset();
                return Err(Error::Message(MessageError::TooLarge { size, max }));
            }
            if frame.fin {
                let mut joined = slice_to_vec(bytes_mut_as_slice(&self.buffer));
                joined.extend_from_slice(payload);
                assert(joined@ =~= old(self)@.buffer + frame@.payload);
                let opcode = self.opcode;
                self.reset();
                assemble_complete_message(opcode, joined)
            } else {
                bytes_mut_extend(&mut self.buffer, payload);
                Ok(None)
            }
        }
    }

    /// Reset the assembler state
    fn reset(&mut self)
        ensures
            final(self)@ == old(self)@.idle(),
    {
        bytes_mut_clear(&mut self.buffer);
        self.opcode = None;
        self.assembling = false;
    }

    /// Check if currently assembling a message
    pub fn is_assembling(&self) -> (r: bool)
        ensures
            r == self@.assembling,
    {
        self.assembling
    }

    /// Get the number of bytes currently buffered
    pub fn buffered_bytes(&self) -> (n: usize)
        ensures
            n == self@.buffer.len(),
    {
        bytes_mut_len(&self.buffer)
    }

    /// Clear the assembler
    pub fn clear(&mut self)
        ensures
            final(self)@ == old(self)@.idle(),
    {
        self.reset();
    }
}

/// Convert a control frame to a message
fn control_frame_to_message(frame: &Frame) -> (r: Result<Message, Error>)
    requires
        frame.opcode.spec_is_control(),
    ensures
        match control_step(frame@) {
            Step::Yield(m) => r matches Ok(msg) && msg@ == m,
            Step::Pending => false,
            Step::Fault(fault) => r matches Err(e) && reports_fault(e, fault),
        },
{
    let payload = bytes_as_slice(&frame.payload);
    if !frame.fin {
        return Err(Error::Protocol(ProtocolError::FragmentedControlFrame));
    }
    if payload.len() > 125 {
        return Err(Error::Message(MessageError::TooLarge { size: payload.len(), max: 125 }));
    }
    match frame.kind() {
        FrameKind::Ping => Ok(Message::ping(Some(slice_to_vec(payload)))),
        FrameKind::Pong => Ok(Message::pong(Some(slice_to_vec(payload)))),
        _ => match parse_close_payload(payload) {
            Ok((code, reason)) => Ok(Message::close(code, reason)),
            Err(e) => Err(e),
        },
    }
}

/// Parse close frame payload
fn parse_close_payload(payload: &[u8]) -> (r: Result<(Option<u16>, Option<String>), Error>)
    ensures
        match close_step(payload@) {
            Step::Yield(m) => r matches Ok((code, reason)) && m == (MessageView::Close {
                code,
                reason: text_or_empty(reason),
            }),
            Step::Pending => false,
            Step::Fault(fault) => r matches Err(e) && reports_fault(e, fault),
        },
{
    if payload.len() == 0 {
        return Ok((None, None));
    }
    if payload.len() == 1 {
        return Err(
            Error::Protocol(ProtocolError::InvalidFrame("Close payload of one byte".to_string())),
        );
    }
    let code: u16 = payload[0] as u16 * 256 + payload[1] as u16;
    if !is_valid_close_code(code) {
        return Err(Error::Protocol(ProtocolError::InvalidCloseCode(code)));
    }
    let rest = slice_to_vec(slice_subrange(payload, 2, payload.len()));
    match string_from_utf8(rest) {
        Some(reason) => Ok((Some(code), Some(reason))),
        None => Err(Error::Close(CloseError::InvalidUtf8)),
    }
}

/// Assemble a complete message from the joined payload
fn assemble_complete_message(opcode: Option<Opcode>, bytes: Vec<u8>) -> (r: Result<
    Option<Message>,
    Error,
>)
    ensures
        answers(r, data_step(opcode, bytes@)),
{
    match opcode {
        Some(Opcode::Text) => {
            match string_from_utf8(bytes) {
                Some(text) => Ok(Some(Message::text(text.as_str()))),
                None => Err(Error::InvalidUtf8),
            }
        },
        Some(Opcode::Binary) => Ok(Some(Message::binary(bytes))),
        _ => Err(
            Error::Protocol(
                ProtocolError::InvalidFrame("Unexpected opcode for data frame".to_string()),
            ),
        ),
    }
}

} // verus!
