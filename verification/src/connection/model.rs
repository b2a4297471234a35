//! The mathematical value of a connection, and what sending, receiving
//! and polling do to it.

use crate::compression::deflate_result;
use crate::connection::{ConnectionState, Counters, Event, fresh_counters};
use crate::connection::machine::{Connection, Polled};
use crate::error::{CloseCode, Error, FrameError};
use crate::frame::{Frame, FrameView, plain_frame, Role};
use crate::frame::close::{close_fault, reason_bytes};
use crate::frame::deflate::compressed;
use crate::frame::parse::{MaskPolicy, ParseConfig, Parsed};
use crate::frame::wire::{be16_bytes, encode_fault, Rejection, reports, wire_bytes};
use crate::message::{Message, MessageView};
use crate::message::assembler::{AssemblerView, Fault, fresh_assembler, reports_fault, Step};
use crate::protocol::Opcode;
use crate::protocol::constants::{DEFAULT_MAX_FRAME_SIZE, DEFAULT_MAX_MESSAGE_SIZE};
use crate::transport::SocketAddress;
use vstd::prelude::*;

verus! {

/// The mathematical value of a connection.
pub struct ConnectionView {
    pub remote_addr: SocketAddress,
    pub local_addr: SocketAddress,
    pub state: ConnectionState,
    pub role: Role,
    pub counters: Counters,
    pub subprotocol: Option<Seq<char>>,
    pub extensions: Seq<Seq<char>>,
    pub compression_negotiated: bool,
    pub idle_timeout: Option<u64>,
    pub max_frame_size: usize,
    pub buffer: Seq<u8>,
    pub assembler: AssemblerView,
}

/// The mathematical value of what a poll gives.
pub enum PolledView {
    NeedMore(nat),
    Reply(Seq<u8>),
    Nothing,
    Message(MessageView),
    Failed { failure: Failure, close: Seq<u8> },
    Closed,
}

/// The ways in which a peer breaks the protocol.
pub enum Failure {
    /// The bytes received are no acceptable frame.
    Codec(Rejection),
    /// The payload of a compressed frame does not inflate.
    Undecodable,
    /// The frame does not fit the message in progress, or the message is
    /// not what it should be.
    Assembly(Fault),
}

/// The close code that reports a failure: 1009 for what is too big, 1007
/// for text that is not UTF-8, and 1002 for anything else.
pub open spec fn failure_code(f: Failure) -> CloseCode {
    match f {
        Failure::Codec(Rejection::TooLarge { .. }) => CloseCode::TooBig,
        Failure::Assembly(Fault::ControlTooLong(_)) => CloseCode::TooBig,
        Failure::Assembly(Fault::TooBig { .. }) => CloseCode::TooBig,
        Failure::Assembly(Fault::BadCloseReason) => CloseCode::InvalidPayload,
        Failure::Assembly(Fault::InvalidText) => CloseCode::InvalidPayload,
        _ => CloseCode::ProtocolError,
    }
}

/// The error value `e` reports the failure `f`.
pub open spec fn reports_failure(e: Error, f: Failure) -> bool {
    match f {
        Failure::Codec(r) => e matches Error::Frame(fe) && reports(fe, r),
        Failure::Undecodable => e matches Error::Frame(FrameError::DecompressionFailed),
        Failure::Assembly(fault) => reports_fault(e, fault),
    }
}

/// The error that reports a failure maps to the close code of the failure.
pub proof fn lemma_failure_code(e: Error, f: Failure)
    requires
        reports_failure(e, f),
    ensures
        e.spec_close_code() == failure_code(f),
{
}

/// The frame `f` as an end with the role `role` sends it: a client masks
/// it with `key`, a server sends it without a mask.
pub open spec fn frame_out(f: FrameView, role: Role, key: [u8; 4]) -> FrameView {
    if role == Role::Client {
        FrameView { masked: true, mask: Some(key), ..f }
    } else {
        FrameView { masked: false, mask: None, ..f }
    }
}

/// The frame that carries `m` from an end with the role `role`.
pub open spec fn outgoing(m: MessageView, role: Role, key: [u8; 4]) -> FrameView {
    frame_out(m.frame(), role, key)
}

/// The level at which a payload is deflated when `level` is asked for:
/// a level above 9 counts as 9.
pub open spec fn deflate_level(level: u8) -> u32 {
    if level > 9 {
        9
    } else {
        level as u32
    }
}

/// The frame that carries `m` on a connection on which compression was
/// negotiated or not: where it was, the payload of a data message is
/// deflated at `level`.
pub open spec fn carried(m: MessageView, negotiated: bool, level: u8) -> FrameView {
    compressed(
        m.frame(),
        negotiated,
        deflate_result(m.frame().payload, deflate_level(level)),
    )
}

/// The close frame that reports the close code `code`, as `role` sends it.
pub open spec fn failure_close(code: CloseCode, role: Role, key: [u8; 4]) -> Seq<u8> {
    wire_bytes(
        frame_out(plain_frame(Opcode::Close, be16_bytes(code.spec_code() as nat)), role, key),
    )
}

impl ConnectionView {
    /// What the connection accepts from its peer: a server reads masked
    /// frames, a client unmasked ones.
    pub open spec fn parse_config(self) -> ParseConfig {
        ParseConfig {
            compression_enabled: self.compression_negotiated,
            max_frame_size: self.max_frame_size,
            masking: if self.role == Role::Server {
                MaskPolicy::Masked
            } else {
                MaskPolicy::Unmasked
            },
        }
    }

    /// Whether sending the frame `f` is refused, and why: the connection
    /// must be connected or closing, and the frame must be one that can be
    /// sent.
    pub open spec fn frame_fault(self, f: FrameView, key: [u8; 4]) -> Option<Option<Rejection>> {
        if !self.state.can_send() {
            Some(None)
        } else {
            match encode_fault(frame_out(f, self.role, key), self.role) {
                Some(r) => Some(Some(r)),
                None => None,
            }
        }
    }

    /// The connection after the frame `f` was sent at time `now`; sending a
    /// close frame closes the connection.
    pub open spec fn after_frame_sent(self, f: FrameView, key: [u8; 4], now: u64)
        -> ConnectionView {
        if self.frame_fault(f, key) is Some {
            self
        } else {
            ConnectionView {
                state: self.state.after(
                    if f.opcode == Opcode::Close {
                        Event::CloseSent
                    } else {
                        Event::Activity
                    },
                ),
                counters: self.counters.sent(wire_bytes(frame_out(f, self.role, key)).len(), now),
                ..self
            }
        }
    }

    /// Whether sending `m` is refused, and why.
    pub open spec fn send_fault(self, m: MessageView, key: [u8; 4]) -> Option<Option<Rejection>> {
        self.frame_fault(m.frame(), key)
    }

    /// The connection after `m` was sent at time `now`; sending a close
    /// closes the connection.
    pub open spec fn after_send(self, m: MessageView, key: [u8; 4], now: u64) -> ConnectionView {
        self.after_frame_sent(m.frame(), key, now)
    }

    /// The connection after the assembler made `step` of a frame at time
    /// `now`, the assembler then being `assembler`.
    pub open spec fn after_step(self, assembler: AssemblerView, step: Step, now: u64)
        -> ConnectionView {
        match step {
            Step::Yield(MessageView::Close { .. }) => ConnectionView {
                state: self.state.after(Event::CloseReceived),
                counters: self.counters.touched(now),
                assembler,
                ..self
            },
            Step::Yield(MessageView::Text(t)) => ConnectionView {
                counters: self.counters.received(vstd::utf8::encode_utf8(t).len(), now),
                assembler,
                ..self
            },
            Step::Yield(MessageView::Binary(d)) => ConnectionView {
                counters: self.counters.received(d.len(), now),
                assembler,
                ..self
            },
            Step::Fault(_) => ConnectionView {
                state: ConnectionState::Closed,
                counters: self.counters.touched(now),
                assembler,
                ..self
            },
            _ => ConnectionView { counters: self.counters.touched(now), assembler, ..self },
        }
    }

    /// What the connection is to do after the assembler made `step` of a
    /// frame: answer a ping with a pong, hand a message to the application,
    /// or answer a fault with a close.
    pub open spec fn reaction(self, step: Step, key: [u8; 4]) -> PolledView {
        match step {
            Step::Yield(MessageView::Ping(p)) => PolledView::Reply(
                wire_bytes(outgoing(MessageView::Pong(p), self.role, key)),
            ),
            Step::Yield(MessageView::Pong(_)) => PolledView::Nothing,
            Step::Yield(m) => PolledView::Message(m),
            Step::Pending => PolledView::Nothing,
            Step::Fault(fault) => PolledView::Failed {
                failure: Failure::Assembly(fault),
                close: failure_close(failure_code(Failure::Assembly(fault)), self.role, key),
            },
        }
    }
}

/// The exec value `p` is the mathematical value `v`.
pub open spec fn polled_is(p: Polled, v: PolledView) -> bool {
    match v {
        PolledView::NeedMore(n) => p matches Polled::NeedMore { min_needed } && min_needed == n,
        PolledView::Reply(b) => p matches Polled::Reply(bytes) && bytes@ == b,
        PolledView::Nothing => p is Nothing,
        PolledView::Message(m) => p matches Polled::Message(msg) && msg@ == m,
        PolledView::Failed { failure, close } => p matches Polled::Failed { error, close: c }
            && reports_failure(error, failure) && c@ == close,
        PolledView::Closed => p is Closed,
    }
}

impl ConnectionView {
    /// The connection after it failed at time `now`: it is closed.
    pub open spec fn failed(self, now: u64) -> ConnectionView {
        ConnectionView {
            state: ConnectionState::Closed,
            counters: self.counters.touched(now),
            ..self
        }
    }

    /// The connection after the frame `frame` was handled at time `now`.
    pub open spec fn after_frame(self, frame: FrameView, now: u64) -> ConnectionView {
        if self.state == ConnectionState::Closed {
            self
        } else {
            self.after_step(self.assembler.fed(frame).0, self.assembler.fed(frame).1, now)
        }
    }

    /// What the connection is to do after the frame `frame` was handled.
    pub open spec fn frame_reaction(self, frame: FrameView, key: [u8; 4]) -> PolledView {
        if self.state == ConnectionState::Closed {
            PolledView::Closed
        } else {
            self.reaction(self.assembler.fed(frame).1, key)
        }
    }

    /// The connection after a poll at time `now`: `p` is what parsing the
    /// bytes received gave. The poll counts as activity. A frame is taken
    /// from the bytes received and handled; bytes that are no frame close
    /// the connection.
    pub open spec fn after_poll(self, p: Parsed, now: u64) -> ConnectionView {
        if self.state == ConnectionState::Closed {
            self
        } else {
            match p {
                Parsed::NeedMore(_) => ConnectionView {
                    counters: self.counters.touched(now),
                    ..self
                },
                Parsed::Rejected(_) => self.failed(now),
                Parsed::Undecodable => self.failed(now),
                Parsed::Frame { frame, consumed } => (ConnectionView {
                    buffer: self.buffer.skip(consumed as int),
                    ..self
                }).after_frame(frame, now),
            }
        }
    }

    /// What the connection is to do after a poll: `p` is what parsing the
    /// bytes received gave.
    pub open spec fn poll_reaction(self, p: Parsed, key: [u8; 4]) -> PolledView {
        if self.state == ConnectionState::Closed {
            PolledView::Closed
        } else {
            match p {
                Parsed::NeedMore(n) => PolledView::NeedMore(n),
                Parsed::Rejected(r) => PolledView::Failed {
                    failure: Failure::Codec(r),
                    close: failure_close(failure_code(Failure::Codec(r)), self.role, key),
                },
                Parsed::Undecodable => PolledView::Failed {
                    failure: Failure::Undecodable,
                    close: failure_close(failure_code(Failure::Undecodable), self.role, key),
                },
                Parsed::Frame { frame, consumed } => self.frame_reaction(frame, key),
            }
        }
    }

    /// Whether the connection has been idle for longer than it may be.
    pub open spec fn timed_out(self, now: u64) -> bool {
        match self.idle_timeout {
            Some(t) => now - self.counters.last_activity_at > t,
            None => false,
        }
    }
}

/// A connection of role `role` made at time `now` in the state `state`.
pub open spec fn fresh_connection(
    remote_addr: SocketAddress,
    local_addr: SocketAddress,
    role: Role,
    state: ConnectionState,
    idle_timeout: Option<u64>,
    now: u64,
) -> ConnectionView {
    ConnectionView {
        remote_addr,
        local_addr,
        state,
        role,
        counters: fresh_counters(now),
        subprotocol: None,
        extensions: Seq::empty(),
        compression_negotiated: false,
        idle_timeout,
        max_frame_size: DEFAULT_MAX_FRAME_SIZE,
        buffer: Seq::empty(),
        assembler: fresh_assembler(DEFAULT_MAX_MESSAGE_SIZE as nat),
    }
}

/// The answer `r` to a request to send is what `fault` says: the bytes to
/// write, or the reason for which nothing is sent.
pub open spec fn send_answer(
    r: Result<Vec<u8>, Error>,
    fault: Option<Option<Rejection>>,
    bytes: Seq<u8>,
) -> bool {
    match fault {
        None => r matches Ok(b) && b@ == bytes,
        Some(None) => r matches Err(Error::Connection(_)),
        Some(Some(rej)) => r matches Err(Error::Frame(e)) && reports(e, rej),
    }
}

/// The characters of an optional text; none stands for the empty text.
pub open spec fn reason_text(reason: Option<&str>) -> Seq<char> {
    match reason {
        Some(r) => r@,
        None => Seq::empty(),
    }
}

/// What closing a connection with a code and a reason does: where the two
/// make no close frame, that is the answer and nothing changes; else the
/// close message is sent as any message is.
pub open spec fn closed_is(
    before: ConnectionView,
    after: ConnectionView,
    r: Result<Vec<u8>, Error>,
    code: Option<u16>,
    reason: Option<&str>,
    now: u64,
) -> bool {
    let m = MessageView::Close { code, reason: reason_text(reason) };
    match close_fault(code, reason_bytes(reason)) {
        Some(fault) => r matches Err(Error::Close(e)) && e == fault && after == before,
        None => exists|key: [u8; 4]|
            after == #[trigger] before.after_send(m, key, now) && send_answer(
                r,
                before.send_fault(m, key),
                wire_bytes(outgoing(m, before.role, key)),
            ),
    }
}

/// Whatever a connection does, its state never goes back, none of its
/// counters goes down, and its last activity is never before it was
/// established: this holds of sending, of handling a frame and of polling
/// alike.
pub proof fn lemma_operations_advance(
    c: ConnectionView,
    m: MessageView,
    frame: FrameView,
    p: Parsed,
    key: [u8; 4],
    now: u64,
)
    ensures
        c.state.rank() <= c.after_send(m, key, now).state.rank(),
        c.state.rank() <= c.after_frame(frame, now).state.rank(),
        c.state.rank() <= c.after_poll(p, now).state.rank(),
        c.after_send(m, key, now).counters.not_before(c.counters),
        c.after_frame(frame, now).counters.not_before(c.counters),
        c.after_poll(p, now).counters.not_before(c.counters),
        c.state == ConnectionState::Closed ==> c.after_send(m, key, now) == c && c.after_frame(
            frame,
            now,
        ) == c && c.after_poll(p, now) == c,
        c.counters.established_at <= c.counters.last_activity_at ==> {
            &&& c.after_send(m, key, now).counters.established_at <= c.after_send(
                m,
                key,
                now,
            ).counters.last_activity_at
            &&& c.after_frame(frame, now).counters.established_at <= c.after_frame(
                frame,
                now,
            ).counters.last_activity_at
            &&& c.after_poll(p, now).counters.established_at <= c.after_poll(
                p,
                now,
            ).counters.last_activity_at
        },
{
}

} // verus!
