//! The connection itself.

use bytes::BytesMut;
use crate::buffer::{
    bytes_mut_advance, bytes_mut_as_slice, bytes_mut_extend, bytes_mut_len, bytes_mut_new,
    bytes_mut_seq,
};
use crate::connection::{capped, ConnectionMetadata, ConnectionState, Event};
use crate::connection::model::{
    carried, closed_is, ConnectionView, Failure, failure_close, frame_out, fresh_connection,
    lemma_failure_code, outgoing, polled_is, send_answer,
};
use crate::error::{CloseCode, Error, FrameError};
use crate::frame::{Frame, Role};
use crate::frame::close::check_close;
use crate::frame::parse::{MaskPolicy, parse_incremental, ParseConfig, Parsed, parsed, ParseOutcome};
use crate::frame::wire::{encode_fault, reports, wire_bytes};
use crate::headers::texts;
use crate::message::{Message, MessageView};
use crate::message::assembler::{fresh_assembler, MessageAssembler};
use crate::protocol::Opcode;
use crate::protocol::constants::DEFAULT_MAX_FRAME_SIZE;
use crate::random::random_mask_key;
use crate::transport::SocketAddress;
use vstd::prelude::*;
use vstd::slice::slice_to_vec;

verus! {

/// Represents a WebSocket connection
#[derive(Debug)]
pub struct Connection {
    /// Remote address
    remote_addr: SocketAddress,
    /// Local address
    local_addr: SocketAddress,
    /// Connection state
    state: ConnectionState,
    /// Connection metadata
    pub metadata: ConnectionMetadata,
    /// Which end of the connection this is
    role: Role,
    /// Idle timeout duration
    idle_timeout: Option<u64>,
    /// Largest frame payload accepted
    max_frame_size: usize,
    /// Bytes received that are no whole frame yet
    buffer: BytesMut,
    /// The message in progress
    assembler: MessageAssembler,
}

impl View for Connection {
    type V = ConnectionView;

    closed spec fn view(&self) -> ConnectionView {
        ConnectionView {
            remote_addr: self.remote_addr,
            local_addr: self.local_addr,
            state: self.state,
            role: self.role,
            counters: self.metadata.counters(),
            subprotocol: crate::handshake::opt_text(self.metadata.subprotocol),
            extensions: texts(self.metadata.extensions@),
            compression_negotiated: self.metadata.compression_negotiated,
            idle_timeout: self.idle_timeout,
            max_frame_size: self.max_frame_size,
            buffer: bytes_mut_seq(self.buffer),
            assembler: self.assembler@,
        }
    }
}

/// What a connection is to do after it looked at what it received.
#[derive(Debug)]
pub enum Polled {
    /// No whole frame is there: read at least this many bytes, feed them
    /// and poll again.
    NeedMore {
        /// Least number of bytes that are missing
        min_needed: u64,
    },
    /// A ping arrived: write these bytes, the pong, before anything else,
    /// and poll again.
    Reply(Vec<u8>),
    /// A pong or a fragment arrived: poll again.
    Nothing,
    /// A message for the application.
    Message(Message),
    /// The peer broke the protocol: write these bytes, a close frame with
    /// the code that fits, and shut the stream down.
    Failed {
        /// What the peer did wrong
        error: Error,
        /// The close frame to send
        close: Vec<u8>,
    },
    /// The connection is closed; nothing was looked at.
    Closed,
}

fn encode_for(frame: Frame, role: Role, key: [u8; 4]) -> (r: Result<Vec<u8>, FrameError>)
    ensures
        match r {
            Ok(b) => encode_fault(frame_out(frame@, role, key), role) is None && b@
                == wire_bytes(frame_out(frame@, role, key)),
            Err(e) => encode_fault(frame_out(frame@, role, key), role) matches Some(rej)
                && reports(e, rej),
        },
{
    match role {
        Role::Client => frame.mask_with(key).encode(role),
        Role::Server => frame.mask(false).encode(role),
    }
}

fn failure_close_bytes(code: CloseCode, role: Role, key: [u8; 4]) -> (b: Vec<u8>)
    ensures
        b@ == failure_close(code, role, key),
{
    let frame = Frame::close(Some(code.code()), None);
    match encode_for(frame, role, key) {
        Ok(b) => b,
        Err(_) => Vec::new(),
    }
}

fn add_capped(a: u64, b: usize) -> (r: u64)
    ensures
        r == capped(a, b as nat),
{
    a.saturating_add(b as u64)
}

impl Connection {
    fn make(
        remote_addr: SocketAddress,
        local_addr: SocketAddress,
        role: Role,
        state: ConnectionState,
        idle_timeout: Option<u64>,
        now: u64,
    ) -> (c: Connection)
        ensures
            c@ == fresh_connection(remote_addr, local_addr, role, state, idle_timeout, now),
    {
        let c = Connection {
            remote_addr,
            local_addr,
            state,
            metadata: ConnectionMetadata::fresh(now),
            role,
            idle_timeout,
            max_frame_size: DEFAULT_MAX_FRAME_SIZE,
            buffer: bytes_mut_new(),
            assembler: MessageAssembler::new(),
        };
        assert(c@.extensions =~= Seq::empty());
        c
    }

    /// Create a new connection of a server, not yet established
    pub fn new(remote_addr: SocketAddress, local_addr: SocketAddress, now: u64) -> (c: Connection)
        ensures
            c@ == fresh_connection(
                remote_addr,
                local_addr,
                Role::Server,
                ConnectionState::Connecting,
                None,
                now,
            ),
    {
        Connection::make(
            remote_addr,
            local_addr,
            Role::Server,
            ConnectionState::Connecting,
            None,
            now,
        )
    }

    /// Create a new connection of a server whose stream is attached: the
    /// handshake has succeeded, so the connection is connected
    pub fn with_stream(remote_addr: SocketAddress, local_addr: SocketAddress, now: u64) -> (c:
        Connection)
        ensures
            c@ == fresh_connection(
                remote_addr,
                local_addr,
                Role::Server,
                ConnectionState::Connected,
                None,
                now,
            ),
    {
        Connection::make(
            remote_addr,
            local_addr,
            Role::Server,
            ConnectionState::Connected,
            None,
            now,
        )
    }

    /// Create a new, connected connection of a server with timeout
    /// settings
    pub fn with_timeout(
        remote_addr: SocketAddress,
        local_addr: SocketAddress,
        idle_timeout: Option<u64>,
        now: u64,
    ) -> (c: Connection)
        ensures
            c@ == fresh_connection(
                remote_addr,
                local_addr,
                Role::Server,
                ConnectionState::Connected,
                idle_timeout,
                now,
            ),
    {
        Connection::make(
            remote_addr,
            local_addr,
            Role::Server,
            ConnectionState::Connected,
            idle_timeout,
            now,
        )
    }

    /// Create a new connection of the given role in the given state
    pub fn with_role(
        remote_addr: SocketAddress,
        local_addr: SocketAddress,
        role: Role,
        state: ConnectionState,
        now: u64,
    ) -> (c: Connection)
        ensures
            c@ == fresh_connection(remote_addr, local_addr, role, state, None, now),
    {
        Connection::make(remote_addr, local_addr, role, state, None, now)
    }

    /// The stream was attached: a connection that was being established is
    /// connected
    pub fn set_connected(&mut self, now: u64)
        ensures
            final(self)@ == (ConnectionView {
                state: old(self)@.state.after(Event::Established),
                counters: old(self)@.counters.touched(now),
                ..old(self)@
            }),
    {
        self.state = self.state.next(Event::Established);
        self.touch(now);
    }

    /// Set what the handshake settled: the subprotocol, the extensions and
    /// whether messages may be compressed
    pub fn set_negotiated(
        &mut self,
        subprotocol: Option<String>,
        extensions: Vec<String>,
        compression: bool,
    )
        ensures
            final(self)@ == (ConnectionView {
                subprotocol: crate::handshake::opt_text(subprotocol),
                extensions: texts(extensions@),
                compression_negotiated: compression,
                ..old(self)@
            }),
    {
        self.metadata.subprotocol = subprotocol;
        self.metadata.extensions = extensions;
        self.metadata.compression_negotiated = compression;
    }

    /// Set the subprotocol
    pub fn set_subprotocol(&mut self, subprotocol: String)
        ensures
            final(self)@ == (ConnectionView { subprotocol: Some(subprotocol@), ..old(self)@ }),
    {
        self.metadata.subprotocol = Some(subprotocol);
    }

    /// Add an extension
    pub fn add_extension(&mut self, extension: String)
        ensures
            final(self)@ == (ConnectionView {
                extensions: old(self)@.extensions.push(extension@),
                ..old(self)@
            }),
    {
        self.metadata.extensions.push(extension);
        assert(texts(self.metadata.extensions@) =~= texts(old(self).metadata.extensions@).push(
            extension@,
        ));
    }

    /// Set the largest frame payload and the largest message that the
    /// connection accepts. A message in progress is dropped.
    pub fn set_limits(&mut self, max_frame_size: usize, max_message_size: usize)
        ensures
            final(self)@ == (ConnectionView {
                max_frame_size,
                assembler: fresh_assembler(max_message_size as nat),
                ..old(self)@
            }),
    {
        self.max_frame_size = max_frame_size;
        self.assembler = MessageAssembler::with_max_message_size(max_message_size);
    }

    /// Get the remote address
    pub fn remote_addr(&self) -> (a: SocketAddress)
        ensures
            a == self@.remote_addr,
    {
        self.remote_addr
    }

    /// Get the local address
    pub fn local_addr(&self) -> (a: SocketAddress)
        ensures
            a == self@.local_addr,
    {
        self.local_addr
    }

    /// Get the connection state
    pub fn state(&self) -> (s: ConnectionState)
        ensures
            s == self@.state,
    {
        self.state
    }

    /// Which end of the connection this is
    pub fn role(&self) -> (r: Role)
        ensures
            r == self@.role,
    {
        self.role
    }

    /// Get the connection metadata
    pub fn metadata(&self) -> (m: &ConnectionMetadata)
        ensures
            m.counters() == self@.counters,
            crate::handshake::opt_text(m.subprotocol) == self@.subprotocol,
            texts(m.extensions@) == self@.extensions,
            m.compression_negotiated == self@.compression_negotiated,
    {
        &self.metadata
    }

    /// Check if the connection has timed out: it has an idle timeout and
    /// nothing happened for longer than that
    pub fn is_timed_out(&self, now: u64) -> (r: bool)
        ensures
            r == self@.timed_out(now),
    {
        match self.idle_timeout {
            Some(timeout) => now > self.metadata.last_activity_at && now
                - self.metadata.last_activity_at > timeout,
            None => false,
        }
    }

    /// Get the time until the connection times out
    pub fn time_until_timeout(&self, now: u64) -> (r: Option<u64>)
        ensures
            r == match self@.idle_timeout {
                Some(t) => {
                    let idle = if now >= self@.counters.last_activity_at {
                        now - self@.counters.last_activity_at
                    } else {
                        0
                    };
                    Some(
                        if idle >= t {
                            0u64
                        } else {
                            (t - idle) as u64
                        },
                    )
                },
                None => None,
            },
    {
        match self.idle_timeout {
            Some(timeout) => {
                let idle = now.saturating_sub(self.metadata.last_activity_at);
                Some(timeout.saturating_sub(idle))
            },
            None => None,
        }
    }

    /// Update the last activity timestamp
    fn touch(&mut self, now: u64)
        ensures
            final(self)@ == (ConnectionView {
                counters: old(self)@.counters.touched(now),
                ..old(self)@
            }),
    {
        if now > self.metadata.last_activity_at {
            self.metadata.last_activity_at = now;
        }
    }

    /// Set the idle timeout
    pub fn set_idle_timeout(&mut self, timeout: Option<u64>)
        ensures
            final(self)@ == (ConnectionView { idle_timeout: timeout, ..old(self)@ }),
    {
        self.idle_timeout = timeout;
    }

    /// Check if the connection is established
    pub fn is_connected(&self) -> (r: bool)
        ensures
            r == (self@.state == ConnectionState::Connected),
    {
        self.state == ConnectionState::Connected
    }

    /// Check if the connection is closed
    pub fn is_closed(&self) -> (r: bool)
        ensures
            r == (self@.state == ConnectionState::Closed),
    {
        self.state == ConnectionState::Closed
    }

    /// Get the connection age
    pub fn age(&self, now: u64) -> (r: u64)
        ensures
            r == if now >= self@.counters.established_at {
                now - self@.counters.established_at
            } else {
                0
            },
    {
        now.saturating_sub(self.metadata.established_at)
    }

    /// Get the time since last activity
    pub fn idle_time(&self, now: u64) -> (r: u64)
        ensures
            r == if now >= self@.counters.last_activity_at {
                now - self@.counters.last_activity_at
            } else {
                0
            },
    {
        now.saturating_sub(self.metadata.last_activity_at)
    }

    /// Send a frame, masked with `key` if this end is a client. The bytes
    /// that come back are to be written to the stream and flushed.
    ///
    /// Nothing is sent, and nothing changes, unless the connection is
    /// connected or closing and the frame is one that may be sent. Sending
    /// a close frame closes the connection.
    pub fn send_frame_with_key(&mut self, frame: Frame, key: [u8; 4], now: u64) -> (r: Result<
        Vec<u8>,
        Error,
    >)
        ensures
            final(self)@ == old(self)@.after_frame_sent(frame@, key, now),
            send_answer(
                r,
                old(self)@.frame_fault(frame@, key),
                wire_bytes(frame_out(frame@, old(self)@.role, key)),
            ),
    {
        let sendable = match self.state {
            ConnectionState::Connected => true,
            ConnectionState::Closing => true,
            _ => false,
        };
        if !sendable {
            return Err(Error::Connection("NotConnected".to_string()));
        }
        let closing = match frame.opcode {
            Opcode::Close => true,
            _ => false,
        };
        let bytes = match encode_for(frame, self.role, key) {
            Ok(bytes) => bytes,
            Err(e) => {
                return Err(Error::Frame(e));
            },
        };
        if closing {
            self.state = self.state.next(Event::CloseSent);
        }
        self.metadata.messages_sent = add_capped(self.metadata.messages_sent, 1);
        self.metadata.bytes_sent = add_capped(self.metadata.bytes_sent, bytes.len());
        self.touch(now);
        Ok(bytes)
    }

    /// Send a frame; a client masks it with a fresh random key. This is
    /// the way to send a frame that was compressed, or a fragment.
    pub fn send_frame(&mut self, frame: Frame, now: u64) -> (r: Result<Vec<u8>, Error>)
        ensures
            exists|key: [u8; 4]|
                final(self)@ == #[trigger] old(self)@.after_frame_sent(frame@, key, now)
                    && send_answer(
                    r,
                    old(self)@.frame_fault(frame@, key),
                    wire_bytes(frame_out(frame@, old(self)@.role, key)),
                ),
    {
        let key = random_mask_key();
        self.send_frame_with_key(frame, key, now)
    }

    /// Send a message, masked with `key` if this end is a client. The bytes
    /// that come back are to be written to the stream and flushed.
    ///
    /// Nothing is sent, and nothing changes, unless the connection is
    /// connected or closing. Sending a close closes the connection.
    pub fn send_with_key(&mut self, message: Message, key: [u8; 4], now: u64) -> (r: Result<
        Vec<u8>,
        Error,
    >)
        ensures
            final(self)@ == old(self)@.after_send(message@, key, now),
            send_answer(
                r,
                old(self)@.send_fault(message@, key),
                wire_bytes(outgoing(message@, old(self)@.role, key)),
            ),
    {
        self.send_frame_with_key(message.to_frame(), key, now)
    }

    /// Send a message; a client masks it with a fresh random key.
    pub fn send(&mut self, message: Message, now: u64) -> (r: Result<Vec<u8>, Error>)
        ensures
            exists|key: [u8; 4]|
                final(self)@ == #[trigger] old(self)@.after_send(message@, key, now)
                    && send_answer(
                    r,
                    old(self)@.send_fault(message@, key),
                    wire_bytes(outgoing(message@, old(self)@.role, key)),
                ),
    {
        let key = random_mask_key();
        self.send_with_key(message, key, now)
    }

    /// Send a message, its payload compressed at `level` if compression was
    /// negotiated on this connection and the message is a text or binary
    /// data that is not empty.
    pub fn send_compressed(&mut self, message: Message, level: u8, now: u64) -> (r: Result<
        Vec<u8>,
        Error,
    >)
        ensures
            exists|key: [u8; 4]|
                final(self)@ == #[trigger] old(self)@.after_frame_sent(
                    carried(message@, old(self)@.compression_negotiated, level),
                    key,
                    now,
                ) && send_answer(
                    r,
                    old(self)@.frame_fault(
                        carried(message@, old(self)@.compression_negotiated, level),
                        key,
                    ),
                    wire_bytes(
                        frame_out(
                            carried(message@, old(self)@.compression_negotiated, level),
                            old(self)@.role,
                            key,
                        ),
                    ),
                ),
    {
        let frame = message.to_frame().compress_at(self.metadata.compression_negotiated, level);
        self.send_frame(frame, now)
    }

    /// Send a text message
    pub fn send_text(&mut self, text: &str, now: u64) -> (r: Result<Vec<u8>, Error>)
        ensures
            exists|key: [u8; 4]|
                final(self)@ == #[trigger] old(self)@.after_send(MessageView::Text(text@), key, now)
                    && send_answer(
                    r,
                    old(self)@.send_fault(MessageView::Text(text@), key),
                    wire_bytes(outgoing(MessageView::Text(text@), old(self)@.role, key)),
                ),
    {
        self.send(Message::text(text), now)
    }

    /// Send a binary message
    pub fn send_binary(&mut self, data: Vec<u8>, now: u64) -> (r: Result<Vec<u8>, Error>)
        ensures
            exists|key: [u8; 4]|
                final(self)@ == #[trigger] old(self)@.after_send(
                    MessageView::Binary(data@),
                    key,
                    now,
                ) && send_answer(
                    r,
                    old(self)@.send_fault(MessageView::Binary(data@), key),
                    wire_bytes(outgoing(MessageView::Binary(data@), old(self)@.role, key)),
                ),
    {
        self.send(Message::binary(data), now)
    }

    /// Send a ping message; a payload of more than 125 bytes is refused
    pub fn ping(&mut self, data: Option<Vec<u8>>, now: u64) -> (r: Result<Vec<u8>, Error>)
        ensures
            exists|key: [u8; 4]|
                final(self)@ == #[trigger] old(self)@.after_send(
                    MessageView::Ping(crate::message::bytes_or_empty(data)),
                    key,
                    now,
                ) && send_answer(
                    r,
                    old(self)@.send_fault(
                        MessageView::Ping(crate::message::bytes_or_empty(data)),
                        key,
                    ),
                    wire_bytes(
                        outgoing(
                            MessageView::Ping(crate::message::bytes_or_empty(data)),
                            old(self)@.role,
                            key,
                        ),
                    ),
                ),
    {
        self.send(Message::ping(data), now)
    }

    /// Send a pong message; a payload of more than 125 bytes is refused
    pub fn pong(&mut self, data: Option<Vec<u8>>, now: u64) -> (r: Result<Vec<u8>, Error>)
        ensures
            exists|key: [u8; 4]|
                final(self)@ == #[trigger] old(self)@.after_send(
                    MessageView::Pong(crate::message::bytes_or_empty(data)),
                    key,
                    now,
                ) && send_answer(
                    r,
                    old(self)@.send_fault(
                        MessageView::Pong(crate::message::bytes_or_empty(data)),
                        key,
                    ),
                    wire_bytes(
                        outgoing(
                            MessageView::Pong(crate::message::bytes_or_empty(data)),
                            old(self)@.role,
                            key,
                        ),
                    ),
                ),
    {
        self.send(Message::pong(data), now)
    }

    /// Send a pong message without a payload
    pub fn send_pong(&mut self, now: u64) -> (r: Result<Vec<u8>, Error>)
        ensures
            exists|key: [u8; 4]|
                final(self)@ == #[trigger] old(self)@.after_send(
                    MessageView::Pong(Seq::empty()),
                    key,
                    now,
                ) && send_answer(
                    r,
                    old(self)@.send_fault(MessageView::Pong(Seq::empty()), key),
                    wire_bytes(outgoing(MessageView::Pong(Seq::empty()), old(self)@.role, key)),
                ),
    {
        self.send(Message::pong(None), now)
    }

    /// Close the connection: a close message with the code and the reason
    /// is sent, and the connection is closed. A code that may not be sent,
    /// a reason without a code and a reason of more than 123 bytes are
    /// refused, and nothing changes.
    pub fn close(&mut self, code: Option<u16>, reason: Option<&str>, now: u64) -> (r: Result<
        Vec<u8>,
        Error,
    >)
        ensures
            closed_is(old(self)@, final(self)@, r, code, reason, now),
    {
        match check_close(code, reason) {
            Some(e) => {
                return Err(Error::Close(e));
            },
            None => {},
        }
        let reason = match reason {
            Some(r) => Some(r.to_string()),
            None => None,
        };
        self.send(Message::close(code, reason), now)
    }

    /// Take in bytes that were read from the stream. They are refused when
    /// the bytes held back and the new ones together are more than a
    /// buffer can hold.
    pub fn feed(&mut self, data: &[u8]) -> (r: Result<(), Error>)
        ensures
            match r {
                Ok(()) => final(self)@ == (ConnectionView {
                    buffer: old(self)@.buffer + data@,
                    ..old(self)@
                }),
                Err(e) => e matches Error::CapacityExceeded { size } && size == data@.len()
                    && final(self)@ == old(self)@ && old(self)@.buffer.len() + data@.len()
                    > usize::MAX,
            },
    {
        let held = bytes_mut_len(&self.buffer);
        if data.len() > usize::MAX - held {
            return Err(Error::CapacityExceeded { size: data.len() });
        }
        bytes_mut_extend(&mut self.buffer, data);
        Ok(())
    }

    /// The number of bytes received that are no whole frame yet
    pub fn buffered_bytes(&self) -> (n: usize)
        ensures
            n == self@.buffer.len(),
    {
        bytes_mut_len(&self.buffer)
    }

    /// Handle a frame that was received: the frame goes to the assembler,
    /// a ping is answered with a pong of the same payload, a close moves
    /// the connection on, and a fault closes it. `key` masks what a client
    /// answers.
    pub fn handle_frame(&mut self, frame: Frame, key: [u8; 4], now: u64) -> (p: Polled)
        ensures
            final(self)@ == old(self)@.after_frame(frame@, now),
            polled_is(p, old(self)@.frame_reaction(frame@, key)),
    {
        if self.state == ConnectionState::Closed {
            return Polled::Closed;
        }
        let answer = self.assembler.feed_frame(frame);
        let ghost step = old(self)@.assembler.fed(frame@).1;
        self.touch(now);
        match answer {
            Ok(Some(message)) => {
                match message {
                    Message::Ping(ping) => {
                        let pong = Message::pong(Some(slice_to_vec(ping.as_bytes())));
                        match encode_for(pong.to_frame(), self.role, key) {
                            Ok(bytes) => Polled::Reply(bytes),
                            Err(_) => Polled::Nothing,
                        }
                    },
                    Message::Pong(_) => Polled::Nothing,
                    Message::Close(close) => {
                        self.state = self.state.next(Event::CloseReceived);
                        Polled::Message(Message::Close(close))
                    },
                    Message::Text(text) => {
                        self.metadata.messages_received = add_capped(
                            self.metadata.messages_received,
                            1,
                        );
                        self.metadata.bytes_received = add_capped(
                            self.metadata.bytes_received,
                            text.len(),
                        );
                        Polled::Message(Message::Text(text))
                    },
                    Message::Binary(data) => {
                        self.metadata.messages_received = add_capped(
                            self.metadata.messages_received,
                            1,
                        );
                        self.metadata.bytes_received = add_capped(
                            self.metadata.bytes_received,
                            data.len(),
                        );
                        Polled::Message(Message::Binary(data))
                    },
                }
            },
            Ok(None) => Polled::Nothing,
            Err(error) => {
                self.state = ConnectionState::Closed;
                proof {
                    lemma_failure_code(error, Failure::Assembly(step->Fault_0));
                }
                let close = failure_close_bytes(error.close_code(), self.role, key);
                Polled::Failed { error, close }
            },
        }
    }

    /// Look at the bytes received, with `key` to mask what a client
    /// answers: one frame is parsed and handled.
    pub fn poll_with_key(&mut self, key: [u8; 4], now: u64) -> (p: Polled)
        ensures
            final(self)@ == old(self)@.after_poll(
                parsed(old(self)@.buffer, old(self)@.parse_config()),
                now,
            ),
            polled_is(
                p,
                old(self)@.poll_reaction(parsed(old(self)@.buffer, old(self)@.parse_config()), key),
            ),
    {
        if self.state == ConnectionState::Closed {
            return Polled::Closed;
        }
        let cfg = ParseConfig {
            compression_enabled: self.metadata.compression_negotiated,
            max_frame_size: self.max_frame_size,
            masking: match self.role {
                Role::Server => MaskPolicy::Masked,
                Role::Client => MaskPolicy::Unmasked,
            },
        };
        match parse_incremental(bytes_mut_as_slice(&self.buffer), &cfg) {
            ParseOutcome::Complete { frame, consumed } => {
                assert(consumed <= self@.buffer.len());
                bytes_mut_advance(&mut self.buffer, consumed);
                self.handle_frame(frame, key, now)
            },
            ParseOutcome::NeedMore { min_needed } => {
                self.touch(now);
                Polled::NeedMore { min_needed }
            },
            ParseOutcome::Invalid(e) => {
                let error = Error::Frame(e);
                self.state = ConnectionState::Closed;
                self.touch(now);
                proof {
                    match parsed(old(self)@.buffer, cfg) {
                        Parsed::Rejected(r) => lemma_failure_code(error, Failure::Codec(r)),
                        _ => lemma_failure_code(error, Failure::Undecodable),
                    }
                }
                let close = failure_close_bytes(error.close_code(), self.role, key);
                Polled::Failed { error, close }
            },
        }
    }

    /// Look at the bytes received: one frame is parsed and handled. A
    /// client masks what it answers with a fresh random key.
    pub fn poll(&mut self, now: u64) -> (p: Polled)
        ensures
            final(self)@ == old(self)@.after_poll(
                parsed(old(self)@.buffer, old(self)@.parse_config()),
                now,
            ),
            exists|key: [u8; 4]|
                polled_is(
                    p,
                    #[trigger] old(self)@.poll_reaction(
                        parsed(old(self)@.buffer, old(self)@.parse_config()),
                        key,
                    ),
                ),
    {
        let key = random_mask_key();
        self.poll_with_key(key, now)
    }

    /// The stream ended: the connection is closed
    pub fn on_eof(&mut self)
        ensures
            final(self)@ == (ConnectionView {
                state: old(self)@.state.after(Event::Eof),
                ..old(self)@
            }),
    {
        self.state = self.state.next(Event::Eof);
    }

    /// Reading or writing failed: the connection is closed
    pub fn on_io_error(&mut self)
        ensures
            final(self)@ == (ConnectionView {
                state: old(self)@.state.after(Event::IoError),
                ..old(self)@
            }),
    {
        self.state = self.state.next(Event::IoError);
    }

    /// The connection is dropped for having been idle: it is closed, and
    /// no close frame is sent
    pub fn evict(&mut self)
        ensures
            final(self)@ == (ConnectionView {
                state: old(self)@.state.after(Event::Evicted),
                ..old(self)@
            }),
    {
        self.state = self.state.next(Event::Evicted);
    }
}

} // verus!
