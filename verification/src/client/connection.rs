//! The connection of a client: the state machine of a connection, at the
//! end that masks what it sends.

use crate::connection::{ConnectionMetadata, ConnectionState, Event};
use crate::connection::machine::{Connection, Polled};
use crate::connection::model::{
    closed_is, ConnectionView, frame_out, fresh_connection, outgoing, polled_is, send_answer,
};
use crate::error::Error;
use crate::frame::{Frame, Role};
use crate::frame::parse::parsed;
use crate::frame::wire::wire_bytes;
use crate::headers::texts;
use crate::message::{bytes_or_empty, Message, MessageView};
use crate::transport::{IpAddress, SocketAddress};
use vstd::prelude::*;

verus! {

/// Represents a WebSocket client connection
#[derive(Debug)]
pub struct ClientConnection {
    inner: Connection,
}

impl View for ClientConnection {
    type V = ConnectionView;

    closed spec fn view(&self) -> ConnectionView {
        self.inner@
    }
}

/// The address that stands for the local end of a client's connection,
/// which a client does not know before it connects.
pub open spec fn unspecified_addr() -> SocketAddress {
    SocketAddress { ip: IpAddress::V4(0), port: 0 }
}

impl ClientConnection {
    /// Create a new client connection, not yet established
    pub fn new(remote_addr: SocketAddress, now: u64) -> (c: Self)
        ensures
            c@ == fresh_connection(
                remote_addr,
                unspecified_addr(),
                Role::Client,
                ConnectionState::Connecting,
                None,
                now,
            ),
    {
        ClientConnection {
            inner: Connection::with_role(
                remote_addr,
                SocketAddress { ip: IpAddress::V4(0), port: 0 },
                Role::Client,
                ConnectionState::Connecting,
                now,
            ),
        }
    }

    /// Create a new client connection whose stream is attached: the
    /// handshake has succeeded, so the connection is connected
    pub fn with_stream(remote_addr: SocketAddress, now: u64) -> (c: Self)
        ensures
            c@ == fresh_connection(
                remote_addr,
                unspecified_addr(),
                Role::Client,
                ConnectionState::Connected,
                None,
                now,
            ),
    {
        ClientConnection {
            inner: Connection::with_role(
                remote_addr,
                SocketAddress { ip: IpAddress::V4(0), port: 0 },
                Role::Client,
                ConnectionState::Connected,
                now,
            ),
        }
    }

    /// Get the remote address
    pub fn remote_addr(&self) -> (a: SocketAddress)
        ensures
            a == self@.remote_addr,
    {
        self.inner.remote_addr()
    }

    /// Get the connection state
    pub fn state(&self) -> (s: ConnectionState)
        ensures
            s == self@.state,
    {
        self.inner.state()
    }

    /// Get the connection metadata
    pub fn metadata(&self) -> (m: &ConnectionMetadata)
        ensures
            m.counters() == self@.counters,
            crate::handshake::opt_text(m.subprotocol) == self@.subprotocol,
            texts(m.extensions@) == self@.extensions,
            m.compression_negotiated == self@.compression_negotiated,
    {
        self.inner.metadata()
    }

    /// Send a message, masked with a fresh random key. The bytes that come
    /// back are to be written to the stream and flushed.
    pub fn send(&mut self, message: Message, now: u64) -> (r: Result<Vec<u8>, Error>)
        ensures
            exists|key: [u8; 4]|
                final(self)@ == #[trigger] old(self)@.after_send(message@, key, now)
                    && send_answer(
                    r,
                    old(self)@.send_fault(message@, key),
                    wire_bytes(outgoing(message@, old(self)@.role, key)),
                ),
    {
        let ghost before = self@;
        let ghost m = message@;
        let r = self.inner.send(message, now);
        proof {
            let key = choose|key: [u8; 4]|
                self.inner@ == #[trigger] before.after_send(m, key, now) && send_answer(
                    r,
                    before.send_fault(m, key),
                    wire_bytes(outgoing(m, before.role, key)),
                );
            assert(self@ == before.after_send(m, key, now));
        }
        r
    }

    /// Send a frame, masked with a fresh random key; this is the way to
    /// send a frame that was compressed, or a fragment
    pub fn send_frame(&mut self, frame: Frame, now: u64) -> (r: Result<Vec<u8>, Error>)
        ensures
            exists|key: [u8; 4]|
                final(self)@ == #[trigger] old(self)@.after_frame_sent(frame@, key, now)
                    && send_answer(
                    r,
                    old(self)@.frame_fault(frame@, key),
                    wire_bytes(frame_out(frame@, old(self)@.role, key)),
                ),
    {
        let ghost before = self@;
        let ghost f = frame@;
        let r = self.inner.send_frame(frame, now);
        proof {
            let key = choose|key: [u8; 4]|
                self.inner@ == #[trigger] before.after_frame_sent(f, key, now) && send_answer(
                    r,
                    before.frame_fault(f, key),
                    wire_bytes(frame_out(f, before.role, key)),
                );
            assert(self@ == before.after_frame_sent(f, key, now));
        }
        r
    }

    /// Send a text message
    pub fn send_text(&mut self, text: &str, now: u64) -> (r: Result<Vec<u8>, Error>)
        ensures
            exists|key: [u8; 4]|
                final(self)@ == #[trigger] old(self)@.after_send(MessageView::Text(text@), key, now)
                    && send_answer(
                    r,
                    old(self)@.send_fault(MessageView::Text(text@), key),
                    wire_bytes(outgoing(MessageView::Text(text@), old(self)@.role, key)),
                ),
    {
        let ghost before = self@;
        let ghost m = MessageView::Text(text@);
        let r = self.inner.send_text(text, now);
        proof {
            let key = choose|key: [u8; 4]|
                self.inner@ == #[trigger] before.after_send(m, key, now) && send_answer(
                    r,
                    before.send_fault(m, key),
                    wire_bytes(outgoing(m, before.role, key)),
                );
            assert(self@ == before.after_send(m, key, now));
        }
        r
    }

    /// Send a binary message
    pub fn send_binary(&mut self, data: Vec<u8>, now: u64) -> (r: Result<Vec<u8>, Error>)
        ensures
            exists|key: [u8; 4]|
                final(self)@ == #[trigger] old(self)@.after_send(
                    MessageView::Binary(data@),
                    key,
                    now,
                ) && send_answer(
                    r,
                    old(self)@.send_fault(MessageView::Binary(data@), key),
                    wire_bytes(outgoing(MessageView::Binary(data@), old(self)@.role, key)),
                ),
    {
        let ghost before = self@;
        let ghost m = MessageView::Binary(data@);
        let r = self.inner.send_binary(data, now);
        proof {
            let key = choose|key: [u8; 4]|
                self.inner@ == #[trigger] before.after_send(m, key, now) && send_answer(
                    r,
                    before.send_fault(m, key),
                    wire_bytes(outgoing(m, before.role, key)),
                );
            assert(self@ == before.after_send(m, key, now));
        }
        r
    }

    /// Send a ping message
    pub fn ping(&mut self, data: Option<Vec<u8>>, now: u64) -> (r: Result<Vec<u8>, Error>)
        ensures
            exists|key: [u8; 4]|
                final(self)@ == #[trigger] old(self)@.after_send(
                    MessageView::Ping(bytes_or_empty(data)),
                    key,
                    now,
                ) && send_answer(
                    r,
                    old(self)@.send_fault(MessageView::Ping(bytes_or_empty(data)), key),
                    wire_bytes(
                        outgoing(MessageView::Ping(bytes_or_empty(data)), old(self)@.role, key),
                    ),
                ),
    {
        let ghost before = self@;
        let ghost m = MessageView::Ping(bytes_or_empty(data));
        let r = self.inner.ping(data, now);
        proof {
            let key = choose|key: [u8; 4]|
                self.inner@ == #[trigger] before.after_send(m, key, now) && send_answer(
                    r,
                    before.send_fault(m, key),
                    wire_bytes(outgoing(m, before.role, key)),
                );
            assert(self@ == before.after_send(m, key, now));
        }
        r
    }

    /// Send a pong message
    pub fn pong(&mut self, data: Option<Vec<u8>>, now: u64) -> (r: Result<Vec<u8>, Error>)
        ensures
            exists|key: [u8; 4]|
                final(self)@ == #[trigger] old(self)@.after_send(
                    MessageView::Pong(bytes_or_empty(data)),
                    key,
                    now,
                ) && send_answer(
                    r,
                    old(self)@.send_fault(MessageView::Pong(bytes_or_empty(data)), key),
                    wire_bytes(
                        outgoing(MessageView::Pong(bytes_or_empty(data)), old(self)@.role, key),
                    ),
                ),
    {
        let ghost before = self@;
        let ghost m = MessageView::Pong(bytes_or_empty(data));
        let r = self.inner.pong(data, now);
        proof {
            let key = choose|key: [u8; 4]|
                self.inner@ == #[trigger] before.after_send(m, key, now) && send_answer(
                    r,
                    before.send_fault(m, key),
                    wire_bytes(outgoing(m, before.role, key)),
                );
            assert(self@ == before.after_send(m, key, now));
        }
        r
    }

    /// Take in bytes that were read from the stream
    pub fn feed(&mut self, data: &[u8]) -> (r: Result<(), Error>)
        ensures
            match r {
                Ok(()) => final(self)@ == (ConnectionView {
                    buffer: old(self)@.buffer + data@,
                    ..old(self)@
                }),
                Err(e) => e matches Error::CapacityExceeded { size } && size == data@.len()
                    && final(self)@ == old(self)@ && old(self)@.buffer.len() + data@.len()
                    > usize::MAX,
            },
    {
        self.inner.feed(data)
    }

    /// Look at the bytes received for the next message: one frame is
    /// parsed and handled
    pub fn next(&mut self, now: u64) -> (p: Polled)
        ensures
            final(self)@ == old(self)@.after_poll(
                parsed(old(self)@.buffer, old(self)@.parse_config()),
                now,
            ),
            exists|key: [u8; 4]|
                polled_is(
                    p,
                    #[trigger] old(self)@.poll_reaction(
                        parsed(old(self)@.buffer, old(self)@.parse_config()),
                        key,
                    ),
                ),
    {
        let ghost before = self@;
        let p = self.inner.poll(now);
        proof {
            let key = choose|key: [u8; 4]|
                polled_is(
                    p,
                    #[trigger] before.poll_reaction(
                        parsed(before.buffer, before.parse_config()),
                        key,
                    ),
                );
            assert(polled_is(
                p,
                old(self)@.poll_reaction(parsed(old(self)@.buffer, old(self)@.parse_config()), key),
            ));
        }
        p
    }

    /// Close the connection. A code that may not be sent, a reason without
    /// a code and a reason of more than 123 bytes are refused.
    pub fn close(&mut self, code: Option<u16>, reason: Option<&str>, now: u64) -> (r: Result<
        Vec<u8>,
        Error,
    >)
        ensures
            closed_is(old(self)@, final(self)@, r, code, reason, now),
    {
        self.inner.close(code, reason, now)
    }

    /// The stream ended or failed: the connection is closed
    pub fn on_stream_end(&mut self)
        ensures
            final(self)@ == (ConnectionView { state: ConnectionState::Closed, ..old(self)@ }),
    {
        self.inner.on_eof();
    }

    /// Check if the connection is established
    pub fn is_connected(&self) -> (r: bool)
        ensures
            r == (self@.state == ConnectionState::Connected),
    {
        self.inner.is_connected()
    }

    /// Check if the connection is closed
    pub fn is_closed(&self) -> (r: bool)
        ensures
            r == (self@.state == ConnectionState::Closed),
    {
        self.inner.is_closed()
    }

    /// Get the connection age
    pub fn age(&self, now: u64) -> (r: u64)
        ensures
            r == if now >= self@.counters.established_at {
                now - self@.counters.established_at
            } else {
                0
            },
    {
        self.inner.age(now)
    }

    /// Get the time since last activity
    pub fn idle_time(&self, now: u64) -> (r: u64)
        ensures
            r == if now >= self@.counters.last_activity_at {
                now - self@.counters.last_activity_at
            } else {
                0
            },
    {
        self.inner.idle_time(now)
    }

    /// Set the connection as connected
    pub fn set_connected(&mut self, now: u64)
        ensures
            final(self)@ == (ConnectionView {
                state: old(self)@.state.after(Event::Established),
                counters: old(self)@.counters.touched(now),
                ..old(self)@
            }),
    {
        self.inner.set_connected(now);
    }

    /// Set what the handshake settled
    pub fn set_negotiated(
        &mut self,
        subprotocol: Option<String>,
        extensions: Vec<String>,
        compression: bool,
    )
        ensures
            final(self)@ == (ConnectionView {
                subprotocol: crate::handshake::opt_text(subprotocol),
                extensions: texts(extensions@),
                compression_negotiated: compression,
                ..old(self)@
            }),
    {
        self.inner.set_negotiated(subprotocol, extensions, compression);
    }

    /// Set the subprotocol
    pub fn set_subprotocol(&mut self, subprotocol: String)
        ensures
            final(self)@ == (ConnectionView { subprotocol: Some(subprotocol@), ..old(self)@ }),
    {
        self.inner.set_subprotocol(subprotocol);
    }

    /// Add an extension
    pub fn add_extension(&mut self, extension: String)
        ensures
            final(self)@ == (ConnectionView {
                extensions: old(self)@.extensions.push(extension@),
                ..old(self)@
            }),
    {
        self.inner.add_extension(extension);
    }

    /// Set the largest frame payload and the largest message accepted
    pub fn set_limits(&mut self, max_frame_size: usize, max_message_size: usize)
        ensures
            final(self)@ == (ConnectionView {
                max_frame_size,
                assembler: crate::message::assembler::fresh_assembler(max_message_size as nat),
                ..old(self)@
            }),
    {
        self.inner.set_limits(max_frame_size, max_message_size);
    }
}

/// Connection handle for managing connections
#[derive(Debug)]
pub struct ClientConnectionHandle {
    /// Connection ID
    id: u64,
    /// The connection
    connection: ClientConnection,
}

impl ClientConnectionHandle {
    /// Create a new connection handle
    pub fn new(id: u64, connection: ClientConnection) -> (h: Self)
        ensures
            h.spec_id() == id,
            h.spec_connection() == connection,
    {
        ClientConnectionHandle { id, connection }
    }

    /// The id of the handle.
    pub closed spec fn spec_id(&self) -> u64 {
        self.id
    }

    /// The connection of the handle.
    pub closed spec fn spec_connection(&self) -> ClientConnection {
        self.connection
    }

    /// Get the connection ID
    pub fn id(&self) -> (id: u64)
        ensures
            id == self.spec_id(),
    {
        self.id
    }

    /// Get a reference to the connection
    pub fn connection(&self) -> (c: &ClientConnection)
        ensures
            *c == self.spec_connection(),
    {
        &self.connection
    }

    /// Take the connection out of the handle
    pub fn into_connection(self) -> (c: ClientConnection)
        ensures
            c == self.spec_connection(),
    {
        self.connection
    }
}

} // verus!
