//! The state machine of one connection.
//!
//! A [`Connection`] holds everything that the engine knows of a session but
//! the byte stream itself: its state, its counters and timestamps, the bytes
//! received that are no whole frame yet, and the message in progress. The
//! owner of the stream reads and writes. It hands the bytes read to
//! [`Connection::feed`], asks [`Connection::poll`] what to do next, and
//! writes the bytes that `poll` and [`Connection::send`] give it.
//!
//! Times are in milliseconds on a clock of the caller's choosing.

use vstd::prelude::*;

pub mod machine;
pub mod model;

pub use self::machine::{Connection, Polled};

verus! {

/// Connection state
#[derive(Debug, Clone, Copy, PartialEq, Eq, Structural)]
pub enum ConnectionState {
    /// Connection is being established
    Connecting,
    /// Connection is established and ready
    Connected,
    /// Connection is closing
    Closing,
    /// Connection is closed
    Closed,
}

/// What happens to a connection.
#[derive(Debug, Clone, Copy, PartialEq, Eq, Structural)]
pub enum Event {
    /// The handshake succeeded and the stream is attached.
    Established,
    /// A close message arrived.
    CloseReceived,
    /// A close message was sent.
    CloseSent,
    /// The stream ended.
    Eof,
    /// Reading or writing failed.
    IoError,
    /// The peer broke the protocol: a close was sent in answer.
    ProtocolFailure,
    /// The connection was idle for too long and is dropped.
    Evicted,
    /// Anything else: a message sent or received.
    Activity,
}

impl ConnectionState {
    /// The place of a state in the order Connecting, Connected, Closing,
    /// Closed.
    pub open spec fn rank(self) -> nat {
        match self {
            ConnectionState::Connecting => 0,
            ConnectionState::Connected => 1,
            ConnectionState::Closing => 2,
            ConnectionState::Closed => 3,
        }
    }

    /// The state that follows `self` when `event` happens.
    ///
    /// A handshake that succeeds connects. A close that arrives starts the
    /// closing, and ends it when the closing had started. A close that is
    /// sent, the end of the stream, a failure and an eviction close the
    /// connection. Nothing ever leads out of Closed.
    pub open spec fn after(self, event: Event) -> ConnectionState {
        match event {
            Event::Established => if self == ConnectionState::Connecting {
                ConnectionState::Connected
            } else {
                self
            },
            Event::CloseReceived => if self == ConnectionState::Connecting || self
                == ConnectionState::Connected {
                ConnectionState::Closing
            } else {
                ConnectionState::Closed
            },
            Event::CloseSent => ConnectionState::Closed,
            Event::Eof => ConnectionState::Closed,
            Event::IoError => ConnectionState::Closed,
            Event::ProtocolFailure => ConnectionState::Closed,
            Event::Evicted => ConnectionState::Closed,
            Event::Activity => self,
        }
    }

    /// The state after the events of `events` happened in order.
    pub open spec fn after_all(self, events: Seq<Event>) -> ConnectionState
        decreases events.len(),
    {
        if events.len() == 0 {
            self
        } else {
            self.after_all(events.drop_last()).after(events.last())
        }
    }

    /// The state that follows `self` when `event` happens.
    pub fn next(self, event: Event) -> (s: ConnectionState)
        ensures
            s == self.after(event),
    {
        match event {
            Event::Established => match self {
                ConnectionState::Connecting => ConnectionState::Connected,
                _ => self,
            },
            Event::CloseReceived => match self {
                ConnectionState::Connecting => ConnectionState::Closing,
                ConnectionState::Connected => ConnectionState::Closing,
                _ => ConnectionState::Closed,
            },
            Event::Activity => self,
            _ => ConnectionState::Closed,
        }
    }

    /// Whether messages can be sent in this state.
    pub open spec fn can_send(self) -> bool {
        self == ConnectionState::Connected || self == ConnectionState::Closing
    }
}

/// The states of a connection only ever advance in the order Connecting,
/// Connected, Closing, Closed: whatever happens, no earlier state comes
/// back, and Closed is final.
pub proof fn lemma_states_advance(start: ConnectionState, events: Seq<Event>, n: int)
    requires
        0 <= n <= events.len(),
    ensures
        start.after_all(events.take(n)).rank() <= start.after_all(events).rank(),
        start.after_all(events.take(n)) == ConnectionState::Closed ==> start.after_all(events)
            == ConnectionState::Closed,
    decreases events.len(),
{
    if n == events.len() {
        assert(events.take(n) =~= events);
    } else {
        lemma_states_advance(start, events.drop_last(), n);
        assert(events.drop_last().take(n) =~= events.take(n));
    }
}

/// Connection metadata
#[derive(Debug, Clone)]
pub struct ConnectionMetadata {
    /// WebSocket subprotocol
    pub subprotocol: Option<String>,
    /// WebSocket extensions
    pub extensions: Vec<String>,
    /// Connection established time
    pub established_at: u64,
    /// Last activity time
    pub last_activity_at: u64,
    /// Messages sent count
    pub messages_sent: u64,
    /// Messages received count
    pub messages_received: u64,
    /// Bytes sent count
    pub bytes_sent: u64,
    /// Bytes received count
    pub bytes_received: u64,
    /// Whether compression was negotiated
    pub compression_negotiated: bool,
}

/// The numbers of a connection's metadata.
pub struct Counters {
    pub established_at: u64,
    pub last_activity_at: u64,
    pub messages_sent: u64,
    pub messages_received: u64,
    pub bytes_sent: u64,
    pub bytes_received: u64,
}

impl ConnectionMetadata {
    /// The numbers of the metadata.
    pub open spec fn counters(&self) -> Counters {
        Counters {
            established_at: self.established_at,
            last_activity_at: self.last_activity_at,
            messages_sent: self.messages_sent,
            messages_received: self.messages_received,
            bytes_sent: self.bytes_sent,
            bytes_received: self.bytes_received,
        }
    }

    fn fresh(now: u64) -> (m: ConnectionMetadata)
        ensures
            m.subprotocol is None,
            m.extensions@.len() == 0,
            !m.compression_negotiated,
            m.counters() == fresh_counters(now),
    {
        ConnectionMetadata {
            subprotocol: None,
            extensions: Vec::new(),
            established_at: now,
            last_activity_at: now,
            messages_sent: 0,
            messages_received: 0,
            bytes_sent: 0,
            bytes_received: 0,
            compression_negotiated: false,
        }
    }
}

/// The counters of a connection made at time `now`.
pub open spec fn fresh_counters(now: u64) -> Counters {
    Counters {
        established_at: now,
        last_activity_at: now,
        messages_sent: 0,
        messages_received: 0,
        bytes_sent: 0,
        bytes_received: 0,
    }
}

/// A sum that stops at the largest number instead of wrapping round.
pub open spec fn capped(a: u64, b: nat) -> u64 {
    if a + b > u64::MAX {
        u64::MAX
    } else {
        (a + b) as u64
    }
}

/// The later of two times.
pub open spec fn later(a: u64, b: u64) -> u64 {
    if a >= b {
        a
    } else {
        b
    }
}

impl Counters {
    /// The counters after a message of `bytes` bytes on the wire was sent
    /// at time `now`.
    pub open spec fn sent(self, bytes: nat, now: u64) -> Counters {
        Counters {
            messages_sent: capped(self.messages_sent, 1),
            bytes_sent: capped(self.bytes_sent, bytes),
            last_activity_at: later(self.last_activity_at, now),
            ..self
        }
    }

    /// The counters after a message with a payload of `bytes` bytes was
    /// received at time `now`.
    pub open spec fn received(self, bytes: nat, now: u64) -> Counters {
        Counters {
            messages_received: capped(self.messages_received, 1),
            bytes_received: capped(self.bytes_received, bytes),
            last_activity_at: later(self.last_activity_at, now),
            ..self
        }
    }

    /// The counters after something happened at time `now`.
    pub open spec fn touched(self, now: u64) -> Counters {
        Counters { last_activity_at: later(self.last_activity_at, now), ..self }
    }

    /// No counter is smaller than it was in `earlier`, and the connection
    /// was not active before it was established.
    pub open spec fn not_before(self, earlier: Counters) -> bool {
        &&& self.established_at == earlier.established_at
        &&& self.last_activity_at >= earlier.last_activity_at
        &&& self.messages_sent >= earlier.messages_sent
        &&& self.messages_received >= earlier.messages_received
        &&& self.bytes_sent >= earlier.bytes_sent
        &&& self.bytes_received >= earlier.bytes_received
    }
}

} // verus!
