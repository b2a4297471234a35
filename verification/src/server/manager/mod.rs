//! The registry of the connections of a server.
//!
//! The registry gives every connection an id, larger than every id given
//! before. It holds the connections in a hash map under their ids, and
//! the ids in their order beside it. It is the
//! authority on how many connections there may be. It sends to all
//! connections at once and drops those that were idle for too long. Like a
//! connection, it never touches a stream: what is to be written, and which
//! streams are to be shut down, is handed to the caller.

use crate::connection::{capped, ConnectionState};
use crate::connection::machine::{Connection, Polled};
use crate::connection::model::{carried, ConnectionView, frame_out, outgoing, send_answer};
use crate::error::Error;
use crate::frame::parse::parsed;
use crate::frame::wire::wire_bytes;
use crate::message::Message;
use crate::transport::SocketAddress;
use std::collections::HashMap;
use vstd::prelude::*;
use vstd::std_specs::hash::group_hash_axioms;

pub mod broadcast;
pub mod sweep;

verus! {

/// Connection manager statistics
#[derive(Debug, Clone, Copy, PartialEq, Eq, Structural)]
pub struct ManagerStats {
    /// Total number of active connections
    pub active_connections: usize,
    /// Total number of connections since server start
    pub total_connections: u64,
    /// Number of connections closed due to timeout
    pub timeout_closures: u64,
    /// Number of connections closed due to errors
    pub error_closures: u64,
    /// Number of connections closed normally
    pub normal_closures: u64,
    /// Current memory usage in bytes
    pub memory_usage: u64,
    /// Peak number of concurrent connections
    pub peak_connections: usize,
}

/// Connection close reason
#[derive(Debug, Clone, Copy, PartialEq, Eq, Structural)]
pub enum CloseReason {
    /// Connection closed due to timeout
    Timeout,
    /// Connection closed due to error
    Error,
    /// Connection closed normally
    Normal,
}

/// The statistics of a registry that has seen nothing yet.
pub open spec fn no_stats() -> ManagerStats {
    ManagerStats {
        active_connections: 0,
        total_connections: 0,
        timeout_closures: 0,
        error_closures: 0,
        normal_closures: 0,
        memory_usage: 0,
        peak_connections: 0,
    }
}

impl Default for ManagerStats {
    fn default() -> (s: Self)
        ensures
            s == no_stats(),
    {
        ManagerStats {
            active_connections: 0,
            total_connections: 0,
            timeout_closures: 0,
            error_closures: 0,
            normal_closures: 0,
            memory_usage: 0,
            peak_connections: 0,
        }
    }
}

impl ManagerStats {
    /// The statistics after a connection was added, `active` connections
    /// then being registered: the peak is brought up to date.
    pub open spec fn opened(self, active: usize) -> ManagerStats {
        ManagerStats {
            active_connections: active,
            total_connections: capped(self.total_connections, 1),
            peak_connections: if self.peak_connections >= active {
                self.peak_connections
            } else {
                active
            },
            ..self
        }
    }

    /// The statistics after `count` connections were removed for
    /// `reason`, `active` connections then being registered.
    pub open spec fn closed(self, reason: CloseReason, count: nat, active: usize) -> ManagerStats {
        match reason {
            CloseReason::Timeout => ManagerStats {
                active_connections: active,
                timeout_closures: capped(self.timeout_closures, count),
                ..self
            },
            CloseReason::Error => ManagerStats {
                active_connections: active,
                error_closures: capped(self.error_closures, count),
                ..self
            },
            CloseReason::Normal => ManagerStats {
                active_connections: active,
                normal_closures: capped(self.normal_closures, count),
                ..self
            },
        }
    }

    fn record_closed(&mut self, reason: CloseReason, count: usize, active: usize)
        ensures
            *final(self) == old(self).closed(reason, count as nat, active),
    {
        self.active_connections = active;
        match reason {
            CloseReason::Timeout => {
                self.timeout_closures = self.timeout_closures.saturating_add(count as u64);
            },
            CloseReason::Error => {
                self.error_closures = self.error_closures.saturating_add(count as u64);
            },
            CloseReason::Normal => {
                self.normal_closures = self.normal_closures.saturating_add(count as u64);
            },
        }
    }
}

/// Connection health information
#[derive(Debug, Clone, Copy)]
pub struct ConnectionHealth {
    /// Connection ID
    pub id: u64,
    /// Remote address
    pub remote_addr: SocketAddress,
    /// Connection state
    pub state: ConnectionState,
    /// How long the connection has been active
    pub uptime: u64,
    /// Time since last activity
    pub last_activity: u64,
    /// Number of messages sent
    pub messages_sent: u64,
    /// Number of messages received
    pub messages_received: u64,
    /// Number of bytes sent
    pub bytes_sent: u64,
    /// Number of bytes received
    pub bytes_received: u64,
    /// Time until connection times out
    pub time_until_timeout: Option<u64>,
}

/// The time from `then` to `now`; zero if `now` is the earlier one.
pub open spec fn elapsed(now: u64, then: u64) -> u64 {
    if now >= then {
        (now - then) as u64
    } else {
        0
    }
}

/// The health of the connection `c` with the id `id` at time `now`.
pub open spec fn health_of(id: u64, c: ConnectionView, now: u64) -> ConnectionHealth {
    ConnectionHealth {
        id,
        remote_addr: c.remote_addr,
        state: c.state,
        uptime: elapsed(now, c.counters.established_at),
        last_activity: elapsed(now, c.counters.last_activity_at),
        messages_sent: c.counters.messages_sent,
        messages_received: c.counters.messages_received,
        bytes_sent: c.counters.bytes_sent,
        bytes_received: c.counters.bytes_received,
        time_until_timeout: match c.idle_timeout {
            Some(t) => Some(
                if elapsed(now, c.counters.last_activity_at) >= t {
                    0u64
                } else {
                    (t - elapsed(now, c.counters.last_activity_at)) as u64
                },
            ),
            None => None,
        },
    }
}

/// Bytes to be written to the stream of a connection.
#[derive(Debug, Clone)]
pub struct Delivery {
    /// The connection
    pub id: u64,
    /// What is to be written
    pub bytes: Vec<u8>,
}

/// Connection manager
#[derive(Debug)]
pub struct ConnectionManager {
    /// Largest number of connections
    max_connections: usize,
    /// The ids of the active connections, in order
    ids: Vec<u64>,
    /// The active connections, each under its id
    connections: HashMap<u64, Connection>,
    /// Connection statistics
    stats: ManagerStats,
    /// Next connection ID
    next_id: u64,
    /// Time between two sweeps for idle connections, in milliseconds
    cleanup_interval: u64,
}

/// The mathematical value of a registry: the ids in order, and with each
/// id its connection.
pub struct RegistryView {
    pub ids: Seq<u64>,
    pub connections: Seq<ConnectionView>,
    pub next_id: u64,
    pub max_connections: usize,
    pub stats: ManagerStats,
    pub cleanup_interval: u64,
}

/// The index of `id` in `ids` at or after `from`; the length of `ids` if
/// it is not there.
pub open spec fn index_of(ids: Seq<u64>, id: u64, from: int) -> int
    decreases ids.len() - from,
{
    if from >= ids.len() {
        ids.len() as int
    } else if ids[from] == id {
        from
    } else {
        index_of(ids, id, from + 1)
    }
}

/// What `index_of` finds: the index found holds the id, and the id is
/// found whenever some index holds it.
pub proof fn lemma_index_of(ids: Seq<u64>, id: u64, from: int)
    requires
        0 <= from,
    ensures
        from <= index_of(ids, id, from) || index_of(ids, id, from) == ids.len(),
        index_of(ids, id, from) <= ids.len(),
        index_of(ids, id, from) < ids.len() ==> ids[index_of(ids, id, from)] == id,
        forall|k: int| from <= k < ids.len() && ids[k] == id ==> index_of(ids, id, from) <= k,
    decreases ids.len() - from,
{
    if from < ids.len() && ids[from] != id {
        lemma_index_of(ids, id, from + 1);
    }
}

impl RegistryView {
    /// The invariant of a registry: every id has one connection, the ids
    /// grow and are smaller than the next id, so that no id occurs twice;
    /// there are no more connections than allowed; and the statistics
    /// count the connections that there are.
    pub open spec fn wf(self) -> bool {
        &&& self.ids.len() == self.connections.len()
        &&& forall|i: int, j: int| 0 <= i < j < self.ids.len() ==> self.ids[i] < self.ids[j]
        &&& forall|i: int| 0 <= i < self.ids.len() ==> self.ids[i] < self.next_id
        &&& self.ids.len() <= self.max_connections
        &&& self.stats.active_connections == self.ids.len()
        &&& self.stats.peak_connections >= self.ids.len()
    }

    /// Whether `id` is registered.
    pub open spec fn contains(self, id: u64) -> bool {
        index_of(self.ids, id, 0) < self.ids.len()
    }

    /// The connection with the id `id`.
    pub open spec fn connection(self, id: u64) -> ConnectionView {
        self.connections[index_of(self.ids, id, 0)]
    }

    /// The registry with the connection of `id` replaced by `c`.
    pub open spec fn with_connection(self, id: u64, c: ConnectionView) -> RegistryView {
        RegistryView { connections: self.connections.update(index_of(self.ids, id, 0), c), ..self }
    }

    /// The registry without the entry at `index`.
    pub open spec fn without(self, index: int) -> RegistryView {
        RegistryView {
            ids: self.ids.remove(index),
            connections: self.connections.remove(index),
            ..self
        }
    }
}

/// An empty registry for up to `max_connections` connections.
pub open spec fn empty_registry(max_connections: usize) -> RegistryView {
    RegistryView {
        ids: Seq::empty(),
        connections: Seq::empty(),
        next_id: 1,
        max_connections,
        stats: no_stats(),
        cleanup_interval: 30_000,
    }
}

impl View for ConnectionManager {
    type V = RegistryView;

    closed spec fn view(&self) -> RegistryView {
        RegistryView {
            ids: self.ids@,
            connections: Seq::new(self.ids@.len(), |i: int| self.connections@[self.ids@[i]]@),
            next_id: self.next_id,
            max_connections: self.max_connections,
            stats: self.stats,
            cleanup_interval: self.cleanup_interval,
        }
    }
}

impl ConnectionManager {
    /// What the two collections of the registry have to do with each
    /// other: no id is held twice, and the connections held are those of
    /// the ids.
    pub closed spec fn rep(&self) -> bool {
        &&& self.ids@.no_duplicates()
        &&& forall|id: u64| self.connections@.dom().contains(id) <==> self.ids@.contains(id)
    }

    /// As `rep`, while the connection of `id` is out of the registry to
    /// be worked on.
    pub closed spec fn lent(&self, id: u64) -> bool {
        &&& self.ids@.no_duplicates()
        &&& self.ids@.contains(id)
        &&& forall|k: u64|
            self.connections@.dom().contains(k) <==> self.ids@.contains(k) && k != id
    }

    /// The invariant of a registry.
    pub open spec fn wf(&self) -> bool {
        self@.wf() && self.rep()
    }

    /// Create a new connection manager for up to `max_connections`
    /// connections. Ids start at 1, and idle connections are looked for
    /// every 30 seconds.
    pub fn new(max_connections: usize) -> (m: Self)
        ensures
            m@ == empty_registry(max_connections),
            m.wf(),
    {
        broadcast use group_hash_axioms;

        let m = ConnectionManager {
            max_connections,
            ids: Vec::new(),
            connections: HashMap::new(),
            stats: ManagerStats::default(),
            next_id: 1,
            cleanup_interval: 30_000,
        };
        assert(m@.connections =~= Seq::empty());
        m
    }

    /// Set the cleanup interval
    pub fn set_cleanup_interval(&mut self, interval: u64)
        ensures
            final(self)@ == (RegistryView { cleanup_interval: interval, ..old(self)@ }),
            final(self).rep() == old(self).rep(),
    {
        self.cleanup_interval = interval;
    }

    /// The time between two sweeps for idle connections
    pub fn cleanup_interval(&self) -> (interval: u64)
        ensures
            interval == self@.cleanup_interval,
    {
        self.cleanup_interval
    }

    fn find(&self, id: u64) -> (i: usize)
        ensures
            i == index_of(self@.ids, id, 0),
            i <= self@.ids.len(),
            i < self@.ids.len() ==> self@.ids[i as int] == id,
    {
        let mut i: usize = 0;
        while i < self.ids.len()
            invariant
                i <= self.ids@.len(),
                index_of(self@.ids, id, 0) == index_of(self@.ids, id, i as int),
            decreases self.ids.len() - i,
        {
            if self.ids[i] == id {
                return i;
            }
            i += 1;
        }
        i
    }

    /// The id at `index`.
    pub(crate) fn id_at(&self, index: usize) -> (id: u64)
        requires
            index < self@.ids.len(),
        ensures
            id == self@.ids[index as int],
    {
        self.ids[index]
    }

    /// The connection at `index`.
    pub(crate) fn connection_at(&self, index: usize) -> (r: Option<&Connection>)
        requires
            self.rep(),
            index < self@.ids.len(),
        ensures
            r matches Some(c) && c@ == self@.connections[index as int],
    {
        broadcast use group_hash_axioms;

        let id = self.ids[index];
        assert(self.ids@.contains(id));
        self.connections.get(&id)
    }

    /// Takes the connection of `id` out of the registry, to be worked on
    /// and put back.
    pub(crate) fn take(&mut self, id: u64) -> (r: Option<Connection>)
        requires
            old(self).rep(),
        ensures
            final(self)@.ids == old(self)@.ids,
            final(self)@.next_id == old(self)@.next_id,
            final(self)@.max_connections == old(self)@.max_connections,
            final(self)@.stats == old(self)@.stats,
            final(self)@.cleanup_interval == old(self)@.cleanup_interval,
            match r {
                Some(c) => old(self)@.contains(id) && c@ == old(self)@.connection(id)
                    && final(self).lent(id) && forall|j: int|
                    0 <= j < old(self)@.ids.len() && j != index_of(old(self)@.ids, id, 0)
                        ==> #[trigger] final(self)@.connections[j] == old(self)@.connections[j],
                None => !old(self)@.contains(id) && final(self)@ == old(self)@ && final(self).rep(),
            },
    {
        broadcast use group_hash_axioms;

        proof {
            lemma_index_of(self@.ids, id, 0);
        }
        let r = self.connections.remove(&id);
        proof {
            if r is Some {
                assert(old(self).ids@.contains(id));
            } else {
                assert(!old(self).ids@.contains(id));
                assert(self.connections@ =~= old(self).connections@);
                assert(self@.connections =~= old(self)@.connections);
            }
        }
        r
    }

    /// Puts the connection of `id` back after it was worked on.
    pub(crate) fn put(&mut self, id: u64, c: Connection)
        requires
            old(self).lent(id),
        ensures
            final(self).rep(),
            final(self)@.ids == old(self)@.ids,
            final(self)@.next_id == old(self)@.next_id,
            final(self)@.max_connections == old(self)@.max_connections,
            final(self)@.stats == old(self)@.stats,
            final(self)@.cleanup_interval == old(self)@.cleanup_interval,
            final(self)@.connections == old(self)@.connections.update(
                index_of(old(self)@.ids, id, 0),
                c@,
            ),
    {
        broadcast use group_hash_axioms;

        proof {
            lemma_index_of(self@.ids, id, 0);
        }
        self.connections.insert(id, c);
        assert(self@.connections =~= old(self)@.connections.update(
            index_of(old(self)@.ids, id, 0),
            c@,
        ));
    }

    /// Removes the connection at `index` with its id.
    pub(crate) fn remove_at(&mut self, index: usize) -> (r: (u64, Option<Connection>))
        requires
            old(self).rep(),
            index < old(self)@.ids.len(),
        ensures
            final(self).rep(),
            r.0 == old(self)@.ids[index as int],
            r.1 matches Some(c) && c@ == old(self)@.connections[index as int],
            final(self)@ == old(self)@.without(index as int),
    {
        broadcast use group_hash_axioms;

        let id = self.ids.remove(index);
        assert(old(self).ids@.contains(id));
        let c = self.connections.remove(&id);
        proof {
            let before = old(self).ids@;
            let after = self.ids@;
            assert forall|k: u64| after.contains(k) <==> before.contains(k) && k != id by {
                if after.contains(k) {
                    let j = choose|j: int| 0 <= j < after.len() && after[j] == k;
                    let from = if j < index {
                        j
                    } else {
                        j + 1
                    };
                    assert(before[from] == k);
                }
                if before.contains(k) && k != id {
                    let j = choose|j: int| 0 <= j < before.len() && before[j] == k;
                    let to = if j < index {
                        j
                    } else {
                        j - 1
                    };
                    assert(after[to] == k);
                }
            }
            assert(after.no_duplicates()) by {
                assert forall|a: int, b: int| 0 <= a < after.len() && 0 <= b < after.len() && a
                    != b implies after[a] != after[b] by {
                    let x = if a < index {
                        a
                    } else {
                        a + 1
                    };
                    let y = if b < index {
                        b
                    } else {
                        b + 1
                    };
                    assert(before[x] != before[y]);
                }
            }
            assert(self@.connections =~= old(self)@.connections.remove(index as int));
        }
        (id, c)
    }

    /// Removes every connection.
    pub(crate) fn remove_all(&mut self)
        ensures
            final(self).rep(),
            final(self)@ == (RegistryView {
                ids: Seq::empty(),
                connections: Seq::empty(),
                ..old(self)@
            }),
    {
        broadcast use group_hash_axioms;

        self.ids.clear();
        self.connections.clear();
        assert(self@.ids =~= Seq::empty());
        assert(self@.connections =~= Seq::empty());
    }

    /// Counts connections that were closed.
    pub(crate) fn record_closed(&mut self, reason: CloseReason, count: usize)
        ensures
            final(self).rep() == old(self).rep(),
            final(self)@ == (RegistryView {
                stats: old(self)@.stats.closed(reason, count as nat, old(self)@.ids.len() as usize),
                ..old(self)@
            }),
    {
        self.stats.record_closed(reason, count, self.ids.len());
    }

    /// Add a new connection and give it an id. The registry is the
    /// authority on the number of connections: a connection beyond the
    /// limit is refused.
    pub fn add_connection(&mut self, connection: Connection) -> (r: Result<u64, Error>)
        requires
            old(self).wf(),
        ensures
            final(self).wf(),
            match r {
                Ok(id) => old(self)@.ids.len() < old(self)@.max_connections && id
                    == old(self)@.next_id && final(self)@ == (RegistryView {
                    ids: old(self)@.ids.push(id),
                    connections: old(self)@.connections.push(connection@),
                    next_id: (id + 1) as u64,
                    stats: old(self)@.stats.opened((old(self)@.ids.len() + 1) as usize),
                    ..old(self)@
                }),
                Err(e) => e matches Error::CapacityExceeded { size } && size
                    == old(self)@.max_connections && final(self)@ == old(self)@
                    && (old(self)@.ids.len() >= old(self)@.max_connections
                    || old(self)@.next_id == u64::MAX),
            },
    {
        broadcast use group_hash_axioms;

        if self.ids.len() >= self.max_connections || self.next_id == u64::MAX {
            return Err(Error::CapacityExceeded { size: self.max_connections });
        }
        let id = self.next_id;
        let ghost taken = connection@;
        self.next_id = id + 1;
        self.ids.push(id);
        self.connections.insert(id, connection);
        let active = self.ids.len();
        self.stats.active_connections = active;
        self.stats.total_connections = self.stats.total_connections.saturating_add(1);
        if self.stats.peak_connections < active {
            self.stats.peak_connections = active;
        }
        proof {
            let before = old(self).ids@;
            let after = self.ids@;
            assert(!before.contains(id)) by {
                if before.contains(id) {
                    let j = choose|j: int| 0 <= j < before.len() && before[j] == id;
                    assert(old(self)@.ids[j] < old(self)@.next_id);
                }
            }
            assert(after.no_duplicates()) by {
                assert forall|a: int, b: int| 0 <= a < after.len() && 0 <= b < after.len() && a
                    != b implies after[a] != after[b] by {
                    if a < before.len() {
                        assert(before.contains(after[a]));
                    }
                    if b < before.len() {
                        assert(before.contains(after[b]));
                    }
                }
            }
            assert forall|k: u64| after.contains(k) <==> before.contains(k) || k == id by {
                if after.contains(k) {
                    let j = choose|j: int| 0 <= j < after.len() && after[j] == k;
                    if j < before.len() {
                        assert(before[j] == k);
                    }
                }
                if before.contains(k) {
                    let j = choose|j: int| 0 <= j < before.len() && before[j] == k;
                    assert(after[j] == k);
                }
                if k == id {
                    assert(after[before.len() as int] == k);
                }
            }
            assert(self@.connections =~= old(self)@.connections.push(taken)) by {
                assert forall|j: int| 0 <= j < before.len() implies before[j] != id by {
                    assert(before.contains(before[j]));
                }
            }
        }
        Ok(id)
    }

    /// Remove a connection and count it under `reason`
    pub fn remove_connection(&mut self, id: u64, reason: CloseReason) -> (r: Option<Connection>)
        requires
            old(self).wf(),
        ensures
            final(self).wf(),
            match r {
                Some(c) => old(self)@.contains(id) && c@ == old(self)@.connection(id)
                    && final(self)@ == (RegistryView {
                    stats: old(self)@.stats.closed(
                        reason,
                        1,
                        (old(self)@.ids.len() - 1) as usize,
                    ),
                    ..old(self)@.without(index_of(old(self)@.ids, id, 0))
                }),
                None => !old(self)@.contains(id) && final(self)@ == old(self)@,
            },
    {
        let i = self.find(id);
        if i >= self.ids.len() {
            return None;
        }
        let (_, connection) = self.remove_at(i);
        self.record_closed(reason, 1);
        connection
    }

    /// Get connection by ID
    pub fn get_connection(&self, id: u64) -> (r: Option<&Connection>)
        requires
            self.wf(),
        ensures
            match r {
                Some(c) => self@.contains(id) && c@ == self@.connection(id),
                None => !self@.contains(id),
            },
    {
        broadcast use group_hash_axioms;

        proof {
            lemma_index_of(self@.ids, id, 0);
        }
        let r = self.connections.get(&id);
        proof {
            if r is Some {
                assert(self.ids@.contains(id));
            } else {
                assert(!self.ids@.contains(id));
            }
        }
        r
    }

    /// Get the ids of all active connections, in order
    pub fn get_all_connections(&self) -> (ids: Vec<u64>)
        ensures
            ids@ == self@.ids,
    {
        let mut ids: Vec<u64> = Vec::new();
        let mut i: usize = 0;
        while i < self.ids.len()
            invariant
                i <= self.ids@.len(),
                ids@ == self@.ids.take(i as int),
            decreases self.ids.len() - i,
        {
            ids.push(self.ids[i]);
            i += 1;
        }
        ids
    }

    /// Get current connection count
    pub fn connection_count(&self) -> (n: usize)
        ensures
            n == self@.ids.len(),
    {
        self.ids.len()
    }

    /// Whether the registry is full
    pub fn is_full(&self) -> (r: bool)
        ensures
            r == (self@.ids.len() >= self@.max_connections),
    {
        self.ids.len() >= self.max_connections
    }

    /// Get connection manager statistics
    pub fn get_stats(&self) -> (s: ManagerStats)
        ensures
            s == self@.stats,
    {
        self.stats
    }

    /// Monitor connection health
    pub fn monitor_connections(&self, now: u64) -> (reports: Vec<ConnectionHealth>)
        requires
            self.wf(),
        ensures
            reports@.len() == self@.ids.len(),
            forall|i: int|
                0 <= i < reports@.len() ==> #[trigger] reports@[i] == health_of(
                    self@.ids[i],
                    self@.connections[i],
                    now,
                ),
    {
        let mut reports: Vec<ConnectionHealth> = Vec::new();
        let mut i: usize = 0;
        while i < self.ids.len()
            invariant
                self.rep(),
                i <= self@.ids.len(),
                reports@.len() == i,
                forall|k: int|
                    0 <= k < i ==> #[trigger] reports@[k] == health_of(
                        self@.ids[k],
                        self@.connections[k],
                        now,
                    ),
            decreases self.ids.len() - i,
        {
            match self.connection_at(i) {
                Some(connection) => {
                    let metadata = connection.metadata();
                    reports.push(
                        ConnectionHealth {
                            id: self.ids[i],
                            remote_addr: connection.remote_addr(),
                            state: connection.state(),
                            uptime: connection.age(now),
                            last_activity: connection.idle_time(now),
                            messages_sent: metadata.messages_sent,
                            messages_received: metadata.messages_received,
                            bytes_sent: metadata.bytes_sent,
                            bytes_received: metadata.bytes_received,
                            time_until_timeout: connection.time_until_timeout(now),
                        },
                    );
                },
                None => {},
            }
            i += 1;
        }
        reports
    }
}

impl ConnectionManager {
    /// Send `message` on the connection `id`. The bytes that come back are
    /// to be written to the stream of that connection.
    pub fn send(&mut self, id: u64, message: Message, now: u64) -> (r: Result<Vec<u8>, Error>)
        requires
            old(self).wf(),
        ensures
            final(self).wf(),
            !old(self)@.contains(id) ==> final(self)@ == old(self)@ && r matches Err(
                Error::Connection(_),
            ),
            old(self)@.contains(id) ==> exists|key: [u8; 4]|
                final(self)@ == old(self)@.with_connection(
                    id,
                    #[trigger] old(self)@.connection(id).after_send(message@, key, now),
                ) && send_answer(
                    r,
                    old(self)@.connection(id).send_fault(message@, key),
                    wire_bytes(outgoing(message@, old(self)@.connection(id).role, key)),
                ),
    {
        let ghost before = self@;
        let mut c = match self.take(id) {
            Some(c) => c,
            None => {
                return Err(Error::Connection("NotFound".to_string()));
            },
        };
        let r = c.send(message, now);
        let ghost after = c@;
        self.put(id, c);
        proof {
            lemma_index_of(before.ids, id, 0);
            let was = before.connection(id);
            let key = choose|key: [u8; 4]|
                after == #[trigger] was.after_send(message@, key, now) && send_answer(
                    r,
                    was.send_fault(message@, key),
                    wire_bytes(outgoing(message@, was.role, key)),
                );
            assert(self@.connections =~= before.connections.update(
                index_of(before.ids, id, 0),
                was.after_send(message@, key, now),
            ));
        }
        r
    }

    /// Send `message` on the connection `id`, compressed at `level` if
    /// compression was negotiated on that connection
    pub fn send_compressed(&mut self, id: u64, message: Message, level: u8, now: u64) -> (r: Result<
        Vec<u8>,
        Error,
    >)
        requires
            old(self).wf(),
        ensures
            final(self).wf(),
            !old(self)@.contains(id) ==> final(self)@ == old(self)@ && r matches Err(
                Error::Connection(_),
            ),
            old(self)@.contains(id) ==> exists|key: [u8; 4]|
                final(self)@ == old(self)@.with_connection(
                    id,
                    #[trigger] old(self)@.connection(id).after_frame_sent(
                        carried(
                            message@,
                            old(self)@.connection(id).compression_negotiated,
                            level,
                        ),
                        key,
                        now,
                    ),
                ) && send_answer(
                    r,
                    old(self)@.connection(id).frame_fault(
                        carried(
                            message@,
                            old(self)@.connection(id).compression_negotiated,
                            level,
                        ),
                        key,
                    ),
                    wire_bytes(
                        frame_out(
                            carried(
                                message@,
                                old(self)@.connection(id).compression_negotiated,
                                level,
                            ),
                            old(self)@.connection(id).role,
                            key,
                        ),
                    ),
                ),
    {
        let ghost before = self@;
        let ghost f = carried(message@, before.connection(id).compression_negotiated, level);
        let mut c = match self.take(id) {
            Some(c) => c,
            None => {
                return Err(Error::Connection("NotFound".to_string()));
            },
        };
        let r = c.send_compressed(message, level, now);
        let ghost after = c@;
        self.put(id, c);
        proof {
            lemma_index_of(before.ids, id, 0);
            let was = before.connection(id);
            let key = choose|key: [u8; 4]|
                after == #[trigger] was.after_frame_sent(f, key, now) && send_answer(
                    r,
                    was.frame_fault(f, key),
                    wire_bytes(frame_out(f, was.role, key)),
                );
            assert(self@.connections =~= before.connections.update(
                index_of(before.ids, id, 0),
                was.after_frame_sent(f, key, now),
            ));
        }
        r
    }

    /// Take in bytes that were read from the stream of the connection `id`
    pub fn feed(&mut self, id: u64, data: &[u8]) -> (r: Result<(), Error>)
        requires
            old(self).wf(),
        ensures
            final(self).wf(),
            match r {
                Ok(()) => old(self)@.contains(id) && final(self)@ == old(self)@.with_connection(
                    id,
                    ConnectionView {
                        buffer: old(self)@.connection(id).buffer + data@,
                        ..old(self)@.connection(id)
                    },
                ),
                Err(e) => final(self)@ == old(self)@ && (if old(self)@.contains(id) {
                    old(self)@.connection(id).buffer.len() + data@.len() > usize::MAX
                        && e is CapacityExceeded
                } else {
                    e is Connection
                }),
            },
    {
        let ghost before = self@;
        let mut c = match self.take(id) {
            Some(c) => c,
            None => {
                return Err(Error::Connection("NotFound".to_string()));
            },
        };
        let r = c.feed(data);
        let ghost after = c@;
        self.put(id, c);
        proof {
            lemma_index_of(before.ids, id, 0);
            assert(self@.connections =~= before.connections.update(
                index_of(before.ids, id, 0),
                after,
            ));
            match r {
                Ok(()) => {},
                Err(_) => {
                    assert(self@.connections =~= before.connections);
                },
            }
        }
        r
    }

    /// Look at the bytes received on the connection `id`; nothing is
    /// looked at if the connection is not registered
    pub fn poll(&mut self, id: u64, now: u64) -> (p: Polled)
        requires
            old(self).wf(),
        ensures
            final(self).wf(),
            !old(self)@.contains(id) ==> final(self)@ == old(self)@ && p is Closed,
            old(self)@.contains(id) ==> {
                let c = old(self)@.connection(id);
                &&& final(self)@ == old(self)@.with_connection(
                    id,
                    c.after_poll(parsed(c.buffer, c.parse_config()), now),
                )
                &&& exists|key: [u8; 4]|
                    crate::connection::model::polled_is(
                        p,
                        #[trigger] c.poll_reaction(parsed(c.buffer, c.parse_config()), key),
                    )
            },
    {
        let ghost before = self@;
        let mut c = match self.take(id) {
            Some(c) => c,
            None => {
                return Polled::Closed;
            },
        };
        let p = c.poll(now);
        let ghost after = c@;
        self.put(id, c);
        proof {
            lemma_index_of(before.ids, id, 0);
            assert(self@.connections =~= before.connections.update(
                index_of(before.ids, id, 0),
                after,
            ));
        }
        p
    }

    /// The stream of the connection `id` ended or failed: the connection
    /// is closed
    pub fn on_stream_end(&mut self, id: u64)
        requires
            old(self).wf(),
        ensures
            final(self).wf(),
            !old(self)@.contains(id) ==> final(self)@ == old(self)@,
            old(self)@.contains(id) ==> final(self)@ == old(self)@.with_connection(
                id,
                ConnectionView {
                    state: ConnectionState::Closed,
                    ..old(self)@.connection(id)
                },
            ),
    {
        let ghost before = self@;
        let mut c = match self.take(id) {
            Some(c) => c,
            None => {
                return ;
            },
        };
        c.on_eof();
        let ghost after = c@;
        self.put(id, c);
        proof {
            lemma_index_of(before.ids, id, 0);
            assert(self@.connections =~= before.connections.update(
                index_of(before.ids, id, 0),
                after,
            ));
        }
    }
}

/// In a registry whose two collections agree every id is found at its
/// own index.
pub proof fn lemma_slot(m: ConnectionManager, index: int)
    requires
        m.rep(),
        0 <= index < m@.ids.len(),
    ensures
        index_of(m@.ids, m@.ids[index], 0) == index,
        m@.contains(m@.ids[index]),
        m@.connection(m@.ids[index]) == m@.connections[index],
{
    lemma_index_of(m@.ids, m@.ids[index], 0);
}

/// In a well-formed registry no id occurs twice: every id is found at its
/// own index.
pub proof fn lemma_ids_are_unique(r: RegistryView, i: int)
    requires
        r.wf(),
        0 <= i < r.ids.len(),
    ensures
        index_of(r.ids, r.ids[i], 0) == i,
        r.contains(r.ids[i]),
        r.connection(r.ids[i]) == r.connections[i],
        forall|j: int| 0 <= j < r.ids.len() && j != i ==> r.ids[j] != r.ids[i],
{
    lemma_index_of(r.ids, r.ids[i], 0);
}

} // verus!
