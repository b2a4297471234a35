//! Rate limiting: a counter of requests for every peer, over a window of
//! time, and a counter of the connections that every peer has open.
//!
//! A peer is the number of its IP address. Times are in milliseconds.

use crate::server::manager::elapsed;
use vstd::prelude::*;

pub mod laws;
pub mod limiter;

pub use self::limiter::{RateLimitMiddleware, RateLimiter};

verus! {

/// Rate limiter configuration
#[derive(Debug, Clone, Copy, PartialEq, Eq, Structural)]
pub struct RateLimitConfig {
    /// Maximum requests per window
    pub max_requests: usize,
    /// Time window for rate limiting
    pub window: u64,
    /// Maximum concurrent connections per IP
    pub max_connections: usize,
    /// Connection timeout duration
    pub connection_timeout: u64,
}

/// The configuration that is used when none is given: 100 requests a
/// minute and 10 connections for every peer.
pub open spec fn default_rate_limit() -> RateLimitConfig {
    RateLimitConfig {
        max_requests: 100,
        window: 60_000,
        max_connections: 10,
        connection_timeout: 300_000,
    }
}

impl Default for RateLimitConfig {
    fn default() -> (c: Self)
        ensures
            c == default_rate_limit(),
    {
        RateLimitConfig {
            max_requests: 100,
            window: 60_000,
            max_connections: 10,
            connection_timeout: 300_000,
        }
    }
}

/// Request counter for a specific peer
#[derive(Debug, Clone, Copy, PartialEq, Eq, Structural)]
pub struct RequestCounter {
    /// Requests counted in the window
    pub count: usize,
    /// When the window started
    pub window_start: u64,
}

/// Rate limiting statistics
#[derive(Debug, Clone, Copy, PartialEq, Eq, Structural)]
pub struct RateLimitStats {
    /// Number of IPs being tracked for requests
    pub tracked_ips: usize,
    /// Number of IPs with active connections
    pub active_connections: usize,
}

/// The mathematical value of a rate limiter: the request counter of
/// every peer that has one, and the number of connections of every peer
/// that has any.
pub struct LimiterView {
    pub config: RateLimitConfig,
    pub requests: Map<u128, RequestCounter>,
    pub connections: Map<u128, usize>,
}

/// Whether `peer` has a connection counter.
pub open spec fn has_connections(m: Map<u128, usize>, peer: u128) -> bool {
    m.dom().contains(peer)
}

/// The number of connections that `peer` has open.
pub open spec fn open_connections(m: Map<u128, usize>, peer: u128) -> nat {
    if has_connections(m, peer) {
        m[peer] as nat
    } else {
        0
    }
}

/// The connection counters after `peer` asked for a connection, and
/// whether it got one: a peer at its limit gets none.
pub open spec fn connected(m: Map<u128, usize>, peer: u128, max: usize) -> (
    Map<u128, usize>,
    bool,
) {
    if open_connections(m, peer) >= max {
        (m, false)
    } else {
        (m.insert(peer, (open_connections(m, peer) + 1) as usize), true)
    }
}

/// The connection counters after a connection of `peer` was closed: the
/// counter goes down by one, and a counter at zero is removed.
pub open spec fn disconnected(m: Map<u128, usize>, peer: u128) -> Map<u128, usize> {
    if !has_connections(m, peer) {
        m
    } else if m[peer] <= 1 {
        m.remove(peer)
    } else {
        m.insert(peer, (m[peer] - 1) as usize)
    }
}

/// The request counter of `peer` as it counts at time `now`: a peer without
/// a counter gets one, and a window that has run out starts again.
pub open spec fn current_window(m: Map<u128, RequestCounter>, peer: u128, window: u64, now: u64)
    -> RequestCounter {
    if !m.dom().contains(peer) || elapsed(now, m[peer].window_start) >= window {
        RequestCounter { count: 0, window_start: now }
    } else {
        m[peer]
    }
}

/// The request counters after `peer` made a request at time `now`, and
/// whether the request is within the limit. A request within the limit is
/// counted.
pub open spec fn requested(m: Map<u128, RequestCounter>, peer: u128, cfg: RateLimitConfig, now: u64)
    -> (Map<u128, RequestCounter>, bool) {
    let c = current_window(m, peer, cfg.window, now);
    if c.count >= cfg.max_requests {
        (m.insert(peer, c), false)
    } else {
        (m.insert(peer, RequestCounter { count: (c.count + 1) as usize, ..c }), true)
    }
}

impl LimiterView {
    /// The invariant of a rate limiter: it counts for finitely many
    /// peers, and a connection counter counts at least one connection and
    /// no more than a peer may have.
    pub open spec fn wf(self) -> bool {
        &&& self.requests.dom().finite()
        &&& self.connections.dom().finite()
        &&& forall|peer: u128| #[trigger]
            self.connections.dom().contains(peer) ==> 0 < self.connections[peer]
                <= self.config.max_connections
    }

    /// The limiter after `peer` asked to be admitted at time `now`, and
    /// whether it was. The request is counted first, then the connection;
    /// a request that is refused for the number of connections is not
    /// counted after all.
    pub open spec fn admitted(self, peer: u128, now: u64) -> (LimiterView, bool) {
        let (requests, within) = requested(self.requests, peer, self.config, now);
        if !within {
            (LimiterView { requests, ..self }, false)
        } else {
            let (connections, got) = connected(
                self.connections,
                peer,
                self.config.max_connections,
            );
            if got {
                (LimiterView { requests, connections, ..self }, true)
            } else {
                (
                    LimiterView {
                        requests: self.requests.insert(
                            peer,
                            current_window(self.requests, peer, self.config.window, now),
                        ),
                        ..self
                    },
                    false,
                )
            }
        }
    }

    /// The limiter after a connection of `peer` was closed.
    pub open spec fn released(self, peer: u128) -> LimiterView {
        LimiterView { connections: disconnected(self.connections, peer), ..self }
    }
}

/// Whether the request counter `c` is still of use at time `now`: its
/// window started less than two windows ago.
pub open spec fn is_recent(c: RequestCounter, window: u64, now: u64) -> bool {
    elapsed(now, c.window_start) < 2 * window
}

/// Those of the request counters that are still of use.
pub open spec fn recent(m: Map<u128, RequestCounter>, window: u64, now: u64) -> Map<
    u128,
    RequestCounter,
> {
    Map::new(
        |peer: u128| m.dom().contains(peer) && is_recent(m[peer], window, now),
        |peer: u128| m[peer],
    )
}

} // verus!
