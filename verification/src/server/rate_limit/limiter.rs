//! The rate limiter itself.

use crate::server::rate_limit::{
    connected, current_window, is_recent, LimiterView, RateLimitConfig, RateLimitStats, recent,
    RequestCounter, requested,
};
use crate::server::rate_limit::laws::{lemma_recent, lemma_steps_keep_wf};
use std::collections::HashMap;
use vstd::prelude::*;
use vstd::std_specs::hash::{group_hash_axioms, spec_keys_iter};
use vstd::std_specs::iter::IteratorSpec;

verus! {

/// Rate limiter for tracking requests and connections
#[derive(Debug)]
pub struct RateLimiter {
    config: RateLimitConfig,
    /// Request tracking per IP
    request_counters: HashMap<u128, RequestCounter>,
    /// Connection tracking per IP
    connection_counters: HashMap<u128, usize>,
}

impl View for RateLimiter {
    type V = LimiterView;

    closed spec fn view(&self) -> LimiterView {
        LimiterView {
            config: self.config,
            requests: self.request_counters@,
            connections: self.connection_counters@,
        }
    }
}

/// The peers that have a request counter, each once, in no order that
/// could be told.
fn peers_of(counters: &HashMap<u128, RequestCounter>) -> (peers: Vec<u128>)
    ensures
        peers@.no_duplicates(),
        peers@.to_set() == counters@.dom(),
{
    broadcast use group_hash_axioms;

    let mut peers: Vec<u128> = Vec::new();
    let ghost all = spec_keys_iter(counters).remaining().unref();
    for peer in it: counters.keys()
        invariant
            it.seq().unref() == all,
            peers@ == all.take(it.index()),
    {
        assert(all.take(it.index() + 1) =~= all.take(it.index()).push(*peer));
        peers.push(*peer);
    }
    assert(peers@ =~= all);
    peers
}

impl RateLimiter {
    /// Create a new rate limiter
    pub fn new(config: RateLimitConfig) -> (l: Self)
        ensures
            l@ == (LimiterView { config, requests: Map::empty(), connections: Map::empty() }),
            l@.wf(),
    {
        broadcast use group_hash_axioms;

        RateLimiter { config, request_counters: HashMap::new(), connection_counters: HashMap::new() }
    }

    fn window_of(&self, peer: u128, now: u64) -> (c: RequestCounter)
        ensures
            c == current_window(self@.requests, peer, self@.config.window, now),
    {
        broadcast use group_hash_axioms;

        match self.request_counters.get(&peer) {
            None => RequestCounter { count: 0, window_start: now },
            Some(c) => {
                if now.saturating_sub(c.window_start) >= self.config.window {
                    RequestCounter { count: 0, window_start: now }
                } else {
                    *c
                }
            },
        }
    }

    fn set_counter(&mut self, peer: u128, c: RequestCounter)
        ensures
            final(self)@ == (LimiterView {
                requests: old(self)@.requests.insert(peer, c),
                ..old(self)@
            }),
    {
        broadcast use group_hash_axioms;

        self.request_counters.insert(peer, c);
    }

    /// Check if an IP is allowed to make a request, and count the request
    /// if it is
    pub fn check_request_rate(&mut self, ip: u128, now: u64) -> (r: bool)
        requires
            old(self)@.wf(),
        ensures
            final(self)@.wf(),
            final(self)@ == (LimiterView {
                requests: requested(old(self)@.requests, ip, old(self)@.config, now).0,
                ..old(self)@
            }),
            r == requested(old(self)@.requests, ip, old(self)@.config, now).1,
    {
        let c = self.window_of(ip, now);
        if c.count >= self.config.max_requests {
            self.set_counter(ip, c);
            false
        } else {
            self.set_counter(ip, RequestCounter { count: c.count + 1, window_start: c.window_start });
            true
        }
    }

    /// Check if an IP can establish a new connection, and count the
    /// connection if it can
    pub fn can_connect(&mut self, ip: u128) -> (r: bool)
        requires
            old(self)@.wf(),
        ensures
            final(self)@.wf(),
            final(self)@ == (LimiterView {
                connections: connected(
                    old(self)@.connections,
                    ip,
                    old(self)@.config.max_connections,
                ).0,
                ..old(self)@
            }),
            r == connected(old(self)@.connections, ip, old(self)@.config.max_connections).1,
    {
        broadcast use group_hash_axioms;

        let count: usize = match self.connection_counters.get(&ip) {
            Some(count) => *count,
            None => 0,
        };
        if count >= self.config.max_connections {
            return false;
        }
        self.connection_counters.insert(ip, count + 1);
        proof {
            assert forall|p: u128| #[trigger]
                self@.connections.dom().contains(p) implies 0 < self@.connections[p]
                <= self@.config.max_connections by {
                if p != ip {
                    assert(old(self)@.connections.dom().contains(p));
                }
            }
        }
        true
    }

    /// Remove a connection for an IP
    pub fn remove_connection(&mut self, ip: u128)
        requires
            old(self)@.wf(),
        ensures
            final(self)@.wf(),
            final(self)@ == old(self)@.released(ip),
    {
        broadcast use group_hash_axioms;

        proof {
            lemma_steps_keep_wf(self@, ip, 0);
        }
        let count: usize = match self.connection_counters.get(&ip) {
            Some(count) => *count,
            None => {
                return ;
            },
        };
        if count <= 1 {
            self.connection_counters.remove(&ip);
        } else {
            self.connection_counters.insert(ip, count - 1);
        }
    }

    /// Admit a peer or turn it away, in one step: the request is counted
    /// and a connection is counted, or neither is
    pub fn try_admit(&mut self, ip: u128, now: u64) -> (r: bool)
        requires
            old(self)@.wf(),
        ensures
            final(self)@.wf(),
            final(self)@ == old(self)@.admitted(ip, now).0,
            r == old(self)@.admitted(ip, now).1,
    {
        proof {
            lemma_steps_keep_wf(self@, ip, now);
        }
        let c = self.window_of(ip, now);
        if c.count >= self.config.max_requests {
            self.set_counter(ip, c);
            return false;
        }
        if self.can_connect(ip) {
            self.set_counter(ip, RequestCounter { count: c.count + 1, window_start: c.window_start });
            true
        } else {
            self.set_counter(ip, c);
            false
        }
    }

    /// A connection of a peer was closed
    pub fn release(&mut self, ip: u128)
        requires
            old(self)@.wf(),
        ensures
            final(self)@.wf(),
            final(self)@ == old(self)@.released(ip),
    {
        self.remove_connection(ip);
    }

    /// Cleanup expired entries: request counters whose window started two
    /// windows ago or earlier are dropped
    pub fn cleanup(&mut self, now: u64)
        requires
            old(self)@.wf(),
        ensures
            final(self)@.wf(),
            final(self)@ == (LimiterView {
                requests: recent(old(self)@.requests, old(self)@.config.window, now),
                ..old(self)@
            }),
    {
        broadcast use group_hash_axioms;

        let ghost before = self@;
        let window = self.config.window;
        let peers = peers_of(&self.request_counters);
        let mut i: usize = 0;
        while i < peers.len()
            invariant
                i <= peers@.len(),
                window == before.config.window,
                peers@.to_set() == before.requests.dom(),
                self@.config == before.config,
                self@.connections == before.connections,
                forall|p: u128|
                    self@.requests.dom().contains(p) <==> before.requests.dom().contains(p) && (
                    is_recent(before.requests[p], window, now) || !peers@.take(i as int).contains(
                        p,
                    )),
                forall|p: u128|
                    self@.requests.dom().contains(p) ==> self@.requests[p] == before.requests[p],
            decreases peers.len() - i,
        {
            let peer = peers[i];
            let ghost held = self@.requests;
            let stale = match self.request_counters.get(&peer) {
                Some(c) => {
                    let age = now.saturating_sub(c.window_start);
                    !(window > u64::MAX / 2 || age < 2 * window)
                },
                None => false,
            };
            if stale {
                self.request_counters.remove(&peer);
            }
            proof {
                let seen = peers@.take(i as int);
                let more = peers@.take(i + 1);
                assert(more =~= seen.push(peer));
                assert(peers@.to_set().contains(peer));
                assert forall|p: u128|
                    self@.requests.dom().contains(p) <==> before.requests.dom().contains(p) && (
                    is_recent(before.requests[p], window, now) || !more.contains(p)) by {
                    if p == peer {
                        assert(more[i as int] == peer);
                    } else if seen.contains(p) {
                        let j = choose|j: int| 0 <= j < seen.len() && seen[j] == p;
                        assert(more[j] == p);
                    } else if more.contains(p) {
                        let j = choose|j: int| 0 <= j < more.len() && more[j] == p;
                        assert(seen[j] == p);
                    }
                }
            }
            i += 1;
        }
        proof {
            assert(peers@.take(peers@.len() as int) =~= peers@);
            lemma_recent(before, now);
            assert(self@.requests =~= recent(before.requests, window, now)) by {
                assert forall|p: u128| before.requests.dom().contains(p) implies peers@.contains(
                    p,
                ) by {
                    assert(peers@.to_set().contains(p));
                }
            }
        }
    }

    /// Get statistics about rate limiting
    pub fn get_stats(&self) -> (s: RateLimitStats)
        ensures
            s.tracked_ips == self@.requests.len(),
            s.active_connections == self@.connections.len(),
    {
        broadcast use group_hash_axioms;

        RateLimitStats {
            tracked_ips: self.request_counters.len(),
            active_connections: self.connection_counters.len(),
        }
    }
}

/// Middleware for rate limiting WebSocket connections
#[derive(Debug)]
pub struct RateLimitMiddleware {
    limiter: RateLimiter,
}

impl View for RateLimitMiddleware {
    type V = LimiterView;

    closed spec fn view(&self) -> LimiterView {
        self.limiter@
    }
}

impl RateLimitMiddleware {
    /// Create new rate limit middleware
    pub fn new(config: RateLimitConfig) -> (m: Self)
        ensures
            m@ == (LimiterView { config, requests: Map::empty(), connections: Map::empty() }),
            m@.wf(),
    {
        RateLimitMiddleware { limiter: RateLimiter::new(config) }
    }

    /// Check if a connection is allowed: the peer is admitted or turned
    /// away in one step
    pub fn check_connection(&mut self, ip: u128, now: u64) -> (r: bool)
        requires
            old(self)@.wf(),
        ensures
            final(self)@.wf(),
            final(self)@ == old(self)@.admitted(ip, now).0,
            r == old(self)@.admitted(ip, now).1,
    {
        self.limiter.try_admit(ip, now)
    }

    /// Remove a connection from tracking
    pub fn connection_closed(&mut self, ip: u128)
        requires
            old(self)@.wf(),
        ensures
            final(self)@.wf(),
            final(self)@ == old(self)@.released(ip),
    {
        self.limiter.release(ip);
    }

    /// Get rate limiting statistics
    pub fn stats(&self) -> (s: RateLimitStats)
        ensures
            s.tracked_ips == self@.requests.len(),
            s.active_connections == self@.connections.len(),
    {
        self.limiter.get_stats()
    }

    /// Cleanup expired entries
    pub fn cleanup(&mut self, now: u64)
        requires
            old(self)@.wf(),
        ensures
            final(self)@.wf(),
            final(self)@ == (LimiterView {
                requests: recent(old(self)@.requests, old(self)@.config.window, now),
                ..old(self)@
            }),
    {
        self.limiter.cleanup(now);
    }
}

} // verus!
