//! Dropping the connections that were idle for too long.

use crate::connection::model::ConnectionView;
use crate::server::manager::{CloseReason, ConnectionManager, RegistryView};
use vstd::prelude::*;

verus! {

/// The clock time `now` is later than the last activity of `c` by more
/// than the idle timeout of `c`.
pub open spec fn is_idle(c: ConnectionView, now: u64) -> bool {
    c.timed_out(now)
}

/// The ids of the first `n` connections that are idle at time `now`.
pub open spec fn idle_ids(r: RegistryView, now: u64, n: int) -> Seq<u64>
    decreases n,
{
    if n <= 0 {
        Seq::empty()
    } else if is_idle(r.connections[n - 1], now) {
        idle_ids(r, now, n - 1).push(r.ids[n - 1])
    } else {
        idle_ids(r, now, n - 1)
    }
}

/// The ids of the first `n` connections that are not idle at time `now`.
pub open spec fn busy_ids(r: RegistryView, now: u64, n: int) -> Seq<u64>
    decreases n,
{
    if n <= 0 {
        Seq::empty()
    } else if is_idle(r.connections[n - 1], now) {
        busy_ids(r, now, n - 1)
    } else {
        busy_ids(r, now, n - 1).push(r.ids[n - 1])
    }
}

/// Those of the first `n` connections that are not idle at time `now`.
pub open spec fn busy_connections(r: RegistryView, now: u64, n: int) -> Seq<ConnectionView>
    decreases n,
{
    if n <= 0 {
        Seq::empty()
    } else if is_idle(r.connections[n - 1], now) {
        busy_connections(r, now, n - 1)
    } else {
        busy_connections(r, now, n - 1).push(r.connections[n - 1])
    }
}

/// The connections that are not idle are as many as their ids, and
/// together with the idle ones they are all the connections.
pub proof fn lemma_busy_and_idle(r: RegistryView, now: u64, n: int)
    requires
        0 <= n <= r.ids.len(),
        r.ids.len() == r.connections.len(),
    ensures
        busy_ids(r, now, n).len() == busy_connections(r, now, n).len(),
        busy_ids(r, now, n).len() + idle_ids(r, now, n).len() == n,
        forall|k: int|
            0 <= k < busy_ids(r, now, n).len() ==> exists|j: int|
                k <= j < n && r.ids[j] == #[trigger] busy_ids(r, now, n)[k],
    decreases n,
{
    if n > 0 {
        lemma_busy_and_idle(r, now, n - 1);
        let prev = busy_ids(r, now, n - 1);
        let cur = busy_ids(r, now, n);
        assert forall|k: int| 0 <= k < cur.len() implies exists|j: int|
            k <= j < n && r.ids[j] == #[trigger] cur[k] by {
            if k < prev.len() {
                assert(cur[k] == prev[k]);
                let j = choose|j: int| k <= j < n - 1 && r.ids[j] == prev[k];
                assert(k <= j < n && r.ids[j] == cur[k]);
            } else {
                assert(k <= n - 1 < n && r.ids[n - 1] == cur[k]);
            }
        }
    }
}

/// The ids of the connections that are not idle grow as the ids of all
/// connections do.
pub proof fn lemma_busy_ids_grow(r: RegistryView, now: u64, n: int)
    requires
        0 <= n <= r.ids.len(),
        r.wf(),
    ensures
        forall|a: int, b: int|
            0 <= a < b < busy_ids(r, now, n).len() ==> busy_ids(r, now, n)[a] < busy_ids(
                r,
                now,
                n,
            )[b],
        forall|a: int|
            0 <= a < busy_ids(r, now, n).len() ==> #[trigger] busy_ids(r, now, n)[a] < r.next_id,
    decreases n,
{
    if n > 0 {
        lemma_busy_ids_grow(r, now, n - 1);
        lemma_busy_and_idle(r, now, n - 1);
        let prev = busy_ids(r, now, n - 1);
        let cur = busy_ids(r, now, n);
        assert forall|a: int, b: int| 0 <= a < b < cur.len() implies cur[a] < cur[b] by {
            if b < prev.len() {
                assert(cur[a] == prev[a] && cur[b] == prev[b]);
            } else {
                let j = choose|j: int| a <= j < n - 1 && r.ids[j] == prev[a];
                assert(r.ids[j] < r.ids[n - 1]);
            }
        }
        assert forall|a: int| 0 <= a < cur.len() implies #[trigger] cur[a] < r.next_id by {
            if a < prev.len() {
                assert(cur[a] == prev[a]);
            } else {
                assert(cur[a] == r.ids[n - 1]);
            }
        }
    }
}

impl ConnectionManager {
    /// Drop every connection that has been idle for longer than its idle
    /// timeout allows. The ids of the connections dropped come back: their
    /// streams are to be shut down, and no close frame is sent on them.
    pub fn sweep_idle(&mut self, now: u64) -> (evicted: Vec<u64>)
        requires
            old(self).wf(),
        ensures
            final(self).wf(),
            evicted@ == idle_ids(old(self)@, now, old(self)@.ids.len() as int),
            final(self)@ == (RegistryView {
                ids: busy_ids(old(self)@, now, old(self)@.ids.len() as int),
                connections: busy_connections(old(self)@, now, old(self)@.ids.len() as int),
                stats: old(self)@.stats.closed(
                    CloseReason::Timeout,
                    evicted@.len(),
                    (old(self)@.ids.len() - evicted@.len()) as usize,
                ),
                ..old(self)@
            }),
    {
        let ghost before = self@;
        let ghost total = before.ids.len() as int;
        let ghost mut k: int = 0;
        let mut evicted: Vec<u64> = Vec::new();
        let mut i: usize = 0;
        while i < self.connection_count()
            invariant
                self.rep(),
                before.wf(),
                total == before.ids.len(),
                0 <= k <= total,
                i <= self@.ids.len(),
                self@.ids.len() - i == total - k,
                i == busy_ids(before, now, k).len(),
                self@.ids =~= busy_ids(before, now, k) + before.ids.skip(k),
                self@.connections =~= busy_connections(before, now, k) + before.connections.skip(
                    k,
                ),
                evicted@ == idle_ids(before, now, k),
                self@.next_id == before.next_id,
                self@.max_connections == before.max_connections,
                self@.stats == before.stats,
                self@.cleanup_interval == before.cleanup_interval,
            decreases total - k,
        {
            proof {
                lemma_busy_and_idle(before, now, k);
            }
            let ghost here = self@;
            assert(here.connections[i as int] == before.connections[k]);
            assert(here.ids[i as int] == before.ids[k]);
            let idle = match self.connection_at(i) {
                Some(connection) => connection.is_timed_out(now),
                None => false,
            };
            if idle {
                let (id, _) = self.remove_at(i);
                evicted.push(id);
            } else {
                i += 1;
            }
            proof {
                k = k + 1;
                lemma_busy_and_idle(before, now, k);
            }
        }
        proof {
            lemma_busy_and_idle(before, now, total);
            lemma_busy_ids_grow(before, now, total);
        }
        self.record_closed(CloseReason::Timeout, evicted.len());
        evicted
    }
}

} // verus!
