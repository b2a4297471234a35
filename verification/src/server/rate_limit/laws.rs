//! What holds of admitting and releasing: the limiter stays well formed,
//! connections are conserved, and a refusal spends nothing.

use crate::server::rate_limit::{
    current_window, has_connections, LimiterView, open_connections, recent,
};
use vstd::prelude::*;

verus! {

/// One step in the life of a peer: it asks to be admitted at some time,
/// or one of its connections is closed.
pub enum PeerStep {
    Admit(u64),
    Release,
}

impl LimiterView {
    /// The limiter after the steps of `steps` were taken by `peer`.
    pub open spec fn after_steps(self, peer: u128, steps: Seq<PeerStep>) -> LimiterView
        decreases steps.len(),
    {
        if steps.len() == 0 {
            self
        } else {
            let before = self.after_steps(peer, steps.drop_last());
            match steps.last() {
                PeerStep::Admit(now) => before.admitted(peer, now).0,
                PeerStep::Release => before.released(peer),
            }
        }
    }

    /// The number of admissions among `steps` that were granted, less the
    /// number of releases.
    pub open spec fn balance(self, peer: u128, steps: Seq<PeerStep>) -> int
        decreases steps.len(),
    {
        if steps.len() == 0 {
            0
        } else {
            let before = self.after_steps(peer, steps.drop_last());
            let rest = self.balance(peer, steps.drop_last());
            match steps.last() {
                PeerStep::Admit(now) => if before.admitted(peer, now).1 {
                    rest + 1
                } else {
                    rest
                },
                PeerStep::Release => rest - 1,
            }
        }
    }

    /// Whether no connection is released in `steps` that was not admitted
    /// before.
    pub open spec fn releases_follow_admissions(self, peer: u128, steps: Seq<PeerStep>) -> bool {
        forall|n: int| 0 <= n <= steps.len() ==> #[trigger] self.balance(peer, steps.take(n)) >= 0
    }
}

/// Admitting a peer and releasing a connection keep the limiter well
/// formed and its configuration as it is, and change the number of the
/// peer's connections by one or not at all.
pub proof fn lemma_steps_keep_wf(v: LimiterView, peer: u128, now: u64)
    requires
        v.wf(),
    ensures
        v.admitted(peer, now).0.wf(),
        v.admitted(peer, now).0.config == v.config,
        v.released(peer).wf(),
        v.released(peer).config == v.config,
        open_connections(v.admitted(peer, now).0.connections, peer) == open_connections(
            v.connections,
            peer,
        ) + (if v.admitted(peer, now).1 {
            1int
        } else {
            0int
        }),
        open_connections(v.released(peer).connections, peer) == (if has_connections(
            v.connections,
            peer,
        ) {
            open_connections(v.connections, peer) - 1
        } else {
            0int
        }),
{
    let a = v.admitted(peer, now).0;
    let r = v.released(peer);
    assert(a.wf()) by {
        assert forall|p: u128| #[trigger] a.connections.dom().contains(p) implies 0
            < a.connections[p] <= a.config.max_connections by {
            if p != peer {
                assert(v.connections.dom().contains(p));
            } else if v.connections.dom().contains(p) {
                assert(0 < v.connections[p]);
            }
        }
    }
    assert(r.wf()) by {
        assert forall|p: u128| #[trigger] r.connections.dom().contains(p) implies 0
            < r.connections[p] <= r.config.max_connections by {
            assert(v.connections.dom().contains(p));
        }
    }
    if has_connections(v.connections, peer) {
        assert(0 < v.connections[peer]);
    }
}

/// Connections are conserved: for a peer that starts without a connection
/// counter, the counter always shows the admissions granted less the
/// releases, it never shows more than a peer may have, and when as many
/// connections were released as were admitted the peer has no counter
/// left.
pub proof fn lemma_conservation(v: LimiterView, peer: u128, steps: Seq<PeerStep>)
    requires
        v.wf(),
        !has_connections(v.connections, peer),
        v.releases_follow_admissions(peer, steps),
    ensures
        v.after_steps(peer, steps).wf(),
        v.after_steps(peer, steps).config == v.config,
        open_connections(v.after_steps(peer, steps).connections, peer) == v.balance(peer, steps),
        v.balance(peer, steps) <= v.config.max_connections,
        v.balance(peer, steps) == 0 ==> !has_connections(
            v.after_steps(peer, steps).connections,
            peer,
        ),
        v.balance(peer, steps) > 0 ==> has_connections(
            v.after_steps(peer, steps).connections,
            peer,
        ),
    decreases steps.len(),
{
    if steps.len() > 0 {
        let shorter = steps.drop_last();
        assert forall|n: int| 0 <= n <= shorter.len() implies #[trigger] v.balance(
            peer,
            shorter.take(n),
        ) >= 0 by {
            assert(shorter.take(n) =~= steps.take(n));
        }
        lemma_conservation(v, peer, shorter);
        let before = v.after_steps(peer, shorter);
        assert(steps.take(steps.len() as int) =~= steps);
        assert(v.balance(peer, steps) >= 0);
        match steps.last() {
            PeerStep::Admit(now) => {
                lemma_steps_keep_wf(before, peer, now);
            },
            PeerStep::Release => {
                lemma_steps_keep_wf(before, peer, 0);
            },
        }
        let after = v.after_steps(peer, steps);
        if has_connections(after.connections, peer) {
            assert(after.connections.dom().contains(peer));
        }
    }
}

/// A peer that is turned away has spent nothing: its request counter
/// counts what it counted before, in the window that is current, and its
/// connections are as many as before.
pub proof fn lemma_refusal_spends_nothing(v: LimiterView, peer: u128, now: u64)
    requires
        v.wf(),
        !v.admitted(peer, now).1,
    ensures
        v.admitted(peer, now).0.connections == v.connections,
        current_window(v.admitted(peer, now).0.requests, peer, v.config.window, now)
            == current_window(v.requests, peer, v.config.window, now),
{
}

/// Cleaning up leaves the counters that are still of use as they are, and
/// no others.
pub proof fn lemma_recent(v: LimiterView, now: u64)
    requires
        v.wf(),
    ensures
        (LimiterView { requests: recent(v.requests, v.config.window, now), ..v }).wf(),
        recent(v.requests, v.config.window, now).dom().subset_of(v.requests.dom()),
{
    let r = recent(v.requests, v.config.window, now);
    assert(r.dom().subset_of(v.requests.dom()));
    vstd::set_lib::lemma_len_subset(r.dom(), v.requests.dom());
}

} // verus!
