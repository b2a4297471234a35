//! Sending one message to many connections.

use crate::connection::model::{ConnectionView, outgoing, send_answer};
use crate::error::Error;
use crate::frame::wire::wire_bytes;
use crate::message::{Message, MessageView};
use crate::server::manager::{
    CloseReason, ConnectionManager, Delivery, lemma_slot, RegistryView,
};
use vstd::prelude::*;
use vstd::slice::slice_to_vec;

verus! {

/// Whether a broadcast of `m` goes to the connection `c` with the id
/// `id`: the connection is not the one left out, and it can send.
pub open spec fn is_target(c: ConnectionView, id: u64, m: MessageView, exclude: Option<u64>)
    -> bool {
    exclude != Some(id) && c.send_fault(m, [0u8, 0u8, 0u8, 0u8]) is None
}

/// What a broadcast of `m` hands to the caller for the first `n`
/// connections: for each target, in order, its id and the frame that
/// carries `m`, masked with the key of that connection if the connection is
/// the client's end.
pub open spec fn deliveries_to(
    r: RegistryView,
    m: MessageView,
    exclude: Option<u64>,
    keys: Seq<[u8; 4]>,
    n: int,
) -> Seq<(u64, Seq<u8>)>
    decreases n,
{
    if n <= 0 {
        Seq::empty()
    } else {
        let rest = deliveries_to(r, m, exclude, keys, n - 1);
        if is_target(r.connections[n - 1], r.ids[n - 1], m, exclude) {
            rest.push(
                (r.ids[n - 1], wire_bytes(outgoing(m, r.connections[n - 1].role, keys[n - 1]))),
            )
        } else {
            rest
        }
    }
}

/// The connections after a broadcast of `m` at time `now`: every target
/// has sent `m`, every other connection is as it was.
pub open spec fn after_broadcast(
    r: RegistryView,
    m: MessageView,
    exclude: Option<u64>,
    keys: Seq<[u8; 4]>,
    now: u64,
) -> Seq<ConnectionView> {
    Seq::new(
        r.connections.len(),
        |i: int|
            if is_target(r.connections[i], r.ids[i], m, exclude) {
                r.connections[i].after_send(m, keys[i], now)
            } else {
                r.connections[i]
            },
    )
}

/// The deliveries `d` are those of `v`.
pub open spec fn deliveries_are(d: Seq<Delivery>, v: Seq<(u64, Seq<u8>)>) -> bool {
    &&& d.len() == v.len()
    &&& forall|k: int| 0 <= k < d.len() ==> (#[trigger] d[k]).id == v[k].0 && d[k].bytes@ == v[k].1
}

/// What a broadcast of `m` with the masking keys `keys` does: it hands out
/// the deliveries to the targets and leaves the registry as it was but for
/// the targets, which have sent.
pub open spec fn broadcast_done(
    before: RegistryView,
    after: RegistryView,
    d: Seq<Delivery>,
    m: MessageView,
    exclude: Option<u64>,
    keys: Seq<[u8; 4]>,
    now: u64,
) -> bool {
    &&& keys.len() == before.ids.len()
    &&& after == (RegistryView {
        connections: after_broadcast(before, m, exclude, keys, now),
        ..before
    })
    &&& deliveries_are(d, deliveries_to(before, m, exclude, keys, before.ids.len() as int))
}

/// A broadcast never delivers to the connection that it leaves out, and
/// delivers to registered connections only.
pub proof fn lemma_broadcast_excludes(
    r: RegistryView,
    m: MessageView,
    exclude: Option<u64>,
    keys: Seq<[u8; 4]>,
    n: int,
)
    requires
        0 <= n <= r.ids.len(),
        r.ids.len() == r.connections.len(),
    ensures
        forall|k: int|
            0 <= k < deliveries_to(r, m, exclude, keys, n).len() ==> exclude != Some(
                (#[trigger] deliveries_to(r, m, exclude, keys, n)[k]).0,
            ) && r.ids.contains(deliveries_to(r, m, exclude, keys, n)[k].0),
    decreases n,
{
    if n > 0 {
        lemma_broadcast_excludes(r, m, exclude, keys, n - 1);
        let rest = deliveries_to(r, m, exclude, keys, n - 1);
        let all = deliveries_to(r, m, exclude, keys, n);
        assert forall|k: int| 0 <= k < all.len() implies exclude != Some((#[trigger] all[k]).0)
            && r.ids.contains(all[k].0) by {
            if k < rest.len() {
                assert(all[k] == rest[k]);
            } else {
                assert(all[k].0 == r.ids[n - 1]);
            }
        }
    }
}

impl ConnectionManager {
    /// Send `message` on the connection at `index`, masked with `key` if
    /// that connection is the client's end.
    fn send_at(&mut self, index: usize, message: Message, key: [u8; 4], now: u64) -> (r: Result<
        Vec<u8>,
        Error,
    >)
        requires
            old(self).rep(),
            index < old(self)@.ids.len(),
        ensures
            final(self).rep(),
            final(self)@ == (RegistryView {
                connections: old(self)@.connections.update(
                    index as int,
                    old(self)@.connections[index as int].after_send(message@, key, now),
                ),
                ..old(self)@
            }),
            send_answer(
                r,
                old(self)@.connections[index as int].send_fault(message@, key),
                wire_bytes(outgoing(message@, old(self)@.connections[index as int].role, key)),
            ),
    {
        let ghost before = self@;
        let id = self.id_at(index);
        proof {
            lemma_slot(*self, index as int);
        }
        let mut c = match self.take(id) {
            Some(c) => c,
            None => {
                return Err(Error::Connection("NotFound".to_string()));
            },
        };
        let r = c.send_with_key(message, key, now);
        let ghost after = c@;
        self.put(id, c);
        assert(self@.connections =~= before.connections.update(index as int, after));
        r
    }

    /// Send a message to every target of a broadcast; `text` says whether
    /// the payload is sent as a text or as binary data.
    fn broadcast(
        &mut self,
        payload: &[u8],
        text: Option<&str>,
        shutdown: bool,
        exclude: Option<u64>,
        now: u64,
    ) -> (d: Vec<Delivery>)
        requires
            old(self).wf(),
        ensures
            final(self).wf(),
            exists|keys: Seq<[u8; 4]>| #[trigger]
                broadcast_done(
                    old(self)@,
                    final(self)@,
                    d@,
                    broadcast_message(payload@, text, shutdown),
                    exclude,
                    keys,
                    now,
                ),
            forall|k: int| 0 <= k < d@.len() ==> exclude != Some((#[trigger] d@[k]).id),
    {
        let ghost before = self@;
        let ghost m = broadcast_message(payload@, text, shutdown);
        let ghost mut keys: Seq<[u8; 4]> = Seq::empty();
        let mut deliveries: Vec<Delivery> = Vec::new();
        let mut i: usize = 0;
        while i < self.connection_count()
            invariant
                self.rep(),
                i <= self@.ids.len(),
                before.wf(),
                m == broadcast_message(payload@, text, shutdown),
                keys.len() == i,
                self@.ids == before.ids,
                self@.next_id == before.next_id,
                self@.max_connections == before.max_connections,
                self@.stats == before.stats,
                self@.cleanup_interval == before.cleanup_interval,
                self@.connections.len() == before.connections.len(),
                forall|j: int|
                    0 <= j < i ==> #[trigger] self@.connections[j] == (if is_target(
                        before.connections[j],
                        before.ids[j],
                        m,
                        exclude,
                    ) {
                        before.connections[j].after_send(m, keys[j], now)
                    } else {
                        before.connections[j]
                    }),
                forall|j: int|
                    i <= j < self@.connections.len() ==> #[trigger] self@.connections[j]
                        == before.connections[j],
                deliveries_are(deliveries@, deliveries_to(before, m, exclude, keys, i as int)),
            decreases self@.ids.len() - i,
        {
            let ghost here = self@;
            let ghost old_keys = keys;
            let ghost old_deliveries = deliveries@;
            let id = self.id_at(i);
            assert(id == before.ids[i as int]);
            let excluded = match exclude {
                Some(x) => x == id,
                None => false,
            };
            let key = crate::random::random_mask_key();
            proof {
                keys = keys.push(key);
                lemma_deliveries_ignore_later_keys(before, m, exclude, old_keys, keys, i as int);
                lemma_send_fault_any_key(before.connections[i as int], m, key, now);
            }
            if !excluded {
                let message = if shutdown {
                    Message::close(Some(1001), Some("Server shutdown".to_string()))
                } else {
                    match text {
                        Some(t) => Message::text(t),
                        None => Message::binary(slice_to_vec(payload)),
                    }
                };
                assert(message@ == m);
                let r = self.send_at(i, message, key, now);
                match r {
                    Ok(bytes) => {
                        deliveries.push(Delivery { id, bytes });
                    },
                    Err(_) => {},
                }
            }
            proof {
                let target = is_target(before.connections[i as int], id, m, exclude);
                let c = before.connections[i as int];
                assert(here.connections[i as int] == c);
                assert(self@.connections[i as int] == (if target {
                    c.after_send(m, key, now)
                } else {
                    c
                }));
                assert forall|j: int| 0 <= j < i + 1 implies #[trigger] self@.connections[j] == (
                if is_target(before.connections[j], before.ids[j], m, exclude) {
                    before.connections[j].after_send(m, keys[j], now)
                } else {
                    before.connections[j]
                }) by {
                    if j < i {
                        assert(self@.connections[j] == here.connections[j]);
                        assert(keys[j] == old_keys[j]);
                    }
                }
                assert forall|j: int|
                    i + 1 <= j < self@.connections.len() implies #[trigger] self@.connections[j]
                    == before.connections[j] by {
                    assert(self@.connections[j] == here.connections[j]);
                }
                let want = deliveries_to(before, m, exclude, keys, i + 1);
                let prev = deliveries_to(before, m, exclude, keys, i as int);
                assert(deliveries_are(old_deliveries, prev));
                if target {
                    assert(want == prev.push((id, wire_bytes(outgoing(m, c.role, key)))));
                    assert(deliveries@ == old_deliveries.push(
                        deliveries@[old_deliveries.len() as int],
                    ));
                } else {
                    assert(want == prev);
                    assert(deliveries@ == old_deliveries);
                }
                assert(deliveries_are(deliveries@, want));
            }
            i += 1;
        }
        proof {
            assert(self@.connections =~= after_broadcast(before, m, exclude, keys, now));
            assert(broadcast_done(before, self@, deliveries@, m, exclude, keys, now));
            lemma_broadcast_excludes(before, m, exclude, keys, before.ids.len() as int);
        }
        deliveries
    }

    /// Send a text message to every connection that can send, but for the
    /// connection `exclude`. Sending is best effort: a connection that
    /// cannot send is passed over and stays registered.
    pub fn broadcast_text(&mut self, text: &str, exclude: Option<u64>, now: u64) -> (d: Vec<
        Delivery,
    >)
        requires
            old(self).wf(),
        ensures
            final(self).wf(),
            exists|keys: Seq<[u8; 4]>| #[trigger]
                broadcast_done(
                    old(self)@,
                    final(self)@,
                    d@,
                    MessageView::Text(text@),
                    exclude,
                    keys,
                    now,
                ),
            forall|k: int| 0 <= k < d@.len() ==> exclude != Some((#[trigger] d@[k]).id),
    {
        self.broadcast(text.as_bytes(), Some(text), false, exclude, now)
    }

    /// Send a binary message to every connection that can send, but for
    /// the connection `exclude`
    pub fn broadcast_binary(&mut self, data: &[u8], exclude: Option<u64>, now: u64) -> (d: Vec<
        Delivery,
    >)
        requires
            old(self).wf(),
        ensures
            final(self).wf(),
            exists|keys: Seq<[u8; 4]>| #[trigger]
                broadcast_done(
                    old(self)@,
                    final(self)@,
                    d@,
                    MessageView::Binary(data@),
                    exclude,
                    keys,
                    now,
                ),
            forall|k: int| 0 <= k < d@.len() ==> exclude != Some((#[trigger] d@[k]).id),
    {
        self.broadcast(data, None, false, exclude, now)
    }
}

/// The message of a broadcast: a text, or binary data.
pub open spec fn broadcast_message(payload: Seq<u8>, text: Option<&str>, shutdown: bool)
    -> MessageView {
    if shutdown {
        shutdown_message()
    } else {
        match text {
            Some(t) => MessageView::Text(t@),
            None => MessageView::Binary(payload),
        }
    }
}

/// The close message that a server sends to its connections when it shuts
/// down: code 1001, going away.
pub open spec fn shutdown_message() -> MessageView {
    MessageView::Close { code: Some(1001u16), reason: "Server shutdown"@ }
}

impl ConnectionManager {
    /// Close all connections: the close message of a shutdown is sent on
    /// every connection that can send, and the registry is emptied
    pub fn close_all_connections(&mut self, now: u64) -> (d: Vec<Delivery>)
        requires
            old(self).wf(),
        ensures
            final(self).wf(),
            final(self)@ == (RegistryView {
                ids: Seq::empty(),
                connections: Seq::empty(),
                stats: old(self)@.stats.closed(CloseReason::Normal, old(self)@.ids.len(), 0),
                ..old(self)@
            }),
            exists|keys: Seq<[u8; 4]>|
                keys.len() == old(self)@.ids.len() && deliveries_are(
                    d@,
                    #[trigger] deliveries_to(
                        old(self)@,
                        shutdown_message(),
                        None,
                        keys,
                        old(self)@.ids.len() as int,
                    ),
                ),
    {
        let ghost before = self@;
        let empty: [u8; 0] = [];
        let d = self.broadcast(empty.as_slice(), None, true, None, now);
        proof {
            let keys = choose|keys: Seq<[u8; 4]>| #[trigger]
                broadcast_done(before, self@, d@, shutdown_message(), None, keys, now);
            assert(deliveries_are(
                d@,
                deliveries_to(before, shutdown_message(), None, keys, before.ids.len() as int),
            ));
        }
        let count = self.connection_count();
        self.remove_all();
        self.record_closed(CloseReason::Normal, count);
        d
    }
}

/// Whether a message can be sent does not depend on the masking key.
pub proof fn lemma_send_fault_any_key(c: ConnectionView, m: MessageView, key: [u8; 4], now: u64)
    ensures
        c.send_fault(m, key) is None <==> c.send_fault(m, [0u8, 0u8, 0u8, 0u8]) is None,
        c.send_fault(m, key) is Some ==> c.after_send(m, key, now) == c,
{
}

/// The deliveries to the first `n` connections depend on the keys of those
/// connections only.
pub proof fn lemma_deliveries_ignore_later_keys(
    r: RegistryView,
    m: MessageView,
    exclude: Option<u64>,
    keys: Seq<[u8; 4]>,
    more: Seq<[u8; 4]>,
    n: int,
)
    requires
        0 <= n <= keys.len() <= more.len(),
        forall|i: int| 0 <= i < n ==> keys[i] == more[i],
    ensures
        deliveries_to(r, m, exclude, keys, n) == deliveries_to(r, m, exclude, more, n),
    decreases n,
{
    if n > 0 {
        lemma_deliveries_ignore_later_keys(r, m, exclude, keys, more, n - 1);
    }
}

} // verus!
