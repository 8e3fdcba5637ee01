//! The server multiplexer and its bridges.
//!
//! A bridge adapts one client-facing logical socket, keyed by a client-chosen
//! `socket_id`, to the embedded editor server's local socket. The multiplexer
//! is the per-connection registry of bridges. Bytes for one bridge are
//! committed to its ordered queue in the order the `servermsg` calls were
//! dispatched; the process drains the queue to the editor server in that
//! order. Order is load-bearing: when compression is on, the stateful codecs
//! on either side of the stream would be corrupted by any reordering.

use vstd::prelude::*;

use crate::errors::RpcError;
use crate::protocol::{EmptyObject, ServerMessageParams};

verus! {

/// One attached bridge: the ordered byte queue toward the editor server,
/// under the client's `socket_id`. When `compress` is set, bodies are gzip
/// streams; the codec sits in the stream adapters outside this library, and
/// what the bridge guarantees is exactly what that codec needs — delivery in
/// dispatch order.
pub struct ServerBridge {
    socket_id: u16,
    compress: bool,
    queue: Vec<u8>,
    drained: Ghost<Seq<u8>>,
}

impl ServerBridge {
    /// The id the client chose for this bridge.
    pub closed spec fn id(self) -> u16 {
        self.socket_id
    }

    /// Whether bodies on this bridge are gzip streams.
    pub closed spec fn compressed(self) -> bool {
        self.compress
    }

    /// Every byte ever committed to this bridge, in dispatch order.
    pub closed spec fn committed(self) -> Seq<u8> {
        self.drained@ + self.queue@
    }

    /// Bytes committed but not yet handed to the editor-server socket.
    pub closed spec fn pending(self) -> Seq<u8> {
        self.queue@
    }

    /// A fresh bridge with an empty queue.
    pub fn new(socket_id: u16, compress: bool) -> (r: ServerBridge)
        ensures
            r.id() == socket_id,
            r.compressed() == compress,
            r.committed() == Seq::<u8>::empty(),
            r.pending() == Seq::<u8>::empty(),
    {
        let r = ServerBridge {
            socket_id,
            compress,
            queue: Vec::new(),
            drained: Ghost(Seq::empty()),
        };
        proof {
            assert(r.committed() =~= Seq::<u8>::empty());
        }
        r
    }

    /// Commits one `servermsg` body to the ordered queue.
    pub fn write(&mut self, body: &[u8])
        ensures
            final(self).id() == old(self).id(),
            final(self).compressed() == old(self).compressed(),
            final(self).committed() == old(self).committed() + body@,
            final(self).pending() == old(self).pending() + body@,
    {
        let mut i: usize = 0;
        while i < body.len()
            invariant
                i <= body@.len(),
                self.queue@ == old(self).queue@ + body@.subrange(0, i as int),
                self.socket_id == old(self).socket_id,
                self.compress == old(self).compress,
                self.drained@ == old(self).drained@,
            decreases body@.len() - i,
        {
            self.queue.push(body[i]);
            i = i + 1;
            assert(self.queue@ =~= old(self).queue@ + body@.subrange(0, i as int));
        }
        proof {
            assert(body@.subrange(0, body@.len() as int) =~= body@);
            assert(self.committed() =~= old(self).committed() + body@);
        }
    }

    /// Hands the queued bytes out for delivery to the editor-server socket
    /// and empties the queue. What was committed stays committed: the queue's
    /// contents move, in order, into the drained history.
    pub fn drain(&mut self) -> (r: Vec<u8>)
        ensures
            r@ == old(self).pending(),
            final(self).pending() == Seq::<u8>::empty(),
            final(self).committed() == old(self).committed(),
            final(self).id() == old(self).id(),
            final(self).compressed() == old(self).compressed(),
    {
        proof {
            self.drained@ = self.drained@ + self.queue@;
        }
        let r = self.queue.split_off(0);
        proof {
            assert(r@ =~= old(self).queue@);
            assert(self.queue@ =~= Seq::<u8>::empty());
            assert(self.committed() =~= old(self).committed());
        }
        r
    }
}

/// How a write to the registry's view changes it: appending to the keyed
/// bridge's bytes when the key is present, and nothing otherwise.
pub open spec fn spec_write(m: Map<u16, Seq<u8>>, i: u16, body: Seq<u8>) -> Map<u16, Seq<u8>> {
    if m.contains_key(i) {
        m.insert(i, m[i] + body)
    } else {
        m
    }
}

/// A sequence of `servermsg` dispatches, applied in order.
pub open spec fn spec_write_all(m: Map<u16, Seq<u8>>, ops: Seq<(u16, Seq<u8>)>) -> Map<
    u16,
    Seq<u8>,
>
    decreases ops.len(),
{
    if ops.len() == 0 {
        m
    } else {
        spec_write(spec_write_all(m, ops.drop_last()), ops.last().0, ops.last().1)
    }
}

/// The bodies among `ops` addressed to bridge `i`, concatenated in dispatch
/// order.
pub open spec fn bodies_for(ops: Seq<(u16, Seq<u8>)>, i: u16) -> Seq<u8>
    decreases ops.len(),
{
    if ops.len() == 0 {
        Seq::empty()
    } else if ops.last().0 == i {
        bodies_for(ops.drop_last(), i) + ops.last().1
    } else {
        bodies_for(ops.drop_last(), i)
    }
}

/// Ordered delivery: after any sequence of `servermsg` dispatches, the bytes
/// committed toward the editor server for bridge `i` are the bytes it had
/// before, followed by exactly the dispatched bodies addressed to `i`, in
/// dispatch order. Writes never create or remove a bridge.
pub proof fn lemma_ordered_delivery(m: Map<u16, Seq<u8>>, ops: Seq<(u16, Seq<u8>)>, i: u16)
    ensures
        spec_write_all(m, ops).contains_key(i) == m.contains_key(i),
        m.contains_key(i) ==> spec_write_all(m, ops)[i] == m[i] + bodies_for(ops, i),
    decreases ops.len(),
{
    if ops.len() == 0 {
        if m.contains_key(i) {
            assert(m[i] + bodies_for(ops, i) =~= m[i]);
        }
    } else {
        lemma_ordered_delivery(m, ops.drop_last(), i);
        lemma_ordered_delivery(m, ops.drop_last(), ops.last().0);
        if m.contains_key(i) && ops.last().0 == i {
            assert(m[i] + bodies_for(ops.drop_last(), i) + ops.last().1 =~= m[i] + (bodies_for(
                ops.drop_last(),
                i,
            ) + ops.last().1));
        }
    }
}

/// The registry of bridges on one connection. Invariant: a `socket_id`
/// identifies at most one bridge.
pub struct ServerMultiplexer {
    bridges: Vec<ServerBridge>,
}

impl ServerMultiplexer {
    /// Well-formed: no two bridges share a `socket_id`.
    pub closed spec fn wf(self) -> bool {
        forall|j: int, l: int|
            #![trigger self.bridges@[j].id(), self.bridges@[l].id()]
            0 <= j < l < self.bridges@.len() ==> self.bridges@[j].id() != self.bridges@[l].id()
    }

    /// How many bridges are attached.
    pub closed spec fn bridge_count(self) -> int {
        self.bridges@.len() as int
    }

    /// Whether a bridge is registered under `id`.
    pub closed spec fn has_bridge(self, id: u16) -> bool {
        exists|k: int| 0 <= k < self.bridges@.len() && #[trigger] self.bridges@[k].id() == id
    }

    /// The index of the bridge registered under `id`.
    pub closed spec fn bridge_at(self, id: u16) -> int {
        choose|k: int| 0 <= k < self.bridges@.len() && #[trigger] self.bridges@[k].id() == id
    }

    /// Every byte committed toward the editor server for bridge `id`, in
    /// dispatch order.
    pub closed spec fn committed(self, id: u16) -> Seq<u8> {
        self.bridges@[self.bridge_at(id)].committed()
    }

    /// Bytes committed for bridge `id` and not yet drained.
    pub closed spec fn pending(self, id: u16) -> Seq<u8> {
        self.bridges@[self.bridge_at(id)].pending()
    }

    /// Whether the bridge under `id` carries gzip streams.
    pub closed spec fn compressed(self, id: u16) -> bool {
        self.bridges@[self.bridge_at(id)].compressed()
    }

    /// The registry as a map from `socket_id` to the committed bytes.
    pub open spec fn view_map(self) -> Map<u16, Seq<u8>> {
        Map::new(|id: u16| self.has_bridge(id), |id: u16| self.committed(id))
    }

    /// The bridge at a live index is the one found under its id.
    proof fn lemma_at(self, k: int)
        requires
            self.wf(),
            0 <= k < self.bridges@.len(),
        ensures
            self.has_bridge(self.bridges@[k].id()),
            self.bridge_at(self.bridges@[k].id()) == k,
    {
        let id = self.bridges@[k].id();
        assert(self.bridges@[k].id() == id);
        assert(self.has_bridge(id));
        let k2 = self.bridge_at(id);
        assert(0 <= k2 < self.bridges@.len() && self.bridges@[k2].id() == id);
        if k2 < k {
            assert(self.bridges@[k2].id() != self.bridges@[k].id());
        }
        if k < k2 {
            assert(self.bridges@[k].id() != self.bridges@[k2].id());
        }
    }

    /// Replacing the bridge at one index, id unchanged, leaves the registry's
    /// shape alone: the same ids are present, at the same places, and every
    /// other bridge is untouched.
    proof fn lemma_update_at(pre: ServerMultiplexer, post: ServerMultiplexer, k: int)
        requires
            pre.wf(),
            0 <= k < pre.bridges@.len(),
            post.bridges@.len() == pre.bridges@.len(),
            forall|x: int|
                0 <= x < pre.bridges@.len() && x != k ==> post.bridges@[x] == pre.bridges@[x],
            post.bridges@[k].id() == pre.bridges@[k].id(),
        ensures
            post.wf(),
            pre.has_bridge(pre.bridges@[k].id()),
            post.has_bridge(pre.bridges@[k].id()),
            pre.bridge_at(pre.bridges@[k].id()) == k,
            post.bridge_at(pre.bridges@[k].id()) == k,
            forall|id: u16| post.has_bridge(id) == pre.has_bridge(id),
            forall|id: u16|
                id != pre.bridges@[k].id() && pre.has_bridge(id) ==> post.committed(id)
                    == pre.committed(id) && post.pending(id) == pre.pending(id)
                    && post.compressed(id) == pre.compressed(id),
    {
        let kid = pre.bridges@[k].id();
        assert forall|x: int|
            0 <= x < post.bridges@.len() implies #[trigger] post.bridges@[x].id()
            == pre.bridges@[x].id() by {
            if x != k {
                assert(post.bridges@[x] == pre.bridges@[x]);
            }
        }
        assert forall|j: int, l: int|
            #![trigger post.bridges@[j].id(), post.bridges@[l].id()]
            0 <= j < l < post.bridges@.len() implies post.bridges@[j].id()
            != post.bridges@[l].id() by {
            assert(pre.bridges@[j].id() != pre.bridges@[l].id());
        }
        pre.lemma_at(k);
        post.lemma_at(k);
        assert forall|id: u16| post.has_bridge(id) == pre.has_bridge(id) by {
            if post.has_bridge(id) {
                let k2 = post.bridge_at(id);
                assert(0 <= k2 < post.bridges@.len() && post.bridges@[k2].id() == id);
                assert(pre.bridges@[k2].id() == id);
                assert(pre.has_bridge(id));
            }
            if pre.has_bridge(id) {
                let k2 = pre.bridge_at(id);
                assert(0 <= k2 < pre.bridges@.len() && pre.bridges@[k2].id() == id);
                assert(post.bridges@[k2].id() == id);
                assert(post.has_bridge(id));
            }
        }
        assert forall|id: u16|
            id != kid && pre.has_bridge(id) implies post.committed(id) == pre.committed(id)
            && post.pending(id) == pre.pending(id) && post.compressed(id) == pre.compressed(
            id,
        ) by {
            let k2 = pre.bridge_at(id);
            assert(0 <= k2 < pre.bridges@.len() && pre.bridges@[k2].id() == id);
            pre.lemma_at(k2);
            assert(k2 != k);
            assert(post.bridges@[k2] == pre.bridges@[k2]);
            post.lemma_at(k2);
        }
    }

    /// An empty registry.
    pub fn new() -> (r: ServerMultiplexer)
        ensures
            r.wf(),
            r.bridge_count() == 0,
            forall|id: u16| !r.has_bridge(id),
    {
        ServerMultiplexer { bridges: Vec::new() }
    }

    /// Registers a bridge under its `socket_id`. A second registration under
    /// the same id is rejected and changes nothing: re-use of a live id is a
    /// caller error, not a replacement.
    #[verifier::loop_isolation(false)]
    pub fn register(&mut self, bridge: ServerBridge) -> (r: bool)
        requires
            old(self).wf(),
        ensures
            final(self).wf(),
            r == !old(self).has_bridge(bridge.id()),
            r ==> {
                &&& final(self).has_bridge(bridge.id())
                &&& final(self).committed(bridge.id()) == bridge.committed()
                &&& final(self).pending(bridge.id()) == bridge.pending()
                &&& final(self).compressed(bridge.id()) == bridge.compressed()
                &&& final(self).bridge_count() == old(self).bridge_count() + 1
                &&& forall|id: u16|
                    id != bridge.id() ==> final(self).has_bridge(id) == old(self).has_bridge(id)
                &&& forall|id: u16|
                    id != bridge.id() && old(self).has_bridge(id) ==> final(self).committed(id)
                        == old(self).committed(id) && final(self).pending(id) == old(self).pending(
                        id,
                    ) && final(self).compressed(id) == old(self).compressed(id)
            },
            !r ==> *final(self) == *old(self),
    {
        let ghost gid = bridge.id();
        let n = self.bridges.len();
        let mut k: usize = 0;
        while k < n
            invariant
                n == self.bridges@.len(),
                k <= n,
                self == old(self),
                forall|j: int| 0 <= j < k ==> #[trigger] self.bridges@[j].id() != bridge.id(),
            decreases n - k,
        {
            if self.bridges[k].socket_id == bridge.socket_id {
                proof {
                    assert(self.bridges@[k as int].id() == gid);
                    assert(old(self).has_bridge(gid));
                }
                return false;
            }
            k = k + 1;
        }
        proof {
            if old(self).has_bridge(gid) {
                let k2 = old(self).bridge_at(gid);
                assert(0 <= k2 < self.bridges@.len() && self.bridges@[k2].id() == gid);
            }
        }
        let ghost pre = *self;
        self.bridges.push(bridge);
        proof {
            let len = pre.bridges@.len() as int;
            assert(self.bridges@ == pre.bridges@.push(bridge));
            assert forall|j: int, l: int|
                #![trigger self.bridges@[j].id(), self.bridges@[l].id()]
                0 <= j < l < self.bridges@.len() implies self.bridges@[j].id()
                != self.bridges@[l].id() by {
                if l < len {
                    assert(pre.bridges@[j].id() != pre.bridges@[l].id());
                } else {
                    assert(self.bridges@[l] == bridge);
                    assert(pre.bridges@[j].id() != gid);
                }
            }
            assert(self.bridges@[len].id() == gid);
            assert(self.has_bridge(gid));
            self.lemma_at(len);
            assert forall|id: u16| id != gid implies self.has_bridge(id) == pre.has_bridge(id) by {
                if self.has_bridge(id) {
                    let k2 = self.bridge_at(id);
                    assert(0 <= k2 < self.bridges@.len() && self.bridges@[k2].id() == id);
                    assert(k2 != len);
                    assert(pre.bridges@[k2].id() == id);
                    assert(pre.has_bridge(id));
                }
                if pre.has_bridge(id) {
                    let k2 = pre.bridge_at(id);
                    assert(0 <= k2 < pre.bridges@.len() && pre.bridges@[k2].id() == id);
                    assert(self.bridges@[k2].id() == id);
                    assert(self.has_bridge(id));
                }
            }
            assert forall|id: u16|
                id != gid && pre.has_bridge(id) implies self.committed(id) == pre.committed(id)
                && self.pending(id) == pre.pending(id) && self.compressed(id) == pre.compressed(
                id,
            ) by {
                let k2 = pre.bridge_at(id);
                assert(0 <= k2 < pre.bridges@.len() && pre.bridges@[k2].id() == id);
                pre.lemma_at(k2);
                assert(self.bridges@[k2].id() == id);
                self.lemma_at(k2);
            }
        }
        true
    }

    /// Commits `body` to the bridge registered under `i`, preserving
    /// dispatch order. Returns false, changing nothing, when no bridge is
    /// registered under `i`.
    #[verifier::loop_isolation(false)]
    pub fn write_message(&mut self, i: u16, body: &[u8]) -> (r: bool)
        requires
            old(self).wf(),
        ensures
            final(self).wf(),
            r == old(self).has_bridge(i),
            final(self).view_map() == spec_write(old(self).view_map(), i, body@),
            r ==> {
                &&& final(self).committed(i) == old(self).committed(i) + body@
                &&& final(self).pending(i) == old(self).pending(i) + body@
                &&& final(self).bridge_count() == old(self).bridge_count()
                &&& forall|id: u16| final(self).has_bridge(id) == old(self).has_bridge(id)
                &&& forall|id: u16|
                    old(self).has_bridge(id) ==> final(self).compressed(id) == old(self).compressed(id)
                &&& forall|id: u16|
                    id != i && old(self).has_bridge(id) ==> final(self).committed(id) == old(self).committed(id) && final(self).pending(id) == old(self).pending(id)
            },
            !r ==> *final(self) == *old(self),
    {
        let n = self.bridges.len();
        let mut k: usize = 0;
        while k < n
            invariant
                n == self.bridges@.len(),
                k <= n,
                self == old(self),
                forall|j: int| 0 <= j < k ==> #[trigger] self.bridges@[j].id() != i,
            decreases n - k,
        {
            if self.bridges[k].socket_id == i {
                let ghost pre = *self;
                let mut b = self.bridges.remove(k);
                b.write(body);
                self.bridges.insert(k, b);
                proof {
                    assert(self.bridges@ =~= pre.bridges@.update(k as int, b));
                    assert(pre.bridges@[k as int].id() == i);
                    Self::lemma_update_at(pre, *self, k as int);
                    assert(self.bridges@[k as int] == b);
                    assert(self.compressed(i) == pre.compressed(i));
                    assert(self.view_map() =~= spec_write(pre.view_map(), i, body@));
                }
                return true;
            }
            k = k + 1;
        }
        proof {
            if old(self).has_bridge(i) {
                let k2 = old(self).bridge_at(i);
                assert(0 <= k2 < self.bridges@.len() && self.bridges@[k2].id() == i);
            }
            assert(self.view_map() =~= spec_write(old(self).view_map(), i, body@));
        }
        false
    }

    /// Drains the queued bytes of the bridge under `i` for delivery, or
    /// `None` if there is none.
    #[verifier::loop_isolation(false)]
    pub fn drain_bridge(&mut self, i: u16) -> (r: Option<Vec<u8>>)
        requires
            old(self).wf(),
        ensures
            final(self).wf(),
            r is Some == old(self).has_bridge(i),
            r matches Some(v) ==> {
                &&& v@ == old(self).pending(i)
                &&& final(self).pending(i) == Seq::<u8>::empty()
                &&& final(self).committed(i) == old(self).committed(i)
                &&& final(self).bridge_count() == old(self).bridge_count()
                &&& forall|id: u16| final(self).has_bridge(id) == old(self).has_bridge(id)
                &&& forall|id: u16|
                    old(self).has_bridge(id) ==> final(self).compressed(id) == old(self).compressed(id)
                &&& forall|id: u16|
                    id != i && old(self).has_bridge(id) ==> final(self).committed(id) == old(self).committed(id) && final(self).pending(id) == old(self).pending(id)
            },
            r is None ==> *final(self) == *old(self),
    {
        let n = self.bridges.len();
        let mut k: usize = 0;
        while k < n
            invariant
                n == self.bridges@.len(),
                k <= n,
                self == old(self),
                forall|j: int| 0 <= j < k ==> #[trigger] self.bridges@[j].id() != i,
            decreases n - k,
        {
            if self.bridges[k].socket_id == i {
                let ghost pre = *self;
                let mut b = self.bridges.remove(k);
                let out = b.drain();
                self.bridges.insert(k, b);
                proof {
                    assert(self.bridges@ =~= pre.bridges@.update(k as int, b));
                    assert(pre.bridges@[k as int].id() == i);
                    Self::lemma_update_at(pre, *self, k as int);
                    assert(self.bridges@[k as int] == b);
                    assert(self.compressed(i) == pre.compressed(i));
                }
                return Some(out);
            }
            k = k + 1;
        }
        proof {
            if old(self).has_bridge(i) {
                let k2 = old(self).bridge_at(i);
                assert(0 <= k2 < self.bridges@.len() && self.bridges@[k2].id() == i);
            }
        }
        None
    }

    /// Reads whether the bridge under `i` carries gzip streams, or `None` if
    /// no bridge is registered under `i`.
    #[verifier::loop_isolation(false)]
    pub fn bridge_compressed(&self, i: u16) -> (r: Option<bool>)
        requires
            self.wf(),
        ensures
            r is Some == self.has_bridge(i),
            r matches Some(c) ==> c == self.compressed(i),
    {
        let n = self.bridges.len();
        let mut k: usize = 0;
        while k < n
            invariant
                n == self.bridges@.len(),
                k <= n,
                forall|j: int| 0 <= j < k ==> #[trigger] self.bridges@[j].id() != i,
            decreases n - k,
        {
            if self.bridges[k].socket_id == i {
                proof {
                    self.lemma_at(k as int);
                }
                return Some(self.bridges[k].compress);
            }
            k = k + 1;
        }
        proof {
            if self.has_bridge(i) {
                let k2 = self.bridge_at(i);
                assert(0 <= k2 < self.bridges@.len() && self.bridges@[k2].id() == i);
            }
        }
        None
    }

    /// Closes the one bridge under `i`: a bridge error removes only that
    /// bridge, the connection and the other bridges stay. Returns whether a
    /// bridge stood under `i`.
    #[verifier::loop_isolation(false)]
    pub fn remove(&mut self, i: u16) -> (r: bool)
        requires
            old(self).wf(),
        ensures
            final(self).wf(),
            r == old(self).has_bridge(i),
            !final(self).has_bridge(i),
            r ==> final(self).bridge_count() == old(self).bridge_count() - 1,
            forall|id: u16| id != i ==> final(self).has_bridge(id) == old(self).has_bridge(id),
            forall|id: u16|
                id != i && old(self).has_bridge(id) ==> final(self).committed(id) == old(self).committed(id) && final(self).pending(id) == old(self).pending(id) && final(self).compressed(id) == old(self).compressed(id),
            !r ==> *final(self) == *old(self),
    {
        let n = self.bridges.len();
        let mut k: usize = 0;
        while k < n
            invariant
                n == self.bridges@.len(),
                k <= n,
                self == old(self),
                forall|j: int| 0 <= j < k ==> #[trigger] self.bridges@[j].id() != i,
            decreases n - k,
        {
            if self.bridges[k].socket_id == i {
                let ghost pre = *self;
                let _ = self.bridges.remove(k);
                proof {
                    assert(self.bridges@ =~= pre.bridges@.remove(k as int));
                    assert(pre.bridges@[k as int].id() == i);
                    pre.lemma_at(k as int);
                    assert forall|j: int, l: int|
                        #![trigger self.bridges@[j].id(), self.bridges@[l].id()]
                        0 <= j < l < self.bridges@.len() implies self.bridges@[j].id()
                        != self.bridges@[l].id() by {
                        if l < k as int {
                            assert(pre.bridges@[j].id() != pre.bridges@[l].id());
                        } else if j < k as int {
                            assert(pre.bridges@[j].id() != pre.bridges@[l + 1].id());
                        } else {
                            assert(pre.bridges@[j + 1].id() != pre.bridges@[l + 1].id());
                        }
                    }
                    assert forall|j: int|
                        0 <= j < self.bridges@.len() implies #[trigger] self.bridges@[j].id()
                        != i by {
                        if j < k as int {
                            assert(pre.bridges@[j].id() != pre.bridges@[k as int].id());
                        } else {
                            assert(pre.bridges@[k as int].id() != pre.bridges@[j + 1].id());
                        }
                    }
                    if self.has_bridge(i) {
                        let k2 = self.bridge_at(i);
                        assert(0 <= k2 < self.bridges@.len() && self.bridges@[k2].id() == i);
                    }
                    assert forall|id: u16|
                        id != i && pre.has_bridge(id) implies self.has_bridge(id) && self.committed(
                        id,
                    ) == pre.committed(id) && self.pending(id) == pre.pending(id)
                        && self.compressed(id) == pre.compressed(id) by {
                        let k2 = pre.bridge_at(id);
                        assert(0 <= k2 < pre.bridges@.len() && pre.bridges@[k2].id() == id);
                        pre.lemma_at(k2);
                        if k2 < k as int {
                            assert(self.bridges@[k2] == pre.bridges@[k2]);
                            self.lemma_at(k2);
                        } else {
                            assert(k2 > k as int);
                            assert(self.bridges@[k2 - 1] == pre.bridges@[k2]);
                            self.lemma_at(k2 - 1);
                        }
                    }
                    assert forall|id: u16|
                        id != i && self.has_bridge(id) implies pre.has_bridge(id) by {
                        let k2 = self.bridge_at(id);
                        assert(0 <= k2 < self.bridges@.len() && self.bridges@[k2].id() == id);
                        if k2 < k as int {
                            assert(pre.bridges@[k2].id() == id);
                        } else {
                            assert(pre.bridges@[k2 + 1].id() == id);
                        }
                        assert(pre.has_bridge(id));
                    }
                }
                return true;
            }
            k = k + 1;
        }
        proof {
            if old(self).has_bridge(i) {
                let k2 = old(self).bridge_at(i);
                assert(0 <= k2 < self.bridges@.len() && self.bridges@[k2].id() == i);
            }
        }
        false
    }

    /// The number of bridges standing under `id`.
    pub closed spec fn id_count(self, id: u16) -> nat {
        count_ids(self.bridges@, id)
    }

    /// Closes every bridge: the registry is empty afterwards.
    pub fn dispose(&mut self)
        ensures
            final(self).wf(),
            final(self).bridge_count() == 0,
            forall|id: u16| !final(self).has_bridge(id),
    {
        self.bridges = Vec::new();
    }
}

/// How many elements of `s` carry the id.
spec fn count_ids(s: Seq<ServerBridge>, id: u16) -> nat
    decreases s.len(),
{
    if s.len() == 0 {
        0
    } else {
        count_ids(s.drop_last(), id) + (if s.last().id() == id {
            1nat
        } else {
            0nat
        })
    }
}

proof fn lemma_count_unique(s: Seq<ServerBridge>, id: u16)
    requires
        forall|j: int, l: int|
            #![trigger s[j].id(), s[l].id()]
            0 <= j < l < s.len() ==> s[j].id() != s[l].id(),
    ensures
        count_ids(s, id) == if exists|k: int|
            0 <= k < s.len() && #[trigger] s[k].id() == id {
            1nat
        } else {
            0nat
        },
    decreases s.len(),
{
    if s.len() > 0 {
        let pre = s.drop_last();
        assert forall|j: int, l: int|
            #![trigger pre[j].id(), pre[l].id()]
            0 <= j < l < pre.len() implies pre[j].id() != pre[l].id() by {
            assert(s[j].id() != s[l].id());
        }
        lemma_count_unique(pre, id);
        let last = s.len() - 1;
        if s.last().id() == id {
            assert(s[last].id() == id);
            if exists|k: int| 0 <= k < pre.len() && #[trigger] pre[k].id() == id {
                let k = choose|k: int| 0 <= k < pre.len() && #[trigger] pre[k].id() == id;
                assert(s[k].id() == id);
                assert(s[k].id() != s[last].id());
                assert(false);
            }
        } else {
            if exists|k: int| 0 <= k < s.len() && #[trigger] s[k].id() == id {
                let k = choose|k: int| 0 <= k < s.len() && #[trigger] s[k].id() == id;
                assert(k < last);
                assert(pre[k].id() == id);
            }
            if exists|k: int| 0 <= k < pre.len() && #[trigger] pre[k].id() == id {
                let k = choose|k: int| 0 <= k < pre.len() && #[trigger] pre[k].id() == id;
                assert(s[k].id() == id);
            }
        }
    }
}

/// A `socket_id` identifies exactly one bridge: in a well-formed registry a
/// registered id stands over one bridge and an unregistered one over none.
/// Together with `register`, which turns a second registration under a live
/// id away, this is what a successful `serve` leaves behind.
pub proof fn lemma_bridge_unique(m: ServerMultiplexer, id: u16)
    requires
        m.wf(),
    ensures
        m.has_bridge(id) ==> m.id_count(id) == 1,
        !m.has_bridge(id) ==> m.id_count(id) == 0,
{
    lemma_count_unique(m.bridges@, id);
}

/// Handle an incoming server message. This runs synchronously in the
/// dispatcher so that bodies are committed to the bridge's ordered queue in
/// dispatch order, which the compression framing depends on. Fails with
/// `NoAttachedServer` when no bridge is registered under `params.i`.
pub fn handle_server_message(multiplexer: &mut ServerMultiplexer, params: &ServerMessageParams) -> (r:
    Result<EmptyObject, RpcError>)
    requires
        old(multiplexer).wf(),
    ensures
        final(multiplexer).wf(),
        r is Ok == old(multiplexer).has_bridge(params.i),
        final(multiplexer).view_map() == spec_write(
            old(multiplexer).view_map(),
            params.i,
            params.body@,
        ),
        r is Ok ==> final(multiplexer).committed(params.i) == old(multiplexer).committed(params.i)
            + params.body@,
        r is Err ==> r == Result::<EmptyObject, RpcError>::Err(RpcError::NoAttachedServer)
            && *final(multiplexer) == *old(multiplexer),
{
    if multiplexer.write_message(params.i, params.body.as_slice()) {
        Ok(EmptyObject {})
    } else {
        Err(RpcError::NoAttachedServer)
    }
}

} // verus!
