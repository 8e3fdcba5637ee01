//! Delegated outbound HTTP.
//!
//! Some outbound HTTP cannot be made from this process; the facade instead
//! parks the request under a fresh `req_id`, emits a `makehttpreq`
//! notification toward the connected client, and lets the client stream the
//! response back: one `httpheaders` follow-up with the status and headers,
//! then any number of `httpbody` segments, the last marked `complete`. The
//! frame with `complete` finalizes the request and removes it from the map.

use vstd::prelude::*;

use crate::ids::{next_message_id, MessageIdCounter};
use crate::protocol::{HttpBodyParams, HttpHeadersParams, HttpRequestParams};

verus! {

/// A delegated request awaiting its response.
pub struct DelegatedHttpRequest {
    url: String,
    method: &'static str,
    initial: Option<(u16, Vec<(String, String)>)>,
    body: Vec<u8>,
}

impl DelegatedHttpRequest {
    /// The URL the client was asked to fetch.
    pub closed spec fn url_chars(self) -> Seq<char> {
        self.url@
    }

    /// The HTTP method of the delegated request.
    pub closed spec fn method_chars(self) -> Seq<char> {
        self.method@
    }

    /// Whether the `httpheaders` follow-up has arrived. It fires at most
    /// once: later `httpheaders` frames for the same request are ignored.
    pub closed spec fn has_initial(self) -> bool {
        self.initial is Some
    }

    /// The status and headers the client reported.
    pub closed spec fn initial_response(self) -> Option<(u16, Vec<(String, String)>)> {
        self.initial
    }

    /// The body segments received so far, concatenated in arrival order.
    pub closed spec fn body_bytes(self) -> Seq<u8> {
        self.body@
    }
}

/// A finished delegated response, handed back when the `complete` segment
/// arrives. `initial` is `None` if the client never sent `httpheaders`.
#[derive(Debug, PartialEq, Eq)]
pub struct DelegatedResponse {
    pub initial: Option<(u16, Vec<(String, String)>)>,
    pub body: Vec<u8>,
}

struct Entry {
    id: u32,
    req: DelegatedHttpRequest,
}

/// The per-connection map of in-flight delegated requests, keyed by the
/// `req_id` announced in the `makehttpreq` notification.
pub struct DelegatedHttp {
    entries: Vec<Entry>,
}

impl DelegatedHttp {
    /// Well-formed: a `req_id` identifies at most one in-flight request.
    pub closed spec fn wf(self) -> bool {
        forall|j: int, l: int|
            #![trigger self.entries@[j].id, self.entries@[l].id]
            0 <= j < l < self.entries@.len() ==> self.entries@[j].id != self.entries@[l].id
    }

    /// Every in-flight `req_id` was drawn from the counter: all are below its
    /// next value. This is what keeps freshly allocated ids out of the map.
    pub closed spec fn bounded(self, next_id: u32) -> bool {
        forall|j: int| 0 <= j < self.entries@.len() ==> #[trigger] self.entries@[j].id < next_id
    }

    /// How many requests are in flight.
    pub closed spec fn count(self) -> int {
        self.entries@.len() as int
    }

    /// Whether a request is in flight under `id`.
    pub closed spec fn contains(self, id: u32) -> bool {
        exists|k: int| 0 <= k < self.entries@.len() && #[trigger] self.entries@[k].id == id
    }

    /// The index of the in-flight request under `id`.
    pub closed spec fn at(self, id: u32) -> int {
        choose|k: int| 0 <= k < self.entries@.len() && #[trigger] self.entries@[k].id == id
    }

    /// The in-flight request under `id`.
    pub closed spec fn entry(self, id: u32) -> DelegatedHttpRequest {
        self.entries@[self.at(id)].req
    }

    proof fn lemma_at(self, k: int)
        requires
            self.wf(),
            0 <= k < self.entries@.len(),
        ensures
            self.contains(self.entries@[k].id),
            self.at(self.entries@[k].id) == k,
    {
        let id = self.entries@[k].id;
        assert(self.entries@[k].id == id);
        assert(self.contains(id));
        let k2 = self.at(id);
        assert(0 <= k2 < self.entries@.len() && self.entries@[k2].id == id);
        if k2 < k {
            assert(self.entries@[k2].id != self.entries@[k].id);
        }
        if k < k2 {
            assert(self.entries@[k].id != self.entries@[k2].id);
        }
    }

    /// Replacing the entry at one index, id unchanged, leaves every other
    /// entry alone.
    proof fn lemma_update_at(pre: DelegatedHttp, post: DelegatedHttp, k: int)
        requires
            pre.wf(),
            0 <= k < pre.entries@.len(),
            post.entries@.len() == pre.entries@.len(),
            forall|x: int|
                0 <= x < pre.entries@.len() && x != k ==> post.entries@[x] == pre.entries@[x],
            post.entries@[k].id == pre.entries@[k].id,
        ensures
            post.wf(),
            pre.contains(pre.entries@[k].id),
            post.contains(pre.entries@[k].id),
            pre.at(pre.entries@[k].id) == k,
            post.at(pre.entries@[k].id) == k,
            forall|id: u32| post.contains(id) == pre.contains(id),
            forall|id: u32|
                id != pre.entries@[k].id && pre.contains(id) ==> post.entry(id) == pre.entry(id),
    {
        assert forall|x: int|
            0 <= x < post.entries@.len() implies #[trigger] post.entries@[x].id
            == pre.entries@[x].id by {
            if x != k {
                assert(post.entries@[x] == pre.entries@[x]);
            }
        }
        assert forall|j: int, l: int|
            #![trigger post.entries@[j].id, post.entries@[l].id]
            0 <= j < l < post.entries@.len() implies post.entries@[j].id
            != post.entries@[l].id by {
            assert(pre.entries@[j].id != pre.entries@[l].id);
        }
        pre.lemma_at(k);
        post.lemma_at(k);
        assert forall|id: u32| post.contains(id) == pre.contains(id) by {
            if post.contains(id) {
                let k2 = post.at(id);
                assert(0 <= k2 < post.entries@.len() && post.entries@[k2].id == id);
                assert(pre.entries@[k2].id == id);
                assert(pre.contains(id));
            }
            if pre.contains(id) {
                let k2 = pre.at(id);
                assert(0 <= k2 < pre.entries@.len() && pre.entries@[k2].id == id);
                assert(post.entries@[k2].id == id);
                assert(post.contains(id));
            }
        }
        assert forall|id: u32|
            id != pre.entries@[k].id && pre.contains(id) implies post.entry(id) == pre.entry(
            id,
        ) by {
            let k2 = pre.at(id);
            assert(0 <= k2 < pre.entries@.len() && pre.entries@[k2].id == id);
            pre.lemma_at(k2);
            assert(post.entries@[k2] == pre.entries@[k2]);
            post.lemma_at(k2);
        }
    }

    /// An empty map.
    pub fn new() -> (r: DelegatedHttp)
        ensures
            r.wf(),
            r.count() == 0,
            forall|id: u32| !r.contains(id),
            forall|next: u32| r.bounded(next),
    {
        DelegatedHttp { entries: Vec::new() }
    }

    /// Starts a delegated request: allocates a fresh `req_id` from the
    /// counter, parks an empty entry under it, and returns the parameters of
    /// the `makehttpreq` notification to emit. The returned id was not in the
    /// map, by the freshness invariant `bounded`.
    ///
    /// The counter wraps at `u32::MAX`; a process never issues 2^32 requests,
    /// so the precondition excludes the wrap instead of reasoning past it.
    #[verifier::loop_isolation(false)]
    pub fn make_http_request(
        &mut self,
        counter: &mut MessageIdCounter,
        url: String,
        method: &'static str,
    ) -> (r: HttpRequestParams)
        requires
            old(self).wf(),
            old(self).bounded(old(counter).value),
            old(counter).value < u32::MAX,
        ensures
            final(self).wf(),
            final(self).bounded(final(counter).value),
            final(counter).value == old(counter).value + 1,
            r.req_id == old(counter).value,
            r.url == url,
            r.method == method,
            !old(self).contains(r.req_id),
            final(self).contains(r.req_id),
            final(self).entry(r.req_id).url_chars() == url@,
            final(self).entry(r.req_id).method_chars() == method@,
            !final(self).entry(r.req_id).has_initial(),
            final(self).entry(r.req_id).body_bytes() == Seq::<u8>::empty(),
            final(self).count() == old(self).count() + 1,
            forall|id: u32| id != r.req_id ==> final(self).contains(id) == old(self).contains(id),
            forall|id: u32|
                id != r.req_id && old(self).contains(id) ==> final(self).entry(id) == old(
                    self,
                ).entry(id),
    {
        let req_id = next_message_id(counter);
        proof {
            if self.contains(req_id) {
                let k2 = self.at(req_id);
                assert(0 <= k2 < self.entries@.len() && self.entries@[k2].id == req_id);
            }
        }
        let ghost pre = *self;
        let entry = Entry {
            id: req_id,
            req: DelegatedHttpRequest {
                url: url.clone(),
                method,
                initial: None,
                body: Vec::new(),
            },
        };
        self.entries.push(entry);
        proof {
            let len = pre.entries@.len() as int;
            assert(self.entries@ == pre.entries@.push(entry));
            assert forall|j: int, l: int|
                #![trigger self.entries@[j].id, self.entries@[l].id]
                0 <= j < l < self.entries@.len() implies self.entries@[j].id
                != self.entries@[l].id by {
                if l < len {
                    assert(pre.entries@[j].id != pre.entries@[l].id);
                } else {
                    assert(self.entries@[l] == entry);
                    assert(pre.entries@[j].id < req_id);
                }
            }
            assert(self.entries@[len].id == req_id);
            assert(self.contains(req_id));
            self.lemma_at(len);
            assert forall|j: int| 0 <= j < self.entries@.len() implies #[trigger] self.entries@[j].id
                < counter.value by {
                if j < len {
                    assert(pre.entries@[j].id < req_id);
                }
            }
            assert forall|id: u32| id != req_id implies self.contains(id) == pre.contains(id) by {
                if self.contains(id) {
                    let k2 = self.at(id);
                    assert(0 <= k2 < self.entries@.len() && self.entries@[k2].id == id);
                    assert(k2 != len);
                    assert(pre.entries@[k2].id == id);
                    assert(pre.contains(id));
                }
                if pre.contains(id) {
                    let k2 = pre.at(id);
                    assert(0 <= k2 < pre.entries@.len() && pre.entries@[k2].id == id);
                    assert(self.entries@[k2].id == id);
                    assert(self.contains(id));
                }
            }
            assert forall|id: u32|
                id != req_id && pre.contains(id) implies self.entry(id) == pre.entry(id) by {
                let k2 = pre.at(id);
                assert(0 <= k2 < pre.entries@.len() && pre.entries@[k2].id == id);
                pre.lemma_at(k2);
                assert(self.entries@[k2].id == id);
                self.lemma_at(k2);
            }
        }
        HttpRequestParams { url, method, req_id }
    }

    /// Feeds the `httpheaders` follow-up of a delegated response. The first
    /// such frame fixes the status and headers; later ones, and frames for
    /// unknown ids, change nothing.
    #[verifier::loop_isolation(false)]
    pub fn handle_http_headers(&mut self, params: &HttpHeadersParams)
        requires
            old(self).wf(),
        ensures
            final(self).wf(),
            final(self).count() == old(self).count(),
            forall|id: u32| final(self).contains(id) == old(self).contains(id),
            forall|next: u32| old(self).bounded(next) ==> final(self).bounded(next),
            !old(self).contains(params.req_id) ==> *final(self) == *old(self),
            forall|id: u32|
                id != params.req_id && old(self).contains(id) ==> final(self).entry(id) == old(
                    self,
                ).entry(id),
            old(self).contains(params.req_id) && old(self).entry(params.req_id).has_initial()
                ==> final(self).entry(params.req_id) == old(self).entry(params.req_id),
            old(self).contains(params.req_id) && !old(self).entry(params.req_id).has_initial()
                ==> {
                let e = final(self).entry(params.req_id);
                &&& e.has_initial()
                &&& e.initial_response() matches Some((status, headers)) && status
                    == params.status_code && headers@ == params.headers@
                &&& e.body_bytes() == old(self).entry(params.req_id).body_bytes()
                &&& e.url_chars() == old(self).entry(params.req_id).url_chars()
                &&& e.method_chars() == old(self).entry(params.req_id).method_chars()
            },
    {
        let n = self.entries.len();
        let mut k: usize = 0;
        while k < n
            invariant
                n == self.entries@.len(),
                k <= n,
                self == old(self),
                forall|j: int| 0 <= j < k ==> #[trigger] self.entries@[j].id != params.req_id,
            decreases n - k,
        {
            if self.entries[k].id == params.req_id {
                let ghost pre = *self;
                let mut e = self.entries.remove(k);
                if e.req.initial.is_none() {
                    e.req.initial = Some((params.status_code, clone_headers(&params.headers)));
                }
                self.entries.insert(k, e);
                proof {
                    assert(self.entries@ =~= pre.entries@.update(k as int, e));
                    assert(pre.entries@[k as int].id == params.req_id);
                    Self::lemma_update_at(pre, *self, k as int);
                    assert forall|j: int|
                        0 <= j < self.entries@.len() implies #[trigger] self.entries@[j].id
                        == pre.entries@[j].id by {
                        if j != k as int {
                            assert(self.entries@[j] == pre.entries@[j]);
                        }
                    }
                }
                return ;
            }
            k = k + 1;
        }
        proof {
            if old(self).contains(params.req_id) {
                let k2 = old(self).at(params.req_id);
                assert(0 <= k2 < self.entries@.len() && self.entries@[k2].id == params.req_id);
            }
        }
    }

    /// Feeds one `httpbody` follow-up: appends the segment to the body and,
    /// when the frame is marked `complete`, finalizes the request — the entry
    /// leaves the map and the accumulated response is returned. Frames for
    /// unknown ids change nothing.
    #[verifier::loop_isolation(false)]
    pub fn handle_http_body(&mut self, params: &HttpBodyParams) -> (r: Option<DelegatedResponse>)
        requires
            old(self).wf(),
        ensures
            final(self).wf(),
            forall|next: u32| old(self).bounded(next) ==> final(self).bounded(next),
            !old(self).contains(params.req_id) ==> *final(self) == *old(self) && r is None,
            forall|id: u32|
                id != params.req_id && old(self).contains(id) ==> final(self).contains(id)
                    && final(self).entry(id) == old(self).entry(id),
            forall|id: u32|
                id != params.req_id ==> final(self).contains(id) == old(self).contains(id),
            old(self).contains(params.req_id) && !params.complete ==> {
                &&& r is None
                &&& final(self).contains(params.req_id)
                &&& final(self).count() == old(self).count()
                &&& final(self).entry(params.req_id).body_bytes() == old(self).entry(
                    params.req_id,
                ).body_bytes() + params.segment@
                &&& final(self).entry(params.req_id).initial_response() == old(self).entry(
                    params.req_id,
                ).initial_response()
                &&& final(self).entry(params.req_id).url_chars() == old(self).entry(
                    params.req_id,
                ).url_chars()
                &&& final(self).entry(params.req_id).method_chars() == old(self).entry(
                    params.req_id,
                ).method_chars()
            },
            old(self).contains(params.req_id) && params.complete ==> {
                &&& r matches Some(resp) && resp.initial == old(self).entry(
                    params.req_id,
                ).initial_response() && resp.body@ == old(self).entry(params.req_id).body_bytes()
                    + params.segment@
                &&& !final(self).contains(params.req_id)
                &&& final(self).count() == old(self).count() - 1
            },
    {
        let n = self.entries.len();
        let mut k: usize = 0;
        while k < n
            invariant
                n == self.entries@.len(),
                k <= n,
                self == old(self),
                forall|j: int| 0 <= j < k ==> #[trigger] self.entries@[j].id != params.req_id,
            decreases n - k,
        {
            if self.entries[k].id == params.req_id {
                let ghost pre = *self;
                let mut e = self.entries.remove(k);
                append_bytes(&mut e.req.body, &params.segment);
                if params.complete {
                    proof {
                        assert(self.entries@ =~= pre.entries@.remove(k as int));
                        assert(pre.entries@[k as int].id == params.req_id);
                        pre.lemma_at(k as int);
                        assert forall|j: int, l: int|
                            #![trigger self.entries@[j].id, self.entries@[l].id]
                            0 <= j < l < self.entries@.len() implies self.entries@[j].id
                            != self.entries@[l].id by {
                            if l < k as int {
                                assert(pre.entries@[j].id != pre.entries@[l].id);
                            } else if j < k as int {
                                assert(pre.entries@[j].id != pre.entries@[l + 1].id);
                            } else {
                                assert(pre.entries@[j + 1].id != pre.entries@[l + 1].id);
                            }
                        }
                        assert forall|j: int|
                            0 <= j < self.entries@.len() implies #[trigger] self.entries@[j].id
                            != params.req_id by {
                            if j < k as int {
                                assert(pre.entries@[j].id != pre.entries@[k as int].id);
                            } else {
                                assert(pre.entries@[k as int].id != pre.entries@[j + 1].id);
                            }
                        }
                        if self.contains(params.req_id) {
                            let k2 = self.at(params.req_id);
                            assert(0 <= k2 < self.entries@.len() && self.entries@[k2].id
                                == params.req_id);
                        }
                        assert forall|id: u32|
                            id != params.req_id && pre.contains(id) implies self.contains(id)
                            && self.entry(id) == pre.entry(id) by {
                            let k2 = pre.at(id);
                            assert(0 <= k2 < pre.entries@.len() && pre.entries@[k2].id == id);
                            pre.lemma_at(k2);
                            if k2 < k as int {
                                assert(self.entries@[k2] == pre.entries@[k2]);
                                self.lemma_at(k2);
                            } else {
                                assert(k2 > k as int);
                                assert(self.entries@[k2 - 1] == pre.entries@[k2]);
                                self.lemma_at(k2 - 1);
                            }
                        }
                        assert forall|id: u32|
                            id != params.req_id && self.contains(id) implies pre.contains(id) by {
                            let k2 = self.at(id);
                            assert(0 <= k2 < self.entries@.len() && self.entries@[k2].id == id);
                            if k2 < k as int {
                                assert(pre.entries@[k2].id == id);
                            } else {
                                assert(pre.entries@[k2 + 1].id == id);
                            }
                            assert(pre.contains(id));
                        }
                    }
                    return Some(DelegatedResponse { initial: e.req.initial, body: e.req.body });
                } else {
                    self.entries.insert(k, e);
                    proof {
                        assert(self.entries@ =~= pre.entries@.update(k as int, e));
                        assert(pre.entries@[k as int].id == params.req_id);
                        Self::lemma_update_at(pre, *self, k as int);
                        assert forall|j: int|
                            0 <= j < self.entries@.len() implies #[trigger] self.entries@[j].id
                            == pre.entries@[j].id by {
                            if j != k as int {
                                assert(self.entries@[j] == pre.entries@[j]);
                            }
                        }
                    }
                    return None;
                }
            }
            k = k + 1;
        }
        proof {
            if old(self).contains(params.req_id) {
                let k2 = old(self).at(params.req_id);
                assert(0 <= k2 < self.entries@.len() && self.entries@[k2].id == params.req_id);
            }
        }
        None
    }

    /// Drops every in-flight request: on connection teardown nothing stays
    /// parked.
    pub fn dispose(&mut self)
        ensures
            final(self).wf(),
            final(self).count() == 0,
            forall|id: u32| !final(self).contains(id),
    {
        self.entries = Vec::new();
    }
}

/// Copies header pairs for the parked entry.
fn clone_headers(headers: &Vec<(String, String)>) -> (r: Vec<(String, String)>)
    ensures
        r@ == headers@,
{
    let mut out: Vec<(String, String)> = Vec::new();
    let mut i: usize = 0;
    while i < headers.len()
        invariant
            i <= headers@.len(),
            out@ == headers@.subrange(0, i as int),
        decreases headers@.len() - i,
    {
        let p = &headers[i];
        let pair = (p.0.clone(), p.1.clone());
        proof {
            assert(pair == headers@[i as int]);
        }
        out.push(pair);
        i = i + 1;
        assert(out@ =~= headers@.subrange(0, i as int));
    }
    proof {
        assert(headers@.subrange(0, headers@.len() as int) =~= headers@);
    }
    out
}

/// Appends `data` to `buf` in order.
fn append_bytes(buf: &mut Vec<u8>, data: &Vec<u8>)
    ensures
        final(buf)@ == old(buf)@ + data@,
{
    let mut i: usize = 0;
    while i < data.len()
        invariant
            i <= data@.len(),
            buf@ == old(buf)@ + data@.subrange(0, i as int),
        decreases data@.len() - i,
    {
        buf.push(data[i]);
        i = i + 1;
        assert(buf@ =~= old(buf)@ + data@.subrange(0, i as int));
    }
    proof {
        assert(data@.subrange(0, data@.len() as int) =~= data@);
    }
}

} // verus!
