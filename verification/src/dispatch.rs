//! The RPC dispatcher.
//!
//! A decoded request names a method and carries an optional correlation id;
//! a request without an id is a notification and gets no reply. Synchronous
//! methods are handled here on the spot — `servermsg` deliberately so, since
//! it must commit to the bridge's ordered queue before the dispatcher moves
//! on. Asynchronous methods come back as pending work: the process performs
//! the outside part (installing a server, checking a release, calling the
//! tunnel) and hands the plain-value outcome to the completion function of
//! that method, which builds the reply. Every reply, made here or by a
//! completion function, carries the requesting id back unchanged.

use vstd::prelude::*;

use crate::errors::RpcError;
use crate::handlers::{
    handle_forward, handle_get_hostname, handle_ping, handle_prune, handle_unforward, PrunedServer,
};
use crate::http::{DelegatedHttp, DelegatedResponse};
use crate::multiplexer::{handle_server_message, spec_write, ServerMultiplexer};
use crate::protocol::{
    CallServerHttpParams, CallServerHttpResult, ForwardParams, ForwardResult, GetHostnameResponse,
    HttpBodyParams, HttpHeadersParams, ServeParams, ServerMessageParams, UpdateParams,
    UpdateResult,
};
use crate::protocol::UnforwardParams;
use crate::serve::CodeServerHandle;
use crate::update::DidUpdateFlag;

verus! {

/// A decoded inbound request: which method, with its parameters.
pub enum RequestMethod {
    Ping,
    GetHostname,
    Serve(ServeParams),
    Update(UpdateParams),
    ServerMsg(ServerMessageParams),
    Prune,
    CallServerHttp(CallServerHttpParams),
    Forward(ForwardParams),
    Unforward(UnforwardParams),
    HttpHeaders(HttpHeadersParams),
    HttpBody(HttpBodyParams),
}

/// One inbound frame, decoded. `id` of `None` marks a notification.
pub struct RpcRequest {
    pub id: Option<u32>,
    pub method: RequestMethod,
}

/// What a reply carries beside the id: the method's result, or the error.
#[derive(Debug, PartialEq, Eq)]
pub enum ReplyBody {
    Empty,
    Hostname(GetHostnameResponse),
    Update(UpdateResult),
    Prune(Vec<String>),
    Forward(ForwardResult),
    ServerHttp(CallServerHttpResult),
    Error(RpcError),
}

/// An outbound reply: the requesting id, unchanged, and the body.
#[derive(Debug, PartialEq, Eq)]
pub struct RpcReply {
    pub id: u32,
    pub body: ReplyBody,
}

/// A reply is owed exactly to requests that carried an id, and it carries
/// that id back unchanged with the given body.
pub open spec fn reply_matches(reply: Option<RpcReply>, id: Option<u32>, body: ReplyBody) -> bool {
    match id {
        Some(i) => reply matches Some(rep) && rep.id == i && rep.body == body,
        None => reply is None,
    }
}

/// Builds the reply owed to `id`: none for a notification.
pub fn make_reply(id: Option<u32>, body: ReplyBody) -> (r: Option<RpcReply>)
    ensures
        reply_matches(r, id, body),
{
    match id {
        Some(i) => Some(RpcReply { id: i, body }),
        None => None,
    }
}

/// Replies to two distinct ids are distinct: correlation ids, not arrival
/// order, pair replies with requests.
pub proof fn lemma_reply_ids_distinct(p1: RpcReply, p2: RpcReply, i1: u32, i2: u32)
    requires
        i1 != i2,
        p1.id == i1,
        p2.id == i2,
    ensures
        p1.id != p2.id,
{
}

/// Everything one connection's handlers share.
pub struct ConnectionState {
    pub multiplexer: ServerMultiplexer,
    pub http_requests: DelegatedHttp,
    pub did_update: DidUpdateFlag,
    pub code_server: Option<CodeServerHandle>,
    /// Whether the binary is embedded in a larger product, which suppresses
    /// self-update.
    pub is_integrated: bool,
}

impl ConnectionState {
    /// Both keyed registries are well-formed.
    pub open spec fn wf(self) -> bool {
        self.multiplexer.wf() && self.http_requests.wf()
    }

    /// A fresh connection: no bridges, no delegated requests, no server, no
    /// update yet.
    pub fn new(is_integrated: bool) -> (r: ConnectionState)
        ensures
            r.wf(),
            r.multiplexer.bridge_count() == 0,
            forall|i: u16| !r.multiplexer.has_bridge(i),
            r.http_requests.count() == 0,
            forall|id: u32| !r.http_requests.contains(id),
            forall|next: u32| r.http_requests.bounded(next),
            !r.did_update.is_set(),
            r.code_server is None,
            r.is_integrated == is_integrated,
    {
        ConnectionState {
            multiplexer: ServerMultiplexer::new(),
            http_requests: DelegatedHttp::new(),
            did_update: DidUpdateFlag::new(),
            code_server: None,
            is_integrated,
        }
    }

    /// Teardown when the connection closes: every bridge is closed and every
    /// in-flight delegated request dropped; nothing stays behind.
    pub fn dispose(&mut self)
        ensures
            final(self).wf(),
            final(self).multiplexer.bridge_count() == 0,
            forall|i: u16| !final(self).multiplexer.has_bridge(i),
            final(self).http_requests.count() == 0,
            forall|id: u32| !final(self).http_requests.contains(id),
            final(self).did_update == old(self).did_update,
            final(self).code_server == old(self).code_server,
            final(self).is_integrated == old(self).is_integrated,
    {
        self.multiplexer.dispose();
        self.http_requests.dispose();
    }
}

/// Outside work a dispatched method still needs, tagged with the id its
/// reply must carry.
pub struct PendingWork {
    pub id: Option<u32>,
    pub work: WorkItem,
}

/// The outside step of each asynchronous method.
pub enum WorkItem {
    /// Resolve, install and start the editor server as `serve` asks, then
    /// call `complete_serve`.
    Serve(ServeParams),
    /// Run the update steps of the `update` module.
    Update(UpdateParams),
    /// Reap stopped server directories, then call `complete_prune`.
    Prune,
    /// Issue the prepared request over the editor server's socket, then call
    /// `complete_call_server_http`.
    CallServerHttp(CallServerHttpParams),
    /// Ask the tunnel to expose the port, then call `complete_forward`.
    Forward(ForwardParams),
    /// Ask the tunnel to stop exposing it, then call `complete_unforward`.
    Unforward(UnforwardParams),
}

/// What handling one frame produced: a finished reply (and, for the frame
/// that completes a delegated response, that response), or pending work.
pub enum DispatchOutcome {
    Done { reply: Option<RpcReply>, completed_http: Option<DelegatedResponse> },
    Pending(PendingWork),
}

/// Routes one decoded frame. Synchronous methods are finished on the spot
/// and their reply carries the requesting id; asynchronous methods become
/// pending work under the same id.
pub fn dispatch(state: &mut ConnectionState, req: RpcRequest) -> (outcome: DispatchOutcome)
    requires
        old(state).wf(),
    ensures
        final(state).wf(),
        final(state).is_integrated == old(state).is_integrated,
        final(state).did_update == old(state).did_update,
        final(state).code_server == old(state).code_server,
        !(req.method is ServerMsg) ==> final(state).multiplexer == old(state).multiplexer,
        !(req.method is HttpHeaders) && !(req.method is HttpBody) ==> final(state).http_requests
            == old(state).http_requests,
        forall|next: u32|
            old(state).http_requests.bounded(next) ==> final(state).http_requests.bounded(next),
        req.method matches RequestMethod::Serve(p) ==> (outcome matches DispatchOutcome::Pending(w)
            && w.id == req.id && w.work == WorkItem::Serve(p)),
        req.method matches RequestMethod::Update(p) ==> (outcome matches DispatchOutcome::Pending(w)
            && w.id == req.id && w.work == WorkItem::Update(p)),
        req.method is Prune ==> (outcome matches DispatchOutcome::Pending(w) && w.id == req.id
            && w.work == WorkItem::Prune),
        req.method matches RequestMethod::CallServerHttp(p) ==> (outcome
            matches DispatchOutcome::Pending(w) && w.id == req.id && w.work
            == WorkItem::CallServerHttp(p)),
        req.method matches RequestMethod::Forward(p) ==> (outcome matches DispatchOutcome::Pending(w)
            && w.id == req.id && w.work == WorkItem::Forward(p)),
        req.method matches RequestMethod::Unforward(p) ==> (outcome
            matches DispatchOutcome::Pending(w) && w.id == req.id && w.work
            == WorkItem::Unforward(p)),
        req.method is Ping ==> (outcome matches DispatchOutcome::Done { reply, completed_http }
            && reply_matches(reply, req.id, ReplyBody::Empty) && completed_http is None),
        req.method is GetHostname ==> (outcome matches DispatchOutcome::Done {
            reply,
            completed_http,
        } && completed_http is None && (match req.id {
            Some(i) => reply matches Some(rep) && rep.id == i && rep.body is Hostname,
            None => reply is None,
        })),
        req.method matches RequestMethod::ServerMsg(m) ==> (outcome
            matches DispatchOutcome::Done { reply, completed_http } && {
            &&& completed_http is None
            &&& final(state).multiplexer.view_map() == spec_write(
                old(state).multiplexer.view_map(),
                m.i,
                m.body@,
            )
            &&& (old(state).multiplexer.has_bridge(m.i) ==> final(state).multiplexer.committed(m.i)
                == old(state).multiplexer.committed(m.i) + m.body@)
            &&& (!old(state).multiplexer.has_bridge(m.i) ==> final(state).multiplexer == old(state).multiplexer)
            &&& reply_matches(
                reply,
                req.id,
                if old(state).multiplexer.has_bridge(m.i) {
                    ReplyBody::Empty
                } else {
                    ReplyBody::Error(RpcError::NoAttachedServer)
                },
            )
        }),
        req.method matches RequestMethod::HttpHeaders(p) ==> (outcome
            matches DispatchOutcome::Done { reply, completed_http } && {
            &&& completed_http is None
            &&& reply_matches(reply, req.id, ReplyBody::Empty)
            &&& final(state).http_requests.count() == old(state).http_requests.count()
            &&& forall|id: u32|
                final(state).http_requests.contains(id) == old(state).http_requests.contains(id)
            &&& forall|id: u32|
                id != p.req_id && old(state).http_requests.contains(id) ==> final(state).http_requests.entry(id) == old(state).http_requests.entry(id)
            &&& (!old(state).http_requests.contains(p.req_id) ==> final(state).http_requests == old(state).http_requests)
            &&& (old(state).http_requests.contains(p.req_id) && !old(state).http_requests.entry(
                p.req_id,
            ).has_initial() ==> {
                let e = final(state).http_requests.entry(p.req_id);
                &&& e.has_initial()
                &&& e.initial_response() matches Some((status, headers)) && status
                    == p.status_code && headers@ == p.headers@
                &&& e.body_bytes() == old(state).http_requests.entry(p.req_id).body_bytes()
            })
            &&& (old(state).http_requests.contains(p.req_id) && old(state).http_requests.entry(
                p.req_id,
            ).has_initial() ==> final(state).http_requests.entry(p.req_id) == old(state).http_requests.entry(p.req_id))
        }),
        req.method matches RequestMethod::HttpBody(p) ==> (outcome matches DispatchOutcome::Done {
            reply,
            completed_http,
        } && {
            &&& reply_matches(reply, req.id, ReplyBody::Empty)
            &&& (!old(state).http_requests.contains(p.req_id) ==> final(state).http_requests
                == old(state).http_requests && completed_http is None)
            &&& forall|id: u32|
                id != p.req_id ==> final(state).http_requests.contains(id) == old(state).http_requests.contains(id)
            &&& forall|id: u32|
                id != p.req_id && old(state).http_requests.contains(id) ==> final(state).http_requests.entry(id) == old(state).http_requests.entry(id)
            &&& (old(state).http_requests.contains(p.req_id) && !p.complete ==> {
                &&& completed_http is None
                &&& final(state).http_requests.contains(p.req_id)
                &&& final(state).http_requests.entry(p.req_id).body_bytes() == old(state).http_requests.entry(p.req_id).body_bytes() + p.segment@
                &&& final(state).http_requests.entry(p.req_id).initial_response() == old(state).http_requests.entry(p.req_id).initial_response()
            })
            &&& (old(state).http_requests.contains(p.req_id) && p.complete ==> {
                &&& completed_http matches Some(resp) && resp.initial == old(state).http_requests.entry(p.req_id).initial_response() && resp.body@ == old(state).http_requests.entry(p.req_id).body_bytes() + p.segment@
                &&& !final(state).http_requests.contains(p.req_id)
                &&& final(state).http_requests.count() == old(state).http_requests.count() - 1
            })
        }),
{
    match req.method {
        RequestMethod::Ping => {
            let body = match handle_ping() {
                Ok(_) => ReplyBody::Empty,
                Err(e) => ReplyBody::Error(e),
            };
            DispatchOutcome::Done { reply: make_reply(req.id, body), completed_http: None }
        },
        RequestMethod::GetHostname => {
            let body = match handle_get_hostname() {
                Ok(h) => ReplyBody::Hostname(h),
                Err(e) => ReplyBody::Error(e),
            };
            DispatchOutcome::Done { reply: make_reply(req.id, body), completed_http: None }
        },
        RequestMethod::ServerMsg(m) => {
            let body = match handle_server_message(&mut state.multiplexer, &m) {
                Ok(_) => ReplyBody::Empty,
                Err(e) => ReplyBody::Error(e),
            };
            DispatchOutcome::Done { reply: make_reply(req.id, body), completed_http: None }
        },
        RequestMethod::HttpHeaders(p) => {
            state.http_requests.handle_http_headers(&p);
            DispatchOutcome::Done {
                reply: make_reply(req.id, ReplyBody::Empty),
                completed_http: None,
            }
        },
        RequestMethod::HttpBody(p) => {
            let completed = state.http_requests.handle_http_body(&p);
            DispatchOutcome::Done {
                reply: make_reply(req.id, ReplyBody::Empty),
                completed_http: completed,
            }
        },
        RequestMethod::Serve(p) => DispatchOutcome::Pending(
            PendingWork { id: req.id, work: WorkItem::Serve(p) },
        ),
        RequestMethod::Update(p) => DispatchOutcome::Pending(
            PendingWork { id: req.id, work: WorkItem::Update(p) },
        ),
        RequestMethod::Prune => DispatchOutcome::Pending(
            PendingWork { id: req.id, work: WorkItem::Prune },
        ),
        RequestMethod::CallServerHttp(p) => DispatchOutcome::Pending(
            PendingWork { id: req.id, work: WorkItem::CallServerHttp(p) },
        ),
        RequestMethod::Forward(p) => DispatchOutcome::Pending(
            PendingWork { id: req.id, work: WorkItem::Forward(p) },
        ),
        RequestMethod::Unforward(p) => DispatchOutcome::Pending(
            PendingWork { id: req.id, work: WorkItem::Unforward(p) },
        ),
    }
}

/// Finishes `update`: the reply carries the result, or the error, under the
/// requesting id.
pub fn complete_update(id: Option<u32>, result: Result<UpdateResult, RpcError>) -> (r: Option<
    RpcReply,
>)
    ensures
        result matches Ok(u) ==> reply_matches(r, id, ReplyBody::Update(u)),
        result matches Err(e) ==> reply_matches(r, id, ReplyBody::Error(e)),
{
    match result {
        Ok(u) => make_reply(id, ReplyBody::Update(u)),
        Err(e) => make_reply(id, ReplyBody::Error(e)),
    }
}

/// Finishes `serve` and `unforward`, whose successes carry no data.
pub fn complete_empty(id: Option<u32>, result: Result<crate::protocol::EmptyObject, RpcError>) -> (r:
    Option<RpcReply>)
    ensures
        result is Ok ==> reply_matches(r, id, ReplyBody::Empty),
        result matches Err(e) ==> reply_matches(r, id, ReplyBody::Error(e)),
{
    match result {
        Ok(_) => make_reply(id, ReplyBody::Empty),
        Err(e) => make_reply(id, ReplyBody::Error(e)),
    }
}

/// Finishes `prune`: the reply lists the reaped directories in order, or
/// carries the error when the walk over the state directories failed.
pub fn complete_prune(id: Option<u32>, outcome: Result<Vec<PrunedServer>, String>) -> (r: Option<
    RpcReply,
>)
    ensures
        outcome matches Ok(pruned) ==> (match id {
            Some(i) => r matches Some(rep) && rep.id == i && (rep.body matches ReplyBody::Prune(v)
                && v@.len() == pruned@.len() && (forall|j: int|
                0 <= j < v@.len() ==> v@[j] == pruned@[j].server_dir)),
            None => r is None,
        }),
        outcome matches Err(m) ==> reply_matches(r, id, ReplyBody::Error(RpcError::PruneFailed(m))),
{
    match outcome {
        Ok(pruned) => match handle_prune(pruned) {
            Ok(v) => make_reply(id, ReplyBody::Prune(v)),
            Err(e) => make_reply(id, ReplyBody::Error(e)),
        },
        Err(m) => make_reply(id, ReplyBody::Error(RpcError::PruneFailed(m))),
    }
}

/// Finishes `forward`: the tunnel's answer becomes the reply.
pub fn complete_forward(id: Option<u32>, outcome: Result<String, String>) -> (r: Option<RpcReply>)
    ensures
        outcome matches Ok(uri) ==> (match id {
            Some(i) => r matches Some(rep) && rep.id == i && (rep.body
                matches ReplyBody::Forward(f) && f.uri == uri),
            None => r is None,
        }),
        outcome matches Err(m) ==> reply_matches(
            r,
            id,
            ReplyBody::Error(RpcError::ForwardingFailed(m)),
        ),
{
    match handle_forward(outcome) {
        Ok(f) => make_reply(id, ReplyBody::Forward(f)),
        Err(e) => make_reply(id, ReplyBody::Error(e)),
    }
}

/// Finishes `unforward`.
pub fn complete_unforward(id: Option<u32>, outcome: Result<(), String>) -> (r: Option<RpcReply>)
    ensures
        outcome is Ok ==> reply_matches(r, id, ReplyBody::Empty),
        outcome matches Err(m) ==> reply_matches(
            r,
            id,
            ReplyBody::Error(RpcError::ForwardingFailed(m)),
        ),
{
    match handle_unforward(outcome) {
        Ok(_) => make_reply(id, ReplyBody::Empty),
        Err(e) => make_reply(id, ReplyBody::Error(e)),
    }
}

/// Finishes `callserverhttp`: the response read from the editor server's
/// socket, or the failure, becomes the reply.
pub fn complete_call_server_http(id: Option<u32>, outcome: Result<CallServerHttpResult, String>) -> (r:
    Option<RpcReply>)
    ensures
        outcome matches Ok(res) ==> reply_matches(r, id, ReplyBody::ServerHttp(res)),
        outcome matches Err(m) ==> reply_matches(
            r,
            id,
            ReplyBody::Error(RpcError::ServerHttpFailed(m)),
        ),
{
    match outcome {
        Ok(res) => make_reply(id, ReplyBody::ServerHttp(res)),
        Err(m) => make_reply(id, ReplyBody::Error(RpcError::ServerHttpFailed(m))),
    }
}

} // verus!
