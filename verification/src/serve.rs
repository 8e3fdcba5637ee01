//! The `serve` handler: lazily start the editor server, then attach a bridge.
//!
//! The first successful `serve` on a connection installs and starts the
//! editor server (or adopts one already running in socket mode) and caches
//! its handle; later `serve` calls on the same connection reuse it. Every
//! successful call then attaches a fresh bridge under the client-chosen
//! `socket_id`. The installing and listening are outside work; the decisions
//! around them live here.

use vstd::prelude::*;

use crate::errors::RpcError;
use crate::multiplexer::{ServerBridge, ServerMultiplexer};
use crate::protocol::{EmptyObject, ServeParams};

verus! {

/// The cached editor server of one connection: where its local socket
/// listens, and which build it is.
pub struct CodeServerHandle {
    pub socket_path: String,
    pub commit_id: Option<String>,
}

/// What a `serve` call must do before it can attach its bridge.
pub enum ServeFlowStep {
    /// An editor server is already attached: go straight to the bridge.
    AttachBridge,
    /// Resolve, install if missing, and start the editor server, downloading
    /// through the delegated facade when the client asked for it.
    StartServer { use_local_download: bool },
}

/// How starting the editor server went.
pub enum ServerStartOutcome {
    /// A server listens on a local socket at this handle.
    Socket(CodeServerHandle),
    /// A server is already running, but not in socket mode.
    OtherMode,
    /// Install or start failed.
    Failed(String),
}

/// A `serve` call launches the editor server with the base argument set plus
/// the extensions the client asked to install, appended in request order.
pub fn extend_install_extensions(install_extensions: &mut Vec<String>, params: &ServeParams)
    ensures
        final(install_extensions)@ == old(install_extensions)@ + params.extensions@,
{
    let mut i: usize = 0;
    while i < params.extensions.len()
        invariant
            i <= params.extensions@.len(),
            install_extensions@ == old(install_extensions)@ + params.extensions@.subrange(
                0,
                i as int,
            ),
        decreases params.extensions@.len() - i,
    {
        install_extensions.push(params.extensions[i].clone());
        i = i + 1;
        assert(install_extensions@ =~= old(install_extensions)@ + params.extensions@.subrange(
            0,
            i as int,
        ));
    }
    proof {
        assert(params.extensions@.subrange(0, params.extensions@.len() as int)
            =~= params.extensions@);
    }
}

/// First step of `serve`: reuse the connection's editor server if one is
/// cached, otherwise ask for it to be started.
pub fn serve_begin(code_server: &Option<CodeServerHandle>, params: &ServeParams) -> (r:
    ServeFlowStep)
    ensures
        code_server is Some ==> r is AttachBridge,
        code_server is None ==> (r matches ServeFlowStep::StartServer { use_local_download }
            && use_local_download == params.use_local_download),
{
    match code_server {
        Some(_) => ServeFlowStep::AttachBridge,
        None => ServeFlowStep::StartServer { use_local_download: params.use_local_download },
    }
}

/// Attaches a new bridge under `socket_id`, compressed when asked. A second
/// bridge under a live id is rejected with `SocketIdInUse` — ids identify
/// bridges, they never replace them — leaving the registry unchanged.
pub fn attach_server_bridge(
    multiplexer: &mut ServerMultiplexer,
    socket_id: u16,
    compress: bool,
) -> (r: Result<u16, RpcError>)
    requires
        old(multiplexer).wf(),
    ensures
        final(multiplexer).wf(),
        r is Ok == !old(multiplexer).has_bridge(socket_id),
        r matches Ok(id) ==> {
            &&& id == socket_id
            &&& final(multiplexer).has_bridge(socket_id)
            &&& final(multiplexer).committed(socket_id) == Seq::<u8>::empty()
            &&& final(multiplexer).compressed(socket_id) == compress
            &&& final(multiplexer).bridge_count() == old(multiplexer).bridge_count() + 1
            &&& forall|i: u16|
                i != socket_id ==> final(multiplexer).has_bridge(i) == old(multiplexer).has_bridge(
                    i,
                )
            &&& forall|i: u16|
                i != socket_id && old(multiplexer).has_bridge(i) ==> final(multiplexer).committed(i)
                    == old(multiplexer).committed(i) && final(multiplexer).compressed(i) == old(multiplexer).compressed(i)
        },
        r is Err ==> r == Result::<u16, RpcError>::Err(RpcError::SocketIdInUse(socket_id))
            && *final(multiplexer) == *old(multiplexer),
{
    let bridge = ServerBridge::new(socket_id, compress);
    if multiplexer.register(bridge) {
        Ok(socket_id)
    } else {
        Err(RpcError::SocketIdInUse(socket_id))
    }
}

/// Second step of `serve`, with the start outcome known. A socket-mode
/// server is cached for the rest of the connection and the bridge is
/// attached; a server running in another mode fails the call with
/// `MismatchedLaunchMode`; a failed start reports `ServerStartFailed`. When
/// the connection already holds a server, `started` is ignored and the
/// bridge attaches to the cached one. `started` of `None` means the outside
/// step never produced a server; without one the call fails
/// `NoAttachedServer`.
pub fn complete_serve(
    code_server: &mut Option<CodeServerHandle>,
    multiplexer: &mut ServerMultiplexer,
    params: &ServeParams,
    started: Option<ServerStartOutcome>,
) -> (r: Result<EmptyObject, RpcError>)
    requires
        old(multiplexer).wf(),
    ensures
        final(multiplexer).wf(),
        (*old(code_server)) is Some ==> *final(code_server) == *old(code_server),
        ({
            ||| (*old(code_server)) is Some
            ||| ((*old(code_server)) is None && started matches Some(ServerStartOutcome::Socket(_)))
        }) ==> {
            &&& ((*old(code_server)) is None ==> (started matches Some(ServerStartOutcome::Socket(h))
                ==> *final(code_server) == Some(h)))
            &&& r is Ok == !old(multiplexer).has_bridge(params.socket_id)
            &&& (r is Ok ==> final(multiplexer).has_bridge(params.socket_id)
                && final(multiplexer).committed(params.socket_id) == Seq::<u8>::empty()
                && final(multiplexer).compressed(params.socket_id) == params.compress
                && final(multiplexer).bridge_count() == old(multiplexer).bridge_count() + 1)
            &&& (r is Err ==> r == Result::<EmptyObject, RpcError>::Err(
                RpcError::SocketIdInUse(params.socket_id),
            ) && *final(multiplexer) == *old(multiplexer))
            &&& forall|i: u16|
                i != params.socket_id && old(multiplexer).has_bridge(i) ==> final(multiplexer).has_bridge(i)
                    && final(multiplexer).committed(i) == old(multiplexer).committed(i)
                    && final(multiplexer).compressed(i) == old(multiplexer).compressed(i)
        },
        (*old(code_server)) is None ==> (started matches Some(ServerStartOutcome::OtherMode) ==> (r
            == Result::<EmptyObject, RpcError>::Err(RpcError::MismatchedLaunchMode)
            && (*final(code_server)) is None && *final(multiplexer) == *old(multiplexer))),
        (*old(code_server)) is None ==> (started matches Some(ServerStartOutcome::Failed(m)) ==> (r
            == Result::<EmptyObject, RpcError>::Err(RpcError::ServerStartFailed(m))
            && (*final(code_server)) is None && *final(multiplexer) == *old(multiplexer))),
        (*old(code_server)) is None && started is None ==> (r == Result::<EmptyObject, RpcError>::Err(
            RpcError::NoAttachedServer,
        ) && (*final(code_server)) is None && *final(multiplexer) == *old(multiplexer)),
{
    if code_server.is_none() {
        match started {
            Some(ServerStartOutcome::Socket(h)) => {
                *code_server = Some(h);
            },
            Some(ServerStartOutcome::OtherMode) => {
                return Err(RpcError::MismatchedLaunchMode);
            },
            Some(ServerStartOutcome::Failed(m)) => {
                return Err(RpcError::ServerStartFailed(m));
            },
            None => {
                return Err(RpcError::NoAttachedServer);
            },
        }
    }
    match attach_server_bridge(multiplexer, params.socket_id, params.compress) {
        Ok(_) => Ok(EmptyObject {}),
        Err(e) => Err(e),
    }
}

/// Last step of `serve`: the bridge's transport to the editor server is
/// opened outside, and this takes the outcome. A failed connection fails the
/// call and closes only that bridge — it leaves the registry, every other
/// bridge stays, and the connection remains.
pub fn handle_bridge_connect(
    multiplexer: &mut ServerMultiplexer,
    socket_id: u16,
    connected: Result<(), String>,
) -> (r: Result<u16, RpcError>)
    requires
        old(multiplexer).wf(),
    ensures
        final(multiplexer).wf(),
        connected is Ok ==> (r == Result::<u16, RpcError>::Ok(socket_id) && *final(multiplexer)
            == *old(multiplexer)),
        connected matches Err(m) ==> {
            &&& r == Result::<u16, RpcError>::Err(RpcError::BridgeConnectFailed(m))
            &&& !final(multiplexer).has_bridge(socket_id)
            &&& forall|i: u16|
                i != socket_id ==> final(multiplexer).has_bridge(i) == old(multiplexer).has_bridge(i)
            &&& forall|i: u16|
                i != socket_id && old(multiplexer).has_bridge(i) ==> final(multiplexer).committed(i)
                    == old(multiplexer).committed(i) && final(multiplexer).pending(i) == old(multiplexer).pending(i) && final(multiplexer).compressed(i) == old(multiplexer).compressed(i)
        },
{
    match connected {
        Ok(()) => Ok(socket_id),
        Err(m) => {
            multiplexer.remove(socket_id);
            Err(RpcError::BridgeConnectFailed(m))
        },
    }
}

} // verus!
