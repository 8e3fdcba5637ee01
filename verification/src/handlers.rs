//! The simple RPC handlers: liveness, hostname, pruning, port forwarding,
//! and the HTTP call over the editor server's socket.
//!
//! Handlers whose work is pure run whole; where the work needs the machine
//! (the OS hostname, the filesystem, the tunnel, a socket), the handler is
//! split: the outside step runs beyond the library and its plain-value
//! outcome is handed to the function here that decides the reply.

use std::collections::HashMap;
use vstd::prelude::*;
use vstd::string::StringExecFns;

use crate::errors::RpcError;
use crate::protocol::{CallServerHttpParams, EmptyObject, ForwardResult, GetHostnameResponse};

verus! {

/// Relies on gethostname::gethostname: returns the machine's standard host
/// name as the OS reports it. The value depends on the environment, so
/// nothing is assumed of it. Its documentation notes a panic only if the OS
/// misreports its own buffer size, which it treats as unreachable.
#[verifier::external_body]
fn os_hostname_lossy() -> String {
    gethostname::gethostname().to_string_lossy().into_owned()
}

/// Wraps a hostname into the `gethostname` reply.
pub fn make_hostname_response(value: String) -> (r: GetHostnameResponse)
    ensures
        r.value == value,
{
    GetHostnameResponse { value }
}

/// `gethostname`: replies with the OS hostname. Never fails.
pub fn handle_get_hostname() -> (r: Result<GetHostnameResponse, RpcError>)
    ensures
        r is Ok,
{
    Ok(make_hostname_response(os_hostname_lossy()))
}

/// `ping`: liveness, no side effects.
pub fn handle_ping() -> (r: Result<EmptyObject, RpcError>)
    ensures
        r == Result::<EmptyObject, RpcError>::Ok(EmptyObject {}),
{
    Ok(EmptyObject {})
}

/// A stopped editor-server state directory found on disk.
pub struct PrunedServer {
    pub server_dir: String,
}

/// `prune`: the reply lists the state directories that were reaped. The
/// filesystem walk and removal happen outside; this turns what was reaped
/// into the reply, in order.
pub fn handle_prune(pruned: Vec<PrunedServer>) -> (r: Result<Vec<String>, RpcError>)
    ensures
        r matches Ok(v) && v@.len() == pruned@.len(),
        r matches Ok(v) ==> forall|i: int| 0 <= i < v@.len() ==> v@[i] == pruned@[i].server_dir,
{
    let mut out: Vec<String> = Vec::new();
    let mut i: usize = 0;
    while i < pruned.len()
        invariant
            i <= pruned@.len(),
            out@.len() == i,
            forall|j: int| 0 <= j < i ==> out@[j] == pruned@[j].server_dir,
        decreases pruned@.len() - i,
    {
        out.push(pruned[i].server_dir.clone());
        i = i + 1;
    }
    Ok(out)
}

/// `forward`: the tunnel was asked to expose the port named in the request;
/// its answer (the URI, or why not) becomes the reply.
pub fn handle_forward(outcome: Result<String, String>) -> (r: Result<ForwardResult, RpcError>)
    ensures
        outcome matches Ok(uri) ==> r matches Ok(f) && f.uri == uri,
        outcome matches Err(m) ==> r == Result::<ForwardResult, RpcError>::Err(
            RpcError::ForwardingFailed(m),
        ),
{
    match outcome {
        Ok(uri) => Ok(ForwardResult { uri }),
        Err(m) => Err(RpcError::ForwardingFailed(m)),
    }
}

/// `unforward`: the reverse, with an empty reply on success.
pub fn handle_unforward(outcome: Result<(), String>) -> (r: Result<EmptyObject, RpcError>)
    ensures
        outcome is Ok ==> r == Result::<EmptyObject, RpcError>::Ok(EmptyObject {}),
        outcome matches Err(m) ==> r == Result::<EmptyObject, RpcError>::Err(
            RpcError::ForwardingFailed(m),
        ),
{
    match outcome {
        Ok(()) => Ok(EmptyObject {}),
        Err(m) => Err(RpcError::ForwardingFailed(m)),
    }
}

/// One HTTP/1 request ready to be issued over the editor server's local
/// socket: the loopback URI it addresses, and the method, headers and body
/// carried over from the call.
pub struct PreparedServerHttpRequest {
    pub uri: String,
    pub method: String,
    pub headers: HashMap<String, String>,
    pub body: Vec<u8>,
}

/// `callserverhttp`, first half: refused with `NoAttachedServer` while no
/// editor server is attached to this connection; otherwise the request is
/// assembled — the URI is the loopback host followed by the requested path,
/// and a missing body is the empty body.
pub fn prepare_server_http(server_attached: bool, params: CallServerHttpParams) -> (r: Result<
    PreparedServerHttpRequest,
    RpcError,
>)
    ensures
        !server_attached ==> r == Result::<PreparedServerHttpRequest, RpcError>::Err(
            RpcError::NoAttachedServer,
        ),
        server_attached ==> (r matches Ok(p) && {
            &&& p.uri@ == "http://127.0.0.1"@ + params.path@
            &&& p.method == params.method
            &&& p.headers == params.headers
            &&& (params.body matches Some(b) ==> p.body == b)
            &&& (params.body is None ==> p.body@ == Seq::<u8>::empty())
        }),
{
    if !server_attached {
        return Err(RpcError::NoAttachedServer);
    }
    let mut uri = String::new();
    uri.append("http://127.0.0.1");
    uri.append(params.path.as_str());
    let body = match params.body {
        Some(b) => b,
        None => Vec::new(),
    };
    Ok(PreparedServerHttpRequest { uri, method: params.method, headers: params.headers, body })
}

} // verus!
