//! Domain errors surfaced to RPC callers.
//!
//! Every handler failure becomes an error reply on the same connection; none
//! of these tears the connection down. Transport failures are not values of
//! this type: they end the connection task instead.

use vstd::prelude::*;

verus! {

/// The error kinds a handler can return.
#[derive(Debug, Clone, PartialEq, Eq)]
pub enum RpcError {
    /// A `servermsg` or `callserverhttp` arrived while no editor server (or
    /// no bridge under that id) is attached to this connection.
    NoAttachedServer,
    /// An editor server is already running, but not in the launch mode the
    /// `serve` call asked for.
    MismatchedLaunchMode,
    /// A `serve` named a `socket_id` that already has a bridge on this
    /// connection. Re-use is rejected rather than replacing the bridge.
    SocketIdInUse(u16),
    /// A frame or its parameters could not be decoded.
    InvalidRpcData(String),
    /// Installing or starting the editor server failed.
    ServerStartFailed(String),
    /// The bridge could not open its transport to the editor server. This
    /// closes only that bridge; the connection remains.
    BridgeConnectFailed(String),
    /// Walking or removing stopped server directories failed.
    PruneFailed(String),
    /// The self-update check or download failed.
    UpdateFailed(String),
    /// The tunnel could not forward or unforward the port.
    ForwardingFailed(String),
    /// The HTTP call over the editor server's socket failed.
    ServerHttpFailed(String),
}

impl RpcError {
    /// A short stable name for the kind, for logs and error replies.
    pub fn kind_name(&self) -> (r: &'static str)
        ensures
            self is NoAttachedServer ==> r@ == "NoAttachedServer"@,
            self is MismatchedLaunchMode ==> r@ == "MismatchedLaunchMode"@,
            self is SocketIdInUse ==> r@ == "SocketIdInUse"@,
            self is InvalidRpcData ==> r@ == "InvalidRpcData"@,
            self is ServerStartFailed ==> r@ == "ServerStartFailed"@,
            self is BridgeConnectFailed ==> r@ == "BridgeConnectFailed"@,
            self is PruneFailed ==> r@ == "PruneFailed"@,
            self is UpdateFailed ==> r@ == "UpdateFailed"@,
            self is ForwardingFailed ==> r@ == "ForwardingFailed"@,
            self is ServerHttpFailed ==> r@ == "ServerHttpFailed"@,
    {
        match self {
            RpcError::NoAttachedServer => "NoAttachedServer",
            RpcError::MismatchedLaunchMode => "MismatchedLaunchMode",
            RpcError::SocketIdInUse(_) => "SocketIdInUse",
            RpcError::InvalidRpcData(_) => "InvalidRpcData",
            RpcError::ServerStartFailed(_) => "ServerStartFailed",
            RpcError::BridgeConnectFailed(_) => "BridgeConnectFailed",
            RpcError::PruneFailed(_) => "PruneFailed",
            RpcError::UpdateFailed(_) => "UpdateFailed",
            RpcError::ForwardingFailed(_) => "ForwardingFailed",
            RpcError::ServerHttpFailed(_) => "ServerHttpFailed",
        }
    }
}

} // verus!
