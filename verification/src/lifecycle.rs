//! Lifecycle of the accept loop and its connections.
//!
//! The accept loop owns the control-port listener and selects among a
//! process shutdown signal, the internal server-signal channel, the port
//! forwarder's events, and new inbound sockets. The decisions it takes at
//! each wakeup are pure functions of the event, collected here; the loop
//! itself — the waiting — runs outside the library and performs whatever
//! action these functions return.

use vstd::prelude::*;

use crate::update::DidUpdateFlag;

verus! {

/// What the process does after the accept loop returns.
#[derive(PartialEq, Eq, Structural, Debug, Clone, Copy)]
pub enum Next {
    /// The server was updated in place: stop listening and spawn the new
    /// binary again with the same arguments.
    Respawn,
    /// The tunnel should be restarted.
    Restart,
    /// The process should exit.
    Exit,
}

/// Why the accept loop returned, and the tunnel handed back to the caller so
/// it can be drained or reused.
pub struct ServerTermination<T> {
    pub next: Next,
    pub tunnel: T,
}

/// A process-wide shutdown request.
#[derive(PartialEq, Eq, Structural, Debug, Clone, Copy)]
pub enum ShutdownSignal {
    /// Interrupt, parent exit, service stop: anything that means "stop".
    Stop,
    /// A peer asked over RPC that the whole process shut down.
    RpcShutdownRequested,
    /// A peer asked over RPC that the tunnel restart.
    RpcRestartRequested,
}

/// The internal server-signal channel carries exactly one message kind.
#[derive(PartialEq, Eq, Structural, Debug, Clone, Copy)]
pub enum ServerSignal {
    /// A connection finished after updating the server: respawn.
    Respawn,
}

/// One wakeup of the accept loop.
#[derive(PartialEq, Eq, Structural, Debug, Clone, Copy)]
pub enum ServeEvent {
    /// The process shutdown signal fired.
    Shutdown(ShutdownSignal),
    /// A connection task sent a signal on the internal channel.
    ServerSignalled(ServerSignal),
    /// The port forwarder has an event to process.
    Forwarding,
    /// The tunnel's listener closed: no more inbound sockets will come.
    TunnelClosed,
    /// An inbound socket arrived.
    Connection,
}

/// What the accept loop does in response.
#[derive(PartialEq, Eq, Structural, Debug, Clone, Copy)]
pub enum ServeAction {
    /// Drop the exit barrier (cancelling every connection task) and return
    /// this to the caller.
    Terminate(Next),
    /// Let the port forwarder process its event.
    ProcessForwarding,
    /// Spawn a connection task for the new socket.
    SpawnConnection,
}

/// The accept loop's decision for one wakeup: an RPC-requested restart
/// terminates with `Restart` and any other shutdown with `Exit`; a respawn
/// signal terminates with `Respawn`; a closed tunnel terminates with
/// `Restart`; forwarding events and new sockets keep the loop running.
pub open spec fn spec_serve_step(event: ServeEvent) -> ServeAction {
    match event {
        ServeEvent::Shutdown(ShutdownSignal::RpcRestartRequested) => ServeAction::Terminate(
            Next::Restart,
        ),
        ServeEvent::Shutdown(_) => ServeAction::Terminate(Next::Exit),
        ServeEvent::ServerSignalled(ServerSignal::Respawn) => ServeAction::Terminate(Next::Respawn),
        ServeEvent::Forwarding => ServeAction::ProcessForwarding,
        ServeEvent::TunnelClosed => ServeAction::Terminate(Next::Restart),
        ServeEvent::Connection => ServeAction::SpawnConnection,
    }
}

/// Executable form of the accept loop's decision.
pub fn serve_step(event: ServeEvent) -> (r: ServeAction)
    ensures
        r == spec_serve_step(event),
{
    match event {
        ServeEvent::Shutdown(ShutdownSignal::RpcRestartRequested) => ServeAction::Terminate(
            Next::Restart,
        ),
        ServeEvent::Shutdown(_) => ServeAction::Terminate(Next::Exit),
        ServeEvent::ServerSignalled(ServerSignal::Respawn) => ServeAction::Terminate(Next::Respawn),
        ServeEvent::Forwarding => ServeAction::ProcessForwarding,
        ServeEvent::TunnelClosed => ServeAction::Terminate(Next::Restart),
        ServeEvent::Connection => ServeAction::SpawnConnection,
    }
}

/// What a finishing connection task puts on the server-signal channel.
pub open spec fn spec_connection_finished(flag: DidUpdateFlag) -> Option<ServerSignal> {
    if flag.is_set() {
        Some(ServerSignal::Respawn)
    } else {
        None
    }
}

/// When a connection's reader exits, the task asks for a respawn exactly if
/// its handler context updated the server.
pub fn connection_finished(did_update: &DidUpdateFlag) -> (r: Option<ServerSignal>)
    ensures
        r == spec_connection_finished(*did_update),
{
    if did_update.load() {
        Some(ServerSignal::Respawn)
    } else {
        None
    }
}

/// If any completed handler set `did_update`, the connection task signals
/// `Respawn`, and the accept loop, on receiving it, terminates with
/// `next == Respawn`.
pub proof fn lemma_respawn_after_update(flag: DidUpdateFlag)
    requires
        flag.is_set(),
    ensures
        spec_connection_finished(flag) == Some(ServerSignal::Respawn),
        spec_serve_step(ServeEvent::ServerSignalled(ServerSignal::Respawn))
            == ServeAction::Terminate(Next::Respawn),
{
}

/// Byte counters of one connection: `rx` counts inbound frame bytes (length
/// prefixes included, maintained by the frame decoder), `tx` counts every
/// serialized message put on the wire.
pub struct SocketStats {
    pub rx: usize,
    pub tx: usize,
}

impl SocketStats {
    /// Fresh counters.
    pub fn new() -> (r: SocketStats)
        ensures
            r.rx == 0,
            r.tx == 0,
    {
        SocketStats { rx: 0, tx: 0 }
    }

    /// Counts `n` transmitted bytes, wrapping like the counter it models.
    pub fn add_tx(&mut self, n: usize)
        ensures
            final(self).tx == vstd::wrapping::usize_specs::wrapping_add(old(self).tx, n),
            final(self).rx == old(self).rx,
    {
        self.tx = self.tx.wrapping_add(n);
    }
}

} // verus!
