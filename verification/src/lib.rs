//! Control plane of a remote-development tunnel agent.
//!
//! The library holds the verified core of the agent: the length-prefixed
//! frame codec, the RPC dispatcher and its method handlers, the bridge
//! multiplexer that fans client-facing logical sockets onto the embedded
//! editor server, the delegated outbound-HTTP bookkeeping, the update and
//! respawn machinery, and the decision logic of the singleton client.
//! The surrounding process (sockets, the async runtime, serialization to
//! the wire) lives outside and drives these functions with plain values.

pub mod dispatch;
pub mod errors;
pub mod framer;
pub mod handlers;
pub mod http;
pub mod ids;
pub mod lifecycle;
pub mod multiplexer;
pub mod protocol;
pub mod serve;
pub mod singleton;
pub mod update;

pub use ids::{next_message_id, MessageIdCounter};
