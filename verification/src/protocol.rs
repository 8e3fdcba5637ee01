//! Wire-level data model of the control connection.
//!
//! A request on the wire is an object `{id?, method, params}`; a reply
//! carries the same `id` and either a result or an error. A request without
//! an `id` is a notification and gets no reply. The types here are the
//! decoded shapes of those objects; the process boundary turns them into the
//! compact binary wire form and back.

use std::collections::HashMap;
use vstd::prelude::*;

verus! {

/// Protocol revision announced in the `version` notification.
pub const PROTOCOL_VERSION: u32 = 1;

/// Which editor-server build a `serve` call selects.
#[derive(Clone, Copy, PartialEq, Eq, Structural, Debug)]
pub enum Quality {
    Stable,
    Exploration,
    Insiders,
}

/// Severity of a replayed or forwarded log line.
#[derive(Clone, Copy, PartialEq, Eq, Structural, Debug)]
pub enum LogLevel {
    Trace,
    Debug,
    Info,
    Warn,
    Error,
}

impl LogLevel {
    /// The wire encoding of the level, densest first.
    pub open spec fn spec_to_u8(self) -> u8 {
        match self {
            LogLevel::Trace => 0,
            LogLevel::Debug => 1,
            LogLevel::Info => 2,
            LogLevel::Warn => 3,
            LogLevel::Error => 4,
        }
    }

    /// The wire encoding of the level.
    pub fn to_u8(self) -> (r: u8)
        ensures
            r == self.spec_to_u8(),
    {
        match self {
            LogLevel::Trace => 0,
            LogLevel::Debug => 1,
            LogLevel::Info => 2,
            LogLevel::Warn => 3,
            LogLevel::Error => 4,
        }
    }
}

/// A request with no parameters, and the reply that carries no data.
#[derive(PartialEq, Eq, Structural, Debug, Clone)]
pub struct EmptyObject {}

/// Parameters of `serve`: attach a new bridge under `socket_id`, installing
/// and starting the editor server first if this connection has none yet.
#[derive(Debug, Clone)]
pub struct ServeParams {
    pub socket_id: u16,
    pub commit_id: Option<String>,
    pub quality: Quality,
    pub extensions: Vec<String>,
    /// Optional preferred connection token.
    pub connection_token: Option<String>,
    pub use_local_download: bool,
    /// If true, the client and server gzip servermsg bodies in either direction.
    pub compress: bool,
}

/// The `install_local` request: a `serve` against a locally provided archive.
#[derive(Debug, Clone)]
pub struct InstallFromLocalFolderParams {
    pub archive_path: String,
    pub inner: ServeParams,
}

/// Parameters of `update`.
#[derive(PartialEq, Eq, Structural, Debug, Clone, Copy)]
pub struct UpdateParams {
    pub do_update: bool,
}

/// Reply of `update`.
#[derive(PartialEq, Eq, Structural, Debug, Clone, Copy)]
pub struct UpdateResult {
    pub up_to_date: bool,
    pub did_update: bool,
}

/// Parameters of `servermsg`: bytes for the bridge registered under `i`.
#[derive(Debug, Clone)]
pub struct ServerMessageParams {
    pub i: u16,
    pub body: Vec<u8>,
}

/// A `servermsg` going the other way: editor-server bytes for the client's
/// logical socket `i`.
#[derive(Debug)]
pub struct RefServerMessageParams<'a> {
    pub i: u16,
    pub body: &'a [u8],
}

/// A log line forwarded to the client.
#[derive(Debug)]
pub struct ServerLog<'a> {
    pub line: &'a str,
    pub level: u8,
}

/// Reply of `gethostname`.
#[derive(Debug, Clone, PartialEq, Eq)]
pub struct GetHostnameResponse {
    pub value: String,
}

/// Parameters of `forward`.
#[derive(PartialEq, Eq, Structural, Debug, Clone, Copy)]
pub struct ForwardParams {
    pub port: u16,
}

/// Parameters of `unforward`.
#[derive(PartialEq, Eq, Structural, Debug, Clone, Copy)]
pub struct UnforwardParams {
    pub port: u16,
}

/// Reply of `forward`: where the tunnel exposes the port.
#[derive(Debug, Clone, PartialEq, Eq)]
pub struct ForwardResult {
    pub uri: String,
}

/// An outbound HTTP request delegated to the client: sent as a
/// `makehttpreq` notification, answered by `httpheaders` and `httpbody`
/// follow-ups correlated by `req_id`.
#[derive(Debug, Clone)]
pub struct HttpRequestParams {
    pub url: String,
    pub method: &'static str,
    pub req_id: u32,
}

/// First delegated-HTTP follow-up: status line and headers. Arrives at most
/// once per `req_id`.
#[derive(Debug, Clone)]
pub struct HttpHeadersParams {
    pub status_code: u16,
    pub headers: Vec<(String, String)>,
    pub req_id: u32,
}

/// Streaming delegated-HTTP follow-up: a body segment, and whether the
/// response is complete.
#[derive(Debug, Clone)]
pub struct HttpBodyParams {
    pub segment: Vec<u8>,
    pub complete: bool,
    pub req_id: u32,
}

/// Parameters of `callserverhttp`: one HTTP/1 request issued over the editor
/// server's local socket.
#[derive(Debug, Clone)]
pub struct CallServerHttpParams {
    pub path: String,
    pub method: String,
    pub headers: HashMap<String, String>,
    pub body: Option<Vec<u8>>,
}

/// Reply of `callserverhttp`.
#[derive(Debug, PartialEq, Eq)]
pub struct CallServerHttpResult {
    pub status: u16,
    pub body: Vec<u8>,
    pub headers: HashMap<String, String>,
}

/// The `version` notification sent to every client as soon as it connects.
#[derive(Debug, Clone)]
pub struct VersionParams {
    pub version: &'static str,
    pub protocol_version: u32,
}

impl Default for VersionParams {
    /// The version stamped into release builds is supplied by the build
    /// outside this library; unstamped builds announce themselves as "dev".
    fn default() -> (r: VersionParams)
        ensures
            r.version@ == "dev"@,
            r.protocol_version == PROTOCOL_VERSION,
    {
        VersionParams { version: "dev", protocol_version: PROTOCOL_VERSION }
    }
}

/// A server-initiated message: a notification (`id` is `None`) or an
/// outbound call, tagged with the method it invokes on the client.
#[derive(Debug)]
#[allow(non_camel_case_types)]
pub enum ClientRequestMethod<'a> {
    servermsg(RefServerMessageParams<'a>),
    serverlog(ServerLog<'a>),
    makehttpreq(HttpRequestParams),
    version(VersionParams),
}

/// An outbound request toward the client.
#[derive(Debug)]
pub struct ToClientRequest<'a> {
    pub id: Option<u32>,
    pub params: ClientRequestMethod<'a>,
}

/// The `version` notification a connection task emits first.
pub fn version_notification() -> (r: ToClientRequest<'static>)
    ensures
        r.id is None,
        r.params matches ClientRequestMethod::version(v) && v.version@ == "dev"@
            && v.protocol_version == PROTOCOL_VERSION,
{
    ToClientRequest { id: None, params: ClientRequestMethod::version(VersionParams::default()) }
}

/// The `serverlog` notification that the log sink emits for one line.
pub fn server_log_notification<'a>(level: LogLevel, line: &'a str) -> (r: ToClientRequest<'a>)
    ensures
        r.id is None,
        r.params matches ClientRequestMethod::serverlog(l) && l.line@ == line@ && l.level
            == level.spec_to_u8(),
{
    ToClientRequest {
        id: None,
        params: ClientRequestMethod::serverlog(ServerLog { line, level: level.to_u8() }),
    }
}

/// The `servermsg` notification carrying editor-server bytes back to the
/// client's logical socket `i`.
pub fn server_msg_notification<'a>(i: u16, body: &'a [u8]) -> (r: ToClientRequest<'a>)
    ensures
        r.id is None,
        r.params matches ClientRequestMethod::servermsg(m) && m.i == i && m.body@ == body@,
{
    ToClientRequest {
        id: None,
        params: ClientRequestMethod::servermsg(RefServerMessageParams { i, body }),
    }
}

} // verus!
