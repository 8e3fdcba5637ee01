//! The singleton client's protocol and decisions.
//!
//! A second invocation of the binary on a host where one already runs does
//! not start its own tunnel: it attaches to the running instance over a
//! local pipe, speaking one textual object per line. The peer replays its
//! logs, announces the replay's end, and accepts `shutdown` and `restart`
//! notifications; a blocking keyboard thread turns the first character of
//! each stdin line into one of those. The pipe, the thread and the printing
//! run outside the library; every decision between them is here.

use vstd::prelude::*;
use vstd::string::StringExecFns;

use crate::protocol::LogLevel;

verus! {

pub const METHOD_RESTART: &'static str = "restart";

pub const METHOD_SHUTDOWN: &'static str = "shutdown";

pub const METHOD_STATUS: &'static str = "status";

pub const METHOD_LOG: &'static str = "log";

pub const METHOD_LOG_REPLY_DONE: &'static str = "log_done";

/// One replayed log line as the peer frames it.
pub struct LogMessage<'a> {
    /// Emit at this level; absent for a user-visible result line.
    pub level: Option<LogLevel>,
    pub prefix: &'a str,
    pub message: &'a str,
}

/// The same line, owned, as it arrives.
pub struct LogMessageOwned {
    pub level: Option<LogLevel>,
    pub prefix: String,
    pub message: String,
}

/// Reply of `status`.
pub struct Status {
    pub tunnel: TunnelState,
}

/// The peer's `log_done` notification: the log replay is finished.
pub struct LogReplayFinished {}

/// Whether the running instance's tunnel is up, and under which name.
pub enum TunnelState {
    Disconnected,
    Connected { name: String },
}

/// What the keyboard thread does with one stdin line.
#[derive(PartialEq, Eq, Structural, Debug, Clone, Copy)]
pub enum StdinAction {
    /// Send the `shutdown` notification and stop reading.
    NotifyShutdownAndExit,
    /// Send the `restart` notification and keep reading.
    NotifyRestart,
    /// Anything else is ignored.
    Ignore,
}

/// The keyboard surface: the first character of a line, case-insensitively,
/// selects the action — `x` stops the tunnel, `r` restarts it, anything
/// else (an empty line included) does nothing. End of input is handled by
/// the reading thread itself: it just stops.
pub fn stdin_line_action(first_char: Option<char>) -> (r: StdinAction)
    ensures
        r == StdinAction::NotifyShutdownAndExit <==> (first_char == Some('x') || first_char
            == Some('X')),
        r == StdinAction::NotifyRestart <==> (first_char == Some('r') || first_char == Some('R')),
{
    match first_char {
        Some(c) => {
            if c == 'x' || c == 'X' {
                StdinAction::NotifyShutdownAndExit
            } else if c == 'r' || c == 'R' {
                StdinAction::NotifyRestart
            } else {
                StdinAction::Ignore
            }
        },
        None => StdinAction::Ignore,
    }
}

/// The `shutdown` notification from the peer: the process must exit
/// entirely when the loop returns, instead of starting its own tunnel.
pub fn handle_singleton_shutdown(exit_entirely: &mut bool)
    ensures
        *final(exit_entirely),
{
    *exit_entirely = true;
}

/// How a replayed log line is shown.
pub enum LogAction {
    /// Emit at the carried level.
    Emit { level: LogLevel, line: String },
    /// Show as a user-visible result line.
    Print { line: String },
}

/// A `log` frame becomes one output line, the prefix glued to the message;
/// a line with a level is emitted at that level, one without is shown as a
/// result.
pub fn handle_singleton_log(msg: LogMessageOwned) -> (r: LogAction)
    ensures
        msg.level matches Some(lv) ==> (r matches LogAction::Emit { level, line } && level == lv
            && line@ == msg.prefix@ + msg.message@),
        msg.level is None ==> (r matches LogAction::Print { line } && line@ == msg.prefix@
            + msg.message@),
{
    let line = msg.prefix.concat(msg.message.as_str());
    match msg.level {
        Some(level) => LogAction::Emit { level, line },
        None => LogAction::Print { line },
    }
}

pub const CONTROL_INSTRUCTIONS_COMMON: &'static str =
    "Connected to an existing tunnel process running on this machine. You can press:\n\n- \"x\" + Enter to stop the tunnel and exit\n- \"r\" + Enter to restart the tunnel\n";

pub const CONTROL_INSTRUCTIONS_INTERACTIVE: &'static str =
    "Connected to an existing tunnel process running on this machine. You can press:\n\n- \"x\" + Enter to stop the tunnel and exit\n- \"r\" + Enter to restart the tunnel\n- Ctrl+C to detach\n";

/// The banner printed when the log replay finishes: the interactive variant
/// adds the detach line, which only makes sense on a TTY.
pub fn control_instructions(interactive: bool) -> (r: &'static str)
    ensures
        interactive ==> r == CONTROL_INSTRUCTIONS_INTERACTIVE,
        !interactive ==> r == CONTROL_INSTRUCTIONS_COMMON,
{
    if interactive {
        CONTROL_INSTRUCTIONS_INTERACTIVE
    } else {
        CONTROL_INSTRUCTIONS_COMMON
    }
}

/// After the banner, the client asks for `status`; a connected tunnel's name
/// is printed as the listening line so downstream tools can parse it, a
/// disconnected one prints nothing — it will connect soon and the replayed
/// logs will say so.
pub fn listening_name(status: Status) -> (r: Option<String>)
    ensures
        status.tunnel matches TunnelState::Connected { name } ==> r == Some(name),
        status.tunnel is Disconnected ==> r is None,
{
    match status.tunnel {
        TunnelState::Connected { name } => Some(name),
        TunnelState::Disconnected => None,
    }
}

} // verus!
