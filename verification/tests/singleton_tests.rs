use tunnel_control::protocol::LogLevel;
use tunnel_control::singleton::{
    control_instructions, handle_singleton_log, handle_singleton_shutdown, listening_name,
    stdin_line_action, LogAction, LogMessageOwned, Status, StdinAction, TunnelState,
    CONTROL_INSTRUCTIONS_COMMON, CONTROL_INSTRUCTIONS_INTERACTIVE, METHOD_LOG, METHOD_RESTART,
    METHOD_SHUTDOWN,
};

#[test]
fn keyboard_x_stops_r_restarts_rest_ignored() {
    assert_eq!(stdin_line_action(Some('x')), StdinAction::NotifyShutdownAndExit);
    assert_eq!(stdin_line_action(Some('X')), StdinAction::NotifyShutdownAndExit);
    assert_eq!(stdin_line_action(Some('r')), StdinAction::NotifyRestart);
    assert_eq!(stdin_line_action(Some('R')), StdinAction::NotifyRestart);
    assert_eq!(stdin_line_action(Some('q')), StdinAction::Ignore);
    assert_eq!(stdin_line_action(None), StdinAction::Ignore);
}

#[test]
fn shutdown_notification_sets_exit_entirely() {
    let mut exit_entirely = false;
    handle_singleton_shutdown(&mut exit_entirely);
    assert!(exit_entirely);
}

#[test]
fn log_with_level_is_emitted_with_prefix_glued() {
    let action = handle_singleton_log(LogMessageOwned {
        level: Some(LogLevel::Warn),
        prefix: String::from("[tunnel] "),
        message: String::from("reconnecting"),
    });
    match action {
        LogAction::Emit { level, line } => {
            assert_eq!(level, LogLevel::Warn);
            assert_eq!(line, "[tunnel] reconnecting");
        }
        LogAction::Print { .. } => panic!("a levelled line is emitted, not printed"),
    }
}

#[test]
fn log_without_level_is_printed_as_a_result() {
    let action = handle_singleton_log(LogMessageOwned {
        level: None,
        prefix: String::from(""),
        message: String::from("ready"),
    });
    match action {
        LogAction::Print { line } => assert_eq!(line, "ready"),
        LogAction::Emit { .. } => panic!("a result line carries no level"),
    }
}

#[test]
fn banner_offers_detach_only_interactively() {
    assert_eq!(control_instructions(true), CONTROL_INSTRUCTIONS_INTERACTIVE);
    assert_eq!(control_instructions(false), CONTROL_INSTRUCTIONS_COMMON);
    assert!(CONTROL_INSTRUCTIONS_INTERACTIVE.contains("Ctrl+C"));
    assert!(!CONTROL_INSTRUCTIONS_COMMON.contains("Ctrl+C"));
    assert!(CONTROL_INSTRUCTIONS_INTERACTIVE.starts_with(CONTROL_INSTRUCTIONS_COMMON));
}

#[test]
fn connected_status_yields_the_listening_name() {
    let name = listening_name(Status {
        tunnel: TunnelState::Connected { name: String::from("my-machine") },
    });
    assert_eq!(name, Some(String::from("my-machine")));
    assert_eq!(listening_name(Status { tunnel: TunnelState::Disconnected }), None);
}

#[test]
fn method_names_match_the_wire() {
    assert_eq!(METHOD_SHUTDOWN, "shutdown");
    assert_eq!(METHOD_RESTART, "restart");
    assert_eq!(METHOD_LOG, "log");
}

#[test]
fn log_levels_encode_densest_first() {
    assert_eq!(LogLevel::Trace.to_u8(), 0);
    assert_eq!(LogLevel::Debug.to_u8(), 1);
    assert_eq!(LogLevel::Info.to_u8(), 2);
    assert_eq!(LogLevel::Warn.to_u8(), 3);
    assert_eq!(LogLevel::Error.to_u8(), 4);
}
