use std::collections::HashMap;

use tunnel_control::dispatch::{
    complete_call_server_http, complete_forward, complete_prune, complete_unforward,
    complete_update, dispatch, ConnectionState, DispatchOutcome, ReplyBody, RequestMethod,
    RpcRequest, WorkItem,
};
use tunnel_control::errors::RpcError;
use tunnel_control::handlers::{handle_get_hostname, prepare_server_http, PrunedServer};
use tunnel_control::http::DelegatedHttp;
use tunnel_control::ids::{next_message_id, MessageIdCounter};
use tunnel_control::lifecycle::{
    connection_finished, serve_step, Next, ServeAction, ServeEvent, ServerSignal, ShutdownSignal,
    SocketStats,
};
use tunnel_control::protocol::{
    CallServerHttpParams, ClientRequestMethod, HttpBodyParams, HttpHeadersParams, Quality,
    ServeParams, ServerMessageParams, UpdateParams, UpdateResult,
};
use tunnel_control::protocol::{
    server_log_notification, server_msg_notification, version_notification, LogLevel,
    PROTOCOL_VERSION,
};
use tunnel_control::serve::{
    complete_serve, extend_install_extensions, handle_bridge_connect, CodeServerHandle,
    ServerStartOutcome,
};
use tunnel_control::update::{
    handle_update_begin, handle_update_checked, handle_update_performed, DidUpdateFlag, UpdatePlan,
    UpdateStep,
};

fn serve_params(socket_id: u16) -> ServeParams {
    ServeParams {
        socket_id,
        commit_id: Some(String::from("abc")),
        quality: Quality::Stable,
        extensions: vec![],
        connection_token: None,
        use_local_download: false,
        compress: false,
    }
}

fn started_handle() -> Option<ServerStartOutcome> {
    Some(ServerStartOutcome::Socket(CodeServerHandle {
        socket_path: String::from("/tmp/code-server.sock"),
        commit_id: Some(String::from("abc")),
    }))
}

#[test]
fn ping_replies_empty_under_same_id() {
    let mut state = ConnectionState::new(false);
    let outcome = dispatch(&mut state, RpcRequest { id: Some(1), method: RequestMethod::Ping });
    match outcome {
        DispatchOutcome::Done { reply, completed_http } => {
            let reply = reply.expect("ping with an id is owed a reply");
            assert_eq!(reply.id, 1);
            assert_eq!(reply.body, ReplyBody::Empty);
            assert!(completed_http.is_none());
        }
        DispatchOutcome::Pending(_) => panic!("ping is synchronous"),
    }
}

#[test]
fn ping_notification_gets_no_reply() {
    let mut state = ConnectionState::new(false);
    let outcome = dispatch(&mut state, RpcRequest { id: None, method: RequestMethod::Ping });
    match outcome {
        DispatchOutcome::Done { reply, .. } => assert!(reply.is_none()),
        DispatchOutcome::Pending(_) => panic!("ping is synchronous"),
    }
}

#[test]
fn hostname_matches_the_operating_system() {
    let expected = gethostname::gethostname().to_string_lossy().into_owned();
    let resp = handle_get_hostname().expect("gethostname never fails");
    assert_eq!(resp.value, expected);
}

#[test]
fn hostname_reply_carries_id() {
    let mut state = ConnectionState::new(false);
    let outcome =
        dispatch(&mut state, RpcRequest { id: Some(2), method: RequestMethod::GetHostname });
    match outcome {
        DispatchOutcome::Done { reply, .. } => {
            let reply = reply.expect("reply owed");
            assert_eq!(reply.id, 2);
            match reply.body {
                ReplyBody::Hostname(h) => {
                    assert_eq!(h.value, gethostname::gethostname().to_string_lossy().into_owned())
                }
                other => panic!("expected a hostname body, got {:?}", other),
            }
        }
        DispatchOutcome::Pending(_) => panic!("gethostname is synchronous"),
    }
}

#[test]
fn serve_then_forward_a_message() {
    let mut state = ConnectionState::new(false);
    let params = serve_params(7);

    let outcome = dispatch(
        &mut state,
        RpcRequest { id: Some(3), method: RequestMethod::Serve(params.clone()) },
    );
    let pending = match outcome {
        DispatchOutcome::Pending(w) => w,
        _ => panic!("serve is asynchronous"),
    };
    assert!(matches!(pending.work, WorkItem::Serve(_)));

    let result =
        complete_serve(&mut state.code_server, &mut state.multiplexer, &params, started_handle());
    assert!(result.is_ok());

    let outcome = dispatch(
        &mut state,
        RpcRequest {
            id: Some(4),
            method: RequestMethod::ServerMsg(ServerMessageParams { i: 7, body: vec![0x01, 0x02] }),
        },
    );
    match outcome {
        DispatchOutcome::Done { reply, .. } => {
            let reply = reply.expect("reply owed");
            assert_eq!(reply.id, 4);
            assert_eq!(reply.body, ReplyBody::Empty);
        }
        DispatchOutcome::Pending(_) => panic!("servermsg is synchronous"),
    }

    // Exactly the bytes 01 02 are queued toward the editor server.
    assert_eq!(state.multiplexer.drain_bridge(7), Some(vec![0x01, 0x02]));
    assert_eq!(state.multiplexer.drain_bridge(7), Some(vec![]));
}

#[test]
fn servermsg_bodies_arrive_in_dispatch_order() {
    let mut state = ConnectionState::new(false);
    let params = serve_params(9);
    complete_serve(&mut state.code_server, &mut state.multiplexer, &params, started_handle())
        .expect("serve succeeds");
    for body in [vec![1u8], vec![2, 3], vec![], vec![4]] {
        let outcome = dispatch(
            &mut state,
            RpcRequest {
                id: None,
                method: RequestMethod::ServerMsg(ServerMessageParams { i: 9, body }),
            },
        );
        assert!(matches!(outcome, DispatchOutcome::Done { .. }));
    }
    assert_eq!(state.multiplexer.drain_bridge(9), Some(vec![1, 2, 3, 4]));
}

#[test]
fn servermsg_without_serve_is_rejected_and_connection_lives_on() {
    let mut state = ConnectionState::new(false);
    let outcome = dispatch(
        &mut state,
        RpcRequest {
            id: Some(5),
            method: RequestMethod::ServerMsg(ServerMessageParams { i: 99, body: vec![0x00] }),
        },
    );
    match outcome {
        DispatchOutcome::Done { reply, .. } => {
            let reply = reply.expect("reply owed");
            assert_eq!(reply.id, 5);
            assert_eq!(reply.body, ReplyBody::Error(RpcError::NoAttachedServer));
        }
        DispatchOutcome::Pending(_) => panic!("servermsg is synchronous"),
    }

    // The connection still answers a subsequent ping.
    let outcome = dispatch(&mut state, RpcRequest { id: Some(6), method: RequestMethod::Ping });
    match outcome {
        DispatchOutcome::Done { reply, .. } => {
            let reply = reply.expect("reply owed");
            assert_eq!(reply.id, 6);
            assert_eq!(reply.body, ReplyBody::Empty);
        }
        DispatchOutcome::Pending(_) => panic!("ping is synchronous"),
    }
}

#[test]
fn second_serve_under_the_same_socket_id_is_rejected() {
    let mut state = ConnectionState::new(false);
    let params = serve_params(7);
    complete_serve(&mut state.code_server, &mut state.multiplexer, &params, started_handle())
        .expect("first serve succeeds");
    let second = complete_serve(&mut state.code_server, &mut state.multiplexer, &params, None);
    assert_eq!(second, Err(RpcError::SocketIdInUse(7)));
    // The first bridge is still the one registered.
    assert_eq!(state.multiplexer.drain_bridge(7), Some(vec![]));
}

#[test]
fn serve_against_a_server_in_another_mode_fails() {
    let mut state = ConnectionState::new(false);
    let params = serve_params(1);
    let r = complete_serve(
        &mut state.code_server,
        &mut state.multiplexer,
        &params,
        Some(ServerStartOutcome::OtherMode),
    );
    assert_eq!(r, Err(RpcError::MismatchedLaunchMode));
    assert!(state.code_server.is_none());
}

#[test]
fn serve_start_failure_is_reported() {
    let mut state = ConnectionState::new(false);
    let params = serve_params(1);
    let r = complete_serve(
        &mut state.code_server,
        &mut state.multiplexer,
        &params,
        Some(ServerStartOutcome::Failed(String::from("download failed"))),
    );
    assert_eq!(r, Err(RpcError::ServerStartFailed(String::from("download failed"))));
}

#[test]
fn serve_appends_requested_extensions() {
    let mut params = serve_params(1);
    params.extensions = vec![String::from("vim"), String::from("wordcount")];
    let mut install = vec![String::from("base")];
    extend_install_extensions(&mut install, &params);
    assert_eq!(
        install,
        vec![String::from("base"), String::from("vim"), String::from("wordcount")]
    );
}

#[test]
fn delegated_http_round_trip() {
    let mut counter = MessageIdCounter::new();
    let mut http = DelegatedHttp::new();

    let req = http.make_http_request(&mut counter, String::from("https://example/x"), "GET");
    assert_eq!(req.url, "https://example/x");
    assert_eq!(req.method, "GET");
    let r = req.req_id;

    http.handle_http_headers(&HttpHeadersParams {
        status_code: 200,
        headers: vec![(String::from("content-type"), String::from("text/plain"))],
        req_id: r,
    });

    let none = http.handle_http_body(&HttpBodyParams {
        segment: b"hello".to_vec(),
        complete: false,
        req_id: r,
    });
    assert!(none.is_none());

    let done = http
        .handle_http_body(&HttpBodyParams { segment: vec![], complete: true, req_id: r })
        .expect("the complete frame finalizes the request");
    assert_eq!(
        done.initial,
        Some((200, vec![(String::from("content-type"), String::from("text/plain"))]))
    );
    assert_eq!(done.body, b"hello".to_vec());

    // The entry for r is gone: further frames change nothing.
    let after = http.handle_http_body(&HttpBodyParams {
        segment: b"late".to_vec(),
        complete: true,
        req_id: r,
    });
    assert!(after.is_none());
}

#[test]
fn http_headers_fire_at_most_once() {
    let mut counter = MessageIdCounter::new();
    let mut http = DelegatedHttp::new();
    let req = http.make_http_request(&mut counter, String::from("https://example/y"), "GET");
    let r = req.req_id;

    http.handle_http_headers(&HttpHeadersParams { status_code: 200, headers: vec![], req_id: r });
    http.handle_http_headers(&HttpHeadersParams {
        status_code: 500,
        headers: vec![(String::from("x"), String::from("y"))],
        req_id: r,
    });

    let done = http
        .handle_http_body(&HttpBodyParams { segment: vec![], complete: true, req_id: r })
        .expect("finalized");
    assert_eq!(done.initial, Some((200, vec![])));
}

#[test]
fn delegated_request_ids_are_fresh() {
    let mut counter = MessageIdCounter::new();
    let mut http = DelegatedHttp::new();
    let a = http.make_http_request(&mut counter, String::from("https://a"), "GET").req_id;
    let b = http.make_http_request(&mut counter, String::from("https://b"), "GET").req_id;
    assert_ne!(a, b);
}

#[test]
fn message_ids_increment() {
    let mut counter = MessageIdCounter::new();
    assert_eq!(next_message_id(&mut counter), 0);
    assert_eq!(next_message_id(&mut counter), 1);
    assert_eq!(next_message_id(&mut counter), 2);
}

#[test]
fn dispose_closes_bridges_and_drops_http_requests() {
    let mut state = ConnectionState::new(false);
    let params = serve_params(7);
    complete_serve(&mut state.code_server, &mut state.multiplexer, &params, started_handle())
        .expect("serve succeeds");
    let mut counter = MessageIdCounter::new();
    let r = state
        .http_requests
        .make_http_request(&mut counter, String::from("https://example/z"), "GET")
        .req_id;

    state.dispose();

    // Zero bridges: a write finds none.
    assert!(!state.multiplexer.write_message(7, &[1]));
    assert!(state.multiplexer.drain_bridge(7).is_none());
    // The delegated map is empty: the finalizing frame finds nothing.
    let gone = state.http_requests.handle_http_body(&HttpBodyParams {
        segment: vec![],
        complete: true,
        req_id: r,
    });
    assert!(gone.is_none());
}

#[test]
fn update_skipped_when_integrated_or_already_done() {
    // Integrated: never self-update, and nothing ran this session.
    let flag = DidUpdateFlag::new();
    assert_eq!(
        handle_update_begin(true, &flag),
        UpdateStep::Done(UpdateResult { up_to_date: true, did_update: false })
    );
    // The latch is set: an update did run this session, under another call.
    let mut set_flag = DidUpdateFlag::new();
    assert!(set_flag.try_set());
    assert_eq!(
        handle_update_begin(false, &set_flag),
        UpdateStep::Done(UpdateResult { up_to_date: true, did_update: true })
    );
    assert_eq!(handle_update_begin(false, &flag), UpdateStep::CheckRelease);
}

#[test]
fn update_when_already_current_reports_so() {
    let mut flag = DidUpdateFlag::new();
    let plan = handle_update_checked(&mut flag, &UpdateParams { do_update: true }, true);
    assert_eq!(plan, UpdatePlan::Done(UpdateResult { up_to_date: true, did_update: false }));
    assert!(!flag.load());
}

#[test]
fn concurrent_updates_perform_once() {
    let mut flag = DidUpdateFlag::new();
    let first = handle_update_checked(&mut flag, &UpdateParams { do_update: true }, false);
    assert_eq!(first, UpdatePlan::PerformUpdate);
    let second = handle_update_checked(&mut flag, &UpdateParams { do_update: true }, false);
    assert_eq!(
        second,
        UpdatePlan::Done(UpdateResult { up_to_date: true, did_update: true })
    );
    // A call arriving after the latch is set is told the same at entry.
    assert_eq!(
        handle_update_begin(false, &flag),
        UpdateStep::Done(UpdateResult { up_to_date: true, did_update: true })
    );
}

#[test]
fn update_failure_becomes_an_error_reply() {
    let r = handle_update_performed(Err(String::from("no permission")));
    assert_eq!(r, Err(RpcError::UpdateFailed(String::from("no permission"))));
    let reply = complete_update(Some(11), r).expect("reply owed");
    assert_eq!(reply.id, 11);
    assert_eq!(reply.body, ReplyBody::Error(RpcError::UpdateFailed(String::from("no permission"))));
}

#[test]
fn update_triggers_respawn() {
    let mut state = ConnectionState::new(false);
    let outcome = dispatch(
        &mut state,
        RpcRequest {
            id: Some(8),
            method: RequestMethod::Update(UpdateParams { do_update: true }),
        },
    );
    assert!(matches!(outcome, DispatchOutcome::Pending(_)));

    assert_eq!(handle_update_begin(state.is_integrated, &state.did_update), UpdateStep::CheckRelease);
    let plan = handle_update_checked(&mut state.did_update, &UpdateParams { do_update: true }, false);
    assert_eq!(plan, UpdatePlan::PerformUpdate);
    let result = handle_update_performed(Ok(()));
    assert_eq!(result, Ok(UpdateResult { up_to_date: true, did_update: true }));
    let reply = complete_update(Some(8), result).expect("reply owed");
    assert_eq!(reply.id, 8);
    assert_eq!(reply.body, ReplyBody::Update(UpdateResult { up_to_date: true, did_update: true }));

    // The client closes the socket; the connection task signals, the loop terminates.
    let signal = connection_finished(&state.did_update).expect("did_update is set");
    assert_eq!(signal, ServerSignal::Respawn);
    assert_eq!(
        serve_step(ServeEvent::ServerSignalled(signal)),
        ServeAction::Terminate(Next::Respawn)
    );
}

#[test]
fn accept_loop_decisions() {
    assert_eq!(
        serve_step(ServeEvent::Shutdown(ShutdownSignal::RpcRestartRequested)),
        ServeAction::Terminate(Next::Restart)
    );
    assert_eq!(
        serve_step(ServeEvent::Shutdown(ShutdownSignal::Stop)),
        ServeAction::Terminate(Next::Exit)
    );
    assert_eq!(
        serve_step(ServeEvent::Shutdown(ShutdownSignal::RpcShutdownRequested)),
        ServeAction::Terminate(Next::Exit)
    );
    assert_eq!(serve_step(ServeEvent::TunnelClosed), ServeAction::Terminate(Next::Restart));
    assert_eq!(serve_step(ServeEvent::Connection), ServeAction::SpawnConnection);
    assert_eq!(serve_step(ServeEvent::Forwarding), ServeAction::ProcessForwarding);
}

#[test]
fn connection_without_update_does_not_respawn() {
    let flag = DidUpdateFlag::new();
    assert!(connection_finished(&flag).is_none());
}

#[test]
fn prune_reply_lists_reaped_directories() {
    let reply = complete_prune(
        Some(12),
        Ok(vec![
            PrunedServer { server_dir: String::from("/srv/a") },
            PrunedServer { server_dir: String::from("/srv/b") },
        ]),
    )
    .expect("reply owed");
    assert_eq!(reply.id, 12);
    assert_eq!(
        reply.body,
        ReplyBody::Prune(vec![String::from("/srv/a"), String::from("/srv/b")])
    );
}

#[test]
fn prune_walk_failure_is_reported() {
    let reply = complete_prune(Some(20), Err(String::from("permission denied"))).unwrap();
    assert_eq!(reply.id, 20);
    assert_eq!(
        reply.body,
        ReplyBody::Error(RpcError::PruneFailed(String::from("permission denied")))
    );
}

#[test]
fn bridges_carry_the_requested_compression_mode() {
    let mut state = ConnectionState::new(false);
    let mut compressed = serve_params(5);
    compressed.compress = true;
    complete_serve(&mut state.code_server, &mut state.multiplexer, &compressed, started_handle())
        .expect("serve succeeds");
    let plain = serve_params(6);
    complete_serve(&mut state.code_server, &mut state.multiplexer, &plain, None)
        .expect("serve succeeds");
    assert_eq!(state.multiplexer.bridge_compressed(5), Some(true));
    assert_eq!(state.multiplexer.bridge_compressed(6), Some(false));
    assert_eq!(state.multiplexer.bridge_compressed(7), None);
}

#[test]
fn bridge_connect_failure_closes_only_that_bridge() {
    let mut state = ConnectionState::new(false);
    complete_serve(&mut state.code_server, &mut state.multiplexer, &serve_params(7), started_handle())
        .expect("serve succeeds");
    complete_serve(&mut state.code_server, &mut state.multiplexer, &serve_params(8), None)
        .expect("serve succeeds");

    let kept = handle_bridge_connect(&mut state.multiplexer, 8, Ok(()));
    assert_eq!(kept, Ok(8));

    let refused =
        handle_bridge_connect(&mut state.multiplexer, 7, Err(String::from("connection refused")));
    assert_eq!(
        refused,
        Err(RpcError::BridgeConnectFailed(String::from("connection refused")))
    );
    // Bridge 7 is gone; bridge 8 still accepts writes; the connection lives.
    assert!(!state.multiplexer.write_message(7, &[1]));
    assert!(state.multiplexer.write_message(8, &[2]));
}

#[test]
fn forward_and_unforward_replies() {
    let reply = complete_forward(Some(13), Ok(String::from("https://tunnel/8080"))).unwrap();
    assert_eq!(reply.id, 13);
    match reply.body {
        ReplyBody::Forward(f) => assert_eq!(f.uri, "https://tunnel/8080"),
        other => panic!("expected a forward body, got {:?}", other),
    }

    let reply = complete_forward(Some(14), Err(String::from("port taken"))).unwrap();
    assert_eq!(reply.body, ReplyBody::Error(RpcError::ForwardingFailed(String::from("port taken"))));

    let reply = complete_unforward(Some(15), Ok(())).unwrap();
    assert_eq!(reply.body, ReplyBody::Empty);
    let reply = complete_unforward(Some(16), Err(String::from("not forwarded"))).unwrap();
    assert_eq!(
        reply.body,
        ReplyBody::Error(RpcError::ForwardingFailed(String::from("not forwarded")))
    );
}

#[test]
fn call_server_http_requires_an_attached_server() {
    let params = CallServerHttpParams {
        path: String::from("/version"),
        method: String::from("GET"),
        headers: HashMap::new(),
        body: None,
    };
    let r = prepare_server_http(false, params);
    assert!(matches!(r, Err(RpcError::NoAttachedServer)));
}

#[test]
fn call_server_http_addresses_loopback() {
    let mut headers = HashMap::new();
    headers.insert(String::from("accept"), String::from("application/json"));
    let params = CallServerHttpParams {
        path: String::from("/version"),
        method: String::from("GET"),
        headers: headers.clone(),
        body: None,
    };
    let p = prepare_server_http(true, params).expect("attached");
    assert_eq!(p.uri, "http://127.0.0.1/version");
    assert_eq!(p.method, "GET");
    assert_eq!(p.headers, headers);
    assert!(p.body.is_empty());
}

#[test]
fn call_server_http_failure_reply() {
    let reply =
        complete_call_server_http(Some(17), Err(String::from("connection refused"))).unwrap();
    assert_eq!(reply.id, 17);
    assert_eq!(
        reply.body,
        ReplyBody::Error(RpcError::ServerHttpFailed(String::from("connection refused")))
    );
}

#[test]
fn version_notification_has_no_id() {
    let n = version_notification();
    assert!(n.id.is_none());
    match n.params {
        ClientRequestMethod::version(v) => {
            assert_eq!(v.version, "dev");
            assert_eq!(v.protocol_version, PROTOCOL_VERSION);
        }
        _ => panic!("expected a version notification"),
    }
}

#[test]
fn server_messages_toward_the_client_carry_socket_and_bytes() {
    let n = server_msg_notification(7, &[1, 2, 3]);
    assert!(n.id.is_none());
    match n.params {
        ClientRequestMethod::servermsg(m) => {
            assert_eq!(m.i, 7);
            assert_eq!(m.body, &[1, 2, 3]);
        }
        _ => panic!("expected a servermsg notification"),
    }
}

#[test]
fn log_lines_toward_the_client_carry_level_and_text() {
    let n = server_log_notification(LogLevel::Info, "started");
    assert!(n.id.is_none());
    match n.params {
        ClientRequestMethod::serverlog(l) => {
            assert_eq!(l.level, 2);
            assert_eq!(l.line, "started");
        }
        _ => panic!("expected a serverlog notification"),
    }
}

#[test]
fn tx_counter_totals_written_bytes() {
    let mut stats = SocketStats::new();
    stats.add_tx(10);
    stats.add_tx(0);
    stats.add_tx(7);
    assert_eq!(stats.tx, 17);
    assert_eq!(stats.rx, 0);
}

#[test]
fn error_kinds_have_stable_names() {
    assert_eq!(RpcError::NoAttachedServer.kind_name(), "NoAttachedServer");
    assert_eq!(RpcError::MismatchedLaunchMode.kind_name(), "MismatchedLaunchMode");
    assert_eq!(RpcError::SocketIdInUse(7).kind_name(), "SocketIdInUse");
    assert_eq!(RpcError::InvalidRpcData(String::new()).kind_name(), "InvalidRpcData");
    assert_eq!(RpcError::ServerStartFailed(String::new()).kind_name(), "ServerStartFailed");
    assert_eq!(
        RpcError::BridgeConnectFailed(String::new()).kind_name(),
        "BridgeConnectFailed"
    );
    assert_eq!(RpcError::PruneFailed(String::new()).kind_name(), "PruneFailed");
    assert_eq!(RpcError::UpdateFailed(String::new()).kind_name(), "UpdateFailed");
    assert_eq!(RpcError::ForwardingFailed(String::new()).kind_name(), "ForwardingFailed");
    assert_eq!(RpcError::ServerHttpFailed(String::new()).kind_name(), "ServerHttpFailed");
}
