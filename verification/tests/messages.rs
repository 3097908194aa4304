use codex_master::protocol::{
    BrowserToServerMessage, ClientToServerMessage, DeviceStatusMessage, PermissionOptionMessage,
    ServerToBrowserMessage, ServerToClientMessage, SessionEventMessage, WorkspaceSummaryMessage,
};
use codex_master::relay_server::connections::{
    client_message_kind, close_frame_summary, server_message_kind, truncate_for_log,
    RELAY_CLOSE_REASON_BROWSER_BINARY_UNSUPPORTED, RELAY_CLOSE_REASON_BROWSER_JSON_INVALID,
    RELAY_CLOSE_REASON_CLIENT_AUTH_REJECTED, RELAY_CLOSE_REASON_CLIENT_HELLO_INVALID,
};
use codex_master::relay_server::session_helpers::{
    SESSION_STATUS_AWAITING_PERMISSION, SESSION_STATUS_CLOSED, SESSION_STATUS_DEVICE_DISCONNECTED,
    SESSION_STATUS_IDLE, SESSION_STATUS_READY, SESSION_STATUS_REQUESTED,
    SESSION_STATUS_RESUME_FAILED, SESSION_STATUS_RUNNING,
};
use codex_master::relay_server::sockets::{
    browser_frame_action, client_frame_action, greet_client, read_client_hello, Frame, FrameAction,
    Greeting,
};
use codex_master::relay_server::state::{
    AppState, BrowserAuthConfig, ClientAuthConfig, Delivery, LocalLoginAuthConfig, Outcome,
    RelayError, Step,
};
use codex_master::relay_state::{RelayPersistence, RelaySnapshot, RelayStore, StoreWrite};
use codex_master::string_map::StringSet;

fn browser_auth() -> BrowserAuthConfig {
    BrowserAuthConfig {
        login: LocalLoginAuthConfig {
            username: "admin".to_string(),
            password: "password".to_string(),
            session_ttl_secs: 3600,
            cookie_name: "relay_session".to_string(),
            cookie_secure: true,
        },
        allowed_origins: StringSet::new(),
    }
}

fn server_on(store: RelayStore, threshold: usize) -> AppState {
    AppState::new(
        ClientAuthConfig { accepted_tokens: StringSet::new(), revoked_tokens: StringSet::new() },
        browser_auth(),
        RelayPersistence::new("/srv/relay/state.json".to_string(), threshold, 100),
        store,
    )
}

fn device() -> DeviceStatusMessage {
    DeviceStatusMessage {
        device_id: "device-a".to_string(),
        device_name: "Device A".to_string(),
        connected: true,
        workspaces: vec![WorkspaceSummaryMessage {
            workspace_id: "ws".to_string(),
            workspace_name: "Workspace".to_string(),
        }],
    }
}

/// Carries the steps of a message to their end, as if every write succeeded.
fn run(server: &mut AppState, first: Step) -> Outcome {
    let mut step = first;
    loop {
        match step {
            Step::Finished { outcome } => return outcome,
            Step::Persist { next, .. } => step = server.follow_up_at(next, None, 1000),
        }
    }
}

fn ask(server: &mut AppState, browser: &str, user: &str, message: BrowserToServerMessage) -> Outcome {
    let step = server.handle_browser_message_at(browser, user, message, 500);
    run(server, step)
}

fn tell(server: &mut AppState, message: ClientToServerMessage) -> Outcome {
    let step = server.handle_client_message_at("device-a", message, 600);
    run(server, step)
}

/// A server with one device and two browsers, of alice and bob.
fn busy_server() -> (AppState, String, String) {
    let mut server = server_on(RelayStore::default(), 200);
    let step = server.connect_device(device());
    run(&mut server, step);
    let (alice, _) = server.connect_browser("alice".to_string());
    let (bob, _) = server.connect_browser("bob".to_string());
    (server, alice, bob)
}

fn create(server: &mut AppState, browser: &str, user: &str) -> String {
    let outcome = ask(
        server,
        browser,
        user,
        BrowserToServerMessage::CreateSession {
            device_id: "device-a".to_string(),
            workspace_id: "ws".to_string(),
        },
    );
    assert!(outcome.error.is_none());
    match outcome.deliveries.last() {
        Some(Delivery::Client {
            message: ServerToClientMessage::CreateSession { session_id, .. },
            ..
        }) => session_id.clone(),
        other => panic!("unexpected delivery: {other:?}"),
    }
}

fn created(server: &mut AppState, session_id: &str) -> Outcome {
    tell(
        server,
        ClientToServerMessage::SessionCreated {
            session_id: session_id.to_string(),
            client_session_id: "acp-1".to_string(),
            workspace_id: "ws".to_string(),
            workspace_name: "Workspace".to_string(),
        },
    )
}

fn status(server: &AppState, session_id: &str) -> String {
    server.store.sessions.get(session_id).expect("the session is stored").summary.status.clone()
}

fn failure(outcome: &Outcome) -> String {
    outcome.error.as_ref().expect("the request is refused").message()
}

#[test]
fn first_lists_go_to_a_browser_that_connects() {
    let mut server = server_on(RelayStore::default(), 200);
    let step = server.connect_device(device());
    let outcome = run(&mut server, step);
    assert!(outcome.deliveries.is_empty());
    let (browser, deliveries) = server.connect_browser("alice".to_string());
    assert_eq!(browser, "browser-1");
    assert_eq!(deliveries.len(), 2);
    match &deliveries[0] {
        Delivery::Browser {
            browser_id,
            message: ServerToBrowserMessage::DeviceList { devices },
            required,
        } => {
            assert_eq!(browser_id, "browser-1");
            assert_eq!(devices[0].device_id, "device-a");
            assert!(devices[0].connected);
            assert!(!*required);
        }
        other => panic!("unexpected delivery: {other:?}"),
    }
    assert!(matches!(
        &deliveries[1],
        Delivery::Browser { message: ServerToBrowserMessage::SessionList { sessions }, .. }
            if sessions.is_empty()
    ));
    assert_eq!(server.connect_browser("bob".to_string()).0, "browser-2");
}

#[test]
fn a_session_goes_from_request_to_idle() {
    let (mut server, alice, _) = busy_server();
    let session = create(&mut server, &alice, "alice");
    assert_eq!(session, "relay-session-1");
    assert_eq!(status(&server, &session), SESSION_STATUS_REQUESTED);
    let outcome = created(&mut server, &session);
    assert!(outcome.error.is_none());
    assert_eq!(status(&server, &session), SESSION_STATUS_READY);
    // Alice hears of the update and of the creation, Bob of neither.
    assert_eq!(outcome.deliveries.len(), 2);
    assert!(matches!(
        &outcome.deliveries[1],
        Delivery::Browser {
            message: ServerToBrowserMessage::SessionCreated { .. },
            required: true,
            ..
        }
    ));
    let outcome = ask(
        &mut server,
        &alice,
        "alice",
        BrowserToServerMessage::Prompt { session_id: session.clone(), text: "hi".to_string() },
    );
    assert!(outcome.error.is_none());
    assert_eq!(status(&server, &session), SESSION_STATUS_RUNNING);
    match outcome.deliveries.last() {
        Some(Delivery::Client {
            device_id,
            message: ServerToClientMessage::Prompt { session_id, text, create_session_if_missing },
            ..
        }) => {
            assert_eq!(device_id, "device-a");
            assert_eq!(session_id.as_deref(), Some("relay-session-1"));
            assert_eq!(text, "hi");
            assert!(!*create_session_if_missing);
        }
        other => panic!("unexpected delivery: {other:?}"),
    }
    // The device names the session by its own id.
    let outcome = tell(
        &mut server,
        ClientToServerMessage::OutputChunk {
            session_id: "acp-1".to_string(),
            text: "hello".to_string(),
        },
    );
    assert!(matches!(
        outcome.deliveries.last(),
        Some(Delivery::Browser { message: ServerToBrowserMessage::OutputChunk { session_id, text }, .. })
            if session_id == "relay-session-1" && text == "hello"
    ));
    let outcome = tell(
        &mut server,
        ClientToServerMessage::PromptFinished {
            session_id: "acp-1".to_string(),
            stop_reason: "EndTurn".to_string(),
        },
    );
    assert_eq!(outcome.deliveries.len(), 1);
    assert_eq!(status(&server, &session), SESSION_STATUS_IDLE);
    let kinds: Vec<&str> = server.store.events.iter().map(|event| event.kind.as_str()).collect();
    assert_eq!(
        kinds,
        vec![
            "session_requested",
            "session_created",
            "prompt_submitted",
            "output_chunk",
            "prompt_finished"
        ]
    );
    assert_eq!(server.store.events[1].text.as_deref(), Some("Workspace (ws)"));
    assert_eq!(server.store.events[4].stop_reason.as_deref(), Some("EndTurn"));
    assert_eq!(server.store.events[4].timestamp, 600);
}

#[test]
fn sessions_need_a_connected_device_and_a_known_workspace() {
    let (mut server, alice, _) = busy_server();
    let mut refused = |device_id: &str, workspace_id: &str| {
        let outcome = ask(
            &mut server,
            &alice,
            "alice",
            BrowserToServerMessage::CreateSession {
                device_id: device_id.to_string(),
                workspace_id: workspace_id.to_string(),
            },
        );
        assert!(outcome.deliveries.is_empty());
        failure(&outcome)
    };
    assert_eq!(refused("device-b", "ws"), "device 未连接: device-b");
    assert_eq!(refused("device-a", "none"), "device `device-a` 不存在 workspace `none`");
    server.devices.insert("ghost".to_string());
    let outcome = ask(
        &mut server,
        &alice,
        "alice",
        BrowserToServerMessage::CreateSession {
            device_id: "ghost".to_string(),
            workspace_id: "ws".to_string(),
        },
    );
    assert_eq!(failure(&outcome), "未知 device: ghost");
    assert!(server.store.events.is_empty());
    assert_eq!(server.next_session_id, 1);
}

#[test]
fn sessions_of_others_are_out_of_reach() {
    let (mut server, alice, bob) = busy_server();
    let session = create(&mut server, &alice, "alice");
    let before = server.store.events.len();
    for message in [
        BrowserToServerMessage::Prompt { session_id: session.clone(), text: "x".to_string() },
        BrowserToServerMessage::CloseSession { session_id: session.clone() },
        BrowserToServerMessage::DeleteSession { session_id: session.clone() },
        BrowserToServerMessage::AdoptSession { session_id: session.clone() },
        BrowserToServerMessage::GetSessionHistory {
            session_id: session.clone(),
            before_seq: None,
            limit: None,
        },
    ] {
        let outcome = ask(&mut server, &bob, "bob", message);
        assert_eq!(failure(&outcome), "当前用户无权访问该 session");
        assert!(outcome.deliveries.is_empty());
    }
    assert_eq!(server.store.events.len(), before);
    let outcome = ask(&mut server, &bob, "bob", BrowserToServerMessage::ListSessions);
    assert!(matches!(
        &outcome.deliveries[0],
        Delivery::Browser { message: ServerToBrowserMessage::SessionList { sessions }, .. }
            if sessions.is_empty()
    ));
    // A second browser of the same user has to adopt the session first.
    let (second, _) = server.connect_browser("alice".to_string());
    let prompt =
        BrowserToServerMessage::Prompt { session_id: session.clone(), text: "x".to_string() };
    let outcome = ask(&mut server, &second, "alice", prompt.clone());
    assert_eq!(failure(&outcome), "当前 browser 无权访问该 session");
    let outcome = ask(
        &mut server,
        &second,
        "alice",
        BrowserToServerMessage::AdoptSession { session_id: session.clone() },
    );
    assert!(outcome.error.is_none());
    assert!(ask(&mut server, &second, "alice", prompt).error.is_none());
}

#[test]
fn unknown_sessions_are_reported() {
    let (mut server, alice, _) = busy_server();
    for message in [
        BrowserToServerMessage::Prompt { session_id: "s".to_string(), text: "x".to_string() },
        BrowserToServerMessage::CloseSession { session_id: "s".to_string() },
        BrowserToServerMessage::AdoptSession { session_id: "s".to_string() },
    ] {
        assert_eq!(
            failure(&ask(&mut server, &alice, "alice", message)),
            "未知 relay session: s"
        );
    }
    let outcome = tell(
        &mut server,
        ClientToServerMessage::OutputChunk { session_id: "s".to_string(), text: "x".to_string() },
    );
    assert_eq!(failure(&outcome), "未知 relay session: s");
    let outcome = tell(
        &mut server,
        ClientToServerMessage::SessionResumed {
            session_id: "s".to_string(),
            client_session_id: "acp".to_string(),
        },
    );
    assert_eq!(failure(&outcome), "未知 relay session: s");
}

#[test]
fn an_ownerless_session_is_claimed_by_adoption() {
    let (mut server, alice, _) = busy_server();
    let session = create(&mut server, &alice, "alice");
    server.store.sessions.get_mut(&session).unwrap().summary.owner_user_id = None;
    let mut server = {
        let mut again = server_on(server.store.clone(), 200);
        let step = again.connect_device(device());
        run(&mut again, step);
        again
    };
    let (alice, _) = server.connect_browser("alice".to_string());
    let (bob, _) = server.connect_browser("bob".to_string());
    let history = BrowserToServerMessage::GetSessionHistory {
        session_id: session.clone(),
        before_seq: None,
        limit: None,
    };
    assert!(ask(&mut server, &alice, "alice", history.clone()).error.is_none());
    let outcome = ask(
        &mut server,
        &bob,
        "bob",
        BrowserToServerMessage::AdoptSession { session_id: session.clone() },
    );
    assert!(outcome.error.is_none());
    assert_eq!(outcome.deliveries.len(), 3);
    assert!(matches!(
        &outcome.deliveries[0],
        Delivery::Browser { browser_id, message: ServerToBrowserMessage::SessionRemoved { .. }, .. }
            if *browser_id == alice
    ));
    assert!(matches!(
        &outcome.deliveries[1],
        Delivery::Browser { browser_id, message: ServerToBrowserMessage::SessionUpdated { .. }, .. }
            if *browser_id == bob
    ));
    assert_eq!(
        failure(&ask(&mut server, &alice, "alice", history)),
        "当前用户无权访问该 session"
    );
}

#[test]
fn closed_sessions_take_no_prompt_and_can_be_deleted() {
    let (mut server, alice, _) = busy_server();
    let session = create(&mut server, &alice, "alice");
    created(&mut server, &session);
    let delete = BrowserToServerMessage::DeleteSession { session_id: session.clone() };
    let outcome = ask(&mut server, &alice, "alice", delete.clone());
    assert_eq!(failure(&outcome), "只能删除已关闭的 session");
    let close = BrowserToServerMessage::CloseSession { session_id: session.clone() };
    let outcome = ask(&mut server, &alice, "alice", close.clone());
    assert!(outcome.error.is_none());
    assert!(matches!(
        &outcome.deliveries[0],
        Delivery::Client {
            message: ServerToClientMessage::CancelSession { .. },
            required: false,
            ..
        }
    ));
    assert!(matches!(
        outcome.deliveries.last(),
        Some(Delivery::Browser { message: ServerToBrowserMessage::SessionClosed { .. }, .. })
    ));
    assert_eq!(status(&server, &session), SESSION_STATUS_CLOSED);
    // Closing it again only repeats the answer.
    let events = server.store.events.len();
    let outcome = ask(&mut server, &alice, "alice", close);
    assert_eq!(outcome.deliveries.len(), 1);
    assert_eq!(server.store.events.len(), events);
    let outcome = ask(
        &mut server,
        &alice,
        "alice",
        BrowserToServerMessage::Prompt { session_id: session.clone(), text: "x".to_string() },
    );
    assert_eq!(failure(&outcome), "session 已关闭，不能再发送 prompt");
    // What the device reports does not open it again.
    tell(
        &mut server,
        ClientToServerMessage::PromptFinished {
            session_id: session.clone(),
            stop_reason: "Cancelled".to_string(),
        },
    );
    created(&mut server, &session);
    assert_eq!(status(&server, &session), SESSION_STATUS_CLOSED);
    let outcome = ask(&mut server, &alice, "alice", delete);
    assert!(outcome.error.is_none());
    assert!(server.store.sessions.is_empty());
    assert!(server.sessions.is_empty());
    assert_eq!(server.store.events.len(), 1);
    assert_eq!(server.store.events[0].kind, "session_deleted");
    assert!(matches!(
        &outcome.deliveries[0],
        Delivery::Browser { message: ServerToBrowserMessage::SessionRemoved { .. }, .. }
    ));
}

fn request_permission(server: &mut AppState, request_id: &str, session_id: Option<&str>) -> Outcome {
    tell(
        server,
        ClientToServerMessage::PermissionRequested {
            request_id: request_id.to_string(),
            session_id: session_id.map(str::to_string),
            options: vec![PermissionOptionMessage {
                index: 0,
                name: "Allow".to_string(),
                kind: "AllowOnce".to_string(),
            }],
        },
    )
}

#[test]
fn permissions_are_answered_once_by_the_browser_that_was_asked() {
    let (mut server, alice, bob) = busy_server();
    let session = create(&mut server, &alice, "alice");
    created(&mut server, &session);
    let outcome = request_permission(&mut server, "perm-1", Some("acp-1"));
    assert!(outcome.error.is_none());
    assert_eq!(status(&server, &session), SESSION_STATUS_AWAITING_PERMISSION);
    assert!(matches!(
        outcome.deliveries.last(),
        Some(Delivery::Browser {
            browser_id,
            message: ServerToBrowserMessage::PermissionRequested { session_id, .. },
            ..
        }) if *browser_id == alice && session_id.as_deref() == Some("relay-session-1")
    ));
    let answer = |request_id: &str| BrowserToServerMessage::ResolvePermission {
        request_id: request_id.to_string(),
        selected_index: 0,
    };
    let outcome = ask(&mut server, &alice, "alice", answer("perm-1"));
    assert!(matches!(
        outcome.deliveries.last(),
        Some(Delivery::Client {
            message: ServerToClientMessage::ResolvePermission { selected_index: 0, .. },
            ..
        })
    ));
    assert_eq!(status(&server, &session), SESSION_STATUS_RUNNING);
    let last = server.store.events.last().unwrap();
    assert_eq!(last.kind, "permission_resolved");
    assert_eq!(last.text.as_deref(), Some("selected_index=0"));
    assert_eq!(last.request_id.as_deref(), Some("perm-1"));
    let outcome = ask(&mut server, &alice, "alice", answer("perm-1"));
    assert_eq!(failure(&outcome), "未知 permission request: perm-1");
    request_permission(&mut server, "perm-2", Some(&session));
    let outcome = ask(&mut server, &bob, "bob", answer("perm-2"));
    assert_eq!(failure(&outcome), "当前 browser 无权响应该 permission request");
    assert!(server.permissions.is_empty());
    // Requests of no known session are passed over.
    assert!(request_permission(&mut server, "perm-3", None).deliveries.is_empty());
    assert!(request_permission(&mut server, "perm-4", Some("nope")).deliveries.is_empty());
    assert!(server.permissions.is_empty());
}

#[test]
fn a_browser_that_leaves_takes_its_requests_along() {
    let (mut server, alice, _) = busy_server();
    let session = create(&mut server, &alice, "alice");
    request_permission(&mut server, "perm-1", Some(&session));
    assert_eq!(server.permissions.len(), 1);
    server.cleanup_browser(&alice);
    assert!(server.permissions.is_empty());
    assert!(!server.browsers.contains_key(&alice));
    // Output now finds no browser to go to.
    let outcome = tell(
        &mut server,
        ClientToServerMessage::OutputChunk { session_id: session, text: "x".to_string() },
    );
    assert_eq!(failure(&outcome), format!("browser 已离线: {alice}"));
}

#[test]
fn a_device_that_leaves_marks_its_sessions() {
    let (mut server, alice, bob) = busy_server();
    let session = create(&mut server, &alice, "alice");
    request_permission(&mut server, "perm-1", Some(&session));
    let step = server.disconnect_device(device());
    let outcome = run(&mut server, step);
    assert!(server.devices.is_empty());
    assert!(server.permissions.is_empty());
    assert_eq!(status(&server, &session), SESSION_STATUS_DEVICE_DISCONNECTED);
    assert_eq!(server.store.events.last().unwrap().kind, "device_disconnected");
    assert_eq!(server.store.events.last().unwrap().text.as_deref(), Some("device-a"));
    assert_eq!(outcome.deliveries.len(), 4);
    assert!(matches!(
        &outcome.deliveries[1],
        Delivery::Browser { browser_id, message: ServerToBrowserMessage::Error { message, .. }, .. }
            if *browser_id == alice && message == "device 已断开连接: device-a"
    ));
    assert!(matches!(
        &outcome.deliveries[3],
        Delivery::Browser { browser_id, message: ServerToBrowserMessage::DeviceStatus { device }, .. }
            if *browser_id == bob && !device.connected
    ));
    // Where the store cannot be written the sessions are not announced.
    let step = server.connect_device(device());
    run(&mut server, step);
    let first = server.disconnect_device(device());
    let second = match first {
        Step::Persist { next, .. } => server.follow_up(next, Some("disk full".to_string())),
        other => panic!("unexpected step: {other:?}"),
    };
    match second {
        Step::Persist { next, .. } => {
            match server.follow_up(next, Some("disk full".to_string())) {
                Step::Finished { outcome } => {
                    assert!(outcome.error.is_none());
                    assert_eq!(outcome.deliveries.len(), 3);
                }
                other => panic!("unexpected step: {other:?}"),
            }
        }
        other => panic!("unexpected step: {other:?}"),
    }
}

#[test]
fn a_write_that_fails_ends_the_work() {
    let (mut server, alice, _) = busy_server();
    let step = server.handle_browser_message(
        &alice,
        "alice",
        BrowserToServerMessage::CreateSession {
            device_id: "device-a".to_string(),
            workspace_id: "ws".to_string(),
        },
    );
    match step {
        Step::Persist { next, .. } => match server.follow_up(next, Some("disk full".to_string())) {
            Step::Finished { outcome } => {
                assert!(outcome.deliveries.is_empty());
                assert_eq!(failure(&outcome), "disk full");
                let reply = server.error_reply(&alice, outcome.error.as_ref().unwrap());
                assert!(matches!(
                    &reply[0],
                    Delivery::Browser {
                        message: ServerToBrowserMessage::Error { session_id: None, message },
                        required: false,
                        ..
                    } if message == "disk full"
                ));
            }
            other => panic!("unexpected step: {other:?}"),
        },
        other => panic!("unexpected step: {other:?}"),
    }
}

#[test]
fn ready_devices_resume_their_sessions_oldest_first() {
    let (mut server, alice, _) = busy_server();
    let first = create(&mut server, &alice, "alice");
    let second = create(&mut server, &alice, "alice");
    created(&mut server, &first);
    created(&mut server, &second);
    server.store.sessions.get_mut(&first).unwrap().summary.updated_at = 900;
    let outcome = tell(
        &mut server,
        ClientToServerMessage::Ready { agent_name: "codex".to_string() },
    );
    assert!(matches!(
        &outcome.deliveries[0],
        Delivery::Browser { message: ServerToBrowserMessage::Info { message }, .. }
            if message == "device device-a ready with agent codex"
    ));
    let resumed: Vec<String> = outcome
        .deliveries
        .iter()
        .filter_map(|delivery| match delivery {
            Delivery::Client {
                message: ServerToClientMessage::ResumeSession { session_id, .. },
                ..
            } => Some(session_id.clone()),
            _ => None,
        })
        .collect();
    assert_eq!(resumed, vec![second, first]);
}

fn resumed_by(outcome: &Outcome) -> Vec<String> {
    outcome
        .deliveries
        .iter()
        .filter_map(|delivery| match delivery {
            Delivery::Client {
                message: ServerToClientMessage::ResumeSession { session_id, .. },
                ..
            } => Some(session_id.clone()),
            _ => None,
        })
        .collect()
}

#[test]
fn a_reconnect_resumes_neither_closed_nor_failed_sessions() {
    let (mut server, alice, _) = busy_server();
    let closed = create(&mut server, &alice, "alice");
    let failed = create(&mut server, &alice, "alice");
    let idle = create(&mut server, &alice, "alice");
    for session in [&closed, &failed, &idle] {
        created(&mut server, session);
    }
    ask(
        &mut server,
        &alice,
        "alice",
        BrowserToServerMessage::CloseSession { session_id: closed.clone() },
    );
    tell(
        &mut server,
        ClientToServerMessage::SessionResumeFailed {
            session_id: failed.clone(),
            client_session_id: "acp-1".to_string(),
            message: "gone".to_string(),
        },
    );
    let ready = ClientToServerMessage::Ready { agent_name: "codex".to_string() };
    assert_eq!(resumed_by(&tell(&mut server, ready.clone())), vec![idle.clone()]);
    let step = server.disconnect_device(device());
    run(&mut server, step);
    assert_eq!(status(&server, &closed), SESSION_STATUS_CLOSED);
    assert_eq!(status(&server, &failed), SESSION_STATUS_RESUME_FAILED);
    assert_eq!(status(&server, &idle), SESSION_STATUS_DEVICE_DISCONNECTED);
    let updated_at = |id: &str| server.store.sessions.get(id).unwrap().summary.updated_at;
    assert_eq!(
        (updated_at(&closed), updated_at(&failed), updated_at(&idle)),
        (1000, 1000, 1000)
    );
    let step = server.connect_device(device());
    run(&mut server, step);
    assert_eq!(resumed_by(&tell(&mut server, ready)), vec![idle]);
}

#[test]
fn failed_resumes_are_kept_and_told() {
    let (mut server, alice, _) = busy_server();
    let session = create(&mut server, &alice, "alice");
    let outcome = tell(
        &mut server,
        ClientToServerMessage::SessionResumeFailed {
            session_id: session.clone(),
            client_session_id: "acp-1".to_string(),
            message: "gone".to_string(),
        },
    );
    assert_eq!(status(&server, &session), SESSION_STATUS_RESUME_FAILED);
    assert!(matches!(
        outcome.deliveries.last(),
        Some(Delivery::Browser {
            message: ServerToBrowserMessage::Error { session_id: Some(_), message },
            ..
        }) if message == "session 恢复失败，acp=acp-1: gone"
    ));
    let outcome = tell(
        &mut server,
        ClientToServerMessage::SessionResumed {
            session_id: session.clone(),
            client_session_id: "acp-2".to_string(),
        },
    );
    assert!(outcome.error.is_none());
    assert_eq!(status(&server, &session), SESSION_STATUS_IDLE);
    assert_eq!(
        server.sessions.get(&session).unwrap().client_session_id.as_deref(),
        Some("acp-2")
    );
}

#[test]
fn notes_of_devices_go_to_all_browsers() {
    let (mut server, _, _) = busy_server();
    let outcome = tell(&mut server, ClientToServerMessage::Info { message: "hm".to_string() });
    assert_eq!(outcome.deliveries.len(), 2);
    assert!(matches!(
        &outcome.deliveries[1],
        Delivery::Browser { message: ServerToBrowserMessage::Info { message }, .. }
            if message == "device device-a: hm"
    ));
    let outcome = tell(&mut server, ClientToServerMessage::Error { message: "oh".to_string() });
    assert!(matches!(
        &outcome.deliveries[0],
        Delivery::Browser { message: ServerToBrowserMessage::Info { message }, .. }
            if message == "device device-a error: oh"
    ));
}

#[test]
fn pings_of_browsers_are_answered_by_nothing() {
    let (mut server, alice, _) = busy_server();
    let outcome = ask(&mut server, &alice, "alice", BrowserToServerMessage::Ping);
    assert!(outcome.error.is_none());
    assert!(outcome.deliveries.is_empty());
    let outcome = ask(&mut server, "browser-99", "alice", BrowserToServerMessage::ListDevices);
    assert_eq!(failure(&outcome), "browser 已离线: browser-99");
}

#[test]
fn history_comes_in_adjacent_pages() {
    let (mut server, alice, _) = busy_server();
    let session = create(&mut server, &alice, "alice");
    for i in 0..6 {
        tell(
            &mut server,
            ClientToServerMessage::OutputChunk {
                session_id: session.clone(),
                text: format!("{i}"),
            },
        );
    }
    let mut before_seq = None;
    let mut seen: Vec<u64> = vec![];
    let mut pages = 0;
    loop {
        let outcome = ask(
            &mut server,
            &alice,
            "alice",
            BrowserToServerMessage::GetSessionHistory {
                session_id: session.clone(),
                before_seq,
                limit: Some(3),
            },
        );
        match &outcome.deliveries[0] {
            Delivery::Browser {
                message:
                    ServerToBrowserMessage::SessionHistory { events, next_before_seq, has_more, .. },
                ..
            } => {
                let mut page: Vec<u64> = events.iter().map(|event| event.seq).collect();
                page.extend(seen);
                seen = page;
                pages += 1;
                before_seq = *next_before_seq;
                assert_eq!(*has_more, next_before_seq.is_some());
                if !*has_more {
                    break;
                }
            }
            other => panic!("unexpected delivery: {other:?}"),
        }
    }
    assert_eq!(pages, 3);
    assert_eq!(seen, vec![1, 2, 3, 4, 5, 6, 7]);
}

#[test]
fn failed_deliveries_end_the_work_only_where_they_are_required() {
    let browser = Delivery::Browser {
        browser_id: "browser-1".to_string(),
        message: ServerToBrowserMessage::Info { message: "x".to_string() },
        required: true,
    };
    assert_eq!(browser.failure().unwrap().message(), "browser channel 已关闭");
    let client = Delivery::Client {
        device_id: "device".to_string(),
        message: ServerToClientMessage::Ping,
        required: true,
    };
    assert_eq!(client.failure().unwrap().message(), "client channel 已关闭");
    let offered = Delivery::Client {
        device_id: "device".to_string(),
        message: ServerToClientMessage::Ping,
        required: false,
    };
    assert!(offered.failure().is_none());
    assert_eq!(RelayError::NoSessionInDelta.message(), "session delta 缺少 session");
}

#[test]
fn a_restart_goes_on_with_fresh_numbers() {
    let (mut server, alice, _) = busy_server();
    let session = create(&mut server, &alice, "alice");
    created(&mut server, &session);
    let mut again = server_on(server.store.clone(), 200);
    assert_eq!(again.next_session_id, 2);
    assert_eq!(again.next_event_id, 3);
    let routed = again.sessions.get(&session).expect("the session is taken up");
    assert_eq!(routed.owner_user_id, "alice");
    assert_eq!(routed.browser_id, "");
    assert_eq!(routed.client_session_id.as_deref(), Some("acp-1"));
    assert_eq!(again.next_session_id(), "relay-session-2");
    assert_eq!(again.next_event_seq(), 3);
    assert_eq!(again.next_browser_id(), "browser-1");
}

fn hello(token: &str) -> ClientToServerMessage {
    ClientToServerMessage::Hello {
        device_id: "device-a".to_string(),
        device_name: "Device A".to_string(),
        client_version: "0".to_string(),
        capabilities: vec![],
        workspaces: vec![],
        auth_token: token.to_string(),
    }
}

#[test]
fn home_clients_are_greeted_by_their_first_message() {
    let mut accepted = StringSet::new();
    accepted.insert("good".to_string());
    let auth = ClientAuthConfig { accepted_tokens: accepted, revoked_tokens: StringSet::new() };
    assert!(matches!(greet_client(&auth, Frame::Ping), Greeting::Await));
    assert!(matches!(greet_client(&auth, Frame::Pong), Greeting::Await));
    assert!(matches!(
        greet_client(&auth, Frame::Message { message: hello("good") }),
        Greeting::Admit { device, note }
            if device.device_id == "device-a"
                && device.connected
                && note == "authenticated device_id=device-a device_name=Device A workspace_count=0 auth_token=set token_len=4"
    ));
    assert!(matches!(
        greet_client(&auth, Frame::Message { message: hello("bad") }),
        Greeting::Refuse { code: 1008, reason, why }
            if reason == RELAY_CLOSE_REASON_CLIENT_AUTH_REJECTED
                && why == "reject client `device-a` token_state=set token_len=3 accepted_token_count=1 revoked_token_count=0"
    ));
    assert!(matches!(
        greet_client(&auth, Frame::Message { message: hello("  ") }),
        Greeting::Refuse { code: 1008, why, .. }
            if why == "reject client `device-a` token_state=empty token_len=2 accepted_token_count=1 revoked_token_count=0"
    ));
    assert!(matches!(
        greet_client(&auth, Frame::Binary { len: 3 }),
        Greeting::Refuse { code: 1002, reason, why }
            if reason == RELAY_CLOSE_REASON_CLIENT_HELLO_INVALID
                && why == "client hello 不支持 binary 消息 (bytes=3)"
    ));
    let why = |frame: Frame<ClientToServerMessage>| match read_client_hello(frame) {
        Some(Err(why)) => why,
        other => panic!("unexpected greeting: {other:?}"),
    };
    let info = ClientToServerMessage::Info { message: "x".to_string() };
    assert_eq!(
        why(Frame::Message { message: info }),
        "client 第一个消息必须是 hello，收到 info"
    );
    assert_eq!(why(Frame::Malformed { error: "e".to_string() }), "解析 client hello 失败");
    assert_eq!(why(Frame::Close { frame: None }), "client 在 hello 前断开连接 (none)");
    assert_eq!(why(Frame::Binary { len: 12 }), "client hello 不支持 binary 消息 (bytes=12)");
    assert_eq!(why(Frame::Failed { error: "e".to_string() }), "读取 client hello 失败: e");
    assert_eq!(why(Frame::Ended), "client 在发送 hello 前断开连接");
}

#[test]
fn frames_ask_for_different_things() {
    assert!(matches!(client_frame_action(Frame::Ping), FrameAction::AnswerPing));
    assert!(matches!(client_frame_action(Frame::Binary { len: 1 }), FrameAction::Skip));
    assert!(matches!(
        client_frame_action(Frame::Malformed { error: "e".to_string() }),
        FrameAction::Skip
    ));
    assert!(matches!(
        client_frame_action(Frame::Close { frame: Some((1000, "bye".to_string())) }),
        FrameAction::Leave { close: None, why } if why == "close_frame: code=1000 reason=bye"
    ));
    assert!(matches!(
        client_frame_action(Frame::Failed { error: "e".to_string() }),
        FrameAction::Leave { close: None, why } if why == "ws_error: e"
    ));
    assert!(matches!(
        client_frame_action(Frame::Ended),
        FrameAction::Leave { close: None, why } if why == "stream_ended"
    ));
    assert!(matches!(
        browser_frame_action(Frame::Malformed { error: "e".to_string() }),
        FrameAction::Leave { close: Some((1007, reason)), .. }
            if reason == RELAY_CLOSE_REASON_BROWSER_JSON_INVALID
    ));
    assert!(matches!(
        browser_frame_action(Frame::Binary { len: 1 }),
        FrameAction::Leave { close: Some((1003, reason)), .. }
            if reason == RELAY_CLOSE_REASON_BROWSER_BINARY_UNSUPPORTED
    ));
    assert!(matches!(
        browser_frame_action(Frame::Message { message: BrowserToServerMessage::Ping }),
        FrameAction::Handle { message: BrowserToServerMessage::Ping }
    ));
}

#[test]
fn texts_for_the_log() {
    assert_eq!(truncate_for_log("a\nb", 160), "a\\nb");
    assert_eq!(truncate_for_log("abcdef", 3), "abc...");
    assert_eq!(truncate_for_log("abc", 3), "abc");
    assert_eq!(truncate_for_log("你好吗", 2), "你好...");
    assert_eq!(close_frame_summary(Some((1001, "away"))), "code=1001 reason=away");
    assert_eq!(close_frame_summary(None), "none");
    assert_eq!(client_message_kind(&hello("t")), "hello");
    assert_eq!(server_message_kind(&ServerToClientMessage::Shutdown), "shutdown");
}

/// What the writes of a server leave behind.
#[derive(Default)]
struct Disk {
    snapshot: RelaySnapshot,
    log: Vec<SessionEventMessage>,
}

impl Disk {
    fn carry_out(&mut self, server: &mut AppState, first: Step) {
        let mut step = first;
        while let Step::Persist { write, next } = step {
            match write {
                StoreWrite::Append { mut events, snapshot } => {
                    self.log.append(&mut events);
                    self.snapshot = snapshot;
                }
                StoreWrite::Rewrite { snapshot, events } => {
                    self.snapshot = snapshot;
                    self.log = events;
                }
            }
            step = server.follow_up_at(next, None, 700);
        }
    }

    fn holds(&self, server: &AppState) -> bool {
        let read = server.persistence.load(self.snapshot.clone(), self.log.clone());
        format!("{:?}", read.sessions) == format!("{:?}", server.store.sessions)
            && format!("{:?}", read.events) == format!("{:?}", server.store.events)
            && read.checkpointed_event_count == server.store.checkpointed_event_count
            && read.checkpointed_through_seq == server.store.checkpointed_through_seq
    }
}

#[test]
fn a_restart_reads_back_what_the_server_wrote() {
    for threshold in [1, 3, 5, 200] {
        let mut server = server_on(RelayStore::default(), threshold);
        let mut disk = Disk::default();
        let step = server.connect_device(device());
        disk.carry_out(&mut server, step);
        let (alice, _) = server.connect_browser("alice".to_string());
        let step = server.handle_browser_message_at(
            &alice,
            "alice",
            BrowserToServerMessage::CreateSession {
                device_id: "device-a".to_string(),
                workspace_id: "ws".to_string(),
            },
            500,
        );
        disk.carry_out(&mut server, step);
        assert!(disk.holds(&server));
        let session = "relay-session-1".to_string();
        for i in 0..7 {
            let step = server.handle_client_message_at(
                "device-a",
                ClientToServerMessage::OutputChunk {
                    session_id: session.clone(),
                    text: format!("{i} "),
                },
                600 + i,
            );
            disk.carry_out(&mut server, step);
            assert!(disk.holds(&server));
        }
        let step = server.handle_browser_message_at(
            &alice,
            "alice",
            BrowserToServerMessage::CloseSession { session_id: session.clone() },
            700,
        );
        disk.carry_out(&mut server, step);
        assert!(disk.holds(&server));
        let output: String = server
            .store
            .events
            .iter()
            .filter(|event| event.kind == "output_chunk")
            .map(|event| event.text.clone().unwrap())
            .collect();
        assert_eq!(output, "0 1 2 3 4 5 6 ");
        let step = server.disconnect_device(device());
        disk.carry_out(&mut server, step);
        assert!(disk.holds(&server));
        // A later number is fresh for the store that is read, too.
        let read = server.persistence.load(disk.snapshot.clone(), disk.log.clone());
        assert_eq!(read.next_event_seq(), server.next_event_id);
        assert_eq!(read.next_session_counter(), server.next_session_id);
    }
}

#[test]
fn sessions_are_listed_the_last_changed_first() {
    let (mut server, alice, _) = busy_server();
    for at in [30, 10, 20, 10] {
        let session = create(&mut server, &alice, "alice");
        server.store.sessions.get_mut(&session).unwrap().summary.updated_at = at;
    }
    let outcome = ask(&mut server, &alice, "alice", BrowserToServerMessage::ListSessions);
    match &outcome.deliveries[0] {
        Delivery::Browser { message: ServerToBrowserMessage::SessionList { sessions }, .. } => {
            let listed: Vec<(u64, &str)> = sessions
                .iter()
                .map(|session| (session.updated_at, session.session_id.as_str()))
                .collect();
            // Sessions that changed at the same time keep the order of the store.
            assert_eq!(
                listed,
                vec![
                    (30, "relay-session-1"),
                    (20, "relay-session-3"),
                    (10, "relay-session-2"),
                    (10, "relay-session-4")
                ]
            );
        }
        other => panic!("unexpected delivery: {other:?}"),
    }
}
