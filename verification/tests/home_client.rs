use codex_master::config::{RelayTransportConfig, WorkspaceConfig};
use codex_master::protocol::{ClientToServerMessage, ServerToClientMessage};
use codex_master::relay_server::sockets::Frame;
use codex_master::runtime::{
    agent_name, resolve_workspace, selected_option, startup, InternalEvent, RuntimeAction,
    RuntimeState, SessionPurpose,
};
use codex_master::transport::{
    hello_message, help_lines, map_home_event, map_server_message, react_to_frame, workspace_lines,
    ConsoleOutput, LocalDebugState, LocalInput,
};
use codex_master::types::{
    HomeClientCommand, HomeClientEvent, PermissionOptionView, WorkspaceView,
};

fn workspaces() -> Vec<WorkspaceConfig> {
    vec![
        WorkspaceConfig {
            id: "a".to_string(),
            name: "A".to_string(),
            path: "/a".to_string(),
        },
        WorkspaceConfig {
            id: "b".to_string(),
            name: "B".to_string(),
            path: "/b".to_string(),
        },
    ]
}

fn command(state: &mut RuntimeState, command: HomeClientCommand) -> Vec<RuntimeAction> {
    state.handle_command(&workspaces(), "b", command).expect("the runtime goes on")
}

fn error_of(actions: &[RuntimeAction]) -> String {
    match actions {
        [RuntimeAction::Publish { event: HomeClientEvent::Error { message } }] => message.clone(),
        other => panic!("unexpected actions: {other:?}"),
    }
}

fn prompt(session_id: Option<&str>, create: bool) -> HomeClientCommand {
    HomeClientCommand::Prompt {
        session_id: session_id.map(str::to_string),
        text: "hi".to_string(),
        create_session_if_missing: create,
    }
}

#[test]
fn sessions_are_opened_and_prompted() {
    let mut state = RuntimeState::default();
    let actions = command(
        &mut state,
        HomeClientCommand::CreateSession {
            session_id: Some("relay-session-1".to_string()),
            workspace_id: None,
        },
    );
    let workspace = match &actions[..] {
        [RuntimeAction::OpenSession { workspace, purpose: SessionPurpose::Create { .. } }] => {
            assert_eq!(workspace.path, "/b");
            workspace.clone()
        }
        other => panic!("unexpected actions: {other:?}"),
    };
    let actions = state
        .session_opened(
            workspace,
            SessionPurpose::Create { session_id: Some("relay-session-1".to_string()) },
            Some("acp-1".to_string()),
        )
        .unwrap();
    match &actions[..] {
        [RuntimeAction::Publish {
            event:
                HomeClientEvent::SessionCreated {
                    session_id,
                    client_session_id,
                    workspace_id,
                    workspace_name,
                },
        }] => {
            assert_eq!(session_id, "relay-session-1");
            assert_eq!(client_session_id, "acp-1");
            assert_eq!(workspace_id, "b");
            assert_eq!(workspace_name, "B");
        }
        other => panic!("unexpected actions: {other:?}"),
    }
    match &command(&mut state, prompt(Some("relay-session-1"), false))[..] {
        [RuntimeAction::RunPrompt { session_ref, agent_session_id, text }] => {
            assert_eq!(session_ref, "relay-session-1");
            assert_eq!(agent_session_id, "acp-1");
            assert_eq!(text, "hi");
        }
        other => panic!("unexpected actions: {other:?}"),
    }
    assert!(state.prompt_in_flight);
    assert_eq!(state.active_prompt_session.as_deref(), Some("relay-session-1"));
    // Only one prompt at a time.
    assert_eq!(
        error_of(&command(&mut state, prompt(Some("relay-session-1"), false))),
        "当前已有一个进行中的 prompt，请等待完成后再发送。"
    );
    state.end_prompt();
    assert!(state.active_prompt_session.is_none());
    let event = state.handle_internal_event(InternalEvent::PromptFinished {
        session_id: "relay-session-1".to_string(),
        stop_reason: "EndTurn".to_string(),
    });
    assert!(matches!(event, HomeClientEvent::PromptFinished { .. }));
    assert!(!state.prompt_in_flight);
    assert_eq!(command(&mut state, prompt(Some("relay-session-1"), false)).len(), 1);
}

#[test]
fn a_prompt_may_open_a_session_of_its_own() {
    let mut state = RuntimeState::default();
    let actions = command(&mut state, prompt(None, true));
    let workspace = match &actions[..] {
        [RuntimeAction::OpenSession { workspace, purpose: SessionPurpose::Prompt { text } }] => {
            assert_eq!(text, "hi");
            workspace.clone()
        }
        other => panic!("unexpected actions: {other:?}"),
    };
    assert!(!state.prompt_in_flight);
    let actions = state
        .session_opened(
            workspace,
            SessionPurpose::Prompt { text: "hi".to_string() },
            Some("acp-1".to_string()),
        )
        .unwrap();
    assert_eq!(actions.len(), 2);
    assert!(matches!(
        &actions[1],
        RuntimeAction::RunPrompt { session_ref, .. } if session_ref == "acp-1"
    ));
    assert!(state.prompt_in_flight);
    assert_eq!(
        error_of(&command(&mut RuntimeState::default(), prompt(None, false))),
        "当前命令没有指定 session，且不允许自动创建。"
    );
    assert_eq!(
        error_of(&command(&mut RuntimeState::default(), prompt(Some("s"), true))),
        "未知 session: s"
    );
}

#[test]
fn failures_end_the_runtime() {
    let mut state = RuntimeState::default();
    let failure = state
        .handle_command(
            &workspaces(),
            "a",
            HomeClientCommand::CreateSession {
                session_id: None,
                workspace_id: Some("x".to_string()),
            },
        )
        .unwrap_err();
    assert_eq!(failure.message(), "未知 workspace: x");
    let failure = state.handle_command(&workspaces(), "y", prompt(None, true)).unwrap_err();
    assert_eq!(failure.message(), "默认 workspace 不存在: y");
    let failure = state
        .session_opened(
            workspaces()[0].clone(),
            SessionPurpose::Create { session_id: None },
            None,
        )
        .unwrap_err();
    assert_eq!(failure.message(), "创建会话失败");
    assert_eq!(
        resolve_workspace(&vec![], None, None).unwrap_err().message(),
        "当前没有可用工作区，无法创建会话"
    );
    assert_eq!(resolve_workspace(&workspaces(), None, None).unwrap().id, "a");
    assert!(matches!(
        &command(&mut state, HomeClientCommand::Exit)[..],
        [RuntimeAction::Stop]
    ));
}

#[test]
fn sessions_are_resumed_and_cancelled() {
    let mut state = RuntimeState::default();
    let resume = |workspace_id: &str| HomeClientCommand::ResumeSession {
        session_id: "relay-session-1".to_string(),
        client_session_id: "acp-1".to_string(),
        workspace_id: workspace_id.to_string(),
    };
    assert!(matches!(
        &command(&mut state, resume("a"))[..],
        [RuntimeAction::LoadSession { path, .. }] if path == "/a"
    ));
    assert!(matches!(
        &command(&mut state, resume("x"))[..],
        [RuntimeAction::Publish { event: HomeClientEvent::SessionResumeFailed { message, .. } }]
            if message == "未知 workspace: x"
    ));
    let actions = state.session_loaded(
        "relay-session-1".to_string(),
        "acp-1".to_string(),
        Some("gone".to_string()),
    );
    assert!(matches!(
        &actions[..],
        [RuntimeAction::Publish { event: HomeClientEvent::SessionResumeFailed { message, .. } }]
            if message == "gone"
    ));
    let cancel = HomeClientCommand::CancelSession { session_id: "relay-session-1".to_string() };
    assert_eq!(error_of(&command(&mut state, cancel.clone())), "未知 session: relay-session-1");
    let actions =
        state.session_loaded("relay-session-1".to_string(), "acp-1".to_string(), None);
    assert!(matches!(
        &actions[..],
        [RuntimeAction::Publish { event: HomeClientEvent::SessionResumed { .. } }]
    ));
    assert!(matches!(
        &command(&mut state, cancel)[..],
        [RuntimeAction::CancelPrompt { agent_session_id }] if agent_session_id == "acp-1"
    ));
    assert!(matches!(
        &command(&mut state, prompt(Some("relay-session-1"), false))[..],
        [RuntimeAction::RunPrompt { agent_session_id, .. }] if agent_session_id == "acp-1"
    ));
}

#[test]
fn the_agent_asks_for_permissions() {
    let mut state = RuntimeState::default();
    state.begin_prompt("relay-session-1");
    let options = vec![("Allow".to_string(), "AllowOnce".to_string())];
    match state.request_permission(options.clone()) {
        InternalEvent::PermissionRequested { request_id, session_id, options } => {
            assert_eq!(request_id, "perm-1");
            assert_eq!(session_id.as_deref(), Some("relay-session-1"));
            assert_eq!(options[0].index, 0);
            assert_eq!(options[0].name, "Allow");
            assert_eq!(options[0].kind, "AllowOnce");
        }
        other => panic!("unexpected event: {other:?}"),
    }
    assert!(matches!(
        state.request_permission(options),
        InternalEvent::PermissionRequested { request_id, .. } if request_id == "perm-2"
    ));
    let answer = HomeClientCommand::ResolvePermission {
        request_id: "perm-1".to_string(),
        selected_index: 4,
    };
    assert!(matches!(
        &command(&mut state, answer.clone())[..],
        [RuntimeAction::AnswerPermission { selected_index: 4, .. }]
    ));
    assert_eq!(
        error_of(&command(&mut state, answer)),
        "未找到待处理的 permission request: perm-1"
    );
    assert_eq!(selected_option(2, 1), Some(1));
    assert_eq!(selected_option(2, 2), None);
}

#[test]
fn what_happens_in_the_agent_is_passed_on() {
    let mut state = RuntimeState::default();
    state.begin_prompt("s");
    assert!(matches!(
        state.handle_internal_event(InternalEvent::RuntimeError { message: "m".to_string() }),
        HomeClientEvent::Error { message } if message == "m"
    ));
    assert!(matches!(
        state.handle_internal_event(InternalEvent::OutputChunk {
            session_id: "s".to_string(),
            text: "t".to_string()
        }),
        HomeClientEvent::OutputChunk { text, .. } if text == "t"
    ));
    assert!(state.prompt_in_flight);
    assert!(matches!(
        state.handle_internal_event(InternalEvent::PromptFailed {
            session_id: "s".to_string(),
            message: "m".to_string()
        }),
        HomeClientEvent::Error { message } if message == "session=s prompt 失败: m"
    ));
    assert!(!state.prompt_in_flight);
}

#[test]
fn the_start_says_how_the_client_is_reached() {
    assert_eq!(agent_name(None), "codex-acp");
    assert_eq!(agent_name(Some((None, "name".to_string()))), "name");
    assert_eq!(agent_name(Some((Some("Title".to_string()), "name".to_string()))), "Title");
    let local = startup("codex".to_string(), &workspaces(), false);
    assert!(matches!(
        &local[0],
        HomeClientEvent::Ready { workspaces, .. } if workspaces[1].workspace_name == "B"
    ));
    assert!(matches!(
        &local[1],
        HomeClientEvent::Info { message } if message.contains("本地 debug transport")
    ));
    let relay = startup("codex".to_string(), &workspaces(), true);
    assert!(matches!(
        &relay[1],
        HomeClientEvent::Info { message } if !message.contains("debug")
    ));
}

fn input(state: &mut LocalDebugState, line: &str) -> LocalInput {
    assert!(!state.answers_empty_request(line));
    state.parse_command(line).expect("the line is understood")
}

fn complaint(state: &mut LocalDebugState, line: &str) -> String {
    assert!(!state.answers_empty_request(line));
    state.parse_command(line).expect_err("the line is not understood").message()
}

#[test]
fn lines_of_the_console_are_commands_or_prompts() {
    let mut state = LocalDebugState::default();
    assert!(matches!(input(&mut state, "  "), LocalInput::Nothing));
    for line in ["/exit", " /quit "] {
        assert!(matches!(
            input(&mut state, line),
            LocalInput::Command { command: HomeClientCommand::Exit }
        ));
    }
    assert!(matches!(
        input(&mut state, "/help"),
        LocalInput::Print { lines } if lines == help_lines() && lines.len() == 7
    ));
    assert!(matches!(
        input(&mut state, "/workspaces"),
        LocalInput::Print { lines } if lines == vec!["[info] 当前没有可用工作区。".to_string()]
    ));
    assert!(matches!(
        input(&mut state, "/new"),
        LocalInput::Command {
            command: HomeClientCommand::CreateSession { session_id: None, workspace_id: None }
        }
    ));
    assert!(matches!(
        input(&mut state, "/new  ws 1 "),
        LocalInput::Command {
            command: HomeClientCommand::CreateSession { workspace_id: Some(id), .. }
        } if id == "ws 1"
    ));
    assert!(matches!(
        input(&mut state, " hello "),
        LocalInput::Command {
            command: HomeClientCommand::Prompt {
                session_id: None,
                text,
                create_session_if_missing: true
            }
        } if text == " hello "
    ));
    assert_eq!(complaint(&mut state, "/use"), "用法: /use <session_id>");
    assert!(matches!(
        input(&mut state, "/use s-1"),
        LocalInput::Print { lines } if lines == vec!["[info] active session 切换为 s-1".to_string()]
    ));
    assert!(matches!(
        input(&mut state, "hello"),
        LocalInput::Command { command: HomeClientCommand::Prompt { session_id: Some(id), .. } }
            if id == "s-1"
    ));
    assert_eq!(complaint(&mut state, "/nope x"), "未知命令: /nope x");
}

fn option(index: usize) -> PermissionOptionView {
    PermissionOptionView { index, name: format!("N{index}"), kind: "K".to_string() }
}

#[test]
fn permissions_are_answered_on_the_console() {
    let mut state = LocalDebugState::default();
    let outputs = state.publish_event(HomeClientEvent::PermissionRequested {
        request_id: "perm-1".to_string(),
        session_id: None,
        options: vec![option(0), option(1)],
    });
    let lines: Vec<String> = outputs
        .iter()
        .map(|output| match output {
            ConsoleOutput::Line { text } => text.clone(),
            other => panic!("unexpected output: {other:?}"),
        })
        .collect();
    assert_eq!(
        lines,
        vec![
            "\n[permission] request_id=perm-1 session=unknown",
            "  [0] N0 (K)",
            "  [1] N1 (K)",
            "  使用 /perm perm-1 <index> 来选择。"
        ]
    );
    assert_eq!(complaint(&mut state, "/perm"), "用法: /perm <request_id> <index>");
    assert_eq!(complaint(&mut state, "/perm perm-1"), "用法: /perm <request_id> <index>");
    assert_eq!(complaint(&mut state, "/perm perm-1 x"), "permission index 必须是数字");
    assert_eq!(
        complaint(&mut state, "/perm perm-1 2"),
        "index 超出范围，当前可选上限为 1"
    );
    assert_eq!(
        complaint(&mut state, "/perm perm-9 0"),
        "未找到待处理的 permission request: perm-9"
    );
    assert!(matches!(
        input(&mut state, "/perm  perm-1\t1 extra"),
        LocalInput::Command {
            command: HomeClientCommand::ResolvePermission { request_id, selected_index: 1 }
        } if request_id == "perm-1"
    ));
    assert_eq!(
        complaint(&mut state, "/perm perm-1 1"),
        "未找到待处理的 permission request: perm-1"
    );
    state.publish_event(HomeClientEvent::PermissionRequested {
        request_id: "perm-2".to_string(),
        session_id: None,
        options: vec![],
    });
    assert!(state.answers_empty_request("/perm perm-2 0"));
    assert!(!state.answers_empty_request("/perm perm-2"));
}

fn shown(outputs: Vec<ConsoleOutput>) -> String {
    outputs
        .into_iter()
        .map(|output| match output {
            ConsoleOutput::Line { text } => format!("{text}\n"),
            ConsoleOutput::Inline { text } => text,
            ConsoleOutput::ErrorLine { text } => format!("!{text}\n"),
        })
        .collect()
}

#[test]
fn events_are_shown_on_the_console() {
    let mut state = LocalDebugState::default();
    let views = vec![WorkspaceView {
        workspace_id: "a".to_string(),
        workspace_name: "A".to_string(),
    }];
    assert_eq!(workspace_lines(&views), vec!["工作区:".to_string(), "  - A (a)".to_string()]);
    assert_eq!(
        shown(state.publish_event(HomeClientEvent::Ready {
            agent_name: "codex".to_string(),
            workspaces: views
        })),
        "已连接 codex。输入 /help 查看命令。\n工作区:\n  - A (a)\n"
    );
    assert_eq!(state.available_workspaces.len(), 1);
    assert_eq!(
        shown(state.publish_event(HomeClientEvent::SessionCreated {
            session_id: "s".to_string(),
            client_session_id: "s".to_string(),
            workspace_id: "a".to_string(),
            workspace_name: "A".to_string(),
        })),
        "[session] s workspace=A (a)\n"
    );
    assert_eq!(state.active_session.as_deref(), Some("s"));
    let mut chunk = |session: &str, text: &str| {
        shown(state.publish_event(HomeClientEvent::OutputChunk {
            session_id: session.to_string(),
            text: text.to_string(),
        }))
    };
    assert_eq!(chunk("s", "one"), "one");
    assert_eq!(chunk("s", "two"), "two");
    assert_eq!(chunk("t", "three"), "\nthree");
    let mut finish = |reason: &str| {
        shown(state.publish_event(HomeClientEvent::PromptFinished {
            session_id: "t".to_string(),
            stop_reason: reason.to_string(),
        }))
    };
    assert_eq!(finish("EndTurn"), "\n");
    assert_eq!(finish("EndTurn"), "");
    assert_eq!(finish("Cancelled"), "[done] session=t stop_reason=Cancelled\n");
    assert_eq!(
        shown(state.publish_event(HomeClientEvent::Info { message: "m".to_string() })),
        "[info] m\n"
    );
    assert_eq!(
        shown(state.publish_event(HomeClientEvent::Error { message: "m".to_string() })),
        "![error] m\n"
    );
    assert_eq!(
        shown(state.publish_event(HomeClientEvent::SessionResumeFailed {
            session_id: "s".to_string(),
            client_session_id: "c".to_string(),
            message: "m".to_string()
        })),
        "![error] session=s resume 失败: m\n"
    );
    assert_eq!(
        shown(state.publish_event(HomeClientEvent::SessionResumed {
            session_id: "u".to_string(),
            client_session_id: "c".to_string()
        })),
        "[session] u resumed\n"
    );
}

#[test]
fn messages_of_the_relay_become_commands() {
    assert!(matches!(
        map_server_message(ServerToClientMessage::CreateSession {
            session_id: "s".to_string(),
            workspace_id: "w".to_string()
        }),
        Some(HomeClientCommand::CreateSession { session_id: Some(s), workspace_id: Some(w) })
            if s == "s" && w == "w"
    ));
    assert!(matches!(
        map_server_message(ServerToClientMessage::ResumeSession {
            session_id: "s".to_string(),
            client_session_id: "c".to_string(),
            workspace_id: "w".to_string()
        }),
        Some(HomeClientCommand::ResumeSession { .. })
    ));
    assert!(matches!(
        map_server_message(ServerToClientMessage::CancelSession { session_id: "s".to_string() }),
        Some(HomeClientCommand::CancelSession { .. })
    ));
    assert!(map_server_message(ServerToClientMessage::Ping).is_none());
    assert!(matches!(
        map_server_message(ServerToClientMessage::Shutdown),
        Some(HomeClientCommand::Exit)
    ));
    assert!(matches!(
        map_home_event(HomeClientEvent::PermissionRequested {
            request_id: "r".to_string(),
            session_id: None,
            options: vec![option(3)]
        }),
        ClientToServerMessage::PermissionRequested { options, .. } if options[0].index == 3
    ));
    assert!(matches!(
        map_home_event(HomeClientEvent::Ready { agent_name: "n".to_string(), workspaces: vec![] }),
        ClientToServerMessage::Ready { agent_name } if agent_name == "n"
    ));
}

#[test]
fn frames_of_the_relay_are_reacted_to() {
    let reaction = react_to_frame(Frame::Message { message: ServerToClientMessage::Shutdown });
    assert!(matches!(reaction.command, Some(HomeClientCommand::Exit)));
    assert!(!reaction.leave);
    let reaction = react_to_frame(Frame::Malformed { error: "e".to_string() });
    assert!(matches!(
        reaction.reply,
        Some(ClientToServerMessage::Error { message }) if message == "无法解析 server 消息: e"
    ));
    assert!(react_to_frame(Frame::Ping).answer_ping);
    let reaction = react_to_frame(Frame::Close { frame: None });
    assert!(reaction.leave && matches!(reaction.command, Some(HomeClientCommand::Exit)));
    let reaction = react_to_frame(Frame::Binary { len: 1 });
    assert!(!reaction.leave);
    assert!(matches!(
        reaction.reply,
        Some(ClientToServerMessage::Error { message })
            if message == "当前 relay transport 不支持 binary websocket 消息"
    ));
    let reaction = react_to_frame(Frame::Failed { error: "e".to_string() });
    assert!(reaction.leave && reaction.command.is_some());
    assert!(matches!(
        reaction.reply,
        Some(ClientToServerMessage::Error { message }) if message == "relay websocket 读取失败: e"
    ));
    let reaction = react_to_frame(Frame::Ended);
    assert!(reaction.leave && reaction.command.is_none() && reaction.reply.is_none());
}

#[test]
fn the_hello_says_who_and_what() {
    let config = RelayTransportConfig {
        url: "wss://relay".to_string(),
        device_id: "d".to_string(),
        device_name: "D".to_string(),
        auth_token: "t".to_string(),
        reconnect_delay_secs: 1,
        reconnect_max_delay_secs: 1,
        reconnect_jitter_millis: 0,
        reconnect_reset_after_secs: 1,
    };
    match hello_message(&config, &workspaces(), "1.2.3") {
        ClientToServerMessage::Hello {
            device_id,
            device_name,
            client_version,
            capabilities,
            workspaces,
            auth_token,
        } => {
            assert_eq!(device_id, "d");
            assert_eq!(device_name, "D");
            assert_eq!(client_version, "1.2.3");
            assert_eq!(
                capabilities,
                vec!["acp", "session-create", "prompt-stream", "permission-roundtrip"]
            );
            assert_eq!(workspaces[1].workspace_id, "b");
            assert_eq!(auth_token, "t");
        }
        other => panic!("unexpected message: {other:?}"),
    }
}
