use codex_master::protocol::{RelaySessionSummaryMessage, ServerToClientMessage, SessionEventMessage};
use codex_master::relay_server::auth::{
    normalize_origin, validate_auth_configuration, BindAddress, IpAddress,
};
use codex_master::relay_server::connections::is_client_token_allowed;
use codex_master::relay_server::session_helpers::{
    delete_session_from_store, pending_resume_commands, resolve_client_session_alias_in_map,
    session_visibility_change, SessionVisibilityChange, SESSION_STATUS_CLOSED, SESSION_STATUS_IDLE,
    SESSION_STATUS_RESUME_FAILED,
};
use codex_master::relay_server::state::{
    BrowserAuthConfig, ClientAuthConfig, LocalLoginAuthConfig, RelaySession,
};
use codex_master::relay_state::{PersistedRelaySession, RelayStore};
use codex_master::string_map::{StringMap, StringSet};

fn persisted_session(
    session_id: &str,
    device_id: &str,
    workspace_id: Option<&str>,
    client_session_id: Option<&str>,
    updated_at: u64,
) -> PersistedRelaySession {
    PersistedRelaySession {
        summary: RelaySessionSummaryMessage {
            session_id: session_id.to_string(),
            device_id: device_id.to_string(),
            status: SESSION_STATUS_IDLE.to_string(),
            owner_user_id: None,
            workspace_id: workspace_id.map(str::to_string),
            workspace_name: Some("Workspace".to_string()),
            created_at: updated_at,
            updated_at,
        },
        client_session_id: client_session_id.map(str::to_string),
    }
}

fn check_visibility_change() {
    let previous =
        persisted_session("relay-session-1", "device-a", Some("ws-a"), Some("acp-1"), 10);
    let mut current = previous.clone();
    current.summary.owner_user_id = Some("alice".to_string());

    assert_eq!(
        session_visibility_change(Some(&previous), Some(&current), "alice"),
        SessionVisibilityChange::Updated
    );
    assert_eq!(
        session_visibility_change(Some(&previous), Some(&current), "bob"),
        SessionVisibilityChange::Removed
    );
}

#[test]
fn relay_server_session_visibility_change_removes_users_who_lose_access() {
    check_visibility_change();
}

#[test]
fn mod_session_visibility_change_removes_users_who_lose_access() {
    check_visibility_change();
}

fn check_resume_commands() {
    let mut store = RelayStore::default();
    store.sessions.insert(
        "relay-session-2".to_string(),
        persisted_session("relay-session-2", "device-a", Some("ws-b"), Some("acp-2"), 20),
    );
    store.sessions.insert(
        "relay-session-1".to_string(),
        persisted_session("relay-session-1", "device-a", Some("ws-a"), Some("acp-1"), 10),
    );
    store.sessions.insert(
        "relay-session-missing-binding".to_string(),
        persisted_session("relay-session-missing-binding", "device-a", Some("ws-c"), None, 30),
    );
    store.sessions.insert(
        "relay-session-other-device".to_string(),
        persisted_session("relay-session-other-device", "device-b", Some("ws-z"), Some("acp-z"), 5),
    );

    let commands = pending_resume_commands(&store, "device-a");

    assert_eq!(commands.len(), 2);
    match &commands[0] {
        ServerToClientMessage::ResumeSession { session_id, client_session_id, workspace_id } => {
            assert_eq!(session_id, "relay-session-1");
            assert_eq!(client_session_id, "acp-1");
            assert_eq!(workspace_id, "ws-a");
        }
        other => panic!("unexpected command: {other:?}"),
    }
    match &commands[1] {
        ServerToClientMessage::ResumeSession { session_id, client_session_id, workspace_id } => {
            assert_eq!(session_id, "relay-session-2");
            assert_eq!(client_session_id, "acp-2");
            assert_eq!(workspace_id, "ws-b");
        }
        other => panic!("unexpected command: {other:?}"),
    }
}

#[test]
fn relay_server_pending_resume_commands_only_include_bound_sessions_for_device() {
    check_resume_commands();
}

#[test]
fn mod_pending_resume_commands_only_include_bound_sessions_for_device() {
    check_resume_commands();
}

#[test]
fn pending_resume_commands_skip_closed_and_resume_failed_sessions() {
    let mut store = RelayStore::default();

    store.sessions.insert(
        "relay-session-idle".to_string(),
        persisted_session("relay-session-idle", "device-a", Some("ws-a"), Some("acp-a"), 10),
    );
    store.sessions.insert(
        "relay-session-resume-failed".to_string(),
        persisted_session(
            "relay-session-resume-failed",
            "device-a",
            Some("ws-b"),
            Some("acp-b"),
            11,
        ),
    );
    store.sessions.insert(
        "relay-session-closed".to_string(),
        persisted_session("relay-session-closed", "device-a", Some("ws-c"), Some("acp-c"), 12),
    );

    if let Some(session) = store.sessions.get_mut("relay-session-resume-failed") {
        session.summary.status = SESSION_STATUS_RESUME_FAILED.to_string();
    }
    if let Some(session) = store.sessions.get_mut("relay-session-closed") {
        session.summary.status = SESSION_STATUS_CLOSED.to_string();
    }

    let commands = pending_resume_commands(&store, "device-a");

    assert_eq!(commands.len(), 1);
    match &commands[0] {
        ServerToClientMessage::ResumeSession { session_id, client_session_id, workspace_id } => {
            assert_eq!(session_id, "relay-session-idle");
            assert_eq!(client_session_id, "acp-a");
            assert_eq!(workspace_id, "ws-a");
        }
        other => panic!("unexpected command: {other:?}"),
    }
}

fn check_deletion() {
    let mut store = RelayStore::default();
    store.sessions.insert(
        "relay-session-1".to_string(),
        persisted_session("relay-session-1", "device-a", Some("ws-a"), Some("acp-1"), 10),
    );
    store.events.push(SessionEventMessage {
        seq: 1,
        seq_end: None,
        session_id: "relay-session-1".to_string(),
        timestamp: 10,
        kind: "prompt_submitted".to_string(),
        text: Some("hello".to_string()),
        stop_reason: None,
        request_id: None,
        options: None,
    });
    store.events.push(SessionEventMessage {
        seq: 2,
        seq_end: None,
        session_id: "other-session".to_string(),
        timestamp: 11,
        kind: "prompt_submitted".to_string(),
        text: Some("keep me".to_string()),
        stop_reason: None,
        request_id: None,
        options: None,
    });

    delete_session_from_store(&mut store, "relay-session-1", "alice", 12, 3);

    assert!(!store.sessions.contains_key("relay-session-1"));
    assert_eq!(store.events.len(), 2);
    assert_eq!(store.events[0].session_id, "other-session");
    assert_eq!(store.events[1].kind, "session_deleted");
    assert_eq!(store.events[1].session_id, "");
    assert_eq!(
        store.events[1].text.as_deref(),
        Some("session_id=relay-session-1 deleted_by=alice")
    );
}

#[test]
fn relay_server_delete_session_from_store_removes_session_history_but_keeps_audit_event() {
    check_deletion();
}

#[test]
fn mod_delete_session_from_store_removes_session_history_but_keeps_audit_event() {
    check_deletion();
}

fn set_of(members: &[&str]) -> StringSet {
    let mut set = StringSet::new();
    for member in members {
        set.insert(member.to_string());
    }
    set
}

fn address(octets: [u8; 4]) -> BindAddress {
    BindAddress { ip: IpAddress::V4 { octets }, port: 8080 }
}

fn check_strict_configuration() {
    let bind = address([127, 0, 0, 1]);
    let tokens = set_of(&["token"]);
    let origins = set_of(&["https://relay.example.com"]);
    let local_auth = BrowserAuthConfig {
        login: LocalLoginAuthConfig {
            username: "admin".to_string(),
            password: "password".to_string(),
            session_ttl_secs: 3600,
            cookie_name: "relay_session".to_string(),
            cookie_secure: true,
        },
        allowed_origins: origins.clone(),
    };

    let missing_client_token =
        validate_auth_configuration(bind, false, &StringSet::new(), &local_auth);
    assert!(missing_client_token.is_err());

    let mut no_origin_auth = local_auth.clone();
    no_origin_auth.allowed_origins = StringSet::new();
    let missing_origin = validate_auth_configuration(bind, false, &tokens, &no_origin_auth);
    assert!(missing_origin.is_err());

    validate_auth_configuration(bind, false, &tokens, &local_auth)
        .expect("strict mode with local login config should pass");
}

#[test]
fn relay_server_strict_auth_configuration_requires_tokens_and_browser_guardrails() {
    check_strict_configuration();
}

#[test]
fn mod_strict_auth_configuration_requires_tokens_and_browser_guardrails() {
    check_strict_configuration();
}

fn check_insecure_configuration() {
    let loopback = address([127, 0, 0, 1]);
    let local_auth = BrowserAuthConfig {
        login: LocalLoginAuthConfig {
            username: "admin".to_string(),
            password: "password".to_string(),
            session_ttl_secs: 3600,
            cookie_name: "relay_session".to_string(),
            cookie_secure: false,
        },
        allowed_origins: StringSet::new(),
    };
    validate_auth_configuration(loopback, true, &StringSet::new(), &local_auth)
        .expect("insecure dev mode should allow loopback");

    let non_loopback = address([0, 0, 0, 0]);
    let result = validate_auth_configuration(non_loopback, true, &StringSet::new(), &local_auth);
    assert!(result.is_err());
}

#[test]
fn relay_server_insecure_dev_mode_only_allows_loopback_bind() {
    check_insecure_configuration();
}

#[test]
fn mod_insecure_dev_mode_only_allows_loopback_bind() {
    check_insecure_configuration();
}

fn check_revoked_token() {
    let auth = ClientAuthConfig {
        accepted_tokens: set_of(&["token-a", "token-b"]),
        revoked_tokens: set_of(&["token-b"]),
    };

    assert!(is_client_token_allowed(&auth, "token-a"));
    assert!(!is_client_token_allowed(&auth, "token-b"));
    assert!(!is_client_token_allowed(&auth, "unknown"));
}

#[test]
fn relay_server_revoked_client_token_is_rejected_even_if_in_allowlist() {
    check_revoked_token();
}

#[test]
fn mod_revoked_client_token_is_rejected_even_if_in_allowlist() {
    check_revoked_token();
}

#[test]
fn without_listed_tokens_only_revoked_ones_are_refused() {
    let auth = ClientAuthConfig {
        accepted_tokens: StringSet::new(),
        revoked_tokens: set_of(&["old"]),
    };
    assert!(is_client_token_allowed(&auth, "any"));
    assert!(is_client_token_allowed(&auth, ""));
    assert!(!is_client_token_allowed(&auth, "old"));
}

fn check_origins() {
    assert_eq!(
        normalize_origin("https://Relay.Example.com"),
        Some("https://relay.example.com".to_string())
    );
    assert_eq!(
        normalize_origin("https://relay.example.com/"),
        Some("https://relay.example.com".to_string())
    );
    assert!(normalize_origin("https://relay.example.com/path").is_none());
    assert!(normalize_origin("javascript:alert(1)").is_none());
}

#[test]
fn relay_server_normalize_origin_requires_scheme_and_host_only() {
    check_origins();
}

#[test]
fn auth_normalize_origin_requires_scheme_and_host_only() {
    check_origins();
}

fn one_session() -> StringMap<RelaySession> {
    let mut sessions = StringMap::new();
    sessions.insert(
        "relay-session-1".to_string(),
        RelaySession {
            session_id: "relay-session-1".to_string(),
            device_id: "device-a".to_string(),
            browser_id: "browser-1".to_string(),
            owner_user_id: "alice".to_string(),
            client_session_id: Some("acp-1".to_string()),
        },
    );
    sessions
}

#[test]
fn resolve_client_session_alias_maps_acp_id_for_same_device() {
    let sessions = one_session();

    let resolved = resolve_client_session_alias_in_map(&sessions, "device-a", "acp-1");

    assert_eq!(resolved.as_deref(), Some("relay-session-1"));
}

#[test]
fn resolve_client_session_alias_does_not_cross_devices() {
    let sessions = one_session();

    let resolved = resolve_client_session_alias_in_map(&sessions, "device-b", "acp-1");

    assert!(resolved.is_none());
}

#[test]
fn relay_session_ids_need_no_resolving() {
    let sessions = one_session();
    assert_eq!(
        resolve_client_session_alias_in_map(&sessions, "device-b", "relay-session-1").as_deref(),
        Some("relay-session-1")
    );
}
