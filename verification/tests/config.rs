use codex_master::config::{
    check_workspaces, default_workspace, env_u64_or_default, is_loopback_target, required_env,
    resolve_default_workspace_id, validate_relay_url, validate_workspaces, workspace_of, AppConfig,
    HomeClientEnv, TransportConfig, WorkspaceConfig, WorkspaceList,
};
use codex_master::config_error::ConfigError;
use codex_master::reconnect::{
    count_failures, cycle_failed, jitter_millis, random_jitter_millis, reconnect_delay,
    reconnect_delay_with_jitter, ReconnectDelay,
};

#[test]
fn relay_url_accepts_secure_wss() {
    let url = validate_relay_url("wss://relay.example.com/ws/client", false)
        .expect("wss url should be accepted");
    assert_eq!(url, "wss://relay.example.com/ws/client");
}

#[test]
fn relay_url_rejects_ws_without_explicit_override() {
    let err = validate_relay_url("ws://127.0.0.1:8080/ws/client", false)
        .expect_err("ws should require explicit local override");
    assert!(err.message().contains("HOME_CLIENT_ALLOW_INSECURE_WS"));
}

#[test]
fn relay_url_only_allows_ws_for_loopback_when_overridden() {
    validate_relay_url("ws://localhost:8080/ws/client", true)
        .expect("loopback ws should be allowed with override");
    validate_relay_url("ws://127.0.0.1:8080/ws/client", true)
        .expect("loopback ws should be allowed with override");
    validate_relay_url("ws://[::1]:8080/ws/client", true)
        .expect("loopback ws should be allowed with override");
    assert!(validate_relay_url("ws://relay.example.com/ws/client", true).is_err());
}

#[test]
fn loopback_target_parser_handles_authority_forms() {
    assert!(is_loopback_target("localhost:8080/ws/client"));
    assert!(is_loopback_target("user:pass@127.0.0.1:9000/ws/client"));
    assert!(is_loopback_target("[::1]:8080/ws/client"));
    assert!(!is_loopback_target("relay.example.com/ws/client"));
}

#[test]
fn loopback_target_edge_cases() {
    assert!(!is_loopback_target(""));
    assert!(!is_loopback_target("/ws/client"));
    assert!(is_loopback_target("LOCALHOST"));
    assert!(!is_loopback_target("localhost@relay.example.com"));
    assert!(!is_loopback_target("[::2]"));
    assert!(!is_loopback_target("127.0.0.2"));
}

#[test]
fn query_and_fragment_are_no_part_of_the_host() {
    for url in ["ws://evil.example.com?@localhost", "ws://evil.example.com#@localhost"] {
        assert_eq!(
            validate_relay_url(url, true).unwrap_err().message(),
            "仅允许在 loopback 上使用 ws://（localhost/127.0.0.1/[::1]），当前 HOME_CLIENT_RELAY_URL 不符合要求"
        );
    }
    assert!(!is_loopback_target("evil.example.com?@127.0.0.1/ws"));
    assert!(!is_loopback_target("evil.example.com#@[::1]:80"));
    assert!(is_loopback_target("localhost?user=@evil.example.com"));
    assert!(is_loopback_target("127.0.0.1:8080#@evil.example.com"));
    assert!(is_loopback_target("localhost/ws?to=@evil.example.com"));
}

#[test]
fn relay_url_errors_are_told_apart() {
    let text = |raw: &str, insecure: bool| validate_relay_url(raw, insecure).unwrap_err().message();
    assert_eq!(text("  ", true), "HOME_CLIENT_RELAY_URL 不能为空");
    assert_eq!(
        text("relay.example.com", true),
        "HOME_CLIENT_RELAY_URL 格式错误，必须使用 wss://..."
    );
    assert_eq!(
        text("ws://localhost", false),
        "HOME_CLIENT_RELAY_URL 必须使用 wss://；仅本地调试可通过 HOME_CLIENT_ALLOW_INSECURE_WS=true 放开 ws://"
    );
    assert_eq!(
        text("ws://relay.example.com", true),
        "仅允许在 loopback 上使用 ws://（localhost/127.0.0.1/[::1]），当前 HOME_CLIENT_RELAY_URL 不符合要求"
    );
    assert_eq!(
        text("https://relay.example.com", true),
        "HOME_CLIENT_RELAY_URL 仅支持 wss://；本地调试可在 loopback 上配合 HOME_CLIENT_ALLOW_INSECURE_WS=true 使用 ws://"
    );
    assert_eq!(validate_relay_url("  WSS://Relay  ", false).unwrap(), "WSS://Relay");
}

fn workspace(id: &str, name: &str, path: &str) -> WorkspaceConfig {
    WorkspaceConfig { id: id.to_string(), name: name.to_string(), path: path.to_string() }
}

fn empty_env() -> HomeClientEnv {
    HomeClientEnv {
        transport: None,
        default_workspace_id: None,
        allow_insecure_ws: None,
        relay_url: None,
        reconnect_delay_secs: None,
        reconnect_max_delay_secs: None,
        reconnect_jitter_millis: None,
        reconnect_reset_after_secs: None,
        device_id: None,
        device_name: None,
        hostname: None,
        auth_token: None,
    }
}

#[test]
fn silent_environment_gives_the_local_transport() {
    let config = AppConfig::from_env(&empty_env(), WorkspaceList::Absent, Some("/home/me/project"))
        .expect("the local transport needs no settings");
    assert!(matches!(config.transport, TransportConfig::Local));
    assert_eq!(config.workspaces.len(), 1);
    assert_eq!(config.workspaces[0].id, "default");
    assert_eq!(config.workspaces[0].name, "project");
    assert_eq!(config.workspaces[0].path, "/home/me/project");
    assert_eq!(config.default_workspace_id, "default");
}

#[test]
fn relay_transport_takes_its_settings_and_defaults() {
    let mut env = empty_env();
    env.transport = Some("ReLay".to_string());
    env.relay_url = Some(" wss://relay.example.com/ws/client ".to_string());
    env.auth_token = Some("secret".to_string());
    env.hostname = Some("box".to_string());
    env.device_name = Some("Box".to_string());
    env.reconnect_delay_secs = Some("0".to_string());
    let config = AppConfig::from_env(&env, WorkspaceList::Absent, Some("/")).unwrap();
    assert_eq!(config.workspaces[0].name, "Current Workspace");
    match config.transport {
        TransportConfig::Relay(relay) => {
            assert_eq!(relay.url, "wss://relay.example.com/ws/client");
            assert_eq!(relay.device_id, "box");
            assert_eq!(relay.device_name, "Box");
            assert_eq!(relay.auth_token, "secret");
            assert_eq!(relay.reconnect_delay_secs, 1);
            assert_eq!(relay.reconnect_max_delay_secs, 60);
            assert_eq!(relay.reconnect_jitter_millis, 750);
            assert_eq!(relay.reconnect_reset_after_secs, 30);
        }
        TransportConfig::Local => panic!("the relay transport was asked for"),
    }
}

#[test]
fn relay_settings_are_checked_in_order() {
    let message = |env: &HomeClientEnv| {
        AppConfig::from_env(env, WorkspaceList::Absent, Some("/w/p")).unwrap_err().message()
    };
    let mut env = empty_env();
    env.transport = Some("TELNETÉ".to_string());
    assert_eq!(message(&env), "不支持的 HOME_CLIENT_TRANSPORT: telneté");
    env.transport = Some("relay".to_string());
    env.allow_insecure_ws = Some("maybe".to_string());
    assert_eq!(message(&env), "HOME_CLIENT_ALLOW_INSECURE_WS 必须是布尔值");
    env.allow_insecure_ws = Some(" YES ".to_string());
    assert_eq!(message(&env), "缺少环境变量 HOME_CLIENT_RELAY_URL");
    env.relay_url = Some("ws://localhost:1".to_string());
    env.reconnect_delay_secs = Some("soon".to_string());
    assert_eq!(message(&env), "HOME_CLIENT_RECONNECT_DELAY_SECS 必须是非负整数");
    env.reconnect_delay_secs = None;
    assert_eq!(message(&env), "缺少环境变量 HOME_CLIENT_AUTH_TOKEN");
    env.default_workspace_id = Some("other".to_string());
    assert_eq!(
        message(&env),
        "HOME_CLIENT_DEFAULT_WORKSPACE_ID 未出现在工作区列表中: other"
    );
    assert_eq!(
        AppConfig::from_env(&env, WorkspaceList::Malformed, Some("/w")).unwrap_err().message(),
        "解析 HOME_CLIENT_WORKSPACES_JSON 失败，应为 JSON 数组"
    );
    assert_eq!(
        AppConfig::from_env(&env, WorkspaceList::Absent, None).unwrap_err().message(),
        "无法获取当前工作目录"
    );
    assert_eq!(
        AppConfig::for_mode("local", &empty_env(), vec![]).unwrap_err().message(),
        "未找到可用工作区"
    );
}

#[test]
fn workspaces_are_checked_one_by_one() {
    let message = |workspaces: Vec<WorkspaceConfig>| {
        validate_workspaces(workspaces).unwrap_err().message()
    };
    assert_eq!(message(vec![]), "HOME_CLIENT_WORKSPACES_JSON 至少需要包含一个工作区");
    assert_eq!(message(vec![workspace(" ", "A", "/a")]), "工作区 id 不能为空");
    assert_eq!(message(vec![workspace("a", "", "/a")]), "工作区 name 不能为空");
    assert_eq!(message(vec![workspace("a", "A", "a")]), "工作区 `a` 的 path 必须是绝对路径");
    assert_eq!(
        message(vec![workspace("a", "A", "/a"), workspace("a", "B", "/b")]),
        "工作区 id 重复: a"
    );
    let checked = validate_workspaces(vec![workspace("a", "A", "/a"), workspace("b", "B", "/b")])
        .expect("nothing is wrong with these");
    assert_eq!(checked.len(), 2);
    assert_eq!(checked[1].id, "b");
    assert!(matches!(
        check_workspaces(vec![workspace("a", "A", "/a")], &vec![false]),
        Err(ConfigError::RelativePath { .. })
    ));
}

#[test]
fn default_workspace_is_the_named_or_the_first() {
    let workspaces = vec![workspace("a", "A", "/a"), workspace("b", "B", "/b")];
    assert_eq!(resolve_default_workspace_id(&workspaces, &None).unwrap(), "a");
    assert_eq!(resolve_default_workspace_id(&workspaces, &Some("b".to_string())).unwrap(), "b");
    assert!(resolve_default_workspace_id(&workspaces, &Some("c".to_string())).is_err());
    assert_eq!(default_workspace("/srv/code").name, "code");
    assert_eq!(default_workspace("/home/u/.config").name, ".config");
    assert_eq!(workspace_of("/", None).name, "Current Workspace");
}

#[test]
fn numbers_and_required_settings() {
    assert_eq!(env_u64_or_default("K", &None, 7).unwrap(), 7);
    assert_eq!(env_u64_or_default("K", &Some("+12".to_string()), 7).unwrap(), 12);
    assert!(env_u64_or_default("K", &Some("".to_string()), 7).is_err());
    assert!(env_u64_or_default("K", &Some("18446744073709551616".to_string()), 7).is_err());
    assert_eq!(required_env("K", &Some("v".to_string())).unwrap(), "v");
    assert_eq!(required_env("K", &None).unwrap_err().message(), "缺少环境变量 K");
}

fn relay_config(delay: u64, longest: u64, jitter: u64) -> codex_master::config::RelayTransportConfig {
    codex_master::config::RelayTransportConfig {
        url: "wss://relay".to_string(),
        device_id: "d".to_string(),
        device_name: "D".to_string(),
        auth_token: "t".to_string(),
        reconnect_delay_secs: delay,
        reconnect_max_delay_secs: longest,
        reconnect_jitter_millis: jitter,
        reconnect_reset_after_secs: 30,
    }
}

#[test]
fn delays_double_up_to_the_longest() {
    let config = relay_config(3, 60, 0);
    let secs = |attempt: u32| reconnect_delay(&config, attempt, None).secs;
    assert_eq!(secs(0), 3);
    assert_eq!(secs(1), 3);
    assert_eq!(secs(2), 6);
    assert_eq!(secs(5), 48);
    assert_eq!(secs(6), 60);
    assert_eq!(secs(u32::MAX), 60);
    let long = relay_config(2, u64::MAX, 0);
    assert_eq!(reconnect_delay(&long, 21, None).secs, 2 << 20);
    assert_eq!(reconnect_delay(&long, 500, None).secs, 2 << 20);
    let huge = relay_config(u64::MAX / 2, u64::MAX, 0);
    assert_eq!(reconnect_delay(&huge, 9, None).secs, u64::MAX);
    let none = relay_config(0, 0, 0);
    assert_eq!(
        reconnect_delay(&none, 9, None),
        ReconnectDelay { secs: 1, jitter_millis: 0 }
    );
}

#[test]
fn jitter_stays_below_its_bound() {
    assert_eq!(jitter_millis(0, Some((5, 6))), 0);
    assert_eq!(jitter_millis(9, Some((1, 7))), 7);
    assert_eq!(jitter_millis(9, None), 0);
    // The nanoseconds of a reading this late do not fit in sixty-four bits.
    assert_eq!(jitter_millis(u64::MAX, Some((18_446_744_074, 0))), 290_448_384);
    for _ in 0..50 {
        assert!(random_jitter_millis(3) <= 3);
    }
    assert_eq!(reconnect_delay_with_jitter(&relay_config(4, 60, 0), 1).secs, 4);
}

#[test]
fn failures_are_counted_until_a_connection_lasts() {
    let config = relay_config(3, 60, 0);
    assert!(cycle_failed(&config, None));
    assert!(cycle_failed(&config, Some(29)));
    assert!(!cycle_failed(&config, Some(30)));
    assert_eq!(count_failures(4, true), 5);
    assert_eq!(count_failures(u32::MAX, true), u32::MAX);
    assert_eq!(count_failures(4, false), 0);
}
