use codex_master::relay_server::auth::{
    build_auth_cookie, build_expired_auth_cookie, cookie_value, normalize_origin,
    optional_nonempty_env, parse_bool_env, parse_client_token_set, parse_origin_set_env,
    parse_string_set_env, required_nonempty_env, validate_browser_origin, AuthRefusal, AuthReply,
    BindAddress, IpAddress, LoginRequest, RequestHeaders,
};
use codex_master::relay_server::state::{
    AppState, BrowserAuthConfig, ClientAuthConfig, LocalLoginAuthConfig,
};
use codex_master::relay_server::{RelayServerConfig, RelayServerEnv};
use codex_master::relay_state::{RelayPersistence, RelayStore};
use codex_master::string_map::StringSet;

fn headers(cookie: Option<&str>, origin: Option<&str>) -> RequestHeaders {
    RequestHeaders {
        cookie: cookie.map(|text| text.as_bytes().to_vec()),
        origin: origin.map(|text| text.as_bytes().to_vec()),
    }
}

fn auth(origins: &[&str]) -> BrowserAuthConfig {
    let mut allowed_origins = StringSet::new();
    for origin in origins {
        allowed_origins.insert(origin.to_string());
    }
    BrowserAuthConfig {
        login: LocalLoginAuthConfig {
            username: "admin".to_string(),
            password: "password".to_string(),
            session_ttl_secs: 100,
            cookie_name: "relay_session".to_string(),
            cookie_secure: true,
        },
        allowed_origins,
    }
}

fn server(origins: &[&str]) -> AppState {
    AppState::new(
        ClientAuthConfig { accepted_tokens: StringSet::new(), revoked_tokens: StringSet::new() },
        auth(origins),
        RelayPersistence::new("state.json".to_string(), 200, 100),
        RelayStore::default(),
    )
}

fn credentials(username: &str, password: &str) -> LoginRequest {
    LoginRequest { username: username.to_string(), password: password.to_string() }
}

#[test]
fn a_login_lasts_until_it_expires() {
    let mut server = server(&[]);
    let reply = server.login_submit_at(
        &headers(None, None),
        &credentials("admin", "password"),
        "token-1".to_string(),
        1000,
    );
    match reply {
        AuthReply::Done { cookie } => assert_eq!(
            String::from_utf8(cookie).unwrap(),
            "relay_session=token-1; Path=/; HttpOnly; SameSite=Lax; Max-Age=100; Secure"
        ),
        other => panic!("unexpected reply: {other:?}"),
    }
    let cookie = headers(Some("other=1; relay_session=token-1"), None);
    let user = server.authenticate_browser_request_at(&cookie, false, 1099).unwrap();
    assert_eq!(user.user_id, "admin");
    assert_eq!(
        server.authenticate_browser_request_at(&cookie, false, 1100).unwrap_err(),
        AuthRefusal::LoginExpired
    );
    // The expired login was forgotten.
    assert_eq!(
        server.authenticate_browser_request_at(&cookie, false, 1000).unwrap_err(),
        AuthRefusal::LoginInvalid
    );
    assert_eq!(
        server.authenticate_browser_request_at(&headers(None, None), false, 1000).unwrap_err(),
        AuthRefusal::LoginMissing
    );
}

#[test]
fn a_login_ends_with_the_logout() {
    let mut server = server(&[]);
    let reply = server.login_submit(&headers(None, None), &credentials("admin", "password"));
    let sent = match reply {
        AuthReply::Done { cookie } => String::from_utf8(cookie).unwrap(),
        other => panic!("unexpected reply: {other:?}"),
    };
    let pair = sent.split(';').next().unwrap().to_string();
    let token = pair.strip_prefix("relay_session=").unwrap().to_string();
    assert_eq!(token.len(), 36);
    let hyphens: Vec<usize> = token.match_indices('-').map(|(i, _)| i).collect();
    assert_eq!(hyphens, vec![8, 13, 18, 23]);
    assert_eq!(&token[14..15], "4");
    assert!(["8", "9", "a", "b"].contains(&&token[19..20]));
    assert!(token.chars().all(|c| c == '-' || c.is_ascii_digit() || ('a'..='f').contains(&c)));
    let cookie = headers(Some(&pair), None);
    assert_eq!(server.authenticate_browser_http_request(&cookie).unwrap().user_id, "admin");
    assert_eq!(server.login_page(&cookie), Some("/"));
    assert_eq!(server.ensure_browser_http_auth(&cookie).unwrap().user_id, "admin");
    match server.logout_submit(&cookie) {
        AuthReply::Done { cookie } => assert_eq!(
            String::from_utf8(cookie).unwrap(),
            "relay_session=; Path=/; HttpOnly; SameSite=Lax; Max-Age=0; Secure"
        ),
        other => panic!("unexpected reply: {other:?}"),
    }
    assert!(server.login_sessions.is_empty());
    assert_eq!(server.login_page(&cookie), None);
    assert_eq!(server.ensure_browser_http_auth(&cookie).unwrap_err(), "/login");
    let first = server.login_submit(&headers(None, None), &credentials("admin", "password"));
    let second = server.login_submit(&headers(None, None), &credentials("admin", "password"));
    match (first, second) {
        (AuthReply::Done { cookie: a }, AuthReply::Done { cookie: b }) => assert_ne!(a, b),
        other => panic!("unexpected replies: {other:?}"),
    }
}

#[test]
fn wrong_credentials_change_nothing() {
    let mut server = server(&[]);
    for request in [credentials("admin", "x"), credentials("x", "password")] {
        match server.login_submit_at(&headers(None, None), &request, "t".to_string(), 1) {
            AuthReply::Unauthorized { message } => assert_eq!(message, "invalid credentials"),
            other => panic!("unexpected reply: {other:?}"),
        }
    }
    assert!(server.login_sessions.is_empty());
}

#[test]
fn a_cookie_that_cannot_be_sent_is_reported() {
    let mut server = server(&[]);
    server.browser_auth.login.cookie_name = "relay\nsession".to_string();
    match server.login_submit_at(
        &headers(None, None),
        &credentials("admin", "password"),
        "t".to_string(),
        1,
    ) {
        AuthReply::Failed { message } => {
            assert_eq!(message, "failed to build auth cookie: 构建登录 cookie 失败")
        }
        other => panic!("unexpected reply: {other:?}"),
    }
    match server.logout_submit(&headers(None, None)) {
        AuthReply::Failed { message } => {
            assert_eq!(message, "failed to clear auth cookie: 构建退出登录 cookie 失败")
        }
        other => panic!("unexpected reply: {other:?}"),
    }
}

#[test]
fn origins_are_checked_where_they_are_listed() {
    let listed = auth(&["https://relay.example.com"]);
    let refusal = |origin: Option<&str>| validate_browser_origin(&listed, &headers(None, origin));
    assert_eq!(refusal(Some(" HTTPS://Relay.Example.com/ ")), Ok(()));
    assert_eq!(refusal(None), Err(AuthRefusal::OriginMissing));
    assert_eq!(refusal(Some("  ")), Err(AuthRefusal::OriginMissing));
    assert_eq!(refusal(Some("relay.example.com")), Err(AuthRefusal::OriginInvalid));
    assert_eq!(refusal(Some("https://evil.example.com")), Err(AuthRefusal::OriginNotAllowed));
    // What is not visible ASCII is no text.
    assert_eq!(refusal(Some("https://relay.example.com\u{e9}")), Err(AuthRefusal::OriginMissing));
    assert_eq!(validate_browser_origin(&auth(&[]), &headers(None, None)), Ok(()));
    let mut server = server(&["https://relay.example.com"]);
    let reply = server.login_submit(&headers(None, None), &credentials("admin", "password"));
    match reply {
        AuthReply::Unauthorized { message } => assert_eq!(message, "browser origin header missing"),
        other => panic!("unexpected reply: {other:?}"),
    }
    assert_eq!(
        server.authenticate_browser_ws_request(&headers(None, None)).unwrap_err().message(),
        "browser origin header missing"
    );
    assert_eq!(
        server.authenticate_browser_http_request(&headers(None, None)).unwrap_err().message(),
        "browser login session missing"
    );
    assert_eq!(AuthRefusal::OriginNotAllowed.message(), "browser origin not allowed");
    assert_eq!(AuthRefusal::OriginInvalid.message(), "browser origin header invalid");
    assert_eq!(AuthRefusal::LoginInvalid.message(), "browser login session invalid");
    assert_eq!(AuthRefusal::LoginExpired.message(), "browser login session expired");
}

#[test]
fn origins_in_normal_form_stay_as_they_are() {
    for origin in ["https://a.b", "http://localhost:3000"] {
        assert_eq!(normalize_origin(origin).as_deref(), Some(origin));
    }
    // One that ends in white space is shortened once more.
    assert_eq!(normalize_origin("https://a /").as_deref(), Some("https://a "));
    assert_eq!(normalize_origin("https://a ").as_deref(), Some("https://a"));
    for origin in ["https://A.b", "https://a.b/", " HTTPS://A.B// "] {
        assert_eq!(normalize_origin(origin).as_deref(), Some("https://a.b"));
    }
    assert_eq!(normalize_origin("https://"), None);
    assert_eq!(normalize_origin("https://a?b"), None);
    assert_eq!(normalize_origin("https://a#b"), None);
    assert_eq!(normalize_origin("ftp://a"), None);
}

#[test]
fn cookies_are_found_by_name() {
    let value = |header: &str| cookie_value(&headers(Some(header), None), "sid");
    assert_eq!(value("sid=abc").as_deref(), Some("abc"));
    assert_eq!(value(" a=b ;; sid = abc ; sid=later").as_deref(), Some("abc"));
    assert_eq!(value("sid=a=b").as_deref(), Some("a=b"));
    assert_eq!(value("sid=").as_deref(), Some(""));
    assert_eq!(value("other; sid=abc"), None);
    assert_eq!(value("SID=abc"), None);
    assert_eq!(cookie_value(&headers(None, None), "sid"), None);
    assert_eq!(
        cookie_value(&RequestHeaders { cookie: Some(vec![115, 200]), origin: None }, "s"),
        None
    );
}

#[test]
fn cookies_hold_what_a_header_can() {
    assert_eq!(
        build_auth_cookie("c", "t", 5, false).unwrap(),
        b"c=t; Path=/; HttpOnly; SameSite=Lax; Max-Age=5".to_vec()
    );
    assert_eq!(
        build_expired_auth_cookie("é", false).unwrap(),
        "é=; Path=/; HttpOnly; SameSite=Lax; Max-Age=0".as_bytes().to_vec()
    );
    assert!(build_auth_cookie("c\u{7f}", "t", 5, false).is_none());
    assert!(build_auth_cookie("c\r", "t", 5, false).is_none());
    assert!(build_auth_cookie("c\t", "t", 5, true).is_some());
}

#[test]
fn settings_of_several_kinds() {
    assert_eq!(optional_nonempty_env("K", None).unwrap(), None);
    assert_eq!(optional_nonempty_env("K", Some(" v ")).unwrap().as_deref(), Some("v"));
    assert_eq!(
        optional_nonempty_env("K", Some(" ")).unwrap_err().message(),
        "K 不能为空字符串"
    );
    assert_eq!(required_nonempty_env("K", None).unwrap_err().message(), "缺少环境变量 K");
    for word in ["1", "TRUE", " yes ", "On"] {
        assert!(parse_bool_env("K", word).unwrap());
    }
    for word in ["0", "false", "NO", "off"] {
        assert!(!parse_bool_env("K", word).unwrap());
    }
    assert_eq!(parse_bool_env("K", "2").unwrap_err().message(), "K 必须是布尔值");
    let set = parse_string_set_env("K", Some(" a, b ,,a ")).unwrap();
    assert_eq!(set.len(), 2);
    assert!(set.contains("a") && set.contains("b"));
    assert!(parse_string_set_env("K", Some("  ")).unwrap().is_empty());
    assert!(parse_client_token_set(None).unwrap().is_empty());
    assert_eq!(
        parse_string_set_env("K", Some(",")).unwrap_err().message(),
        "K 至少需要包含一个非空值"
    );
    assert_eq!(
        parse_origin_set_env("K", Some("https://A, nope")).unwrap_err().message(),
        "K 包含非法 origin: nope"
    );
    assert!(parse_origin_set_env("K", Some("https://A/")).unwrap().contains("https://a"));
}

fn env() -> RelayServerEnv {
    RelayServerEnv {
        bind_address: Some(BindAddress {
            ip: IpAddress::V6 { segments: [0, 0, 0, 0, 0, 0, 0, 1] },
            port: 8080,
        }),
        allow_insecure_dev: None,
        client_tokens: Some("one, two".to_string()),
        client_tokens_revoked: Some("two".to_string()),
        browser_allowed_origins: Some("https://relay.example.com".to_string()),
        login_session_ttl_secs: None,
        login_cookie_name: None,
        login_cookie_secure: None,
        login_username: Some(" admin ".to_string()),
        login_password: Some("password".to_string()),
        state_file: None,
        compaction_threshold: None,
        segment_event_limit: None,
    }
}

#[test]
fn the_server_has_defaults() {
    let config = RelayServerConfig::from_env(&env()).expect("nothing is wrong with these");
    assert_eq!(config.accepted_client_tokens.len(), 2);
    assert!(config.revoked_client_tokens.contains("two"));
    assert_eq!(config.browser_auth.login.username, "admin");
    assert_eq!(config.browser_auth.login.session_ttl_secs, 86400);
    assert_eq!(config.browser_auth.login.cookie_name, "relay_session");
    assert!(config.browser_auth.login.cookie_secure);
    assert_eq!(config.browser_auth.mode_name(), "local_login");
    assert_eq!(config.state_file, "relay-state.json");
    assert_eq!(config.compaction_threshold, 200);
    assert_eq!(config.segment_event_limit, 100);
    assert_eq!(config.security_mode(), "strict");
}

#[test]
fn the_server_is_refused_wrong_settings() {
    let message = |env: RelayServerEnv| RelayServerConfig::from_env(&env).unwrap_err().message();
    let none = None::<String>;
    assert_eq!(
        message(RelayServerEnv { bind_address: None, ..env() }),
        "解析 RELAY_SERVER_BIND 失败"
    );
    assert_eq!(
        message(RelayServerEnv { allow_insecure_dev: Some("x".to_string()), ..env() }),
        "RELAY_SERVER_ALLOW_INSECURE_DEV 必须是布尔值"
    );
    assert_eq!(
        message(RelayServerEnv { client_tokens: none.clone(), ..env() }),
        "缺少 RELAY_SERVER_CLIENT_TOKENS；生产模式必须启用 home client token 认证"
    );
    assert_eq!(
        message(RelayServerEnv { browser_allowed_origins: none.clone(), ..env() }),
        "生产模式必须设置 RELAY_SERVER_BROWSER_ALLOWED_ORIGINS（逗号分隔）用于浏览器 Origin 校验"
    );
    assert_eq!(
        message(RelayServerEnv { login_username: none.clone(), ..env() }),
        "缺少环境变量 RELAY_SERVER_LOGIN_USERNAME"
    );
    assert_eq!(
        message(RelayServerEnv { login_password: Some(" ".to_string()), ..env() }),
        "RELAY_SERVER_LOGIN_PASSWORD 不能为空字符串"
    );
    let outside = BindAddress { ip: IpAddress::V4 { octets: [128, 0, 0, 1] }, port: 1 };
    assert_eq!(
        message(RelayServerEnv {
            bind_address: Some(outside),
            allow_insecure_dev: Some("true".to_string()),
            ..env()
        }),
        "RELAY_SERVER_ALLOW_INSECURE_DEV=true 仅允许在 loopback 监听地址上使用"
    );
    let relaxed = RelayServerConfig::from_env(&RelayServerEnv {
        allow_insecure_dev: Some("true".to_string()),
        client_tokens: none.clone(),
        browser_allowed_origins: none,
        login_session_ttl_secs: Some("5".to_string()),
        compaction_threshold: Some("many".to_string()),
        segment_event_limit: Some("7".to_string()),
        ..env()
    })
    .unwrap();
    assert!(!relaxed.browser_auth.login.cookie_secure);
    assert_eq!(relaxed.browser_auth.login.session_ttl_secs, 60);
    assert_eq!(relaxed.compaction_threshold, 200);
    assert_eq!(relaxed.segment_event_limit, 7);
    assert_eq!(relaxed.security_mode(), "insecure-dev");
}

#[test]
fn another_origin_changes_no_login() {
    let mut server = server(&["https://relay.example.com"]);
    let welcome = headers(None, Some("https://relay.example.com"));
    let request = credentials("admin", "password");
    assert!(matches!(
        server.login_submit_at(&welcome, &request, "t".to_string(), 1),
        AuthReply::Done { .. }
    ));
    let foreign = headers(Some("relay_session=t"), Some("https://evil.example.com"));
    assert!(matches!(server.logout_submit(&foreign), AuthReply::Unauthorized { .. }));
    assert_eq!(
        server.authenticate_browser_request_at(&foreign, true, 2).unwrap_err(),
        AuthRefusal::OriginNotAllowed
    );
    assert!(server.authenticate_browser_request_at(&foreign, false, 2).is_ok());
    assert_eq!(server.login_sessions.len(), 1);
}
