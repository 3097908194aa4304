//! The relay server, which stands between browsers and home clients.
use crate::config_error::{ConfigError, ConfigErrorModel};
use crate::config_error;
use crate::relay_server::auth::{
    parse_bool_env, parse_client_token_set, parse_origin_set_env, parse_string_set_env,
    required_nonempty_env, validate_auth_configuration, BindAddress,
};
use crate::relay_server::state::{
    BrowserAuthConfig, BrowserAuthModel, LocalLoginAuthConfig, LoginConfigModel,
};
use crate::string_map::StringSet;
use crate::text::parse_u64_str;
use crate::text;
use vstd::prelude::*;

pub mod access_laws;
pub mod auth;
pub mod auth_laws;
pub mod browser_messages;
pub mod client_messages;
pub mod connections;
pub mod disk_laws;
pub mod follow_up;
pub mod laws;
pub mod notice_laws;
pub mod report_laws;
pub mod request_laws;
pub mod restart_laws;
pub mod session_helpers;
pub mod session_laws;
pub mod sockets;
pub mod state;

verus! {

/// The address to listen on where the environment names none.
pub const DEFAULT_BIND_ADDRESS: &'static str = "127.0.0.1:8080";

/// The settings of the relay server as the environment gives them. The address
/// to listen on has been parsed; it is absent where that failed.
#[derive(Debug, Clone)]
pub struct RelayServerEnv {
    pub bind_address: Option<BindAddress>,
    pub allow_insecure_dev: Option<String>,
    pub client_tokens: Option<String>,
    pub client_tokens_revoked: Option<String>,
    pub browser_allowed_origins: Option<String>,
    pub login_session_ttl_secs: Option<String>,
    pub login_cookie_name: Option<String>,
    pub login_cookie_secure: Option<String>,
    pub login_username: Option<String>,
    pub login_password: Option<String>,
    pub state_file: Option<String>,
    pub compaction_threshold: Option<String>,
    pub segment_event_limit: Option<String>,
}

/// The settings of the relay server.
#[derive(Debug, Clone)]
pub struct RelayServerConfig {
    pub bind_address: BindAddress,
    pub accepted_client_tokens: StringSet,
    pub revoked_client_tokens: StringSet,
    pub browser_auth: BrowserAuthConfig,
    pub allow_insecure_dev: bool,
    pub state_file: String,
    pub compaction_threshold: usize,
    pub segment_event_limit: usize,
}

/// What a [`RelayServerConfig`] says.
#[verifier::ext_equal]
pub struct ServerConfigModel {
    pub bind_address: BindAddress,
    pub accepted_client_tokens: Seq<Seq<char>>,
    pub revoked_client_tokens: Seq<Seq<char>>,
    pub browser_auth: BrowserAuthModel,
    pub allow_insecure_dev: bool,
    pub state_file: Seq<char>,
    pub compaction_threshold: nat,
    pub segment_event_limit: nat,
}

impl DeepView for RelayServerConfig {
    type V = ServerConfigModel;

    open spec fn deep_view(&self) -> ServerConfigModel {
        ServerConfigModel {
            bind_address: self.bind_address,
            accepted_client_tokens: self.accepted_client_tokens.deep_view(),
            revoked_client_tokens: self.revoked_client_tokens.deep_view(),
            browser_auth: self.browser_auth.deep_view(),
            allow_insecure_dev: self.allow_insecure_dev,
            state_file: self.state_file@,
            compaction_threshold: self.compaction_threshold as nat,
            segment_event_limit: self.segment_event_limit as nat,
        }
    }
}

/// A yes-or-no setting that may be absent.
pub open spec fn bool_or(key: Seq<char>, value: Option<Seq<char>>, default: bool) -> Result<
    bool,
    ConfigErrorModel,
> {
    match value {
        Some(value) => auth::bool_setting(key, value),
        None => Ok(default),
    }
}

/// A number setting that may be absent; what is no number counts as absent.
pub open spec fn number_or(value: Option<Seq<char>>, max: nat, default: nat) -> nat {
    match value {
        Some(value) => match text::parse_number(value, max) {
            Some(number) => number,
            None => default,
        },
        None => default,
    }
}

pub open spec fn text_or(value: Option<Seq<char>>, default: Seq<char>) -> Seq<char> {
    match value {
        Some(value) => value,
        None => default,
    }
}

/// How long a login lasts: a day where nothing is said, and at least a minute.
pub open spec fn login_ttl(value: Option<Seq<char>>) -> u64 {
    let secs = number_or(value, u64::MAX as nat, 86400);
    if secs < 60 {
        60
    } else {
        secs as u64
    }
}

/// The settings of the relay server. The first setting that is wrong decides
/// the error.
pub open spec fn server_config(env: RelayServerEnv) -> Result<ServerConfigModel, ConfigErrorModel> {
    if env.bind_address is None {
        Err(ConfigErrorModel::BadBindAddress)
    } else {
        match bool_or(
            "RELAY_SERVER_ALLOW_INSECURE_DEV"@,
            env.allow_insecure_dev.deep_view(),
            false,
        ) {
            Err(error) => Err(error),
            Ok(allow_insecure_dev) => match auth::list_setting(
                "RELAY_SERVER_CLIENT_TOKENS"@,
                env.client_tokens.deep_view(),
            ) {
                Err(error) => Err(error),
                Ok(accepted) => match auth::list_setting(
                    "RELAY_SERVER_CLIENT_TOKENS_REVOKED"@,
                    env.client_tokens_revoked.deep_view(),
                ) {
                    Err(error) => Err(error),
                    Ok(revoked) => match auth::origins_setting(
                        "RELAY_SERVER_BROWSER_ALLOWED_ORIGINS"@,
                        env.browser_allowed_origins.deep_view(),
                    ) {
                        Err(error) => Err(error),
                        Ok(origins) => match login_config(env, allow_insecure_dev) {
                            Err(error) => Err(error),
                            Ok(login) => {
                                let browser_auth = BrowserAuthModel {
                                    login,
                                    allowed_origins: origins,
                                };
                                match auth::auth_flaw(
                                    env.bind_address.unwrap(),
                                    allow_insecure_dev,
                                    accepted,
                                    browser_auth,
                                ) {
                                    Some(error) => Err(error),
                                    None => Ok(
                                        ServerConfigModel {
                                            bind_address: env.bind_address.unwrap(),
                                            accepted_client_tokens: accepted,
                                            revoked_client_tokens: revoked,
                                            browser_auth,
                                            allow_insecure_dev,
                                            state_file: text_or(
                                                env.state_file.deep_view(),
                                                "relay-state.json"@,
                                            ),
                                            compaction_threshold: number_or(
                                                env.compaction_threshold.deep_view(),
                                                usize::MAX as nat,
                                                200,
                                            ),
                                            segment_event_limit: number_or(
                                                env.segment_event_limit.deep_view(),
                                                usize::MAX as nat,
                                                100,
                                            ),
                                        },
                                    ),
                                }
                            },
                        },
                    },
                },
            },
        }
    }
}

/// The settings of the login.
pub open spec fn login_config(env: RelayServerEnv, allow_insecure_dev: bool) -> Result<
    LoginConfigModel,
    ConfigErrorModel,
> {
    match bool_or(
        "RELAY_SERVER_LOGIN_COOKIE_SECURE"@,
        env.login_cookie_secure.deep_view(),
        !allow_insecure_dev,
    ) {
        Err(error) => Err(error),
        Ok(cookie_secure) => match auth::required_setting(
            "RELAY_SERVER_LOGIN_USERNAME"@,
            env.login_username.deep_view(),
        ) {
            Err(error) => Err(error),
            Ok(username) => match auth::required_setting(
                "RELAY_SERVER_LOGIN_PASSWORD"@,
                env.login_password.deep_view(),
            ) {
                Err(error) => Err(error),
                Ok(password) => Ok(
                    LoginConfigModel {
                        username,
                        password,
                        session_ttl_secs: login_ttl(env.login_session_ttl_secs.deep_view()),
                        cookie_name: text_or(env.login_cookie_name.deep_view(), "relay_session"@),
                        cookie_secure,
                    },
                ),
            },
        },
    }
}

/// An optional text, borrowed.
fn borrowed(value: &Option<String>) -> (r: Option<&str>)
    ensures
        auth::text_model(r) == value.deep_view(),
{
    match value {
        Some(value) => Some(value.as_str()),
        None => None,
    }
}

fn parse_bool_or(key: &str, value: &Option<String>, default: bool) -> (r: Result<bool, ConfigError>)
    ensures
        config_error::config_result(r) == bool_or(key@, value.deep_view(), default),
{
    match value {
        Some(value) => parse_bool_env(key, value.as_str()),
        None => Ok(default),
    }
}

fn parse_number_or(value: &Option<String>, max: u64, default: u64) -> (r: u64)
    requires
        default <= max,
    ensures
        r == number_or(value.deep_view(), max as nat, default as nat),
        r <= max,
{
    match value {
        Some(value) => match parse_u64_str(value.as_str(), max) {
            Some(number) => number,
            None => default,
        },
        None => default,
    }
}

fn parse_usize_or(value: &Option<String>, default: usize) -> (r: usize)
    ensures
        r == number_or(value.deep_view(), usize::MAX as nat, default as nat),
{
    parse_number_or(value, usize::MAX as u64, default as u64) as usize
}

fn copy_or(value: &Option<String>, default: &str) -> (r: String)
    ensures
        r@ == text_or(value.deep_view(), default@),
{
    match value {
        Some(value) => value.clone(),
        None => default.to_string(),
    }
}

fn login_from_env(env: &RelayServerEnv, allow_insecure_dev: bool) -> (r: Result<
    LocalLoginAuthConfig,
    ConfigError,
>)
    ensures
        config_error::config_result(r) == login_config(*env, allow_insecure_dev),
{
    let cookie_secure = match parse_bool_or(
        "RELAY_SERVER_LOGIN_COOKIE_SECURE",
        &env.login_cookie_secure,
        !allow_insecure_dev,
    ) {
        Err(error) => {
            return Err(error);
        },
        Ok(value) => value,
    };
    let username = match required_nonempty_env(
        "RELAY_SERVER_LOGIN_USERNAME",
        borrowed(&env.login_username),
    ) {
        Err(error) => {
            return Err(error);
        },
        Ok(value) => value,
    };
    let password = match required_nonempty_env(
        "RELAY_SERVER_LOGIN_PASSWORD",
        borrowed(&env.login_password),
    ) {
        Err(error) => {
            return Err(error);
        },
        Ok(value) => value,
    };
    let secs = parse_number_or(&env.login_session_ttl_secs, u64::MAX, 86400);
    let session_ttl_secs: u64 = if secs < 60 {
        60
    } else {
        secs
    };
    Ok(
        LocalLoginAuthConfig {
            username,
            password,
            session_ttl_secs,
            cookie_name: copy_or(&env.login_cookie_name, "relay_session"),
            cookie_secure,
        },
    )
}

impl RelayServerConfig {
    /// The settings of the relay server, from what the environment gives.
    pub fn from_env(env: &RelayServerEnv) -> (r: Result<Self, ConfigError>)
        ensures
            config_error::config_result(r) == server_config(*env),
    {
        let bind_address = match env.bind_address {
            None => {
                return Err(ConfigError::BadBindAddress);
            },
            Some(bind_address) => bind_address,
        };
        let allow_insecure_dev = match parse_bool_or(
            "RELAY_SERVER_ALLOW_INSECURE_DEV",
            &env.allow_insecure_dev,
            false,
        ) {
            Err(error) => {
                return Err(error);
            },
            Ok(value) => value,
        };
        let accepted_client_tokens = match parse_client_token_set(borrowed(&env.client_tokens)) {
            Err(error) => {
                return Err(error);
            },
            Ok(value) => value,
        };
        let revoked_client_tokens = match parse_string_set_env(
            "RELAY_SERVER_CLIENT_TOKENS_REVOKED",
            borrowed(&env.client_tokens_revoked),
        ) {
            Err(error) => {
                return Err(error);
            },
            Ok(value) => value,
        };
        let allowed_origins = match parse_origin_set_env(
            "RELAY_SERVER_BROWSER_ALLOWED_ORIGINS",
            borrowed(&env.browser_allowed_origins),
        ) {
            Err(error) => {
                return Err(error);
            },
            Ok(value) => value,
        };
        let login = match login_from_env(env, allow_insecure_dev) {
            Err(error) => {
                return Err(error);
            },
            Ok(value) => value,
        };
        let browser_auth = BrowserAuthConfig { login, allowed_origins };
        match validate_auth_configuration(
            bind_address,
            allow_insecure_dev,
            &accepted_client_tokens,
            &browser_auth,
        ) {
            Err(error) => {
                return Err(error);
            },
            Ok(_) => {},
        }
        Ok(
            RelayServerConfig {
                bind_address,
                accepted_client_tokens,
                revoked_client_tokens,
                browser_auth,
                allow_insecure_dev,
                state_file: copy_or(&env.state_file, "relay-state.json"),
                compaction_threshold: parse_usize_or(&env.compaction_threshold, 200),
                segment_event_limit: parse_usize_or(&env.segment_event_limit, 100),
            },
        )
    }

    /// What the log calls the way in which requests are checked.
    pub fn security_mode(&self) -> (r: &'static str)
        ensures
            r@ == if self.allow_insecure_dev {
                "insecure-dev"@
            } else {
                "strict"@
            },
    {
        if self.allow_insecure_dev {
            "insecure-dev"
        } else {
            "strict"
        }
    }
}

} // verus!
