//! The settings of the home client.
use crate::config_error::{ConfigError, ConfigErrorModel};
use crate::config_error;
use crate::duplicate::Duplicate;
use crate::paths::{file_name, is_absolute};
use crate::paths;
use crate::relay_server::auth::parse_bool_env;
use crate::relay_server::auth;
use crate::text::{
    chars, is_blank, parse_u64_str, same, slice_after_last, slice_before_first, slice_same,
    slice_split_once, slice_trim, from_chars, to_lower,
};
use crate::text;
use vstd::prelude::*;
use vstd::slice::slice_subrange;

verus! {

/// A workspace that the home client offers.
#[derive(Debug, Clone)]
pub struct WorkspaceConfig {
    pub id: String,
    pub name: String,
    pub path: String,
}

/// What a [`WorkspaceConfig`] says.
#[verifier::ext_equal]
pub struct WorkspaceConfigModel {
    pub id: Seq<char>,
    pub name: Seq<char>,
    pub path: Seq<char>,
}

impl DeepView for WorkspaceConfig {
    type V = WorkspaceConfigModel;

    open spec fn deep_view(&self) -> WorkspaceConfigModel {
        WorkspaceConfigModel {
            id: self.id@,
            name: self.name@,
            path: self.path@,
        }
    }
}

impl Duplicate for WorkspaceConfig {
    fn duplicate(&self) -> (r: Self) {
        WorkspaceConfig {
            id: self.id.clone(),
            name: self.name.clone(),
            path: self.path.clone(),
        }
    }
}

/// How the home client reaches the relay server.
#[derive(Debug, Clone)]
pub struct RelayTransportConfig {
    pub url: String,
    pub device_id: String,
    pub device_name: String,
    pub auth_token: String,
    pub reconnect_delay_secs: u64,
    pub reconnect_max_delay_secs: u64,
    pub reconnect_jitter_millis: u64,
    pub reconnect_reset_after_secs: u64,
}

/// What a [`RelayTransportConfig`] says.
#[verifier::ext_equal]
pub struct RelayConfigModel {
    pub url: Seq<char>,
    pub device_id: Seq<char>,
    pub device_name: Seq<char>,
    pub auth_token: Seq<char>,
    pub reconnect_delay_secs: u64,
    pub reconnect_max_delay_secs: u64,
    pub reconnect_jitter_millis: u64,
    pub reconnect_reset_after_secs: u64,
}

impl DeepView for RelayTransportConfig {
    type V = RelayConfigModel;

    open spec fn deep_view(&self) -> RelayConfigModel {
        RelayConfigModel {
            url: self.url@,
            device_id: self.device_id@,
            device_name: self.device_name@,
            auth_token: self.auth_token@,
            reconnect_delay_secs: self.reconnect_delay_secs,
            reconnect_max_delay_secs: self.reconnect_max_delay_secs,
            reconnect_jitter_millis: self.reconnect_jitter_millis,
            reconnect_reset_after_secs: self.reconnect_reset_after_secs,
        }
    }
}

impl Duplicate for RelayTransportConfig {
    fn duplicate(&self) -> (r: Self) {
        RelayTransportConfig {
            url: self.url.clone(),
            device_id: self.device_id.clone(),
            device_name: self.device_name.clone(),
            auth_token: self.auth_token.clone(),
            reconnect_delay_secs: self.reconnect_delay_secs,
            reconnect_max_delay_secs: self.reconnect_max_delay_secs,
            reconnect_jitter_millis: self.reconnect_jitter_millis,
            reconnect_reset_after_secs: self.reconnect_reset_after_secs,
        }
    }
}

/// How the home client is reached.
#[derive(Debug, Clone)]
pub enum TransportConfig {
    Local,
    Relay(RelayTransportConfig),
}

/// What a [`TransportConfig`] says.
#[verifier::ext_equal]
pub enum TransportModel {
    Local,
    Relay(RelayConfigModel),
}

impl DeepView for TransportConfig {
    type V = TransportModel;

    open spec fn deep_view(&self) -> TransportModel {
        match self {
            TransportConfig::Local => TransportModel::Local,
            TransportConfig::Relay(config) => TransportModel::Relay(config.deep_view()),
        }
    }
}

/// The settings of the home client.
#[derive(Debug, Clone)]
pub struct AppConfig {
    pub transport: TransportConfig,
    pub workspaces: Vec<WorkspaceConfig>,
    pub default_workspace_id: String,
}

/// What an [`AppConfig`] says.
#[verifier::ext_equal]
pub struct ConfigModel {
    pub transport: TransportModel,
    pub workspaces: Seq<WorkspaceConfigModel>,
    pub default_workspace_id: Seq<char>,
}

impl DeepView for AppConfig {
    type V = ConfigModel;

    open spec fn deep_view(&self) -> ConfigModel {
        ConfigModel {
            transport: self.transport.deep_view(),
            workspaces: self.workspaces.deep_view(),
            default_workspace_id: self.default_workspace_id@,
        }
    }
}

/// The settings of the home client as the environment gives them.
#[derive(Debug, Clone)]
pub struct HomeClientEnv {
    pub transport: Option<String>,
    pub default_workspace_id: Option<String>,
    pub allow_insecure_ws: Option<String>,
    pub relay_url: Option<String>,
    pub reconnect_delay_secs: Option<String>,
    pub reconnect_max_delay_secs: Option<String>,
    pub reconnect_jitter_millis: Option<String>,
    pub reconnect_reset_after_secs: Option<String>,
    pub device_id: Option<String>,
    pub device_name: Option<String>,
    pub hostname: Option<String>,
    pub auth_token: Option<String>,
}

/// The workspaces that the environment lists.
#[derive(Debug, Clone)]
pub enum WorkspaceList {
    /// The environment lists none.
    Absent,
    /// The environment's list cannot be read.
    Malformed,
    Listed(Vec<WorkspaceConfig>),
}

// ---------------------------------------------------------------------------
// Single settings
// ---------------------------------------------------------------------------

/// A setting that must be there.
pub open spec fn present_setting(key: Seq<char>, value: Option<Seq<char>>) -> Result<
    Seq<char>,
    ConfigErrorModel,
> {
    match value {
        Some(value) => Ok(value),
        None => Err(ConfigErrorModel::Missing { key }),
    }
}

pub fn required_env(key: &str, value: &Option<String>) -> (r: Result<String, ConfigError>)
    ensures
        config_error::config_result(r) == present_setting(key@, value.deep_view()),
{
    match value {
        Some(value) => Ok(value.clone()),
        None => Err(ConfigError::Missing { key: key.to_string() }),
    }
}

/// A number setting that may be absent but has to be a number.
pub open spec fn number_setting(key: Seq<char>, value: Option<Seq<char>>, default: u64) -> Result<
    u64,
    ConfigErrorModel,
> {
    match value {
        None => Ok(default),
        Some(value) => match text::parse_number(value, u64::MAX as nat) {
            Some(number) => Ok(number as u64),
            None => Err(ConfigErrorModel::NotNumber { key }),
        },
    }
}

pub fn env_u64_or_default(key: &str, value: &Option<String>, default: u64) -> (r: Result<
    u64,
    ConfigError,
>)
    ensures
        config_error::config_result(r) == number_setting(key@, value.deep_view(), default),
{
    match value {
        None => Ok(default),
        Some(value) => match parse_u64_str(value.as_str(), u64::MAX) {
            Some(number) => Ok(number),
            None => Err(ConfigError::NotNumber { key: key.to_string() }),
        },
    }
}

// ---------------------------------------------------------------------------
// The relay's address
// ---------------------------------------------------------------------------

/// The part of an address without its scheme that says where it leads: all before
/// the path, the query or the fragment, whichever comes first.
pub open spec fn authority_of(url_without_scheme: Seq<char>) -> Seq<char> {
    text::before_first(
        text::before_first(text::before_first(url_without_scheme, '/'), '?'),
        '#',
    )
}

/// The host that an address without its scheme names.
pub open spec fn target_host(url_without_scheme: Seq<char>) -> Seq<char> {
    let authority = text::after_last(authority_of(url_without_scheme), '@');
    let host = if authority.len() > 0 && authority[0] == '[' {
        text::before_first(authority.skip(1), ']')
    } else {
        text::before_first(authority, ':')
    };
    text::lower(text::trim(host))
}

/// Whether an address without its scheme leads to this machine.
pub open spec fn leads_to_loopback(url_without_scheme: Seq<char>) -> bool {
    let host = target_host(url_without_scheme);
    host == "localhost"@ || host == "127.0.0.1"@ || host == "::1"@
}

proof fn lemma_before_first_of_nothing(s: Seq<char>, c: char)
    requires
        s.len() == 0,
    ensures
        text::trim(text::before_first(s, c)).len() == 0,
{
}

pub fn is_loopback_target(url_without_scheme: &str) -> (r: bool)
    ensures
        r == leads_to_loopback(url_without_scheme@),
{
    let all = chars(url_without_scheme);
    let before_path = slice_before_first(all.as_slice(), '/');
    let before_query = slice_before_first(before_path, '?');
    let authority = slice_after_last(slice_before_first(before_query, '#'), '@');
    proof {
        reveal_strlit("localhost");
        reveal_strlit("127.0.0.1");
        reveal_strlit("::1");
    }
    if authority.len() == 0 {
        proof {
            lemma_before_first_of_nothing(authority@, ':');
            assert(target_host(url_without_scheme@).len() == 0);
        }
        return false;
    }
    let host = if authority[0] == '[' {
        let inner = slice_subrange(authority, 1, authority.len());
        assert(inner@ =~= authority@.skip(1));
        slice_before_first(inner, ']')
    } else {
        slice_before_first(authority, ':')
    };
    let host = to_lower(slice_trim(host));
    let host = host.as_slice();
    slice_same(host, "localhost") || slice_same(host, "127.0.0.1") || slice_same(host, "::1")
}

/// The address of the relay server: a secure one, or where that is allowed an
/// insecure one on this machine.
pub open spec fn relay_url(raw: Seq<char>, allow_insecure_ws: bool) -> Result<
    Seq<char>,
    ConfigErrorModel,
> {
    let url = text::trim(raw);
    if url.len() == 0 {
        Err(ConfigErrorModel::BlankUrl)
    } else {
        match text::split_once(url, "://"@) {
            None => Err(ConfigErrorModel::NoScheme),
            Some((scheme, rest)) => if text::lower(scheme) == "wss"@ {
                Ok(url)
            } else if text::lower(scheme) == "ws"@ {
                if !allow_insecure_ws {
                    Err(ConfigErrorModel::InsecureScheme)
                } else if !leads_to_loopback(rest) {
                    Err(ConfigErrorModel::InsecureTarget)
                } else {
                    Ok(url)
                }
            } else {
                Err(ConfigErrorModel::UnknownScheme)
            },
        }
    }
}

pub fn validate_relay_url(raw: &str, allow_insecure_ws: bool) -> (r: Result<String, ConfigError>)
    ensures
        config_error::config_result(r) == relay_url(raw@, allow_insecure_ws),
{
    let all = chars(raw);
    let url = slice_trim(all.as_slice());
    if url.len() == 0 {
        return Err(ConfigError::BlankUrl);
    }
    match slice_split_once(url, "://") {
        None => Err(ConfigError::NoScheme),
        Some((scheme, rest)) => {
            let scheme = to_lower(scheme);
            proof {
                reveal_strlit("wss");
                reveal_strlit("ws");
            }
            if slice_same(scheme.as_slice(), "wss") {
                Ok(from_chars(url))
            } else if slice_same(scheme.as_slice(), "ws") {
                if !allow_insecure_ws {
                    Err(ConfigError::InsecureScheme)
                } else if !is_loopback_target(from_chars(rest).as_str()) {
                    Err(ConfigError::InsecureTarget)
                } else {
                    Ok(from_chars(url))
                }
            } else {
                Err(ConfigError::UnknownScheme)
            }
        },
    }
}

/// An address that is accepted without the exception for this machine is secure.
pub proof fn law_default_address_is_secure(raw: Seq<char>)
    requires
        relay_url(raw, false) is Ok,
    ensures
        relay_url(raw, false) == Ok::<Seq<char>, ConfigErrorModel>(text::trim(raw)),
        text::split_once(text::trim(raw), "://"@) matches Some((scheme, _)) && text::lower(
            scheme,
        ) == "wss"@,
{
}

/// The exception for this machine admits nothing but addresses on it.
pub proof fn law_insecure_address_is_local(raw: Seq<char>)
    requires
        relay_url(raw, true) is Ok,
        relay_url(raw, false) is Err,
    ensures
        text::split_once(text::trim(raw), "://"@) matches Some((_, rest)) && leads_to_loopback(
            rest,
        ),
{
}

// ---------------------------------------------------------------------------
// Workspaces
// ---------------------------------------------------------------------------

/// What is wrong with one of the workspaces; none where nothing is. `absolute`
/// says of each whether its path is absolute.
pub open spec fn flaw_at(
    workspaces: Seq<WorkspaceConfigModel>,
    absolute: Seq<bool>,
    i: int,
) -> Option<ConfigErrorModel> {
    let workspace = workspaces[i];
    if text::trim(workspace.id).len() == 0 {
        Some(ConfigErrorModel::BlankWorkspaceId)
    } else if text::trim(workspace.name).len() == 0 {
        Some(ConfigErrorModel::BlankWorkspaceName)
    } else if !absolute[i] {
        Some(ConfigErrorModel::RelativePath { id: workspace.id })
    } else if exists|j: int| 0 <= j < i && (#[trigger] workspaces[j]).id == workspace.id {
        Some(ConfigErrorModel::RepeatedWorkspace { id: workspace.id })
    } else {
        None
    }
}

/// What is wrong with the workspaces from a position on: the first flaw.
pub open spec fn first_flaw(
    workspaces: Seq<WorkspaceConfigModel>,
    absolute: Seq<bool>,
    i: int,
) -> Option<ConfigErrorModel>
    decreases workspaces.len() - i,
{
    if i >= workspaces.len() {
        None
    } else {
        match flaw_at(workspaces, absolute, i) {
            Some(flaw) => Some(flaw),
            None => first_flaw(workspaces, absolute, i + 1),
        }
    }
}

/// The workspaces, where there are any and none has a flaw.
pub open spec fn checked_workspaces(
    workspaces: Seq<WorkspaceConfigModel>,
    absolute: Seq<bool>,
) -> Result<Seq<WorkspaceConfigModel>, ConfigErrorModel> {
    if workspaces.len() == 0 {
        Err(ConfigErrorModel::NoWorkspaces)
    } else {
        match first_flaw(workspaces, absolute, 0) {
            Some(flaw) => Err(flaw),
            None => Ok(workspaces),
        }
    }
}

/// Checks workspaces, of each of which it is known whether its path is absolute.
pub fn check_workspaces(workspaces: Vec<WorkspaceConfig>, absolute: &Vec<bool>) -> (r: Result<
    Vec<WorkspaceConfig>,
    ConfigError,
>)
    requires
        absolute@.len() == workspaces@.len(),
    ensures
        config_error::config_result(r) == checked_workspaces(workspaces.deep_view(), absolute@),
{
    if workspaces.len() == 0 {
        return Err(ConfigError::NoWorkspaces);
    }
    let ghost all = workspaces.deep_view();
    for i in 0..workspaces.len()
        invariant
            all == workspaces.deep_view(),
            all.len() > 0,
            absolute@.len() == workspaces@.len(),
            first_flaw(all, absolute@, 0) == first_flaw(all, absolute@, i as int),
    {
        let workspace = &workspaces[i];
        assert(all[i as int] == workspace.deep_view());
        if is_blank(workspace.id.as_str()) {
            return Err(ConfigError::BlankWorkspaceId);
        }
        if is_blank(workspace.name.as_str()) {
            return Err(ConfigError::BlankWorkspaceName);
        }
        if !absolute[i] {
            return Err(ConfigError::RelativePath { id: workspace.id.clone() });
        }
        for j in 0..i
            invariant
                all == workspaces.deep_view(),
                all.len() > 0,
                i < workspaces@.len(),
                absolute@.len() == workspaces@.len(),
                workspace.deep_view() == all[i as int],
                absolute@[i as int],
                text::trim(all[i as int].id).len() > 0,
                text::trim(all[i as int].name).len() > 0,
                first_flaw(all, absolute@, 0) == first_flaw(all, absolute@, i as int),
                forall|k: int| 0 <= k < j ==> (#[trigger] all[k]).id != all[i as int].id,
        {
            assert(all[j as int] == workspaces@[j as int].deep_view());
            if same(workspaces[j].id.as_str(), workspace.id.as_str()) {
                assert(all[j as int].id == all[i as int].id);
                return Err(ConfigError::RepeatedWorkspace { id: workspace.id.clone() });
            }
        }
    }
    Ok(workspaces)
}

/// What can be told of the paths of workspaces: one answer for each, and none is
/// called absolute that is not so on any platform.
pub open spec fn told_of_paths(
    workspaces: Seq<WorkspaceConfigModel>,
    absolute: Seq<bool>,
) -> bool {
    &&& absolute.len() == workspaces.len()
    &&& forall|i: int|
        0 <= i < workspaces.len() && #[trigger] absolute[i] ==> paths::may_be_absolute(
            workspaces[i].path,
        )
}

/// Checks workspaces. Which paths are absolute depends on the platform.
pub fn validate_workspaces(workspaces: Vec<WorkspaceConfig>) -> (r: Result<
    Vec<WorkspaceConfig>,
    ConfigError,
>)
    ensures
        exists|absolute: Seq<bool>|
            told_of_paths(workspaces.deep_view(), absolute) && config_error::config_result(r)
                == #[trigger] checked_workspaces(workspaces.deep_view(), absolute),
{
    let mut absolute: Vec<bool> = Vec::new();
    for i in 0..workspaces.len()
        invariant
            absolute@.len() == i,
            forall|k: int|
                0 <= k < i && #[trigger] absolute@[k] ==> paths::may_be_absolute(
                    workspaces.deep_view()[k].path,
                ),
    {
        assert(workspaces.deep_view()[i as int] == workspaces@[i as int].deep_view());
        absolute.push(is_absolute(workspaces[i].path.as_str()));
    }
    assert(told_of_paths(workspaces.deep_view(), absolute@));
    check_workspaces(workspaces, &absolute)
}

/// The workspace that is offered where none is listed.
pub open spec fn workspace_of_dir(
    current_dir: Seq<char>,
    dir_name: Option<Seq<char>>,
) -> WorkspaceConfigModel {
    WorkspaceConfigModel {
        id: "default"@,
        name: match dir_name {
            Some(name) => name,
            None => "Current Workspace"@,
        },
        path: current_dir,
    }
}

/// The workspace of a directory whose name, if it has one, is known.
pub fn workspace_of(current_dir: &str, dir_name: Option<String>) -> (r: WorkspaceConfig)
    ensures
        r.deep_view() == workspace_of_dir(current_dir@, dir_name.deep_view()),
{
    let name = match dir_name {
        Some(name) => name,
        None => "Current Workspace".to_string(),
    };
    WorkspaceConfig { id: "default".to_string(), name, path: current_dir.to_string() }
}

/// The workspace of the current directory, under the directory's name.
pub fn default_workspace(current_dir: &str) -> (r: WorkspaceConfig)
    ensures
        exists|dir_name: Option<Seq<char>>|
            r.deep_view() == #[trigger] workspace_of_dir(current_dir@, dir_name)
                && paths::is_name_of(dir_name, current_dir@),
{
    let dir_name = file_name(current_dir);
    workspace_of(current_dir, dir_name)
}

/// The workspace that is used where none is named.
pub open spec fn default_workspace_of(
    workspaces: Seq<WorkspaceConfigModel>,
    default_id: Option<Seq<char>>,
) -> Result<Seq<char>, ConfigErrorModel> {
    match default_id {
        Some(id) => if exists|i: int| 0 <= i < workspaces.len() && (#[trigger] workspaces[i]).id == id {
            Ok(id)
        } else {
            Err(ConfigErrorModel::UnknownDefaultWorkspace { id })
        },
        None => if workspaces.len() > 0 {
            Ok(workspaces[0].id)
        } else {
            Err(ConfigErrorModel::NoDefaultWorkspace)
        },
    }
}

pub fn resolve_default_workspace_id(
    workspaces: &Vec<WorkspaceConfig>,
    default_id: &Option<String>,
) -> (r: Result<String, ConfigError>)
    ensures
        config_error::config_result(r) == default_workspace_of(
            workspaces.deep_view(),
            default_id.deep_view(),
        ),
{
    match default_id {
        Some(id) => {
            let ghost all = workspaces.deep_view();
            for i in 0..workspaces.len()
                invariant
                    all == workspaces.deep_view(),
                    default_id.deep_view() == Some(id@),
                    forall|j: int| 0 <= j < i ==> (#[trigger] all[j]).id != id@,
            {
                assert(all[i as int] == workspaces@[i as int].deep_view());
                if same(workspaces[i].id.as_str(), id.as_str()) {
                    assert(all[i as int].id == id@);
                    return Ok(id.clone());
                }
            }
            Err(ConfigError::UnknownDefaultWorkspace { id: id.clone() })
        },
        None => {
            if workspaces.len() > 0 {
                assert(workspaces.deep_view()[0] == workspaces@[0].deep_view());
                Ok(workspaces[0].id.clone())
            } else {
                Err(ConfigError::NoDefaultWorkspace)
            }
        },
    }
}

// ---------------------------------------------------------------------------
// All settings
// ---------------------------------------------------------------------------

/// The first of three texts that is there.
pub open spec fn first_of(
    first: Option<Seq<char>>,
    second: Option<Seq<char>>,
    last: Seq<char>,
) -> Seq<char> {
    match (first, second) {
        (Some(text), _) => text,
        (None, Some(text)) => text,
        (None, None) => last,
    }
}

fn copy_first(first: &Option<String>, second: &Option<String>, last: &str) -> (r: String)
    ensures
        r@ == first_of(first.deep_view(), second.deep_view(), last@),
{
    match first {
        Some(text) => text.clone(),
        None => match second {
            Some(text) => text.clone(),
            None => last.to_string(),
        },
    }
}

pub open spec fn at_least(number: u64, least: u64) -> u64 {
    if number < least {
        least
    } else {
        number
    }
}

fn raise(number: u64, least: u64) -> (r: u64)
    ensures
        r == at_least(number, least),
{
    if number < least {
        least
    } else {
        number
    }
}

/// The times of reconnecting: the first delay, the longest, the spread, and how
/// long a connection has to last to count as a success.
pub open spec fn reconnect_times(env: HomeClientEnv) -> Result<
    (u64, u64, u64, u64),
    ConfigErrorModel,
> {
    match number_setting(
        "HOME_CLIENT_RECONNECT_DELAY_SECS"@,
        env.reconnect_delay_secs.deep_view(),
        3,
    ) {
        Err(error) => Err(error),
        Ok(delay) => match number_setting(
            "HOME_CLIENT_RECONNECT_MAX_DELAY_SECS"@,
            env.reconnect_max_delay_secs.deep_view(),
            60,
        ) {
            Err(error) => Err(error),
            Ok(longest) => match number_setting(
                "HOME_CLIENT_RECONNECT_JITTER_MILLIS"@,
                env.reconnect_jitter_millis.deep_view(),
                750,
            ) {
                Err(error) => Err(error),
                Ok(jitter) => match number_setting(
                    "HOME_CLIENT_RECONNECT_RESET_AFTER_SECS"@,
                    env.reconnect_reset_after_secs.deep_view(),
                    30,
                ) {
                    Err(error) => Err(error),
                    Ok(reset) => Ok(
                        (
                            at_least(delay, 1),
                            at_least(longest, at_least(delay, 1)),
                            jitter,
                            at_least(reset, 1),
                        ),
                    ),
                },
            },
        },
    }
}

/// How the relay server is reached.
pub open spec fn relay_config(env: HomeClientEnv) -> Result<RelayConfigModel, ConfigErrorModel> {
    let insecure = match env.allow_insecure_ws.deep_view() {
        Some(value) => auth::bool_setting("HOME_CLIENT_ALLOW_INSECURE_WS"@, value),
        None => Ok(false),
    };
    match insecure {
        Err(error) => Err(error),
        Ok(insecure) => match present_setting(
            "HOME_CLIENT_RELAY_URL"@,
            env.relay_url.deep_view(),
        ) {
            Err(error) => Err(error),
            Ok(raw) => match relay_url(raw, insecure) {
                Err(error) => Err(error),
                Ok(url) => match reconnect_times(env) {
                    Err(error) => Err(error),
                    Ok((delay, longest, jitter, reset)) => match present_setting(
                        "HOME_CLIENT_AUTH_TOKEN"@,
                        env.auth_token.deep_view(),
                    ) {
                        Err(error) => Err(error),
                        Ok(auth_token) => Ok(
                            RelayConfigModel {
                                url,
                                device_id: first_of(
                                    env.device_id.deep_view(),
                                    env.hostname.deep_view(),
                                    "home-client"@,
                                ),
                                device_name: first_of(
                                    env.device_name.deep_view(),
                                    env.hostname.deep_view(),
                                    "Home Client"@,
                                ),
                                auth_token,
                                reconnect_delay_secs: delay,
                                reconnect_max_delay_secs: longest,
                                reconnect_jitter_millis: jitter,
                                reconnect_reset_after_secs: reset,
                            },
                        ),
                    },
                },
            },
        },
    }
}

/// The settings of the home client, for a transport and workspaces that were
/// found to be in order.
pub open spec fn client_config(
    mode: Seq<char>,
    env: HomeClientEnv,
    workspaces: Seq<WorkspaceConfigModel>,
) -> Result<ConfigModel, ConfigErrorModel> {
    match default_workspace_of(workspaces, env.default_workspace_id.deep_view()) {
        Err(error) => Err(error),
        Ok(default_workspace_id) => {
            let transport = if mode == "local"@ {
                Ok(TransportModel::Local)
            } else if mode == "relay"@ {
                match relay_config(env) {
                    Err(error) => Err(error),
                    Ok(config) => Ok(TransportModel::Relay(config)),
                }
            } else {
                Err(ConfigErrorModel::UnknownTransport { mode })
            };
            match transport {
                Err(error) => Err(error),
                Ok(transport) => Ok(ConfigModel { transport, workspaces, default_workspace_id }),
            }
        },
    }
}

pub open spec fn is_ascii_text(text: Seq<char>) -> bool {
    forall|i: int| 0 <= i < text.len() ==> (#[trigger] text[i] as u32) < 128
}

/// `str::to_lowercase`: a text in small letters, by the rules of Unicode.
pub uninterp spec fn lowercase(text: Seq<char>) -> Seq<char>;

/// `str::to_lowercase`. The result is given a name; of texts in ASCII it is
/// also stated what it is.
#[verifier::external_body]
pub(crate) fn to_lowercase(text: &str) -> (r: String)
    ensures
        r@ == lowercase(text@),
        is_ascii_text(text@) ==> r@ == text::lower(text@),
{
    text.to_lowercase()
}

/// The transport that the environment asks for; the local one where it is silent.
pub open spec fn mode_of(transport: Option<Seq<char>>) -> Seq<char> {
    match transport {
        None => "local"@,
        Some(transport) => if is_ascii_text(transport) {
            text::lower(transport)
        } else {
            lowercase(transport)
        },
    }
}

fn requested_mode(transport: &Option<String>) -> (r: String)
    ensures
        r@ == mode_of(transport.deep_view()),
{
    match transport {
        Some(transport) => to_lowercase(transport.as_str()),
        None => "local".to_string(),
    }
}

fn reconnect_times_from_env(env: &HomeClientEnv) -> (r: Result<(u64, u64, u64, u64), ConfigError>)
    ensures
        match r {
            Ok(times) => reconnect_times(*env) == Ok::<_, ConfigErrorModel>(times),
            Err(error) => reconnect_times(*env) == Err::<(u64, u64, u64, u64), _>(
                error.deep_view(),
            ),
        },
{
    let delay = match env_u64_or_default(
        "HOME_CLIENT_RECONNECT_DELAY_SECS",
        &env.reconnect_delay_secs,
        3,
    ) {
        Err(error) => {
            return Err(error);
        },
        Ok(value) => value,
    };
    let longest = match env_u64_or_default(
        "HOME_CLIENT_RECONNECT_MAX_DELAY_SECS",
        &env.reconnect_max_delay_secs,
        60,
    ) {
        Err(error) => {
            return Err(error);
        },
        Ok(value) => value,
    };
    let jitter = match env_u64_or_default(
        "HOME_CLIENT_RECONNECT_JITTER_MILLIS",
        &env.reconnect_jitter_millis,
        750,
    ) {
        Err(error) => {
            return Err(error);
        },
        Ok(value) => value,
    };
    let reset = match env_u64_or_default(
        "HOME_CLIENT_RECONNECT_RESET_AFTER_SECS",
        &env.reconnect_reset_after_secs,
        30,
    ) {
        Err(error) => {
            return Err(error);
        },
        Ok(value) => value,
    };
    let delay = raise(delay, 1);
    Ok((delay, raise(longest, delay), jitter, raise(reset, 1)))
}

fn relay_from_env(env: &HomeClientEnv) -> (r: Result<RelayTransportConfig, ConfigError>)
    ensures
        config_error::config_result(r) == relay_config(*env),
{
    let insecure = match &env.allow_insecure_ws {
        Some(value) => match parse_bool_env("HOME_CLIENT_ALLOW_INSECURE_WS", value.as_str()) {
            Err(error) => {
                return Err(error);
            },
            Ok(value) => value,
        },
        None => false,
    };
    let raw = match required_env("HOME_CLIENT_RELAY_URL", &env.relay_url) {
        Err(error) => {
            return Err(error);
        },
        Ok(value) => value,
    };
    let url = match validate_relay_url(raw.as_str(), insecure) {
        Err(error) => {
            return Err(error);
        },
        Ok(value) => value,
    };
    let (delay, longest, jitter, reset) = match reconnect_times_from_env(env) {
        Err(error) => {
            return Err(error);
        },
        Ok(times) => times,
    };
    let auth_token = match required_env("HOME_CLIENT_AUTH_TOKEN", &env.auth_token) {
        Err(error) => {
            return Err(error);
        },
        Ok(value) => value,
    };
    Ok(
        RelayTransportConfig {
            url,
            device_id: copy_first(&env.device_id, &env.hostname, "home-client"),
            device_name: copy_first(&env.device_name, &env.hostname, "Home Client"),
            auth_token,
            reconnect_delay_secs: delay,
            reconnect_max_delay_secs: longest,
            reconnect_jitter_millis: jitter,
            reconnect_reset_after_secs: reset,
        },
    )
}

/// The workspaces that the home client offers: those that are listed, or else
/// the one of the current directory. Whether paths are absolute, and what the
/// directory is called, is taken from outside.
pub open spec fn offered_workspaces(
    list: WorkspaceList,
    current_dir: Seq<char>,
    absolute: Seq<bool>,
    dir_name: Option<Seq<char>>,
) -> Result<Seq<WorkspaceConfigModel>, ConfigErrorModel> {
    match list {
        WorkspaceList::Absent => Ok(seq![workspace_of_dir(current_dir, dir_name)]),
        WorkspaceList::Malformed => Err(ConfigErrorModel::BadWorkspaces),
        WorkspaceList::Listed(workspaces) => checked_workspaces(workspaces.deep_view(), absolute),
    }
}

/// The workspaces that the home client offers.
pub fn load_workspaces(list: WorkspaceList, current_dir: &str) -> (r: Result<
    Vec<WorkspaceConfig>,
    ConfigError,
>)
    ensures
        exists|absolute: Seq<bool>, dir_name: Option<Seq<char>>|
            {
                &&& list matches WorkspaceList::Listed(workspaces) ==> told_of_paths(
                    workspaces.deep_view(),
                    absolute,
                )
                &&& paths::is_name_of(dir_name, current_dir@)
                &&& config_error::config_result(r) == #[trigger] offered_workspaces(
                    list,
                    current_dir@,
                    absolute,
                    dir_name,
                )
            },
{
    let ghost given = list;
    let ghost any_name = if paths::is_plain_path(current_dir@) {
        Some(paths::file_part(current_dir@))
    } else {
        None
    };
    match list {
        WorkspaceList::Absent => {
            let workspace = default_workspace(current_dir);
            let ghost dir_name = choose|dir_name: Option<Seq<char>>|
                workspace.deep_view() == #[trigger] workspace_of_dir(current_dir@, dir_name)
                    && paths::is_name_of(dir_name, current_dir@);
            let mut workspaces: Vec<WorkspaceConfig> = Vec::new();
            workspaces.push(workspace);
            assert(workspaces.deep_view() =~= seq![workspace_of_dir(current_dir@, dir_name)]);
            let r = Ok(workspaces);
            assert(config_error::config_result(r) == offered_workspaces(
                given,
                current_dir@,
                Seq::empty(),
                dir_name,
            ));
            r
        },
        WorkspaceList::Malformed => {
            let r = Err(ConfigError::BadWorkspaces);
            assert(config_error::config_result(r) == offered_workspaces(
                given,
                current_dir@,
                Seq::empty(),
                any_name,
            ));
            r
        },
        WorkspaceList::Listed(workspaces) => {
            let r = validate_workspaces(workspaces);
            proof {
                let absolute = choose|absolute: Seq<bool>|
                    told_of_paths(workspaces.deep_view(), absolute) && config_error::config_result(
                        r,
                    )
                        == #[trigger] checked_workspaces(workspaces.deep_view(), absolute);
                assert(config_error::config_result(r) == offered_workspaces(
                    given,
                    current_dir@,
                    absolute,
                    any_name,
                ));
            }
            r
        },
    }
}

impl AppConfig {
    /// The settings of the home client for a transport, with workspaces that
    /// were found to be in order.
    pub fn for_mode(mode: &str, env: &HomeClientEnv, workspaces: Vec<WorkspaceConfig>) -> (r:
        Result<Self, ConfigError>)
        ensures
            config_error::config_result(r) == client_config(mode@, *env, workspaces.deep_view()),
    {
        let default_workspace_id = match resolve_default_workspace_id(
            &workspaces,
            &env.default_workspace_id,
        ) {
            Err(error) => {
                return Err(error);
            },
            Ok(id) => id,
        };
        proof {
            reveal_strlit("local");
            reveal_strlit("relay");
            assert("local"@[0] != "relay"@[0]);
        }
        let transport = if same(mode, "local") {
            TransportConfig::Local
        } else if same(mode, "relay") {
            match relay_from_env(env) {
                Err(error) => {
                    return Err(error);
                },
                Ok(config) => TransportConfig::Relay(config),
            }
        } else {
            return Err(ConfigError::UnknownTransport { mode: mode.to_string() });
        };
        Ok(AppConfig { transport, workspaces, default_workspace_id })
    }

    /// The settings of the home client, from what the environment gives. The
    /// current directory is absent where it could not be found.
    pub fn from_env(env: &HomeClientEnv, list: WorkspaceList, current_dir: Option<&str>) -> (r:
        Result<Self, ConfigError>)
        ensures
            match current_dir {
                None => config_error::config_result(r) == Err::<ConfigModel, _>(
                    ConfigErrorModel::NoCurrentDir,
                ),
                Some(dir) => exists|absolute: Seq<bool>, dir_name: Option<Seq<char>>|
                    {
                        &&& list matches WorkspaceList::Listed(workspaces) ==> told_of_paths(
                            workspaces.deep_view(),
                            absolute,
                        )
                        &&& paths::is_name_of(dir_name, dir@)
                        &&& match #[trigger] offered_workspaces(list, dir@, absolute, dir_name) {
                            Err(error) => config_error::config_result(r) == Err::<ConfigModel, _>(
                                error,
                            ),
                            Ok(workspaces) => config_error::config_result(r) == client_config(
                                mode_of(env.transport.deep_view()),
                                *env,
                                workspaces,
                            ),
                        }
                    },
            },
    {
        let mode = requested_mode(&env.transport);
        let current_dir = match current_dir {
            None => {
                return Err(ConfigError::NoCurrentDir);
            },
            Some(current_dir) => current_dir,
        };
        let workspaces = match load_workspaces(list, current_dir) {
            Err(error) => {
                return Err(error);
            },
            Ok(workspaces) => workspaces,
        };
        Self::for_mode(mode.as_str(), env, workspaces)
    }
}

} // verus!
