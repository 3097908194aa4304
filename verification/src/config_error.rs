//! Why a configuration is refused.
use crate::duplicate::Duplicate;
use crate::text::{join2, join3};
use vstd::prelude::*;

verus! {

/// Why a configuration is refused.
#[derive(Debug, Clone)]
pub enum ConfigError {
    Blank { key: String },
    Missing { key: String },
    NotBool { key: String },
    NotNumber { key: String },
    NoValues { key: String },
    BadOrigin { key: String, origin: String },
    BadBindAddress,
    InsecureBindAddress,
    NoClientTokens,
    NoAllowedOrigins,
    BlankUsername,
    BlankPassword,
    NoCurrentDir,
    UnknownTransport { mode: String },
    BlankUrl,
    NoScheme,
    InsecureScheme,
    InsecureTarget,
    UnknownScheme,
    BadWorkspaces,
    NoWorkspaces,
    BlankWorkspaceId,
    BlankWorkspaceName,
    RelativePath { id: String },
    RepeatedWorkspace { id: String },
    UnknownDefaultWorkspace { id: String },
    NoDefaultWorkspace,
}

/// What a [`ConfigError`] says.
#[verifier::ext_equal]
pub enum ConfigErrorModel {
    Blank { key: Seq<char> },
    Missing { key: Seq<char> },
    NotBool { key: Seq<char> },
    NotNumber { key: Seq<char> },
    NoValues { key: Seq<char> },
    BadOrigin { key: Seq<char>, origin: Seq<char> },
    BadBindAddress,
    InsecureBindAddress,
    NoClientTokens,
    NoAllowedOrigins,
    BlankUsername,
    BlankPassword,
    NoCurrentDir,
    UnknownTransport { mode: Seq<char> },
    BlankUrl,
    NoScheme,
    InsecureScheme,
    InsecureTarget,
    UnknownScheme,
    BadWorkspaces,
    NoWorkspaces,
    BlankWorkspaceId,
    BlankWorkspaceName,
    RelativePath { id: Seq<char> },
    RepeatedWorkspace { id: Seq<char> },
    UnknownDefaultWorkspace { id: Seq<char> },
    NoDefaultWorkspace,
}

impl DeepView for ConfigError {
    type V = ConfigErrorModel;

    open spec fn deep_view(&self) -> ConfigErrorModel {
        match self {
            ConfigError::Blank { key } => ConfigErrorModel::Blank {
                key: key@,
            },
            ConfigError::Missing { key } => ConfigErrorModel::Missing {
                key: key@,
            },
            ConfigError::NotBool { key } => ConfigErrorModel::NotBool {
                key: key@,
            },
            ConfigError::NotNumber { key } => ConfigErrorModel::NotNumber {
                key: key@,
            },
            ConfigError::NoValues { key } => ConfigErrorModel::NoValues {
                key: key@,
            },
            ConfigError::BadOrigin { key, origin } => ConfigErrorModel::BadOrigin {
                key: key@,
                origin: origin@,
            },
            ConfigError::BadBindAddress => ConfigErrorModel::BadBindAddress,
            ConfigError::InsecureBindAddress => ConfigErrorModel::InsecureBindAddress,
            ConfigError::NoClientTokens => ConfigErrorModel::NoClientTokens,
            ConfigError::NoAllowedOrigins => ConfigErrorModel::NoAllowedOrigins,
            ConfigError::BlankUsername => ConfigErrorModel::BlankUsername,
            ConfigError::BlankPassword => ConfigErrorModel::BlankPassword,
            ConfigError::NoCurrentDir => ConfigErrorModel::NoCurrentDir,
            ConfigError::UnknownTransport { mode } => ConfigErrorModel::UnknownTransport {
                mode: mode@,
            },
            ConfigError::BlankUrl => ConfigErrorModel::BlankUrl,
            ConfigError::NoScheme => ConfigErrorModel::NoScheme,
            ConfigError::InsecureScheme => ConfigErrorModel::InsecureScheme,
            ConfigError::InsecureTarget => ConfigErrorModel::InsecureTarget,
            ConfigError::UnknownScheme => ConfigErrorModel::UnknownScheme,
            ConfigError::BadWorkspaces => ConfigErrorModel::BadWorkspaces,
            ConfigError::NoWorkspaces => ConfigErrorModel::NoWorkspaces,
            ConfigError::BlankWorkspaceId => ConfigErrorModel::BlankWorkspaceId,
            ConfigError::BlankWorkspaceName => ConfigErrorModel::BlankWorkspaceName,
            ConfigError::RelativePath { id } => ConfigErrorModel::RelativePath {
                id: id@,
            },
            ConfigError::RepeatedWorkspace { id } => ConfigErrorModel::RepeatedWorkspace {
                id: id@,
            },
            ConfigError::UnknownDefaultWorkspace {
                id,
            } => ConfigErrorModel::UnknownDefaultWorkspace {
                id: id@,
            },
            ConfigError::NoDefaultWorkspace => ConfigErrorModel::NoDefaultWorkspace,
        }
    }
}

impl Duplicate for ConfigError {
    fn duplicate(&self) -> (r: Self) {
        match self {
            ConfigError::Blank { key } => ConfigError::Blank {
                key: key.clone(),
            },
            ConfigError::Missing { key } => ConfigError::Missing {
                key: key.clone(),
            },
            ConfigError::NotBool { key } => ConfigError::NotBool {
                key: key.clone(),
            },
            ConfigError::NotNumber { key } => ConfigError::NotNumber {
                key: key.clone(),
            },
            ConfigError::NoValues { key } => ConfigError::NoValues {
                key: key.clone(),
            },
            ConfigError::BadOrigin { key, origin } => ConfigError::BadOrigin {
                key: key.clone(),
                origin: origin.clone(),
            },
            ConfigError::BadBindAddress => ConfigError::BadBindAddress,
            ConfigError::InsecureBindAddress => ConfigError::InsecureBindAddress,
            ConfigError::NoClientTokens => ConfigError::NoClientTokens,
            ConfigError::NoAllowedOrigins => ConfigError::NoAllowedOrigins,
            ConfigError::BlankUsername => ConfigError::BlankUsername,
            ConfigError::BlankPassword => ConfigError::BlankPassword,
            ConfigError::NoCurrentDir => ConfigError::NoCurrentDir,
            ConfigError::UnknownTransport { mode } => ConfigError::UnknownTransport {
                mode: mode.clone(),
            },
            ConfigError::BlankUrl => ConfigError::BlankUrl,
            ConfigError::NoScheme => ConfigError::NoScheme,
            ConfigError::InsecureScheme => ConfigError::InsecureScheme,
            ConfigError::InsecureTarget => ConfigError::InsecureTarget,
            ConfigError::UnknownScheme => ConfigError::UnknownScheme,
            ConfigError::BadWorkspaces => ConfigError::BadWorkspaces,
            ConfigError::NoWorkspaces => ConfigError::NoWorkspaces,
            ConfigError::BlankWorkspaceId => ConfigError::BlankWorkspaceId,
            ConfigError::BlankWorkspaceName => ConfigError::BlankWorkspaceName,
            ConfigError::RelativePath { id } => ConfigError::RelativePath {
                id: id.clone(),
            },
            ConfigError::RepeatedWorkspace { id } => ConfigError::RepeatedWorkspace {
                id: id.clone(),
            },
            ConfigError::UnknownDefaultWorkspace { id } => ConfigError::UnknownDefaultWorkspace {
                id: id.clone(),
            },
            ConfigError::NoDefaultWorkspace => ConfigError::NoDefaultWorkspace,
        }
    }
}

/// What a [`ConfigError`] is reported as.
pub open spec fn config_error_text(error: ConfigErrorModel) -> Seq<char> {
    match error {
        ConfigErrorModel::Blank { key } => key + " 不能为空字符串"@,
        ConfigErrorModel::Missing { key } => "缺少环境变量 "@ + key,
        ConfigErrorModel::NotBool { key } => key + " 必须是布尔值"@,
        ConfigErrorModel::NotNumber { key } => key + " 必须是非负整数"@,
        ConfigErrorModel::NoValues { key } => key + " 至少需要包含一个非空值"@,
        ConfigErrorModel::BadOrigin { key, origin } => key + " 包含非法 origin: "@ + origin,
        ConfigErrorModel::BadBindAddress => "解析 RELAY_SERVER_BIND 失败"@,
        ConfigErrorModel::InsecureBindAddress => "RELAY_SERVER_ALLOW_INSECURE_DEV=true 仅允许在 loopback 监听地址上使用"@,
        ConfigErrorModel::NoClientTokens => "缺少 RELAY_SERVER_CLIENT_TOKENS；生产模式必须启用 home client token 认证"@,
        ConfigErrorModel::NoAllowedOrigins => "生产模式必须设置 RELAY_SERVER_BROWSER_ALLOWED_ORIGINS（逗号分隔）用于浏览器 Origin 校验"@,
        ConfigErrorModel::BlankUsername => "RELAY_SERVER_LOGIN_USERNAME 不能为空"@,
        ConfigErrorModel::BlankPassword => "RELAY_SERVER_LOGIN_PASSWORD 不能为空"@,
        ConfigErrorModel::NoCurrentDir => "无法获取当前工作目录"@,
        ConfigErrorModel::UnknownTransport { mode } => "不支持的 HOME_CLIENT_TRANSPORT: "@ + mode,
        ConfigErrorModel::BlankUrl => "HOME_CLIENT_RELAY_URL 不能为空"@,
        ConfigErrorModel::NoScheme => "HOME_CLIENT_RELAY_URL 格式错误，必须使用 wss://..."@,
        ConfigErrorModel::InsecureScheme => "HOME_CLIENT_RELAY_URL 必须使用 wss://；仅本地调试可通过 HOME_CLIENT_ALLOW_INSECURE_WS=true 放开 ws://"@,
        ConfigErrorModel::InsecureTarget => "仅允许在 loopback 上使用 ws://（localhost/127.0.0.1/[::1]），当前 HOME_CLIENT_RELAY_URL 不符合要求"@,
        ConfigErrorModel::UnknownScheme => "HOME_CLIENT_RELAY_URL 仅支持 wss://；本地调试可在 loopback 上配合 HOME_CLIENT_ALLOW_INSECURE_WS=true 使用 ws://"@,
        ConfigErrorModel::BadWorkspaces => "解析 HOME_CLIENT_WORKSPACES_JSON 失败，应为 JSON 数组"@,
        ConfigErrorModel::NoWorkspaces => "HOME_CLIENT_WORKSPACES_JSON 至少需要包含一个工作区"@,
        ConfigErrorModel::BlankWorkspaceId => "工作区 id 不能为空"@,
        ConfigErrorModel::BlankWorkspaceName => "工作区 name 不能为空"@,
        ConfigErrorModel::RelativePath { id } => "工作区 `"@ + id + "` 的 path 必须是绝对路径"@,
        ConfigErrorModel::RepeatedWorkspace { id } => "工作区 id 重复: "@ + id,
        ConfigErrorModel::UnknownDefaultWorkspace { id } => "HOME_CLIENT_DEFAULT_WORKSPACE_ID 未出现在工作区列表中: "@ + id,
        ConfigErrorModel::NoDefaultWorkspace => "未找到可用工作区"@,
    }
}

impl ConfigError {
    pub fn message(&self) -> (r: String)
        ensures
            r@ == config_error_text(self.deep_view()),
    {
        match self {
            ConfigError::Blank { key } => join2(key.as_str(), " 不能为空字符串"),
            ConfigError::Missing { key } => join2("缺少环境变量 ", key.as_str()),
            ConfigError::NotBool { key } => join2(key.as_str(), " 必须是布尔值"),
            ConfigError::NotNumber { key } => join2(key.as_str(), " 必须是非负整数"),
            ConfigError::NoValues { key } => join2(key.as_str(), " 至少需要包含一个非空值"),
            ConfigError::BadOrigin { key, origin } => join3(
                key.as_str(),
                " 包含非法 origin: ",
                origin.as_str(),
            ),
            ConfigError::BadBindAddress => "解析 RELAY_SERVER_BIND 失败".to_string(),
            ConfigError::InsecureBindAddress => "RELAY_SERVER_ALLOW_INSECURE_DEV=true 仅允许在 loopback 监听地址上使用".to_string(),
            ConfigError::NoClientTokens => "缺少 RELAY_SERVER_CLIENT_TOKENS；生产模式必须启用 home client token 认证".to_string(),
            ConfigError::NoAllowedOrigins => "生产模式必须设置 RELAY_SERVER_BROWSER_ALLOWED_ORIGINS（逗号分隔）用于浏览器 Origin 校验".to_string(),
            ConfigError::BlankUsername => "RELAY_SERVER_LOGIN_USERNAME 不能为空".to_string(),
            ConfigError::BlankPassword => "RELAY_SERVER_LOGIN_PASSWORD 不能为空".to_string(),
            ConfigError::NoCurrentDir => "无法获取当前工作目录".to_string(),
            ConfigError::UnknownTransport { mode } => join2(
                "不支持的 HOME_CLIENT_TRANSPORT: ",
                mode.as_str(),
            ),
            ConfigError::BlankUrl => "HOME_CLIENT_RELAY_URL 不能为空".to_string(),
            ConfigError::NoScheme => "HOME_CLIENT_RELAY_URL 格式错误，必须使用 wss://...".to_string(),
            ConfigError::InsecureScheme => "HOME_CLIENT_RELAY_URL 必须使用 wss://；仅本地调试可通过 HOME_CLIENT_ALLOW_INSECURE_WS=true 放开 ws://".to_string(),
            ConfigError::InsecureTarget => "仅允许在 loopback 上使用 ws://（localhost/127.0.0.1/[::1]），当前 HOME_CLIENT_RELAY_URL 不符合要求".to_string(),
            ConfigError::UnknownScheme => "HOME_CLIENT_RELAY_URL 仅支持 wss://；本地调试可在 loopback 上配合 HOME_CLIENT_ALLOW_INSECURE_WS=true 使用 ws://".to_string(),
            ConfigError::BadWorkspaces => "解析 HOME_CLIENT_WORKSPACES_JSON 失败，应为 JSON 数组".to_string(),
            ConfigError::NoWorkspaces => "HOME_CLIENT_WORKSPACES_JSON 至少需要包含一个工作区".to_string(),
            ConfigError::BlankWorkspaceId => "工作区 id 不能为空".to_string(),
            ConfigError::BlankWorkspaceName => "工作区 name 不能为空".to_string(),
            ConfigError::RelativePath { id } => join3("工作区 `", id.as_str(), "` 的 path 必须是绝对路径"),
            ConfigError::RepeatedWorkspace { id } => join2("工作区 id 重复: ", id.as_str()),
            ConfigError::UnknownDefaultWorkspace { id } => join2(
                "HOME_CLIENT_DEFAULT_WORKSPACE_ID 未出现在工作区列表中: ",
                id.as_str(),
            ),
            ConfigError::NoDefaultWorkspace => "未找到可用工作区".to_string(),
        }
    }
}

/// What a result says.
pub open spec fn config_result<T: DeepView>(result: Result<T, ConfigError>) -> Result<
    T::V,
    ConfigErrorModel,
> {
    match result {
        Ok(value) => Ok(value.deep_view()),
        Err(error) => Err(error.deep_view()),
    }
}

} // verus!
