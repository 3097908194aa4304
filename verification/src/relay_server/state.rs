//! The state of the relay server and the steps in which it answers.
//!
//! A message is answered in steps. A step either ends the work, with the
//! deliveries to make, or names what has to be written to disk before the work
//! goes on.
use crate::duplicate::Duplicate;
use crate::protocol::{
    BrowserReplyModel, DeviceModel, DeviceStatusMessage, PermissionOptionMessage,
    PermissionOptionModel, ServerMessageModel, ServerToBrowserMessage, ServerToClientMessage,
};
use crate::relay_state::{
    PersistedModel, PersistedRelaySession, PersistenceModel, RelayPersistence, RelayStore,
    StoreModel, StoreWrite, StoreWriteModel,
};
use crate::relay_state;
use crate::seqs::vec_empty;
use crate::store_laws;
use crate::string_map::{StringMap, StringSet};
use crate::string_map;
use crate::text::{join2, join5, number_string};
use crate::text;
use vstd::prelude::*;

verus! {

// ---------------------------------------------------------------------------
// Connections, sessions and configuration
// ---------------------------------------------------------------------------

/// The tokens that home clients may and may not use.
#[derive(Debug, Clone)]
pub struct ClientAuthConfig {
    pub accepted_tokens: StringSet,
    pub revoked_tokens: StringSet,
}

/// What a [`ClientAuthConfig`] says.
#[verifier::ext_equal]
pub struct ClientAuthModel {
    pub accepted_tokens: Seq<Seq<char>>,
    pub revoked_tokens: Seq<Seq<char>>,
}

impl DeepView for ClientAuthConfig {
    type V = ClientAuthModel;

    open spec fn deep_view(&self) -> ClientAuthModel {
        ClientAuthModel {
            accepted_tokens: self.accepted_tokens.deep_view(),
            revoked_tokens: self.revoked_tokens.deep_view(),
        }
    }
}

impl Duplicate for ClientAuthConfig {
    fn duplicate(&self) -> (r: Self) {
        ClientAuthConfig {
            accepted_tokens: self.accepted_tokens.duplicate(),
            revoked_tokens: self.revoked_tokens.duplicate(),
        }
    }
}

/// The account that browsers log in to, and its cookie.
#[derive(Debug, Clone)]
pub struct LocalLoginAuthConfig {
    pub username: String,
    pub password: String,
    pub session_ttl_secs: u64,
    pub cookie_name: String,
    pub cookie_secure: bool,
}

/// What a [`LocalLoginAuthConfig`] says.
#[verifier::ext_equal]
pub struct LoginConfigModel {
    pub username: Seq<char>,
    pub password: Seq<char>,
    pub session_ttl_secs: u64,
    pub cookie_name: Seq<char>,
    pub cookie_secure: bool,
}

impl DeepView for LocalLoginAuthConfig {
    type V = LoginConfigModel;

    open spec fn deep_view(&self) -> LoginConfigModel {
        LoginConfigModel {
            username: self.username@,
            password: self.password@,
            session_ttl_secs: self.session_ttl_secs,
            cookie_name: self.cookie_name@,
            cookie_secure: self.cookie_secure,
        }
    }
}

impl Duplicate for LocalLoginAuthConfig {
    fn duplicate(&self) -> (r: Self) {
        LocalLoginAuthConfig {
            username: self.username.clone(),
            password: self.password.clone(),
            session_ttl_secs: self.session_ttl_secs,
            cookie_name: self.cookie_name.clone(),
            cookie_secure: self.cookie_secure,
        }
    }
}

/// How browsers are authenticated.
#[derive(Debug, Clone)]
pub struct BrowserAuthConfig {
    pub login: LocalLoginAuthConfig,
    pub allowed_origins: StringSet,
}

/// What a [`BrowserAuthConfig`] says.
#[verifier::ext_equal]
pub struct BrowserAuthModel {
    pub login: LoginConfigModel,
    pub allowed_origins: Seq<Seq<char>>,
}

impl DeepView for BrowserAuthConfig {
    type V = BrowserAuthModel;

    open spec fn deep_view(&self) -> BrowserAuthModel {
        BrowserAuthModel {
            login: self.login.deep_view(),
            allowed_origins: self.allowed_origins.deep_view(),
        }
    }
}

impl Duplicate for BrowserAuthConfig {
    fn duplicate(&self) -> (r: Self) {
        BrowserAuthConfig {
            login: self.login.duplicate(),
            allowed_origins: self.allowed_origins.duplicate(),
        }
    }
}

/// A login that was granted.
#[derive(Debug, Clone)]
pub struct BrowserLoginSession {
    pub user_id: String,
    pub expires_at: u64,
}

/// What a [`BrowserLoginSession`] says.
#[verifier::ext_equal]
pub struct LoginModel {
    pub user_id: Seq<char>,
    pub expires_at: u64,
}

impl DeepView for BrowserLoginSession {
    type V = LoginModel;

    open spec fn deep_view(&self) -> LoginModel {
        LoginModel {
            user_id: self.user_id@,
            expires_at: self.expires_at,
        }
    }
}

impl Duplicate for BrowserLoginSession {
    fn duplicate(&self) -> (r: Self) {
        BrowserLoginSession {
            user_id: self.user_id.clone(),
            expires_at: self.expires_at,
        }
    }
}

/// A browser that is connected.
#[derive(Debug, Clone)]
pub struct BrowserConnection {
    pub user_id: String,
}

/// What a [`BrowserConnection`] says.
#[verifier::ext_equal]
pub struct BrowserModel {
    pub user_id: Seq<char>,
}

impl DeepView for BrowserConnection {
    type V = BrowserModel;

    open spec fn deep_view(&self) -> BrowserModel {
        BrowserModel {
            user_id: self.user_id@,
        }
    }
}

impl Duplicate for BrowserConnection {
    fn duplicate(&self) -> (r: Self) {
        BrowserConnection {
            user_id: self.user_id.clone(),
        }
    }
}

/// A session that is routed between a browser and a device.
#[derive(Debug, Clone)]
pub struct RelaySession {
    pub session_id: String,
    pub device_id: String,
    pub browser_id: String,
    pub owner_user_id: String,
    pub client_session_id: Option<String>,
}

/// What a [`RelaySession`] says.
#[verifier::ext_equal]
pub struct SessionModel {
    pub session_id: Seq<char>,
    pub device_id: Seq<char>,
    pub browser_id: Seq<char>,
    pub owner_user_id: Seq<char>,
    pub client_session_id: Option<Seq<char>>,
}

impl DeepView for RelaySession {
    type V = SessionModel;

    open spec fn deep_view(&self) -> SessionModel {
        SessionModel {
            session_id: self.session_id@,
            device_id: self.device_id@,
            browser_id: self.browser_id@,
            owner_user_id: self.owner_user_id@,
            client_session_id: self.client_session_id.deep_view(),
        }
    }
}

impl Duplicate for RelaySession {
    fn duplicate(&self) -> (r: Self) {
        RelaySession {
            session_id: self.session_id.clone(),
            device_id: self.device_id.clone(),
            browser_id: self.browser_id.clone(),
            owner_user_id: self.owner_user_id.clone(),
            client_session_id: self.client_session_id.duplicate(),
        }
    }
}

/// A permission request that no one has answered yet.
#[derive(Debug, Clone)]
pub struct PendingPermission {
    pub session_id: Option<String>,
    pub device_id: String,
    pub browser_id: String,
}

/// What a [`PendingPermission`] says.
#[verifier::ext_equal]
pub struct PendingModel {
    pub session_id: Option<Seq<char>>,
    pub device_id: Seq<char>,
    pub browser_id: Seq<char>,
}

impl DeepView for PendingPermission {
    type V = PendingModel;

    open spec fn deep_view(&self) -> PendingModel {
        PendingModel {
            session_id: self.session_id.deep_view(),
            device_id: self.device_id@,
            browser_id: self.browser_id@,
        }
    }
}

impl Duplicate for PendingPermission {
    fn duplicate(&self) -> (r: Self) {
        PendingPermission {
            session_id: self.session_id.duplicate(),
            device_id: self.device_id.clone(),
            browser_id: self.browser_id.clone(),
        }
    }
}

// ---------------------------------------------------------------------------
// Errors, deliveries and steps
// ---------------------------------------------------------------------------

/// Why a message could not be answered.
#[derive(Debug, Clone)]
pub enum RelayError {
    UnknownSession { session_id: String },
    SessionForbidden,
    SessionOfOtherBrowser,
    PromptAfterClose,
    DeleteBeforeClose,
    UnknownPermission { request_id: String },
    PermissionOfOtherBrowser,
    UnknownDevice { device_id: String },
    UnknownWorkspace { device_id: String, workspace_id: String },
    DeviceNotConnected { device_id: String },
    BrowserOffline { browser_id: String },
    BrowserChannelClosed,
    ClientChannelClosed,
    NoSessionInDelta,
    NotSaved { message: String },
}

/// What a [`RelayError`] says.
#[verifier::ext_equal]
pub enum RelayErrorModel {
    UnknownSession { session_id: Seq<char> },
    SessionForbidden,
    SessionOfOtherBrowser,
    PromptAfterClose,
    DeleteBeforeClose,
    UnknownPermission { request_id: Seq<char> },
    PermissionOfOtherBrowser,
    UnknownDevice { device_id: Seq<char> },
    UnknownWorkspace { device_id: Seq<char>, workspace_id: Seq<char> },
    DeviceNotConnected { device_id: Seq<char> },
    BrowserOffline { browser_id: Seq<char> },
    BrowserChannelClosed,
    ClientChannelClosed,
    NoSessionInDelta,
    NotSaved { message: Seq<char> },
}

impl DeepView for RelayError {
    type V = RelayErrorModel;

    open spec fn deep_view(&self) -> RelayErrorModel {
        match self {
            RelayError::UnknownSession { session_id } => RelayErrorModel::UnknownSession {
                session_id: session_id@,
            },
            RelayError::SessionForbidden => RelayErrorModel::SessionForbidden,
            RelayError::SessionOfOtherBrowser => RelayErrorModel::SessionOfOtherBrowser,
            RelayError::PromptAfterClose => RelayErrorModel::PromptAfterClose,
            RelayError::DeleteBeforeClose => RelayErrorModel::DeleteBeforeClose,
            RelayError::UnknownPermission { request_id } => RelayErrorModel::UnknownPermission {
                request_id: request_id@,
            },
            RelayError::PermissionOfOtherBrowser => RelayErrorModel::PermissionOfOtherBrowser,
            RelayError::UnknownDevice { device_id } => RelayErrorModel::UnknownDevice {
                device_id: device_id@,
            },
            RelayError::UnknownWorkspace {
                device_id,
                workspace_id,
            } => RelayErrorModel::UnknownWorkspace {
                device_id: device_id@,
                workspace_id: workspace_id@,
            },
            RelayError::DeviceNotConnected { device_id } => RelayErrorModel::DeviceNotConnected {
                device_id: device_id@,
            },
            RelayError::BrowserOffline { browser_id } => RelayErrorModel::BrowserOffline {
                browser_id: browser_id@,
            },
            RelayError::BrowserChannelClosed => RelayErrorModel::BrowserChannelClosed,
            RelayError::ClientChannelClosed => RelayErrorModel::ClientChannelClosed,
            RelayError::NoSessionInDelta => RelayErrorModel::NoSessionInDelta,
            RelayError::NotSaved { message } => RelayErrorModel::NotSaved {
                message: message@,
            },
        }
    }
}

impl Duplicate for RelayError {
    fn duplicate(&self) -> (r: Self) {
        match self {
            RelayError::UnknownSession { session_id } => RelayError::UnknownSession {
                session_id: session_id.clone(),
            },
            RelayError::SessionForbidden => RelayError::SessionForbidden,
            RelayError::SessionOfOtherBrowser => RelayError::SessionOfOtherBrowser,
            RelayError::PromptAfterClose => RelayError::PromptAfterClose,
            RelayError::DeleteBeforeClose => RelayError::DeleteBeforeClose,
            RelayError::UnknownPermission { request_id } => RelayError::UnknownPermission {
                request_id: request_id.clone(),
            },
            RelayError::PermissionOfOtherBrowser => RelayError::PermissionOfOtherBrowser,
            RelayError::UnknownDevice { device_id } => RelayError::UnknownDevice {
                device_id: device_id.clone(),
            },
            RelayError::UnknownWorkspace {
                device_id,
                workspace_id,
            } => RelayError::UnknownWorkspace {
                device_id: device_id.clone(),
                workspace_id: workspace_id.clone(),
            },
            RelayError::DeviceNotConnected { device_id } => RelayError::DeviceNotConnected {
                device_id: device_id.clone(),
            },
            RelayError::BrowserOffline { browser_id } => RelayError::BrowserOffline {
                browser_id: browser_id.clone(),
            },
            RelayError::BrowserChannelClosed => RelayError::BrowserChannelClosed,
            RelayError::ClientChannelClosed => RelayError::ClientChannelClosed,
            RelayError::NoSessionInDelta => RelayError::NoSessionInDelta,
            RelayError::NotSaved { message } => RelayError::NotSaved {
                message: message.clone(),
            },
        }
    }
}

/// A message to send. Where a required one cannot be sent, nothing after it is.
#[derive(Debug, Clone)]
pub enum Delivery {
    Browser { browser_id: String, message: ServerToBrowserMessage, required: bool },
    Client { device_id: String, message: ServerToClientMessage, required: bool },
}

/// What a [`Delivery`] says.
#[verifier::ext_equal]
pub enum DeliveryModel {
    Browser { browser_id: Seq<char>, message: BrowserReplyModel, required: bool },
    Client { device_id: Seq<char>, message: ServerMessageModel, required: bool },
}

impl DeepView for Delivery {
    type V = DeliveryModel;

    open spec fn deep_view(&self) -> DeliveryModel {
        match self {
            Delivery::Browser { browser_id, message, required } => DeliveryModel::Browser {
                browser_id: browser_id@,
                message: message.deep_view(),
                required: *required,
            },
            Delivery::Client { device_id, message, required } => DeliveryModel::Client {
                device_id: device_id@,
                message: message.deep_view(),
                required: *required,
            },
        }
    }
}

impl Duplicate for Delivery {
    fn duplicate(&self) -> (r: Self) {
        match self {
            Delivery::Browser { browser_id, message, required } => Delivery::Browser {
                browser_id: browser_id.clone(),
                message: message.duplicate(),
                required: *required,
            },
            Delivery::Client { device_id, message, required } => Delivery::Client {
                device_id: device_id.clone(),
                message: message.duplicate(),
                required: *required,
            },
        }
    }
}

/// What ends the work on a message: the deliveries to make, in order, and then the error.
#[derive(Debug, Clone)]
pub struct Outcome {
    pub deliveries: Vec<Delivery>,
    pub error: Option<RelayError>,
}

/// What a [`Outcome`] says.
#[verifier::ext_equal]
pub struct OutcomeModel {
    pub deliveries: Seq<DeliveryModel>,
    pub error: Option<RelayErrorModel>,
}

impl DeepView for Outcome {
    type V = OutcomeModel;

    open spec fn deep_view(&self) -> OutcomeModel {
        OutcomeModel {
            deliveries: self.deliveries.deep_view(),
            error: self.error.deep_view(),
        }
    }
}

impl Duplicate for Outcome {
    fn duplicate(&self) -> (r: Self) {
        Outcome {
            deliveries: self.deliveries.duplicate(),
            error: self.error.duplicate(),
        }
    }
}

/// How the work goes on once the store is written.
#[derive(Debug, Clone)]
pub enum FollowUp {
    SessionRequested { session_id: String, device_id: String, workspace_id: String },
    SessionAdopted {
        previous: Option<PersistedRelaySession>,
        session_id: String,
        browser_id: String,
        user_id: String,
    },
    PromptSubmitted {
        session_id: String,
        device_id: String,
        prompted_session_id: String,
        text: String,
    },
    PermissionResolved {
        session_id: Option<String>,
        device_id: String,
        request_id: String,
        selected_index: usize,
    },
    SessionClosed { session_id: String },
    SessionDeleted { previous: PersistedRelaySession },
    SessionCreated { session_id: String, workspace_id: String, workspace_name: String },
    SessionResumed { session_id: String },
    SessionResumeFailed { session_id: String, client_session_id: String, message: String },
    OutputChunk { session_id: String, text: String },
    PromptFinished { session_id: String, stop_reason: String },
    PermissionRequested {
        request_id: String,
        session_id: Option<String>,
        browser_id: String,
        options: Vec<PermissionOptionMessage>,
    },
    DeviceConnected { device: DeviceStatusMessage },
    DeviceDisconnected { device: DeviceStatusMessage },
    SessionsDisconnected {
        device: DeviceStatusMessage,
        session_ids: Vec<String>,
        browser_ids: Vec<String>,
    },
}

/// What a [`FollowUp`] says.
#[verifier::ext_equal]
pub enum FollowUpModel {
    SessionRequested { session_id: Seq<char>, device_id: Seq<char>, workspace_id: Seq<char> },
    SessionAdopted {
        previous: Option<PersistedModel>,
        session_id: Seq<char>,
        browser_id: Seq<char>,
        user_id: Seq<char>,
    },
    PromptSubmitted {
        session_id: Seq<char>,
        device_id: Seq<char>,
        prompted_session_id: Seq<char>,
        text: Seq<char>,
    },
    PermissionResolved {
        session_id: Option<Seq<char>>,
        device_id: Seq<char>,
        request_id: Seq<char>,
        selected_index: usize,
    },
    SessionClosed { session_id: Seq<char> },
    SessionDeleted { previous: PersistedModel },
    SessionCreated { session_id: Seq<char>, workspace_id: Seq<char>, workspace_name: Seq<char> },
    SessionResumed { session_id: Seq<char> },
    SessionResumeFailed { session_id: Seq<char>, client_session_id: Seq<char>, message: Seq<char> },
    OutputChunk { session_id: Seq<char>, text: Seq<char> },
    PromptFinished { session_id: Seq<char>, stop_reason: Seq<char> },
    PermissionRequested {
        request_id: Seq<char>,
        session_id: Option<Seq<char>>,
        browser_id: Seq<char>,
        options: Seq<PermissionOptionModel>,
    },
    DeviceConnected { device: DeviceModel },
    DeviceDisconnected { device: DeviceModel },
    SessionsDisconnected {
        device: DeviceModel,
        session_ids: Seq<Seq<char>>,
        browser_ids: Seq<Seq<char>>,
    },
}

impl DeepView for FollowUp {
    type V = FollowUpModel;

    open spec fn deep_view(&self) -> FollowUpModel {
        match self {
            FollowUp::SessionRequested {
                session_id,
                device_id,
                workspace_id,
            } => FollowUpModel::SessionRequested {
                session_id: session_id@,
                device_id: device_id@,
                workspace_id: workspace_id@,
            },
            FollowUp::SessionAdopted {
                previous,
                session_id,
                browser_id,
                user_id,
            } => FollowUpModel::SessionAdopted {
                previous: previous.deep_view(),
                session_id: session_id@,
                browser_id: browser_id@,
                user_id: user_id@,
            },
            FollowUp::PromptSubmitted {
                session_id,
                device_id,
                prompted_session_id,
                text,
            } => FollowUpModel::PromptSubmitted {
                session_id: session_id@,
                device_id: device_id@,
                prompted_session_id: prompted_session_id@,
                text: text@,
            },
            FollowUp::PermissionResolved {
                session_id,
                device_id,
                request_id,
                selected_index,
            } => FollowUpModel::PermissionResolved {
                session_id: session_id.deep_view(),
                device_id: device_id@,
                request_id: request_id@,
                selected_index: *selected_index,
            },
            FollowUp::SessionClosed { session_id } => FollowUpModel::SessionClosed {
                session_id: session_id@,
            },
            FollowUp::SessionDeleted { previous } => FollowUpModel::SessionDeleted {
                previous: previous.deep_view(),
            },
            FollowUp::SessionCreated {
                session_id,
                workspace_id,
                workspace_name,
            } => FollowUpModel::SessionCreated {
                session_id: session_id@,
                workspace_id: workspace_id@,
                workspace_name: workspace_name@,
            },
            FollowUp::SessionResumed { session_id } => FollowUpModel::SessionResumed {
                session_id: session_id@,
            },
            FollowUp::SessionResumeFailed {
                session_id,
                client_session_id,
                message,
            } => FollowUpModel::SessionResumeFailed {
                session_id: session_id@,
                client_session_id: client_session_id@,
                message: message@,
            },
            FollowUp::OutputChunk { session_id, text } => FollowUpModel::OutputChunk {
                session_id: session_id@,
                text: text@,
            },
            FollowUp::PromptFinished { session_id, stop_reason } => FollowUpModel::PromptFinished {
                session_id: session_id@,
                stop_reason: stop_reason@,
            },
            FollowUp::PermissionRequested {
                request_id,
                session_id,
                browser_id,
                options,
            } => FollowUpModel::PermissionRequested {
                request_id: request_id@,
                session_id: session_id.deep_view(),
                browser_id: browser_id@,
                options: options.deep_view(),
            },
            FollowUp::DeviceConnected { device } => FollowUpModel::DeviceConnected {
                device: device.deep_view(),
            },
            FollowUp::DeviceDisconnected { device } => FollowUpModel::DeviceDisconnected {
                device: device.deep_view(),
            },
            FollowUp::SessionsDisconnected {
                device,
                session_ids,
                browser_ids,
            } => FollowUpModel::SessionsDisconnected {
                device: device.deep_view(),
                session_ids: session_ids.deep_view(),
                browser_ids: browser_ids.deep_view(),
            },
        }
    }
}

impl Duplicate for FollowUp {
    fn duplicate(&self) -> (r: Self) {
        match self {
            FollowUp::SessionRequested {
                session_id,
                device_id,
                workspace_id,
            } => FollowUp::SessionRequested {
                session_id: session_id.clone(),
                device_id: device_id.clone(),
                workspace_id: workspace_id.clone(),
            },
            FollowUp::SessionAdopted {
                previous,
                session_id,
                browser_id,
                user_id,
            } => FollowUp::SessionAdopted {
                previous: previous.duplicate(),
                session_id: session_id.clone(),
                browser_id: browser_id.clone(),
                user_id: user_id.clone(),
            },
            FollowUp::PromptSubmitted {
                session_id,
                device_id,
                prompted_session_id,
                text,
            } => FollowUp::PromptSubmitted {
                session_id: session_id.clone(),
                device_id: device_id.clone(),
                prompted_session_id: prompted_session_id.clone(),
                text: text.clone(),
            },
            FollowUp::PermissionResolved {
                session_id,
                device_id,
                request_id,
                selected_index,
            } => FollowUp::PermissionResolved {
                session_id: session_id.duplicate(),
                device_id: device_id.clone(),
                request_id: request_id.clone(),
                selected_index: *selected_index,
            },
            FollowUp::SessionClosed { session_id } => FollowUp::SessionClosed {
                session_id: session_id.clone(),
            },
            FollowUp::SessionDeleted { previous } => FollowUp::SessionDeleted {
                previous: previous.duplicate(),
            },
            FollowUp::SessionCreated {
                session_id,
                workspace_id,
                workspace_name,
            } => FollowUp::SessionCreated {
                session_id: session_id.clone(),
                workspace_id: workspace_id.clone(),
                workspace_name: workspace_name.clone(),
            },
            FollowUp::SessionResumed { session_id } => FollowUp::SessionResumed {
                session_id: session_id.clone(),
            },
            FollowUp::SessionResumeFailed {
                session_id,
                client_session_id,
                message,
            } => FollowUp::SessionResumeFailed {
                session_id: session_id.clone(),
                client_session_id: client_session_id.clone(),
                message: message.clone(),
            },
            FollowUp::OutputChunk { session_id, text } => FollowUp::OutputChunk {
                session_id: session_id.clone(),
                text: text.clone(),
            },
            FollowUp::PromptFinished { session_id, stop_reason } => FollowUp::PromptFinished {
                session_id: session_id.clone(),
                stop_reason: stop_reason.clone(),
            },
            FollowUp::PermissionRequested {
                request_id,
                session_id,
                browser_id,
                options,
            } => FollowUp::PermissionRequested {
                request_id: request_id.clone(),
                session_id: session_id.duplicate(),
                browser_id: browser_id.clone(),
                options: options.duplicate(),
            },
            FollowUp::DeviceConnected { device } => FollowUp::DeviceConnected {
                device: device.duplicate(),
            },
            FollowUp::DeviceDisconnected { device } => FollowUp::DeviceDisconnected {
                device: device.duplicate(),
            },
            FollowUp::SessionsDisconnected {
                device,
                session_ids,
                browser_ids,
            } => FollowUp::SessionsDisconnected {
                device: device.duplicate(),
                session_ids: session_ids.duplicate(),
                browser_ids: browser_ids.duplicate(),
            },
        }
    }
}

/// What to do next.
#[derive(Debug, Clone)]
pub enum Step {
    Finished { outcome: Outcome },
    Persist { write: StoreWrite, next: FollowUp },
}

/// What a [`Step`] says.
#[verifier::ext_equal]
pub enum StepModel {
    Finished { outcome: OutcomeModel },
    Persist { write: StoreWriteModel, next: FollowUpModel },
}

impl DeepView for Step {
    type V = StepModel;

    open spec fn deep_view(&self) -> StepModel {
        match self {
            Step::Finished { outcome } => StepModel::Finished {
                outcome: outcome.deep_view(),
            },
            Step::Persist { write, next } => StepModel::Persist {
                write: write.deep_view(),
                next: next.deep_view(),
            },
        }
    }
}

// ---------------------------------------------------------------------------
// The state
// ---------------------------------------------------------------------------

/// The state of the relay server.
#[derive(Debug, Clone)]
pub struct AppState {
    pub client_auth: ClientAuthConfig,
    pub browser_auth: BrowserAuthConfig,
    pub login_sessions: StringMap<BrowserLoginSession>,
    pub persistence: RelayPersistence,
    pub next_browser_id: u64,
    pub next_session_id: u64,
    pub next_event_id: u64,
    pub devices: StringSet,
    pub browsers: StringMap<BrowserConnection>,
    pub sessions: StringMap<RelaySession>,
    pub permissions: StringMap<PendingPermission>,
    pub store: RelayStore,
}

/// What an [`AppState`] says.
#[verifier::ext_equal]
pub struct ServerModel {
    pub client_auth: ClientAuthModel,
    pub browser_auth: BrowserAuthModel,
    pub login_sessions: Seq<(Seq<char>, LoginModel)>,
    pub persistence: PersistenceModel,
    pub next_browser_id: u64,
    pub next_session_id: u64,
    pub next_event_id: u64,
    pub devices: Seq<Seq<char>>,
    pub browsers: Seq<(Seq<char>, BrowserModel)>,
    pub sessions: Seq<(Seq<char>, SessionModel)>,
    pub permissions: Seq<(Seq<char>, PendingModel)>,
    pub store: StoreModel,
}

impl DeepView for AppState {
    type V = ServerModel;

    open spec fn deep_view(&self) -> ServerModel {
        ServerModel {
            client_auth: self.client_auth.deep_view(),
            browser_auth: self.browser_auth.deep_view(),
            login_sessions: self.login_sessions.deep_view(),
            persistence: self.persistence.deep_view(),
            next_browser_id: self.next_browser_id,
            next_session_id: self.next_session_id,
            next_event_id: self.next_event_id,
            devices: self.devices.deep_view(),
            browsers: self.browsers.deep_view(),
            sessions: self.sessions.deep_view(),
            permissions: self.permissions.deep_view(),
            store: self.store.deep_view(),
        }
    }
}

/// The number after a counter's value. A counter starts again at zero.
pub open spec fn counted(counter: u64) -> u64 {
    if counter == u64::MAX {
        0
    } else {
        (counter + 1) as u64
    }
}

fn count(counter: &mut u64) -> (r: u64)
    ensures
        r == *old(counter),
        *final(counter) == counted(*old(counter)),
{
    let value = *counter;
    *counter = if value == u64::MAX {
        0
    } else {
        value + 1
    };
    value
}

/// The state once the store is changed, and the write that has to follow.
pub open spec fn updated(server: ServerModel, changed: StoreModel, next: FollowUpModel) -> (
    ServerModel,
    StepModel,
) {
    let threshold = server.persistence.compaction_threshold;
    (
        ServerModel { store: relay_state::settled(changed, threshold), ..server },
        StepModel::Persist {
            write: relay_state::settling_write(changed, server.store.events.len(), threshold),
            next,
        },
    )
}

/// The end of the work on a message.
pub open spec fn finished(
    deliveries: Seq<DeliveryModel>,
    error: Option<RelayErrorModel>,
) -> StepModel {
    StepModel::Finished { outcome: OutcomeModel { deliveries, error } }
}

/// The sessions of a store that is taken up: no browser has any of them.
pub open spec fn taken_up_sessions(sessions: Seq<(Seq<char>, PersistedModel)>) -> Seq<
    (Seq<char>, SessionModel),
>
    decreases sessions.len(),
{
    if sessions.len() == 0 {
        Seq::empty()
    } else {
        let session = sessions.last().1;
        string_map::put(
            taken_up_sessions(sessions.drop_last()),
            session.summary.session_id,
            SessionModel {
                session_id: session.summary.session_id,
                device_id: session.summary.device_id,
                browser_id: Seq::empty(),
                owner_user_id: relay_state::text_or_empty(session.summary.owner_user_id),
                client_session_id: session.client_session_id,
            },
        )
    }
}

/// The state of a server that starts on a store: no one is connected or logged
/// in, and the counters go on after the numbers in use.
pub open spec fn started(
    client_auth: ClientAuthModel,
    browser_auth: BrowserAuthModel,
    persistence: PersistenceModel,
    store: StoreModel,
) -> ServerModel {
    ServerModel {
        client_auth,
        browser_auth,
        login_sessions: Seq::empty(),
        persistence,
        next_browser_id: 1,
        next_session_id: (relay_state::highest_session_number(store.sessions) + 1) as u64,
        next_event_id: (relay_state::highest_seq(store.events) + 1) as u64,
        devices: Seq::empty(),
        browsers: Seq::empty(),
        sessions: taken_up_sessions(store.sessions),
        permissions: Seq::empty(),
        store,
    }
}

impl AppState {
    /// The state of a server that starts on a store that was read from disk.
    pub fn new(
        client_auth: ClientAuthConfig,
        browser_auth: BrowserAuthConfig,
        persistence: RelayPersistence,
        store: RelayStore,
    ) -> (r: Self)
        requires
            relay_state::highest_session_number(store.sessions.deep_view()) < u64::MAX,
            relay_state::highest_seq(store.events.deep_view()) < u64::MAX,
        ensures
            r.deep_view() == started(
                client_auth.deep_view(),
                browser_auth.deep_view(),
                persistence.deep_view(),
                store.deep_view(),
            ),
    {
        let next_session_id = store.next_session_counter();
        let next_event_id = store.next_event_seq();
        let mut sessions: StringMap<RelaySession> = StringMap::new();
        let ghost all = store.sessions.deep_view();
        assert(all.take(0) =~= Seq::empty());
        let n: usize = store.sessions.len();
        for i in 0..n
            invariant
                all == store.sessions.deep_view(),
                n == all.len(),
                sessions.deep_view() == taken_up_sessions(all.take(i as int)),
        {
            assert(all.take(i + 1).drop_last() == all.take(i as int));
            assert(all.take(i + 1).last() == all[i as int]);
            let session = store.sessions.value_at(i);
            let owner_user_id = match &session.summary.owner_user_id {
                Some(owner) => owner.clone(),
                None => String::new(),
            };
            assert(owner_user_id@ == relay_state::text_or_empty(
                session.summary.owner_user_id.deep_view(),
            ));
            let browser_id = String::new();
            assert(browser_id@ == Seq::<char>::empty());
            sessions.insert(
                session.summary.session_id.clone(),
                RelaySession {
                    session_id: session.summary.session_id.clone(),
                    device_id: session.summary.device_id.clone(),
                    browser_id,
                    owner_user_id,
                    client_session_id: session.client_session_id.duplicate(),
                },
            );
        }
        assert(all.take(all.len() as int) == all);
        AppState {
            client_auth,
            browser_auth,
            login_sessions: StringMap::new(),
            persistence,
            next_browser_id: 1,
            next_session_id,
            next_event_id,
            devices: StringSet::new(),
            browsers: StringMap::new(),
            sessions,
            permissions: StringMap::new(),
            store,
        }
    }

    /// An id for a browser that connects.
    pub fn next_browser_id(&mut self) -> (r: String)
        ensures
            r@ == "browser-"@ + text::decimal(old(self).next_browser_id as nat),
            final(self).deep_view() == (ServerModel {
                next_browser_id: counted(old(self).next_browser_id),
                ..old(self).deep_view()
            }),
    {
        let number = count(&mut self.next_browser_id);
        join2("browser-", number_string(number).as_str())
    }

    /// An id for a new session.
    pub fn next_session_id(&mut self) -> (r: String)
        ensures
            r@ == store_laws::relay_session_id(old(self).next_session_id as nat),
            final(self).deep_view() == (ServerModel {
                next_session_id: counted(old(self).next_session_id),
                ..old(self).deep_view()
            }),
    {
        let number = count(&mut self.next_session_id);
        join2("relay-session-", number_string(number).as_str())
    }

    /// The sequence number of a new event.
    pub fn next_event_seq(&mut self) -> (r: u64)
        ensures
            r == old(self).next_event_id,
            final(self).deep_view() == (ServerModel {
                next_event_id: counted(old(self).next_event_id),
                ..old(self).deep_view()
            }),
    {
        count(&mut self.next_event_id)
    }

    /// Finishes a change to the store, before which it held `prior_event_count` events.
    pub(crate) fn update_store(&mut self, prior_event_count: usize, next: FollowUp) -> (r: Step)
        ensures
            final(self).deep_view() == (ServerModel {
                store: relay_state::settled(
                    old(self).store.deep_view(),
                    old(self).deep_view().persistence.compaction_threshold,
                ),
                ..old(self).deep_view()
            }),
            r.deep_view() == (StepModel::Persist {
                write: relay_state::settling_write(
                    old(self).store.deep_view(),
                    prior_event_count as nat,
                    old(self).deep_view().persistence.compaction_threshold,
                ),
                next: next.deep_view(),
            }),
    {
        let threshold = self.persistence.compaction_threshold();
        let write = self.store.finish_update(prior_event_count, threshold);
        Step::Persist { write, next }
    }
}

/// What a result says.
pub open spec fn result_model<T: DeepView>(result: Result<T, RelayError>) -> Result<
    T::V,
    RelayErrorModel,
> {
    match result {
        Ok(value) => Ok(value.deep_view()),
        Err(error) => Err(error.deep_view()),
    }
}

/// Ends the work on a message.
pub(crate) fn finish(deliveries: Vec<Delivery>, error: Option<RelayError>) -> (r: Step)
    ensures
        r.deep_view() == finished(deliveries.deep_view(), error.deep_view()),
{
    Step::Finished { outcome: Outcome { deliveries, error } }
}

/// Ends the work on a message with nothing but an error.
pub(crate) fn fail(error: RelayError) -> (r: Step)
    ensures
        r.deep_view() == finished(Seq::empty(), Some(error.deep_view())),
{
    finish(vec_empty(), Some(error))
}

// ---------------------------------------------------------------------------
// Errors as texts
// ---------------------------------------------------------------------------

/// What a browser is told of an error.
pub open spec fn error_text(error: RelayErrorModel) -> Seq<char> {
    match error {
        RelayErrorModel::UnknownSession { session_id } => "未知 relay session: "@ + session_id,
        RelayErrorModel::SessionForbidden => "当前用户无权访问该 session"@,
        RelayErrorModel::SessionOfOtherBrowser => "当前 browser 无权访问该 session"@,
        RelayErrorModel::PromptAfterClose => "session 已关闭，不能再发送 prompt"@,
        RelayErrorModel::DeleteBeforeClose => "只能删除已关闭的 session"@,
        RelayErrorModel::UnknownPermission { request_id } => "未知 permission request: "@
            + request_id,
        RelayErrorModel::PermissionOfOtherBrowser => "当前 browser 无权响应该 permission request"@,
        RelayErrorModel::UnknownDevice { device_id } => "未知 device: "@ + device_id,
        RelayErrorModel::UnknownWorkspace { device_id, workspace_id } => "device `"@ + device_id
            + "` 不存在 workspace `"@ + workspace_id + "`"@,
        RelayErrorModel::DeviceNotConnected { device_id } => "device 未连接: "@ + device_id,
        RelayErrorModel::BrowserOffline { browser_id } => "browser 已离线: "@ + browser_id,
        RelayErrorModel::BrowserChannelClosed => "browser channel 已关闭"@,
        RelayErrorModel::ClientChannelClosed => "client channel 已关闭"@,
        RelayErrorModel::NoSessionInDelta => "session delta 缺少 session"@,
        RelayErrorModel::NotSaved { message } => message,
    }
}

impl RelayError {
    pub fn message(&self) -> (r: String)
        ensures
            r@ == error_text(self.deep_view()),
    {
        match self {
            RelayError::UnknownSession { session_id } => join2(
                "未知 relay session: ",
                session_id.as_str(),
            ),
            RelayError::SessionForbidden => "当前用户无权访问该 session".to_string(),
            RelayError::SessionOfOtherBrowser => "当前 browser 无权访问该 session".to_string(),
            RelayError::PromptAfterClose => "session 已关闭，不能再发送 prompt".to_string(),
            RelayError::DeleteBeforeClose => "只能删除已关闭的 session".to_string(),
            RelayError::UnknownPermission { request_id } => join2(
                "未知 permission request: ",
                request_id.as_str(),
            ),
            RelayError::PermissionOfOtherBrowser =>
                "当前 browser 无权响应该 permission request".to_string(),
            RelayError::UnknownDevice { device_id } => join2(
                "未知 device: ",
                device_id.as_str(),
            ),
            RelayError::UnknownWorkspace { device_id, workspace_id } => join5(
                "device `",
                device_id.as_str(),
                "` 不存在 workspace `",
                workspace_id.as_str(),
                "`",
            ),
            RelayError::DeviceNotConnected { device_id } => join2(
                "device 未连接: ",
                device_id.as_str(),
            ),
            RelayError::BrowserOffline { browser_id } => join2(
                "browser 已离线: ",
                browser_id.as_str(),
            ),
            RelayError::BrowserChannelClosed => "browser channel 已关闭".to_string(),
            RelayError::ClientChannelClosed => "client channel 已关闭".to_string(),
            RelayError::NoSessionInDelta => "session delta 缺少 session".to_string(),
            RelayError::NotSaved { message } => message.clone(),
        }
    }
}

/// The error that ends the work where a delivery could not be made; none where
/// the work goes on without it.
pub open spec fn delivery_failure(delivery: DeliveryModel) -> Option<RelayErrorModel> {
    match delivery {
        DeliveryModel::Browser { required, .. } => if required {
            Some(RelayErrorModel::BrowserChannelClosed)
        } else {
            None
        },
        DeliveryModel::Client { required, .. } => if required {
            Some(RelayErrorModel::ClientChannelClosed)
        } else {
            None
        },
    }
}

impl Delivery {
    /// The error that ends the work where this delivery could not be made.
    pub fn failure(&self) -> (r: Option<RelayError>)
        ensures
            r.deep_view() == delivery_failure(self.deep_view()),
    {
        match self {
            Delivery::Browser { required, .. } => if *required {
                Some(RelayError::BrowserChannelClosed)
            } else {
                None
            },
            Delivery::Client { required, .. } => if *required {
                Some(RelayError::ClientChannelClosed)
            } else {
                None
            },
        }
    }
}

} // verus!
