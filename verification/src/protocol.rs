//! The messages that the home client, the relay server and the browser exchange.
//!
//! Each message type has a model, the mathematical value that contracts speak of.
use crate::duplicate::Duplicate;
use vstd::prelude::*;

verus! {

/// One choice of a permission request.
#[derive(Debug, Clone)]
pub struct PermissionOptionMessage {
    pub index: usize,
    pub name: String,
    pub kind: String,
}

/// What a [`PermissionOptionMessage`] says.
#[verifier::ext_equal]
pub struct PermissionOptionModel {
    pub index: usize,
    pub name: Seq<char>,
    pub kind: Seq<char>,
}

impl DeepView for PermissionOptionMessage {
    type V = PermissionOptionModel;

    open spec fn deep_view(&self) -> PermissionOptionModel {
        PermissionOptionModel {
            index: self.index,
            name: self.name@,
            kind: self.kind@,
        }
    }
}

impl Duplicate for PermissionOptionMessage {
    fn duplicate(&self) -> (r: Self) {
        PermissionOptionMessage {
            index: self.index,
            name: self.name.clone(),
            kind: self.kind.clone(),
        }
    }
}

/// A workspace that a device offers.
#[derive(Debug, Clone)]
pub struct WorkspaceSummaryMessage {
    pub workspace_id: String,
    pub workspace_name: String,
}

/// What a [`WorkspaceSummaryMessage`] says.
#[verifier::ext_equal]
pub struct WorkspaceModel {
    pub workspace_id: Seq<char>,
    pub workspace_name: Seq<char>,
}

impl DeepView for WorkspaceSummaryMessage {
    type V = WorkspaceModel;

    open spec fn deep_view(&self) -> WorkspaceModel {
        WorkspaceModel {
            workspace_id: self.workspace_id@,
            workspace_name: self.workspace_name@,
        }
    }
}

impl Duplicate for WorkspaceSummaryMessage {
    fn duplicate(&self) -> (r: Self) {
        WorkspaceSummaryMessage {
            workspace_id: self.workspace_id.clone(),
            workspace_name: self.workspace_name.clone(),
        }
    }
}

/// A message from a home client to the relay server.
#[derive(Debug, Clone)]
pub enum ClientToServerMessage {
    Hello {
        device_id: String,
        device_name: String,
        client_version: String,
        capabilities: Vec<String>,
        workspaces: Vec<WorkspaceSummaryMessage>,
        auth_token: String,
    },
    Ready { agent_name: String },
    Info { message: String },
    SessionCreated {
        session_id: String,
        client_session_id: String,
        workspace_id: String,
        workspace_name: String,
    },
    SessionResumed { session_id: String, client_session_id: String },
    SessionResumeFailed { session_id: String, client_session_id: String, message: String },
    OutputChunk { session_id: String, text: String },
    PromptFinished { session_id: String, stop_reason: String },
    PermissionRequested {
        request_id: String,
        session_id: Option<String>,
        options: Vec<PermissionOptionMessage>,
    },
    Error { message: String },
}

/// What a [`ClientToServerMessage`] says.
#[verifier::ext_equal]
pub enum ClientMessageModel {
    Hello {
        device_id: Seq<char>,
        device_name: Seq<char>,
        client_version: Seq<char>,
        capabilities: Seq<Seq<char>>,
        workspaces: Seq<WorkspaceModel>,
        auth_token: Seq<char>,
    },
    Ready { agent_name: Seq<char> },
    Info { message: Seq<char> },
    SessionCreated {
        session_id: Seq<char>,
        client_session_id: Seq<char>,
        workspace_id: Seq<char>,
        workspace_name: Seq<char>,
    },
    SessionResumed { session_id: Seq<char>, client_session_id: Seq<char> },
    SessionResumeFailed { session_id: Seq<char>, client_session_id: Seq<char>, message: Seq<char> },
    OutputChunk { session_id: Seq<char>, text: Seq<char> },
    PromptFinished { session_id: Seq<char>, stop_reason: Seq<char> },
    PermissionRequested {
        request_id: Seq<char>,
        session_id: Option<Seq<char>>,
        options: Seq<PermissionOptionModel>,
    },
    Error { message: Seq<char> },
}

impl DeepView for ClientToServerMessage {
    type V = ClientMessageModel;

    open spec fn deep_view(&self) -> ClientMessageModel {
        match self {
            ClientToServerMessage::Hello {
                device_id,
                device_name,
                client_version,
                capabilities,
                workspaces,
                auth_token,
            } => ClientMessageModel::Hello {
                device_id: device_id@,
                device_name: device_name@,
                client_version: client_version@,
                capabilities: capabilities.deep_view(),
                workspaces: workspaces.deep_view(),
                auth_token: auth_token@,
            },
            ClientToServerMessage::Ready { agent_name } => ClientMessageModel::Ready {
                agent_name: agent_name@,
            },
            ClientToServerMessage::Info { message } => ClientMessageModel::Info {
                message: message@,
            },
            ClientToServerMessage::SessionCreated {
                session_id,
                client_session_id,
                workspace_id,
                workspace_name,
            } => ClientMessageModel::SessionCreated {
                session_id: session_id@,
                client_session_id: client_session_id@,
                workspace_id: workspace_id@,
                workspace_name: workspace_name@,
            },
            ClientToServerMessage::SessionResumed {
                session_id,
                client_session_id,
            } => ClientMessageModel::SessionResumed {
                session_id: session_id@,
                client_session_id: client_session_id@,
            },
            ClientToServerMessage::SessionResumeFailed {
                session_id,
                client_session_id,
                message,
            } => ClientMessageModel::SessionResumeFailed {
                session_id: session_id@,
                client_session_id: client_session_id@,
                message: message@,
            },
            ClientToServerMessage::OutputChunk {
                session_id,
                text,
            } => ClientMessageModel::OutputChunk {
                session_id: session_id@,
                text: text@,
            },
            ClientToServerMessage::PromptFinished {
                session_id,
                stop_reason,
            } => ClientMessageModel::PromptFinished {
                session_id: session_id@,
                stop_reason: stop_reason@,
            },
            ClientToServerMessage::PermissionRequested {
                request_id,
                session_id,
                options,
            } => ClientMessageModel::PermissionRequested {
                request_id: request_id@,
                session_id: session_id.deep_view(),
                options: options.deep_view(),
            },
            ClientToServerMessage::Error { message } => ClientMessageModel::Error {
                message: message@,
            },
        }
    }
}

impl Duplicate for ClientToServerMessage {
    fn duplicate(&self) -> (r: Self) {
        match self {
            ClientToServerMessage::Hello {
                device_id,
                device_name,
                client_version,
                capabilities,
                workspaces,
                auth_token,
            } => ClientToServerMessage::Hello {
                device_id: device_id.clone(),
                device_name: device_name.clone(),
                client_version: client_version.clone(),
                capabilities: capabilities.duplicate(),
                workspaces: workspaces.duplicate(),
                auth_token: auth_token.clone(),
            },
            ClientToServerMessage::Ready { agent_name } => ClientToServerMessage::Ready {
                agent_name: agent_name.clone(),
            },
            ClientToServerMessage::Info { message } => ClientToServerMessage::Info {
                message: message.clone(),
            },
            ClientToServerMessage::SessionCreated {
                session_id,
                client_session_id,
                workspace_id,
                workspace_name,
            } => ClientToServerMessage::SessionCreated {
                session_id: session_id.clone(),
                client_session_id: client_session_id.clone(),
                workspace_id: workspace_id.clone(),
                workspace_name: workspace_name.clone(),
            },
            ClientToServerMessage::SessionResumed {
                session_id,
                client_session_id,
            } => ClientToServerMessage::SessionResumed {
                session_id: session_id.clone(),
                client_session_id: client_session_id.clone(),
            },
            ClientToServerMessage::SessionResumeFailed {
                session_id,
                client_session_id,
                message,
            } => ClientToServerMessage::SessionResumeFailed {
                session_id: session_id.clone(),
                client_session_id: client_session_id.clone(),
                message: message.clone(),
            },
            ClientToServerMessage::OutputChunk {
                session_id,
                text,
            } => ClientToServerMessage::OutputChunk {
                session_id: session_id.clone(),
                text: text.clone(),
            },
            ClientToServerMessage::PromptFinished {
                session_id,
                stop_reason,
            } => ClientToServerMessage::PromptFinished {
                session_id: session_id.clone(),
                stop_reason: stop_reason.clone(),
            },
            ClientToServerMessage::PermissionRequested {
                request_id,
                session_id,
                options,
            } => ClientToServerMessage::PermissionRequested {
                request_id: request_id.clone(),
                session_id: session_id.duplicate(),
                options: options.duplicate(),
            },
            ClientToServerMessage::Error { message } => ClientToServerMessage::Error {
                message: message.clone(),
            },
        }
    }
}

/// A message from the relay server to a home client.
#[derive(Debug, Clone)]
pub enum ServerToClientMessage {
    CreateSession { session_id: String, workspace_id: String },
    ResumeSession { session_id: String, client_session_id: String, workspace_id: String },
    Prompt { session_id: Option<String>, text: String, create_session_if_missing: bool },
    ResolvePermission { request_id: String, selected_index: usize },
    CancelSession { session_id: String },
    Ping,
    Shutdown,
}

/// What a [`ServerToClientMessage`] says.
#[verifier::ext_equal]
pub enum ServerMessageModel {
    CreateSession { session_id: Seq<char>, workspace_id: Seq<char> },
    ResumeSession { session_id: Seq<char>, client_session_id: Seq<char>, workspace_id: Seq<char> },
    Prompt { session_id: Option<Seq<char>>, text: Seq<char>, create_session_if_missing: bool },
    ResolvePermission { request_id: Seq<char>, selected_index: usize },
    CancelSession { session_id: Seq<char> },
    Ping,
    Shutdown,
}

impl DeepView for ServerToClientMessage {
    type V = ServerMessageModel;

    open spec fn deep_view(&self) -> ServerMessageModel {
        match self {
            ServerToClientMessage::CreateSession {
                session_id,
                workspace_id,
            } => ServerMessageModel::CreateSession {
                session_id: session_id@,
                workspace_id: workspace_id@,
            },
            ServerToClientMessage::ResumeSession {
                session_id,
                client_session_id,
                workspace_id,
            } => ServerMessageModel::ResumeSession {
                session_id: session_id@,
                client_session_id: client_session_id@,
                workspace_id: workspace_id@,
            },
            ServerToClientMessage::Prompt {
                session_id,
                text,
                create_session_if_missing,
            } => ServerMessageModel::Prompt {
                session_id: session_id.deep_view(),
                text: text@,
                create_session_if_missing: *create_session_if_missing,
            },
            ServerToClientMessage::ResolvePermission {
                request_id,
                selected_index,
            } => ServerMessageModel::ResolvePermission {
                request_id: request_id@,
                selected_index: *selected_index,
            },
            ServerToClientMessage::CancelSession {
                session_id,
            } => ServerMessageModel::CancelSession {
                session_id: session_id@,
            },
            ServerToClientMessage::Ping => ServerMessageModel::Ping,
            ServerToClientMessage::Shutdown => ServerMessageModel::Shutdown,
        }
    }
}

impl Duplicate for ServerToClientMessage {
    fn duplicate(&self) -> (r: Self) {
        match self {
            ServerToClientMessage::CreateSession {
                session_id,
                workspace_id,
            } => ServerToClientMessage::CreateSession {
                session_id: session_id.clone(),
                workspace_id: workspace_id.clone(),
            },
            ServerToClientMessage::ResumeSession {
                session_id,
                client_session_id,
                workspace_id,
            } => ServerToClientMessage::ResumeSession {
                session_id: session_id.clone(),
                client_session_id: client_session_id.clone(),
                workspace_id: workspace_id.clone(),
            },
            ServerToClientMessage::Prompt {
                session_id,
                text,
                create_session_if_missing,
            } => ServerToClientMessage::Prompt {
                session_id: session_id.duplicate(),
                text: text.clone(),
                create_session_if_missing: *create_session_if_missing,
            },
            ServerToClientMessage::ResolvePermission {
                request_id,
                selected_index,
            } => ServerToClientMessage::ResolvePermission {
                request_id: request_id.clone(),
                selected_index: *selected_index,
            },
            ServerToClientMessage::CancelSession {
                session_id,
            } => ServerToClientMessage::CancelSession {
                session_id: session_id.clone(),
            },
            ServerToClientMessage::Ping => ServerToClientMessage::Ping,
            ServerToClientMessage::Shutdown => ServerToClientMessage::Shutdown,
        }
    }
}

/// A device and whether it is connected.
#[derive(Debug, Clone)]
pub struct DeviceStatusMessage {
    pub device_id: String,
    pub device_name: String,
    pub connected: bool,
    pub workspaces: Vec<WorkspaceSummaryMessage>,
}

/// What a [`DeviceStatusMessage`] says.
#[verifier::ext_equal]
pub struct DeviceModel {
    pub device_id: Seq<char>,
    pub device_name: Seq<char>,
    pub connected: bool,
    pub workspaces: Seq<WorkspaceModel>,
}

impl DeepView for DeviceStatusMessage {
    type V = DeviceModel;

    open spec fn deep_view(&self) -> DeviceModel {
        DeviceModel {
            device_id: self.device_id@,
            device_name: self.device_name@,
            connected: self.connected,
            workspaces: self.workspaces.deep_view(),
        }
    }
}

impl Duplicate for DeviceStatusMessage {
    fn duplicate(&self) -> (r: Self) {
        DeviceStatusMessage {
            device_id: self.device_id.clone(),
            device_name: self.device_name.clone(),
            connected: self.connected,
            workspaces: self.workspaces.duplicate(),
        }
    }
}

/// What is known of a relay session.
#[derive(Debug, Clone)]
pub struct RelaySessionSummaryMessage {
    pub session_id: String,
    pub device_id: String,
    pub status: String,
    pub owner_user_id: Option<String>,
    pub workspace_id: Option<String>,
    pub workspace_name: Option<String>,
    pub created_at: u64,
    pub updated_at: u64,
}

/// What a [`RelaySessionSummaryMessage`] says.
#[verifier::ext_equal]
pub struct SummaryModel {
    pub session_id: Seq<char>,
    pub device_id: Seq<char>,
    pub status: Seq<char>,
    pub owner_user_id: Option<Seq<char>>,
    pub workspace_id: Option<Seq<char>>,
    pub workspace_name: Option<Seq<char>>,
    pub created_at: u64,
    pub updated_at: u64,
}

impl DeepView for RelaySessionSummaryMessage {
    type V = SummaryModel;

    open spec fn deep_view(&self) -> SummaryModel {
        SummaryModel {
            session_id: self.session_id@,
            device_id: self.device_id@,
            status: self.status@,
            owner_user_id: self.owner_user_id.deep_view(),
            workspace_id: self.workspace_id.deep_view(),
            workspace_name: self.workspace_name.deep_view(),
            created_at: self.created_at,
            updated_at: self.updated_at,
        }
    }
}

impl Duplicate for RelaySessionSummaryMessage {
    fn duplicate(&self) -> (r: Self) {
        RelaySessionSummaryMessage {
            session_id: self.session_id.clone(),
            device_id: self.device_id.clone(),
            status: self.status.clone(),
            owner_user_id: self.owner_user_id.duplicate(),
            workspace_id: self.workspace_id.duplicate(),
            workspace_name: self.workspace_name.duplicate(),
            created_at: self.created_at,
            updated_at: self.updated_at,
        }
    }
}

/// One entry of the event history.
#[derive(Debug, Clone)]
pub struct SessionEventMessage {
    pub seq: u64,
    pub seq_end: Option<u64>,
    pub session_id: String,
    pub timestamp: u64,
    pub kind: String,
    pub text: Option<String>,
    pub stop_reason: Option<String>,
    pub request_id: Option<String>,
    pub options: Option<Vec<PermissionOptionMessage>>,
}

/// What a [`SessionEventMessage`] says.
#[verifier::ext_equal]
pub struct EventModel {
    pub seq: u64,
    pub seq_end: Option<u64>,
    pub session_id: Seq<char>,
    pub timestamp: u64,
    pub kind: Seq<char>,
    pub text: Option<Seq<char>>,
    pub stop_reason: Option<Seq<char>>,
    pub request_id: Option<Seq<char>>,
    pub options: Option<Seq<PermissionOptionModel>>,
}

impl DeepView for SessionEventMessage {
    type V = EventModel;

    open spec fn deep_view(&self) -> EventModel {
        EventModel {
            seq: self.seq,
            seq_end: self.seq_end.deep_view(),
            session_id: self.session_id@,
            timestamp: self.timestamp,
            kind: self.kind@,
            text: self.text.deep_view(),
            stop_reason: self.stop_reason.deep_view(),
            request_id: self.request_id.deep_view(),
            options: self.options.deep_view(),
        }
    }
}

impl Duplicate for SessionEventMessage {
    fn duplicate(&self) -> (r: Self) {
        SessionEventMessage {
            seq: self.seq,
            seq_end: self.seq_end.duplicate(),
            session_id: self.session_id.clone(),
            timestamp: self.timestamp,
            kind: self.kind.clone(),
            text: self.text.duplicate(),
            stop_reason: self.stop_reason.duplicate(),
            request_id: self.request_id.duplicate(),
            options: self.options.duplicate(),
        }
    }
}

/// A message from a browser to the relay server.
#[derive(Debug, Clone)]
pub enum BrowserToServerMessage {
    ListDevices,
    ListSessions,
    CreateSession { device_id: String, workspace_id: String },
    AdoptSession { session_id: String },
    CloseSession { session_id: String },
    DeleteSession { session_id: String },
    Prompt { session_id: String, text: String },
    GetSessionHistory { session_id: String, before_seq: Option<u64>, limit: Option<usize> },
    ResolvePermission { request_id: String, selected_index: usize },
    Ping,
}

/// What a [`BrowserToServerMessage`] says.
#[verifier::ext_equal]
pub enum BrowserRequestModel {
    ListDevices,
    ListSessions,
    CreateSession { device_id: Seq<char>, workspace_id: Seq<char> },
    AdoptSession { session_id: Seq<char> },
    CloseSession { session_id: Seq<char> },
    DeleteSession { session_id: Seq<char> },
    Prompt { session_id: Seq<char>, text: Seq<char> },
    GetSessionHistory { session_id: Seq<char>, before_seq: Option<u64>, limit: Option<usize> },
    ResolvePermission { request_id: Seq<char>, selected_index: usize },
    Ping,
}

impl DeepView for BrowserToServerMessage {
    type V = BrowserRequestModel;

    open spec fn deep_view(&self) -> BrowserRequestModel {
        match self {
            BrowserToServerMessage::ListDevices => BrowserRequestModel::ListDevices,
            BrowserToServerMessage::ListSessions => BrowserRequestModel::ListSessions,
            BrowserToServerMessage::CreateSession {
                device_id,
                workspace_id,
            } => BrowserRequestModel::CreateSession {
                device_id: device_id@,
                workspace_id: workspace_id@,
            },
            BrowserToServerMessage::AdoptSession {
                session_id,
            } => BrowserRequestModel::AdoptSession {
                session_id: session_id@,
            },
            BrowserToServerMessage::CloseSession {
                session_id,
            } => BrowserRequestModel::CloseSession {
                session_id: session_id@,
            },
            BrowserToServerMessage::DeleteSession {
                session_id,
            } => BrowserRequestModel::DeleteSession {
                session_id: session_id@,
            },
            BrowserToServerMessage::Prompt { session_id, text } => BrowserRequestModel::Prompt {
                session_id: session_id@,
                text: text@,
            },
            BrowserToServerMessage::GetSessionHistory {
                session_id,
                before_seq,
                limit,
            } => BrowserRequestModel::GetSessionHistory {
                session_id: session_id@,
                before_seq: before_seq.deep_view(),
                limit: limit.deep_view(),
            },
            BrowserToServerMessage::ResolvePermission {
                request_id,
                selected_index,
            } => BrowserRequestModel::ResolvePermission {
                request_id: request_id@,
                selected_index: *selected_index,
            },
            BrowserToServerMessage::Ping => BrowserRequestModel::Ping,
        }
    }
}

impl Duplicate for BrowserToServerMessage {
    fn duplicate(&self) -> (r: Self) {
        match self {
            BrowserToServerMessage::ListDevices => BrowserToServerMessage::ListDevices,
            BrowserToServerMessage::ListSessions => BrowserToServerMessage::ListSessions,
            BrowserToServerMessage::CreateSession {
                device_id,
                workspace_id,
            } => BrowserToServerMessage::CreateSession {
                device_id: device_id.clone(),
                workspace_id: workspace_id.clone(),
            },
            BrowserToServerMessage::AdoptSession {
                session_id,
            } => BrowserToServerMessage::AdoptSession {
                session_id: session_id.clone(),
            },
            BrowserToServerMessage::CloseSession {
                session_id,
            } => BrowserToServerMessage::CloseSession {
                session_id: session_id.clone(),
            },
            BrowserToServerMessage::DeleteSession {
                session_id,
            } => BrowserToServerMessage::DeleteSession {
                session_id: session_id.clone(),
            },
            BrowserToServerMessage::Prompt { session_id, text } => BrowserToServerMessage::Prompt {
                session_id: session_id.clone(),
                text: text.clone(),
            },
            BrowserToServerMessage::GetSessionHistory {
                session_id,
                before_seq,
                limit,
            } => BrowserToServerMessage::GetSessionHistory {
                session_id: session_id.clone(),
                before_seq: before_seq.duplicate(),
                limit: limit.duplicate(),
            },
            BrowserToServerMessage::ResolvePermission {
                request_id,
                selected_index,
            } => BrowserToServerMessage::ResolvePermission {
                request_id: request_id.clone(),
                selected_index: *selected_index,
            },
            BrowserToServerMessage::Ping => BrowserToServerMessage::Ping,
        }
    }
}

/// A message from the relay server to a browser.
#[derive(Debug, Clone)]
pub enum ServerToBrowserMessage {
    DeviceList { devices: Vec<DeviceStatusMessage> },
    SessionList { sessions: Vec<RelaySessionSummaryMessage> },
    SessionUpdated { session: RelaySessionSummaryMessage },
    SessionRemoved { session_id: String },
    SessionHistory {
        session_id: String,
        events: Vec<SessionEventMessage>,
        next_before_seq: Option<u64>,
        has_more: bool,
    },
    DeviceStatus { device: DeviceStatusMessage },
    SessionCreated {
        session_id: String,
        device_id: String,
        workspace_id: String,
        workspace_name: String,
    },
    SessionClosed { session_id: String },
    OutputChunk { session_id: String, text: String },
    PromptFinished { session_id: String, stop_reason: String },
    PermissionRequested {
        request_id: String,
        session_id: Option<String>,
        options: Vec<PermissionOptionMessage>,
    },
    Info { message: String },
    Error { session_id: Option<String>, message: String },
}

/// What a [`ServerToBrowserMessage`] says.
#[verifier::ext_equal]
pub enum BrowserReplyModel {
    DeviceList { devices: Seq<DeviceModel> },
    SessionList { sessions: Seq<SummaryModel> },
    SessionUpdated { session: SummaryModel },
    SessionRemoved { session_id: Seq<char> },
    SessionHistory {
        session_id: Seq<char>,
        events: Seq<EventModel>,
        next_before_seq: Option<u64>,
        has_more: bool,
    },
    DeviceStatus { device: DeviceModel },
    SessionCreated {
        session_id: Seq<char>,
        device_id: Seq<char>,
        workspace_id: Seq<char>,
        workspace_name: Seq<char>,
    },
    SessionClosed { session_id: Seq<char> },
    OutputChunk { session_id: Seq<char>, text: Seq<char> },
    PromptFinished { session_id: Seq<char>, stop_reason: Seq<char> },
    PermissionRequested {
        request_id: Seq<char>,
        session_id: Option<Seq<char>>,
        options: Seq<PermissionOptionModel>,
    },
    Info { message: Seq<char> },
    Error { session_id: Option<Seq<char>>, message: Seq<char> },
}

impl DeepView for ServerToBrowserMessage {
    type V = BrowserReplyModel;

    open spec fn deep_view(&self) -> BrowserReplyModel {
        match self {
            ServerToBrowserMessage::DeviceList { devices } => BrowserReplyModel::DeviceList {
                devices: devices.deep_view(),
            },
            ServerToBrowserMessage::SessionList { sessions } => BrowserReplyModel::SessionList {
                sessions: sessions.deep_view(),
            },
            ServerToBrowserMessage::SessionUpdated {
                session,
            } => BrowserReplyModel::SessionUpdated {
                session: session.deep_view(),
            },
            ServerToBrowserMessage::SessionRemoved {
                session_id,
            } => BrowserReplyModel::SessionRemoved {
                session_id: session_id@,
            },
            ServerToBrowserMessage::SessionHistory {
                session_id,
                events,
                next_before_seq,
                has_more,
            } => BrowserReplyModel::SessionHistory {
                session_id: session_id@,
                events: events.deep_view(),
                next_before_seq: next_before_seq.deep_view(),
                has_more: *has_more,
            },
            ServerToBrowserMessage::DeviceStatus { device } => BrowserReplyModel::DeviceStatus {
                device: device.deep_view(),
            },
            ServerToBrowserMessage::SessionCreated {
                session_id,
                device_id,
                workspace_id,
                workspace_name,
            } => BrowserReplyModel::SessionCreated {
                session_id: session_id@,
                device_id: device_id@,
                workspace_id: workspace_id@,
                workspace_name: workspace_name@,
            },
            ServerToBrowserMessage::SessionClosed {
                session_id,
            } => BrowserReplyModel::SessionClosed {
                session_id: session_id@,
            },
            ServerToBrowserMessage::OutputChunk {
                session_id,
                text,
            } => BrowserReplyModel::OutputChunk {
                session_id: session_id@,
                text: text@,
            },
            ServerToBrowserMessage::PromptFinished {
                session_id,
                stop_reason,
            } => BrowserReplyModel::PromptFinished {
                session_id: session_id@,
                stop_reason: stop_reason@,
            },
            ServerToBrowserMessage::PermissionRequested {
                request_id,
                session_id,
                options,
            } => BrowserReplyModel::PermissionRequested {
                request_id: request_id@,
                session_id: session_id.deep_view(),
                options: options.deep_view(),
            },
            ServerToBrowserMessage::Info { message } => BrowserReplyModel::Info {
                message: message@,
            },
            ServerToBrowserMessage::Error { session_id, message } => BrowserReplyModel::Error {
                session_id: session_id.deep_view(),
                message: message@,
            },
        }
    }
}

impl Duplicate for ServerToBrowserMessage {
    fn duplicate(&self) -> (r: Self) {
        match self {
            ServerToBrowserMessage::DeviceList { devices } => ServerToBrowserMessage::DeviceList {
                devices: devices.duplicate(),
            },
            ServerToBrowserMessage::SessionList {
                sessions,
            } => ServerToBrowserMessage::SessionList {
                sessions: sessions.duplicate(),
            },
            ServerToBrowserMessage::SessionUpdated {
                session,
            } => ServerToBrowserMessage::SessionUpdated {
                session: session.duplicate(),
            },
            ServerToBrowserMessage::SessionRemoved {
                session_id,
            } => ServerToBrowserMessage::SessionRemoved {
                session_id: session_id.clone(),
            },
            ServerToBrowserMessage::SessionHistory {
                session_id,
                events,
                next_before_seq,
                has_more,
            } => ServerToBrowserMessage::SessionHistory {
                session_id: session_id.clone(),
                events: events.duplicate(),
                next_before_seq: next_before_seq.duplicate(),
                has_more: *has_more,
            },
            ServerToBrowserMessage::DeviceStatus {
                device,
            } => ServerToBrowserMessage::DeviceStatus {
                device: device.duplicate(),
            },
            ServerToBrowserMessage::SessionCreated {
                session_id,
                device_id,
                workspace_id,
                workspace_name,
            } => ServerToBrowserMessage::SessionCreated {
                session_id: session_id.clone(),
                device_id: device_id.clone(),
                workspace_id: workspace_id.clone(),
                workspace_name: workspace_name.clone(),
            },
            ServerToBrowserMessage::SessionClosed {
                session_id,
            } => ServerToBrowserMessage::SessionClosed {
                session_id: session_id.clone(),
            },
            ServerToBrowserMessage::OutputChunk {
                session_id,
                text,
            } => ServerToBrowserMessage::OutputChunk {
                session_id: session_id.clone(),
                text: text.clone(),
            },
            ServerToBrowserMessage::PromptFinished {
                session_id,
                stop_reason,
            } => ServerToBrowserMessage::PromptFinished {
                session_id: session_id.clone(),
                stop_reason: stop_reason.clone(),
            },
            ServerToBrowserMessage::PermissionRequested {
                request_id,
                session_id,
                options,
            } => ServerToBrowserMessage::PermissionRequested {
                request_id: request_id.clone(),
                session_id: session_id.duplicate(),
                options: options.duplicate(),
            },
            ServerToBrowserMessage::Info { message } => ServerToBrowserMessage::Info {
                message: message.clone(),
            },
            ServerToBrowserMessage::Error { session_id, message } => ServerToBrowserMessage::Error {
                session_id: session_id.duplicate(),
                message: message.clone(),
            },
        }
    }
}

} // verus!
