//! What passes between the home-client runtime and its transport.
use crate::duplicate::Duplicate;
use crate::protocol::{PermissionOptionModel, WorkspaceModel};
use vstd::prelude::*;

verus! {

/// A workspace as a transport shows it.
#[derive(Debug, Clone)]
pub struct WorkspaceView {
    pub workspace_id: String,
    pub workspace_name: String,
}

impl DeepView for WorkspaceView {
    type V = WorkspaceModel;

    open spec fn deep_view(&self) -> WorkspaceModel {
        WorkspaceModel {
            workspace_id: self.workspace_id@,
            workspace_name: self.workspace_name@,
        }
    }
}

impl Duplicate for WorkspaceView {
    fn duplicate(&self) -> (r: Self) {
        WorkspaceView {
            workspace_id: self.workspace_id.clone(),
            workspace_name: self.workspace_name.clone(),
        }
    }
}

/// A command that a transport hands to the runtime.
#[derive(Debug, Clone)]
pub enum HomeClientCommand {
    CreateSession { session_id: Option<String>, workspace_id: Option<String> },
    ResumeSession { session_id: String, client_session_id: String, workspace_id: String },
    Prompt { session_id: Option<String>, text: String, create_session_if_missing: bool },
    ResolvePermission { request_id: String, selected_index: usize },
    CancelSession { session_id: String },
    Exit,
}

/// What a [`HomeClientCommand`] says.
#[verifier::ext_equal]
pub enum CommandModel {
    CreateSession { session_id: Option<Seq<char>>, workspace_id: Option<Seq<char>> },
    ResumeSession { session_id: Seq<char>, client_session_id: Seq<char>, workspace_id: Seq<char> },
    Prompt { session_id: Option<Seq<char>>, text: Seq<char>, create_session_if_missing: bool },
    ResolvePermission { request_id: Seq<char>, selected_index: usize },
    CancelSession { session_id: Seq<char> },
    Exit,
}

impl DeepView for HomeClientCommand {
    type V = CommandModel;

    open spec fn deep_view(&self) -> CommandModel {
        match self {
            HomeClientCommand::CreateSession {
                session_id,
                workspace_id,
            } => CommandModel::CreateSession {
                session_id: session_id.deep_view(),
                workspace_id: workspace_id.deep_view(),
            },
            HomeClientCommand::ResumeSession {
                session_id,
                client_session_id,
                workspace_id,
            } => CommandModel::ResumeSession {
                session_id: session_id@,
                client_session_id: client_session_id@,
                workspace_id: workspace_id@,
            },
            HomeClientCommand::Prompt {
                session_id,
                text,
                create_session_if_missing,
            } => CommandModel::Prompt {
                session_id: session_id.deep_view(),
                text: text@,
                create_session_if_missing: *create_session_if_missing,
            },
            HomeClientCommand::ResolvePermission {
                request_id,
                selected_index,
            } => CommandModel::ResolvePermission {
                request_id: request_id@,
                selected_index: *selected_index,
            },
            HomeClientCommand::CancelSession { session_id } => CommandModel::CancelSession {
                session_id: session_id@,
            },
            HomeClientCommand::Exit => CommandModel::Exit,
        }
    }
}

impl Duplicate for HomeClientCommand {
    fn duplicate(&self) -> (r: Self) {
        match self {
            HomeClientCommand::CreateSession {
                session_id,
                workspace_id,
            } => HomeClientCommand::CreateSession {
                session_id: session_id.duplicate(),
                workspace_id: workspace_id.duplicate(),
            },
            HomeClientCommand::ResumeSession {
                session_id,
                client_session_id,
                workspace_id,
            } => HomeClientCommand::ResumeSession {
                session_id: session_id.clone(),
                client_session_id: client_session_id.clone(),
                workspace_id: workspace_id.clone(),
            },
            HomeClientCommand::Prompt {
                session_id,
                text,
                create_session_if_missing,
            } => HomeClientCommand::Prompt {
                session_id: session_id.duplicate(),
                text: text.clone(),
                create_session_if_missing: *create_session_if_missing,
            },
            HomeClientCommand::ResolvePermission {
                request_id,
                selected_index,
            } => HomeClientCommand::ResolvePermission {
                request_id: request_id.clone(),
                selected_index: *selected_index,
            },
            HomeClientCommand::CancelSession { session_id } => HomeClientCommand::CancelSession {
                session_id: session_id.clone(),
            },
            HomeClientCommand::Exit => HomeClientCommand::Exit,
        }
    }
}

/// One choice of a permission request, as a transport shows it.
#[derive(Debug, Clone)]
pub struct PermissionOptionView {
    pub index: usize,
    pub name: String,
    pub kind: String,
}

impl DeepView for PermissionOptionView {
    type V = PermissionOptionModel;

    open spec fn deep_view(&self) -> PermissionOptionModel {
        PermissionOptionModel {
            index: self.index,
            name: self.name@,
            kind: self.kind@,
        }
    }
}

impl Duplicate for PermissionOptionView {
    fn duplicate(&self) -> (r: Self) {
        PermissionOptionView {
            index: self.index,
            name: self.name.clone(),
            kind: self.kind.clone(),
        }
    }
}

/// An event that the runtime hands to a transport.
#[derive(Debug, Clone)]
pub enum HomeClientEvent {
    Ready { agent_name: String, workspaces: Vec<WorkspaceView> },
    Info { message: String },
    SessionCreated {
        session_id: String,
        client_session_id: String,
        workspace_id: String,
        workspace_name: String,
    },
    SessionResumed { session_id: String, client_session_id: String },
    SessionResumeFailed { session_id: String, client_session_id: String, message: String },
    OutputChunk { session_id: String, text: String },
    PromptFinished { session_id: String, stop_reason: String },
    PermissionRequested {
        request_id: String,
        session_id: Option<String>,
        options: Vec<PermissionOptionView>,
    },
    Error { message: String },
}

/// What a [`HomeClientEvent`] says.
#[verifier::ext_equal]
pub enum HomeEventModel {
    Ready { agent_name: Seq<char>, workspaces: Seq<WorkspaceModel> },
    Info { message: Seq<char> },
    SessionCreated {
        session_id: Seq<char>,
        client_session_id: Seq<char>,
        workspace_id: Seq<char>,
        workspace_name: Seq<char>,
    },
    SessionResumed { session_id: Seq<char>, client_session_id: Seq<char> },
    SessionResumeFailed { session_id: Seq<char>, client_session_id: Seq<char>, message: Seq<char> },
    OutputChunk { session_id: Seq<char>, text: Seq<char> },
    PromptFinished { session_id: Seq<char>, stop_reason: Seq<char> },
    PermissionRequested {
        request_id: Seq<char>,
        session_id: Option<Seq<char>>,
        options: Seq<PermissionOptionModel>,
    },
    Error { message: Seq<char> },
}

impl DeepView for HomeClientEvent {
    type V = HomeEventModel;

    open spec fn deep_view(&self) -> HomeEventModel {
        match self {
            HomeClientEvent::Ready { agent_name, workspaces } => HomeEventModel::Ready {
                agent_name: agent_name@,
                workspaces: workspaces.deep_view(),
            },
            HomeClientEvent::Info { message } => HomeEventModel::Info {
                message: message@,
            },
            HomeClientEvent::SessionCreated {
                session_id,
                client_session_id,
                workspace_id,
                workspace_name,
            } => HomeEventModel::SessionCreated {
                session_id: session_id@,
                client_session_id: client_session_id@,
                workspace_id: workspace_id@,
                workspace_name: workspace_name@,
            },
            HomeClientEvent::SessionResumed {
                session_id,
                client_session_id,
            } => HomeEventModel::SessionResumed {
                session_id: session_id@,
                client_session_id: client_session_id@,
            },
            HomeClientEvent::SessionResumeFailed {
                session_id,
                client_session_id,
                message,
            } => HomeEventModel::SessionResumeFailed {
                session_id: session_id@,
                client_session_id: client_session_id@,
                message: message@,
            },
            HomeClientEvent::OutputChunk { session_id, text } => HomeEventModel::OutputChunk {
                session_id: session_id@,
                text: text@,
            },
            HomeClientEvent::PromptFinished {
                session_id,
                stop_reason,
            } => HomeEventModel::PromptFinished {
                session_id: session_id@,
                stop_reason: stop_reason@,
            },
            HomeClientEvent::PermissionRequested {
                request_id,
                session_id,
                options,
            } => HomeEventModel::PermissionRequested {
                request_id: request_id@,
                session_id: session_id.deep_view(),
                options: options.deep_view(),
            },
            HomeClientEvent::Error { message } => HomeEventModel::Error {
                message: message@,
            },
        }
    }
}

impl Duplicate for HomeClientEvent {
    fn duplicate(&self) -> (r: Self) {
        match self {
            HomeClientEvent::Ready { agent_name, workspaces } => HomeClientEvent::Ready {
                agent_name: agent_name.clone(),
                workspaces: workspaces.duplicate(),
            },
            HomeClientEvent::Info { message } => HomeClientEvent::Info {
                message: message.clone(),
            },
            HomeClientEvent::SessionCreated {
                session_id,
                client_session_id,
                workspace_id,
                workspace_name,
            } => HomeClientEvent::SessionCreated {
                session_id: session_id.clone(),
                client_session_id: client_session_id.clone(),
                workspace_id: workspace_id.clone(),
                workspace_name: workspace_name.clone(),
            },
            HomeClientEvent::SessionResumed {
                session_id,
                client_session_id,
            } => HomeClientEvent::SessionResumed {
                session_id: session_id.clone(),
                client_session_id: client_session_id.clone(),
            },
            HomeClientEvent::SessionResumeFailed {
                session_id,
                client_session_id,
                message,
            } => HomeClientEvent::SessionResumeFailed {
                session_id: session_id.clone(),
                client_session_id: client_session_id.clone(),
                message: message.clone(),
            },
            HomeClientEvent::OutputChunk { session_id, text } => HomeClientEvent::OutputChunk {
                session_id: session_id.clone(),
                text: text.clone(),
            },
            HomeClientEvent::PromptFinished {
                session_id,
                stop_reason,
            } => HomeClientEvent::PromptFinished {
                session_id: session_id.clone(),
                stop_reason: stop_reason.clone(),
            },
            HomeClientEvent::PermissionRequested {
                request_id,
                session_id,
                options,
            } => HomeClientEvent::PermissionRequested {
                request_id: request_id.clone(),
                session_id: session_id.duplicate(),
                options: options.duplicate(),
            },
            HomeClientEvent::Error { message } => HomeClientEvent::Error {
                message: message.clone(),
            },
        }
    }
}

} // verus!
