//! What is said of a value says all of it: two values of which the same is said
//! agree in every part.
use crate::protocol::{
    BrowserToServerMessage, ClientToServerMessage, DeviceStatusMessage, PermissionOptionMessage,
    RelaySessionSummaryMessage, ServerToBrowserMessage, ServerToClientMessage,
    SessionEventMessage, WorkspaceSummaryMessage,
};
use crate::relay_server::state::{Delivery, PendingPermission, RelaySession};
use crate::relay_state::PersistedRelaySession;
use crate::runtime::{InternalEvent, RuntimeAction};
use crate::types::{HomeClientCommand, HomeClientEvent};
use vstd::prelude::*;

verus! {

/// Two values of [`ClientToServerMessage`] of which the same is said agree in every part.
pub proof fn law_client_to_server_message_says_all(
    a: ClientToServerMessage,
    b: ClientToServerMessage,
)
    requires
        a.deep_view() == b.deep_view(),
    ensures
        match (a, b) {
            (
                ClientToServerMessage::Hello {
                    device_id,
                    device_name,
                    client_version,
                    capabilities,
                    workspaces,
                    auth_token,
                },
                ClientToServerMessage::Hello {
                    device_id: device_id2,
                    device_name: device_name2,
                    client_version: client_version2,
                    capabilities: capabilities2,
                    workspaces: workspaces2,
                    auth_token: auth_token2,
                },
            ) => {
                &&& device_id.deep_view() == device_id2.deep_view()
                &&& device_name.deep_view() == device_name2.deep_view()
                &&& client_version.deep_view() == client_version2.deep_view()
                &&& capabilities.deep_view() == capabilities2.deep_view()
                &&& workspaces.deep_view() == workspaces2.deep_view()
                &&& auth_token.deep_view() == auth_token2.deep_view()
            },
            (
                ClientToServerMessage::Ready { agent_name },
                ClientToServerMessage::Ready { agent_name: agent_name2 },
            ) => agent_name.deep_view() == agent_name2.deep_view(),
            (
                ClientToServerMessage::Info { message },
                ClientToServerMessage::Info { message: message2 },
            ) => message.deep_view() == message2.deep_view(),
            (
                ClientToServerMessage::SessionCreated {
                    session_id,
                    client_session_id,
                    workspace_id,
                    workspace_name,
                },
                ClientToServerMessage::SessionCreated {
                    session_id: session_id2,
                    client_session_id: client_session_id2,
                    workspace_id: workspace_id2,
                    workspace_name: workspace_name2,
                },
            ) => {
                &&& session_id.deep_view() == session_id2.deep_view()
                &&& client_session_id.deep_view() == client_session_id2.deep_view()
                &&& workspace_id.deep_view() == workspace_id2.deep_view()
                &&& workspace_name.deep_view() == workspace_name2.deep_view()
            },
            (
                ClientToServerMessage::SessionResumed { session_id, client_session_id },
                ClientToServerMessage::SessionResumed {
                    session_id: session_id2,
                    client_session_id: client_session_id2,
                },
            ) => {
                &&& session_id.deep_view() == session_id2.deep_view()
                &&& client_session_id.deep_view() == client_session_id2.deep_view()
            },
            (
                ClientToServerMessage::SessionResumeFailed {
                    session_id,
                    client_session_id,
                    message,
                },
                ClientToServerMessage::SessionResumeFailed {
                    session_id: session_id2,
                    client_session_id: client_session_id2,
                    message: message2,
                },
            ) => {
                &&& session_id.deep_view() == session_id2.deep_view()
                &&& client_session_id.deep_view() == client_session_id2.deep_view()
                &&& message.deep_view() == message2.deep_view()
            },
            (
                ClientToServerMessage::OutputChunk { session_id, text },
                ClientToServerMessage::OutputChunk { session_id: session_id2, text: text2 },
            ) => {
                &&& session_id.deep_view() == session_id2.deep_view()
                &&& text.deep_view() == text2.deep_view()
            },
            (
                ClientToServerMessage::PromptFinished { session_id, stop_reason },
                ClientToServerMessage::PromptFinished {
                    session_id: session_id2,
                    stop_reason: stop_reason2,
                },
            ) => {
                &&& session_id.deep_view() == session_id2.deep_view()
                &&& stop_reason.deep_view() == stop_reason2.deep_view()
            },
            (
                ClientToServerMessage::PermissionRequested { request_id, session_id, options },
                ClientToServerMessage::PermissionRequested {
                    request_id: request_id2,
                    session_id: session_id2,
                    options: options2,
                },
            ) => {
                &&& request_id.deep_view() == request_id2.deep_view()
                &&& session_id.deep_view() == session_id2.deep_view()
                &&& options.deep_view() == options2.deep_view()
            },
            (
                ClientToServerMessage::Error { message },
                ClientToServerMessage::Error { message: message2 },
            ) => message.deep_view() == message2.deep_view(),
            _ => false,
        },
{
}

/// Two values of [`ServerToClientMessage`] of which the same is said agree in every part.
pub proof fn law_server_to_client_message_says_all(
    a: ServerToClientMessage,
    b: ServerToClientMessage,
)
    requires
        a.deep_view() == b.deep_view(),
    ensures
        match (a, b) {
            (
                ServerToClientMessage::CreateSession { session_id, workspace_id },
                ServerToClientMessage::CreateSession {
                    session_id: session_id2,
                    workspace_id: workspace_id2,
                },
            ) => {
                &&& session_id.deep_view() == session_id2.deep_view()
                &&& workspace_id.deep_view() == workspace_id2.deep_view()
            },
            (
                ServerToClientMessage::ResumeSession {
                    session_id,
                    client_session_id,
                    workspace_id,
                },
                ServerToClientMessage::ResumeSession {
                    session_id: session_id2,
                    client_session_id: client_session_id2,
                    workspace_id: workspace_id2,
                },
            ) => {
                &&& session_id.deep_view() == session_id2.deep_view()
                &&& client_session_id.deep_view() == client_session_id2.deep_view()
                &&& workspace_id.deep_view() == workspace_id2.deep_view()
            },
            (
                ServerToClientMessage::Prompt { session_id, text, create_session_if_missing },
                ServerToClientMessage::Prompt {
                    session_id: session_id2,
                    text: text2,
                    create_session_if_missing: create_session_if_missing2,
                },
            ) => {
                &&& session_id.deep_view() == session_id2.deep_view()
                &&& text.deep_view() == text2.deep_view()
                &&& create_session_if_missing.deep_view() == create_session_if_missing2.deep_view()
            },
            (
                ServerToClientMessage::ResolvePermission { request_id, selected_index },
                ServerToClientMessage::ResolvePermission {
                    request_id: request_id2,
                    selected_index: selected_index2,
                },
            ) => {
                &&& request_id.deep_view() == request_id2.deep_view()
                &&& selected_index.deep_view() == selected_index2.deep_view()
            },
            (
                ServerToClientMessage::CancelSession { session_id },
                ServerToClientMessage::CancelSession { session_id: session_id2 },
            ) => session_id.deep_view() == session_id2.deep_view(),
            (ServerToClientMessage::Ping, ServerToClientMessage::Ping) => true,
            (ServerToClientMessage::Shutdown, ServerToClientMessage::Shutdown) => true,
            _ => false,
        },
{
}

/// Two values of [`BrowserToServerMessage`] of which the same is said agree in every part.
pub proof fn law_browser_to_server_message_says_all(
    a: BrowserToServerMessage,
    b: BrowserToServerMessage,
)
    requires
        a.deep_view() == b.deep_view(),
    ensures
        match (a, b) {
            (BrowserToServerMessage::ListDevices, BrowserToServerMessage::ListDevices) => true,
            (BrowserToServerMessage::ListSessions, BrowserToServerMessage::ListSessions) => true,
            (
                BrowserToServerMessage::CreateSession { device_id, workspace_id },
                BrowserToServerMessage::CreateSession {
                    device_id: device_id2,
                    workspace_id: workspace_id2,
                },
            ) => {
                &&& device_id.deep_view() == device_id2.deep_view()
                &&& workspace_id.deep_view() == workspace_id2.deep_view()
            },
            (
                BrowserToServerMessage::AdoptSession { session_id },
                BrowserToServerMessage::AdoptSession { session_id: session_id2 },
            ) => session_id.deep_view() == session_id2.deep_view(),
            (
                BrowserToServerMessage::CloseSession { session_id },
                BrowserToServerMessage::CloseSession { session_id: session_id2 },
            ) => session_id.deep_view() == session_id2.deep_view(),
            (
                BrowserToServerMessage::DeleteSession { session_id },
                BrowserToServerMessage::DeleteSession { session_id: session_id2 },
            ) => session_id.deep_view() == session_id2.deep_view(),
            (
                BrowserToServerMessage::Prompt { session_id, text },
                BrowserToServerMessage::Prompt { session_id: session_id2, text: text2 },
            ) => {
                &&& session_id.deep_view() == session_id2.deep_view()
                &&& text.deep_view() == text2.deep_view()
            },
            (
                BrowserToServerMessage::GetSessionHistory { session_id, before_seq, limit },
                BrowserToServerMessage::GetSessionHistory {
                    session_id: session_id2,
                    before_seq: before_seq2,
                    limit: limit2,
                },
            ) => {
                &&& session_id.deep_view() == session_id2.deep_view()
                &&& before_seq.deep_view() == before_seq2.deep_view()
                &&& limit.deep_view() == limit2.deep_view()
            },
            (
                BrowserToServerMessage::ResolvePermission { request_id, selected_index },
                BrowserToServerMessage::ResolvePermission {
                    request_id: request_id2,
                    selected_index: selected_index2,
                },
            ) => {
                &&& request_id.deep_view() == request_id2.deep_view()
                &&& selected_index.deep_view() == selected_index2.deep_view()
            },
            (BrowserToServerMessage::Ping, BrowserToServerMessage::Ping) => true,
            _ => false,
        },
{
}

/// Two values of [`ServerToBrowserMessage`] of which the same is said agree in every part.
pub proof fn law_server_to_browser_message_says_all(
    a: ServerToBrowserMessage,
    b: ServerToBrowserMessage,
)
    requires
        a.deep_view() == b.deep_view(),
    ensures
        match (a, b) {
            (
                ServerToBrowserMessage::DeviceList { devices },
                ServerToBrowserMessage::DeviceList { devices: devices2 },
            ) => devices.deep_view() == devices2.deep_view(),
            (
                ServerToBrowserMessage::SessionList { sessions },
                ServerToBrowserMessage::SessionList { sessions: sessions2 },
            ) => sessions.deep_view() == sessions2.deep_view(),
            (
                ServerToBrowserMessage::SessionUpdated { session },
                ServerToBrowserMessage::SessionUpdated { session: session2 },
            ) => session.deep_view() == session2.deep_view(),
            (
                ServerToBrowserMessage::SessionRemoved { session_id },
                ServerToBrowserMessage::SessionRemoved { session_id: session_id2 },
            ) => session_id.deep_view() == session_id2.deep_view(),
            (
                ServerToBrowserMessage::SessionHistory {
                    session_id,
                    events,
                    next_before_seq,
                    has_more,
                },
                ServerToBrowserMessage::SessionHistory {
                    session_id: session_id2,
                    events: events2,
                    next_before_seq: next_before_seq2,
                    has_more: has_more2,
                },
            ) => {
                &&& session_id.deep_view() == session_id2.deep_view()
                &&& events.deep_view() == events2.deep_view()
                &&& next_before_seq.deep_view() == next_before_seq2.deep_view()
                &&& has_more.deep_view() == has_more2.deep_view()
            },
            (
                ServerToBrowserMessage::DeviceStatus { device },
                ServerToBrowserMessage::DeviceStatus { device: device2 },
            ) => device.deep_view() == device2.deep_view(),
            (
                ServerToBrowserMessage::SessionCreated {
                    session_id,
                    device_id,
                    workspace_id,
                    workspace_name,
                },
                ServerToBrowserMessage::SessionCreated {
                    session_id: session_id2,
                    device_id: device_id2,
                    workspace_id: workspace_id2,
                    workspace_name: workspace_name2,
                },
            ) => {
                &&& session_id.deep_view() == session_id2.deep_view()
                &&& device_id.deep_view() == device_id2.deep_view()
                &&& workspace_id.deep_view() == workspace_id2.deep_view()
                &&& workspace_name.deep_view() == workspace_name2.deep_view()
            },
            (
                ServerToBrowserMessage::SessionClosed { session_id },
                ServerToBrowserMessage::SessionClosed { session_id: session_id2 },
            ) => session_id.deep_view() == session_id2.deep_view(),
            (
                ServerToBrowserMessage::OutputChunk { session_id, text },
                ServerToBrowserMessage::OutputChunk { session_id: session_id2, text: text2 },
            ) => {
                &&& session_id.deep_view() == session_id2.deep_view()
                &&& text.deep_view() == text2.deep_view()
            },
            (
                ServerToBrowserMessage::PromptFinished { session_id, stop_reason },
                ServerToBrowserMessage::PromptFinished {
                    session_id: session_id2,
                    stop_reason: stop_reason2,
                },
            ) => {
                &&& session_id.deep_view() == session_id2.deep_view()
                &&& stop_reason.deep_view() == stop_reason2.deep_view()
            },
            (
                ServerToBrowserMessage::PermissionRequested { request_id, session_id, options },
                ServerToBrowserMessage::PermissionRequested {
                    request_id: request_id2,
                    session_id: session_id2,
                    options: options2,
                },
            ) => {
                &&& request_id.deep_view() == request_id2.deep_view()
                &&& session_id.deep_view() == session_id2.deep_view()
                &&& options.deep_view() == options2.deep_view()
            },
            (
                ServerToBrowserMessage::Info { message },
                ServerToBrowserMessage::Info { message: message2 },
            ) => message.deep_view() == message2.deep_view(),
            (
                ServerToBrowserMessage::Error { session_id, message },
                ServerToBrowserMessage::Error { session_id: session_id2, message: message2 },
            ) => {
                &&& session_id.deep_view() == session_id2.deep_view()
                &&& message.deep_view() == message2.deep_view()
            },
            _ => false,
        },
{
}

/// Two values of [`DeviceStatusMessage`] of which the same is said agree in every part.
pub proof fn law_device_status_message_says_all(
    a: DeviceStatusMessage,
    b: DeviceStatusMessage,
)
    requires
        a.deep_view() == b.deep_view(),
    ensures
        a.device_id.deep_view() == b.device_id.deep_view(),
        a.device_name.deep_view() == b.device_name.deep_view(),
        a.connected.deep_view() == b.connected.deep_view(),
        a.workspaces.deep_view() == b.workspaces.deep_view(),
{
}

/// Two values of [`RelaySessionSummaryMessage`] of which the same is said agree in every part.
pub proof fn law_relay_session_summary_message_says_all(
    a: RelaySessionSummaryMessage,
    b: RelaySessionSummaryMessage,
)
    requires
        a.deep_view() == b.deep_view(),
    ensures
        a.session_id.deep_view() == b.session_id.deep_view(),
        a.device_id.deep_view() == b.device_id.deep_view(),
        a.status.deep_view() == b.status.deep_view(),
        a.owner_user_id.deep_view() == b.owner_user_id.deep_view(),
        a.workspace_id.deep_view() == b.workspace_id.deep_view(),
        a.workspace_name.deep_view() == b.workspace_name.deep_view(),
        a.created_at.deep_view() == b.created_at.deep_view(),
        a.updated_at.deep_view() == b.updated_at.deep_view(),
{
}

/// Two values of [`SessionEventMessage`] of which the same is said agree in every part.
pub proof fn law_session_event_message_says_all(
    a: SessionEventMessage,
    b: SessionEventMessage,
)
    requires
        a.deep_view() == b.deep_view(),
    ensures
        a.seq.deep_view() == b.seq.deep_view(),
        a.seq_end.deep_view() == b.seq_end.deep_view(),
        a.session_id.deep_view() == b.session_id.deep_view(),
        a.timestamp.deep_view() == b.timestamp.deep_view(),
        a.kind.deep_view() == b.kind.deep_view(),
        a.text.deep_view() == b.text.deep_view(),
        a.stop_reason.deep_view() == b.stop_reason.deep_view(),
        a.request_id.deep_view() == b.request_id.deep_view(),
        a.options.deep_view() == b.options.deep_view(),
{
}

/// Two values of [`WorkspaceSummaryMessage`] of which the same is said agree in every part.
pub proof fn law_workspace_summary_message_says_all(
    a: WorkspaceSummaryMessage,
    b: WorkspaceSummaryMessage,
)
    requires
        a.deep_view() == b.deep_view(),
    ensures
        a.workspace_id.deep_view() == b.workspace_id.deep_view(),
        a.workspace_name.deep_view() == b.workspace_name.deep_view(),
{
}

/// Two values of [`PermissionOptionMessage`] of which the same is said agree in every part.
pub proof fn law_permission_option_message_says_all(
    a: PermissionOptionMessage,
    b: PermissionOptionMessage,
)
    requires
        a.deep_view() == b.deep_view(),
    ensures
        a.index.deep_view() == b.index.deep_view(),
        a.name.deep_view() == b.name.deep_view(),
        a.kind.deep_view() == b.kind.deep_view(),
{
}

/// Two values of [`HomeClientEvent`] of which the same is said agree in every part.
pub proof fn law_home_client_event_says_all(
    a: HomeClientEvent,
    b: HomeClientEvent,
)
    requires
        a.deep_view() == b.deep_view(),
    ensures
        match (a, b) {
            (
                HomeClientEvent::Ready { agent_name, workspaces },
                HomeClientEvent::Ready { agent_name: agent_name2, workspaces: workspaces2 },
            ) => {
                &&& agent_name.deep_view() == agent_name2.deep_view()
                &&& workspaces.deep_view() == workspaces2.deep_view()
            },
            (HomeClientEvent::Info { message }, HomeClientEvent::Info { message: message2 }) => {
                message.deep_view() == message2.deep_view()
            },
            (
                HomeClientEvent::SessionCreated {
                    session_id,
                    client_session_id,
                    workspace_id,
                    workspace_name,
                },
                HomeClientEvent::SessionCreated {
                    session_id: session_id2,
                    client_session_id: client_session_id2,
                    workspace_id: workspace_id2,
                    workspace_name: workspace_name2,
                },
            ) => {
                &&& session_id.deep_view() == session_id2.deep_view()
                &&& client_session_id.deep_view() == client_session_id2.deep_view()
                &&& workspace_id.deep_view() == workspace_id2.deep_view()
                &&& workspace_name.deep_view() == workspace_name2.deep_view()
            },
            (
                HomeClientEvent::SessionResumed { session_id, client_session_id },
                HomeClientEvent::SessionResumed {
                    session_id: session_id2,
                    client_session_id: client_session_id2,
                },
            ) => {
                &&& session_id.deep_view() == session_id2.deep_view()
                &&& client_session_id.deep_view() == client_session_id2.deep_view()
            },
            (
                HomeClientEvent::SessionResumeFailed { session_id, client_session_id, message },
                HomeClientEvent::SessionResumeFailed {
                    session_id: session_id2,
                    client_session_id: client_session_id2,
                    message: message2,
                },
            ) => {
                &&& session_id.deep_view() == session_id2.deep_view()
                &&& client_session_id.deep_view() == client_session_id2.deep_view()
                &&& message.deep_view() == message2.deep_view()
            },
            (
                HomeClientEvent::OutputChunk { session_id, text },
                HomeClientEvent::OutputChunk { session_id: session_id2, text: text2 },
            ) => {
                &&& session_id.deep_view() == session_id2.deep_view()
                &&& text.deep_view() == text2.deep_view()
            },
            (
                HomeClientEvent::PromptFinished { session_id, stop_reason },
                HomeClientEvent::PromptFinished {
                    session_id: session_id2,
                    stop_reason: stop_reason2,
                },
            ) => {
                &&& session_id.deep_view() == session_id2.deep_view()
                &&& stop_reason.deep_view() == stop_reason2.deep_view()
            },
            (
                HomeClientEvent::PermissionRequested { request_id, session_id, options },
                HomeClientEvent::PermissionRequested {
                    request_id: request_id2,
                    session_id: session_id2,
                    options: options2,
                },
            ) => {
                &&& request_id.deep_view() == request_id2.deep_view()
                &&& session_id.deep_view() == session_id2.deep_view()
                &&& options.deep_view() == options2.deep_view()
            },
            (HomeClientEvent::Error { message }, HomeClientEvent::Error { message: message2 }) => {
                message.deep_view() == message2.deep_view()
            },
            _ => false,
        },
{
}

/// Two values of [`HomeClientCommand`] of which the same is said agree in every part.
pub proof fn law_home_client_command_says_all(
    a: HomeClientCommand,
    b: HomeClientCommand,
)
    requires
        a.deep_view() == b.deep_view(),
    ensures
        match (a, b) {
            (
                HomeClientCommand::CreateSession { session_id, workspace_id },
                HomeClientCommand::CreateSession {
                    session_id: session_id2,
                    workspace_id: workspace_id2,
                },
            ) => {
                &&& session_id.deep_view() == session_id2.deep_view()
                &&& workspace_id.deep_view() == workspace_id2.deep_view()
            },
            (
                HomeClientCommand::ResumeSession { session_id, client_session_id, workspace_id },
                HomeClientCommand::ResumeSession {
                    session_id: session_id2,
                    client_session_id: client_session_id2,
                    workspace_id: workspace_id2,
                },
            ) => {
                &&& session_id.deep_view() == session_id2.deep_view()
                &&& client_session_id.deep_view() == client_session_id2.deep_view()
                &&& workspace_id.deep_view() == workspace_id2.deep_view()
            },
            (
                HomeClientCommand::Prompt { session_id, text, create_session_if_missing },
                HomeClientCommand::Prompt {
                    session_id: session_id2,
                    text: text2,
                    create_session_if_missing: create_session_if_missing2,
                },
            ) => {
                &&& session_id.deep_view() == session_id2.deep_view()
                &&& text.deep_view() == text2.deep_view()
                &&& create_session_if_missing.deep_view() == create_session_if_missing2.deep_view()
            },
            (
                HomeClientCommand::ResolvePermission { request_id, selected_index },
                HomeClientCommand::ResolvePermission {
                    request_id: request_id2,
                    selected_index: selected_index2,
                },
            ) => {
                &&& request_id.deep_view() == request_id2.deep_view()
                &&& selected_index.deep_view() == selected_index2.deep_view()
            },
            (
                HomeClientCommand::CancelSession { session_id },
                HomeClientCommand::CancelSession { session_id: session_id2 },
            ) => session_id.deep_view() == session_id2.deep_view(),
            (HomeClientCommand::Exit, HomeClientCommand::Exit) => true,
            _ => false,
        },
{
}

/// Two values of [`RuntimeAction`] of which the same is said agree in every part.
pub proof fn law_runtime_action_says_all(
    a: RuntimeAction,
    b: RuntimeAction,
)
    requires
        a.deep_view() == b.deep_view(),
    ensures
        match (a, b) {
            (RuntimeAction::Publish { event }, RuntimeAction::Publish { event: event2 }) => {
                event.deep_view() == event2.deep_view()
            },
            (
                RuntimeAction::OpenSession { workspace, purpose },
                RuntimeAction::OpenSession { workspace: workspace2, purpose: purpose2 },
            ) => {
                &&& workspace.deep_view() == workspace2.deep_view()
                &&& purpose.deep_view() == purpose2.deep_view()
            },
            (
                RuntimeAction::LoadSession { session_id, client_session_id, path },
                RuntimeAction::LoadSession {
                    session_id: session_id2,
                    client_session_id: client_session_id2,
                    path: path2,
                },
            ) => {
                &&& session_id.deep_view() == session_id2.deep_view()
                &&& client_session_id.deep_view() == client_session_id2.deep_view()
                &&& path.deep_view() == path2.deep_view()
            },
            (
                RuntimeAction::RunPrompt { session_ref, agent_session_id, text },
                RuntimeAction::RunPrompt {
                    session_ref: session_ref2,
                    agent_session_id: agent_session_id2,
                    text: text2,
                },
            ) => {
                &&& session_ref.deep_view() == session_ref2.deep_view()
                &&& agent_session_id.deep_view() == agent_session_id2.deep_view()
                &&& text.deep_view() == text2.deep_view()
            },
            (
                RuntimeAction::AnswerPermission { request_id, selected_index },
                RuntimeAction::AnswerPermission {
                    request_id: request_id2,
                    selected_index: selected_index2,
                },
            ) => {
                &&& request_id.deep_view() == request_id2.deep_view()
                &&& selected_index.deep_view() == selected_index2.deep_view()
            },
            (
                RuntimeAction::CancelPrompt { agent_session_id },
                RuntimeAction::CancelPrompt { agent_session_id: agent_session_id2 },
            ) => agent_session_id.deep_view() == agent_session_id2.deep_view(),
            (RuntimeAction::Stop, RuntimeAction::Stop) => true,
            _ => false,
        },
{
}

/// Two values of [`InternalEvent`] of which the same is said agree in every part.
pub proof fn law_internal_event_says_all(
    a: InternalEvent,
    b: InternalEvent,
)
    requires
        a.deep_view() == b.deep_view(),
    ensures
        match (a, b) {
            (
                InternalEvent::OutputChunk { session_id, text },
                InternalEvent::OutputChunk { session_id: session_id2, text: text2 },
            ) => {
                &&& session_id.deep_view() == session_id2.deep_view()
                &&& text.deep_view() == text2.deep_view()
            },
            (
                InternalEvent::PermissionRequested { request_id, session_id, options },
                InternalEvent::PermissionRequested {
                    request_id: request_id2,
                    session_id: session_id2,
                    options: options2,
                },
            ) => {
                &&& request_id.deep_view() == request_id2.deep_view()
                &&& session_id.deep_view() == session_id2.deep_view()
                &&& options.deep_view() == options2.deep_view()
            },
            (
                InternalEvent::PromptFinished { session_id, stop_reason },
                InternalEvent::PromptFinished {
                    session_id: session_id2,
                    stop_reason: stop_reason2,
                },
            ) => {
                &&& session_id.deep_view() == session_id2.deep_view()
                &&& stop_reason.deep_view() == stop_reason2.deep_view()
            },
            (
                InternalEvent::PromptFailed { session_id, message },
                InternalEvent::PromptFailed { session_id: session_id2, message: message2 },
            ) => {
                &&& session_id.deep_view() == session_id2.deep_view()
                &&& message.deep_view() == message2.deep_view()
            },
            (
                InternalEvent::RuntimeError { message },
                InternalEvent::RuntimeError { message: message2 },
            ) => message.deep_view() == message2.deep_view(),
            _ => false,
        },
{
}

/// Two values of [`PersistedRelaySession`] of which the same is said agree in every part.
pub proof fn law_persisted_relay_session_says_all(
    a: PersistedRelaySession,
    b: PersistedRelaySession,
)
    requires
        a.deep_view() == b.deep_view(),
    ensures
        a.summary.deep_view() == b.summary.deep_view(),
        a.client_session_id.deep_view() == b.client_session_id.deep_view(),
{
}

/// Two values of [`RelaySession`] of which the same is said agree in every part.
pub proof fn law_relay_session_says_all(
    a: RelaySession,
    b: RelaySession,
)
    requires
        a.deep_view() == b.deep_view(),
    ensures
        a.session_id.deep_view() == b.session_id.deep_view(),
        a.device_id.deep_view() == b.device_id.deep_view(),
        a.browser_id.deep_view() == b.browser_id.deep_view(),
        a.owner_user_id.deep_view() == b.owner_user_id.deep_view(),
        a.client_session_id.deep_view() == b.client_session_id.deep_view(),
{
}

/// Two values of [`PendingPermission`] of which the same is said agree in every part.
pub proof fn law_pending_permission_says_all(
    a: PendingPermission,
    b: PendingPermission,
)
    requires
        a.deep_view() == b.deep_view(),
    ensures
        a.session_id.deep_view() == b.session_id.deep_view(),
        a.device_id.deep_view() == b.device_id.deep_view(),
        a.browser_id.deep_view() == b.browser_id.deep_view(),
{
}

/// Two values of [`Delivery`] of which the same is said agree in every part.
pub proof fn law_delivery_says_all(
    a: Delivery,
    b: Delivery,
)
    requires
        a.deep_view() == b.deep_view(),
    ensures
        match (a, b) {
            (
                Delivery::Browser { browser_id, message, required },
                Delivery::Browser {
                    browser_id: browser_id2,
                    message: message2,
                    required: required2,
                },
            ) => {
                &&& browser_id.deep_view() == browser_id2.deep_view()
                &&& message.deep_view() == message2.deep_view()
                &&& required.deep_view() == required2.deep_view()
            },
            (
                Delivery::Client { device_id, message, required },
                Delivery::Client { device_id: device_id2, message: message2, required: required2 },
            ) => {
                &&& device_id.deep_view() == device_id2.deep_view()
                &&& message.deep_view() == message2.deep_view()
                &&& required.deep_view() == required2.deep_view()
            },
            _ => false,
        },
{
}

} // verus!
