//! How the work on a message goes on once the store is written.
use crate::clock::unix_timestamp_secs;
use crate::protocol::BrowserReplyModel;
use crate::relay_server::browser_messages;
use crate::relay_server::client_messages;
use crate::relay_server::connections;
use crate::relay_server::sockets;
use crate::relay_server::state::{
    fail, finish, AppState, FollowUp, FollowUpModel, RelayError, RelayErrorModel, ServerModel, Step,
    StepModel,
};
use crate::relay_server::state;
use crate::seqs::vec_empty;
use vstd::prelude::*;

verus! {

/// Whether the work goes on even where the store could not be written.
pub open spec fn goes_on_unsaved(next: FollowUpModel) -> bool {
    match next {
        FollowUpModel::DeviceConnected { .. } => true,
        FollowUpModel::DeviceDisconnected { .. } => true,
        FollowUpModel::SessionsDisconnected { .. } => true,
        _ => false,
    }
}

/// How the work goes on. `failure` says why the store could not be written,
/// where it could not.
pub open spec fn follow_up_step(
    server: ServerModel,
    next: FollowUpModel,
    failure: Option<Seq<char>>,
    now: u64,
) -> (ServerModel, StepModel) {
    if failure is Some && !goes_on_unsaved(next) {
        (
            server,
            state::finished(
                Seq::empty(),
                Some(RelayErrorModel::NotSaved { message: failure.unwrap() }),
            ),
        )
    } else {
        match next {
            FollowUpModel::SessionRequested { session_id, device_id, workspace_id } => (
                server,
                browser_messages::session_requested_step(
                    server,
                    session_id,
                    device_id,
                    workspace_id,
                ),
            ),
            FollowUpModel::SessionAdopted { previous, session_id, browser_id, user_id } => (
                server,
                browser_messages::session_adopted_step(
                    server,
                    previous,
                    session_id,
                    browser_id,
                    user_id,
                ),
            ),
            FollowUpModel::PromptSubmitted {
                session_id,
                device_id,
                prompted_session_id,
                text,
            } => (
                server,
                browser_messages::prompt_submitted_step(
                    server,
                    session_id,
                    device_id,
                    prompted_session_id,
                    text,
                ),
            ),
            FollowUpModel::PermissionResolved {
                session_id,
                device_id,
                request_id,
                selected_index,
            } => (
                server,
                browser_messages::permission_resolved_step(
                    server,
                    session_id,
                    device_id,
                    request_id,
                    selected_index,
                ),
            ),
            FollowUpModel::SessionClosed { session_id } => browser_messages::session_closed_step(
                server,
                session_id,
            ),
            FollowUpModel::SessionDeleted { previous } => (
                server,
                browser_messages::session_deleted_step(server, previous),
            ),
            FollowUpModel::SessionCreated { session_id, workspace_id, workspace_name } => (
                server,
                client_messages::client_created_told_step(
                    server,
                    session_id,
                    workspace_id,
                    workspace_name,
                ),
            ),
            FollowUpModel::SessionResumed { session_id } => (
                server,
                client_messages::client_resumed_told_step(server, session_id),
            ),
            FollowUpModel::SessionResumeFailed { session_id, client_session_id, message } => (
                server,
                client_messages::client_resume_failed_told_step(
                    server,
                    session_id,
                    client_session_id,
                    message,
                ),
            ),
            FollowUpModel::OutputChunk { session_id, text } => (
                server,
                client_messages::output_told_step(server, session_id, text),
            ),
            FollowUpModel::PromptFinished { session_id, stop_reason } => (
                server,
                client_messages::prompt_finished_told_step(server, session_id, stop_reason),
            ),
            FollowUpModel::PermissionRequested { request_id, session_id, browser_id, options } => (
                server,
                client_messages::permission_requested_told_step(
                    server,
                    request_id,
                    session_id,
                    browser_id,
                    options,
                ),
            ),
            FollowUpModel::DeviceConnected { device } => (
                server,
                state::finished(
                    connections::to_all(server, BrowserReplyModel::DeviceStatus { device }),
                    None,
                ),
            ),
            FollowUpModel::DeviceDisconnected { device } => sockets::device_disconnected_step(
                server,
                device,
                now,
            ),
            FollowUpModel::SessionsDisconnected { device, session_ids, browser_ids } => (
                server,
                sockets::sessions_disconnected_step(
                    server,
                    device,
                    if failure is Some {
                        Seq::empty()
                    } else {
                        session_ids
                    },
                    browser_ids,
                ),
            ),
        }
    }
}

fn must_be_saved(next: &FollowUp) -> (r: bool)
    ensures
        r == !goes_on_unsaved(next.deep_view()),
{
    match next {
        FollowUp::DeviceConnected { .. } => false,
        FollowUp::DeviceDisconnected { .. } => false,
        FollowUp::SessionsDisconnected { .. } => false,
        _ => true,
    }
}

impl AppState {
    /// Goes on at a given time after the store was written, or could not be.
    pub fn follow_up_at(&mut self, next: FollowUp, failure: Option<String>, now: u64) -> (r: Step)
        ensures
            (final(self).deep_view(), r.deep_view()) == follow_up_step(
                old(self).deep_view(),
                next.deep_view(),
                failure.deep_view(),
                now,
            ),
    {
        let saved = failure.is_none();
        match failure {
            Some(message) => {
                if must_be_saved(&next) {
                    return fail(RelayError::NotSaved { message });
                }
            },
            None => {},
        }
        match next {
            FollowUp::SessionRequested { session_id, device_id, workspace_id } =>
                self.session_requested(session_id, device_id, workspace_id),
            FollowUp::SessionAdopted { previous, session_id, browser_id, user_id } =>
                self.session_adopted(previous, session_id, browser_id, user_id),
            FollowUp::PromptSubmitted { session_id, device_id, prompted_session_id, text } =>
                self.prompt_submitted(session_id, device_id, prompted_session_id, text),
            FollowUp::PermissionResolved { session_id, device_id, request_id, selected_index } =>
                self.permission_resolved(session_id, device_id, request_id, selected_index),
            FollowUp::SessionClosed { session_id } => self.session_closed(session_id),
            FollowUp::SessionDeleted { previous } => self.session_deleted(previous),
            FollowUp::SessionCreated { session_id, workspace_id, workspace_name } =>
                self.client_created_told(session_id, workspace_id, workspace_name),
            FollowUp::SessionResumed { session_id } => self.client_resumed_told(session_id),
            FollowUp::SessionResumeFailed { session_id, client_session_id, message } =>
                self.client_resume_failed_told(session_id, client_session_id, message),
            FollowUp::OutputChunk { session_id, text } => self.output_told(session_id, text),
            FollowUp::PromptFinished { session_id, stop_reason } => self.prompt_finished_told(
                session_id,
                stop_reason,
            ),
            FollowUp::PermissionRequested { request_id, session_id, browser_id, options } =>
                self.permission_requested_told(request_id, session_id, browser_id, options),
            FollowUp::DeviceConnected { device } => finish(
                self.broadcast_device_status(&device),
                None,
            ),
            FollowUp::DeviceDisconnected { device } => self.cleanup_device(device, now),
            FollowUp::SessionsDisconnected { device, session_ids, browser_ids } => {
                let told = if saved {
                    session_ids
                } else {
                    vec_empty()
                };
                self.sessions_disconnected(device, told, browser_ids)
            },
        }
    }

    /// Goes on after the store was written, or could not be.
    pub fn follow_up(&mut self, next: FollowUp, failure: Option<String>) -> (r: Step)
        ensures
            exists|now: u64|
                (final(self).deep_view(), r.deep_view()) == #[trigger] follow_up_step(
                    old(self).deep_view(),
                    next.deep_view(),
                    failure.deep_view(),
                    now,
                ),
    {
        let now = unix_timestamp_secs();
        self.follow_up_at(next, failure, now)
    }
}

} // verus!
