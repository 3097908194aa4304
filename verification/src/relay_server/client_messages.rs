//! What home clients report and what follows from it.
use crate::clock::unix_timestamp_secs;
use crate::duplicate::Duplicate;
use crate::protocol::{
    BrowserReplyModel, ClientMessageModel, ClientToServerMessage, EventModel,
    PermissionOptionMessage, PermissionOptionModel, ServerToBrowserMessage, SummaryModel,
};
use crate::relay_server::connections::end_with;
use crate::relay_server::connections;
use crate::relay_server::session_helpers::{
    new_event, resolve_client_session_alias_in_map, session_is_closed,
    SESSION_STATUS_AWAITING_PERMISSION, SESSION_STATUS_IDLE, SESSION_STATUS_READY,
    SESSION_STATUS_RESUME_FAILED,
};
use crate::relay_server::session_helpers;
use crate::relay_server::state::{
    fail, finish, AppState, FollowUp, FollowUpModel, PendingModel, PendingPermission, RelayError,
    RelayErrorModel, RelaySession, ServerModel, SessionModel, Step, StepModel,
};
use crate::relay_server::state;
use crate::relay_state::{PersistedModel, PersistedRelaySession, StoreModel};
use crate::seqs::{vec_append, vec_empty, vec_push};
use crate::string_map::StringMap;
use crate::string_map;
use crate::text::join4;
use vstd::prelude::*;

verus! {

// ---------------------------------------------------------------------------
// Changes to stored sessions
// ---------------------------------------------------------------------------

/// A session with a new status, which a closed session does not take.
pub open spec fn reported_session(
    session: PersistedModel,
    status: Seq<char>,
    now: u64,
) -> PersistedModel {
    PersistedModel {
        summary: SummaryModel {
            status: if session_helpers::is_closed(session.summary.status) {
                session.summary.status
            } else {
                status
            },
            updated_at: now,
            ..session.summary
        },
        ..session
    }
}

/// Sessions of which a device reports a new status for one.
pub open spec fn with_report(
    sessions: Seq<(Seq<char>, PersistedModel)>,
    session_id: Seq<char>,
    status: Seq<char>,
    now: u64,
) -> Seq<(Seq<char>, PersistedModel)> {
    match string_map::lookup(sessions, session_id) {
        Some(session) => string_map::put(
            sessions,
            session_id,
            reported_session(session, status, now),
        ),
        None => sessions,
    }
}

/// Sessions of which a device reports a new status and its own id for one.
pub open spec fn with_bound_report(
    sessions: Seq<(Seq<char>, PersistedModel)>,
    session_id: Seq<char>,
    status: Seq<char>,
    now: u64,
    client_session_id: Seq<char>,
) -> Seq<(Seq<char>, PersistedModel)> {
    match string_map::lookup(sessions, session_id) {
        Some(session) => string_map::put(
            sessions,
            session_id,
            PersistedModel {
                client_session_id: Some(client_session_id),
                ..reported_session(session, status, now)
            },
        ),
        None => sessions,
    }
}

/// Sessions of which one was created on its device.
pub open spec fn with_creation(
    sessions: Seq<(Seq<char>, PersistedModel)>,
    session_id: Seq<char>,
    now: u64,
    client_session_id: Seq<char>,
    workspace_id: Seq<char>,
    workspace_name: Seq<char>,
) -> Seq<(Seq<char>, PersistedModel)> {
    match string_map::lookup(sessions, session_id) {
        Some(session) => {
            let reported = reported_session(session, SESSION_STATUS_READY@, now);
            string_map::put(
                sessions,
                session_id,
                PersistedModel {
                    summary: SummaryModel {
                        workspace_id: Some(workspace_id),
                        workspace_name: Some(workspace_name),
                        ..reported.summary
                    },
                    client_session_id: Some(client_session_id),
                },
            )
        },
        None => sessions,
    }
}

/// Sessions of which one changed just now.
pub open spec fn with_activity(
    sessions: Seq<(Seq<char>, PersistedModel)>,
    session_id: Seq<char>,
    now: u64,
) -> Seq<(Seq<char>, PersistedModel)> {
    match string_map::lookup(sessions, session_id) {
        Some(session) => string_map::put(
            sessions,
            session_id,
            PersistedModel {
                summary: SummaryModel { updated_at: now, ..session.summary },
                ..session
            },
        ),
        None => sessions,
    }
}

/// Sessions of which one waits for a permission, unless it is closed.
pub open spec fn with_waiting(
    sessions: Seq<(Seq<char>, PersistedModel)>,
    session_id: Seq<char>,
    now: u64,
) -> Seq<(Seq<char>, PersistedModel)> {
    match string_map::lookup(sessions, session_id) {
        Some(session) => if session_helpers::is_closed(session.summary.status) {
            sessions
        } else {
            string_map::put(
                sessions,
                session_id,
                PersistedModel {
                    summary: SummaryModel {
                        status: SESSION_STATUS_AWAITING_PERMISSION@,
                        updated_at: now,
                        ..session.summary
                    },
                    ..session
                },
            )
        },
        None => sessions,
    }
}

/// Sessions of which a device tells its own id for one.
pub open spec fn with_binding(
    sessions: Seq<(Seq<char>, SessionModel)>,
    session_id: Seq<char>,
    client_session_id: Seq<char>,
) -> Seq<(Seq<char>, SessionModel)> {
    match string_map::lookup(sessions, session_id) {
        Some(session) => string_map::put(
            sessions,
            session_id,
            SessionModel { client_session_id: Some(client_session_id), ..session },
        ),
        None => sessions,
    }
}

fn report(session: &mut PersistedRelaySession, status: &str, now: u64)
    ensures
        final(session).deep_view() == reported_session(old(session).deep_view(), status@, now),
{
    if !session_is_closed(session.summary.status.as_str()) {
        session.summary.status = status.to_string();
    }
    session.summary.updated_at = now;
}

fn bind(sessions: &mut StringMap<RelaySession>, session_id: &str, client_session_id: &str)
    ensures
        final(sessions).deep_view() == with_binding(
            old(sessions).deep_view(),
            session_id@,
            client_session_id@,
        ),
{
    match sessions.get_mut(session_id) {
        Some(session) => {
            session.client_session_id = Some(client_session_id.to_string());
        },
        None => {},
    }
}

fn report_bound(
    sessions: &mut StringMap<PersistedRelaySession>,
    session_id: &str,
    status: &str,
    now: u64,
    client_session_id: &str,
)
    ensures
        final(sessions).deep_view() == with_bound_report(
            old(sessions).deep_view(),
            session_id@,
            status@,
            now,
            client_session_id@,
        ),
{
    match sessions.get_mut(session_id) {
        Some(session) => {
            report(session, status, now);
            session.client_session_id = Some(client_session_id.to_string());
        },
        None => {},
    }
}

// ---------------------------------------------------------------------------
// Ready
// ---------------------------------------------------------------------------

/// A device is ready: the browsers hear of it and its sessions are resumed.
pub open spec fn ready_step(
    server: ServerModel,
    device_id: Seq<char>,
    agent_name: Seq<char>,
) -> StepModel {
    let told = connections::to_all(
        server,
        BrowserReplyModel::Info {
            message: "device "@ + device_id + " ready with agent "@ + agent_name,
        },
    );
    match connections::resumption(server, device_id) {
        Ok(commands) => state::finished(told + commands, None),
        Err(error) => state::finished(told, Some(error)),
    }
}

impl AppState {
    pub(crate) fn device_ready(&self, device_id: &str, agent_name: String) -> (r: Step)
        ensures
            r.deep_view() == ready_step(self.deep_view(), device_id@, agent_name@),
    {
        let mut deliveries = self.broadcast_info(
            join4("device ", device_id, " ready with agent ", agent_name.as_str()),
        );
        match self.resume_device_sessions(device_id) {
            Ok(commands) => {
                vec_append(&mut deliveries, commands);
                finish(deliveries, None)
            },
            Err(error) => finish(deliveries, Some(error)),
        }
    }
}

// ---------------------------------------------------------------------------
// Sessions that were created or resumed
// ---------------------------------------------------------------------------

/// A device has created a session.
pub open spec fn client_created_step(
    server: ServerModel,
    session_id: Seq<char>,
    client_session_id: Seq<char>,
    workspace_id: Seq<char>,
    workspace_name: Seq<char>,
    now: u64,
) -> (ServerModel, StepModel) {
    state::updated(
        ServerModel {
            next_event_id: state::counted(server.next_event_id),
            sessions: with_binding(server.sessions, session_id, client_session_id),
            ..server
        },
        StoreModel {
            sessions: with_creation(
                server.store.sessions,
                session_id,
                now,
                client_session_id,
                workspace_id,
                workspace_name,
            ),
            events: server.store.events.push(
                session_helpers::event(
                    server.next_event_id,
                    session_id,
                    now,
                    "session_created"@,
                    Some(workspace_name + " ("@ + workspace_id + ")"@),
                ),
            ),
            ..server.store
        },
        FollowUpModel::SessionCreated { session_id, workspace_id, workspace_name },
    )
}

/// Once it is stored that a session was created, the browsers hear of it, the
/// one that has it also in which workspace.
pub open spec fn client_created_told_step(
    server: ServerModel,
    session_id: Seq<char>,
    workspace_id: Seq<char>,
    workspace_name: Seq<char>,
) -> StepModel {
    match connections::session_update(server, None, session_id) {
        Err(error) => state::finished(Seq::empty(), Some(error)),
        Ok(deliveries) => match string_map::lookup(server.sessions, session_id) {
            None => state::finished(deliveries, None),
            Some(session) => connections::ending_with(
                deliveries,
                connections::to_browser(
                    server,
                    session.browser_id,
                    BrowserReplyModel::SessionCreated {
                        session_id,
                        device_id: session.device_id,
                        workspace_id,
                        workspace_name,
                    },
                ),
            ),
        },
    }
}

impl AppState {
    pub(crate) fn client_created(
        &mut self,
        session_id: String,
        client_session_id: String,
        workspace_id: String,
        workspace_name: String,
        now: u64,
    ) -> (r: Step)
        ensures
            (final(self).deep_view(), r.deep_view()) == client_created_step(
                old(self).deep_view(),
                session_id@,
                client_session_id@,
                workspace_id@,
                workspace_name@,
                now,
            ),
    {
        let seq = self.next_event_seq();
        bind(&mut self.sessions, session_id.as_str(), client_session_id.as_str());
        let prior = self.store.events.len();
        match self.store.sessions.get_mut(session_id.as_str()) {
            Some(session) => {
                report(session, SESSION_STATUS_READY, now);
                session.summary.workspace_id = Some(workspace_id.clone());
                session.summary.workspace_name = Some(workspace_name.clone());
                session.client_session_id = Some(client_session_id);
            },
            None => {},
        }
        let text = join4(workspace_name.as_str(), " (", workspace_id.as_str(), ")");
        vec_push(
            &mut self.store.events,
            new_event(seq, session_id.as_str(), now, "session_created", Some(text)),
        );
        self.update_store(
            prior,
            FollowUp::SessionCreated { session_id, workspace_id, workspace_name },
        )
    }

    pub(crate) fn client_created_told(
        &self,
        session_id: String,
        workspace_id: String,
        workspace_name: String,
    ) -> (r: Step)
        ensures
            r.deep_view() == client_created_told_step(
                self.deep_view(),
                session_id@,
                workspace_id@,
                workspace_name@,
            ),
    {
        match self.broadcast_session_updated(session_id.as_str()) {
            Err(error) => fail(error),
            Ok(deliveries) => match self.sessions.get(session_id.as_str()) {
                None => finish(deliveries, None),
                Some(session) => {
                    let message = ServerToBrowserMessage::SessionCreated {
                        session_id,
                        device_id: session.device_id.clone(),
                        workspace_id,
                        workspace_name,
                    };
                    end_with(
                        deliveries,
                        self.send_to_browser(session.browser_id.as_str(), message),
                    )
                },
            },
        }
    }
}

/// A device has resumed a session.
pub open spec fn client_resumed_step(
    server: ServerModel,
    session_id: Seq<char>,
    client_session_id: Seq<char>,
    now: u64,
) -> (ServerModel, StepModel) {
    state::updated(
        ServerModel {
            next_event_id: state::counted(server.next_event_id),
            sessions: with_binding(server.sessions, session_id, client_session_id),
            ..server
        },
        StoreModel {
            sessions: with_bound_report(
                server.store.sessions,
                session_id,
                SESSION_STATUS_IDLE@,
                now,
                client_session_id,
            ),
            events: server.store.events.push(
                session_helpers::event(
                    server.next_event_id,
                    session_id,
                    now,
                    "session_resumed"@,
                    Some(client_session_id),
                ),
            ),
            ..server.store
        },
        FollowUpModel::SessionResumed { session_id },
    )
}

/// Once it is stored that a session was resumed, the browsers hear of it.
pub open spec fn client_resumed_told_step(server: ServerModel, session_id: Seq<char>) -> StepModel {
    match connections::session_update(server, None, session_id) {
        Err(error) => state::finished(Seq::empty(), Some(error)),
        Ok(deliveries) => state::finished(deliveries, None),
    }
}

impl AppState {
    pub(crate) fn client_resumed(
        &mut self,
        session_id: String,
        client_session_id: String,
        now: u64,
    ) -> (r: Step)
        ensures
            (final(self).deep_view(), r.deep_view()) == client_resumed_step(
                old(self).deep_view(),
                session_id@,
                client_session_id@,
                now,
            ),
    {
        let seq = self.next_event_seq();
        bind(&mut self.sessions, session_id.as_str(), client_session_id.as_str());
        let prior = self.store.events.len();
        report_bound(
            &mut self.store.sessions,
            session_id.as_str(),
            SESSION_STATUS_IDLE,
            now,
            client_session_id.as_str(),
        );
        vec_push(
            &mut self.store.events,
            new_event(seq, session_id.as_str(), now, "session_resumed", Some(client_session_id)),
        );
        self.update_store(prior, FollowUp::SessionResumed { session_id })
    }

    pub(crate) fn client_resumed_told(&self, session_id: String) -> (r: Step)
        ensures
            r.deep_view() == client_resumed_told_step(self.deep_view(), session_id@),
    {
        match self.broadcast_session_updated(session_id.as_str()) {
            Err(error) => fail(error),
            Ok(deliveries) => finish(deliveries, None),
        }
    }
}

/// A device could not resume a session.
pub open spec fn client_resume_failed_step(
    server: ServerModel,
    session_id: Seq<char>,
    client_session_id: Seq<char>,
    message: Seq<char>,
    now: u64,
) -> (ServerModel, StepModel) {
    state::updated(
        ServerModel { next_event_id: state::counted(server.next_event_id), ..server },
        StoreModel {
            sessions: with_bound_report(
                server.store.sessions,
                session_id,
                SESSION_STATUS_RESUME_FAILED@,
                now,
                client_session_id,
            ),
            events: server.store.events.push(
                session_helpers::event(
                    server.next_event_id,
                    session_id,
                    now,
                    "session_resume_failed"@,
                    Some(message),
                ),
            ),
            ..server.store
        },
        FollowUpModel::SessionResumeFailed { session_id, client_session_id, message },
    )
}

/// Once it is stored that a session could not be resumed, the browsers hear of
/// it, the one that has it also why.
pub open spec fn client_resume_failed_told_step(
    server: ServerModel,
    session_id: Seq<char>,
    client_session_id: Seq<char>,
    message: Seq<char>,
) -> StepModel {
    match connections::session_update(server, None, session_id) {
        Err(error) => state::finished(Seq::empty(), Some(error)),
        Ok(deliveries) => match connections::active_browser(server.sessions, session_id) {
            None => state::finished(deliveries, None),
            Some(browser_id) => connections::ending_with(
                deliveries,
                connections::to_browser(
                    server,
                    browser_id,
                    BrowserReplyModel::Error {
                        session_id: Some(session_id),
                        message: "session 恢复失败，acp="@ + client_session_id + ": "@ + message,
                    },
                ),
            ),
        },
    }
}

impl AppState {
    pub(crate) fn client_resume_failed(
        &mut self,
        session_id: String,
        client_session_id: String,
        message: String,
        now: u64,
    ) -> (r: Step)
        ensures
            (final(self).deep_view(), r.deep_view()) == client_resume_failed_step(
                old(self).deep_view(),
                session_id@,
                client_session_id@,
                message@,
                now,
            ),
    {
        let seq = self.next_event_seq();
        let prior = self.store.events.len();
        report_bound(
            &mut self.store.sessions,
            session_id.as_str(),
            SESSION_STATUS_RESUME_FAILED,
            now,
            client_session_id.as_str(),
        );
        vec_push(
            &mut self.store.events,
            new_event(
                seq,
                session_id.as_str(),
                now,
                "session_resume_failed",
                Some(message.clone()),
            ),
        );
        self.update_store(
            prior,
            FollowUp::SessionResumeFailed { session_id, client_session_id, message },
        )
    }

    pub(crate) fn client_resume_failed_told(
        &self,
        session_id: String,
        client_session_id: String,
        message: String,
    ) -> (r: Step)
        ensures
            r.deep_view() == client_resume_failed_told_step(
                self.deep_view(),
                session_id@,
                client_session_id@,
                message@,
            ),
    {
        match self.broadcast_session_updated(session_id.as_str()) {
            Err(error) => fail(error),
            Ok(deliveries) => match self.active_browser_for_session(session_id.as_str()) {
                None => finish(deliveries, None),
                Some(browser_id) => {
                    let text = join4(
                        "session 恢复失败，acp=",
                        client_session_id.as_str(),
                        ": ",
                        message.as_str(),
                    );
                    let message = ServerToBrowserMessage::Error {
                        session_id: Some(session_id),
                        message: text,
                    };
                    end_with(deliveries, self.send_to_browser(browser_id.as_str(), message))
                },
            },
        }
    }
}

// ---------------------------------------------------------------------------
// Output and the end of a prompt
// ---------------------------------------------------------------------------

/// A device sends output of a session.
pub open spec fn output_step(
    server: ServerModel,
    device_id: Seq<char>,
    incoming_session_id: Seq<char>,
    text: Seq<char>,
    now: u64,
) -> (ServerModel, StepModel) {
    match session_helpers::resolved_alias(server.sessions, device_id, incoming_session_id) {
        None => (
            server,
            state::finished(
                Seq::empty(),
                Some(RelayErrorModel::UnknownSession { session_id: incoming_session_id }),
            ),
        ),
        Some(session_id) => state::updated(
            ServerModel { next_event_id: state::counted(server.next_event_id), ..server },
            StoreModel {
                sessions: with_activity(server.store.sessions, session_id, now),
                events: server.store.events.push(
                    session_helpers::event(
                        server.next_event_id,
                        session_id,
                        now,
                        "output_chunk"@,
                        Some(text),
                    ),
                ),
                ..server.store
            },
            FollowUpModel::OutputChunk { session_id, text },
        ),
    }
}

/// Once output is stored, the browsers hear of the session and the one that has
/// it of the output.
pub open spec fn output_told_step(
    server: ServerModel,
    session_id: Seq<char>,
    text: Seq<char>,
) -> StepModel {
    match connections::session_update(server, None, session_id) {
        Err(error) => state::finished(Seq::empty(), Some(error)),
        Ok(deliveries) => connections::ending_with(
            deliveries,
            connections::to_session(
                server,
                session_id,
                BrowserReplyModel::OutputChunk { session_id, text },
            ),
        ),
    }
}

impl AppState {
    pub(crate) fn output(
        &mut self,
        device_id: &str,
        incoming_session_id: String,
        text: String,
        now: u64,
    ) -> (r: Step)
        ensures
            (final(self).deep_view(), r.deep_view()) == output_step(
                old(self).deep_view(),
                device_id@,
                incoming_session_id@,
                text@,
                now,
            ),
    {
        let session_id = match resolve_client_session_alias_in_map(
            &self.sessions,
            device_id,
            incoming_session_id.as_str(),
        ) {
            Some(session_id) => session_id,
            None => {
                return fail(RelayError::UnknownSession { session_id: incoming_session_id });
            },
        };
        let seq = self.next_event_seq();
        let prior = self.store.events.len();
        match self.store.sessions.get_mut(session_id.as_str()) {
            Some(session) => {
                session.summary.updated_at = now;
            },
            None => {},
        }
        vec_push(
            &mut self.store.events,
            new_event(seq, session_id.as_str(), now, "output_chunk", Some(text.clone())),
        );
        self.update_store(prior, FollowUp::OutputChunk { session_id, text })
    }

    pub(crate) fn output_told(&self, session_id: String, text: String) -> (r: Step)
        ensures
            r.deep_view() == output_told_step(self.deep_view(), session_id@, text@),
    {
        match self.broadcast_session_updated(session_id.as_str()) {
            Err(error) => fail(error),
            Ok(deliveries) => {
                let message = ServerToBrowserMessage::OutputChunk {
                    session_id: session_id.clone(),
                    text,
                };
                end_with(deliveries, self.route_session_message(session_id.as_str(), message))
            },
        }
    }
}

/// A device has finished a prompt.
pub open spec fn prompt_finished_step(
    server: ServerModel,
    device_id: Seq<char>,
    incoming_session_id: Seq<char>,
    stop_reason: Seq<char>,
    now: u64,
) -> (ServerModel, StepModel) {
    match session_helpers::resolved_alias(server.sessions, device_id, incoming_session_id) {
        None => (
            server,
            state::finished(
                Seq::empty(),
                Some(RelayErrorModel::UnknownSession { session_id: incoming_session_id }),
            ),
        ),
        Some(session_id) => state::updated(
            ServerModel { next_event_id: state::counted(server.next_event_id), ..server },
            StoreModel {
                sessions: with_report(
                    server.store.sessions,
                    session_id,
                    SESSION_STATUS_IDLE@,
                    now,
                ),
                events: server.store.events.push(
                    EventModel {
                        stop_reason: Some(stop_reason),
                        ..session_helpers::event(
                            server.next_event_id,
                            session_id,
                            now,
                            "prompt_finished"@,
                            None,
                        )
                    },
                ),
                ..server.store
            },
            FollowUpModel::PromptFinished { session_id, stop_reason },
        ),
    }
}

/// Once it is stored that a prompt is finished, the browser that has the
/// session hears of it.
pub open spec fn prompt_finished_told_step(
    server: ServerModel,
    session_id: Seq<char>,
    stop_reason: Seq<char>,
) -> StepModel {
    connections::ending_with(
        Seq::empty(),
        connections::to_session(
            server,
            session_id,
            BrowserReplyModel::PromptFinished { session_id, stop_reason },
        ),
    )
}

impl AppState {
    pub(crate) fn prompt_finished(
        &mut self,
        device_id: &str,
        incoming_session_id: String,
        stop_reason: String,
        now: u64,
    ) -> (r: Step)
        ensures
            (final(self).deep_view(), r.deep_view()) == prompt_finished_step(
                old(self).deep_view(),
                device_id@,
                incoming_session_id@,
                stop_reason@,
                now,
            ),
    {
        let session_id = match resolve_client_session_alias_in_map(
            &self.sessions,
            device_id,
            incoming_session_id.as_str(),
        ) {
            Some(session_id) => session_id,
            None => {
                return fail(RelayError::UnknownSession { session_id: incoming_session_id });
            },
        };
        let seq = self.next_event_seq();
        let prior = self.store.events.len();
        match self.store.sessions.get_mut(session_id.as_str()) {
            Some(session) => {
                report(session, SESSION_STATUS_IDLE, now);
            },
            None => {},
        }
        let mut event = new_event(seq, session_id.as_str(), now, "prompt_finished", None);
        event.stop_reason = Some(stop_reason.clone());
        vec_push(&mut self.store.events, event);
        self.update_store(prior, FollowUp::PromptFinished { session_id, stop_reason })
    }

    pub(crate) fn prompt_finished_told(&self, session_id: String, stop_reason: String) -> (r: Step)
        ensures
            r.deep_view() == prompt_finished_told_step(self.deep_view(), session_id@, stop_reason@),
    {
        let message = ServerToBrowserMessage::PromptFinished {
            session_id: session_id.clone(),
            stop_reason,
        };
        end_with(vec_empty(), self.route_session_message(session_id.as_str(), message))
    }
}

// ---------------------------------------------------------------------------
// Permission requests
// ---------------------------------------------------------------------------

/// The session that a device means, or the id as it stands where the relay
/// knows no such session.
pub open spec fn asked_session(
    sessions: Seq<(Seq<char>, SessionModel)>,
    device_id: Seq<char>,
    incoming_session_id: Seq<char>,
) -> Seq<char> {
    match session_helpers::resolved_alias(sessions, device_id, incoming_session_id) {
        Some(session_id) => session_id,
        None => incoming_session_id,
    }
}

/// A device asks for a permission. The browser that has the session is asked;
/// where no session is known the request is passed over.
pub open spec fn permission_requested_step(
    server: ServerModel,
    device_id: Seq<char>,
    request_id: Seq<char>,
    incoming_session_id: Option<Seq<char>>,
    options: Seq<PermissionOptionModel>,
    now: u64,
) -> (ServerModel, StepModel) {
    match incoming_session_id {
        None => (server, state::finished(Seq::empty(), None)),
        Some(incoming_session_id) => {
            let session_id = asked_session(server.sessions, device_id, incoming_session_id);
            match string_map::lookup(server.sessions, session_id) {
                None => (server, state::finished(Seq::empty(), None)),
                Some(session) => state::updated(
                    ServerModel {
                        next_event_id: state::counted(server.next_event_id),
                        permissions: string_map::put(
                            server.permissions,
                            request_id,
                            PendingModel {
                                session_id: Some(session_id),
                                device_id,
                                browser_id: session.browser_id,
                            },
                        ),
                        ..server
                    },
                    StoreModel {
                        sessions: with_waiting(server.store.sessions, session_id, now),
                        events: server.store.events.push(
                            EventModel {
                                request_id: Some(request_id),
                                options: Some(options),
                                ..session_helpers::event(
                                    server.next_event_id,
                                    session_id,
                                    now,
                                    "permission_requested"@,
                                    None,
                                )
                            },
                        ),
                        ..server.store
                    },
                    FollowUpModel::PermissionRequested {
                        request_id,
                        session_id: Some(session_id),
                        browser_id: session.browser_id,
                        options,
                    },
                ),
            }
        },
    }
}

/// Once a request is stored, the browsers hear of the session and the one that
/// has it of the request.
pub open spec fn permission_requested_told_step(
    server: ServerModel,
    request_id: Seq<char>,
    session_id: Option<Seq<char>>,
    browser_id: Seq<char>,
    options: Seq<PermissionOptionModel>,
) -> StepModel {
    let told = match session_id {
        Some(session_id) => connections::session_update(server, None, session_id),
        None => Ok(Seq::empty()),
    };
    match told {
        Err(error) => state::finished(Seq::empty(), Some(error)),
        Ok(deliveries) => connections::ending_with(
            deliveries,
            connections::to_browser(
                server,
                browser_id,
                BrowserReplyModel::PermissionRequested { request_id, session_id, options },
            ),
        ),
    }
}

fn wait_for_permission(
    sessions: &mut StringMap<PersistedRelaySession>,
    session_id: &str,
    now: u64,
)
    ensures
        final(sessions).deep_view() == with_waiting(old(sessions).deep_view(), session_id@, now),
{
    let closed = match sessions.get(session_id) {
        Some(session) => session_is_closed(session.summary.status.as_str()),
        None => true,
    };
    if closed {
        return;
    }
    match sessions.get_mut(session_id) {
        Some(session) => {
            session.summary.status = SESSION_STATUS_AWAITING_PERMISSION.to_string();
            session.summary.updated_at = now;
        },
        None => {},
    }
}

impl AppState {
    pub(crate) fn permission_requested(
        &mut self,
        device_id: &str,
        request_id: String,
        incoming_session_id: Option<String>,
        options: Vec<PermissionOptionMessage>,
        now: u64,
    ) -> (r: Step)
        ensures
            (final(self).deep_view(), r.deep_view()) == permission_requested_step(
                old(self).deep_view(),
                device_id@,
                request_id@,
                incoming_session_id.deep_view(),
                options.deep_view(),
                now,
            ),
    {
        let incoming_session_id = match incoming_session_id {
            Some(session_id) => session_id,
            None => {
                return finish(vec_empty(), None);
            },
        };
        let session_id = match resolve_client_session_alias_in_map(
            &self.sessions,
            device_id,
            incoming_session_id.as_str(),
        ) {
            Some(session_id) => session_id,
            None => incoming_session_id,
        };
        let browser_id = match self.sessions.get(session_id.as_str()) {
            Some(session) => session.browser_id.clone(),
            None => {
                return finish(vec_empty(), None);
            },
        };
        let seq = self.next_event_seq();
        self.permissions.insert(
            request_id.clone(),
            PendingPermission {
                session_id: Some(session_id.clone()),
                device_id: device_id.to_string(),
                browser_id: browser_id.clone(),
            },
        );
        let prior = self.store.events.len();
        wait_for_permission(&mut self.store.sessions, session_id.as_str(), now);
        let mut event = new_event(seq, session_id.as_str(), now, "permission_requested", None);
        event.request_id = Some(request_id.clone());
        event.options = Some(options.duplicate());
        vec_push(&mut self.store.events, event);
        self.update_store(
            prior,
            FollowUp::PermissionRequested {
                request_id,
                session_id: Some(session_id),
                browser_id,
                options,
            },
        )
    }

    pub(crate) fn permission_requested_told(
        &self,
        request_id: String,
        session_id: Option<String>,
        browser_id: String,
        options: Vec<PermissionOptionMessage>,
    ) -> (r: Step)
        ensures
            r.deep_view() == permission_requested_told_step(
                self.deep_view(),
                request_id@,
                session_id.deep_view(),
                browser_id@,
                options.deep_view(),
            ),
    {
        let told = match &session_id {
            Some(session_id) => self.broadcast_session_updated(session_id.as_str()),
            None => Ok(vec_empty()),
        };
        match told {
            Err(error) => fail(error),
            Ok(deliveries) => {
                let message = ServerToBrowserMessage::PermissionRequested {
                    request_id,
                    session_id,
                    options,
                };
                end_with(deliveries, self.send_to_browser(browser_id.as_str(), message))
            },
        }
    }
}

// ---------------------------------------------------------------------------
// All messages
// ---------------------------------------------------------------------------

/// What follows from a message of a home client.
pub open spec fn client_message_step(
    server: ServerModel,
    device_id: Seq<char>,
    message: ClientMessageModel,
    now: u64,
) -> (ServerModel, StepModel) {
    match message {
        ClientMessageModel::Hello { .. } => (server, state::finished(Seq::empty(), None)),
        ClientMessageModel::Ready { agent_name } => (
            server,
            ready_step(server, device_id, agent_name),
        ),
        ClientMessageModel::Info { message } => (
            server,
            state::finished(
                connections::to_all(
                    server,
                    BrowserReplyModel::Info { message: "device "@ + device_id + ": "@ + message },
                ),
                None,
            ),
        ),
        ClientMessageModel::SessionCreated {
            session_id,
            client_session_id,
            workspace_id,
            workspace_name,
        } => client_created_step(
            server,
            session_id,
            client_session_id,
            workspace_id,
            workspace_name,
            now,
        ),
        ClientMessageModel::SessionResumed { session_id, client_session_id } =>
            client_resumed_step(server, session_id, client_session_id, now),
        ClientMessageModel::SessionResumeFailed { session_id, client_session_id, message } =>
            client_resume_failed_step(server, session_id, client_session_id, message, now),
        ClientMessageModel::OutputChunk { session_id, text } => output_step(
            server,
            device_id,
            session_id,
            text,
            now,
        ),
        ClientMessageModel::PromptFinished { session_id, stop_reason } => prompt_finished_step(
            server,
            device_id,
            session_id,
            stop_reason,
            now,
        ),
        ClientMessageModel::PermissionRequested { request_id, session_id, options } =>
            permission_requested_step(server, device_id, request_id, session_id, options, now),
        ClientMessageModel::Error { message } => (
            server,
            state::finished(
                connections::to_all(
                    server,
                    BrowserReplyModel::Info {
                        message: "device "@ + device_id + " error: "@ + message,
                    },
                ),
                None,
            ),
        ),
    }
}

impl AppState {
    /// Takes up a message that came from a home client at a given time.
    pub fn handle_client_message_at(
        &mut self,
        device_id: &str,
        message: ClientToServerMessage,
        now: u64,
    ) -> (r: Step)
        ensures
            (final(self).deep_view(), r.deep_view()) == client_message_step(
                old(self).deep_view(),
                device_id@,
                message.deep_view(),
                now,
            ),
    {
        match message {
            ClientToServerMessage::Hello { .. } => finish(vec_empty(), None),
            ClientToServerMessage::Ready { agent_name } => self.device_ready(
                device_id,
                agent_name,
            ),
            ClientToServerMessage::Info { message } => finish(
                self.broadcast_info(join4("device ", device_id, ": ", message.as_str())),
                None,
            ),
            ClientToServerMessage::SessionCreated {
                session_id,
                client_session_id,
                workspace_id,
                workspace_name,
            } => self.client_created(
                session_id,
                client_session_id,
                workspace_id,
                workspace_name,
                now,
            ),
            ClientToServerMessage::SessionResumed { session_id, client_session_id } =>
                self.client_resumed(session_id, client_session_id, now),
            ClientToServerMessage::SessionResumeFailed {
                session_id,
                client_session_id,
                message,
            } => self.client_resume_failed(session_id, client_session_id, message, now),
            ClientToServerMessage::OutputChunk { session_id, text } => self.output(
                device_id,
                session_id,
                text,
                now,
            ),
            ClientToServerMessage::PromptFinished { session_id, stop_reason } =>
                self.prompt_finished(device_id, session_id, stop_reason, now),
            ClientToServerMessage::PermissionRequested { request_id, session_id, options } =>
                self.permission_requested(device_id, request_id, session_id, options, now),
            ClientToServerMessage::Error { message } => finish(
                self.broadcast_info(join4("device ", device_id, " error: ", message.as_str())),
                None,
            ),
        }
    }

    /// Takes up a message from a home client.
    pub fn handle_client_message(&mut self, device_id: &str, message: ClientToServerMessage) -> (r:
        Step)
        ensures
            exists|now: u64|
                (final(self).deep_view(), r.deep_view()) == #[trigger] client_message_step(
                    old(self).deep_view(),
                    device_id@,
                    message.deep_view(),
                    now,
                ),
    {
        let now = unix_timestamp_secs();
        self.handle_client_message_at(device_id, message, now)
    }
}

} // verus!
