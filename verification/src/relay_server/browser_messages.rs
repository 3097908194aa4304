//! What browsers ask for and how they are answered.
use crate::clock::unix_timestamp_secs;
use crate::duplicate::Duplicate;
use crate::protocol::{
    BrowserReplyModel, BrowserRequestModel, BrowserToServerMessage, DeviceModel,
    DeviceStatusMessage, EventModel, RelaySessionSummaryMessage, ServerMessageModel,
    ServerToBrowserMessage, ServerToClientMessage, SummaryModel,
};
use crate::relay_server::connections::{drop_permissions, end_with, is_empty_text, Dropped};
use crate::relay_server::connections;
use crate::relay_server::session_helpers::{
    delete_session_from_store, get_browser_session, get_visible_session_summary, new_event,
    paginate_session_events, resolve_device_workspace, session_is_closed, session_owned_by_user_id,
    session_summary_visible_to_user, set_status, SESSION_STATUS_CLOSED, SESSION_STATUS_REQUESTED,
    SESSION_STATUS_RUNNING,
};
use crate::relay_server::session_helpers;
use crate::relay_server::state::{
    fail, finish, AppState, Delivery, DeliveryModel, FollowUp, FollowUpModel, RelayError,
    RelayErrorModel, RelaySession, ServerModel, SessionModel, Step, StepModel,
};
use crate::relay_server::state;
use crate::relay_state::{PersistedModel, PersistedRelaySession, StoreModel};
use crate::relay_state;
use crate::seqs::{vec_append, vec_empty, vec_push};
use crate::sorting::{insert_sorted, without_keys};
use crate::sorting;
use crate::store_laws;
use crate::string_map;
use crate::text::{join2, number_string, same};
use crate::text;
use vstd::prelude::*;

verus! {

// ---------------------------------------------------------------------------
// Lists
// ---------------------------------------------------------------------------

/// All devices that the store knows.
pub open spec fn device_list(server: ServerModel, browser_id: Seq<char>) -> Result<
    DeliveryModel,
    RelayErrorModel,
> {
    connections::to_browser(
        server,
        browser_id,
        BrowserReplyModel::DeviceList {
            devices: server.store.devices.map_values(|entry: (Seq<char>, DeviceModel)| entry.1),
        },
    )
}

/// The sessions that a user may see, each with a number that is the smaller
/// the later the session changed.
pub open spec fn listed_sessions(
    sessions: Seq<(Seq<char>, PersistedModel)>,
    user_id: Seq<char>,
) -> Seq<(u64, SummaryModel)>
    decreases sessions.len(),
{
    if sessions.len() == 0 {
        Seq::empty()
    } else {
        let rest = listed_sessions(sessions.drop_last(), user_id);
        let session = sessions.last().1;
        if session_helpers::visible_to(session, user_id) {
            rest.push(((u64::MAX - session.summary.updated_at) as u64, session.summary))
        } else {
            rest
        }
    }
}

/// The sessions that a user may see, the last changed first.
pub open spec fn visible_sessions(
    sessions: Seq<(Seq<char>, PersistedModel)>,
    user_id: Seq<char>,
) -> Seq<SummaryModel> {
    sorting::sort_by_key(listed_sessions(sessions, user_id)).map_values(
        |pair: (u64, SummaryModel)| pair.1,
    )
}

pub open spec fn session_list(
    server: ServerModel,
    browser_id: Seq<char>,
    user_id: Seq<char>,
) -> Result<DeliveryModel, RelayErrorModel> {
    connections::to_browser(
        server,
        browser_id,
        BrowserReplyModel::SessionList {
            sessions: visible_sessions(server.store.sessions, user_id),
        },
    )
}

impl AppState {
    pub fn send_device_list(&self, browser_id: &str) -> (r: Result<Delivery, RelayError>)
        ensures
            state::result_model(r) == device_list(self.deep_view(), browser_id@),
    {
        let ghost all = self.store.devices.deep_view();
        let ghost values = all.map_values(|entry: (Seq<char>, DeviceModel)| entry.1);
        let mut devices: Vec<DeviceStatusMessage> = vec_empty();
        let n: usize = self.store.devices.len();
        for i in 0..n
            invariant
                n == all.len(),
                all == self.store.devices.deep_view(),
                values == all.map_values(|entry: (Seq<char>, DeviceModel)| entry.1),
                devices.deep_view() == values.take(i as int),
        {
            let ghost done = devices.deep_view();
            vec_push(&mut devices, self.store.devices.value_at(i).duplicate());
            assert(done.push(values[i as int]) =~= values.take(i + 1));
        }
        assert(values.take(values.len() as int) == values);
        self.send_to_browser(browser_id, ServerToBrowserMessage::DeviceList { devices })
    }

    pub fn send_session_list(&self, browser_id: &str, browser_user_id: &str) -> (r: Result<
        Delivery,
        RelayError,
    >)
        ensures
            state::result_model(r) == session_list(self.deep_view(), browser_id@, browser_user_id@),
    {
        let ghost all = self.store.sessions.deep_view();
        let mut sorted: Vec<(u64, RelaySessionSummaryMessage)> = vec_empty();
        let n: usize = self.store.sessions.len();
        assert(all.take(0) =~= Seq::empty());
        for i in 0..n
            invariant
                n == all.len(),
                all == self.store.sessions.deep_view(),
                sorted.deep_view() == sorting::sort_by_key(
                    listed_sessions(all.take(i as int), browser_user_id@),
                ),
        {
            let ghost before = listed_sessions(all.take(i as int), browser_user_id@);
            assert(all.take(i + 1).drop_last() == all.take(i as int));
            assert(all.take(i + 1).last() == all[i as int]);
            let session = self.store.sessions.value_at(i);
            if session_summary_visible_to_user(session, browser_user_id) {
                let key: u64 = u64::MAX - session.summary.updated_at;
                let summary = session.summary.duplicate();
                assert(before.push((key, summary.deep_view())).drop_last() =~= before);
                insert_sorted(&mut sorted, key, summary);
            }
        }
        assert(all.take(all.len() as int) == all);
        let sessions = without_keys(sorted);
        self.send_to_browser(browser_id, ServerToBrowserMessage::SessionList { sessions })
    }
}

// ---------------------------------------------------------------------------
// Creating a session
// ---------------------------------------------------------------------------

/// A browser asks for a session in a workspace of a connected device.
pub open spec fn create_session_step(
    server: ServerModel,
    browser_id: Seq<char>,
    user_id: Seq<char>,
    device_id: Seq<char>,
    workspace_id: Seq<char>,
    now: u64,
) -> (ServerModel, StepModel) {
    if !server.devices.contains(device_id) {
        (server, state::finished(
            Seq::empty(),
            Some(RelayErrorModel::DeviceNotConnected { device_id }),
        ))
    } else {
        match session_helpers::device_workspace(server.store, device_id, workspace_id) {
            Err(error) => (server, state::finished(Seq::empty(), Some(error))),
            Ok(workspace) => {
                let session_id = store_laws::relay_session_id(server.next_session_id as nat);
                state::updated(
                    ServerModel {
                        next_session_id: state::counted(server.next_session_id),
                        next_event_id: state::counted(server.next_event_id),
                        sessions: string_map::put(
                            server.sessions,
                            session_id,
                            SessionModel {
                                session_id,
                                device_id,
                                browser_id,
                                owner_user_id: user_id,
                                client_session_id: None,
                            },
                        ),
                        ..server
                    },
                    StoreModel {
                        sessions: string_map::put(
                            server.store.sessions,
                            session_id,
                            PersistedModel {
                                summary: SummaryModel {
                                    session_id,
                                    device_id,
                                    status: SESSION_STATUS_REQUESTED@,
                                    owner_user_id: Some(user_id),
                                    workspace_id: Some(workspace.workspace_id),
                                    workspace_name: Some(workspace.workspace_name),
                                    created_at: now,
                                    updated_at: now,
                                },
                                client_session_id: None,
                            },
                        ),
                        events: server.store.events.push(
                            session_helpers::event(
                                server.next_event_id,
                                session_id,
                                now,
                                "session_requested"@,
                                None,
                            ),
                        ),
                        ..server.store
                    },
                    FollowUpModel::SessionRequested { session_id, device_id, workspace_id },
                )
            },
        }
    }
}

/// Once a session is stored, the browsers and then the device hear of it.
pub open spec fn session_requested_step(
    server: ServerModel,
    session_id: Seq<char>,
    device_id: Seq<char>,
    workspace_id: Seq<char>,
) -> StepModel {
    match connections::session_update(server, None, session_id) {
        Err(error) => state::finished(Seq::empty(), Some(error)),
        Ok(deliveries) => connections::ending_with(
            deliveries,
            connections::to_client(
                server,
                device_id,
                ServerMessageModel::CreateSession { session_id, workspace_id },
            ),
        ),
    }
}

impl AppState {
    pub(crate) fn create_session(
        &mut self,
        browser_id: &str,
        browser_user_id: &str,
        device_id: String,
        workspace_id: String,
        now: u64,
    ) -> (r: Step)
        ensures
            (final(self).deep_view(), r.deep_view()) == create_session_step(
                old(self).deep_view(),
                browser_id@,
                browser_user_id@,
                device_id@,
                workspace_id@,
                now,
            ),
    {
        let ghost before = self.deep_view();
        match self.ensure_device_connected(device_id.as_str()) {
            Ok(_) => {},
            Err(error) => return fail(error),
        }
        let workspace = match resolve_device_workspace(
            &self.store,
            device_id.as_str(),
            workspace_id.as_str(),
        ) {
            Ok(workspace) => workspace,
            Err(error) => return fail(error),
        };
        let session_id = self.next_session_id();
        let seq = self.next_event_seq();
        self.sessions.insert(
            session_id.clone(),
            RelaySession {
                session_id: session_id.clone(),
                device_id: device_id.clone(),
                browser_id: browser_id.to_string(),
                owner_user_id: browser_user_id.to_string(),
                client_session_id: None,
            },
        );
        let prior = self.store.events.len();
        self.store.sessions.insert(
            session_id.clone(),
            PersistedRelaySession {
                summary: RelaySessionSummaryMessage {
                    session_id: session_id.clone(),
                    device_id: device_id.clone(),
                    status: SESSION_STATUS_REQUESTED.to_string(),
                    owner_user_id: Some(browser_user_id.to_string()),
                    workspace_id: Some(workspace.workspace_id),
                    workspace_name: Some(workspace.workspace_name),
                    created_at: now,
                    updated_at: now,
                },
                client_session_id: None,
            },
        );
        vec_push(
            &mut self.store.events,
            new_event(seq, session_id.as_str(), now, "session_requested", None),
        );
        self.update_store(prior, FollowUp::SessionRequested { session_id, device_id, workspace_id })
    }

    pub(crate) fn session_requested(
        &self,
        session_id: String,
        device_id: String,
        workspace_id: String,
    ) -> (r: Step)
        ensures
            r.deep_view() == session_requested_step(
                self.deep_view(),
                session_id@,
                device_id@,
                workspace_id@,
            ),
    {
        match self.broadcast_session_updated(session_id.as_str()) {
            Err(error) => fail(error),
            Ok(deliveries) => {
                let message = ServerToClientMessage::CreateSession { session_id, workspace_id };
                end_with(deliveries, self.send_to_client(device_id.as_str(), message))
            },
        }
    }
}

// ---------------------------------------------------------------------------
// Adopting a session
// ---------------------------------------------------------------------------

/// Sessions of which one has a new owner.
pub open spec fn with_owner(
    sessions: Seq<(Seq<char>, PersistedModel)>,
    session_id: Seq<char>,
    user_id: Seq<char>,
) -> Seq<(Seq<char>, PersistedModel)> {
    match string_map::lookup(sessions, session_id) {
        Some(session) => string_map::put(
            sessions,
            session_id,
            PersistedModel {
                summary: SummaryModel { owner_user_id: Some(user_id), ..session.summary },
                ..session
            },
        ),
        None => sessions,
    }
}

/// A browser takes over a session. A session without an owner gets its user as
/// the owner.
pub open spec fn adopt_session_step(
    server: ServerModel,
    browser_id: Seq<char>,
    user_id: Seq<char>,
    session_id: Seq<char>,
) -> (ServerModel, StepModel) {
    match string_map::lookup(server.sessions, session_id) {
        None => (
            server,
            state::finished(Seq::empty(), Some(RelayErrorModel::UnknownSession { session_id })),
        ),
        Some(session) => if !session_helpers::owned_by(session.owner_user_id, user_id) {
            (server, state::finished(Seq::empty(), Some(RelayErrorModel::SessionForbidden)))
        } else if session.owner_user_id.len() == 0 {
            state::updated(
                ServerModel {
                    sessions: string_map::put(
                        server.sessions,
                        session_id,
                        SessionModel { browser_id, owner_user_id: user_id, ..session },
                    ),
                    ..server
                },
                StoreModel {
                    sessions: with_owner(server.store.sessions, session_id, user_id),
                    ..server.store
                },
                FollowUpModel::SessionAdopted {
                    previous: string_map::lookup(server.store.sessions, session_id),
                    session_id,
                    browser_id,
                    user_id,
                },
            )
        } else {
            let after = ServerModel {
                sessions: string_map::put(
                    server.sessions,
                    session_id,
                    SessionModel { browser_id, ..session },
                ),
                ..server
            };
            (after, connections::ending_with(
                Seq::empty(),
                session_list(after, browser_id, user_id),
            ))
        },
    }
}

/// Once an owner is stored, the browsers hear of it, those of other users that
/// the session is gone.
pub open spec fn session_adopted_step(
    server: ServerModel,
    previous: Option<PersistedModel>,
    session_id: Seq<char>,
    browser_id: Seq<char>,
    user_id: Seq<char>,
) -> StepModel {
    match connections::session_update(server, previous, session_id) {
        Err(error) => state::finished(Seq::empty(), Some(error)),
        Ok(deliveries) => connections::ending_with(
            deliveries,
            session_list(server, browser_id, user_id),
        ),
    }
}

impl AppState {
    pub(crate) fn adopt_session(
        &mut self,
        browser_id: &str,
        browser_user_id: &str,
        session_id: String,
    ) -> (r: Step)
        ensures
            (final(self).deep_view(), r.deep_view()) == adopt_session_step(
                old(self).deep_view(),
                browser_id@,
                browser_user_id@,
                session_id@,
            ),
    {
        let previous = match self.store.sessions.get(session_id.as_str()) {
            Some(session) => Some(session.duplicate()),
            None => None,
        };
        match self.sessions.get(session_id.as_str()) {
            None => return fail(RelayError::UnknownSession { session_id }),
            Some(session) => {
                if !session_owned_by_user_id(session.owner_user_id.as_str(), browser_user_id) {
                    return fail(RelayError::SessionForbidden);
                }
            },
        }
        let claimed = match self.sessions.get_mut(session_id.as_str()) {
            None => false,
            Some(session) => {
                session.browser_id = browser_id.to_string();
                if is_empty_text(session.owner_user_id.as_str()) {
                    session.owner_user_id = browser_user_id.to_string();
                    true
                } else {
                    false
                }
            },
        };
        if claimed {
            let prior = self.store.events.len();
            match self.store.sessions.get_mut(session_id.as_str()) {
                Some(session) => {
                    session.summary.owner_user_id = Some(browser_user_id.to_string());
                },
                None => {},
            }
            self.update_store(
                prior,
                FollowUp::SessionAdopted {
                    previous,
                    session_id,
                    browser_id: browser_id.to_string(),
                    user_id: browser_user_id.to_string(),
                },
            )
        } else {
            end_with(vec_empty(), self.send_session_list(browser_id, browser_user_id))
        }
    }

    pub(crate) fn session_adopted(
        &self,
        previous: Option<PersistedRelaySession>,
        session_id: String,
        browser_id: String,
        user_id: String,
    ) -> (r: Step)
        ensures
            r.deep_view() == session_adopted_step(
                self.deep_view(),
                previous.deep_view(),
                session_id@,
                browser_id@,
                user_id@,
            ),
    {
        let told = match &previous {
            Some(previous) => self.broadcast_session_visibility_transition(
                previous,
                session_id.as_str(),
            ),
            None => self.broadcast_session_updated(session_id.as_str()),
        };
        match told {
            Err(error) => fail(error),
            Ok(deliveries) => end_with(
                deliveries,
                self.send_session_list(browser_id.as_str(), user_id.as_str()),
            ),
        }
    }
}

// ---------------------------------------------------------------------------
// Prompting
// ---------------------------------------------------------------------------

/// A browser sends a prompt to a session that it has and that is not closed.
pub open spec fn prompt_step(
    server: ServerModel,
    browser_id: Seq<char>,
    user_id: Seq<char>,
    session_id: Seq<char>,
    text: Seq<char>,
    now: u64,
) -> (ServerModel, StepModel) {
    match session_helpers::visible_session(server.store, user_id, session_id) {
        Err(error) => (server, state::finished(Seq::empty(), Some(error))),
        Ok(stored) => if session_helpers::is_closed(stored.summary.status) {
            (server, state::finished(Seq::empty(), Some(RelayErrorModel::PromptAfterClose)))
        } else {
            match session_helpers::browser_session(
                server.sessions,
                browser_id,
                user_id,
                session_id,
            ) {
                Err(error) => (server, state::finished(Seq::empty(), Some(error))),
                Ok(session) => state::updated(
                    ServerModel { next_event_id: state::counted(server.next_event_id), ..server },
                    StoreModel {
                        sessions: session_helpers::with_status(
                            server.store.sessions,
                            session.session_id,
                            SESSION_STATUS_RUNNING@,
                            now,
                        ),
                        events: server.store.events.push(
                            session_helpers::event(
                                server.next_event_id,
                                session.session_id,
                                now,
                                "prompt_submitted"@,
                                Some(text),
                            ),
                        ),
                        ..server.store
                    },
                    FollowUpModel::PromptSubmitted {
                        session_id,
                        device_id: session.device_id,
                        prompted_session_id: session.session_id,
                        text,
                    },
                ),
            }
        },
    }
}

/// Once a prompt is stored, the browsers hear of the session and the device of
/// the prompt.
pub open spec fn prompt_submitted_step(
    server: ServerModel,
    session_id: Seq<char>,
    device_id: Seq<char>,
    prompted_session_id: Seq<char>,
    text: Seq<char>,
) -> StepModel {
    match connections::session_update(server, None, session_id) {
        Err(error) => state::finished(Seq::empty(), Some(error)),
        Ok(deliveries) => connections::ending_with(
            deliveries,
            connections::to_client(
                server,
                device_id,
                ServerMessageModel::Prompt {
                    session_id: Some(prompted_session_id),
                    text,
                    create_session_if_missing: false,
                },
            ),
        ),
    }
}

impl AppState {
    pub(crate) fn prompt(
        &mut self,
        browser_id: &str,
        browser_user_id: &str,
        session_id: String,
        text: String,
        now: u64,
    ) -> (r: Step)
        ensures
            (final(self).deep_view(), r.deep_view()) == prompt_step(
                old(self).deep_view(),
                browser_id@,
                browser_user_id@,
                session_id@,
                text@,
                now,
            ),
    {
        match get_visible_session_summary(&self.store, browser_user_id, session_id.as_str()) {
            Err(error) => return fail(error),
            Ok(stored) => {
                if session_is_closed(stored.summary.status.as_str()) {
                    return fail(RelayError::PromptAfterClose);
                }
            },
        }
        let session = match get_browser_session(
            &self.sessions,
            browser_id,
            browser_user_id,
            session_id.as_str(),
        ) {
            Ok(session) => session,
            Err(error) => return fail(error),
        };
        let seq = self.next_event_seq();
        let prior = self.store.events.len();
        set_status(
            &mut self.store.sessions,
            session.session_id.as_str(),
            SESSION_STATUS_RUNNING,
            now,
        );
        vec_push(
            &mut self.store.events,
            new_event(
                seq,
                session.session_id.as_str(),
                now,
                "prompt_submitted",
                Some(text.clone()),
            ),
        );
        self.update_store(
            prior,
            FollowUp::PromptSubmitted {
                session_id,
                device_id: session.device_id,
                prompted_session_id: session.session_id,
                text,
            },
        )
    }

    pub(crate) fn prompt_submitted(
        &self,
        session_id: String,
        device_id: String,
        prompted_session_id: String,
        text: String,
    ) -> (r: Step)
        ensures
            r.deep_view() == prompt_submitted_step(
                self.deep_view(),
                session_id@,
                device_id@,
                prompted_session_id@,
                text@,
            ),
    {
        match self.broadcast_session_updated(session_id.as_str()) {
            Err(error) => fail(error),
            Ok(deliveries) => {
                let message = ServerToClientMessage::Prompt {
                    session_id: Some(prompted_session_id),
                    text,
                    create_session_if_missing: false,
                };
                end_with(deliveries, self.send_to_client(device_id.as_str(), message))
            },
        }
    }
}

// ---------------------------------------------------------------------------
// History
// ---------------------------------------------------------------------------

/// A browser asks for a page of the history of a session that its user may see.
pub open spec fn history_step(
    server: ServerModel,
    browser_id: Seq<char>,
    user_id: Seq<char>,
    session_id: Seq<char>,
    before_seq: Option<u64>,
    limit: Option<usize>,
) -> StepModel {
    match session_helpers::visible_session(server.store, user_id, session_id) {
        Err(error) => state::finished(Seq::empty(), Some(error)),
        Ok(_) => {
            let (events, next_before_seq, has_more) = session_helpers::history_page(
                server.store.events,
                session_id,
                before_seq,
                limit,
            );
            connections::ending_with(
                Seq::empty(),
                connections::to_browser(
                    server,
                    browser_id,
                    BrowserReplyModel::SessionHistory {
                        session_id,
                        events,
                        next_before_seq,
                        has_more,
                    },
                ),
            )
        },
    }
}

impl AppState {
    pub(crate) fn session_history(
        &self,
        browser_id: &str,
        browser_user_id: &str,
        session_id: String,
        before_seq: Option<u64>,
        limit: Option<usize>,
    ) -> (r: Step)
        ensures
            r.deep_view() == history_step(
                self.deep_view(),
                browser_id@,
                browser_user_id@,
                session_id@,
                before_seq,
                limit,
            ),
    {
        match get_visible_session_summary(&self.store, browser_user_id, session_id.as_str()) {
            Err(error) => fail(error),
            Ok(_) => {
                let (events, next_before_seq, has_more) = paginate_session_events(
                    &self.store,
                    session_id.as_str(),
                    before_seq,
                    limit,
                );
                let message = ServerToBrowserMessage::SessionHistory {
                    session_id,
                    events,
                    next_before_seq,
                    has_more,
                };
                end_with(vec_empty(), self.send_to_browser(browser_id, message))
            },
        }
    }
}

// ---------------------------------------------------------------------------
// Answering a permission request
// ---------------------------------------------------------------------------

/// The event that records an answer.
pub open spec fn permission_event(
    seq: u64,
    session_id: Option<Seq<char>>,
    now: u64,
    request_id: Seq<char>,
    selected_index: usize,
) -> EventModel {
    EventModel {
        request_id: Some(request_id),
        ..session_helpers::event(
            seq,
            relay_state::text_or_empty(session_id),
            now,
            "permission_resolved"@,
            Some("selected_index="@ + text::decimal(selected_index as nat)),
        )
    }
}

/// A browser answers a permission request. The request is then settled, but the
/// answer counts only where the browser was the one that was asked.
pub open spec fn resolve_permission_step(
    server: ServerModel,
    browser_id: Seq<char>,
    request_id: Seq<char>,
    selected_index: usize,
    now: u64,
) -> (ServerModel, StepModel) {
    match string_map::lookup(server.permissions, request_id) {
        None => (
            server,
            state::finished(Seq::empty(), Some(RelayErrorModel::UnknownPermission { request_id })),
        ),
        Some(pending) => {
            let settled = ServerModel {
                permissions: string_map::erase(server.permissions, request_id),
                ..server
            };
            if pending.browser_id != browser_id {
                (
                    settled,
                    state::finished(Seq::empty(), Some(RelayErrorModel::PermissionOfOtherBrowser)),
                )
            } else {
                state::updated(
                    ServerModel { next_event_id: state::counted(server.next_event_id), ..settled },
                    StoreModel {
                        sessions: match pending.session_id {
                            Some(session_id) => session_helpers::with_status(
                                server.store.sessions,
                                session_id,
                                SESSION_STATUS_RUNNING@,
                                now,
                            ),
                            None => server.store.sessions,
                        },
                        events: server.store.events.push(
                            permission_event(
                                server.next_event_id,
                                pending.session_id,
                                now,
                                request_id,
                                selected_index,
                            ),
                        ),
                        ..server.store
                    },
                    FollowUpModel::PermissionResolved {
                        session_id: pending.session_id,
                        device_id: pending.device_id,
                        request_id,
                        selected_index,
                    },
                )
            }
        },
    }
}

/// Once an answer is stored, the browsers hear of the session and the device of
/// the answer.
pub open spec fn permission_resolved_step(
    server: ServerModel,
    session_id: Option<Seq<char>>,
    device_id: Seq<char>,
    request_id: Seq<char>,
    selected_index: usize,
) -> StepModel {
    let told = match session_id {
        Some(session_id) => connections::session_update(server, None, session_id),
        None => Ok(Seq::empty()),
    };
    match told {
        Err(error) => state::finished(Seq::empty(), Some(error)),
        Ok(deliveries) => connections::ending_with(
            deliveries,
            connections::to_client(
                server,
                device_id,
                ServerMessageModel::ResolvePermission { request_id, selected_index },
            ),
        ),
    }
}

impl AppState {
    pub(crate) fn resolve_permission(
        &mut self,
        browser_id: &str,
        request_id: String,
        selected_index: usize,
        now: u64,
    ) -> (r: Step)
        ensures
            (final(self).deep_view(), r.deep_view()) == resolve_permission_step(
                old(self).deep_view(),
                browser_id@,
                request_id@,
                selected_index,
                now,
            ),
    {
        let pending = match self.permissions.remove(request_id.as_str()) {
            Some(pending) => pending,
            None => {
                return fail(RelayError::UnknownPermission { request_id });
            },
        };
        if !same(pending.browser_id.as_str(), browser_id) {
            return fail(RelayError::PermissionOfOtherBrowser);
        }
        let seq = self.next_event_seq();
        let prior = self.store.events.len();
        let session_id = match &pending.session_id {
            Some(session_id) => {
                set_status(
                    &mut self.store.sessions,
                    session_id.as_str(),
                    SESSION_STATUS_RUNNING,
                    now,
                );
                session_id.clone()
            },
            None => String::new(),
        };
        let text = join2("selected_index=", number_string(selected_index as u64).as_str());
        let mut event = new_event(
            seq,
            session_id.as_str(),
            now,
            "permission_resolved",
            Some(text),
        );
        event.request_id = Some(request_id.clone());
        vec_push(&mut self.store.events, event);
        self.update_store(
            prior,
            FollowUp::PermissionResolved {
                session_id: pending.session_id,
                device_id: pending.device_id,
                request_id,
                selected_index,
            },
        )
    }

    pub(crate) fn permission_resolved(
        &self,
        session_id: Option<String>,
        device_id: String,
        request_id: String,
        selected_index: usize,
    ) -> (r: Step)
        ensures
            r.deep_view() == permission_resolved_step(
                self.deep_view(),
                session_id.deep_view(),
                device_id@,
                request_id@,
                selected_index,
            ),
    {
        let told = match &session_id {
            Some(session_id) => self.broadcast_session_updated(session_id.as_str()),
            None => Ok(vec_empty()),
        };
        match told {
            Err(error) => fail(error),
            Ok(deliveries) => {
                let message = ServerToClientMessage::ResolvePermission {
                    request_id,
                    selected_index,
                };
                end_with(deliveries, self.send_to_client(device_id.as_str(), message))
            },
        }
    }
}

// ---------------------------------------------------------------------------
// Closing a session
// ---------------------------------------------------------------------------

/// A browser closes a session that its user may see.
pub open spec fn close_session_step(
    server: ServerModel,
    browser_id: Seq<char>,
    user_id: Seq<char>,
    session_id: Seq<char>,
    now: u64,
) -> (ServerModel, StepModel) {
    match session_helpers::visible_session(server.store, user_id, session_id) {
        Err(error) => (server, state::finished(Seq::empty(), Some(error))),
        Ok(stored) => if session_helpers::is_closed(stored.summary.status) {
            (
                server,
                connections::ending_with(
                    Seq::empty(),
                    connections::to_browser(
                        server,
                        browser_id,
                        BrowserReplyModel::SessionClosed { session_id },
                    ),
                ),
            )
        } else {
            state::updated(
                ServerModel { next_event_id: state::counted(server.next_event_id), ..server },
                StoreModel {
                    sessions: session_helpers::with_status(
                        server.store.sessions,
                        session_id,
                        SESSION_STATUS_CLOSED@,
                        now,
                    ),
                    events: server.store.events.push(
                        session_helpers::event(
                            server.next_event_id,
                            session_id,
                            now,
                            "session_closed"@,
                            None,
                        ),
                    ),
                    ..server.store
                },
                FollowUpModel::SessionClosed { session_id },
            )
        },
    }
}

/// The command that stops a session on its device, where the session is known
/// there and the device is connected.
pub open spec fn cancellation(server: ServerModel, session_id: Seq<char>) -> Seq<DeliveryModel> {
    match string_map::lookup(server.sessions, session_id) {
        Some(session) => if session.client_session_id is Some && server.devices.contains(
            session.device_id,
        ) {
            seq![
                DeliveryModel::Client {
                    device_id: session.device_id,
                    message: ServerMessageModel::CancelSession { session_id },
                    required: false,
                },
            ]
        } else {
            Seq::empty()
        },
        None => Seq::empty(),
    }
}

/// Once it is stored that a session is closed, its permission requests are
/// dropped, its device is told to stop, and the browsers hear of it.
pub open spec fn session_closed_step(server: ServerModel, session_id: Seq<char>) -> (
    ServerModel,
    StepModel,
) {
    let after = ServerModel {
        permissions: connections::without_session(server.permissions, session_id),
        ..server
    };
    let stop = cancellation(after, session_id);
    (
        after,
        match (
            connections::session_update(after, None, session_id),
            connections::session_closed_broadcast(after, session_id),
        ) {
            (Ok(updates), Ok(closings)) => state::finished(stop + updates + closings, None),
            (Err(error), _) => state::finished(stop, Some(error)),
            (Ok(updates), Err(error)) => state::finished(stop + updates, Some(error)),
        },
    )
}

impl AppState {
    pub(crate) fn close_session(
        &mut self,
        browser_id: &str,
        browser_user_id: &str,
        session_id: String,
        now: u64,
    ) -> (r: Step)
        ensures
            (final(self).deep_view(), r.deep_view()) == close_session_step(
                old(self).deep_view(),
                browser_id@,
                browser_user_id@,
                session_id@,
                now,
            ),
    {
        match get_visible_session_summary(&self.store, browser_user_id, session_id.as_str()) {
            Err(error) => return fail(error),
            Ok(stored) => {
                if session_is_closed(stored.summary.status.as_str()) {
                    let message = ServerToBrowserMessage::SessionClosed { session_id };
                    return end_with(vec_empty(), self.send_to_browser(browser_id, message));
                }
            },
        }
        let seq = self.next_event_seq();
        let prior = self.store.events.len();
        set_status(&mut self.store.sessions, session_id.as_str(), SESSION_STATUS_CLOSED, now);
        vec_push(
            &mut self.store.events,
            new_event(seq, session_id.as_str(), now, "session_closed", None),
        );
        self.update_store(prior, FollowUp::SessionClosed { session_id })
    }

    fn cancel_on_device(&self, session_id: &str) -> (r: Vec<Delivery>)
        ensures
            r.deep_view() == cancellation(self.deep_view(), session_id@),
    {
        let mut deliveries: Vec<Delivery> = vec_empty();
        match self.sessions.get(session_id) {
            Some(session) => {
                if session.client_session_id.is_some() && self.devices.contains(
                    session.device_id.as_str(),
                ) {
                    let message = ServerToClientMessage::CancelSession {
                        session_id: session_id.to_string(),
                    };
                    let device_id = session.device_id.clone();
                    vec_push(
                        &mut deliveries,
                        Delivery::Client { device_id, message, required: false },
                    );
                }
            },
            None => {},
        }
        assert(deliveries.deep_view() =~= cancellation(self.deep_view(), session_id@));
        deliveries
    }

    pub(crate) fn session_closed(&mut self, session_id: String) -> (r: Step)
        ensures
            (final(self).deep_view(), r.deep_view()) == session_closed_step(
                old(self).deep_view(),
                session_id@,
            ),
    {
        drop_permissions(&mut self.permissions, &Dropped::OfSession(session_id.as_str()));
        let mut deliveries = self.cancel_on_device(session_id.as_str());
        match self.broadcast_session_updated(session_id.as_str()) {
            Err(error) => finish(deliveries, Some(error)),
            Ok(updates) => {
                vec_append(&mut deliveries, updates);
                match self.broadcast_session_closed(session_id.as_str()) {
                    Err(error) => finish(deliveries, Some(error)),
                    Ok(closings) => {
                        vec_append(&mut deliveries, closings);
                        finish(deliveries, None)
                    },
                }
            },
        }
    }
}

// ---------------------------------------------------------------------------
// Deleting a session
// ---------------------------------------------------------------------------

/// A browser deletes a closed session that its user may see.
pub open spec fn delete_session_step(
    server: ServerModel,
    user_id: Seq<char>,
    session_id: Seq<char>,
    now: u64,
) -> (ServerModel, StepModel) {
    match session_helpers::visible_session(server.store, user_id, session_id) {
        Err(error) => (server, state::finished(Seq::empty(), Some(error))),
        Ok(previous) => if !session_helpers::is_closed(previous.summary.status) {
            (server, state::finished(Seq::empty(), Some(RelayErrorModel::DeleteBeforeClose)))
        } else {
            state::updated(
                ServerModel {
                    next_event_id: state::counted(server.next_event_id),
                    sessions: string_map::erase(server.sessions, session_id),
                    permissions: connections::without_session(server.permissions, session_id),
                    ..server
                },
                session_helpers::session_deleted(
                    server.store,
                    session_id,
                    user_id,
                    now,
                    server.next_event_id,
                ),
                FollowUpModel::SessionDeleted { previous },
            )
        },
    }
}

/// Once it is stored that a session is deleted, the browsers hear that it is gone.
pub open spec fn session_deleted_step(server: ServerModel, previous: PersistedModel) -> StepModel {
    match connections::session_delta(server, Some(previous), None) {
        Err(error) => state::finished(Seq::empty(), Some(error)),
        Ok(deliveries) => state::finished(deliveries, None),
    }
}

impl AppState {
    pub(crate) fn delete_session(
        &mut self,
        browser_user_id: &str,
        session_id: String,
        now: u64,
    ) -> (r: Step)
        ensures
            (final(self).deep_view(), r.deep_view()) == delete_session_step(
                old(self).deep_view(),
                browser_user_id@,
                session_id@,
                now,
            ),
    {
        let previous = match get_visible_session_summary(
            &self.store,
            browser_user_id,
            session_id.as_str(),
        ) {
            Err(error) => return fail(error),
            Ok(previous) => previous,
        };
        if !session_is_closed(previous.summary.status.as_str()) {
            return fail(RelayError::DeleteBeforeClose);
        }
        let seq = self.next_event_seq();
        self.sessions.remove(session_id.as_str());
        drop_permissions(&mut self.permissions, &Dropped::OfSession(session_id.as_str()));
        let prior = self.store.events.len();
        delete_session_from_store(
            &mut self.store,
            session_id.as_str(),
            browser_user_id,
            now,
            seq,
        );
        self.update_store(prior, FollowUp::SessionDeleted { previous })
    }

    pub(crate) fn session_deleted(&self, previous: PersistedRelaySession) -> (r: Step)
        ensures
            r.deep_view() == session_deleted_step(self.deep_view(), previous.deep_view()),
    {
        match self.broadcast_session_delta(Some(&previous), None) {
            Err(error) => fail(error),
            Ok(deliveries) => finish(deliveries, None),
        }
    }
}

// ---------------------------------------------------------------------------
// All messages
// ---------------------------------------------------------------------------

/// How a message from a browser is answered.
pub open spec fn browser_message_step(
    server: ServerModel,
    browser_id: Seq<char>,
    user_id: Seq<char>,
    message: BrowserRequestModel,
    now: u64,
) -> (ServerModel, StepModel) {
    match message {
        BrowserRequestModel::ListDevices => (
            server,
            connections::ending_with(Seq::empty(), device_list(server, browser_id)),
        ),
        BrowserRequestModel::ListSessions => (
            server,
            connections::ending_with(Seq::empty(), session_list(server, browser_id, user_id)),
        ),
        BrowserRequestModel::CreateSession { device_id, workspace_id } => create_session_step(
            server,
            browser_id,
            user_id,
            device_id,
            workspace_id,
            now,
        ),
        BrowserRequestModel::AdoptSession { session_id } => adopt_session_step(
            server,
            browser_id,
            user_id,
            session_id,
        ),
        BrowserRequestModel::Prompt { session_id, text } => prompt_step(
            server,
            browser_id,
            user_id,
            session_id,
            text,
            now,
        ),
        BrowserRequestModel::GetSessionHistory { session_id, before_seq, limit } => (
            server,
            history_step(server, browser_id, user_id, session_id, before_seq, limit),
        ),
        BrowserRequestModel::ResolvePermission { request_id, selected_index } =>
            resolve_permission_step(server, browser_id, request_id, selected_index, now),
        BrowserRequestModel::CloseSession { session_id } => close_session_step(
            server,
            browser_id,
            user_id,
            session_id,
            now,
        ),
        BrowserRequestModel::DeleteSession { session_id } => delete_session_step(
            server,
            user_id,
            session_id,
            now,
        ),
        BrowserRequestModel::Ping => (server, state::finished(Seq::empty(), None)),
    }
}

impl AppState {
    /// Answers a message that came from a browser at a given time.
    pub fn handle_browser_message_at(
        &mut self,
        browser_id: &str,
        browser_user_id: &str,
        message: BrowserToServerMessage,
        now: u64,
    ) -> (r: Step)
        ensures
            (final(self).deep_view(), r.deep_view()) == browser_message_step(
                old(self).deep_view(),
                browser_id@,
                browser_user_id@,
                message.deep_view(),
                now,
            ),
    {
        match message {
            BrowserToServerMessage::ListDevices => end_with(
                vec_empty(),
                self.send_device_list(browser_id),
            ),
            BrowserToServerMessage::ListSessions => end_with(
                vec_empty(),
                self.send_session_list(browser_id, browser_user_id),
            ),
            BrowserToServerMessage::CreateSession { device_id, workspace_id } =>
                self.create_session(browser_id, browser_user_id, device_id, workspace_id, now),
            BrowserToServerMessage::AdoptSession { session_id } => self.adopt_session(
                browser_id,
                browser_user_id,
                session_id,
            ),
            BrowserToServerMessage::Prompt { session_id, text } => self.prompt(
                browser_id,
                browser_user_id,
                session_id,
                text,
                now,
            ),
            BrowserToServerMessage::GetSessionHistory { session_id, before_seq, limit } =>
                self.session_history(browser_id, browser_user_id, session_id, before_seq, limit),
            BrowserToServerMessage::ResolvePermission { request_id, selected_index } =>
                self.resolve_permission(browser_id, request_id, selected_index, now),
            BrowserToServerMessage::CloseSession { session_id } => self.close_session(
                browser_id,
                browser_user_id,
                session_id,
                now,
            ),
            BrowserToServerMessage::DeleteSession { session_id } => self.delete_session(
                browser_user_id,
                session_id,
                now,
            ),
            BrowserToServerMessage::Ping => finish(vec_empty(), None),
        }
    }

    /// Answers a message from a browser.
    pub fn handle_browser_message(
        &mut self,
        browser_id: &str,
        browser_user_id: &str,
        message: BrowserToServerMessage,
    ) -> (r: Step)
        ensures
            exists|now: u64|
                (final(self).deep_view(), r.deep_view()) == #[trigger] browser_message_step(
                    old(self).deep_view(),
                    browser_id@,
                    browser_user_id@,
                    message.deep_view(),
                    now,
                ),
    {
        let now = unix_timestamp_secs();
        self.handle_browser_message_at(browser_id, browser_user_id, message, now)
    }
}

} // verus!
