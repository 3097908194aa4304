//! What holds of sessions, of those who may see them, and of permission requests.
use crate::protocol::{
    BrowserReplyModel, BrowserRequestModel, ClientMessageModel, DeviceModel, EventModel,
    ServerMessageModel, SummaryModel,
};
use crate::relay_server::browser_messages;
use crate::relay_server::client_messages;
use crate::relay_server::connections;
use crate::relay_server::follow_up;
use crate::relay_server::laws;
use crate::relay_server::session_helpers::{
    SESSION_STATUS_CLOSED, SESSION_STATUS_DEVICE_DISCONNECTED, SESSION_STATUS_RESUME_FAILED,
};
use crate::relay_server::session_helpers;
use crate::relay_server::sockets;
use crate::relay_server::state::{
    ClientAuthModel, FollowUpModel, PendingModel, RelayErrorModel, ServerModel, SessionModel,
    StepModel,
};
use crate::relay_server::state;
use crate::relay_state::{PersistedModel, StoreModel};
use crate::relay_state;
use crate::seqs;
use crate::sorting;
use crate::store_laws;
use crate::string_map;
use vstd::prelude::*;

verus! {

// ---------------------------------------------------------------------------
// Tokens
// ---------------------------------------------------------------------------

/// A revoked token is refused even where it is listed as accepted.
pub proof fn law_revoked_token_is_refused(auth: ClientAuthModel, token: Seq<char>)
    requires
        auth.revoked_tokens.contains(token),
    ensures
        !connections::token_allowed(auth, token),
{
}

// ---------------------------------------------------------------------------
// Refused requests
// ---------------------------------------------------------------------------

/// A request that is refused changes nothing and sends nothing. There are two
/// exceptions: an answer to a request that another browser was asked uses the
/// request up, and a browser that is gone may still adopt a session.
pub proof fn law_refused_request_changes_nothing(
    server: ServerModel,
    browser_id: Seq<char>,
    user_id: Seq<char>,
    message: BrowserRequestModel,
    now: u64,
)
    requires
        message is AdoptSession ==> string_map::holds(server.browsers, browser_id),
        message matches BrowserRequestModel::ResolvePermission { request_id, .. } ==> (
        string_map::lookup(server.permissions, request_id) matches Some(pending)
            ==> pending.browser_id == browser_id),
    ensures
        ({
            let (after, step) = browser_messages::browser_message_step(
                server,
                browser_id,
                user_id,
                message,
                now,
            );
            step matches StepModel::Finished { outcome } ==> outcome.error is Some ==> {
                &&& after == server
                &&& outcome.deliveries.len() == 0
            }
        }),
{
}

// ---------------------------------------------------------------------------
// Closed sessions
// ---------------------------------------------------------------------------

pub open spec fn stored_as_closed(
    sessions: Seq<(Seq<char>, PersistedModel)>,
    session_id: Seq<char>,
) -> bool {
    string_map::lookup(sessions, session_id) matches Some(session) && session_helpers::is_closed(
        session.summary.status,
    )
}

/// Whatever a home client reports, a closed session stays closed.
pub proof fn law_closed_session_stays_closed(
    server: ServerModel,
    device_id: Seq<char>,
    message: ClientMessageModel,
    now: u64,
    session_id: Seq<char>,
)
    requires
        stored_as_closed(server.store.sessions, session_id),
    ensures
        stored_as_closed(
            client_messages::client_message_step(server, device_id, message, now).0.store.sessions,
            session_id,
        ),
{
    let stored = server.store.sessions;
    let (after, step) = client_messages::client_message_step(server, device_id, message, now);
    if step is Persist {
        let changed_id = match message {
            ClientMessageModel::SessionCreated { session_id, .. } => session_id,
            ClientMessageModel::SessionResumed { session_id, .. } => session_id,
            ClientMessageModel::SessionResumeFailed { session_id, .. } => session_id,
            ClientMessageModel::OutputChunk { session_id, .. } => session_helpers::resolved_alias(
                server.sessions,
                device_id,
                session_id,
            ).unwrap(),
            ClientMessageModel::PromptFinished { session_id, .. } => session_helpers::resolved_alias(
                server.sessions,
                device_id,
                session_id,
            ).unwrap(),
            ClientMessageModel::PermissionRequested { session_id, .. } => client_messages::asked_session(
                server.sessions,
                device_id,
                session_id.unwrap(),
            ),
            _ => session_id,
        };
        assert forall|value: PersistedModel|
            string_map::lookup(
                #[trigger] string_map::put(stored, changed_id, value),
                session_id,
            ) == if session_id
                == changed_id {
                Some(value)
            } else {
                string_map::lookup(stored, session_id)
            } by {
            string_map::law_lookup_after_put(stored, changed_id, value, session_id);
        }
    }
}

/// What is found under an id after each of the sessions was changed.
proof fn lemma_lookup_of_disconnected(
    sessions: Seq<(Seq<char>, PersistedModel)>,
    device_id: Seq<char>,
    now: u64,
    session_id: Seq<char>,
)
    ensures
        string_map::lookup(
            sessions.map_values(
                |entry: (Seq<char>, PersistedModel)|
                    (entry.0, session_helpers::disconnected_session(entry.1, device_id, now)),
            ),
            session_id,
        ) == match string_map::lookup(sessions, session_id) {
            Some(session) => Some(
                session_helpers::disconnected_session(session, device_id, now),
            ),
            None => None,
        },
{
    let after = sessions.map_values(
        |entry: (Seq<char>, PersistedModel)|
            (entry.0, session_helpers::disconnected_session(entry.1, device_id, now)),
    );
    lemma_same_position(sessions, after, session_id);
}

proof fn lemma_same_position(
    sessions: Seq<(Seq<char>, PersistedModel)>,
    after: Seq<(Seq<char>, PersistedModel)>,
    session_id: Seq<char>,
)
    requires
        sessions.len() == after.len(),
        forall|i: int| 0 <= i < sessions.len() ==> (#[trigger] after[i]).0 == sessions[i].0,
    ensures
        string_map::position(after, session_id) == string_map::position(sessions, session_id),
        0 <= string_map::position(sessions, session_id) <= sessions.len(),
{
    string_map::lemma_position(sessions, session_id);
    string_map::lemma_position(after, session_id);
    let p = string_map::position(sessions, session_id);
    let q = string_map::position(after, session_id);
    if p < q {
        assert(after[p].0 == sessions[p].0);
    }
    if q < p {
        assert(after[q].0 == sessions[q].0);
    }
}

/// Devices that come and go, and what follows from it, leave a closed session
/// closed.
pub proof fn law_devices_leave_a_closed_session_closed(
    server: ServerModel,
    device: DeviceModel,
    next: FollowUpModel,
    failure: Option<Seq<char>>,
    now: u64,
    session_id: Seq<char>,
)
    requires
        stored_as_closed(server.store.sessions, session_id),
    ensures
        stored_as_closed(
            sockets::connect_device_step(server, device).0.store.sessions,
            session_id,
        ),
        stored_as_closed(
            sockets::disconnect_device_step(server, device).0.store.sessions,
            session_id,
        ),
        stored_as_closed(
            follow_up::follow_up_step(server, next, failure, now).0.store.sessions,
            session_id,
        ),
{
    match next {
        FollowUpModel::DeviceDisconnected { device } => {
            lemma_lookup_of_disconnected(
                server.store.sessions,
                device.device_id,
                now,
                session_id,
            );
        },
        _ => {},
    }
}

/// Each session is routed under its own id.
pub open spec fn routed_under_own_ids(sessions: Seq<(Seq<char>, SessionModel)>) -> bool {
    forall|id: Seq<char>|
        (#[trigger] string_map::lookup(sessions, id)) matches Some(session) ==> session.session_id
            == id
}

/// Messages from browsers leave each session routed under its own id.
pub proof fn law_browser_messages_keep_routes(
    server: ServerModel,
    browser_id: Seq<char>,
    user_id: Seq<char>,
    message: BrowserRequestModel,
    now: u64,
)
    requires
        routed_under_own_ids(server.sessions),
        string_map::distinct(server.sessions),
    ensures
        routed_under_own_ids(
            browser_messages::browser_message_step(
                server,
                browser_id,
                user_id,
                message,
                now,
            ).0.sessions,
        ),
{
    let after = browser_messages::browser_message_step(
        server,
        browser_id,
        user_id,
        message,
        now,
    ).0.sessions;
    let changed_id = match message {
        BrowserRequestModel::CreateSession { .. } => store_laws::relay_session_id(
            server.next_session_id as nat,
        ),
        BrowserRequestModel::AdoptSession { session_id } => session_id,
        BrowserRequestModel::DeleteSession { session_id } => session_id,
        _ => Seq::empty(),
    };
    assert forall|id: Seq<char>|
        (#[trigger] string_map::lookup(after, id)) is Some implies string_map::lookup(
        after,
        id,
    ).unwrap().session_id == id by {
        lemma_change_of_route(server.sessions, changed_id, id);
        assert(string_map::lookup(server.sessions, changed_id) matches Some(session)
            ==> session.session_id == changed_id);
        assert(string_map::lookup(server.sessions, id) matches Some(session) ==> session.session_id
            == id);
    }
}

/// Messages from home clients leave each session routed under its own id.
pub proof fn law_client_messages_keep_routes(
    server: ServerModel,
    device_id: Seq<char>,
    message: ClientMessageModel,
    now: u64,
)
    requires
        routed_under_own_ids(server.sessions),
        string_map::distinct(server.sessions),
    ensures
        routed_under_own_ids(
            client_messages::client_message_step(server, device_id, message, now).0.sessions,
        ),
{
    let after = client_messages::client_message_step(server, device_id, message, now).0.sessions;
    let changed_id = match message {
        ClientMessageModel::SessionCreated { session_id, .. } => session_id,
        ClientMessageModel::SessionResumed { session_id, .. } => session_id,
        _ => Seq::empty(),
    };
    assert forall|id: Seq<char>|
        (#[trigger] string_map::lookup(after, id)) is Some implies string_map::lookup(
        after,
        id,
    ).unwrap().session_id == id by {
        lemma_change_of_route(server.sessions, changed_id, id);
        assert(string_map::lookup(server.sessions, changed_id) matches Some(session)
            ==> session.session_id == changed_id);
        assert(string_map::lookup(server.sessions, id) matches Some(session) ==> session.session_id
            == id);
    }
}

/// What is found under an id after one session was changed or removed.
proof fn lemma_change_of_route<V>(
    entries: Seq<(Seq<char>, V)>,
    changed_id: Seq<char>,
    id: Seq<char>,
)
    requires
        string_map::distinct(entries),
    ensures
        forall|value: V|
            string_map::lookup(#[trigger] string_map::put(entries, changed_id, value), id) == (
            if id == changed_id {
                Some(value)
            } else {
                string_map::lookup(entries, id)
            }),
        string_map::lookup(string_map::erase(entries, changed_id), id) == (if id == changed_id {
            None
        } else {
            string_map::lookup(entries, id)
        }),
{
    string_map::law_lookup_after_erase(entries, changed_id, id);
    assert forall|value: V|
        string_map::lookup(#[trigger] string_map::put(entries, changed_id, value), id) == (if id
            == changed_id {
            Some(value)
        } else {
            string_map::lookup(entries, id)
        }) by {
        string_map::law_lookup_after_put(entries, changed_id, value, id);
    }
}

/// Whatever a browser asks for, a closed session stays closed until it is
/// deleted. The one exception is the answer to a request of that session that is
/// still pending.
pub proof fn law_browsers_leave_a_closed_session_closed(
    server: ServerModel,
    browser_id: Seq<char>,
    user_id: Seq<char>,
    message: BrowserRequestModel,
    now: u64,
    session_id: Seq<char>,
)
    requires
        stored_as_closed(server.store.sessions, session_id),
        laws::counters_ahead(server),
        routed_under_own_ids(server.sessions),
        string_map::distinct(server.store.sessions),
        message matches BrowserRequestModel::DeleteSession { session_id: deleted_id }
            ==> browser_messages::delete_session_step(server, user_id, deleted_id, now).1 is Persist
            ==> deleted_id != session_id,
        message matches BrowserRequestModel::ResolvePermission { request_id, .. } ==> (
        string_map::lookup(server.permissions, request_id) matches Some(pending)
            ==> pending.browser_id == browser_id ==> pending.session_id != Some(session_id)),
    ensures
        stored_as_closed(
            browser_messages::browser_message_step(
                server,
                browser_id,
                user_id,
                message,
                now,
            ).0.store.sessions,
            session_id,
        ),
{
    let stored = server.store.sessions;
    laws::law_new_session_id_is_unused(server);
    let changed_id = match message {
        BrowserRequestModel::CreateSession { .. } => store_laws::relay_session_id(
            server.next_session_id as nat,
        ),
        BrowserRequestModel::AdoptSession { session_id } => session_id,
        BrowserRequestModel::Prompt { session_id, .. } => session_id,
        BrowserRequestModel::CloseSession { session_id } => session_id,
        BrowserRequestModel::DeleteSession { session_id } => session_id,
        BrowserRequestModel::ResolvePermission { request_id, .. } => match string_map::lookup(
            server.permissions,
            request_id,
        ) {
            Some(pending) => relay_state::text_or_empty(pending.session_id),
            None => Seq::empty(),
        },
        _ => Seq::empty(),
    };
    lemma_change_of_route(stored, changed_id, session_id);
}

/// Once a session was closed, prompts to it are refused.
pub proof fn law_closed_session_takes_no_prompt(
    server: ServerModel,
    browser_id: Seq<char>,
    user_id: Seq<char>,
    session_id: Seq<char>,
    text: Seq<char>,
    closed_at: u64,
    now: u64,
)
    requires
        session_helpers::visible_session(server.store, user_id, session_id) is Ok,
    ensures
        ({
            let after = browser_messages::close_session_step(
                server,
                browser_id,
                user_id,
                session_id,
                closed_at,
            ).0;
            browser_messages::prompt_step(after, browser_id, user_id, session_id, text, now) == (
                after,
                state::finished(Seq::empty(), Some(RelayErrorModel::PromptAfterClose)),
            )
        }),
{
    let session = string_map::lookup(server.store.sessions, session_id).unwrap();
    string_map::law_lookup_after_put(
        server.store.sessions,
        session_id,
        PersistedModel {
            summary: SummaryModel {
                status: SESSION_STATUS_CLOSED@,
                updated_at: closed_at,
                ..session.summary
            },
            ..session
        },
        session_id,
    );
}

proof fn lemma_compact_sessions(events: Seq<EventModel>, session_id: Seq<char>)
    requires
        forall|i: int|
            0 <= i < events.len() ==> (#[trigger] events[i]).session_id != session_id,
    ensures
        forall|i: int|
            0 <= i < relay_state::compact(
                events,
            ).len() ==> (#[trigger] relay_state::compact(events)[i]).session_id
                != session_id,
    decreases events.len(),
{
    if events.len() > 0 {
        let rest = events.drop_last();
        assert forall|i: int| 0 <= i < rest.len() implies (#[trigger] rest[i]).session_id
            != session_id by {
            assert(rest[i] == events[i]);
        }
        lemma_compact_sessions(rest, session_id);
        assert(events.last() == events[events.len() - 1]);
        let done = relay_state::compact(rest);
        if done.len() > 0 {
            assert(done.last() == done[done.len() - 1]);
        }
    }
}

/// Once a session was deleted, no trace of it is left but the record of the
/// deletion: it is gone from the routing, the store, the history and the
/// pending requests.
pub proof fn law_deleted_session_is_gone(
    server: ServerModel,
    user_id: Seq<char>,
    session_id: Seq<char>,
    now: u64,
)
    requires
        session_helpers::visible_session(server.store, user_id, session_id) is Ok,
        stored_as_closed(server.store.sessions, session_id),
        session_id.len() > 0,
        string_map::distinct(server.store.sessions),
        string_map::distinct(server.sessions),
    ensures
        ({
            let (after, step) = browser_messages::delete_session_step(
                server,
                user_id,
                session_id,
                now,
            );
            &&& step is Persist
            &&& string_map::lookup(after.sessions, session_id) is None
            &&& string_map::lookup(after.store.sessions, session_id) is None
            &&& forall|i: int|
                0 <= i < after.store.events.len() ==> (#[trigger] after.store.events[i]).session_id
                    != session_id
            &&& forall|i: int|
                0 <= i < after.permissions.len() ==> (#[trigger] after.permissions[i]).1.session_id
                    != Some(session_id)
        }),
{
    let (after, step) = browser_messages::delete_session_step(server, user_id, session_id, now);
    string_map::law_lookup_after_erase(server.sessions, session_id, session_id);
    string_map::law_lookup_after_erase(server.store.sessions, session_id, session_id);
    let kept = |event: EventModel| event.session_id != session_id;
    let changed = session_helpers::session_deleted(
        server.store,
        session_id,
        user_id,
        now,
        server.next_event_id,
    );
    seqs::lemma_filter_members(server.store.events, kept);
    assert forall|i: int| 0 <= i < changed.events.len() implies (
    #[trigger] changed.events[i]).session_id != session_id by {
        if i < changed.events.len() - 1 {
            assert(kept(server.store.events.filter(kept)[i]));
        }
    }
    lemma_compact_sessions(changed.events, session_id);
    seqs::lemma_filter_members(
        server.permissions,
        |entry: (Seq<char>, PendingModel)| entry.1.session_id != Some(session_id),
    );
}

// ---------------------------------------------------------------------------
// Who may see a session
// ---------------------------------------------------------------------------

/// A session without an owner is open to everyone until someone adopts it; from
/// then on it is open to that user alone, and the browsers of all others are
/// told that it is gone.
pub proof fn law_adoption_claims_the_session(
    server: ServerModel,
    browser_id: Seq<char>,
    user_id: Seq<char>,
    other_user_id: Seq<char>,
    session_id: Seq<char>,
)
    requires
        string_map::lookup(
            server.sessions,
            session_id,
        ) matches Some(session) && session.owner_user_id.len()
            == 0,
        string_map::lookup(
            server.store.sessions,
            session_id,
        ) matches Some(stored) && relay_state::text_or_empty(
            stored.summary.owner_user_id,
        ).len() == 0,
        user_id.len() > 0,
        other_user_id != user_id,
    ensures
        session_helpers::visible_session(server.store, other_user_id, session_id) is Ok,
        ({
            let after = browser_messages::adopt_session_step(
                server,
                browser_id,
                user_id,
                session_id,
            ).0;
            let previous = string_map::lookup(server.store.sessions, session_id);
            let current = string_map::lookup(after.store.sessions, session_id);
            &&& session_helpers::visible_session(after.store, user_id, session_id) is Ok
            &&& session_helpers::visible_session(after.store, other_user_id, session_id) == Err::<
                PersistedModel,
                RelayErrorModel,
            >(RelayErrorModel::SessionForbidden)
            &&& connections::delta_message(previous, current, user_id) == Some(
                BrowserReplyModel::SessionUpdated { session: current.unwrap().summary },
            )
            &&& connections::delta_message(previous, current, other_user_id) == Some(
                BrowserReplyModel::SessionRemoved {
                    session_id: current.unwrap().summary.session_id,
                },
            )
        }),
{
    let stored = string_map::lookup(server.store.sessions, session_id).unwrap();
    string_map::law_lookup_after_put(
        server.store.sessions,
        session_id,
        PersistedModel {
            summary: SummaryModel { owner_user_id: Some(user_id), ..stored.summary },
            ..stored
        },
        session_id,
    );
}

/// A session that one user owns cannot be prompted, closed, deleted, read or
/// adopted by another.
pub proof fn law_foreign_session_is_refused(
    server: ServerModel,
    browser_id: Seq<char>,
    user_id: Seq<char>,
    message: BrowserRequestModel,
    now: u64,
)
    requires
        ({
            let session_id = match message {
                BrowserRequestModel::Prompt { session_id, .. } => Some(session_id),
                BrowserRequestModel::CloseSession { session_id } => Some(session_id),
                BrowserRequestModel::DeleteSession { session_id } => Some(session_id),
                BrowserRequestModel::GetSessionHistory { session_id, .. } => Some(session_id),
                BrowserRequestModel::AdoptSession { session_id } => Some(session_id),
                _ => None,
            };
            &&& session_id is Some
            &&& string_map::lookup(server.store.sessions, session_id.unwrap()) matches Some(stored)
                && !session_helpers::visible_to(stored, user_id)
            &&& string_map::lookup(
                server.sessions,
                session_id.unwrap(),
            ) matches Some(session) && !session_helpers::owned_by(
                session.owner_user_id,
                user_id,
            )
        }),
    ensures
        browser_messages::browser_message_step(server, browser_id, user_id, message, now) == (
            server,
            state::finished(Seq::empty(), Some(RelayErrorModel::SessionForbidden)),
        ),
{
}

/// Where a session in the list comes from.
proof fn lemma_listed_origin(
    sessions: Seq<(Seq<char>, PersistedModel)>,
    user_id: Seq<char>,
    i: int,
) -> (j: int)
    requires
        0 <= i < browser_messages::listed_sessions(sessions, user_id).len(),
    ensures
        0 <= j < sessions.len(),
        session_helpers::visible_to(sessions[j].1, user_id),
        browser_messages::listed_sessions(sessions, user_id)[i] == (
            (u64::MAX - sessions[j].1.summary.updated_at) as u64,
            sessions[j].1.summary,
        ),
    decreases sessions.len(),
{
    let rest = sessions.drop_last();
    let before = browser_messages::listed_sessions(rest, user_id);
    if i < before.len() {
        lemma_listed_origin(rest, user_id, i)
    } else {
        sessions.len() - 1
    }
}

/// Where in the list a session stands that the user may see.
proof fn lemma_listed_place(
    sessions: Seq<(Seq<char>, PersistedModel)>,
    user_id: Seq<char>,
    j: int,
) -> (i: int)
    requires
        0 <= j < sessions.len(),
        session_helpers::visible_to(sessions[j].1, user_id),
    ensures
        0 <= i < browser_messages::listed_sessions(sessions, user_id).len(),
        browser_messages::listed_sessions(sessions, user_id)[i].1 == sessions[j].1.summary,
    decreases sessions.len(),
{
    let rest = sessions.drop_last();
    if j < rest.len() {
        lemma_listed_place(rest, user_id, j)
    } else {
        browser_messages::listed_sessions(sessions, user_id).len() - 1
    }
}

/// Where a sorted item comes from.
proof fn lemma_sorted_origin<T>(items: Seq<(u64, T)>, i: int) -> (j: int)
    requires
        0 <= i < sorting::sort_by_key(items).len(),
    ensures
        0 <= j < items.len(),
        items[j] == sorting::sort_by_key(items)[i],
    decreases items.len(),
{
    let sorted = sorting::sort_by_key(items.drop_last());
    let at = sorting::place(sorted, items.last().0);
    sorting::lemma_place(sorted, items.last().0);
    if i == at {
        items.len() - 1
    } else if i < at {
        lemma_sorted_origin(items.drop_last(), i)
    } else {
        lemma_sorted_origin(items.drop_last(), i - 1)
    }
}

/// Where an item stands once the items are sorted.
proof fn lemma_sorted_place<T>(items: Seq<(u64, T)>, j: int) -> (i: int)
    requires
        0 <= j < items.len(),
    ensures
        0 <= i < sorting::sort_by_key(items).len(),
        items[j] == sorting::sort_by_key(items)[i],
    decreases items.len(),
{
    let sorted = sorting::sort_by_key(items.drop_last());
    let at = sorting::place(sorted, items.last().0);
    sorting::lemma_place(sorted, items.last().0);
    if j == items.len() - 1 {
        at
    } else {
        let i = lemma_sorted_place(items.drop_last(), j);
        if i < at {
            i
        } else {
            i + 1
        }
    }
}

/// Whether this is what is known of a session that the user may see.
pub open spec fn sums_up_a_visible_one(
    sessions: Seq<(Seq<char>, PersistedModel)>,
    user_id: Seq<char>,
    summary: SummaryModel,
) -> bool {
    exists|j: int|
        0 <= j < sessions.len() && session_helpers::visible_to(#[trigger] sessions[j].1, user_id)
            && sessions[j].1.summary == summary
}

/// The list of sessions holds those that the user may see and no others, the
/// last changed first.
pub proof fn law_session_list_is_for_the_user(
    sessions: Seq<(Seq<char>, PersistedModel)>,
    user_id: Seq<char>,
)
    ensures
        forall|i: int|
            0 <= i < browser_messages::visible_sessions(sessions, user_id).len()
                ==> sums_up_a_visible_one(
                sessions,
                user_id,
                #[trigger] browser_messages::visible_sessions(sessions, user_id)[i],
            ),
        forall|j: int|
            0 <= j < sessions.len() && session_helpers::visible_to(
                #[trigger] sessions[j].1,
                user_id,
            )
                ==> browser_messages::visible_sessions(sessions, user_id).contains(
                    sessions[j].1.summary,
                ),
        forall|i: int, j: int|
            0 <= i <= j < browser_messages::visible_sessions(sessions, user_id).len() ==> (
            #[trigger] browser_messages::visible_sessions(sessions, user_id)[i]).updated_at >= (
            #[trigger] browser_messages::visible_sessions(sessions, user_id)[j]).updated_at,
{
    let listed = browser_messages::listed_sessions(sessions, user_id);
    let sorted = sorting::sort_by_key(listed);
    let all = browser_messages::visible_sessions(sessions, user_id);
    sorting::law_sorting_orders(listed);
    assert forall|i: int| 0 <= i < all.len() implies sums_up_a_visible_one(
        sessions,
        user_id,
        #[trigger] all[i],
    ) by {
        let k = lemma_sorted_origin(listed, i);
        let j = lemma_listed_origin(sessions, user_id, k);
        assert(session_helpers::visible_to(sessions[j].1, user_id));
        assert(sessions[j].1.summary == all[i]);
    }
    assert forall|j: int|
        0 <= j < sessions.len() && session_helpers::visible_to(
            #[trigger] sessions[j].1,
            user_id,
        ) implies all.contains(sessions[j].1.summary) by {
        let k = lemma_listed_place(sessions, user_id, j);
        let i = lemma_sorted_place(listed, k);
        assert(all[i] == sessions[j].1.summary);
    }
    assert forall|i: int, j: int| 0 <= i <= j < all.len() implies (#[trigger] all[i]).updated_at
        >= (#[trigger] all[j]).updated_at by {
        assert(sorted[i].0 <= sorted[j].0);
        let k = lemma_sorted_origin(listed, i);
        let a = lemma_listed_origin(sessions, user_id, k);
        let l = lemma_sorted_origin(listed, j);
        let b = lemma_listed_origin(sessions, user_id, l);
    }
}

// ---------------------------------------------------------------------------
// Permission requests
// ---------------------------------------------------------------------------

/// A permission request is answered at most once, by whomever it is answered.
pub proof fn law_permission_is_answered_once(
    server: ServerModel,
    first_browser_id: Seq<char>,
    second_browser_id: Seq<char>,
    request_id: Seq<char>,
    first_index: usize,
    second_index: usize,
    first_time: u64,
    second_time: u64,
)
    requires
        string_map::distinct(server.permissions),
    ensures
        ({
            let after = browser_messages::resolve_permission_step(
                server,
                first_browser_id,
                request_id,
                first_index,
                first_time,
            ).0;
            browser_messages::resolve_permission_step(
                after,
                second_browser_id,
                request_id,
                second_index,
                second_time,
            ) == (
                after,
                state::finished(
                    Seq::empty(),
                    Some(RelayErrorModel::UnknownPermission { request_id }),
                ),
            )
        }),
{
    string_map::law_lookup_after_erase(server.permissions, request_id, request_id);
}

/// Only the browser that was asked can answer a permission request.
pub proof fn law_permission_is_answered_by_the_asked(
    server: ServerModel,
    browser_id: Seq<char>,
    request_id: Seq<char>,
    selected_index: usize,
    now: u64,
)
    requires
        string_map::lookup(
            server.permissions,
            request_id,
        ) matches Some(pending) && pending.browser_id
            != browser_id,
    ensures
        ({
            let (after, step) = browser_messages::resolve_permission_step(
                server,
                browser_id,
                request_id,
                selected_index,
                now,
            );
            &&& after.store == server.store
            &&& step == state::finished(
                Seq::empty(),
                Some(RelayErrorModel::PermissionOfOtherBrowser),
            )
        }),
{
}

// ---------------------------------------------------------------------------
// History
// ---------------------------------------------------------------------------

/// The pages of a history are adjacent. What lies before a page is exactly what
/// the history holds besides the page: going on from where a page begins,
/// nothing is skipped and nothing comes twice; and a page says that there is
/// more exactly where there is.
pub proof fn law_pages_are_adjacent(
    events: Seq<EventModel>,
    session_id: Seq<char>,
    before_seq: Option<u64>,
    limit: Option<usize>,
)
    requires
        laws::in_order(events),
    ensures
        ({
            let history = events.filter(session_helpers::in_history(session_id, before_seq));
            let page = session_helpers::history_events(events, session_id, before_seq, limit);
            &&& page.len() > 0 ==> events.filter(
                session_helpers::in_history(session_id, Some(page[0].seq)),
            ) + page
                == history
            &&& session_helpers::more_before(
                events,
                session_id,
                page,
            ) <==> page.len() < history.len()
            &&& page.len() == 0 <==> history.len() == 0
        }),
{
    let wanted = session_helpers::in_history(session_id, before_seq);
    let history = events.filter(wanted);
    let page = session_helpers::history_events(events, session_id, before_seq, limit);
    if page.len() > 0 {
        let first = page[0];
        let split = history.len() - page.len();
        assert(history[split] == first);
        assert(page =~= history.skip(split));
        let earlier = session_helpers::in_history(session_id, Some(first.seq));
        seqs::lemma_filter_members(events, wanted);
        let k = lemma_filter_origin(events, wanted, split);
        // The page begins at event `k`: all before it lie before `k`.
        let front = events.take(k);
        let back = events.skip(k);
        assert(events =~= front + back);
        seqs::lemma_filter_concat(front, back, wanted);
        seqs::lemma_filter_concat(front, back, earlier);
        assert forall|i: int| 0 <= i < back.len() implies !earlier(#[trigger] back[i]) by {
            assert(back[i] == events[k + i]);
            if i > 0 {
                assert(relay_state::event_max_seq(events[k]) < events[k + i].seq);
            }
            assert(events[k].seq <= relay_state::event_max_seq(events[k]));
            assert(events[k + i].seq <= relay_state::event_max_seq(events[k + i]));
        }
        seqs::lemma_filter_none(back, earlier);
        assert forall|i: int| 0 <= i < front.len() implies wanted(#[trigger] front[i]) == earlier(
            front[i],
        ) by {
            assert(front[i] == events[i]);
            assert(relay_state::event_max_seq(events[i]) < events[k].seq);
            assert(wanted(events[k]));
            assert(events[k].seq <= relay_state::event_max_seq(events[k]));
        }
        lemma_filter_agrees(front, wanted, earlier);
        assert(events.filter(earlier) =~= front.filter(wanted));
        assert(front.filter(wanted).len() == split);
        assert(front.filter(wanted) =~= history.take(split));
        assert(events.filter(earlier) + page =~= history);
        if session_helpers::more_before(events, session_id, page) {
            let i = choose|i: int| 0 <= i < events.len() && earlier(#[trigger] events[i]);
            lemma_filter_finds(events, earlier, i);
        }
        if split > 0 {
            let i = lemma_filter_origin(events, earlier, 0);
            assert(earlier(events[i]));
        }
    }
}

/// The events that a browser has after it asked for page after page, from the
/// last one on, each time for what lies before the page it got.
pub open spec fn walked_history(
    events: Seq<EventModel>,
    session_id: Seq<char>,
    before_seq: Option<u64>,
    limit: Option<usize>,
    pages: nat,
) -> Seq<EventModel>
    decreases pages,
{
    if pages == 0 {
        Seq::empty()
    } else {
        let (page, next_before_seq, has_more) = session_helpers::history_page(
            events,
            session_id,
            before_seq,
            limit,
        );
        if has_more {
            walked_history(events, session_id, next_before_seq, limit, (pages - 1) as nat) + page
        } else {
            page
        }
    }
}

/// Page after page, the whole history comes, each event once and in order. As
/// many pages as there are events are always enough.
pub proof fn law_pages_give_the_whole_history(
    events: Seq<EventModel>,
    session_id: Seq<char>,
    before_seq: Option<u64>,
    limit: Option<usize>,
    pages: nat,
)
    requires
        laws::in_order(events),
        pages >= events.filter(session_helpers::in_history(session_id, before_seq)).len(),
    ensures
        walked_history(events, session_id, before_seq, limit, pages) == events.filter(
            session_helpers::in_history(session_id, before_seq),
        ),
    decreases pages,
{
    let history = events.filter(session_helpers::in_history(session_id, before_seq));
    if pages == 0 {
        assert(history =~= Seq::empty());
    } else {
        law_pages_are_adjacent(events, session_id, before_seq, limit);
        let page = session_helpers::history_events(events, session_id, before_seq, limit);
        if session_helpers::more_before(events, session_id, page) {
            law_pages_give_the_whole_history(
                events,
                session_id,
                Some(page[0].seq),
                limit,
                (pages - 1) as nat,
            );
        } else {
            assert(page =~= history);
        }
    }
}

/// Where an item that passed a filter stood, with as many before it that passed.
proof fn lemma_filter_origin<T>(items: Seq<T>, p: spec_fn(T) -> bool, j: int) -> (k: int)
    requires
        0 <= j < items.filter(p).len(),
    ensures
        0 <= k < items.len(),
        items[k] == items.filter(p)[j],
        p(items[k]),
        items.take(k).filter(p).len() == j,
    decreases items.len(),
{
    reveal(Seq::filter);
    let rest = items.drop_last();
    let n = items.len() - 1;
    if p(items.last()) && j == items.filter(p).len() - 1 {
        assert(items.take(n) =~= rest);
        n
    } else {
        let k = lemma_filter_origin(rest, p, j);
        assert(items.take(k) =~= rest.take(k));
        k
    }
}

proof fn lemma_filter_finds<T>(items: Seq<T>, p: spec_fn(T) -> bool, i: int)
    requires
        0 <= i < items.len(),
        p(items[i]),
    ensures
        items.filter(p).len() > 0,
    decreases items.len(),
{
    reveal(Seq::filter);
    if i < items.len() - 1 {
        lemma_filter_finds(items.drop_last(), p, i);
    }
}

proof fn lemma_filter_agrees<T>(
    items: Seq<T>,
    p: spec_fn(T) -> bool,
    q: spec_fn(T) -> bool,
)
    requires
        forall|i: int| 0 <= i < items.len() ==> p(#[trigger] items[i]) == q(items[i]),
    ensures
        items.filter(p) == items.filter(q),
    decreases items.len(),
{
    reveal(Seq::filter);
    if items.len() > 0 {
        let rest = items.drop_last();
        assert forall|i: int| 0 <= i < rest.len() implies p(#[trigger] rest[i]) == q(rest[i]) by {
            assert(rest[i] == items[i]);
        }
        lemma_filter_agrees(rest, p, q);
        assert(p(items[items.len() - 1]) == q(items[items.len() - 1]));
    }
}

// ---------------------------------------------------------------------------
// Resuming sessions
// ---------------------------------------------------------------------------

/// Where a candidate for resuming comes from.
proof fn lemma_candidate_origin(
    sessions: Seq<(Seq<char>, PersistedModel)>,
    device_id: Seq<char>,
    i: int,
) -> (j: int)
    requires
        0 <= i < session_helpers::resume_candidates(sessions, device_id).len(),
    ensures
        0 <= j < sessions.len(),
        session_helpers::resume_candidate(sessions[j].1, device_id) == Some(
            session_helpers::resume_candidates(sessions, device_id)[i],
        ),
    decreases sessions.len(),
{
    let rest = sessions.drop_last();
    if i < session_helpers::resume_candidates(rest, device_id).len() {
        lemma_candidate_origin(rest, device_id, i)
    } else {
        sessions.len() - 1
    }
}

/// Where among the candidates a session stands that can be resumed.
proof fn lemma_candidate_place(
    sessions: Seq<(Seq<char>, PersistedModel)>,
    device_id: Seq<char>,
    j: int,
) -> (i: int)
    requires
        0 <= j < sessions.len(),
        session_helpers::resume_candidate(sessions[j].1, device_id) is Some,
    ensures
        0 <= i < session_helpers::resume_candidates(sessions, device_id).len(),
        session_helpers::resume_candidate(sessions[j].1, device_id) == Some(
            session_helpers::resume_candidates(sessions, device_id)[i],
        ),
    decreases sessions.len(),
{
    let rest = sessions.drop_last();
    if j < rest.len() {
        lemma_candidate_place(rest, device_id, j)
    } else {
        session_helpers::resume_candidates(sessions, device_id).len() - 1
    }
}

/// A session that a device can take up again: one of its own that is neither
/// closed nor failed to be resumed, and of which the agent's id and the
/// workspace are known.
pub open spec fn can_be_resumed(session: PersistedModel, device_id: Seq<char>) -> bool {
    &&& session.summary.device_id == device_id
    &&& session.summary.status != SESSION_STATUS_CLOSED@
    &&& session.summary.status != SESSION_STATUS_RESUME_FAILED@
    &&& session.client_session_id is Some
    &&& session.summary.workspace_id is Some
}

/// The command that takes a session up again.
pub open spec fn resuming(session: PersistedModel) -> ServerMessageModel {
    ServerMessageModel::ResumeSession {
        session_id: session.summary.session_id,
        client_session_id: session.client_session_id.unwrap(),
        workspace_id: session.summary.workspace_id.unwrap(),
    }
}

/// A device that is ready is told to resume a session that it can take up again,
/// wherever the session stands in the store.
pub proof fn law_session_is_resumed(
    sessions: Seq<(Seq<char>, PersistedModel)>,
    device_id: Seq<char>,
    j: int,
)
    requires
        0 <= j < sessions.len(),
        can_be_resumed(sessions[j].1, device_id),
    ensures
        session_helpers::resume_commands(sessions, device_id).contains(resuming(sessions[j].1)),
{
    let candidates = session_helpers::resume_candidates(sessions, device_id);
    let i = lemma_candidate_place(sessions, device_id, j);
    let k = lemma_sorted_place(candidates, i);
    assert(session_helpers::resume_commands(sessions, device_id)[k] == resuming(sessions[j].1));
}

/// A device is told to resume nothing else: no session of another device, none
/// that is closed, and none of which a resume has failed.
pub proof fn law_nothing_else_is_resumed(
    sessions: Seq<(Seq<char>, PersistedModel)>,
    device_id: Seq<char>,
    command: ServerMessageModel,
) -> (j: int)
    requires
        session_helpers::resume_commands(sessions, device_id).contains(command),
    ensures
        0 <= j < sessions.len(),
        can_be_resumed(sessions[j].1, device_id),
        command == resuming(sessions[j].1),
{
    let candidates = session_helpers::resume_candidates(sessions, device_id);
    let commands = session_helpers::resume_commands(sessions, device_id);
    let k = choose|k: int| 0 <= k < commands.len() && commands[k] == command;
    let i = lemma_sorted_origin(candidates, k);
    lemma_candidate_origin(sessions, device_id, i)
}

/// Sessions are taken up in the order of their last changes, the longest unchanged
/// first.
pub proof fn law_oldest_is_resumed_first(
    sessions: Seq<(Seq<char>, PersistedModel)>,
    device_id: Seq<char>,
    i: int,
    j: int,
    a: int,
    b: int,
)
    requires
        forall|k: int, l: int|
            0 <= k < l < sessions.len() ==> (#[trigger] sessions[k]).1.summary.session_id != (
            #[trigger] sessions[l]).1.summary.session_id,
        0 <= a < sessions.len(),
        0 <= b < sessions.len(),
        can_be_resumed(sessions[a].1, device_id),
        can_be_resumed(sessions[b].1, device_id),
        sessions[a].1.summary.updated_at < sessions[b].1.summary.updated_at,
        0 <= i < session_helpers::resume_commands(sessions, device_id).len(),
        0 <= j < session_helpers::resume_commands(sessions, device_id).len(),
        session_helpers::resume_commands(sessions, device_id)[i] == resuming(sessions[a].1),
        session_helpers::resume_commands(sessions, device_id)[j] == resuming(sessions[b].1),
    ensures
        i < j,
{
    let candidates = session_helpers::resume_candidates(sessions, device_id);
    let sorted = sorting::sort_by_key(candidates);
    sorting::law_sorting_orders(candidates);
    let first = lemma_sorted_origin(candidates, i);
    let k = lemma_candidate_origin(sessions, device_id, first);
    let second = lemma_sorted_origin(candidates, j);
    let l = lemma_candidate_origin(sessions, device_id, second);
    assert(sessions[k].1.summary.session_id == sessions[a].1.summary.session_id);
    assert(sessions[l].1.summary.session_id == sessions[b].1.summary.session_id);
    assert(k == a);
    assert(l == b);
    assert(sorted[i].0 == sessions[a].1.summary.updated_at);
    assert(sorted[j].0 == sessions[b].1.summary.updated_at);
    if j <= i {
        assert(sorted[j].0 <= sorted[i].0);
    }
}

/// What a device can take up again does not change while it is away: a session
/// that is closed, or of which a resume has failed, is not resumed when the
/// device is back, and all others are.
pub proof fn law_reconnect_resumes_the_same(
    store: StoreModel,
    gone_id: Seq<char>,
    now: u64,
    seq: u64,
    device_id: Seq<char>,
    command: ServerMessageModel,
)
    ensures
        session_helpers::resume_commands(
            session_helpers::device_disconnected(store, gone_id, now, seq).sessions,
            device_id,
        ).contains(command) <==> session_helpers::resume_commands(
            store.sessions,
            device_id,
        ).contains(command),
{
    reveal_strlit("device_disconnected");
    reveal_strlit("closed");
    reveal_strlit("resume_failed");
    let before = store.sessions;
    let after = session_helpers::device_disconnected(store, gone_id, now, seq).sessions;
    assert forall|j: int| 0 <= j < before.len() implies (can_be_resumed(
        (#[trigger] after[j]).1,
        device_id,
    ) <==> can_be_resumed(before[j].1, device_id)) && (can_be_resumed(before[j].1, device_id)
        ==> resuming(after[j].1) == resuming(before[j].1)) by {
        assert(after[j].1 == session_helpers::disconnected_session(before[j].1, gone_id, now));
        assert(SESSION_STATUS_DEVICE_DISCONNECTED@.len() == 19);
        assert(SESSION_STATUS_CLOSED@.len() == 6);
        assert(SESSION_STATUS_RESUME_FAILED@.len() == 13);
    }
    if session_helpers::resume_commands(before, device_id).contains(command) {
        let j = law_nothing_else_is_resumed(before, device_id, command);
        assert(after[j] == after[j]);
        law_session_is_resumed(after, device_id, j);
    }
    if session_helpers::resume_commands(after, device_id).contains(command) {
        let j = law_nothing_else_is_resumed(after, device_id, command);
        assert(after[j] == after[j]);
        law_session_is_resumed(before, device_id, j);
    }
}

} // verus!
