//! What holds of the relay server when it starts again.
use crate::protocol::{BrowserRequestModel, ClientMessageModel, DeviceModel};
use crate::relay_server::browser_messages;
use crate::relay_server::client_messages;
use crate::relay_server::disk_laws;
use crate::relay_server::follow_up;
use crate::relay_server::laws;
use crate::relay_server::session_helpers;
use crate::relay_server::sockets;
use crate::relay_server::state::{
    BrowserAuthModel, ClientAuthModel, FollowUpModel, ServerModel, SessionModel,
};
use crate::relay_server::state;
use crate::relay_state::{PersistedModel, PersistenceModel, StoreModel};
use crate::relay_state;
use crate::store_laws;
use crate::string_map;
use vstd::prelude::*;

verus! {

// ---------------------------------------------------------------------------
// Sessions are stored under their ids
// ---------------------------------------------------------------------------

/// Every session is stored under its own id.
pub open spec fn under_own_ids(sessions: Seq<(Seq<char>, PersistedModel)>) -> bool {
    forall|i: int|
        0 <= i < sessions.len() ==> (#[trigger] sessions[i]).1.summary.session_id == sessions[i].0
}

proof fn lemma_found_under_own_id(
    sessions: Seq<(Seq<char>, PersistedModel)>,
    session_id: Seq<char>,
)
    requires
        under_own_ids(sessions),
    ensures
        string_map::lookup(
            sessions,
            session_id,
        ) matches Some(session) ==> session.summary.session_id
            == session_id,
{
    string_map::lemma_holds(sessions, session_id);
}

proof fn lemma_put_under_own_id(
    sessions: Seq<(Seq<char>, PersistedModel)>,
    session_id: Seq<char>,
    session: PersistedModel,
)
    requires
        under_own_ids(sessions),
        session.summary.session_id == session_id,
    ensures
        under_own_ids(string_map::put(sessions, session_id, session)),
{
    string_map::lemma_holds(sessions, session_id);
    let after = string_map::put(sessions, session_id, session);
    assert forall|i: int| 0 <= i < after.len() implies (
    #[trigger] after[i]).1.summary.session_id == after[i].0 by {
        if i < sessions.len() && after[i] != (session_id, session) {
            assert(after[i] == sessions[i]);
        }
    }
}

proof fn lemma_erased_under_own_ids(
    sessions: Seq<(Seq<char>, PersistedModel)>,
    session_id: Seq<char>,
)
    requires
        under_own_ids(sessions),
    ensures
        under_own_ids(string_map::erase(sessions, session_id)),
{
    string_map::lemma_holds(sessions, session_id);
    let after = string_map::erase(sessions, session_id);
    let at = string_map::position(sessions, session_id);
    assert forall|i: int| 0 <= i < after.len() implies (
    #[trigger] after[i]).1.summary.session_id == after[i].0 by {
        if string_map::holds(sessions, session_id) {
            if i < at {
                assert(after[i] == sessions[i]);
            } else {
                assert(after[i] == sessions[i + 1]);
            }
        } else {
            assert(after[i] == sessions[i]);
        }
    }
}

/// Whatever a browser asks for, sessions stay stored under their ids.
pub proof fn law_browser_messages_keep_own_ids(
    server: ServerModel,
    browser_id: Seq<char>,
    user_id: Seq<char>,
    message: BrowserRequestModel,
    now: u64,
)
    requires
        under_own_ids(server.store.sessions),
    ensures
        under_own_ids(
            browser_messages::browser_message_step(
                server,
                browser_id,
                user_id,
                message,
                now,
            ).0.store.sessions,
        ),
{
    let stored = server.store.sessions;
    let (after, step) = browser_messages::browser_message_step(
        server,
        browser_id,
        user_id,
        message,
        now,
    );
    assert forall|id: Seq<char>, session: PersistedModel|
        session.summary.session_id == id implies under_own_ids(
            #[trigger] string_map::put(stored, id, session),
        ) by {
        lemma_put_under_own_id(stored, id, session);
    }
    match message {
        BrowserRequestModel::AdoptSession { session_id } => {
            lemma_found_under_own_id(stored, session_id);
        },
        BrowserRequestModel::Prompt { session_id, .. } => {
            match string_map::lookup(server.sessions, session_id) {
                Some(session) => {
                    lemma_found_under_own_id(stored, session.session_id);
                },
                None => {},
            }
        },
        BrowserRequestModel::ResolvePermission { request_id, .. } => {
            match string_map::lookup(server.permissions, request_id) {
                Some(pending) => {
                    if pending.session_id is Some {
                        lemma_found_under_own_id(stored, pending.session_id.unwrap());
                    }
                },
                None => {},
            }
        },
        BrowserRequestModel::CloseSession { session_id } => {
            lemma_found_under_own_id(stored, session_id);
        },
        BrowserRequestModel::DeleteSession { session_id } => {
            lemma_erased_under_own_ids(stored, session_id);
        },
        _ => {},
    }
}

/// Whatever a home client reports, sessions stay stored under their ids.
pub proof fn law_client_messages_keep_own_ids(
    server: ServerModel,
    device_id: Seq<char>,
    message: ClientMessageModel,
    now: u64,
)
    requires
        under_own_ids(server.store.sessions),
    ensures
        under_own_ids(
            client_messages::client_message_step(server, device_id, message, now).0.store.sessions,
        ),
{
    let stored = server.store.sessions;
    let (after, step) = client_messages::client_message_step(server, device_id, message, now);
    assert forall|id: Seq<char>, session: PersistedModel|
        session.summary.session_id == id implies under_own_ids(
            #[trigger] string_map::put(stored, id, session),
        ) by {
        lemma_put_under_own_id(stored, id, session);
    }
    match message {
        ClientMessageModel::SessionCreated { session_id, .. } => {
            lemma_found_under_own_id(stored, session_id);
        },
        ClientMessageModel::SessionResumed { session_id, .. } => {
            lemma_found_under_own_id(stored, session_id);
        },
        ClientMessageModel::SessionResumeFailed { session_id, .. } => {
            lemma_found_under_own_id(stored, session_id);
        },
        ClientMessageModel::OutputChunk { session_id, .. } => {
            match session_helpers::resolved_alias(server.sessions, device_id, session_id) {
                Some(session_id) => {
                    lemma_found_under_own_id(stored, session_id);
                },
                None => {},
            }
        },
        ClientMessageModel::PromptFinished { session_id, .. } => {
            match session_helpers::resolved_alias(server.sessions, device_id, session_id) {
                Some(session_id) => {
                    lemma_found_under_own_id(stored, session_id);
                },
                None => {},
            }
        },
        ClientMessageModel::PermissionRequested { session_id, .. } => {
            if session_id is Some {
                lemma_found_under_own_id(
                    stored,
                    client_messages::asked_session(server.sessions, device_id, session_id.unwrap()),
                );
            }
        },
        _ => {},
    }
}

/// Devices that come and go, and what follows from it, leave sessions stored
/// under their ids.
pub proof fn law_devices_keep_own_ids(
    server: ServerModel,
    device: DeviceModel,
    next: FollowUpModel,
    failure: Option<Seq<char>>,
    now: u64,
)
    requires
        under_own_ids(server.store.sessions),
    ensures
        under_own_ids(sockets::connect_device_step(server, device).0.store.sessions),
        under_own_ids(sockets::disconnect_device_step(server, device).0.store.sessions),
        under_own_ids(follow_up::follow_up_step(server, next, failure, now).0.store.sessions),
{
    let stored = server.store.sessions;
    match next {
        FollowUpModel::DeviceDisconnected { device } => {
            let after = follow_up::follow_up_step(server, next, failure, now).0.store.sessions;
            assert forall|i: int| 0 <= i < after.len() implies (
            #[trigger] after[i]).1.summary.session_id == after[i].0 by {
                assert(after[i] == (
                    stored[i].0,
                    session_helpers::disconnected_session(stored[i].1, device.device_id, now),
                ));
            }
        },
        _ => {},
    }
}

// ---------------------------------------------------------------------------
// Starting again
// ---------------------------------------------------------------------------

proof fn lemma_taken_up_below(sessions: Seq<(Seq<char>, PersistedModel)>, bound: nat)
    requires
        under_own_ids(sessions),
        laws::numbers_below(sessions, bound),
        bound > 0,
    ensures
        relay_state::highest_session_number(state::taken_up_sessions(sessions)) < bound,
    decreases sessions.len(),
{
    if sessions.len() > 0 {
        let rest = sessions.drop_last();
        assert forall|i: int| 0 <= i < rest.len() implies match relay_state::session_number(
            (#[trigger] rest[i]).0,
        ) {
            Some(number) => number < bound,
            None => true,
        } by {
            assert(rest[i] == sessions[i]);
        }
        assert forall|i: int| 0 <= i < rest.len() implies (
        #[trigger] rest[i]).1.summary.session_id == rest[i].0 by {
            assert(rest[i] == sessions[i]);
        }
        lemma_taken_up_below(rest, bound);
        let last = sessions[sessions.len() - 1];
        let session = last.1;
        laws::lemma_put_below(
            state::taken_up_sessions(rest),
            session.summary.session_id,
            SessionModel {
                session_id: session.summary.session_id,
                device_id: session.summary.device_id,
                browser_id: Seq::empty(),
                owner_user_id: relay_state::text_or_empty(session.summary.owner_user_id),
                client_session_id: session.client_session_id,
            },
            bound,
        );
    }
}

/// A server that starts again on a store that was in order has its counters
/// ahead of all numbers in use.
pub proof fn law_restart_keeps_counters_ahead(
    server: ServerModel,
    client_auth: ClientAuthModel,
    browser_auth: BrowserAuthModel,
    persistence: PersistenceModel,
)
    requires
        laws::counters_ahead(server),
        under_own_ids(server.store.sessions),
    ensures
        laws::counters_ahead(
            state::started(
                client_auth,
                browser_auth,
                persistence,
                store_laws::restarted(server.store),
            ),
        ),
{
    let store = store_laws::restarted(server.store);
    let bound = relay_state::highest_session_number(store.sessions) + 1;
    laws::lemma_numbers_below(store.sessions, bound);
    lemma_taken_up_below(store.sessions, bound);
    disk_laws::lemma_highest_of_prefix(
        server.store.events,
        relay_state::boundary(server.store) as int,
    );
}

/// After a restart each session is routed as it was stored: to its device, for
/// its owner, under the id that the device knows it by, with no browser yet.
pub proof fn law_restart_takes_up_sessions(
    sessions: Seq<(Seq<char>, PersistedModel)>,
    session_id: Seq<char>,
)
    requires
        under_own_ids(sessions),
        string_map::distinct(sessions),
    ensures
        string_map::lookup(
            state::taken_up_sessions(sessions),
            session_id,
        ) == match string_map::lookup(sessions, session_id) {
            Some(stored) => Some(
                SessionModel {
                    session_id,
                    device_id: stored.summary.device_id,
                    browser_id: Seq::empty(),
                    owner_user_id: relay_state::text_or_empty(stored.summary.owner_user_id),
                    client_session_id: stored.client_session_id,
                },
            ),
            None => None::<SessionModel>,
        },
    decreases sessions.len(),
{
    if sessions.len() > 0 {
        let rest = sessions.drop_last();
        let last = sessions[sessions.len() - 1];
        assert forall|i: int| 0 <= i < rest.len() implies (
        #[trigger] rest[i]).1.summary.session_id == rest[i].0 by {
            assert(rest[i] == sessions[i]);
        }
        assert forall|i: int, j: int| 0 <= i < j < rest.len() implies (#[trigger] rest[i]).0 != (
        #[trigger] rest[j]).0 by {
            assert(rest[i] == sessions[i] && rest[j] == sessions[j]);
        }
        law_restart_takes_up_sessions(rest, session_id);
        string_map::law_lookup_after_put(
            state::taken_up_sessions(rest),
            last.0,
            SessionModel {
                session_id: last.0,
                device_id: last.1.summary.device_id,
                browser_id: Seq::empty(),
                owner_user_id: relay_state::text_or_empty(last.1.summary.owner_user_id),
                client_session_id: last.1.client_session_id,
            },
            session_id,
        );
        string_map::lemma_holds(sessions, session_id);
        string_map::lemma_holds(rest, session_id);
        if session_id == last.0 {
            string_map::lemma_lookup_at(sessions, sessions.len() - 1);
        } else if string_map::holds(sessions, session_id) {
            let at = string_map::position(sessions, session_id);
            assert(rest[at] == sessions[at]);
            string_map::lemma_lookup_at(rest, at);
        } else if string_map::holds(rest, session_id) {
            let at = string_map::position(rest, session_id);
            assert(rest[at] == sessions[at]);
        }
    } else {
        string_map::lemma_holds(sessions, session_id);
        string_map::lemma_holds(state::taken_up_sessions(sessions), session_id);
    }
}

/// A server that starts has the store and the settings that it is given; nobody
/// is connected, nobody is logged in, and nothing is asked. Its counters are the
/// next numbers after those in use.
pub proof fn law_start_takes_what_it_is_given(
    client_auth: ClientAuthModel,
    browser_auth: BrowserAuthModel,
    persistence: PersistenceModel,
    store: StoreModel,
    bound: u64,
)
    requires
        forall|i: int|
            0 <= i < store.events.len() ==> (match (#[trigger] store.events[i]).seq_end {
                Some(seq_end) => seq_end,
                None => store.events[i].seq,
            }) <= bound,
        bound < u64::MAX,
    ensures
        ({
            let server = state::started(client_auth, browser_auth, persistence, store);
            &&& server.client_auth == client_auth
            &&& server.browser_auth == browser_auth
            &&& server.persistence == persistence
            &&& server.store == store
            &&& server.devices.len() == 0
            &&& server.browsers.len() == 0
            &&& server.permissions.len() == 0
            &&& server.login_sessions.len() == 0
            &&& server.next_browser_id == 1
            &&& server.next_event_id <= bound + 1
            &&& store.events.len() == 0 ==> server.next_event_id == 1
            &&& store.sessions.len() == 0 ==> server.next_session_id == 1
            &&& forall|i: int|
                0 <= i < store.events.len() ==> (match (#[trigger] store.events[i]).seq_end {
                    Some(seq_end) => seq_end,
                    None => store.events[i].seq,
                }) < server.next_event_id
        }),
{
    store_laws::law_highest_seq_is_reached(store.events, bound);
    assert forall|i: int| 0 <= i < store.events.len() implies (match (
    #[trigger] store.events[i]).seq_end {
        Some(seq_end) => seq_end,
        None => store.events[i].seq,
    }) < relay_state::highest_seq(store.events) + 1 by {
        store_laws::law_next_event_seq_is_new(store.events, i);
    }
}

} // verus!
