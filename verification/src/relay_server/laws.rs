//! What holds of the relay server across messages.
use crate::protocol::{BrowserRequestModel, ClientMessageModel, DeviceModel, EventModel, SummaryModel};
use crate::relay_server::browser_messages;
use crate::relay_server::client_messages;
use crate::relay_server::connections;
use crate::relay_server::follow_up;
use crate::relay_server::session_helpers::{
    SESSION_STATUS_REQUESTED, SESSION_STATUS_RUNNING, SESSION_STATUS_CLOSED,
};
use crate::relay_server::session_helpers::{SESSION_STATUS_IDLE, SESSION_STATUS_RESUME_FAILED};
use crate::relay_server::session_helpers;
use crate::relay_server::sockets;
use crate::relay_server::state::{FollowUpModel, PendingModel, ServerModel, SessionModel};
use crate::relay_server::state;
use crate::relay_state::{PersistedModel, StoreModel};
use crate::relay_state;
use crate::store_laws;
use crate::string_map;
use vstd::prelude::*;

verus! {

// ---------------------------------------------------------------------------
// The order of events
// ---------------------------------------------------------------------------

/// Events that follow one another: each covers numbers above all before it.
pub open spec fn in_order(events: Seq<EventModel>) -> bool {
    &&& forall|i: int|
        0 <= i < events.len() ==> (#[trigger] events[i]).seq <= relay_state::event_max_seq(
            events[i],
        )
    &&& forall|i: int, j: int|
        0 <= i < j < events.len() ==> relay_state::event_max_seq(#[trigger] events[i]) < (
        #[trigger] events[j]).seq
}

proof fn lemma_highest_of_push(events: Seq<EventModel>, event: EventModel)
    ensures
        relay_state::highest_seq(events.push(event)) == relay_state::larger(
            relay_state::highest_seq(events),
            relay_state::event_max_seq(event),
        ),
{
    assert(events.push(event).drop_last() =~= events);
}

/// The highest sequence number is below a bound where all are.
proof fn lemma_highest_below(events: Seq<EventModel>, bound: u64)
    requires
        forall|i: int| 0 <= i < events.len() ==> relay_state::event_max_seq(
            #[trigger] events[i],
        ) <= bound,
    ensures
        relay_state::highest_seq(events) <= bound,
    decreases events.len(),
{
    if events.len() > 0 {
        let rest = events.drop_last();
        assert forall|i: int| 0 <= i < rest.len() implies relay_state::event_max_seq(
            #[trigger] rest[i],
        )
            <= bound by {
            assert(rest[i] == events[i]);
        }
        lemma_highest_below(rest, bound);
        assert(events.last() == events[events.len() - 1]);
    }
}

proof fn lemma_push_in_order(events: Seq<EventModel>, event: EventModel)
    requires
        in_order(events),
        relay_state::highest_seq(events) < event.seq <= relay_state::event_max_seq(event),
    ensures
        in_order(events.push(event)),
{
    let after = events.push(event);
    assert forall|i: int, j: int| 0 <= i < j < after.len() implies relay_state::event_max_seq(
        #[trigger] after[i],
    ) < (#[trigger] after[j]).seq by {
        assert(after[i] == events[i]);
        if j == events.len() {
            store_laws::law_next_event_seq_is_new(events, i);
        } else {
            assert(after[j] == events[j]);
        }
    }
    assert forall|i: int| 0 <= i < after.len() implies (#[trigger] after[i]).seq <= relay_state::event_max_seq(
        after[i],
    ) by {
        if i < events.len() {
            assert(after[i] == events[i]);
        }
    }
}

proof fn lemma_prefix_in_order(events: Seq<EventModel>, n: int)
    requires
        in_order(events),
        0 <= n <= events.len(),
    ensures
        in_order(events.take(n)),
{
    let front = events.take(n);
    assert forall|i: int, j: int| 0 <= i < j < front.len() implies relay_state::event_max_seq(
        #[trigger] front[i],
    ) < (#[trigger] front[j]).seq by {
        assert(front[i] == events[i] && front[j] == events[j]);
    }
    assert forall|i: int| 0 <= i < front.len() implies (#[trigger] front[i]).seq <= relay_state::event_max_seq(
        front[i],
    ) by {
        assert(front[i] == events[i]);
    }
}

proof fn lemma_filter_in_order(events: Seq<EventModel>, p: spec_fn(EventModel) -> bool)
    requires
        in_order(events),
    ensures
        in_order(events.filter(p)),
        relay_state::highest_seq(events.filter(p)) <= relay_state::highest_seq(events),
    decreases events.len(),
{
    reveal(Seq::filter);
    if events.len() > 0 {
        let rest = events.drop_last();
        assert(rest =~= events.take(events.len() - 1));
        lemma_prefix_in_order(events, events.len() - 1);
        lemma_filter_in_order(rest, p);
        if p(events.last()) {
            lemma_highest_of_push(rest.filter(p), events.last());
            assert forall|i: int| 0 <= i < rest.len() implies relay_state::event_max_seq(
                #[trigger] rest[i],
            )
                < events.last().seq by {
                assert(rest[i] == events[i]);
                assert(events.last() == events[events.len() - 1]);
            }
            lemma_highest_strictly_below(rest, events.last().seq);
            if rest.filter(p).len() > 0 {
                lemma_push_in_order(rest.filter(p), events.last());
            } else {
                assert(events.last() == events[events.len() - 1]);
            }
        }
    } else {
        assert(events.filter(p) =~= events);
    }
}

proof fn lemma_highest_strictly_below(events: Seq<EventModel>, bound: u64)
    requires
        forall|i: int| 0 <= i < events.len() ==> relay_state::event_max_seq(
            #[trigger] events[i],
        ) < bound,
    ensures
        events.len() > 0 ==> relay_state::highest_seq(events) < bound,
    decreases events.len(),
{
    if events.len() > 0 {
        let rest = events.drop_last();
        assert forall|i: int| 0 <= i < rest.len() implies relay_state::event_max_seq(
            #[trigger] rest[i],
        )
            < bound by {
            assert(rest[i] == events[i]);
        }
        lemma_highest_strictly_below(rest, bound);
        assert(rest.len() == 0 ==> relay_state::highest_seq(rest) == 0);
        assert(events.last() == events[events.len() - 1]);
    }
}

/// Compaction keeps the order of events.
pub proof fn law_compaction_keeps_the_order(events: Seq<EventModel>)
    requires
        in_order(events),
    ensures
        in_order(relay_state::compact(events)),
    decreases events.len(),
{
    if events.len() > 0 {
        let rest = events.drop_last();
        let last = events.last();
        assert(rest =~= events.take(events.len() - 1));
        lemma_prefix_in_order(events, events.len() - 1);
        law_compaction_keeps_the_order(rest);
        store_laws::law_compaction_keeps_highest_seq(rest);
        store_laws::law_compaction_leaves_no_runs(rest);
        let done = relay_state::compact(rest);
        assert(last == events[events.len() - 1]);
        assert forall|i: int| 0 <= i < rest.len() implies relay_state::event_max_seq(
            #[trigger] rest[i],
        )
            < last.seq by {
            assert(rest[i] == events[i]);
        }
        lemma_highest_strictly_below(rest, last.seq);
        if done.len() > 0 && relay_state::continues(done.last(), last) {
            let after = done.drop_last().push(relay_state::joined(done.last(), last));
            let n = done.len() - 1;
            assert forall|i: int, j: int| 0 <= i < j < after.len() implies relay_state::event_max_seq(
                #[trigger] after[i],
            ) < (#[trigger] after[j]).seq by {
                assert(after[i] == done[i]);
                if j < n {
                    assert(after[j] == done[j]);
                } else {
                    assert(after[j].seq == done[n].seq);
                }
            }
            assert forall|i: int| 0 <= i < after.len() implies (#[trigger] after[i]).seq
                <= relay_state::event_max_seq(after[i]) by {
                if i < n {
                    assert(after[i] == done[i]);
                } else {
                    assert(done[n].seq <= relay_state::event_max_seq(done[n]));
                }
            }
        } else if rest.len() > 0 {
            lemma_push_in_order(done, last);
        } else {
            assert(done =~= Seq::empty());
        }
    }
}

// ---------------------------------------------------------------------------
// Numbers in session ids
// ---------------------------------------------------------------------------

/// Whether all numbers in session ids lie below a bound.
pub open spec fn numbers_below<V>(sessions: Seq<(Seq<char>, V)>, bound: nat) -> bool {
    forall|i: int|
        0 <= i < sessions.len() ==> match relay_state::session_number((#[trigger] sessions[i]).0) {
            Some(number) => number < bound,
            None => true,
        }
}

/// All numbers lie below a bound exactly where the highest does.
pub proof fn lemma_numbers_below<V>(sessions: Seq<(Seq<char>, V)>, bound: nat)
    requires
        bound > 0,
    ensures
        relay_state::highest_session_number(sessions) < bound <==> numbers_below(sessions, bound),
    decreases sessions.len(),
{
    if sessions.len() > 0 {
        let rest = sessions.drop_last();
        lemma_numbers_below(rest, bound);
        let last = sessions.last();
        assert(last == sessions[sessions.len() - 1]);
        if numbers_below(sessions, bound) {
            assert forall|i: int| 0 <= i < rest.len() implies match relay_state::session_number(
                (#[trigger] rest[i]).0,
            ) {
                Some(number) => number < bound,
                None => true,
            } by {
                assert(rest[i] == sessions[i]);
            }
        }
        if numbers_below(
            rest,
            bound,
        ) && (relay_state::session_number(last.0) matches Some(number) ==> number
            < bound) {
            assert forall|i: int| 0 <= i < sessions.len() implies match relay_state::session_number(
                (#[trigger] sessions[i]).0,
            ) {
                Some(number) => number < bound,
                None => true,
            } by {
                if i < rest.len() {
                    assert(rest[i] == sessions[i]);
                }
            }
        }
    }
}

/// Putting a session under an id in use, or under one with a smaller number,
/// keeps all numbers below a bound.
pub proof fn lemma_put_below<V>(sessions: Seq<(Seq<char>, V)>, key: Seq<char>, value: V, bound: nat)
    requires
        relay_state::highest_session_number(sessions) < bound,
        string_map::holds(
            sessions,
            key,
        ) || (relay_state::session_number(key) matches Some(number) ==> number < bound),
    ensures
        relay_state::highest_session_number(string_map::put(sessions, key, value)) < bound,
{
    lemma_numbers_below(sessions, bound);
    string_map::lemma_holds(sessions, key);
    let after = string_map::put(sessions, key, value);
    assert forall|i: int| 0 <= i < after.len() implies match relay_state::session_number(
        (#[trigger] after[i]).0,
    ) {
        Some(number) => number < bound,
        None => true,
    } by {
        if i < sessions.len() {
            assert(after[i].0 == sessions[i].0);
        }
    }
    lemma_numbers_below(after, bound);
}

proof fn lemma_erase_below<V>(sessions: Seq<(Seq<char>, V)>, key: Seq<char>, bound: nat)
    requires
        relay_state::highest_session_number(sessions) < bound,
    ensures
        relay_state::highest_session_number(string_map::erase(sessions, key)) < bound,
{
    lemma_numbers_below(sessions, bound);
    string_map::lemma_holds(sessions, key);
    let after = string_map::erase(sessions, key);
    let at = string_map::position(sessions, key);
    assert forall|i: int| 0 <= i < after.len() implies match relay_state::session_number(
        (#[trigger] after[i]).0,
    ) {
        Some(number) => number < bound,
        None => true,
    } by {
        if string_map::holds(sessions, key) {
            if i < at {
                assert(after[i] == sessions[i]);
            } else {
                assert(after[i] == sessions[i + 1]);
            }
        }
    }
    lemma_numbers_below(after, bound);
}

proof fn lemma_same_keys_below<V>(
    sessions: Seq<(Seq<char>, V)>,
    after: Seq<(Seq<char>, V)>,
    bound: nat,
)
    requires
        relay_state::highest_session_number(sessions) < bound,
        after.len() == sessions.len(),
        forall|i: int| 0 <= i < sessions.len() ==> (#[trigger] after[i]).0 == sessions[i].0,
    ensures
        relay_state::highest_session_number(after) < bound,
{
    lemma_numbers_below(sessions, bound);
    assert forall|i: int| 0 <= i < after.len() implies match relay_state::session_number(
        (#[trigger] after[i]).0,
    ) {
        Some(number) => number < bound,
        None => true,
    } by {
        assert(after[i].0 == sessions[i].0);
    }
    lemma_numbers_below(after, bound);
}

// ---------------------------------------------------------------------------
// The counters stay ahead
// ---------------------------------------------------------------------------

/// The events follow one another, the checkpoint covers none that is not
/// there, and the counters lie above all numbers in use.
pub open spec fn counters_ahead(server: ServerModel) -> bool {
    &&& in_order(server.store.events)
    &&& server.store.checkpointed_through_seq <= relay_state::highest_seq(server.store.events)
    &&& relay_state::highest_seq(server.store.events) < server.next_event_id
    &&& server.store.checkpointed_event_count <= server.store.events.len()
    &&& relay_state::highest_session_number(server.store.sessions) < server.next_session_id
    &&& relay_state::highest_session_number(server.sessions) < server.next_session_id
}

proof fn lemma_settled_in_order(changed: StoreModel, threshold: nat)
    requires
        in_order(changed.events),
        changed.checkpointed_through_seq <= relay_state::highest_seq(changed.events),
    ensures
        in_order(relay_state::settled(changed, threshold).events),
        relay_state::highest_seq(
            relay_state::settled(changed, threshold).events,
        ) == relay_state::highest_seq(changed.events),
        relay_state::settled(
            changed,
            threshold,
        ).checkpointed_through_seq <= relay_state::highest_seq(changed.events),
        relay_state::settled(changed, threshold).checkpointed_event_count <= relay_state::settled(
            changed,
            threshold,
        ).events.len(),
        relay_state::settled(changed, threshold).sessions == changed.sessions,
{
    law_compaction_keeps_the_order(changed.events);
    store_laws::law_compaction_keeps_highest_seq(changed.events);
    store_laws::law_compaction_leaves_no_runs(changed.events);
}

/// A change that appends one event keeps the counters ahead.
proof fn lemma_append_keeps(
    server: ServerModel,
    counted_server: ServerModel,
    changed: StoreModel,
    event: EventModel,
    next: FollowUpModel,
)
    requires
        counters_ahead(server),
        server.next_event_id < u64::MAX,
        counted_server.next_event_id == state::counted(server.next_event_id),
        relay_state::highest_session_number(
            counted_server.sessions,
        ) < counted_server.next_session_id,
        relay_state::highest_session_number(changed.sessions) < counted_server.next_session_id,
        changed.events == server.store.events.push(event),
        changed.checkpointed_event_count == server.store.checkpointed_event_count,
        changed.checkpointed_through_seq == server.store.checkpointed_through_seq,
        event.seq == server.next_event_id,
        event.seq_end is None,
    ensures
        counters_ahead(state::updated(counted_server, changed, next).0),
{
    lemma_highest_of_push(server.store.events, event);
    lemma_push_in_order(server.store.events, event);
    lemma_settled_in_order(changed, counted_server.persistence.compaction_threshold);
}

/// A change that leaves the events alone keeps the counters ahead.
proof fn lemma_no_event_keeps(
    server: ServerModel,
    server1: ServerModel,
    changed: StoreModel,
    next: FollowUpModel,
)
    requires
        counters_ahead(server),
        server1.next_event_id == server.next_event_id,
        relay_state::highest_session_number(server1.sessions) < server1.next_session_id,
        relay_state::highest_session_number(changed.sessions) < server1.next_session_id,
        changed.events == server.store.events,
        changed.checkpointed_event_count == server.store.checkpointed_event_count,
        changed.checkpointed_through_seq == server.store.checkpointed_through_seq,
    ensures
        counters_ahead(state::updated(server1, changed, next).0),
{
    lemma_settled_in_order(changed, server1.persistence.compaction_threshold);
}

/// Messages from browsers keep the counters ahead of all numbers in use, as
/// long as the counters do not start again.
pub proof fn law_browser_messages_keep_counters_ahead(
    server: ServerModel,
    browser_id: Seq<char>,
    user_id: Seq<char>,
    message: BrowserRequestModel,
    now: u64,
)
    requires
        counters_ahead(server),
        server.next_event_id < u64::MAX,
        server.next_session_id < u64::MAX,
    ensures
        counters_ahead(
            browser_messages::browser_message_step(server, browser_id, user_id, message, now).0,
        ),
{
    let (after, step) = browser_messages::browser_message_step(
        server,
        browser_id,
        user_id,
        message,
        now,
    );
    let seq = server.next_event_id;
    let bound = server.next_session_id as nat;
    if step is Persist {
        let next = step->next;
        match message {
            BrowserRequestModel::CreateSession { device_id, workspace_id } => {
                let session_id = store_laws::relay_session_id(server.next_session_id as nat);
                store_laws::law_session_number_is_read_back(server.next_session_id as nat);
                let workspace = session_helpers::device_workspace(
                    server.store,
                    device_id,
                    workspace_id,
                )->Ok_0;
                let session = SessionModel {
                    session_id,
                    device_id,
                    browser_id,
                    owner_user_id: user_id,
                    client_session_id: None,
                };
                let stored = PersistedModel {
                    summary: SummaryModel {
                        session_id,
                        device_id,
                        status: SESSION_STATUS_REQUESTED@,
                        owner_user_id: Some(user_id),
                        workspace_id: Some(workspace.workspace_id),
                        workspace_name: Some(workspace.workspace_name),
                        created_at: now,
                        updated_at: now,
                    },
                    client_session_id: None,
                };
                let added = session_helpers::event(
                    seq,
                    session_id,
                    now,
                    "session_requested"@,
                    None,
                );
                lemma_put_below(server.sessions, session_id, session, bound + 1);
                lemma_put_below(server.store.sessions, session_id, stored, bound + 1);
                lemma_append_keeps(
                    server,
                    ServerModel {
                        next_session_id: state::counted(server.next_session_id),
                        next_event_id: state::counted(server.next_event_id),
                        sessions: string_map::put(server.sessions, session_id, session),
                        ..server
                    },
                    StoreModel {
                        sessions: string_map::put(server.store.sessions, session_id, stored),
                        events: server.store.events.push(added),
                        ..server.store
                    },
                    added,
                    next,
                );
            },
            BrowserRequestModel::AdoptSession { session_id } => {
                let session = string_map::lookup(server.sessions, session_id).unwrap();
                let claimed = SessionModel { browser_id, owner_user_id: user_id, ..session };
                let sessions = browser_messages::with_owner(
                    server.store.sessions,
                    session_id,
                    user_id,
                );
                lemma_put_below(server.sessions, session_id, claimed, bound);
                if string_map::lookup(server.store.sessions, session_id) is Some {
                    let stored = string_map::lookup(server.store.sessions, session_id).unwrap();
                    lemma_put_below(
                        server.store.sessions,
                        session_id,
                        PersistedModel {
                            summary: SummaryModel {
                                owner_user_id: Some(user_id),
                                ..stored.summary
                            },
                            ..stored
                        },
                        bound,
                    );
                }
                lemma_no_event_keeps(
                    server,
                    ServerModel { sessions: string_map::put(
                        server.sessions,
                        session_id,
                        claimed,
                    ), ..server },
                    StoreModel { sessions, ..server.store },
                    next,
                );
            },
            BrowserRequestModel::Prompt { session_id, text } => {
                let session = string_map::lookup(server.sessions, session_id).unwrap();
                let sessions = session_helpers::with_status(
                    server.store.sessions,
                    session.session_id,
                    SESSION_STATUS_RUNNING@,
                    now,
                );
                lemma_status_below(
                    server.store.sessions,
                    session.session_id,
                    SESSION_STATUS_RUNNING@,
                    now,
                    bound,
                );
                let added = session_helpers::event(
                    seq,
                    session.session_id,
                    now,
                    "prompt_submitted"@,
                    Some(text),
                );
                lemma_append_keeps(
                    server,
                    ServerModel { next_event_id: state::counted(server.next_event_id), ..server },
                    StoreModel {
                        sessions,
                        events: server.store.events.push(added),
                        ..server.store
                    },
                    added,
                    next,
                );
            },
            BrowserRequestModel::ResolvePermission { request_id, selected_index } => {
                let pending = string_map::lookup(server.permissions, request_id).unwrap();
                let sessions = match pending.session_id {
                    Some(session_id) => session_helpers::with_status(
                        server.store.sessions,
                        session_id,
                        SESSION_STATUS_RUNNING@,
                        now,
                    ),
                    None => server.store.sessions,
                };
                if pending.session_id is Some {
                    lemma_status_below(
                        server.store.sessions,
                        pending.session_id.unwrap(),
                        SESSION_STATUS_RUNNING@,
                        now,
                        bound,
                    );
                }
                let added = browser_messages::permission_event(
                    seq,
                    pending.session_id,
                    now,
                    request_id,
                    selected_index,
                );
                lemma_append_keeps(
                    server,
                    ServerModel {
                        next_event_id: state::counted(server.next_event_id),
                        permissions: string_map::erase(server.permissions, request_id),
                        ..server
                    },
                    StoreModel {
                        sessions,
                        events: server.store.events.push(added),
                        ..server.store
                    },
                    added,
                    next,
                );
            },
            BrowserRequestModel::CloseSession { session_id } => {
                let sessions = session_helpers::with_status(
                    server.store.sessions,
                    session_id,
                    SESSION_STATUS_CLOSED@,
                    now,
                );
                lemma_status_below(
                    server.store.sessions,
                    session_id,
                    SESSION_STATUS_CLOSED@,
                    now,
                    bound,
                );
                let added = session_helpers::event(seq, session_id, now, "session_closed"@, None);
                lemma_append_keeps(
                    server,
                    ServerModel { next_event_id: state::counted(server.next_event_id), ..server },
                    StoreModel {
                        sessions,
                        events: server.store.events.push(added),
                        ..server.store
                    },
                    added,
                    next,
                );
            },
            BrowserRequestModel::DeleteSession { session_id } => {
                let changed = session_helpers::session_deleted(
                    server.store,
                    session_id,
                    user_id,
                    now,
                    seq,
                );
                let kept = |event: EventModel| event.session_id != session_id;
                let remaining = server.store.events.filter(kept);
                lemma_filter_in_order(server.store.events, kept);
                lemma_highest_of_push(remaining, changed.events.last());
                assert(changed.events =~= remaining.push(changed.events.last()));
                lemma_push_in_order(remaining, changed.events.last());
                lemma_erase_below(server.store.sessions, session_id, bound);
                lemma_erase_below(server.sessions, session_id, bound);
                lemma_settled_in_order(changed, server.persistence.compaction_threshold);
            },
            _ => {},
        }
    } else {
        match message {
            BrowserRequestModel::AdoptSession { session_id } => {
                match string_map::lookup(server.sessions, session_id) {
                    Some(session) => {
                        lemma_put_below(
                            server.sessions,
                            session_id,
                            SessionModel { browser_id, ..session },
                            bound,
                        );
                    },
                    None => {},
                }
            },
            _ => {},
        }
    }
}

proof fn lemma_status_below(
    sessions: Seq<(Seq<char>, PersistedModel)>,
    session_id: Seq<char>,
    status: Seq<char>,
    now: u64,
    bound: nat,
)
    requires
        relay_state::highest_session_number(sessions) < bound,
    ensures
        relay_state::highest_session_number(
            session_helpers::with_status(sessions, session_id, status, now),
        ) < bound,
{
    match string_map::lookup(sessions, session_id) {
        Some(session) => {
            lemma_put_below(
                sessions,
                session_id,
                PersistedModel {
                    summary: SummaryModel { status, updated_at: now, ..session.summary },
                    ..session
                },
                bound,
            );
        },
        None => {},
    }
}

/// A change to one stored session, under the id it has.
proof fn lemma_change_below(
    sessions: Seq<(Seq<char>, PersistedModel)>,
    after: Seq<(Seq<char>, PersistedModel)>,
    session_id: Seq<char>,
    bound: nat,
)
    requires
        relay_state::highest_session_number(sessions) < bound,
        after == sessions || string_map::lookup(
            sessions,
            session_id,
        ) is Some && exists|value: PersistedModel|
            after == #[trigger] string_map::put(sessions, session_id, value),
    ensures
        relay_state::highest_session_number(after) < bound,
{
    if after != sessions {
        let value = choose|value: PersistedModel| after == #[trigger] string_map::put(
            sessions,
            session_id,
            value,
        );
        lemma_put_below(sessions, session_id, value, bound);
    }
}

/// Messages from home clients keep the counters ahead of all numbers in use, as
/// long as the counters do not start again.
pub proof fn law_client_messages_keep_counters_ahead(
    server: ServerModel,
    device_id: Seq<char>,
    message: ClientMessageModel,
    now: u64,
)
    requires
        counters_ahead(server),
        server.next_event_id < u64::MAX,
    ensures
        counters_ahead(client_messages::client_message_step(server, device_id, message, now).0),
{
    let (after, step) = client_messages::client_message_step(server, device_id, message, now);
    let seq = server.next_event_id;
    let bound = server.next_session_id as nat;
    let stored = server.store.sessions;
    if step is Persist {
        let next = step->next;
        match message {
            ClientMessageModel::SessionCreated {
                session_id,
                client_session_id,
                workspace_id,
                workspace_name,
            } => {
                let sessions = client_messages::with_creation(
                    stored,
                    session_id,
                    now,
                    client_session_id,
                    workspace_id,
                    workspace_name,
                );
                lemma_change_below(stored, sessions, session_id, bound);
                lemma_binding_below(server.sessions, session_id, client_session_id, bound);
                let added = session_helpers::event(
                    seq,
                    session_id,
                    now,
                    "session_created"@,
                    Some(workspace_name + " ("@ + workspace_id + ")"@),
                );
                lemma_append_keeps(
                    server,
                    ServerModel {
                        next_event_id: state::counted(server.next_event_id),
                        sessions: client_messages::with_binding(
                            server.sessions,
                            session_id,
                            client_session_id,
                        ),
                        ..server
                    },
                    StoreModel {
                        sessions,
                        events: server.store.events.push(added),
                        ..server.store
                    },
                    added,
                    next,
                );
            },
            ClientMessageModel::SessionResumed { session_id, client_session_id } => {
                let sessions = client_messages::with_bound_report(
                    stored,
                    session_id,
                    SESSION_STATUS_IDLE@,
                    now,
                    client_session_id,
                );
                lemma_change_below(stored, sessions, session_id, bound);
                lemma_binding_below(server.sessions, session_id, client_session_id, bound);
                let added = session_helpers::event(
                    seq,
                    session_id,
                    now,
                    "session_resumed"@,
                    Some(client_session_id),
                );
                lemma_append_keeps(
                    server,
                    ServerModel {
                        next_event_id: state::counted(server.next_event_id),
                        sessions: client_messages::with_binding(
                            server.sessions,
                            session_id,
                            client_session_id,
                        ),
                        ..server
                    },
                    StoreModel {
                        sessions,
                        events: server.store.events.push(added),
                        ..server.store
                    },
                    added,
                    next,
                );
            },
            ClientMessageModel::SessionResumeFailed { session_id, client_session_id, message } => {
                let sessions = client_messages::with_bound_report(
                    stored,
                    session_id,
                    SESSION_STATUS_RESUME_FAILED@,
                    now,
                    client_session_id,
                );
                lemma_change_below(stored, sessions, session_id, bound);
                let added = session_helpers::event(
                    seq,
                    session_id,
                    now,
                    "session_resume_failed"@,
                    Some(message),
                );
                lemma_append_keeps(
                    server,
                    ServerModel { next_event_id: state::counted(server.next_event_id), ..server },
                    StoreModel {
                        sessions,
                        events: server.store.events.push(added),
                        ..server.store
                    },
                    added,
                    next,
                );
            },
            ClientMessageModel::OutputChunk { session_id, text } => {
                let session_id = session_helpers::resolved_alias(
                    server.sessions,
                    device_id,
                    session_id,
                ).unwrap();
                let sessions = client_messages::with_activity(stored, session_id, now);
                lemma_change_below(stored, sessions, session_id, bound);
                let added = session_helpers::event(
                    seq,
                    session_id,
                    now,
                    "output_chunk"@,
                    Some(text),
                );
                lemma_append_keeps(
                    server,
                    ServerModel { next_event_id: state::counted(server.next_event_id), ..server },
                    StoreModel {
                        sessions,
                        events: server.store.events.push(added),
                        ..server.store
                    },
                    added,
                    next,
                );
            },
            ClientMessageModel::PromptFinished { session_id, stop_reason } => {
                let session_id = session_helpers::resolved_alias(
                    server.sessions,
                    device_id,
                    session_id,
                ).unwrap();
                let sessions = client_messages::with_report(
                    stored,
                    session_id,
                    SESSION_STATUS_IDLE@,
                    now,
                );
                lemma_change_below(stored, sessions, session_id, bound);
                let added = EventModel {
                    stop_reason: Some(stop_reason),
                    ..session_helpers::event(seq, session_id, now, "prompt_finished"@, None)
                };
                lemma_append_keeps(
                    server,
                    ServerModel { next_event_id: state::counted(server.next_event_id), ..server },
                    StoreModel {
                        sessions,
                        events: server.store.events.push(added),
                        ..server.store
                    },
                    added,
                    next,
                );
            },
            ClientMessageModel::PermissionRequested { request_id, session_id, options } => {
                let session_id = client_messages::asked_session(
                    server.sessions,
                    device_id,
                    session_id.unwrap(),
                );
                let session = string_map::lookup(server.sessions, session_id).unwrap();
                let sessions = client_messages::with_waiting(stored, session_id, now);
                lemma_change_below(stored, sessions, session_id, bound);
                let added = EventModel {
                    request_id: Some(request_id),
                    options: Some(options),
                    ..session_helpers::event(seq, session_id, now, "permission_requested"@, None)
                };
                lemma_append_keeps(
                    server,
                    ServerModel {
                        next_event_id: state::counted(server.next_event_id),
                        permissions: string_map::put(
                            server.permissions,
                            request_id,
                            PendingModel {
                                session_id: Some(session_id),
                                device_id,
                                browser_id: session.browser_id,
                            },
                        ),
                        ..server
                    },
                    StoreModel {
                        sessions,
                        events: server.store.events.push(added),
                        ..server.store
                    },
                    added,
                    next,
                );
            },
            _ => {},
        }
    }
}

proof fn lemma_binding_below(
    sessions: Seq<(Seq<char>, SessionModel)>,
    session_id: Seq<char>,
    client_session_id: Seq<char>,
    bound: nat,
)
    requires
        relay_state::highest_session_number(sessions) < bound,
    ensures
        relay_state::highest_session_number(
            client_messages::with_binding(sessions, session_id, client_session_id),
        ) < bound,
{
    match string_map::lookup(sessions, session_id) {
        Some(session) => {
            lemma_put_below(
                sessions,
                session_id,
                SessionModel { client_session_id: Some(client_session_id), ..session },
                bound,
            );
        },
        None => {},
    }
}

/// What follows once the store is written keeps the counters ahead of all
/// numbers in use, as long as the counters do not start again.
pub proof fn law_follow_ups_keep_counters_ahead(
    server: ServerModel,
    next: FollowUpModel,
    failure: Option<Seq<char>>,
    now: u64,
)
    requires
        counters_ahead(server),
        server.next_event_id < u64::MAX,
    ensures
        counters_ahead(follow_up::follow_up_step(server, next, failure, now).0),
{
    match next {
        FollowUpModel::DeviceDisconnected { device } => {
            let (after, step) = sockets::device_disconnected_step(server, device, now);
            let changed = session_helpers::device_disconnected(
                server.store,
                device.device_id,
                now,
                server.next_event_id,
            );
            lemma_same_keys_below(
                server.store.sessions,
                changed.sessions,
                server.next_session_id as nat,
            );
            lemma_append_keeps(
                server,
                ServerModel {
                    next_event_id: state::counted(server.next_event_id),
                    permissions: connections::without_device(server.permissions, device.device_id),
                    ..server
                },
                changed,
                session_helpers::event(
                    server.next_event_id,
                    Seq::empty(),
                    now,
                    "device_disconnected"@,
                    Some(device.device_id),
                ),
                step->next,
            );
        },
        _ => {},
    }
}

/// Devices that come and go keep the counters ahead of all numbers in use.
pub proof fn law_devices_keep_counters_ahead(server: ServerModel, device: DeviceModel)
    requires
        counters_ahead(server),
    ensures
        counters_ahead(sockets::connect_device_step(server, device).0),
        counters_ahead(sockets::disconnect_device_step(server, device).0),
{
    let (_, step) = sockets::connect_device_step(server, device);
    lemma_no_event_keeps(
        server,
        ServerModel { devices: string_map::with_member(
            server.devices,
            device.device_id,
        ), ..server },
        StoreModel {
            devices: string_map::put(
                server.store.devices,
                device.device_id,
                DeviceModel { connected: true, ..device },
            ),
            ..server.store
        },
        step->next,
    );
    let (_, step) = sockets::disconnect_device_step(server, device);
    lemma_no_event_keeps(
        server,
        ServerModel { devices: string_map::without_member(
            server.devices,
            device.device_id,
        ), ..server },
        StoreModel {
            devices: string_map::put(server.store.devices, device.device_id, sockets::gone(device)),
            ..server.store
        },
        step->next,
    );
}

/// The id of a session that a browser asks for is not in use.
pub proof fn law_new_session_id_is_unused(server: ServerModel)
    requires
        counters_ahead(server),
    ensures
        !string_map::holds(
            server.store.sessions,
            store_laws::relay_session_id(server.next_session_id as nat),
        ),
        !string_map::holds(
            server.sessions,
            store_laws::relay_session_id(server.next_session_id as nat),
        ),
{
    store_laws::law_session_id_is_new(server.store.sessions, server.next_session_id as nat);
    store_laws::law_session_id_is_new(server.sessions, server.next_session_id as nat);
}

} // verus!
