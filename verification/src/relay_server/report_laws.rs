//! What devices report is what is stored of it and what browsers are told.
use crate::protocol::{
    BrowserReplyModel, ClientMessageModel, DeviceModel, EventModel, PermissionOptionModel,
    ServerMessageModel, SummaryModel,
};
use crate::relay_server::client_messages;
use crate::relay_server::connections;
use crate::relay_server::follow_up;
use crate::relay_server::request_laws;
use crate::relay_server::session_helpers;
use crate::relay_server::session_laws;
use crate::relay_server::sockets;
use crate::relay_server::state::{
    BrowserModel, DeliveryModel, PendingModel, RelayErrorModel, ServerModel, SessionModel,
    StepModel,
};
use crate::relay_state::{PersistedModel, StoreModel};
use crate::relay_state;
use crate::seqs;
use crate::store_laws;
use crate::string_map;
use crate::text;
use vstd::prelude::*;

verus! {

/// What a message from a device comes to, where what it writes reaches the disk.
pub open spec fn reported(
    server: ServerModel,
    device_id: Seq<char>,
    message: ClientMessageModel,
    now: u64,
) -> (ServerModel, StepModel) {
    request_laws::once_written(
        client_messages::client_message_step(server, device_id, message, now),
        now,
    )
}

/// The status after a report: a closed session stays closed.
pub open spec fn status_after(before: Seq<char>, reported: Seq<char>) -> Seq<char> {
    if before == "closed"@ {
        "closed"@
    } else {
        reported
    }
}

// ---------------------------------------------------------------------------
// Which session is meant
// ---------------------------------------------------------------------------

/// A session that a device knows by an id of its own.
pub open spec fn known_to_device(
    sessions: Seq<(Seq<char>, SessionModel)>,
    device_id: Seq<char>,
    incoming_id: Seq<char>,
    i: int,
) -> bool {
    &&& 0 <= i < sessions.len()
    &&& sessions[i].1.device_id == device_id
    &&& sessions[i].1.client_session_id == Some(incoming_id)
}

/// A session that a device means by an id: the one of that id, or else the
/// first that the device knows by it.
pub open spec fn is_meant(
    sessions: Seq<(Seq<char>, SessionModel)>,
    device_id: Seq<char>,
    incoming_id: Seq<char>,
    session_id: Seq<char>,
) -> bool {
    if string_map::holds(sessions, incoming_id) {
        session_id == incoming_id
    } else {
        exists|i: int|
            {
                &&& #[trigger] known_to_device(sessions, device_id, incoming_id, i)
                &&& sessions[i].0 == session_id
                &&& forall|j: int|
                    0 <= j < i ==> !#[trigger] known_to_device(
                        sessions,
                        device_id,
                        incoming_id,
                        j,
                    )
            }
    }
}

proof fn lemma_first_alias(
    sessions: Seq<(Seq<char>, SessionModel)>,
    device_id: Seq<char>,
    incoming_id: Seq<char>,
) -> (i: int)
    ensures
        match session_helpers::first_alias(sessions, device_id, incoming_id) {
            Some(session_id) => known_to_device(sessions, device_id, incoming_id, i)
                && sessions[i].0 == session_id && forall|j: int|
                0 <= j < i ==> !#[trigger] known_to_device(sessions, device_id, incoming_id, j),
            None => forall|j: int|
                !#[trigger] known_to_device(sessions, device_id, incoming_id, j),
        },
    decreases sessions.len(),
{
    if sessions.len() == 0 {
        0
    } else if known_to_device(sessions, device_id, incoming_id, 0) {
        0
    } else {
        let rest = sessions.skip(1);
        let i = lemma_first_alias(rest, device_id, incoming_id);
        assert forall|j: int| 0 < j < sessions.len() implies known_to_device(
            sessions,
            device_id,
            incoming_id,
            j,
        ) == #[trigger] known_to_device(rest, device_id, incoming_id, j - 1) by {
            assert(sessions[j] == rest[j - 1]);
        }
        assert forall|j: int|
            0 <= j < i + 1 && session_helpers::first_alias(rest, device_id, incoming_id)
                is Some implies !#[trigger] known_to_device(
            sessions,
            device_id,
            incoming_id,
            j,
        ) by {
            if j > 0 {
                assert(!known_to_device(rest, device_id, incoming_id, j - 1));
            }
        }
        if session_helpers::first_alias(rest, device_id, incoming_id) is None {
            assert forall|j: int| !#[trigger] known_to_device(
                sessions,
                device_id,
                incoming_id,
                j,
            ) by {
                if 0 < j < sessions.len() {
                    assert(!known_to_device(rest, device_id, incoming_id, j - 1));
                }
            }
        } else {
            assert(known_to_device(rest, device_id, incoming_id, i));
            assert(sessions[i + 1] == rest[i]);
        }
        i + 1
    }
}

/// The session that is found for an id is the one that the device means; where
/// none is found, no session has the id and the device knows none by it.
pub proof fn law_session_is_found(
    sessions: Seq<(Seq<char>, SessionModel)>,
    device_id: Seq<char>,
    incoming_id: Seq<char>,
)
    ensures
        match session_helpers::resolved_alias(sessions, device_id, incoming_id) {
            Some(session_id) => is_meant(sessions, device_id, incoming_id, session_id),
            None => !string_map::holds(sessions, incoming_id) && forall|i: int|
                !#[trigger] known_to_device(sessions, device_id, incoming_id, i),
        },
{
    let i = lemma_first_alias(sessions, device_id, incoming_id);
}

proof fn lemma_meant(
    sessions: Seq<(Seq<char>, SessionModel)>,
    device_id: Seq<char>,
    incoming_id: Seq<char>,
    session_id: Seq<char>,
)
    requires
        is_meant(sessions, device_id, incoming_id, session_id),
    ensures
        session_helpers::resolved_alias(sessions, device_id, incoming_id) == Some(session_id),
{
    if !string_map::holds(sessions, incoming_id) {
        let i = lemma_first_alias(sessions, device_id, incoming_id);
        let k = choose|k: int|
            {
                &&& #[trigger] known_to_device(sessions, device_id, incoming_id, k)
                &&& sessions[k].0 == session_id
                &&& forall|j: int|
                    0 <= j < k ==> !#[trigger] known_to_device(
                        sessions,
                        device_id,
                        incoming_id,
                        j,
                    )
            };
        assert(known_to_device(sessions, device_id, incoming_id, k));
        if i < k {
            assert(!known_to_device(sessions, device_id, incoming_id, i));
        }
        if k < i {
            assert(!known_to_device(sessions, device_id, incoming_id, k));
        }
    }
}

// ---------------------------------------------------------------------------
// Output
// ---------------------------------------------------------------------------

/// What is kept of output is the whole of it: the output of the session grows by
/// the very text that came, the output of others not at all.
proof fn lemma_output_grows(
    store: StoreModel,
    threshold: nat,
    event: EventModel,
    session_id: Seq<char>,
)
    requires
        store.events.len() > 0,
        store.events.last() == event,
        event.kind == "output_chunk"@,
        event.text is Some,
    ensures
        store_laws::output_text(relay_state::settled(store, threshold).events, session_id)
            == store_laws::output_text(store.events.drop_last(), session_id) + if event.session_id
            == session_id {
            event.text.unwrap()
        } else {
            Seq::empty()
        },
{
    store_laws::law_compaction_keeps_output(store.events, session_id);
}

/// Output of a session is stored and goes, with the text as it came, to the
/// browser that has the session. Everyone who may see the session hears that it
/// changed.
pub proof fn law_output_reaches_its_browser(
    server: ServerModel,
    device_id: Seq<char>,
    incoming_id: Seq<char>,
    output: Seq<char>,
    now: u64,
    session_id: Seq<char>,
    route: SessionModel,
    stored: PersistedModel,
    other_id: Seq<char>,
)
    requires
        is_meant(server.sessions, device_id, incoming_id, session_id),
        string_map::lookup(server.sessions, session_id) == Some(route),
        route.browser_id.len() > 0,
        string_map::holds(server.browsers, route.browser_id),
        string_map::lookup(server.store.sessions, session_id) == Some(stored),
        other_id != session_id,
    ensures
        ({
            let (after, step) = reported(
                server,
                device_id,
                ClientMessageModel::OutputChunk { session_id: incoming_id, text: output },
                now,
            );
            let changed = PersistedModel {
                summary: SummaryModel { updated_at: now, ..stored.summary },
                ..stored
            };
            &&& string_map::lookup(after.store.sessions, session_id) == Some(changed)
            &&& store_laws::output_text(after.store.events, session_id)
                == store_laws::output_text(server.store.events, session_id) + output
            &&& store_laws::output_text(after.store.events, other_id)
                == store_laws::output_text(server.store.events, other_id)
            &&& after.store.events.filter(request_laws::is_no_output())
                == server.store.events.filter(request_laws::is_no_output())
            &&& server.next_event_id < u64::MAX ==> after.next_event_id == server.next_event_id
                + 1
            &&& after.store.events.len() > 0
            &&& after.store.events.last().kind == "output_chunk"@
            &&& after.store.events.last().session_id == session_id
            &&& after.store.events.last().timestamp == now
            &&& after.sessions == server.sessions
            &&& after.permissions == server.permissions
            &&& after.store.devices == server.store.devices
            &&& step == request_laws::sent(
                request_laws::summary_offered(server.browsers, changed).push(
                    DeliveryModel::Browser {
                        browser_id: route.browser_id,
                        message: BrowserReplyModel::OutputChunk { session_id, text: output },
                        required: true,
                    },
                ),
            )
        }),
{
    lemma_meant(server.sessions, device_id, incoming_id, session_id);
    let changed = PersistedModel {
        summary: SummaryModel { updated_at: now, ..stored.summary },
        ..stored
    };
    let event = session_helpers::event(
        server.next_event_id,
        session_id,
        now,
        "output_chunk"@,
        Some(output),
    );
    let store = StoreModel {
        sessions: string_map::put(server.store.sessions, session_id, changed),
        events: server.store.events.push(event),
        ..server.store
    };
    let threshold = server.persistence.compaction_threshold;
    string_map::law_lookup_after_put(server.store.sessions, session_id, changed, session_id);
    assert(store.events.drop_last() =~= server.store.events);
    lemma_output_grows(store, threshold, event, session_id);
    lemma_output_grows(store, threshold, event, other_id);
    request_laws::law_settling_keeps_the_history(store, threshold);
    assert(store.events.filter(request_laws::is_no_output()) == server.store.events.filter(
        request_laws::is_no_output(),
    )) by {
        reveal(Seq::filter);
    }
    request_laws::law_last_event_survives_compaction(store, threshold);
    request_laws::law_watchers_hear_of_a_session(server.browsers, changed);
    assert(store_laws::output_text(server.store.events, other_id) + Seq::<char>::empty()
        =~= store_laws::output_text(server.store.events, other_id));
}

/// Output, and the end of a prompt, of a session that the relay does not know
/// are refused with the id that the device gave.
pub proof fn law_unknown_report_is_refused(
    server: ServerModel,
    device_id: Seq<char>,
    incoming_id: Seq<char>,
    words: Seq<char>,
    now: u64,
)
    requires
        !string_map::holds(server.sessions, incoming_id),
        forall|i: int| !#[trigger] known_to_device(server.sessions, device_id, incoming_id, i),
    ensures
        reported(
            server,
            device_id,
            ClientMessageModel::OutputChunk { session_id: incoming_id, text: words },
            now,
        ) == (
            server,
            request_laws::refused(RelayErrorModel::UnknownSession { session_id: incoming_id }),
        ),
        reported(
            server,
            device_id,
            ClientMessageModel::PromptFinished { session_id: incoming_id, stop_reason: words },
            now,
        ) == (
            server,
            request_laws::refused(RelayErrorModel::UnknownSession { session_id: incoming_id }),
        ),
{
    let i = lemma_first_alias(server.sessions, device_id, incoming_id);
    assert(!known_to_device(server.sessions, device_id, incoming_id, i));
}

/// The end of a prompt sets the session idle, is recorded with its reason, and
/// goes with that reason to the browser that has the session.
pub proof fn law_finish_reaches_its_browser(
    server: ServerModel,
    device_id: Seq<char>,
    incoming_id: Seq<char>,
    stop_reason: Seq<char>,
    now: u64,
    session_id: Seq<char>,
    route: SessionModel,
    stored: PersistedModel,
)
    requires
        is_meant(server.sessions, device_id, incoming_id, session_id),
        string_map::lookup(server.sessions, session_id) == Some(route),
        route.browser_id.len() > 0,
        string_map::holds(server.browsers, route.browser_id),
        string_map::lookup(server.store.sessions, session_id) == Some(stored),
    ensures
        ({
            let (after, step) = reported(
                server,
                device_id,
                ClientMessageModel::PromptFinished { session_id: incoming_id, stop_reason },
                now,
            );
            &&& string_map::lookup(after.store.sessions, session_id) == Some(
                PersistedModel {
                    summary: SummaryModel {
                        status: status_after(stored.summary.status, "idle"@),
                        updated_at: now,
                        ..stored.summary
                    },
                    ..stored
                },
            )
            &&& server.next_event_id < u64::MAX ==> after.next_event_id == server.next_event_id
                + 1
            &&& request_laws::recorded(
                server.store.events,
                after.store.events,
                EventModel {
                    seq: server.next_event_id,
                    seq_end: None,
                    session_id,
                    timestamp: now,
                    kind: "prompt_finished"@,
                    text: None,
                    stop_reason: Some(stop_reason),
                    request_id: None,
                    options: None,
                },
            )
            &&& step == request_laws::sent(
                seq![
                    DeliveryModel::Browser {
                        browser_id: route.browser_id,
                        message: BrowserReplyModel::PromptFinished { session_id, stop_reason },
                        required: true,
                    },
                ],
            )
        }),
{
    reveal_strlit("prompt_finished");
    reveal_strlit("output_chunk");
    assert("prompt_finished"@.len() != "output_chunk"@.len());
    lemma_meant(server.sessions, device_id, incoming_id, session_id);
    let changed = PersistedModel {
        summary: SummaryModel {
            status: status_after(stored.summary.status, "idle"@),
            updated_at: now,
            ..stored.summary
        },
        ..stored
    };
    let event = EventModel {
        stop_reason: Some(stop_reason),
        ..session_helpers::event(
            server.next_event_id,
            session_id,
            now,
            "prompt_finished"@,
            None,
        )
    };
    let store = StoreModel {
        sessions: string_map::put(server.store.sessions, session_id, changed),
        events: server.store.events.push(event),
        ..server.store
    };
    string_map::law_lookup_after_put(server.store.sessions, session_id, changed, session_id);
    let first = client_messages::client_message_step(
        server,
        device_id,
        ClientMessageModel::PromptFinished { session_id: incoming_id, stop_reason },
        now,
    );
    assert(first.0.store == relay_state::settled(
        store,
        server.persistence.compaction_threshold,
    ));
    assert(store.events.last() == event);
    request_laws::law_event_is_recorded(
        server.store.events,
        store,
        server.persistence.compaction_threshold,
        event,
    );
    assert(Seq::<DeliveryModel>::empty().push(
        DeliveryModel::Browser {
            browser_id: route.browser_id,
            message: BrowserReplyModel::PromptFinished { session_id, stop_reason },
            required: true,
        },
    ) =~= seq![
        DeliveryModel::Browser {
            browser_id: route.browser_id,
            message: BrowserReplyModel::PromptFinished { session_id, stop_reason },
            required: true,
        },
    ]);
}

// ---------------------------------------------------------------------------
// Permissions
// ---------------------------------------------------------------------------

/// A request goes to the browser that has the session, with the choices as the
/// device offered them; it is pending for that browser and that device, and the
/// session waits.
pub proof fn law_request_reaches_its_browser(
    server: ServerModel,
    device_id: Seq<char>,
    incoming_id: Seq<char>,
    request_id: Seq<char>,
    options: Seq<PermissionOptionModel>,
    now: u64,
    session_id: Seq<char>,
    route: SessionModel,
    stored: PersistedModel,
)
    requires
        is_meant(server.sessions, device_id, incoming_id, session_id),
        string_map::lookup(server.sessions, session_id) == Some(route),
        string_map::holds(server.browsers, route.browser_id),
        string_map::lookup(server.store.sessions, session_id) == Some(stored),
        stored.summary.status != "closed"@,
    ensures
        ({
            let (after, step) = reported(
                server,
                device_id,
                ClientMessageModel::PermissionRequested {
                    request_id,
                    session_id: Some(incoming_id),
                    options,
                },
                now,
            );
            let waiting = PersistedModel {
                summary: SummaryModel {
                    status: "awaiting_permission"@,
                    updated_at: now,
                    ..stored.summary
                },
                ..stored
            };
            &&& string_map::lookup(after.permissions, request_id) == Some(
                PendingModel {
                    session_id: Some(session_id),
                    device_id,
                    browser_id: route.browser_id,
                },
            )
            &&& string_map::lookup(after.store.sessions, session_id) == Some(waiting)
            &&& server.next_event_id < u64::MAX ==> after.next_event_id == server.next_event_id
                + 1
            &&& request_laws::recorded(
                server.store.events,
                after.store.events,
                EventModel {
                    seq: server.next_event_id,
                    seq_end: None,
                    session_id,
                    timestamp: now,
                    kind: "permission_requested"@,
                    text: None,
                    stop_reason: None,
                    request_id: Some(request_id),
                    options: Some(options),
                },
            )
            &&& step == request_laws::sent(
                request_laws::summary_offered(server.browsers, waiting).push(
                    DeliveryModel::Browser {
                        browser_id: route.browser_id,
                        message: BrowserReplyModel::PermissionRequested {
                            request_id,
                            session_id: Some(session_id),
                            options,
                        },
                        required: true,
                    },
                ),
            )
        }),
{
    reveal_strlit("permission_requested");
    reveal_strlit("output_chunk");
    assert("permission_requested"@.len() != "output_chunk"@.len());
    lemma_meant(server.sessions, device_id, incoming_id, session_id);
    let waiting = PersistedModel {
        summary: SummaryModel {
            status: "awaiting_permission"@,
            updated_at: now,
            ..stored.summary
        },
        ..stored
    };
    let event = EventModel {
        request_id: Some(request_id),
        options: Some(options),
        ..session_helpers::event(
            server.next_event_id,
            session_id,
            now,
            "permission_requested"@,
            None,
        )
    };
    let store = StoreModel {
        sessions: string_map::put(server.store.sessions, session_id, waiting),
        events: server.store.events.push(event),
        ..server.store
    };
    string_map::law_lookup_after_put(server.store.sessions, session_id, waiting, session_id);
    string_map::law_lookup_after_put(
        server.permissions,
        request_id,
        PendingModel { session_id: Some(session_id), device_id, browser_id: route.browser_id },
        request_id,
    );
    let first = client_messages::client_message_step(
        server,
        device_id,
        ClientMessageModel::PermissionRequested {
            request_id,
            session_id: Some(incoming_id),
            options,
        },
        now,
    );
    assert(first.0.store == relay_state::settled(
        store,
        server.persistence.compaction_threshold,
    ));
    assert(store.events.last() == event);
    request_laws::law_event_is_recorded(
        server.store.events,
        store,
        server.persistence.compaction_threshold,
        event,
    );
    request_laws::law_watchers_hear_of_a_session(server.browsers, waiting);
}

/// A request that names no session, or none that the relay knows, is passed
/// over.
pub proof fn law_request_without_session_is_passed_over(
    server: ServerModel,
    device_id: Seq<char>,
    incoming_id: Option<Seq<char>>,
    request_id: Seq<char>,
    options: Seq<PermissionOptionModel>,
    now: u64,
)
    requires
        incoming_id matches Some(id) ==> !string_map::holds(server.sessions, id) && forall|i: int|
            !#[trigger] known_to_device(server.sessions, device_id, id, i),
    ensures
        reported(
            server,
            device_id,
            ClientMessageModel::PermissionRequested { request_id, session_id: incoming_id, options },
            now,
        ) == (server, request_laws::sent(Seq::empty())),
{
    match incoming_id {
        Some(id) => {
            let i = lemma_first_alias(server.sessions, device_id, id);
            assert(!known_to_device(server.sessions, device_id, id, i));
        },
        None => {},
    }
}

// ---------------------------------------------------------------------------
// Sessions on devices
// ---------------------------------------------------------------------------

/// A session that a device has created is ready in the workspace that the device
/// names, bound to the device's own id; the browser that has it is told where it
/// was created.
pub proof fn law_creation_reaches_its_browser(
    server: ServerModel,
    device_id: Seq<char>,
    session_id: Seq<char>,
    client_session_id: Seq<char>,
    workspace_id: Seq<char>,
    workspace_name: Seq<char>,
    now: u64,
    route: SessionModel,
    stored: PersistedModel,
)
    requires
        string_map::lookup(server.sessions, session_id) == Some(route),
        string_map::holds(server.browsers, route.browser_id),
        string_map::lookup(server.store.sessions, session_id) == Some(stored),
    ensures
        ({
            let (after, step) = reported(
                server,
                device_id,
                ClientMessageModel::SessionCreated {
                    session_id,
                    client_session_id,
                    workspace_id,
                    workspace_name,
                },
                now,
            );
            let created = PersistedModel {
                summary: SummaryModel {
                    status: status_after(stored.summary.status, "ready"@),
                    workspace_id: Some(workspace_id),
                    workspace_name: Some(workspace_name),
                    updated_at: now,
                    ..stored.summary
                },
                client_session_id: Some(client_session_id),
            };
            &&& string_map::lookup(after.sessions, session_id) == Some(
                SessionModel { client_session_id: Some(client_session_id), ..route },
            )
            &&& string_map::lookup(after.store.sessions, session_id) == Some(created)
            &&& server.next_event_id < u64::MAX ==> after.next_event_id == server.next_event_id
                + 1
            &&& request_laws::recorded(
                server.store.events,
                after.store.events,
                EventModel {
                    seq: server.next_event_id,
                    seq_end: None,
                    session_id,
                    timestamp: now,
                    kind: "session_created"@,
                    text: Some(workspace_name + " ("@ + workspace_id + ")"@),
                    stop_reason: None,
                    request_id: None,
                    options: None,
                },
            )
            &&& step == request_laws::sent(
                request_laws::summary_offered(server.browsers, created).push(
                    DeliveryModel::Browser {
                        browser_id: route.browser_id,
                        message: BrowserReplyModel::SessionCreated {
                            session_id,
                            device_id: route.device_id,
                            workspace_id,
                            workspace_name,
                        },
                        required: true,
                    },
                ),
            )
        }),
{
    reveal_strlit("session_created");
    reveal_strlit("output_chunk");
    assert("session_created"@.len() != "output_chunk"@.len());
    let created = PersistedModel {
        summary: SummaryModel {
            status: status_after(stored.summary.status, "ready"@),
            workspace_id: Some(workspace_id),
            workspace_name: Some(workspace_name),
            updated_at: now,
            ..stored.summary
        },
        client_session_id: Some(client_session_id),
    };
    let event = session_helpers::event(
        server.next_event_id,
        session_id,
        now,
        "session_created"@,
        Some(workspace_name + " ("@ + workspace_id + ")"@),
    );
    let store = StoreModel {
        sessions: string_map::put(server.store.sessions, session_id, created),
        events: server.store.events.push(event),
        ..server.store
    };
    string_map::law_lookup_after_put(server.store.sessions, session_id, created, session_id);
    string_map::law_lookup_after_put(
        server.sessions,
        session_id,
        SessionModel { client_session_id: Some(client_session_id), ..route },
        session_id,
    );
    let first = client_messages::client_message_step(
        server,
        device_id,
        ClientMessageModel::SessionCreated {
            session_id,
            client_session_id,
            workspace_id,
            workspace_name,
        },
        now,
    );
    assert(first.0.store == relay_state::settled(
        store,
        server.persistence.compaction_threshold,
    ));
    assert(store.events.last() == event);
    request_laws::law_event_is_recorded(
        server.store.events,
        store,
        server.persistence.compaction_threshold,
        event,
    );
    request_laws::law_watchers_hear_of_a_session(server.browsers, created);
}

/// A session that a device has resumed is idle and bound to the device's own id;
/// all who may see it hear so.
pub proof fn law_resumption_is_told(
    server: ServerModel,
    device_id: Seq<char>,
    session_id: Seq<char>,
    client_session_id: Seq<char>,
    now: u64,
    route: SessionModel,
    stored: PersistedModel,
)
    requires
        string_map::lookup(server.sessions, session_id) == Some(route),
        string_map::lookup(server.store.sessions, session_id) == Some(stored),
    ensures
        ({
            let (after, step) = reported(
                server,
                device_id,
                ClientMessageModel::SessionResumed { session_id, client_session_id },
                now,
            );
            let resumed = PersistedModel {
                summary: SummaryModel {
                    status: status_after(stored.summary.status, "idle"@),
                    updated_at: now,
                    ..stored.summary
                },
                client_session_id: Some(client_session_id),
            };
            &&& string_map::lookup(after.sessions, session_id) == Some(
                SessionModel { client_session_id: Some(client_session_id), ..route },
            )
            &&& string_map::lookup(after.store.sessions, session_id) == Some(resumed)
            &&& server.next_event_id < u64::MAX ==> after.next_event_id == server.next_event_id
                + 1
            &&& request_laws::recorded(
                server.store.events,
                after.store.events,
                EventModel {
                    seq: server.next_event_id,
                    seq_end: None,
                    session_id,
                    timestamp: now,
                    kind: "session_resumed"@,
                    text: Some(client_session_id),
                    stop_reason: None,
                    request_id: None,
                    options: None,
                },
            )
            &&& step == request_laws::sent(
                request_laws::summary_offered(server.browsers, resumed),
            )
        }),
{
    reveal_strlit("session_resumed");
    reveal_strlit("output_chunk");
    assert("session_resumed"@.len() != "output_chunk"@.len());
    let resumed = PersistedModel {
        summary: SummaryModel {
            status: status_after(stored.summary.status, "idle"@),
            updated_at: now,
            ..stored.summary
        },
        client_session_id: Some(client_session_id),
    };
    let event = session_helpers::event(
        server.next_event_id,
        session_id,
        now,
        "session_resumed"@,
        Some(client_session_id),
    );
    let store = StoreModel {
        sessions: string_map::put(server.store.sessions, session_id, resumed),
        events: server.store.events.push(event),
        ..server.store
    };
    string_map::law_lookup_after_put(server.store.sessions, session_id, resumed, session_id);
    string_map::law_lookup_after_put(
        server.sessions,
        session_id,
        SessionModel { client_session_id: Some(client_session_id), ..route },
        session_id,
    );
    let first = client_messages::client_message_step(
        server,
        device_id,
        ClientMessageModel::SessionResumed { session_id, client_session_id },
        now,
    );
    assert(first.0.store == relay_state::settled(
        store,
        server.persistence.compaction_threshold,
    ));
    assert(store.events.last() == event);
    request_laws::law_event_is_recorded(
        server.store.events,
        store,
        server.persistence.compaction_threshold,
        event,
    );
    request_laws::law_watchers_hear_of_a_session(server.browsers, resumed);
}

/// A session that could not be resumed is marked so; the browser that has it is
/// told why, in the words of the device.
pub proof fn law_failed_resumption_is_told(
    server: ServerModel,
    device_id: Seq<char>,
    session_id: Seq<char>,
    client_session_id: Seq<char>,
    message: Seq<char>,
    now: u64,
    route: SessionModel,
    stored: PersistedModel,
)
    requires
        string_map::lookup(server.sessions, session_id) == Some(route),
        route.browser_id.len() > 0,
        string_map::holds(server.browsers, route.browser_id),
        string_map::lookup(server.store.sessions, session_id) == Some(stored),
    ensures
        ({
            let (after, step) = reported(
                server,
                device_id,
                ClientMessageModel::SessionResumeFailed { session_id, client_session_id, message },
                now,
            );
            let failed = PersistedModel {
                summary: SummaryModel {
                    status: status_after(stored.summary.status, "resume_failed"@),
                    updated_at: now,
                    ..stored.summary
                },
                client_session_id: Some(client_session_id),
            };
            &&& after.sessions == server.sessions
            &&& string_map::lookup(after.store.sessions, session_id) == Some(failed)
            &&& server.next_event_id < u64::MAX ==> after.next_event_id == server.next_event_id
                + 1
            &&& request_laws::recorded(
                server.store.events,
                after.store.events,
                EventModel {
                    seq: server.next_event_id,
                    seq_end: None,
                    session_id,
                    timestamp: now,
                    kind: "session_resume_failed"@,
                    text: Some(message),
                    stop_reason: None,
                    request_id: None,
                    options: None,
                },
            )
            &&& step == request_laws::sent(
                request_laws::summary_offered(server.browsers, failed).push(
                    DeliveryModel::Browser {
                        browser_id: route.browser_id,
                        message: BrowserReplyModel::Error {
                            session_id: Some(session_id),
                            message: "session 恢复失败，acp="@ + client_session_id + ": "@
                                + message,
                        },
                        required: true,
                    },
                ),
            )
        }),
{
    reveal_strlit("session_resume_failed");
    reveal_strlit("output_chunk");
    assert("session_resume_failed"@.len() != "output_chunk"@.len());
    let failed = PersistedModel {
        summary: SummaryModel {
            status: status_after(stored.summary.status, "resume_failed"@),
            updated_at: now,
            ..stored.summary
        },
        client_session_id: Some(client_session_id),
    };
    let event = session_helpers::event(
        server.next_event_id,
        session_id,
        now,
        "session_resume_failed"@,
        Some(message),
    );
    let store = StoreModel {
        sessions: string_map::put(server.store.sessions, session_id, failed),
        events: server.store.events.push(event),
        ..server.store
    };
    string_map::law_lookup_after_put(server.store.sessions, session_id, failed, session_id);
    let first = client_messages::client_message_step(
        server,
        device_id,
        ClientMessageModel::SessionResumeFailed { session_id, client_session_id, message },
        now,
    );
    assert(first.0.store == relay_state::settled(
        store,
        server.persistence.compaction_threshold,
    ));
    assert(store.events.last() == event);
    request_laws::law_event_is_recorded(
        server.store.events,
        store,
        server.persistence.compaction_threshold,
        event,
    );
    request_laws::law_watchers_hear_of_a_session(server.browsers, failed);
}

/// What a device says to all reaches every browser, with the device's id and its
/// own words, and changes nothing.
pub proof fn law_announcement_reaches_everyone(
    server: ServerModel,
    device_id: Seq<char>,
    words: Seq<char>,
    now: u64,
)
    ensures
        reported(server, device_id, ClientMessageModel::Info { message: words }, now) == (
            server,
            request_laws::sent(
                request_laws::offered_to(
                    server.browsers,
                    BrowserReplyModel::Info { message: "device "@ + device_id + ": "@ + words },
                ),
            ),
        ),
        reported(server, device_id, ClientMessageModel::Error { message: words }, now) == (
            server,
            request_laws::sent(
                request_laws::offered_to(
                    server.browsers,
                    BrowserReplyModel::Info {
                        message: "device "@ + device_id + " error: "@ + words,
                    },
                ),
            ),
        ),
{
    lemma_told_to_all(
        server,
        BrowserReplyModel::Info { message: "device "@ + device_id + ": "@ + words },
    );
    lemma_told_to_all(
        server,
        BrowserReplyModel::Info { message: "device "@ + device_id + " error: "@ + words },
    );
}

proof fn lemma_told_to_all(server: ServerModel, message: BrowserReplyModel)
    ensures
        connections::to_all(server, message) == request_laws::offered_to(server.browsers, message),
{
    assert(connections::to_all(server, message) =~= request_laws::offered_to(
        server.browsers,
        message,
    ));
}

/// A device that is ready is announced to every browser, and is told to take up
/// exactly the sessions that it can take up: each by its relay id, by the id
/// that the device knows, in its workspace.
pub proof fn law_ready_device_takes_up_its_sessions(
    server: ServerModel,
    device_id: Seq<char>,
    agent_name: Seq<char>,
    now: u64,
    j: int,
)
    requires
        server.devices.contains(device_id),
        0 <= j < server.store.sessions.len(),
    ensures
        ({
            let (after, step) = reported(
                server,
                device_id,
                ClientMessageModel::Ready { agent_name },
                now,
            );
            let told = request_laws::offered_to(
                server.browsers,
                BrowserReplyModel::Info {
                    message: "device "@ + device_id + " ready with agent "@ + agent_name,
                },
            );
            let stored = server.store.sessions[j].1;
            &&& after == server
            &&& step matches StepModel::Finished { outcome }
            &&& outcome.error is None
            &&& told.len() <= outcome.deliveries.len()
            &&& outcome.deliveries.take(told.len() as int) == told
            &&& forall|k: int|
                told.len() <= k < outcome.deliveries.len() ==> taken_up(
                    server.store.sessions,
                    device_id,
                    #[trigger] outcome.deliveries[k],
                )
            &&& stored.summary.device_id == device_id && stored.summary.status != "closed"@
                && stored.summary.status != "resume_failed"@ && stored.client_session_id is Some
                && stored.summary.workspace_id is Some ==> outcome.deliveries.contains(
                taking_up(stored),
            )
        }),
{
    let message = BrowserReplyModel::Info {
        message: "device "@ + device_id + " ready with agent "@ + agent_name,
    };
    lemma_told_to_all(server, message);
    let told = request_laws::offered_to(server.browsers, message);
    let commands = session_helpers::resume_commands(server.store.sessions, device_id);
    let deliveries = told + connections::commands_to(device_id, commands);
    let stored = server.store.sessions[j].1;
    assert(deliveries.take(told.len() as int) =~= told);
    assert forall|k: int| told.len() <= k < deliveries.len() implies taken_up(
        server.store.sessions,
        device_id,
        #[trigger] deliveries[k],
    ) by {
        let command = commands[k - told.len()];
        assert(commands.contains(command));
        let i = session_laws::law_nothing_else_is_resumed(
            server.store.sessions,
            device_id,
            command,
        );
        assert(deliveries[k] == taking_up(server.store.sessions[i].1));
    }
    if stored.summary.device_id == device_id && stored.summary.status != "closed"@
        && stored.summary.status != "resume_failed"@ && stored.client_session_id is Some
        && stored.summary.workspace_id is Some {
        session_laws::law_session_is_resumed(server.store.sessions, device_id, j);
        let command = session_laws::resuming(stored);
        let i = choose|i: int| 0 <= i < commands.len() && commands[i] == command;
        assert(deliveries[told.len() + i] == taking_up(stored));
    }
}

/// The command by which a device takes up a session.
pub open spec fn taking_up(stored: PersistedModel) -> DeliveryModel {
    DeliveryModel::Client {
        device_id: stored.summary.device_id,
        message: ServerMessageModel::ResumeSession {
            session_id: stored.summary.session_id,
            client_session_id: stored.client_session_id.unwrap(),
            workspace_id: stored.summary.workspace_id.unwrap(),
        },
        required: true,
    }
}

/// A delivery by which a device takes up one of its stored sessions.
pub open spec fn taken_up(
    sessions: Seq<(Seq<char>, PersistedModel)>,
    device_id: Seq<char>,
    delivery: DeliveryModel,
) -> bool {
    exists|i: int|
        {
            &&& 0 <= i < sessions.len()
            &&& (#[trigger] sessions[i]).1.summary.device_id == device_id
            &&& sessions[i].1.summary.status != "closed"@
            &&& sessions[i].1.summary.status != "resume_failed"@
            &&& sessions[i].1.client_session_id is Some
            &&& sessions[i].1.summary.workspace_id is Some
            &&& delivery == taking_up(sessions[i].1)
        }
}

// ---------------------------------------------------------------------------
// Devices
// ---------------------------------------------------------------------------

/// A device that connects is stored as it introduced itself, counts as
/// connected, and is shown so to every browser.
pub proof fn law_connected_device_is_shown(server: ServerModel, device: DeviceModel, now: u64)
    ensures
        ({
            let (after, step) = request_laws::once_written(
                sockets::connect_device_step(server, device),
                now,
            );
            let here = DeviceModel {
                device_id: device.device_id,
                device_name: device.device_name,
                connected: true,
                workspaces: device.workspaces,
            };
            &&& after.devices.contains(device.device_id)
            &&& forall|other: Seq<char>|
                other != device.device_id ==> (after.devices.contains(other)
                    <==> #[trigger] server.devices.contains(other))
            &&& string_map::lookup(after.store.devices, device.device_id) == Some(here)
            &&& after.store.sessions == server.store.sessions
            &&& after.sessions == server.sessions
            &&& step == request_laws::sent(
                request_laws::offered_to(
                    server.browsers,
                    BrowserReplyModel::DeviceStatus { device: here },
                ),
            )
        }),
{
    let here = DeviceModel { connected: true, ..device };
    string_map::law_lookup_after_put(
        server.store.devices,
        device.device_id,
        here,
        device.device_id,
    );
    let after = sockets::connect_device_step(server, device).0;
    lemma_told_to_all(after, BrowserReplyModel::DeviceStatus { device: here });
    assert forall|other: Seq<char>| other != device.device_id implies (after.devices.contains(
        other,
    ) <==> #[trigger] server.devices.contains(other)) by {
        string_map::law_member_joins(server.devices, device.device_id, other);
    }
    string_map::law_member_joins(server.devices, device.device_id, device.device_id);
}

/// A device that goes away no longer counts as connected but keeps its name and
/// its workspaces; what it asked for is dropped, and nothing else; each of its
/// sessions that could go on is marked, no other session is touched.
pub proof fn law_gone_device_is_marked(
    server: ServerModel,
    device: DeviceModel,
    now: u64,
    i: int,
)
    requires
        0 <= i < server.store.sessions.len(),
    ensures
        ({
            let (left, first) = sockets::disconnect_device_step(server, device);
            let (after, step) = request_laws::once_written((left, first), now);
            let before = server.store.sessions[i].1;
            let stored = after.store.sessions[i];
            &&& !after.devices.contains(device.device_id)
            &&& forall|other: Seq<char>|
                other != device.device_id ==> (after.devices.contains(other)
                    <==> #[trigger] server.devices.contains(other))
            &&& string_map::lookup(after.store.devices, device.device_id) == Some(
                DeviceModel {
                    device_id: device.device_id,
                    device_name: device.device_name,
                    connected: false,
                    workspaces: device.workspaces,
                },
            )
            &&& after.sessions == server.sessions
            &&& forall|k: int|
                0 <= k < after.permissions.len() ==> (#[trigger] after.permissions[k]).1.device_id
                    != device.device_id
            &&& forall|k: int|
                0 <= k < server.permissions.len() && (
                #[trigger] server.permissions[k]).1.device_id != device.device_id
                    ==> after.permissions.contains(server.permissions[k])
            &&& after.store.sessions.len() == server.store.sessions.len()
            &&& stored.0 == server.store.sessions[i].0
            &&& before.summary.device_id != device.device_id ==> stored.1 == before
            &&& before.summary.device_id == device.device_id ==> stored.1 == (PersistedModel {
                summary: SummaryModel {
                    status: if before.summary.status == "closed"@ || before.summary.status
                        == "resume_failed"@ {
                        before.summary.status
                    } else {
                        "device_disconnected"@
                    },
                    updated_at: now,
                    ..before.summary
                },
                ..before
            })
            &&& server.next_event_id < u64::MAX ==> after.next_event_id == server.next_event_id
                + 1
            &&& request_laws::recorded(
                server.store.events,
                after.store.events,
                EventModel {
                    seq: server.next_event_id,
                    seq_end: None,
                    session_id: Seq::empty(),
                    timestamp: now,
                    kind: "device_disconnected"@,
                    text: Some(device.device_id),
                    stop_reason: None,
                    request_id: None,
                    options: None,
                },
            )
        }),
{
    reveal_strlit("device_disconnected");
    reveal_strlit("output_chunk");
    assert("device_disconnected"@.len() != "output_chunk"@.len());
    let away = DeviceModel { connected: false, ..device };
    string_map::law_lookup_after_put(
        server.store.devices,
        device.device_id,
        away,
        device.device_id,
    );
    let left = sockets::disconnect_device_step(server, device).0;
    let marked = session_helpers::device_disconnected(
        left.store,
        device.device_id,
        now,
        left.next_event_id,
    );
    request_laws::law_event_is_recorded(
        left.store.events,
        marked,
        server.persistence.compaction_threshold,
        marked.events.last(),
    );
    request_laws::law_settling_keeps_the_history(
        StoreModel {
            devices: string_map::put(server.store.devices, device.device_id, away),
            ..server.store
        },
        server.persistence.compaction_threshold,
    );
    let kept = |entry: (Seq<char>, PendingModel)| entry.1.device_id != device.device_id;
    request_laws::lemma_kept_permissions(server.permissions, kept);
    assert forall|other: Seq<char>| other != device.device_id implies (left.devices.contains(other)
        <==> #[trigger] server.devices.contains(other)) by {
        string_map::law_member_leaves(server.devices, device.device_id, other);
    }
    string_map::law_member_leaves(server.devices, device.device_id, device.device_id);
}

/// Once that is written too, every browser is shown the device as it left it,
/// and each browser that has a session of the device is told that the device is
/// gone.
pub proof fn law_gone_device_is_shown(
    server: ServerModel,
    device: DeviceModel,
    now: u64,
    later: u64,
    i: int,
)
    requires
        0 <= i < server.sessions.len(),
        server.sessions[i].1.device_id == device.device_id,
        server.sessions[i].1.browser_id.len() > 0,
        string_map::holds(server.browsers, server.sessions[i].1.browser_id),
    ensures
        ({
            let (after, step) = request_laws::once_written(
                request_laws::once_written(
                    sockets::disconnect_device_step(server, device),
                    now,
                ),
                later,
            );
            let shown = request_laws::offered_to(
                server.browsers,
                BrowserReplyModel::DeviceStatus {
                    device: DeviceModel {
                        device_id: device.device_id,
                        device_name: device.device_name,
                        connected: false,
                        workspaces: device.workspaces,
                    },
                },
            );
            &&& step matches StepModel::Finished { outcome }
            &&& outcome.error is None
            &&& shown.len() <= outcome.deliveries.len()
            &&& outcome.deliveries.skip(outcome.deliveries.len() - shown.len()) == shown
            &&& outcome.deliveries.contains(
                DeliveryModel::Browser {
                    browser_id: server.sessions[i].1.browser_id,
                    message: BrowserReplyModel::Error {
                        session_id: None,
                        message: "device 已断开连接: "@ + device.device_id,
                    },
                    required: false,
                },
            )
        }),
{
    let away = DeviceModel { connected: false, ..device };
    let left = sockets::disconnect_device_step(server, device).0;
    let (marked, _) = sockets::device_disconnected_step(left, away, now);
    let session_ids = session_helpers::sessions_of_device(left.store.sessions, device.device_id);
    let browser_ids = sockets::browsers_of_device(server.sessions, device.device_id);
    let message = "device 已断开连接: "@ + device.device_id;
    let updates = sockets::session_updates(marked, session_ids);
    let errors = sockets::error_offers(marked, browser_ids, message);
    let reply = BrowserReplyModel::DeviceStatus { device: away };
    lemma_told_to_all(marked, reply);
    let shown = request_laws::offered_to(server.browsers, reply);
    let deliveries = updates + errors + shown;
    assert(deliveries.skip(deliveries.len() - shown.len()) =~= shown);
    let has_one = |entry: (Seq<char>, SessionModel)|
        entry.1.device_id == device.device_id && entry.1.browser_id.len() > 0;
    seqs::lemma_filter_members(server.sessions, has_one);
    assert(server.sessions.contains(server.sessions[i]));
    let theirs = server.sessions.filter(has_one);
    assert(theirs.contains(server.sessions[i]));
    let k = choose|k: int| 0 <= k < theirs.len() && theirs[k] == server.sessions[i];
    assert(browser_ids[k] == server.sessions[i].1.browser_id);
    lemma_error_offered(marked, browser_ids, message, k);
    let offer = DeliveryModel::Browser {
        browser_id: browser_ids[k],
        message: BrowserReplyModel::Error { session_id: None, message },
        required: false,
    };
    let at = choose|at: int| 0 <= at < errors.len() && errors[at] == offer;
    assert(deliveries[updates.len() + at] == offer);
}

/// And every browser whose user may see a session of the device hears how the
/// session now stands.
pub proof fn law_sessions_of_a_gone_device_are_shown(
    server: ServerModel,
    device: DeviceModel,
    now: u64,
    later: u64,
    i: int,
    b: int,
)
    requires
        string_map::distinct(server.store.sessions),
        0 <= i < server.store.sessions.len(),
        server.store.sessions[i].1.summary.session_id == server.store.sessions[i].0,
        server.store.sessions[i].1.summary.device_id == device.device_id,
        0 <= b < server.browsers.len(),
        request_laws::may_see(
            server.store.sessions[i].1.summary.owner_user_id,
            server.browsers[b].1.user_id,
        ),
    ensures
        ({
            let marked = request_laws::once_written(
                sockets::disconnect_device_step(server, device),
                now,
            );
            let step = request_laws::once_written(marked, later).1;
            &&& step matches StepModel::Finished { outcome }
            &&& outcome.deliveries.contains(
                DeliveryModel::Browser {
                    browser_id: server.browsers[b].0,
                    message: BrowserReplyModel::SessionUpdated {
                        session: marked.0.store.sessions[i].1.summary,
                    },
                    required: false,
                },
            )
        }),
{
    let away = DeviceModel { connected: false, ..device };
    let left = sockets::disconnect_device_step(server, device).0;
    let (marked, _) = sockets::device_disconnected_step(left, away, now);
    let session_id = server.store.sessions[i].0;
    let session_ids = session_helpers::sessions_of_device(left.store.sessions, device.device_id);
    let of_device = |entry: (Seq<char>, PersistedModel)|
        entry.1.summary.device_id == device.device_id;
    seqs::lemma_filter_members(server.store.sessions, of_device);
    assert(server.store.sessions.contains(server.store.sessions[i]));
    let theirs = server.store.sessions.filter(of_device);
    assert(theirs.contains(server.store.sessions[i]));
    let k = choose|k: int| 0 <= k < theirs.len() && theirs[k] == server.store.sessions[i];
    assert(session_ids[k] == session_id);
    let stored = marked.store.sessions[i].1;
    assert(marked.store.sessions[i].0 == session_id);
    assert forall|x: int, y: int| 0 <= x < y < marked.store.sessions.len() implies (
    #[trigger] marked.store.sessions[x]).0 != (#[trigger] marked.store.sessions[y]).0 by {
        assert(marked.store.sessions[x].0 == server.store.sessions[x].0);
        assert(marked.store.sessions[y].0 == server.store.sessions[y].0);
    }
    string_map::lemma_lookup_at(marked.store.sessions, i);
    let message = BrowserReplyModel::SessionUpdated { session: stored.summary };
    let offer = DeliveryModel::Browser {
        browser_id: server.browsers[b].0,
        message,
        required: false,
    };
    request_laws::law_watchers_hear_of_a_session(marked.browsers, stored);
    let sees = |browser: (Seq<char>, BrowserModel)|
        request_laws::may_see(stored.summary.owner_user_id, browser.1.user_id);
    seqs::lemma_filter_members(server.browsers, sees);
    assert(server.browsers.contains(server.browsers[b]));
    let watchers = request_laws::watchers(server.browsers, stored.summary.owner_user_id);
    assert(watchers.contains(server.browsers[b]));
    let w = choose|w: int| 0 <= w < watchers.len() && watchers[w] == server.browsers[b];
    let offers = request_laws::summary_offered(server.browsers, stored);
    assert(offers[w] == offer);
    assert(offers.contains(offer));
    lemma_update_sent(marked, session_ids, k, offer);
    let updates = sockets::session_updates(marked, session_ids);
    let at = choose|at: int| 0 <= at < updates.len() && updates[at] == offer;
    let rest = sockets::error_offers(
        marked,
        sockets::browsers_of_device(server.sessions, device.device_id),
        "device 已断开连接: "@ + device.device_id,
    );
    let all = updates + rest + connections::to_all(
        marked,
        BrowserReplyModel::DeviceStatus { device: away },
    );
    assert(all[at] == offer);
}

proof fn lemma_update_sent(
    server: ServerModel,
    session_ids: Seq<Seq<char>>,
    k: int,
    offer: DeliveryModel,
)
    requires
        0 <= k < session_ids.len(),
        connections::session_update(server, None, session_ids[k]) is Ok,
        connections::session_update(server, None, session_ids[k])->Ok_0.contains(offer),
    ensures
        sockets::session_updates(server, session_ids).contains(offer),
    decreases session_ids.len(),
{
    let rest = sockets::session_updates(server, session_ids.drop_last());
    let all = sockets::session_updates(server, session_ids);
    if k == session_ids.len() - 1 {
        let last = connections::session_update(server, None, session_ids[k])->Ok_0;
        let at = choose|at: int| 0 <= at < last.len() && last[at] == offer;
        assert(all[rest.len() + at] == offer);
    } else {
        assert(session_ids.drop_last()[k] == session_ids[k]);
        lemma_update_sent(server, session_ids.drop_last(), k, offer);
        let at = choose|at: int| 0 <= at < rest.len() && rest[at] == offer;
        assert(all[at] == offer);
    }
}

proof fn lemma_error_offered(
    server: ServerModel,
    browser_ids: Seq<Seq<char>>,
    message: Seq<char>,
    k: int,
)
    requires
        0 <= k < browser_ids.len(),
        string_map::holds(server.browsers, browser_ids[k]),
    ensures
        sockets::error_offers(server, browser_ids, message).contains(
            DeliveryModel::Browser {
                browser_id: browser_ids[k],
                message: BrowserReplyModel::Error { session_id: None, message },
                required: false,
            },
        ),
    decreases browser_ids.len(),
{
    let offer = DeliveryModel::Browser {
        browser_id: browser_ids[k],
        message: BrowserReplyModel::Error { session_id: None, message },
        required: false,
    };
    let rest = sockets::error_offers(server, browser_ids.drop_last(), message);
    let all = sockets::error_offers(server, browser_ids, message);
    if k == browser_ids.len() - 1 {
        assert(all.last() == offer);
    } else {
        assert(browser_ids.drop_last()[k] == browser_ids[k]);
        lemma_error_offered(server, browser_ids.drop_last(), message, k);
        let at = choose|at: int| 0 <= at < rest.len() && rest[at] == offer;
        assert(all[at] == offer);
    }
}

// ---------------------------------------------------------------------------
// Browsers
// ---------------------------------------------------------------------------

/// A browser that connects is known by an id of its own for the user who opened
/// it; nothing else changes.
pub proof fn law_connected_browser_is_known(
    server: ServerModel,
    user_id: Seq<char>,
    other_id: Seq<char>,
)
    requires
        server.next_browser_id < u64::MAX,
    ensures
        ({
            let after = sockets::with_browser(server, user_id);
            let browser_id = "browser-"@ + text::decimal(server.next_browser_id as nat);
            &&& string_map::lookup(after.browsers, browser_id) == Some(BrowserModel { user_id })
            &&& other_id != browser_id ==> string_map::lookup(after.browsers, other_id)
                == string_map::lookup(server.browsers, other_id)
            &&& after.next_browser_id == server.next_browser_id + 1
            &&& after.store == server.store
            &&& after.sessions == server.sessions
            &&& after.devices == server.devices
            &&& after.permissions == server.permissions
        }),
{
    let browser_id = "browser-"@ + text::decimal(server.next_browser_id as nat);
    string_map::law_lookup_after_put(
        server.browsers,
        browser_id,
        BrowserModel { user_id },
        browser_id,
    );
    string_map::law_lookup_after_put(
        server.browsers,
        browser_id,
        BrowserModel { user_id },
        other_id,
    );
}

/// A browser that goes away is no longer known, and what it was asked is
/// dropped; nothing else changes.
pub proof fn law_gone_browser_is_forgotten(
    server: ServerModel,
    browser_id: Seq<char>,
    other_id: Seq<char>,
)
    requires
        string_map::distinct(server.browsers),
    ensures
        ({
            let after = sockets::browser_gone(server, browser_id);
            &&& string_map::lookup(after.browsers, browser_id) is None
            &&& other_id != browser_id ==> string_map::lookup(after.browsers, other_id)
                == string_map::lookup(server.browsers, other_id)
            &&& forall|k: int|
                0 <= k < after.permissions.len() ==> (#[trigger] after.permissions[k]).1.browser_id
                    != browser_id
            &&& forall|k: int|
                0 <= k < server.permissions.len() && (
                #[trigger] server.permissions[k]).1.browser_id != browser_id
                    ==> after.permissions.contains(server.permissions[k])
            &&& after.store == server.store
            &&& after.sessions == server.sessions
            &&& after.devices == server.devices
        }),
{
    string_map::law_lookup_after_erase(server.browsers, browser_id, browser_id);
    string_map::law_lookup_after_erase(server.browsers, browser_id, other_id);
    let kept = |entry: (Seq<char>, PendingModel)| entry.1.browser_id != browser_id;
    request_laws::lemma_kept_permissions(server.permissions, kept);
}

// ---------------------------------------------------------------------------
// What stays as it is
// ---------------------------------------------------------------------------

/// Whether a message from a device may be about a session.
pub open spec fn may_concern(
    server: ServerModel,
    device_id: Seq<char>,
    message: ClientMessageModel,
    session_id: Seq<char>,
) -> bool {
    match message {
        ClientMessageModel::SessionCreated { session_id: named, .. } => named == session_id,
        ClientMessageModel::SessionResumed { session_id: named, .. } => named == session_id,
        ClientMessageModel::SessionResumeFailed { session_id: named, .. } => named == session_id,
        ClientMessageModel::OutputChunk { session_id: incoming, .. } => is_meant(
            server.sessions,
            device_id,
            incoming,
            session_id,
        ),
        ClientMessageModel::PromptFinished { session_id: incoming, .. } => is_meant(
            server.sessions,
            device_id,
            incoming,
            session_id,
        ),
        ClientMessageModel::PermissionRequested { session_id: Some(incoming), .. } => is_meant(
            server.sessions,
            device_id,
            incoming,
            session_id,
        ),
        _ => false,
    }
}

/// A message from a device is about one session at most; all others stay as they
/// are, stored and routed. So do the devices, the browsers and the logins.
#[verifier::rlimit(60)]
#[verifier::spinoff_prover]
pub proof fn law_devices_touch_one_session(
    server: ServerModel,
    device_id: Seq<char>,
    message: ClientMessageModel,
    now: u64,
    other_id: Seq<char>,
)
    requires
        !may_concern(server, device_id, message, other_id),
    ensures
        ({
            let after = reported(server, device_id, message, now).0;
            &&& string_map::lookup(after.store.sessions, other_id) == string_map::lookup(
                server.store.sessions,
                other_id,
            )
            &&& string_map::lookup(after.sessions, other_id) == string_map::lookup(
                server.sessions,
                other_id,
            )
            &&& after.store.devices == server.store.devices
            &&& after.devices == server.devices
            &&& after.browsers == server.browsers
            &&& after.login_sessions == server.login_sessions
            &&& after.client_auth == server.client_auth
            &&& after.browser_auth == server.browser_auth
            &&& after.persistence == server.persistence
        }),
{
    let subject = match message {
        ClientMessageModel::SessionCreated { session_id, .. } => Some(session_id),
        ClientMessageModel::SessionResumed { session_id, .. } => Some(session_id),
        ClientMessageModel::SessionResumeFailed { session_id, .. } => Some(session_id),
        ClientMessageModel::OutputChunk { session_id, .. } => {
            law_session_is_found(server.sessions, device_id, session_id);
            session_helpers::resolved_alias(server.sessions, device_id, session_id)
        },
        ClientMessageModel::PromptFinished { session_id, .. } => {
            law_session_is_found(server.sessions, device_id, session_id);
            session_helpers::resolved_alias(server.sessions, device_id, session_id)
        },
        ClientMessageModel::PermissionRequested { session_id: Some(session_id), .. } => {
            law_session_is_found(server.sessions, device_id, session_id);
            session_helpers::resolved_alias(server.sessions, device_id, session_id)
        },
        _ => None,
    };
    match subject {
        Some(session_id) => {
            request_laws::lemma_put_elsewhere(server.store.sessions, session_id, other_id);
            request_laws::lemma_put_elsewhere(server.sessions, session_id, other_id);
        },
        None => {},
    }
}

/// What a device reports leaves every request pending that it does not make
/// itself.
pub proof fn law_reports_leave_other_requests(
    server: ServerModel,
    device_id: Seq<char>,
    message: ClientMessageModel,
    now: u64,
    other_id: Seq<char>,
)
    requires
        message matches ClientMessageModel::PermissionRequested { request_id, .. } ==> request_id
            != other_id,
    ensures
        string_map::lookup(
            reported(server, device_id, message, now).0.permissions,
            other_id,
        ) == string_map::lookup(server.permissions, other_id),
{
    match message {
        ClientMessageModel::PermissionRequested { request_id, .. } => {
            request_laws::lemma_put_elsewhere(server.permissions, request_id, other_id);
        },
        _ => {},
    }
}

/// Where the disk could not be written, nothing of what a device reported is
/// sent on, and the reason is given.
pub proof fn law_unsaved_report_is_not_sent_on(
    server: ServerModel,
    device_id: Seq<char>,
    message: ClientMessageModel,
    reason: Seq<char>,
    now: u64,
)
    ensures
        ({
            let (after, step) = client_messages::client_message_step(
                server,
                device_id,
                message,
                now,
            );
            step matches StepModel::Persist { next, .. } ==> follow_up::follow_up_step(
                after,
                next,
                Some(reason),
                now,
            ) == (after, request_laws::refused(RelayErrorModel::NotSaved { message: reason }))
        }),
{
}

} // verus!
