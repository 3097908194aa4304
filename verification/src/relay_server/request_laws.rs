//! What browsers ask for is what is done: to the session that they name, on the
//! device that has it, with what they wrote.
use crate::protocol::{
    BrowserReplyModel, BrowserRequestModel, DeviceModel, EventModel, ServerMessageModel,
    SummaryModel, WorkspaceModel,
};
use crate::relay_server::browser_messages;
use crate::relay_server::connections;
use crate::relay_server::follow_up;
use crate::relay_server::session_helpers;
use crate::relay_server::session_laws;
use crate::relay_server::state::{
    BrowserModel, DeliveryModel, OutcomeModel, PendingModel, RelayErrorModel, ServerModel,
    SessionModel, StepModel,
};
use crate::relay_state::{PersistedModel, StoreModel};
use crate::relay_state;
use crate::seqs;
use crate::store_laws;
use crate::string_map;
use crate::text;
use vstd::prelude::*;

verus! {

// ---------------------------------------------------------------------------
// The course of a message
// ---------------------------------------------------------------------------

/// The end of the work on a message, where what it writes reaches the disk.
pub open spec fn once_written(first: (ServerModel, StepModel), now: u64) -> (
    ServerModel,
    StepModel,
) {
    match first.1 {
        StepModel::Persist { next, .. } => follow_up::follow_up_step(first.0, next, None, now),
        StepModel::Finished { .. } => first,
    }
}

/// What a message from a browser comes to, where what it writes reaches the disk.
pub open spec fn answered(
    server: ServerModel,
    browser_id: Seq<char>,
    user_id: Seq<char>,
    message: BrowserRequestModel,
    now: u64,
) -> (ServerModel, StepModel) {
    once_written(
        browser_messages::browser_message_step(server, browser_id, user_id, message, now),
        now,
    )
}

/// The work ended well, with these deliveries.
pub open spec fn sent(deliveries: Seq<DeliveryModel>) -> StepModel {
    StepModel::Finished { outcome: OutcomeModel { deliveries, error: None } }
}

/// The work was refused, and nothing was sent.
pub open spec fn refused(error: RelayErrorModel) -> StepModel {
    StepModel::Finished {
        outcome: OutcomeModel { deliveries: Seq::empty(), error: Some(error) },
    }
}

/// A user may see a session that is theirs or nobody's.
pub open spec fn may_see(owner_user_id: Option<Seq<char>>, user_id: Seq<char>) -> bool {
    owner_user_id matches Some(owner) ==> owner.len() == 0 || owner == user_id
}

/// The browsers whose users may see a session.
pub open spec fn watchers(
    browsers: Seq<(Seq<char>, BrowserModel)>,
    owner_user_id: Option<Seq<char>>,
) -> Seq<(Seq<char>, BrowserModel)> {
    browsers.filter(
        |browser: (Seq<char>, BrowserModel)| may_see(owner_user_id, browser.1.user_id),
    )
}

/// One message, offered to each of some browsers.
pub open spec fn offered_to(
    browsers: Seq<(Seq<char>, BrowserModel)>,
    message: BrowserReplyModel,
) -> Seq<DeliveryModel> {
    browsers.map_values(
        |browser: (Seq<char>, BrowserModel)|
            DeliveryModel::Browser { browser_id: browser.0, message, required: false },
    )
}

/// The summary of a session, offered to each browser whose user may see it.
pub open spec fn summary_offered(
    browsers: Seq<(Seq<char>, BrowserModel)>,
    session: PersistedModel,
) -> Seq<DeliveryModel> {
    offered_to(
        watchers(browsers, session.summary.owner_user_id),
        BrowserReplyModel::SessionUpdated { session: session.summary },
    )
}

proof fn lemma_watchers_step(
    browsers: Seq<(Seq<char>, BrowserModel)>,
    owner_user_id: Option<Seq<char>>,
    message: BrowserReplyModel,
)
    requires
        browsers.len() > 0,
    ensures
        ({
            let rest = offered_to(watchers(browsers.drop_last(), owner_user_id), message);
            offered_to(watchers(browsers, owner_user_id), message) == if may_see(
                owner_user_id,
                browsers.last().1.user_id,
            ) {
                rest.push(
                    DeliveryModel::Browser {
                        browser_id: browsers.last().0,
                        message,
                        required: false,
                    },
                )
            } else {
                rest
            }
        }),
{
    reveal(Seq::filter);
    assert(offered_to(watchers(browsers, owner_user_id), message) =~= if may_see(
        owner_user_id,
        browsers.last().1.user_id,
    ) {
        offered_to(watchers(browsers.drop_last(), owner_user_id), message).push(
            DeliveryModel::Browser { browser_id: browsers.last().0, message, required: false },
        )
    } else {
        offered_to(watchers(browsers.drop_last(), owner_user_id), message)
    });
}

proof fn lemma_no_watchers(
    browsers: Seq<(Seq<char>, BrowserModel)>,
    owner_user_id: Option<Seq<char>>,
    message: BrowserReplyModel,
)
    requires
        browsers.len() == 0,
    ensures
        offered_to(watchers(browsers, owner_user_id), message) == Seq::<DeliveryModel>::empty(),
{
    reveal(Seq::filter);
    assert(offered_to(watchers(browsers, owner_user_id), message) =~= Seq::empty());
}

/// A change to a session is told to the browsers whose users may see it.
pub proof fn law_watchers_hear_of_a_session(
    browsers: Seq<(Seq<char>, BrowserModel)>,
    session: PersistedModel,
)
    ensures
        connections::delta_deliveries(browsers, None, Some(session)) == summary_offered(
            browsers,
            session,
        ),
    decreases browsers.len(),
{
    let owner = session.summary.owner_user_id;
    let message = BrowserReplyModel::SessionUpdated { session: session.summary };
    if browsers.len() == 0 {
        lemma_no_watchers(browsers, owner, message);
    } else {
        law_watchers_hear_of_a_session(browsers.drop_last(), session);
        lemma_watchers_step(browsers, owner, message);
    }
}

/// That a session is gone is told to the browsers whose users could see it.
pub proof fn law_watchers_hear_of_a_removal(
    browsers: Seq<(Seq<char>, BrowserModel)>,
    session: PersistedModel,
)
    ensures
        connections::delta_deliveries(browsers, Some(session), None) == offered_to(
            watchers(browsers, session.summary.owner_user_id),
            BrowserReplyModel::SessionRemoved { session_id: session.summary.session_id },
        ),
    decreases browsers.len(),
{
    let owner = session.summary.owner_user_id;
    let message = BrowserReplyModel::SessionRemoved { session_id: session.summary.session_id };
    if browsers.len() == 0 {
        lemma_no_watchers(browsers, owner, message);
    } else {
        law_watchers_hear_of_a_removal(browsers.drop_last(), session);
        lemma_watchers_step(browsers, owner, message);
    }
}

proof fn lemma_closings(
    browsers: Seq<(Seq<char>, BrowserModel)>,
    session: PersistedModel,
    session_id: Seq<char>,
)
    ensures
        connections::closed_deliveries(browsers, session, session_id) == offered_to(
            watchers(browsers, session.summary.owner_user_id),
            BrowserReplyModel::SessionClosed { session_id },
        ),
    decreases browsers.len(),
{
    let owner = session.summary.owner_user_id;
    let message = BrowserReplyModel::SessionClosed { session_id };
    if browsers.len() == 0 {
        lemma_no_watchers(browsers, owner, message);
    } else {
        lemma_closings(browsers.drop_last(), session, session_id);
        lemma_watchers_step(browsers, owner, message);
    }
}

// ---------------------------------------------------------------------------
// What is recorded
// ---------------------------------------------------------------------------

/// Whether an event is anything but output.
pub open spec fn is_no_output() -> spec_fn(EventModel) -> bool {
    |event: EventModel| event.kind != "output_chunk"@
}

/// A history has grown by an event, which stands last: the output of every
/// session is what it was, and so are all other events, in their order.
pub open spec fn recorded(
    before: Seq<EventModel>,
    after: Seq<EventModel>,
    event: EventModel,
) -> bool {
    &&& after.len() > 0
    &&& after.last() == event
    &&& forall|session_id: Seq<char>| #[trigger]
        store_laws::output_text(after, session_id) == store_laws::output_text(before, session_id)
    &&& after.filter(is_no_output()) == before.filter(is_no_output()).push(event)
}

/// However much output is joined, a history keeps the output of every session and
/// all other events.
pub proof fn law_settling_keeps_the_history(store: StoreModel, threshold: nat)
    ensures
        ({
            let events = relay_state::settled(store, threshold).events;
            &&& forall|session_id: Seq<char>| #[trigger]
                store_laws::output_text(events, session_id) == store_laws::output_text(
                    store.events,
                    session_id,
                )
            &&& events.filter(is_no_output()) == store.events.filter(is_no_output())
        }),
{
    assert forall|session_id: Seq<char>| #[trigger]
        store_laws::output_text(
            relay_state::settled(store, threshold).events,
            session_id,
        ) == store_laws::output_text(store.events, session_id) by {
        store_laws::law_compaction_keeps_output(store.events, session_id);
    }
    store_laws::law_compaction_keeps_other_events(store.events);
    assert(is_no_output() =~= |event: EventModel| !relay_state::is_output(event));
}

/// An event that is no output and is appended to a history is recorded there,
/// whether or not output is joined with it.
pub proof fn law_event_is_recorded(
    before: Seq<EventModel>,
    changed: StoreModel,
    threshold: nat,
    event: EventModel,
)
    requires
        changed.events == before.push(event),
        event.kind != "output_chunk"@,
    ensures
        recorded(before, relay_state::settled(changed, threshold).events, event),
{
    let after = relay_state::settled(changed, threshold).events;
    law_last_event_survives_compaction(changed, threshold);
    law_settling_keeps_the_history(changed, threshold);
    assert(changed.events.drop_last() =~= before);
    assert forall|session_id: Seq<char>| #[trigger]
        store_laws::output_text(after, session_id) == store_laws::output_text(
            before,
            session_id,
        ) by {
        assert(store_laws::output_text(changed.events, session_id) =~= store_laws::output_text(
            before,
            session_id,
        ));
    }
    assert(changed.events.filter(is_no_output()) =~= before.filter(is_no_output()).push(event))
        by {
        reveal(Seq::filter);
    }
}

/// Whatever was joined before it, an event that is no output stands last after a
/// change that appended it; of output, at least the end is the new output.
pub proof fn law_last_event_survives_compaction(store: StoreModel, threshold: nat)
    requires
        store.events.len() > 0,
    ensures
        ({
            let event = store.events.last();
            let events = relay_state::settled(store, threshold).events;
            &&& events.len() > 0
            &&& event.kind != "output_chunk"@ ==> events.last() == event
            &&& events.last().kind == event.kind
            &&& events.last().session_id == event.session_id
            &&& events.last().timestamp == event.timestamp
            &&& event.text matches Some(text) ==> {
                &&& events.last().text is Some
                &&& text.is_suffix_of(events.last().text.unwrap())
            }
        }),
{
    let event = store.events.last();
    let done = relay_state::compact(store.events.drop_last());
    let text = relay_state::text_or_empty(event.text);
    if event.text is Some {
        assert(text.is_suffix_of(text)) by {
            assert(text.subrange(0, text.len() as int) =~= text);
        }
        if done.len() > 0 {
            let front = relay_state::text_or_empty(done.last().text);
            let all = front + text;
            assert(all.subrange(all.len() - text.len(), all.len() as int) =~= text);
        }
    }
}

// ---------------------------------------------------------------------------
// Creating a session
// ---------------------------------------------------------------------------

/// The workspace that is found under an id has that id and is among those that
/// were searched; where none is found, none has it.
pub proof fn law_workspace_has_the_id(workspaces: Seq<WorkspaceModel>, id: Seq<char>)
    ensures
        match session_helpers::workspace_with_id(workspaces, id) {
            Some(workspace) => workspace.workspace_id == id && workspaces.contains(workspace),
            None => forall|i: int|
                0 <= i < workspaces.len() ==> (#[trigger] workspaces[i]).workspace_id != id,
        },
    decreases workspaces.len(),
{
    if workspaces.len() > 0 && workspaces[0].workspace_id != id {
        let rest = workspaces.skip(1);
        law_workspace_has_the_id(rest, id);
        match session_helpers::workspace_with_id(rest, id) {
            Some(workspace) => {
                let i = choose|i: int| 0 <= i < rest.len() && rest[i] == workspace;
                assert(workspaces[i + 1] == workspace);
            },
            None => {
                assert forall|i: int| 0 <= i < workspaces.len() implies (
                #[trigger] workspaces[i]).workspace_id != id by {
                    if i > 0 {
                        assert(rest[i - 1] == workspaces[i]);
                    }
                }
            },
        }
    } else if workspaces.len() > 0 {
        assert(workspaces.contains(workspaces[0]));
    }
}

/// A session that a browser asks for in a workspace of a connected device is
/// stored as requested by its user, routed to the browser and the device, and
/// the device is told to create it in that very workspace.
pub proof fn law_session_is_created_where_asked(
    server: ServerModel,
    browser_id: Seq<char>,
    user_id: Seq<char>,
    device_id: Seq<char>,
    workspace_id: Seq<char>,
    now: u64,
    device: DeviceModel,
    i: int,
)
    requires
        server.devices.contains(device_id),
        string_map::lookup(server.store.devices, device_id) == Some(device),
        0 <= i < device.workspaces.len(),
        device.workspaces[i].workspace_id == workspace_id,
    ensures
        ({
            let (after, step) = answered(
                server,
                browser_id,
                user_id,
                BrowserRequestModel::CreateSession { device_id, workspace_id },
                now,
            );
            let session_id = "relay-session-"@ + text::decimal(server.next_session_id as nat);
            let stored = string_map::lookup(after.store.sessions, session_id).unwrap();
            &&& string_map::lookup(after.sessions, session_id) == Some(
                SessionModel {
                    session_id,
                    device_id,
                    browser_id,
                    owner_user_id: user_id,
                    client_session_id: None,
                },
            )
            &&& server.next_session_id < u64::MAX ==> after.next_session_id
                == server.next_session_id + 1
            &&& string_map::holds(after.store.sessions, session_id)
            &&& stored.client_session_id is None
            &&& stored.summary.session_id == session_id
            &&& stored.summary.device_id == device_id
            &&& stored.summary.status == "requested"@
            &&& stored.summary.owner_user_id == Some(user_id)
            &&& stored.summary.workspace_id == Some(workspace_id)
            &&& stored.summary.workspace_name is Some
            &&& device.workspaces.contains(
                WorkspaceModel {
                    workspace_id,
                    workspace_name: stored.summary.workspace_name.unwrap(),
                },
            )
            &&& stored.summary.created_at == now
            &&& stored.summary.updated_at == now
            &&& server.next_event_id < u64::MAX ==> after.next_event_id == server.next_event_id
                + 1
            &&& recorded(
                server.store.events,
                after.store.events,
                EventModel {
                    seq: server.next_event_id,
                    seq_end: None,
                    session_id,
                    timestamp: now,
                    kind: "session_requested"@,
                    text: None,
                    stop_reason: None,
                    request_id: None,
                    options: None,
                },
            )
            &&& step == sent(
                summary_offered(server.browsers, stored).push(
                    DeliveryModel::Client {
                        device_id,
                        message: ServerMessageModel::CreateSession { session_id, workspace_id },
                        required: true,
                    },
                ),
            )
        }),
{
    reveal_strlit("session_requested");
    reveal_strlit("output_chunk");
    law_workspace_has_the_id(device.workspaces, workspace_id);
    let message = BrowserRequestModel::CreateSession { device_id, workspace_id };
    let first = browser_messages::browser_message_step(
        server,
        browser_id,
        user_id,
        message,
        now,
    );
    let session_id = "relay-session-"@ + text::decimal(server.next_session_id as nat);
    let workspace = session_helpers::workspace_with_id(device.workspaces, workspace_id).unwrap();
    let stored = PersistedModel {
        summary: SummaryModel {
            session_id,
            device_id,
            status: "requested"@,
            owner_user_id: Some(user_id),
            workspace_id: Some(workspace_id),
            workspace_name: Some(workspace.workspace_name),
            created_at: now,
            updated_at: now,
        },
        client_session_id: None,
    };
    let changed = StoreModel {
        sessions: string_map::put(server.store.sessions, session_id, stored),
        events: server.store.events.push(
            session_helpers::event(
                server.next_event_id,
                session_id,
                now,
                "session_requested"@,
                None,
            ),
        ),
        ..server.store
    };
    string_map::law_lookup_after_put(server.store.sessions, session_id, stored, session_id);
    string_map::law_lookup_after_put(
        server.sessions,
        session_id,
        SessionModel {
            session_id,
            device_id,
            browser_id,
            owner_user_id: user_id,
            client_session_id: None,
        },
        session_id,
    );
    assert(first.0.store == relay_state::settled(
        changed,
        server.persistence.compaction_threshold,
    ));
    assert(first.0.store.sessions == changed.sessions);
    assert(changed.events.last() == session_helpers::event(
        server.next_event_id,
        session_id,
        now,
        "session_requested"@,
        None,
    ));
    assert("session_requested"@.len() != "output_chunk"@.len());
    law_event_is_recorded(
        server.store.events,
        changed,
        server.persistence.compaction_threshold,
        changed.events.last(),
    );
    law_watchers_hear_of_a_session(server.browsers, stored);
    assert(workspace == WorkspaceModel {
        workspace_id,
        workspace_name: workspace.workspace_name,
    });
}

/// A session is refused where the device is not connected, not known, or has no
/// workspace of the id; each time for that reason.
pub proof fn law_session_is_refused_elsewhere(
    server: ServerModel,
    browser_id: Seq<char>,
    user_id: Seq<char>,
    device_id: Seq<char>,
    workspace_id: Seq<char>,
    now: u64,
)
    requires
        !server.devices.contains(device_id) || (string_map::lookup(
            server.store.devices,
            device_id,
        ) matches Some(device) ==> forall|i: int|
            0 <= i < device.workspaces.len() ==> (#[trigger] device.workspaces[i]).workspace_id
                != workspace_id),
    ensures
        answered(
            server,
            browser_id,
            user_id,
            BrowserRequestModel::CreateSession { device_id, workspace_id },
            now,
        ) == (
            server,
            refused(
                if !server.devices.contains(device_id) {
                    RelayErrorModel::DeviceNotConnected { device_id }
                } else if string_map::lookup(server.store.devices, device_id) is None {
                    RelayErrorModel::UnknownDevice { device_id }
                } else {
                    RelayErrorModel::UnknownWorkspace { device_id, workspace_id }
                },
            ),
        ),
{
    match string_map::lookup(server.store.devices, device_id) {
        Some(device) => {
            law_workspace_has_the_id(device.workspaces, workspace_id);
            match session_helpers::workspace_with_id(device.workspaces, workspace_id) {
                Some(workspace) => {
                    let i = choose|i: int|
                        0 <= i < device.workspaces.len() && device.workspaces[i] == workspace;
                    assert(device.workspaces[i].workspace_id == workspace_id);
                },
                None => {},
            }
        },
        None => {},
    }
}

// ---------------------------------------------------------------------------
// Prompts
// ---------------------------------------------------------------------------

/// A session that a browser may prompt: stored, visible, open, and routed to it.
pub open spec fn may_prompt(
    server: ServerModel,
    browser_id: Seq<char>,
    user_id: Seq<char>,
    session_id: Seq<char>,
    stored: PersistedModel,
    route: SessionModel,
) -> bool {
    &&& string_map::lookup(server.store.sessions, session_id) == Some(stored)
    &&& may_see(stored.summary.owner_user_id, user_id)
    &&& stored.summary.status != "closed"@
    &&& string_map::lookup(server.sessions, session_id) == Some(route)
    &&& route.session_id == session_id
    &&& may_see(Some(route.owner_user_id), user_id)
    &&& route.browser_id == browser_id
}

/// A prompt sets the session running, is recorded with the text that the user
/// wrote, and that text goes to the device that has the session, for that
/// session.
pub proof fn law_prompt_reaches_its_device(
    server: ServerModel,
    browser_id: Seq<char>,
    user_id: Seq<char>,
    session_id: Seq<char>,
    prompt: Seq<char>,
    now: u64,
    stored: PersistedModel,
    route: SessionModel,
)
    requires
        may_prompt(server, browser_id, user_id, session_id, stored, route),
        server.devices.contains(route.device_id),
    ensures
        ({
            let (after, step) = answered(
                server,
                browser_id,
                user_id,
                BrowserRequestModel::Prompt { session_id, text: prompt },
                now,
            );
            let running = PersistedModel {
                summary: SummaryModel {
                    status: "running"@,
                    updated_at: now,
                    ..stored.summary
                },
                ..stored
            };
            &&& string_map::lookup(after.store.sessions, session_id) == Some(running)
            &&& after.sessions == server.sessions
            &&& after.permissions == server.permissions
            &&& after.store.devices == server.store.devices
            &&& server.next_event_id < u64::MAX ==> after.next_event_id == server.next_event_id
                + 1
            &&& recorded(
                server.store.events,
                after.store.events,
                EventModel {
                    seq: server.next_event_id,
                    seq_end: None,
                    session_id,
                    timestamp: now,
                    kind: "prompt_submitted"@,
                    text: Some(prompt),
                    stop_reason: None,
                    request_id: None,
                    options: None,
                },
            )
            &&& step == sent(
                summary_offered(server.browsers, running).push(
                    DeliveryModel::Client {
                        device_id: route.device_id,
                        message: ServerMessageModel::Prompt {
                            session_id: Some(session_id),
                            text: prompt,
                            create_session_if_missing: false,
                        },
                        required: true,
                    },
                ),
            )
        }),
{
    reveal_strlit("prompt_submitted");
    reveal_strlit("output_chunk");
    let running = PersistedModel {
        summary: SummaryModel { status: "running"@, updated_at: now, ..stored.summary },
        ..stored
    };
    let event = session_helpers::event(
        server.next_event_id,
        session_id,
        now,
        "prompt_submitted"@,
        Some(prompt),
    );
    let changed = StoreModel {
        sessions: string_map::put(server.store.sessions, session_id, running),
        events: server.store.events.push(event),
        ..server.store
    };
    string_map::law_lookup_after_put(server.store.sessions, session_id, running, session_id);
    let first = browser_messages::browser_message_step(
        server,
        browser_id,
        user_id,
        BrowserRequestModel::Prompt { session_id, text: prompt },
        now,
    );
    assert(first.0.store == relay_state::settled(
        changed,
        server.persistence.compaction_threshold,
    ));
    assert(changed.events.last() == event);
    assert("prompt_submitted"@.len() != "output_chunk"@.len());
    law_event_is_recorded(
        server.store.events,
        changed,
        server.persistence.compaction_threshold,
        changed.events.last(),
    );
    law_watchers_hear_of_a_session(server.browsers, running);
}

/// The history that is shown after a prompt ends with the prompt.
pub proof fn law_prompt_is_in_the_history(
    server: ServerModel,
    browser_id: Seq<char>,
    user_id: Seq<char>,
    session_id: Seq<char>,
    prompt: Seq<char>,
    now: u64,
    stored: PersistedModel,
    route: SessionModel,
    limit: Option<usize>,
    later: u64,
)
    requires
        may_prompt(server, browser_id, user_id, session_id, stored, route),
        server.devices.contains(route.device_id),
        string_map::holds(server.browsers, browser_id),
    ensures
        ({
            let after = answered(
                server,
                browser_id,
                user_id,
                BrowserRequestModel::Prompt { session_id, text: prompt },
                now,
            ).0;
            let shown = answered(
                after,
                browser_id,
                user_id,
                BrowserRequestModel::GetSessionHistory { session_id, before_seq: None, limit },
                later,
            ).1;
            &&& shown matches StepModel::Finished { outcome }
            &&& outcome.deliveries.len() == 1
            &&& outcome.deliveries[0] matches DeliveryModel::Browser { browser_id: to, message, .. }
            &&& to == browser_id
            &&& message matches BrowserReplyModel::SessionHistory { session_id: of, events, .. }
            &&& of == session_id
            &&& events.len() > 0
            &&& events.last().kind == "prompt_submitted"@
            &&& events.last().session_id == session_id
            &&& events.last().text == Some(prompt)
        }),
{
    law_prompt_reaches_its_device(
        server,
        browser_id,
        user_id,
        session_id,
        prompt,
        now,
        stored,
        route,
    );
    let after = answered(
        server,
        browser_id,
        user_id,
        BrowserRequestModel::Prompt { session_id, text: prompt },
        now,
    ).0;
    assert(after.browsers == server.browsers);
    let wanted = session_helpers::in_history(session_id, None);
    let events = after.store.events;
    assert(wanted(events.last()));
    lemma_filter_keeps_last(events, wanted);
    let page = session_helpers::history_events(events, session_id, None, limit);
    let history = events.filter(wanted);
    assert(page.last() == history.last());
}

proof fn lemma_filter_keeps_last<T>(items: Seq<T>, p: spec_fn(T) -> bool)
    requires
        items.len() > 0,
        p(items.last()),
    ensures
        items.filter(p).len() > 0,
        items.filter(p).last() == items.last(),
{
    reveal(Seq::filter);
}

// ---------------------------------------------------------------------------
// Permissions
// ---------------------------------------------------------------------------

/// The answer of the browser that was asked goes to the device that asked, with
/// the request that was answered and the very choice that was made. The session
/// runs on, the request is settled, and the answer is recorded.
pub proof fn law_answer_reaches_the_asking_device(
    server: ServerModel,
    browser_id: Seq<char>,
    user_id: Seq<char>,
    request_id: Seq<char>,
    selected_index: usize,
    now: u64,
    pending: PendingModel,
)
    requires
        string_map::distinct(server.permissions),
        string_map::lookup(server.permissions, request_id) == Some(pending),
        pending.browser_id == browser_id,
        server.devices.contains(pending.device_id),
        pending.session_id matches Some(session_id) ==> string_map::holds(
            server.store.sessions,
            session_id,
        ),
    ensures
        ({
            let (after, step) = answered(
                server,
                browser_id,
                user_id,
                BrowserRequestModel::ResolvePermission { request_id, selected_index },
                now,
            );
            let answer = DeliveryModel::Client {
                device_id: pending.device_id,
                message: ServerMessageModel::ResolvePermission { request_id, selected_index },
                required: true,
            };
            &&& string_map::lookup(after.permissions, request_id) is None
            &&& server.next_event_id < u64::MAX ==> after.next_event_id == server.next_event_id
                + 1
            &&& recorded(
                server.store.events,
                after.store.events,
                EventModel {
                    seq: server.next_event_id,
                    seq_end: None,
                    session_id: match pending.session_id {
                        Some(session_id) => session_id,
                        None => Seq::empty(),
                    },
                    timestamp: now,
                    kind: "permission_resolved"@,
                    text: Some("selected_index="@ + text::decimal(selected_index as nat)),
                    stop_reason: None,
                    request_id: Some(request_id),
                    options: None,
                },
            )
            &&& match pending.session_id {
                None => step == sent(seq![answer]) && after.store.sessions
                    == server.store.sessions,
                Some(session_id) => {
                    let stored = string_map::lookup(server.store.sessions, session_id).unwrap();
                    let running = PersistedModel {
                        summary: SummaryModel {
                            status: "running"@,
                            updated_at: now,
                            ..stored.summary
                        },
                        ..stored
                    };
                    &&& string_map::lookup(after.store.sessions, session_id) == Some(running)
                    &&& step == sent(summary_offered(server.browsers, running).push(answer))
                },
            }
        }),
{
    reveal_strlit("permission_resolved");
    reveal_strlit("output_chunk");
    assert("permission_resolved"@.len() != "output_chunk"@.len());
    string_map::law_lookup_after_erase(server.permissions, request_id, request_id);
    let sessions = match pending.session_id {
        Some(session_id) => {
            let stored = string_map::lookup(server.store.sessions, session_id).unwrap();
            let running = PersistedModel {
                summary: SummaryModel { status: "running"@, updated_at: now, ..stored.summary },
                ..stored
            };
            string_map::law_lookup_after_put(
                server.store.sessions,
                session_id,
                running,
                session_id,
            );
            law_watchers_hear_of_a_session(server.browsers, running);
            string_map::put(server.store.sessions, session_id, running)
        },
        None => server.store.sessions,
    };
    let event = browser_messages::permission_event(
        server.next_event_id,
        pending.session_id,
        now,
        request_id,
        selected_index,
    );
    let changed = StoreModel {
        sessions,
        events: server.store.events.push(event),
        ..server.store
    };
    let first = browser_messages::browser_message_step(
        server,
        browser_id,
        user_id,
        BrowserRequestModel::ResolvePermission { request_id, selected_index },
        now,
    );
    assert(first.0.store == relay_state::settled(
        changed,
        server.persistence.compaction_threshold,
    ));
    assert(changed.events.last() == event);
    law_event_is_recorded(
        server.store.events,
        changed,
        server.persistence.compaction_threshold,
        changed.events.last(),
    );
    if pending.session_id is None {
        assert(Seq::<DeliveryModel>::empty().push(
            DeliveryModel::Client {
                device_id: pending.device_id,
                message: ServerMessageModel::ResolvePermission { request_id, selected_index },
                required: true,
            },
        ) =~= seq![
            DeliveryModel::Client {
                device_id: pending.device_id,
                message: ServerMessageModel::ResolvePermission { request_id, selected_index },
                required: true,
            },
        ]);
    }
}

// ---------------------------------------------------------------------------
// Closing, deleting and adopting
// ---------------------------------------------------------------------------

/// A session that is closed is stored as closed, its requests are dropped, the
/// device that runs it is told to stop that very session, and every browser
/// whose user may see it hears of the summary and of the end.
pub proof fn law_closing_stops_the_session(
    server: ServerModel,
    browser_id: Seq<char>,
    user_id: Seq<char>,
    session_id: Seq<char>,
    now: u64,
    stored: PersistedModel,
)
    requires
        string_map::lookup(server.store.sessions, session_id) == Some(stored),
        may_see(stored.summary.owner_user_id, user_id),
        stored.summary.status != "closed"@,
    ensures
        ({
            let (after, step) = answered(
                server,
                browser_id,
                user_id,
                BrowserRequestModel::CloseSession { session_id },
                now,
            );
            let closed = PersistedModel {
                summary: SummaryModel {
                    status: "closed"@,
                    updated_at: now,
                    ..stored.summary
                },
                ..stored
            };
            let stop = match string_map::lookup(server.sessions, session_id) {
                Some(route) => if route.client_session_id is Some && server.devices.contains(
                    route.device_id,
                ) {
                    seq![
                        DeliveryModel::Client {
                            device_id: route.device_id,
                            message: ServerMessageModel::CancelSession { session_id },
                            required: false,
                        },
                    ]
                } else {
                    Seq::empty()
                },
                None => Seq::empty(),
            };
            &&& string_map::lookup(after.store.sessions, session_id) == Some(closed)
            &&& forall|i: int|
                0 <= i < after.permissions.len() ==> (#[trigger] after.permissions[i]).1.session_id
                    != Some(session_id)
            &&& forall|i: int|
                0 <= i < server.permissions.len() && (
                #[trigger] server.permissions[i]).1.session_id != Some(session_id)
                    ==> after.permissions.contains(server.permissions[i])
            &&& server.next_event_id < u64::MAX ==> after.next_event_id == server.next_event_id
                + 1
            &&& recorded(
                server.store.events,
                after.store.events,
                EventModel {
                    seq: server.next_event_id,
                    seq_end: None,
                    session_id,
                    timestamp: now,
                    kind: "session_closed"@,
                    text: None,
                    stop_reason: None,
                    request_id: None,
                    options: None,
                },
            )
            &&& step == sent(
                stop + summary_offered(server.browsers, closed) + offered_to(
                    watchers(server.browsers, stored.summary.owner_user_id),
                    BrowserReplyModel::SessionClosed { session_id },
                ),
            )
        }),
{
    reveal_strlit("session_closed");
    reveal_strlit("output_chunk");
    assert("session_closed"@.len() != "output_chunk"@.len());
    let closed = PersistedModel {
        summary: SummaryModel { status: "closed"@, updated_at: now, ..stored.summary },
        ..stored
    };
    let event = session_helpers::event(
        server.next_event_id,
        session_id,
        now,
        "session_closed"@,
        None,
    );
    let changed = StoreModel {
        sessions: string_map::put(server.store.sessions, session_id, closed),
        events: server.store.events.push(event),
        ..server.store
    };
    string_map::law_lookup_after_put(server.store.sessions, session_id, closed, session_id);
    let first = browser_messages::browser_message_step(
        server,
        browser_id,
        user_id,
        BrowserRequestModel::CloseSession { session_id },
        now,
    );
    assert(first.0.store == relay_state::settled(
        changed,
        server.persistence.compaction_threshold,
    ));
    assert(changed.events.last() == event);
    law_event_is_recorded(
        server.store.events,
        changed,
        server.persistence.compaction_threshold,
        changed.events.last(),
    );
    law_watchers_hear_of_a_session(server.browsers, closed);
    lemma_closings(server.browsers, closed, session_id);
    let kept = |entry: (Seq<char>, PendingModel)| entry.1.session_id != Some(session_id);
    lemma_kept_permissions(server.permissions, kept);
}

/// A filter keeps what passes and nothing else.
pub proof fn lemma_kept_permissions(
    permissions: Seq<(Seq<char>, PendingModel)>,
    kept: spec_fn((Seq<char>, PendingModel)) -> bool,
)
    ensures
        forall|i: int|
            0 <= i < permissions.filter(kept).len() ==> kept(
                #[trigger] permissions.filter(kept)[i],
            ),
        forall|i: int|
            0 <= i < permissions.len() && kept(#[trigger] permissions[i]) ==> permissions.filter(
                kept,
            ).contains(permissions[i]),
{
    seqs::lemma_filter_members(permissions, kept);
    assert forall|i: int| 0 <= i < permissions.filter(kept).len() implies kept(
        #[trigger] permissions.filter(kept)[i],
    ) by {
        assert(permissions.filter(kept).contains(permissions.filter(kept)[i]));
    }
    assert forall|i: int| 0 <= i < permissions.len() && kept(#[trigger] permissions[i]) implies
        permissions.filter(kept).contains(permissions[i]) by {
        assert(permissions.contains(permissions[i]));
    }
}

/// A closed session that is closed again is only confirmed, to the browser that
/// asked.
pub proof fn law_closing_again_is_confirmed(
    server: ServerModel,
    browser_id: Seq<char>,
    user_id: Seq<char>,
    session_id: Seq<char>,
    now: u64,
    stored: PersistedModel,
)
    requires
        string_map::lookup(server.store.sessions, session_id) == Some(stored),
        may_see(stored.summary.owner_user_id, user_id),
        stored.summary.status == "closed"@,
        string_map::holds(server.browsers, browser_id),
    ensures
        answered(
            server,
            browser_id,
            user_id,
            BrowserRequestModel::CloseSession { session_id },
            now,
        ) == (
            server,
            sent(
                seq![
                    DeliveryModel::Browser {
                        browser_id,
                        message: BrowserReplyModel::SessionClosed { session_id },
                        required: true,
                    },
                ],
            ),
        ),
{
    assert(Seq::<DeliveryModel>::empty().push(
        DeliveryModel::Browser {
            browser_id,
            message: BrowserReplyModel::SessionClosed { session_id },
            required: true,
        },
    ) =~= seq![
        DeliveryModel::Browser {
            browser_id,
            message: BrowserReplyModel::SessionClosed { session_id },
            required: true,
        },
    ]);
}

/// The deletion of a closed session is recorded with the session and the user,
/// and told to every browser whose user could see it. Other sessions stay.
pub proof fn law_deletion_is_told(
    server: ServerModel,
    browser_id: Seq<char>,
    user_id: Seq<char>,
    session_id: Seq<char>,
    now: u64,
    stored: PersistedModel,
    other_id: Seq<char>,
)
    requires
        string_map::distinct(server.store.sessions),
        string_map::distinct(server.sessions),
        string_map::lookup(server.store.sessions, session_id) == Some(stored),
        may_see(stored.summary.owner_user_id, user_id),
        stored.summary.status == "closed"@,
        other_id != session_id,
    ensures
        ({
            let (after, step) = answered(
                server,
                browser_id,
                user_id,
                BrowserRequestModel::DeleteSession { session_id },
                now,
            );
            &&& string_map::lookup(after.store.sessions, session_id) is None
            &&& string_map::lookup(after.sessions, session_id) is None
            &&& string_map::lookup(after.store.sessions, other_id) == string_map::lookup(
                server.store.sessions,
                other_id,
            )
            &&& string_map::lookup(after.sessions, other_id) == string_map::lookup(
                server.sessions,
                other_id,
            )
            &&& server.next_event_id < u64::MAX ==> after.next_event_id == server.next_event_id
                + 1
            &&& recorded(
                server.store.events.filter(|event: EventModel| event.session_id != session_id),
                after.store.events,
                EventModel {
                    seq: server.next_event_id,
                    seq_end: None,
                    session_id: Seq::empty(),
                    timestamp: now,
                    kind: "session_deleted"@,
                    text: Some("session_id="@ + session_id + " deleted_by="@ + user_id),
                    stop_reason: None,
                    request_id: None,
                    options: None,
                },
            )
            &&& step == sent(
                offered_to(
                    watchers(server.browsers, stored.summary.owner_user_id),
                    BrowserReplyModel::SessionRemoved { session_id: stored.summary.session_id },
                ),
            )
        }),
{
    reveal_strlit("session_deleted");
    reveal_strlit("output_chunk");
    assert("session_deleted"@.len() != "output_chunk"@.len());
    string_map::law_lookup_after_erase(server.store.sessions, session_id, session_id);
    string_map::law_lookup_after_erase(server.sessions, session_id, session_id);
    string_map::law_lookup_after_erase(server.store.sessions, session_id, other_id);
    string_map::law_lookup_after_erase(server.sessions, session_id, other_id);
    let changed = session_helpers::session_deleted(
        server.store,
        session_id,
        user_id,
        now,
        server.next_event_id,
    );
    law_event_is_recorded(
        server.store.events.filter(|event: EventModel| event.session_id != session_id),
        changed,
        server.persistence.compaction_threshold,
        changed.events.last(),
    );
    law_watchers_hear_of_a_removal(server.browsers, stored);
}

/// A browser that adopts a session of its user, and only it, has the session
/// from then on; nothing else about the session changes.
pub proof fn law_adoption_moves_the_session(
    server: ServerModel,
    browser_id: Seq<char>,
    user_id: Seq<char>,
    session_id: Seq<char>,
    now: u64,
    route: SessionModel,
    other_id: Seq<char>,
)
    requires
        string_map::lookup(server.sessions, session_id) == Some(route),
        route.owner_user_id == user_id,
        user_id.len() > 0,
        other_id != session_id,
    ensures
        ({
            let after = answered(
                server,
                browser_id,
                user_id,
                BrowserRequestModel::AdoptSession { session_id },
                now,
            ).0;
            &&& string_map::lookup(after.sessions, session_id) == Some(
                SessionModel { browser_id, ..route },
            )
            &&& string_map::lookup(after.sessions, other_id) == string_map::lookup(
                server.sessions,
                other_id,
            )
            &&& after.store == server.store
            &&& after.permissions == server.permissions
        }),
{
    let moved = SessionModel { browser_id, ..route };
    string_map::law_lookup_after_put(server.sessions, session_id, moved, session_id);
    string_map::law_lookup_after_put(server.sessions, session_id, moved, other_id);
}

/// A session that nobody owned belongs to the user who adopts it: in the routing
/// and in the store. The browsers of that user hear of it, those of all others
/// that it is gone.
pub proof fn law_adoption_is_told(
    server: ServerModel,
    browser_id: Seq<char>,
    user_id: Seq<char>,
    session_id: Seq<char>,
    now: u64,
    route: SessionModel,
    stored: PersistedModel,
)
    requires
        string_map::holds(server.browsers, browser_id),
        string_map::lookup(server.sessions, session_id) == Some(route),
        route.owner_user_id.len() == 0,
        string_map::lookup(server.store.sessions, session_id) == Some(stored),
        stored.summary.owner_user_id matches Some(owner) ==> owner.len() == 0,
        user_id.len() > 0,
    ensures
        ({
            let (after, step) = answered(
                server,
                browser_id,
                user_id,
                BrowserRequestModel::AdoptSession { session_id },
                now,
            );
            let owned = PersistedModel {
                summary: SummaryModel { owner_user_id: Some(user_id), ..stored.summary },
                ..stored
            };
            &&& string_map::lookup(after.sessions, session_id) == Some(
                SessionModel { browser_id, owner_user_id: user_id, ..route },
            )
            &&& string_map::lookup(after.store.sessions, session_id) == Some(owned)
            &&& step matches StepModel::Finished { outcome }
            &&& outcome.error is None
            &&& outcome.deliveries.len() == server.browsers.len() + 1
            &&& forall|i: int|
                0 <= i < server.browsers.len() ==> #[trigger] outcome.deliveries[i] == (
                DeliveryModel::Browser {
                    browser_id: server.browsers[i].0,
                    message: if server.browsers[i].1.user_id == user_id {
                        BrowserReplyModel::SessionUpdated { session: owned.summary }
                    } else {
                        BrowserReplyModel::SessionRemoved { session_id: stored.summary.session_id }
                    },
                    required: false,
                })
            &&& outcome.deliveries.last() matches DeliveryModel::Browser {
                browser_id: to,
                message: BrowserReplyModel::SessionList { .. },
                required: true,
            }
            &&& to == browser_id
        }),
{
    let owned = PersistedModel {
        summary: SummaryModel { owner_user_id: Some(user_id), ..stored.summary },
        ..stored
    };
    string_map::law_lookup_after_put(server.store.sessions, session_id, owned, session_id);
    string_map::law_lookup_after_put(
        server.sessions,
        session_id,
        SessionModel { browser_id, owner_user_id: user_id, ..route },
        session_id,
    );
    lemma_transition(server.browsers, stored, owned, user_id);
}

proof fn lemma_transition(
    browsers: Seq<(Seq<char>, BrowserModel)>,
    stored: PersistedModel,
    owned: PersistedModel,
    user_id: Seq<char>,
)
    requires
        stored.summary.owner_user_id matches Some(owner) ==> owner.len() == 0,
        owned.summary.owner_user_id == Some(user_id),
        owned.summary.session_id == stored.summary.session_id,
        user_id.len() > 0,
    ensures
        ({
            let deliveries = connections::delta_deliveries(browsers, Some(stored), Some(owned));
            &&& deliveries.len() == browsers.len()
            &&& forall|i: int|
                0 <= i < browsers.len() ==> #[trigger] deliveries[i] == (DeliveryModel::Browser {
                    browser_id: browsers[i].0,
                    message: if browsers[i].1.user_id == user_id {
                        BrowserReplyModel::SessionUpdated { session: owned.summary }
                    } else {
                        BrowserReplyModel::SessionRemoved { session_id: stored.summary.session_id }
                    },
                    required: false,
                })
        }),
    decreases browsers.len(),
{
    if browsers.len() > 0 {
        lemma_transition(browsers.drop_last(), stored, owned, user_id);
    }
}

// ---------------------------------------------------------------------------
// Lists and histories
// ---------------------------------------------------------------------------

/// A browser that asks for the devices gets every device of the store, as it is
/// stored.
pub proof fn law_all_devices_are_listed(
    server: ServerModel,
    browser_id: Seq<char>,
    user_id: Seq<char>,
    now: u64,
)
    requires
        string_map::holds(server.browsers, browser_id),
    ensures
        ({
            let (after, step) = answered(
                server,
                browser_id,
                user_id,
                BrowserRequestModel::ListDevices,
                now,
            );
            &&& after == server
            &&& step matches StepModel::Finished { outcome }
            &&& outcome.error is None
            &&& outcome.deliveries.len() == 1
            &&& outcome.deliveries[0] matches DeliveryModel::Browser {
                browser_id: to,
                message: BrowserReplyModel::DeviceList { devices },
                required: true,
            }
            &&& to == browser_id
            &&& devices.len() == server.store.devices.len()
            &&& forall|i: int|
                0 <= i < devices.len() ==> #[trigger] devices[i] == server.store.devices[i].1
        }),
{
}

/// A browser that asks for the sessions gets those that its user may see, as
/// they are stored, and no others.
pub proof fn law_own_sessions_are_listed(
    server: ServerModel,
    browser_id: Seq<char>,
    user_id: Seq<char>,
    now: u64,
    j: int,
)
    requires
        string_map::holds(server.browsers, browser_id),
        0 <= j < server.store.sessions.len(),
    ensures
        ({
            let (after, step) = answered(
                server,
                browser_id,
                user_id,
                BrowserRequestModel::ListSessions,
                now,
            );
            let stored = server.store.sessions[j].1;
            &&& after == server
            &&& step matches StepModel::Finished { outcome }
            &&& outcome.error is None
            &&& outcome.deliveries.len() == 1
            &&& outcome.deliveries[0] matches DeliveryModel::Browser {
                browser_id: to,
                message: BrowserReplyModel::SessionList { sessions },
                required: true,
            }
            &&& to == browser_id
            &&& may_see(stored.summary.owner_user_id, user_id) ==> sessions.contains(
                stored.summary,
            )
            &&& forall|i: int|
                0 <= i < sessions.len() ==> may_see(
                    (#[trigger] sessions[i]).owner_user_id,
                    user_id,
                )
            &&& forall|i: int, k: int|
                0 <= i <= k < sessions.len() ==> (#[trigger] sessions[i]).updated_at >= (
                #[trigger] sessions[k]).updated_at
        }),
{
    let stored = server.store.sessions[j].1;
    let list = browser_messages::visible_sessions(server.store.sessions, user_id);
    session_laws::law_session_list_is_for_the_user(server.store.sessions, user_id);
    if may_see(stored.summary.owner_user_id, user_id) {
        assert(session_helpers::visible_to(server.store.sessions[j].1, user_id));
    }
    assert forall|i: int| 0 <= i < list.len() implies may_see(
        (#[trigger] list[i]).owner_user_id,
        user_id,
    ) by {
        assert(session_laws::sums_up_a_visible_one(server.store.sessions, user_id, list[i]));
    }
}

/// A page of history holds events of the session that it names, from before the
/// number that was asked for, as many as fit: at most as many as were asked for,
/// and always those that come last.
pub proof fn law_page_holds_the_last_events(
    server: ServerModel,
    browser_id: Seq<char>,
    user_id: Seq<char>,
    session_id: Seq<char>,
    before_seq: Option<u64>,
    limit: Option<usize>,
    now: u64,
    stored: PersistedModel,
)
    requires
        string_map::holds(server.browsers, browser_id),
        string_map::lookup(server.store.sessions, session_id) == Some(stored),
        may_see(stored.summary.owner_user_id, user_id),
    ensures
        ({
            let (after, step) = answered(
                server,
                browser_id,
                user_id,
                BrowserRequestModel::GetSessionHistory { session_id, before_seq, limit },
                now,
            );
            let wanted = |event: EventModel|
                event.session_id == session_id && (before_seq matches Some(before)
                    ==> relay_state::event_max_seq(event) < before);
            let all = server.store.events.filter(wanted);
            let most = match limit {
                None => 100int,
                Some(limit) => if limit == 0 {
                    1int
                } else if limit > 500 {
                    500int
                } else {
                    limit as int
                },
            };
            &&& after == server
            &&& step matches StepModel::Finished { outcome }
            &&& outcome.error is None
            &&& outcome.deliveries.len() == 1
            &&& outcome.deliveries[0] matches DeliveryModel::Browser {
                browser_id: to,
                message: BrowserReplyModel::SessionHistory {
                    session_id: of,
                    events,
                    next_before_seq,
                    has_more,
                },
                required: true,
            }
            &&& to == browser_id
            &&& of == session_id
            &&& events.len() == if all.len() <= most {
                all.len() as int
            } else {
                most
            }
            &&& events == all.skip(all.len() - events.len())
            &&& next_before_seq == if has_more {
                Some(events[0].seq)
            } else {
                None
            }
        }),
{
    let wanted = |event: EventModel|
        event.session_id == session_id && (before_seq matches Some(before)
            ==> relay_state::event_max_seq(event) < before);
    assert(wanted =~= session_helpers::in_history(session_id, before_seq));
    let all = server.store.events.filter(wanted);
    assert(all.skip(0) =~= all);
}

// ---------------------------------------------------------------------------
// Refusals
// ---------------------------------------------------------------------------

/// Requests that name a session which the store does not have are refused for
/// that, with the id that was named.
pub proof fn law_unknown_session_is_refused(
    server: ServerModel,
    browser_id: Seq<char>,
    user_id: Seq<char>,
    message: BrowserRequestModel,
    session_id: Seq<char>,
    now: u64,
)
    requires
        string_map::lookup(server.store.sessions, session_id) is None,
        string_map::lookup(server.sessions, session_id) is None,
        match message {
            BrowserRequestModel::Prompt { session_id: named, .. } => named == session_id,
            BrowserRequestModel::CloseSession { session_id: named } => named == session_id,
            BrowserRequestModel::DeleteSession { session_id: named } => named == session_id,
            BrowserRequestModel::GetSessionHistory { session_id: named, .. } => named
                == session_id,
            BrowserRequestModel::AdoptSession { session_id: named } => named == session_id,
            _ => false,
        },
    ensures
        answered(server, browser_id, user_id, message, now) == (
            server,
            refused(RelayErrorModel::UnknownSession { session_id }),
        ),
{
}

/// A prompt is refused where the session is closed, and where another browser
/// has it; a deletion where the session is not closed; an answer where nothing
/// was asked.
pub proof fn law_untimely_requests_are_refused(
    server: ServerModel,
    browser_id: Seq<char>,
    user_id: Seq<char>,
    session_id: Seq<char>,
    prompt: Seq<char>,
    request_id: Seq<char>,
    selected_index: usize,
    now: u64,
    stored: PersistedModel,
)
    requires
        string_map::lookup(server.store.sessions, session_id) == Some(stored),
        may_see(stored.summary.owner_user_id, user_id),
    ensures
        stored.summary.status == "closed"@ ==> answered(
            server,
            browser_id,
            user_id,
            BrowserRequestModel::Prompt { session_id, text: prompt },
            now,
        ) == (server, refused(RelayErrorModel::PromptAfterClose)),
        stored.summary.status != "closed"@ && (string_map::lookup(
            server.sessions,
            session_id,
        ) matches Some(route) && may_see(Some(route.owner_user_id), user_id) && route.browser_id
            != browser_id) ==> answered(
            server,
            browser_id,
            user_id,
            BrowserRequestModel::Prompt { session_id, text: prompt },
            now,
        ) == (server, refused(RelayErrorModel::SessionOfOtherBrowser)),
        stored.summary.status != "closed"@ ==> answered(
            server,
            browser_id,
            user_id,
            BrowserRequestModel::DeleteSession { session_id },
            now,
        ) == (server, refused(RelayErrorModel::DeleteBeforeClose)),
        string_map::lookup(server.permissions, request_id) is None ==> answered(
            server,
            browser_id,
            user_id,
            BrowserRequestModel::ResolvePermission { request_id, selected_index },
            now,
        ) == (server, refused(RelayErrorModel::UnknownPermission { request_id })),
{
}

/// Where the disk could not be written, the browser hears why, and nothing is
/// sent of what was asked.
pub proof fn law_unsaved_request_is_reported(
    server: ServerModel,
    browser_id: Seq<char>,
    user_id: Seq<char>,
    message: BrowserRequestModel,
    reason: Seq<char>,
    now: u64,
)
    ensures
        ({
            let (after, step) = browser_messages::browser_message_step(
                server,
                browser_id,
                user_id,
                message,
                now,
            );
            step matches StepModel::Persist { next, .. } ==> follow_up::follow_up_step(
                after,
                next,
                Some(reason),
                now,
            ) == (after, refused(RelayErrorModel::NotSaved { message: reason }))
        }),
{
}

// ---------------------------------------------------------------------------
// What stays as it is
// ---------------------------------------------------------------------------

/// What is put under one key changes nothing under another.
pub proof fn lemma_put_elsewhere<V>(entries: Seq<(Seq<char>, V)>, key: Seq<char>, other: Seq<char>)
    requires
        key != other,
    ensures
        forall|value: V|
            string_map::lookup(#[trigger] string_map::put(entries, key, value), other)
                == string_map::lookup(entries, other),
{
    assert forall|value: V|
        string_map::lookup(#[trigger] string_map::put(entries, key, value), other)
            == string_map::lookup(entries, other) by {
        string_map::law_lookup_after_put(entries, key, value, other);
    }
}

/// The session that a message from a browser is about.
pub open spec fn subject(server: ServerModel, message: BrowserRequestModel) -> Option<Seq<char>> {
    match message {
        BrowserRequestModel::CreateSession { .. } => Some(
            "relay-session-"@ + text::decimal(server.next_session_id as nat),
        ),
        BrowserRequestModel::AdoptSession { session_id } => Some(session_id),
        BrowserRequestModel::Prompt { session_id, .. } => Some(session_id),
        BrowserRequestModel::CloseSession { session_id } => Some(session_id),
        BrowserRequestModel::DeleteSession { session_id } => Some(session_id),
        BrowserRequestModel::ResolvePermission { request_id, .. } => match string_map::lookup(
            server.permissions,
            request_id,
        ) {
            Some(pending) => pending.session_id,
            None => None,
        },
        _ => None,
    }
}

/// A message from a browser is about one session; all others stay as they are,
/// stored and routed. So do the devices, the browsers and the logins.
#[verifier::rlimit(60)]
#[verifier::spinoff_prover]
pub proof fn law_browsers_touch_one_session(
    server: ServerModel,
    browser_id: Seq<char>,
    user_id: Seq<char>,
    message: BrowserRequestModel,
    now: u64,
    other_id: Seq<char>,
)
    requires
        string_map::distinct(server.store.sessions),
        string_map::distinct(server.sessions),
        subject(server, message) != Some(other_id),
        message matches BrowserRequestModel::Prompt { session_id, .. } ==> (string_map::lookup(
            server.sessions,
            session_id,
        ) matches Some(route) ==> route.session_id == session_id),
    ensures
        ({
            let after = answered(server, browser_id, user_id, message, now).0;
            &&& string_map::lookup(after.store.sessions, other_id) == string_map::lookup(
                server.store.sessions,
                other_id,
            )
            &&& string_map::lookup(after.sessions, other_id) == string_map::lookup(
                server.sessions,
                other_id,
            )
            &&& after.store.devices == server.store.devices
            &&& after.devices == server.devices
            &&& after.browsers == server.browsers
            &&& after.login_sessions == server.login_sessions
            &&& after.client_auth == server.client_auth
            &&& after.browser_auth == server.browser_auth
            &&& after.persistence == server.persistence
        }),
{
    match subject(server, message) {
        Some(session_id) => {
            lemma_put_elsewhere(server.store.sessions, session_id, other_id);
            lemma_put_elsewhere(server.sessions, session_id, other_id);
            string_map::law_lookup_after_erase(server.store.sessions, session_id, other_id);
            string_map::law_lookup_after_erase(server.sessions, session_id, other_id);
        },
        None => {},
    }
}

/// Requests that were asked of a browser stay pending until they are answered,
/// or their session ends.
pub proof fn law_other_requests_stay_pending(
    server: ServerModel,
    browser_id: Seq<char>,
    user_id: Seq<char>,
    message: BrowserRequestModel,
    now: u64,
    other_id: Seq<char>,
)
    requires
        string_map::distinct(server.permissions),
        !(message is CloseSession),
        !(message is DeleteSession),
        message matches BrowserRequestModel::ResolvePermission { request_id, .. } ==> request_id
            != other_id,
    ensures
        string_map::lookup(
            answered(server, browser_id, user_id, message, now).0.permissions,
            other_id,
        ) == string_map::lookup(server.permissions, other_id),
{
    match message {
        BrowserRequestModel::ResolvePermission { request_id, .. } => {
            string_map::law_lookup_after_erase(server.permissions, request_id, other_id);
        },
        _ => {},
    }
}

} // verus!
