//! What is written to disk while messages are answered is what a restart finds.
use crate::protocol::{BrowserRequestModel, ClientMessageModel, DeviceModel, EventModel};
use crate::relay_server::browser_messages;
use crate::relay_server::client_messages;
use crate::relay_server::connections;
use crate::relay_server::follow_up;
use crate::relay_server::laws;
use crate::relay_server::session_helpers;
use crate::relay_server::sockets;
use crate::relay_server::state::{FollowUpModel, ServerModel, StepModel};
use crate::relay_server::state;
use crate::relay_state::StoreModel;
use crate::relay_state;
use crate::seqs;
use crate::store_laws::DiskModel;
use crate::store_laws;
use crate::string_map;
use vstd::prelude::*;

verus! {

/// A restart on this disk finds this store.
pub open spec fn stands_for(disk: DiskModel, store: StoreModel) -> bool {
    relay_state::loaded(disk.snapshot, disk.log) == store_laws::restarted(store)
}

/// The disk after a step, which writes to it or not.
pub open spec fn disk_after(disk: DiskModel, step: StepModel) -> DiskModel {
    match step {
        StepModel::Persist { write, .. } => store_laws::written(disk, write),
        StepModel::Finished { .. } => disk,
    }
}

/// The first events reach no higher than all.
pub proof fn lemma_highest_of_prefix(events: Seq<EventModel>, n: int)
    requires
        0 <= n <= events.len(),
    ensures
        relay_state::highest_seq(events.take(n)) <= relay_state::highest_seq(events),
    decreases events.len() - n,
{
    if n == events.len() {
        assert(events.take(n) == events);
    } else {
        assert(events.take(n + 1).drop_last() == events.take(n));
        lemma_highest_of_prefix(events, n + 1);
    }
}

/// What the checkpoint covers lies below the event counter.
proof fn lemma_covered_below(server: ServerModel)
    requires
        laws::counters_ahead(server),
    ensures
        relay_state::covered_through(relay_state::snapshot_of(server.store)) < server.next_event_id,
{
    lemma_highest_of_prefix(server.store.events, relay_state::boundary(server.store) as int);
}

/// A change that appends at most one event is found after a restart.
proof fn lemma_append_is_read_back(
    disk: DiskModel,
    server: ServerModel,
    server1: ServerModel,
    changed: StoreModel,
    added: Seq<EventModel>,
    next: FollowUpModel,
)
    requires
        stands_for(disk, server.store),
        laws::counters_ahead(server),
        server1.store == server.store,
        changed.events == server.store.events + added,
        changed.checkpointed_event_count == server.store.checkpointed_event_count,
        changed.checkpointed_through_seq == server.store.checkpointed_through_seq,
        forall|i: int|
            0 <= i < added.len() ==> relay_state::event_max_seq(
                #[trigger] added[i],
            ) == server.next_event_id,
    ensures
        stands_for(
            disk_after(disk, state::updated(server1, changed, next).1),
            state::updated(server1, changed, next).0.store,
        ),
{
    lemma_covered_below(server);
    store_laws::law_update_is_read_back(
        disk,
        server.store,
        changed,
        added,
        server1.persistence.compaction_threshold,
    );
}

/// One event more, as a sequence of events more.
proof fn lemma_push_is_append(events: Seq<EventModel>, event: EventModel)
    ensures
        events.push(event) == events + seq![event],
{
    assert(events.push(event) =~= events + seq![event]);
}

/// A change after which the log is written anew is found after a restart.
proof fn lemma_rewrite_is_read_back(disk: DiskModel, changed: StoreModel, prior: nat, threshold: nat)
    requires
        relay_state::live_events_of(changed).len() >= threshold,
    ensures
        stands_for(
            store_laws::written(disk, relay_state::settling_write(changed, prior, threshold)),
            relay_state::settled(changed, threshold),
        ),
{
    let done = relay_state::settled(changed, threshold);
    let disk2 = store_laws::written(disk, relay_state::settling_write(changed, prior, threshold));
    assert(done.events.take(done.events.len() as int) =~= done.events);
    assert(relay_state::live_events_of(done) =~= Seq::empty());
    let through = relay_state::covered_through(relay_state::snapshot_of(done));
    seqs::lemma_filter_none(
        Seq::<EventModel>::empty(),
        |event: EventModel| relay_state::event_max_seq(event) > through,
    );
    assert(relay_state::loaded(disk2.snapshot, disk2.log).events =~= done.events);
    assert(relay_state::loaded(disk2.snapshot, disk2.log) =~= store_laws::restarted(done));
}

/// Whether the deletion of a session reaches the disk: the session has no
/// events, or the log is written anew, or the checkpoint, which is not moved
/// back, takes in all that remains. In all other cases the log keeps what was
/// deleted and the record of the deletion is not written.
pub open spec fn deletion_reaches_disk(server: ServerModel, session_id: Seq<char>) -> bool {
    let remaining = server.store.events.filter(
        |event: EventModel| event.session_id != session_id,
    ).len();
    let covered = server.store.checkpointed_event_count;
    ||| remaining == server.store.events.len()
    ||| covered >= remaining + 1
    ||| remaining + 1 - covered >= server.persistence.compaction_threshold
}

/// The events on disk all lie below the event counter.
proof fn lemma_log_below(disk: DiskModel, server: ServerModel, i: int)
    requires
        stands_for(disk, server.store),
        laws::counters_ahead(server),
        0 <= i < disk.log.len(),
    ensures
        relay_state::event_max_seq(disk.log[i]) < server.next_event_id,
{
    let read = relay_state::loaded(disk.snapshot, disk.log);
    let through = relay_state::covered_through(disk.snapshot);
    lemma_covered_below(server);
    assert(read.checkpointed_through_seq == relay_state::covered_through(
        relay_state::snapshot_of(server.store),
    ));
    let later = |event: EventModel| relay_state::event_max_seq(event) > through;
    if later(disk.log[i]) {
        let tail = disk.log.filter(later);
        lemma_filter_holds(disk.log, later, i);
        let j = choose|j: int| 0 <= j < tail.len() && tail[j] == disk.log[i];
        let at = disk.snapshot.checkpointed_events.len() + j;
        assert(read.events[at as int] == disk.log[i]);
        assert(read.events == server.store.events);
        store_laws::law_next_event_seq_is_new(server.store.events, at as int);
    }
}

/// An item that passes a filter is among those that remain.
proof fn lemma_filter_holds<T>(items: Seq<T>, p: spec_fn(T) -> bool, i: int)
    requires
        0 <= i < items.len(),
        p(items[i]),
    ensures
        exists|j: int| 0 <= j < items.filter(p).len() && items.filter(p)[j] == items[i],
    decreases items.len(),
{
    reveal(Seq::filter);
    let rest = items.drop_last();
    if i == items.len() - 1 {
        assert(items.filter(p)[items.filter(p).len() - 1] == items[i]);
    } else {
        lemma_filter_holds(rest, p, i);
        let j = choose|j: int| 0 <= j < rest.filter(p).len() && rest.filter(p)[j] == rest[i];
        assert(items.filter(p)[j] == items[i]);
    }
}

/// A filter that keeps as many items as there are keeps them all.
proof fn lemma_filter_len<T>(items: Seq<T>, p: spec_fn(T) -> bool)
    ensures
        items.filter(p).len() <= items.len(),
        items.filter(p).len() == items.len() ==> items.filter(p) == items,
    decreases items.len(),
{
    reveal(Seq::filter);
    if items.len() > 0 {
        let rest = items.drop_last();
        lemma_filter_len(rest, p);
        assert(rest.push(items.last()) =~= items);
    } else {
        assert(items.filter(p) =~= items);
    }
}

proof fn lemma_deletion_is_read_back(
    disk: DiskModel,
    server: ServerModel,
    server1: ServerModel,
    user_id: Seq<char>,
    session_id: Seq<char>,
    now: u64,
    next: FollowUpModel,
)
    requires
        stands_for(disk, server.store),
        laws::counters_ahead(server),
        deletion_reaches_disk(server, session_id),
        server1.store == server.store,
        server1.persistence == server.persistence,
    ensures
        ({
            let changed = session_helpers::session_deleted(
                server.store,
                session_id,
                user_id,
                now,
                server.next_event_id,
            );
            stands_for(
                disk_after(disk, state::updated(server1, changed, next).1),
                state::updated(server1, changed, next).0.store,
            )
        }),
{
    let kept = |event: EventModel| event.session_id != session_id;
    let remaining = server.store.events.filter(kept);
    let changed = session_helpers::session_deleted(
        server.store,
        session_id,
        user_id,
        now,
        server.next_event_id,
    );
    let record = changed.events.last();
    let threshold = server.persistence.compaction_threshold;
    assert(changed.events =~= remaining.push(record));
    lemma_filter_len(server.store.events, kept);
    if relay_state::live_events_of(changed).len() >= threshold {
        lemma_rewrite_is_read_back(disk, changed, server.store.events.len(), threshold);
    } else if remaining.len() == server.store.events.len() {
        lemma_push_is_append(server.store.events, record);
        lemma_append_is_read_back(disk, server, server1, changed, seq![record], next);
    } else {
        let done = relay_state::settled(changed, threshold);
        let disk2 = store_laws::written(
            disk,
            relay_state::settling_write(changed, server.store.events.len(), threshold),
        );
        assert(done.events == changed.events);
        assert(done.events.take(done.events.len() as int) =~= done.events);
        assert(done.events.skip(done.events.len() as int) =~= Seq::empty());
        assert(disk2.log =~= disk.log);
        let through = relay_state::covered_through(disk2.snapshot);
        assert(changed.events.drop_last() =~= remaining);
        assert(through >= server.next_event_id);
        let later = |event: EventModel| relay_state::event_max_seq(event) > through;
        assert forall|i: int| 0 <= i < disk.log.len() implies !later(#[trigger] disk.log[i]) by {
            lemma_log_below(disk, server, i);
        }
        seqs::lemma_filter_none(disk.log, later);
        assert(relay_state::loaded(disk2.snapshot, disk2.log).events =~= done.events);
        assert(relay_state::loaded(disk2.snapshot, disk2.log) =~= store_laws::restarted(done));
    }
}

/// What a message from a browser changes is found after a restart, with the
/// exception of deletions that do not reach the disk.
pub proof fn law_browser_messages_are_read_back(
    disk: DiskModel,
    server: ServerModel,
    browser_id: Seq<char>,
    user_id: Seq<char>,
    message: BrowserRequestModel,
    now: u64,
)
    requires
        stands_for(disk, server.store),
        laws::counters_ahead(server),
        message matches BrowserRequestModel::DeleteSession { session_id }
            ==> browser_messages::delete_session_step(server, user_id, session_id, now).1 is Persist
            ==> deletion_reaches_disk(server, session_id),
    ensures
        ({
            let (after, step) = browser_messages::browser_message_step(
                server,
                browser_id,
                user_id,
                message,
                now,
            );
            stands_for(disk_after(disk, step), after.store)
        }),
{
    let (after, step) = browser_messages::browser_message_step(
        server,
        browser_id,
        user_id,
        message,
        now,
    );
    let seq = server.next_event_id;
    let events = server.store.events;
    if step is Persist {
        let next = step->next;
        match message {
            BrowserRequestModel::CreateSession { device_id, workspace_id } => {
                let session_id = store_laws::relay_session_id(server.next_session_id as nat);
                let added = session_helpers::event(
                    seq,
                    session_id,
                    now,
                    "session_requested"@,
                    None,
                );
                lemma_push_is_append(events, added);
                lemma_step_is_read_back(disk, server, after, step, seq![added]);
            },
            BrowserRequestModel::AdoptSession { session_id } => {
                assert(events + Seq::<EventModel>::empty() =~= events);
                lemma_step_is_read_back(disk, server, after, step, Seq::empty());
            },
            BrowserRequestModel::Prompt { session_id, text } => {
                let session = string_map::lookup(server.sessions, session_id).unwrap();
                let added = session_helpers::event(
                    seq,
                    session.session_id,
                    now,
                    "prompt_submitted"@,
                    Some(text),
                );
                lemma_push_is_append(events, added);
                lemma_step_is_read_back(disk, server, after, step, seq![added]);
            },
            BrowserRequestModel::ResolvePermission { request_id, selected_index } => {
                let pending = string_map::lookup(server.permissions, request_id).unwrap();
                let added = browser_messages::permission_event(
                    seq,
                    pending.session_id,
                    now,
                    request_id,
                    selected_index,
                );
                lemma_push_is_append(events, added);
                lemma_step_is_read_back(disk, server, after, step, seq![added]);
            },
            BrowserRequestModel::CloseSession { session_id } => {
                let added = session_helpers::event(seq, session_id, now, "session_closed"@, None);
                lemma_push_is_append(events, added);
                lemma_step_is_read_back(disk, server, after, step, seq![added]);
            },
            BrowserRequestModel::DeleteSession { session_id } => {
                lemma_deletion_is_read_back(
                    disk,
                    server,
                    ServerModel {
                        next_event_id: state::counted(server.next_event_id),
                        sessions: string_map::erase(server.sessions, session_id),
                        permissions: connections::without_session(server.permissions, session_id),
                        ..server
                    },
                    user_id,
                    session_id,
                    now,
                    next,
                );
            },
            _ => {},
        }
    }
}

/// Whether a step comes from a change that appends events to the store.
pub open spec fn appends(
    server: ServerModel,
    after: ServerModel,
    step: StepModel,
    added: Seq<EventModel>,
) -> bool {
    exists|changed: StoreModel|
        {
            &&& changed.events == server.store.events + added
            &&& changed.checkpointed_event_count == server.store.checkpointed_event_count
            &&& changed.checkpointed_through_seq == server.store.checkpointed_through_seq
            &&& after.store == #[trigger] relay_state::settled(
                changed,
                server.persistence.compaction_threshold,
            )
            &&& step is Persist
            &&& step->write == relay_state::settling_write(
                changed,
                server.store.events.len(),
                server.persistence.compaction_threshold,
            )
        }
}

proof fn lemma_step_is_read_back(
    disk: DiskModel,
    server: ServerModel,
    after: ServerModel,
    step: StepModel,
    added: Seq<EventModel>,
)
    requires
        stands_for(disk, server.store),
        laws::counters_ahead(server),
        appends(server, after, step, added),
        forall|i: int|
            0 <= i < added.len() ==> relay_state::event_max_seq(
                #[trigger] added[i],
            ) == server.next_event_id,
    ensures
        stands_for(disk_after(disk, step), after.store),
{
    let threshold = server.persistence.compaction_threshold;
    let changed = choose|changed: StoreModel|
        {
            &&& changed.events == server.store.events + added
            &&& changed.checkpointed_event_count == server.store.checkpointed_event_count
            &&& changed.checkpointed_through_seq == server.store.checkpointed_through_seq
            &&& after.store == #[trigger] relay_state::settled(changed, threshold)
            &&& step is Persist
            &&& step->write == relay_state::settling_write(
                changed,
                server.store.events.len(),
                threshold,
            )
        };
    lemma_append_is_read_back(disk, server, server, changed, added, step->next);
}

/// What a message from a home client changes is found after a restart.
pub proof fn law_client_messages_are_read_back(
    disk: DiskModel,
    server: ServerModel,
    device_id: Seq<char>,
    message: ClientMessageModel,
    now: u64,
)
    requires
        stands_for(disk, server.store),
        laws::counters_ahead(server),
    ensures
        ({
            let (after, step) = client_messages::client_message_step(
                server,
                device_id,
                message,
                now,
            );
            stands_for(disk_after(disk, step), after.store)
        }),
{
    let (after, step) = client_messages::client_message_step(server, device_id, message, now);
    let seq = server.next_event_id;
    let events = server.store.events;
    if step is Persist {
        let added = match message {
            ClientMessageModel::SessionCreated {
                session_id,
                client_session_id,
                workspace_id,
                workspace_name,
            } => session_helpers::event(
                seq,
                session_id,
                now,
                "session_created"@,
                Some(workspace_name + " ("@ + workspace_id + ")"@),
            ),
            ClientMessageModel::SessionResumed { session_id, client_session_id } => session_helpers::event(
                seq,
                session_id,
                now,
                "session_resumed"@,
                Some(client_session_id),
            ),
            ClientMessageModel::SessionResumeFailed { session_id, message, .. } => session_helpers::event(
                seq,
                session_id,
                now,
                "session_resume_failed"@,
                Some(message),
            ),
            ClientMessageModel::OutputChunk { session_id, text } => session_helpers::event(
                seq,
                session_helpers::resolved_alias(server.sessions, device_id, session_id).unwrap(),
                now,
                "output_chunk"@,
                Some(text),
            ),
            ClientMessageModel::PromptFinished { session_id, stop_reason } => EventModel {
                stop_reason: Some(stop_reason),
                ..session_helpers::event(
                    seq,
                    session_helpers::resolved_alias(
                        server.sessions,
                        device_id,
                        session_id,
                    ).unwrap(),
                    now,
                    "prompt_finished"@,
                    None,
                )
            },
            ClientMessageModel::PermissionRequested { request_id, session_id, options } =>
                EventModel {
                    request_id: Some(request_id),
                    options: Some(options),
                    ..session_helpers::event(
                        seq,
                        client_messages::asked_session(
                            server.sessions,
                            device_id,
                            session_id.unwrap(),
                        ),
                        now,
                        "permission_requested"@,
                        None,
                    )
                },
            _ => arbitrary(),
        };
        lemma_push_is_append(events, added);
        lemma_step_is_read_back(disk, server, after, step, seq![added]);
    }
}

/// What follows once the store is written, and is written itself, is found
/// after a restart.
pub proof fn law_follow_ups_are_read_back(
    disk: DiskModel,
    server: ServerModel,
    next: FollowUpModel,
    failure: Option<Seq<char>>,
    now: u64,
)
    requires
        stands_for(disk, server.store),
        laws::counters_ahead(server),
    ensures
        ({
            let (after, step) = follow_up::follow_up_step(server, next, failure, now);
            stands_for(disk_after(disk, step), after.store)
        }),
{
    let (after, step) = follow_up::follow_up_step(server, next, failure, now);
    match next {
        FollowUpModel::DeviceDisconnected { device } => {
            let added = session_helpers::event(
                server.next_event_id,
                Seq::empty(),
                now,
                "device_disconnected"@,
                Some(device.device_id),
            );
            lemma_push_is_append(server.store.events, added);
            lemma_step_is_read_back(disk, server, after, step, seq![added]);
        },
        _ => {},
    }
}

/// Devices that come and go are found after a restart.
pub proof fn law_devices_are_read_back(disk: DiskModel, server: ServerModel, device: DeviceModel)
    requires
        stands_for(disk, server.store),
        laws::counters_ahead(server),
    ensures
        ({
            let (after, step) = sockets::connect_device_step(server, device);
            stands_for(disk_after(disk, step), after.store)
        }),
        ({
            let (after, step) = sockets::disconnect_device_step(server, device);
            stands_for(disk_after(disk, step), after.store)
        }),
{
    assert(server.store.events + Seq::<EventModel>::empty() =~= server.store.events);
    let (after, step) = sockets::connect_device_step(server, device);
    lemma_step_is_read_back(disk, server, after, step, Seq::empty());
    let (after, step) = sockets::disconnect_device_step(server, device);
    lemma_step_is_read_back(disk, server, after, step, Seq::empty());
}

} // verus!
