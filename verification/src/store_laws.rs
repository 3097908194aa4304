//! What holds of the store across compaction, writing and reading back.
use crate::protocol::{EventModel, SessionEventMessage};
use crate::relay_state::{
    LogSegment, LogSource, RelayPersistence, RelaySnapshot, RelayStore, SnapshotModel, StoreModel,
    StoreWriteModel,
};
use crate::relay_state;
use crate::seqs;
use crate::string_map;
use crate::text;
use crate::text_laws;
use vstd::prelude::*;

verus! {

// ---------------------------------------------------------------------------
// Compaction
// ---------------------------------------------------------------------------

/// All the output of a session, in order.
pub open spec fn output_text(events: Seq<EventModel>, session_id: Seq<char>) -> Seq<char>
    decreases events.len(),
{
    if events.len() == 0 {
        Seq::empty()
    } else {
        let event = events.last();
        output_text(events.drop_last(), session_id) + if relay_state::is_output(
            event,
        ) && event.session_id
            == session_id {
            relay_state::text_or_empty(event.text)
        } else {
            Seq::empty()
        }
    }
}

/// Compaction loses no output: the texts of a session's output events come to
/// the same text before and after.
pub proof fn law_compaction_keeps_output(events: Seq<EventModel>, session_id: Seq<char>)
    ensures
        output_text(relay_state::compact(events), session_id) == output_text(events, session_id),
    decreases events.len(),
{
    if events.len() > 0 {
        law_compaction_keeps_output(events.drop_last(), session_id);
        let done = relay_state::compact(events.drop_last());
        let event = events.last();
        if done.len() > 0 && relay_state::continues(done.last(), event) {
            let after = done.drop_last().push(relay_state::joined(done.last(), event));
            assert(after.drop_last() =~= done.drop_last());
            assert(output_text(after, session_id) =~= output_text(events, session_id));
        } else {
            assert(done.push(event).drop_last() =~= done);
        }
    }
}

/// Compaction leaves every event alone that is not output.
pub proof fn law_compaction_keeps_other_events(events: Seq<EventModel>)
    ensures
        relay_state::compact(events).filter(
            |event: EventModel| !relay_state::is_output(event),
        ) == events.filter(
            |event: EventModel| !relay_state::is_output(event),
        ),
    decreases events.len(),
{
    reveal(Seq::filter);
    let other = |event: EventModel| !relay_state::is_output(event);
    if events.len() > 0 {
        law_compaction_keeps_other_events(events.drop_last());
        let done = relay_state::compact(events.drop_last());
        let event = events.last();
        if done.len() > 0 && relay_state::continues(done.last(), event) {
            let after = done.drop_last().push(relay_state::joined(done.last(), event));
            assert(after.drop_last() =~= done.drop_last());
        } else {
            assert(done.push(event).drop_last() =~= done);
        }
    }
}

/// Compaction covers the same sequence numbers.
pub proof fn law_compaction_keeps_highest_seq(events: Seq<EventModel>)
    ensures
        relay_state::highest_seq(relay_state::compact(events)) == relay_state::highest_seq(events),
    decreases events.len(),
{
    if events.len() > 0 {
        law_compaction_keeps_highest_seq(events.drop_last());
        let done = relay_state::compact(events.drop_last());
        let event = events.last();
        if done.len() > 0 && relay_state::continues(done.last(), event) {
            let after = done.drop_last().push(relay_state::joined(done.last(), event));
            assert(after.drop_last() =~= done.drop_last());
        } else {
            assert(done.push(event).drop_last() =~= done);
        }
    }
}

/// After compaction no event continues the one before it, there are no more
/// events than before, and there are none only where there were none.
pub proof fn law_compaction_leaves_no_runs(events: Seq<EventModel>)
    ensures
        forall|i: int|
            0 < i < relay_state::compact(events).len() ==> !relay_state::continues(
                relay_state::compact(events)[i - 1],
                #[trigger] relay_state::compact(events)[i],
            ),
        relay_state::compact(events).len() <= events.len(),
        events.len() > 0 ==> relay_state::compact(events).len() > 0,
    decreases events.len(),
{
    if events.len() > 0 {
        law_compaction_leaves_no_runs(events.drop_last());
        let done = relay_state::compact(events.drop_last());
        let event = events.last();
        let after = relay_state::compact(events);
        assert forall|i: int| 0 < i < after.len() implies !relay_state::continues(
            after[i - 1],
            #[trigger] after[i],
        ) by {
            if i < done.len() {
                assert(!relay_state::continues(done[i - 1], done[i]));
            }
        }
    }
}

/// Compacting twice is compacting once.
pub proof fn law_compaction_is_idempotent(events: Seq<EventModel>)
    ensures
        relay_state::compact(relay_state::compact(events)) == relay_state::compact(events),
{
    law_compaction_leaves_no_runs(events);
    lemma_compact_without_runs(relay_state::compact(events));
}

proof fn lemma_compact_without_runs(events: Seq<EventModel>)
    requires
        forall|i: int| 0 < i < events.len() ==> !relay_state::continues(
            events[i - 1],
            #[trigger] events[i],
        ),
    ensures
        relay_state::compact(events) == events,
    decreases events.len(),
{
    if events.len() > 0 {
        let rest = events.drop_last();
        assert forall|i: int| 0 < i < rest.len() implies !relay_state::continues(
            rest[i - 1],
            #[trigger] rest[i],
        ) by {
            assert(rest[i] == events[i]);
        }
        lemma_compact_without_runs(rest);
        if rest.len() > 0 {
            assert(!relay_state::continues(events[events.len() - 2], events[events.len() - 1]));
        }
        assert(rest.push(events.last()) =~= events);
    }
}

// ---------------------------------------------------------------------------
// Fresh numbers
// ---------------------------------------------------------------------------

/// Every event lies below the next sequence number.
pub proof fn law_next_event_seq_is_new(events: Seq<EventModel>, i: int)
    requires
        0 <= i < events.len(),
    ensures
        relay_state::event_max_seq(events[i]) < relay_state::highest_seq(events) + 1,
    decreases events.len(),
{
    if i < events.len() - 1 {
        law_next_event_seq_is_new(events.drop_last(), i);
        assert(events.drop_last()[i] == events[i]);
    }
}

/// The id of the session with a number.
pub open spec fn relay_session_id(number: nat) -> Seq<char> {
    "relay-session-"@ + text::decimal(number)
}

/// The number of a session is read back from its id.
pub proof fn law_session_number_is_read_back(number: nat)
    requires
        number <= u64::MAX,
    ensures
        relay_state::session_number(relay_session_id(number)) == Some(number),
{
    reveal_strlit("relay-session-");
    text::law_decimal_is_read_back(number, u64::MAX as nat);
    lemma_decimal_has_no_hyphen(number);
    let prefix = "relay-session-"@;
    assert(prefix.last() == '-');
    lemma_after_last(prefix, text::decimal(number));
}

proof fn lemma_decimal_has_no_hyphen(n: nat)
    ensures
        forall|i: int| 0 <= i < text::decimal(n).len() ==> (#[trigger] text::decimal(n)[i]) != '-',
    decreases n,
{
    assert('-' as nat == 45);
    if n >= 10 {
        lemma_decimal_has_no_hyphen(n / 10);
        assert forall|i: int| 0 <= i < text::decimal(
            n,
        ).len() implies (#[trigger] text::decimal(n)[i])
            != '-' by {
            if i < text::decimal(n).len() - 1 {
                assert(text::decimal(n)[i] == text::decimal(n / 10)[i]);
            }
        }
    }
}

proof fn lemma_after_last(prefix: Seq<char>, tail: Seq<char>)
    requires
        prefix.len() > 0,
        prefix.last() == '-',
        forall|i: int| 0 <= i < tail.len() ==> (#[trigger] tail[i]) != '-',
    ensures
        text::after_last(prefix + tail, '-') == tail,
    decreases tail.len(),
{
    let whole = prefix + tail;
    if tail.len() == 0 {
        assert(whole =~= prefix);
        assert(tail =~= Seq::empty());
    } else {
        let shorter = tail.drop_last();
        assert forall|i: int| 0 <= i < shorter.len() implies (#[trigger] shorter[i]) != '-' by {
            assert(shorter[i] == tail[i]);
        }
        lemma_after_last(prefix, shorter);
        assert(whole.drop_last() =~= prefix + shorter);
        assert(tail[tail.len() - 1] != '-');
        assert(shorter.push(tail.last()) =~= tail);
    }
}

/// A session id with a number above all others is not in use.
pub proof fn law_session_id_is_new<V>(sessions: Seq<(Seq<char>, V)>, number: nat)
    requires
        relay_state::highest_session_number(sessions) < number <= u64::MAX,
    ensures
        !string_map::holds(sessions, relay_session_id(number)),
{
    law_session_number_is_read_back(number);
    string_map::lemma_holds(sessions, relay_session_id(number));
    if string_map::holds(sessions, relay_session_id(number)) {
        let i = choose|i: int|
            0 <= i < sessions.len() && (#[trigger] sessions[i]).0 == relay_session_id(number);
        lemma_highest_session_number(sessions, i);
    }
}

proof fn lemma_highest_session_number<V>(sessions: Seq<(Seq<char>, V)>, i: int)
    requires
        0 <= i < sessions.len(),
        relay_state::session_number(sessions[i].0) is Some,
    ensures
        relay_state::session_number(sessions[i].0).unwrap() <= relay_state::highest_session_number(
            sessions,
        ),
    decreases sessions.len(),
{
    if i < sessions.len() - 1 {
        lemma_highest_session_number(sessions.drop_last(), i);
        assert(sessions.drop_last()[i] == sessions[i]);
    }
}

// ---------------------------------------------------------------------------
// Writing and reading back
// ---------------------------------------------------------------------------

/// The checkpoint divides the events: what the snapshot holds, followed by the
/// live events, is the whole history.
pub proof fn law_checkpoint_divides_the_events(store: StoreModel)
    ensures
        relay_state::snapshot_of(store).checkpointed_events + relay_state::live_events_of(
            store,
        ) == store.events,
{
    assert(relay_state::snapshot_of(
        store,
    ).checkpointed_events + relay_state::live_events_of(store) =~= store.events);
}

/// What is on disk: the snapshot and the events of the log.
#[verifier::ext_equal]
pub struct DiskModel {
    pub snapshot: SnapshotModel,
    pub log: Seq<EventModel>,
}

/// The disk after a write.
pub open spec fn written(disk: DiskModel, write: StoreWriteModel) -> DiskModel {
    match write {
        StoreWriteModel::Append { events, snapshot } => DiskModel {
            snapshot,
            log: disk.log + events,
        },
        StoreWriteModel::Rewrite { snapshot, events } => DiskModel { snapshot, log: events },
    }
}

/// The store as it is after a restart: no device is connected, and the
/// checkpoint reaches as far as the events it covers.
pub open spec fn restarted(store: StoreModel) -> StoreModel {
    StoreModel {
        devices: relay_state::disconnected_devices(store.devices),
        checkpointed_event_count: relay_state::boundary(store),
        checkpointed_through_seq: relay_state::covered_through(relay_state::snapshot_of(store)),
        ..store
    }
}

/// An empty disk stands for the empty store.
pub proof fn law_empty_disk_is_the_empty_store()
    ensures
        relay_state::loaded(relay_state::empty_snapshot(), Seq::empty()) == restarted(
            relay_state::empty_store(),
        ),
{
    let through = relay_state::covered_through(relay_state::empty_snapshot());
    seqs::lemma_filter_none(
        Seq::<EventModel>::empty(),
        |event: EventModel| relay_state::event_max_seq(event) > through,
    );
    assert(relay_state::empty_store().events.take(0) =~= Seq::empty());
    assert(relay_state::loaded(relay_state::empty_snapshot(), Seq::empty()) =~= restarted(
        relay_state::empty_store(),
    ));
}

/// Where the disk stands for a store, and a change to the store adds events
/// that come after all that the checkpoint covers, the write that follows lets
/// the disk stand for the changed store.
pub proof fn law_update_is_read_back(
    disk: DiskModel,
    before: StoreModel,
    after: StoreModel,
    added: Seq<EventModel>,
    threshold: nat,
)
    requires
        relay_state::loaded(disk.snapshot, disk.log) == restarted(before),
        after.events == before.events + added,
        after.checkpointed_event_count == before.checkpointed_event_count,
        after.checkpointed_through_seq == before.checkpointed_through_seq,
        before.checkpointed_event_count <= before.events.len(),
        forall|i: int|
            0 <= i < added.len() ==> relay_state::event_max_seq(
                #[trigger] added[i],
            ) > relay_state::covered_through(
                relay_state::snapshot_of(before),
            ),
    ensures
        ({
            let disk2 = written(
                disk,
                relay_state::settling_write(after, before.events.len(), threshold),
            );
            relay_state::loaded(disk2.snapshot, disk2.log) == restarted(
                relay_state::settled(after, threshold),
            )
        }),
{
    let write = relay_state::settling_write(after, before.events.len(), threshold);
    let disk2 = written(disk, write);
    let done = relay_state::settled(after, threshold);
    let count = before.checkpointed_event_count as int;
    let through = relay_state::covered_through(relay_state::snapshot_of(before));
    let later = |event: EventModel| relay_state::event_max_seq(event) > through;
    assert(after.events.take(count) =~= before.events.take(count));
    assert(relay_state::covered_through(relay_state::snapshot_of(after)) == through);
    if relay_state::live_events_of(after).len() >= threshold {
        law_compaction_leaves_no_runs(after.events);
        assert(done.events.take(done.events.len() as int) =~= done.events);
        assert(relay_state::live_events_of(done) =~= Seq::empty());
        let done_through = relay_state::covered_through(relay_state::snapshot_of(done));
        seqs::lemma_filter_none(
            Seq::<EventModel>::empty(),
            |event: EventModel| relay_state::event_max_seq(event) > done_through,
        );
        assert(relay_state::loaded(disk2.snapshot, disk2.log).events =~= done.events);
        assert(relay_state::loaded(disk2.snapshot, disk2.log) =~= restarted(done));
    } else {
        assert(done.events == after.events);
        assert(after.events.skip(before.events.len() as int) =~= added);
        assert(disk2.log == disk.log + added);
        // What the log held after the checkpoint was the live tail.
        let read = relay_state::loaded(disk.snapshot, disk.log);
        assert(disk.snapshot.checkpointed_events.len() == count);
        assert(relay_state::covered_through(disk.snapshot) == through);
        let tail = disk.log.filter(later);
        assert(read.events == disk.snapshot.checkpointed_events + tail);
        assert(tail =~= read.events.skip(count));
        assert(read.events == before.events);
        seqs::lemma_filter_concat(disk.log, added, later);
        seqs::lemma_filter_all(added, later);
        assert(disk2.log.filter(later) == tail + added);
        assert(disk2.snapshot.checkpointed_events =~= before.events.take(count));
        assert(relay_state::loaded(disk2.snapshot, disk2.log).events =~= after.events);
        assert(relay_state::loaded(disk2.snapshot, disk2.log) =~= restarted(done));
    }
}

/// The events of segments, read one segment after the other.
pub open spec fn read_segments(segments: Seq<LogSegment>) -> Seq<EventModel>
    decreases segments.len(),
{
    if segments.len() == 0 {
        Seq::empty()
    } else {
        read_segments(segments.drop_last()) + segments.last().events.deep_view()
    }
}

pub open spec fn ascending(events: Seq<EventModel>) -> bool {
    forall|i: int, j: int|
        0 <= i <= j < events.len() ==> (#[trigger] events[i]).seq <= (#[trigger] events[j]).seq
}

/// Events in ascending order that were divided among segments are read back in
/// their order.
pub proof fn law_segments_give_back_the_log(
    segments: Seq<LogSegment>,
    events: Seq<EventModel>,
    limit: nat,
)
    requires
        limit > 0,
        relay_state::are_segments_of(segments, events, limit),
        ascending(events),
    ensures
        read_segments(segments) == events,
{
    lemma_read_segments(segments, events, limit, segments.len() as int);
    assert(segments.take(segments.len() as int) == segments);
    let all = |event: EventModel|
        exists|i: int|
            0 <= i < segments.len() && (#[trigger] segments[i]).start as nat == relay_state::segment_start(
                limit,
                event.seq,
            );
    assert forall|k: int| 0 <= k < events.len() implies all(#[trigger] events[k]) by {
        assert(exists|i: int|
            0 <= i < segments.len() && (#[trigger] segments[i]).start as nat == relay_state::segment_start(
                limit,
                events[k].seq,
            ));
    }
    seqs::lemma_filter_all(events, all);
    let same = |event: EventModel|
        exists|i: int|
            0 <= i < segments.len() && (#[trigger] segments[i]).start as nat == relay_state::segment_start(
                limit,
                event.seq,
            );
    assert(in_first(segments, limit, segments.len() as int) =~= all);
}

pub open spec fn in_first(segments: Seq<LogSegment>, limit: nat, n: int) -> spec_fn(
    EventModel,
) -> bool {
    |event: EventModel|
        exists|i: int|
            0 <= i < n && (#[trigger] segments[i]).start as nat == relay_state::segment_start(
                limit,
                event.seq,
            )
}

proof fn lemma_segment_start_grows(limit: nat, a: u64, b: u64)
    requires
        limit > 0,
        a <= b,
    ensures
        relay_state::segment_start(limit, a) <= relay_state::segment_start(limit, b),
{
    let x = if a == 0 {
        0nat
    } else {
        (a - 1) as nat
    };
    let y = if b == 0 {
        0nat
    } else {
        (b - 1) as nat
    };
    assert(x / limit * limit <= y / limit * limit) by (nonlinear_arith)
        requires
            x <= y,
            limit > 0,
    ;
}

proof fn lemma_read_segments(
    segments: Seq<LogSegment>,
    events: Seq<EventModel>,
    limit: nat,
    n: int,
)
    requires
        limit > 0,
        0 <= n <= segments.len(),
        relay_state::are_segments_of(segments, events, limit),
        ascending(events),
    ensures
        read_segments(segments.take(n)) == events.filter(in_first(segments, limit, n)),
    decreases n,
{
    if n == 0 {
        seqs::lemma_filter_none(events, in_first(segments, limit, 0));
    } else {
        lemma_read_segments(segments, events, limit, n - 1);
        assert(segments.take(n).drop_last() =~= segments.take(n - 1));
        let start = segments[n - 1].start as nat;
        assert(segments.take(n).last().events.deep_view() == events.filter(
            relay_state::belongs_to(limit, start),
        ));
        assert forall|event: EventModel| true implies #[trigger] in_first(segments, limit, n)(event)
            == (in_first(segments, limit, n - 1)(event) || relay_state::belongs_to(
                limit,
                start,
            )(event)) by {
            if in_first(segments, limit, n - 1)(event) {
                let i = choose|i: int|
                    0 <= i < n - 1 && (#[trigger] segments[i]).start as nat == relay_state::segment_start(
                        limit,
                        event.seq,
                    );
                assert(segments[i].start as nat == relay_state::segment_start(limit, event.seq));
            }
            if relay_state::belongs_to(limit, start)(event) {
                assert(segments[n - 1].start as nat == relay_state::segment_start(
                    limit,
                    event.seq,
                ));
            }
        }
        lemma_filter_divides(segments, events, limit, n);
    }
}

proof fn lemma_filter_divides(
    segments: Seq<LogSegment>,
    events: Seq<EventModel>,
    limit: nat,
    n: int,
)
    requires
        limit > 0,
        0 < n <= segments.len(),
        ascending(events),
        forall|i: int, j: int|
            0 <= i < j < segments.len() ==> (#[trigger] segments[i]).start < (
            #[trigger] segments[j]).start,
        forall|event: EventModel|
            #[trigger] in_first(segments, limit, n)(event) == (in_first(segments, limit, n - 1)(
                event,
            ) || relay_state::belongs_to(limit, segments[n - 1].start as nat)(event)),
    ensures
        events.filter(in_first(segments, limit, n)) == events.filter(
            in_first(segments, limit, n - 1),
        ) + events.filter(relay_state::belongs_to(limit, segments[n - 1].start as nat)),
    decreases events.len(),
{
    let whole = in_first(segments, limit, n);
    let first = in_first(segments, limit, n - 1);
    let last = relay_state::belongs_to(limit, segments[n - 1].start as nat);
    reveal(Seq::filter);
    if events.len() == 0 {
        assert(events.filter(whole) =~= events.filter(first) + events.filter(last));
    } else {
        let rest = events.drop_last();
        assert(ascending(rest)) by {
            assert forall|i: int, j: int| 0 <= i <= j < rest.len() implies (#[trigger] rest[i]).seq
                <= (#[trigger] rest[j]).seq by {
                assert(rest[i] == events[i] && rest[j] == events[j]);
            }
        }
        lemma_filter_divides(segments, rest, limit, n);
        let event = events.last();
        assert(whole(event) == (first(event) || last(event)));
        if first(event) {
            // No event of the last segment can stand before one of an earlier segment.
            let i = choose|i: int|
                0 <= i < n - 1 && (#[trigger] segments[i]).start as nat == relay_state::segment_start(
                    limit,
                    event.seq,
                );
            assert(segments[i].start < segments[n - 1].start);
            assert forall|j: int| 0 <= j < rest.len() implies !last(#[trigger] rest[j]) by {
                assert(events[j].seq <= events[events.len() - 1].seq);
                lemma_segment_start_grows(limit, events[j].seq, event.seq);
            }
            seqs::lemma_filter_none(rest, last);
            assert(!last(event));
            assert(events.filter(whole) =~= events.filter(first) + events.filter(last));
        } else {
            assert(events.filter(whole) =~= events.filter(first) + events.filter(last));
        }
    }
}

// ---------------------------------------------------------------------------
// Loading
// ---------------------------------------------------------------------------

/// Loading keeps every device with its id, its name and its workspaces, each in
/// its place; only none of them counts as connected.
pub proof fn law_loading_keeps_the_devices(snapshot: SnapshotModel, log: Seq<EventModel>)
    ensures
        ({
            let devices = relay_state::loaded(snapshot, log).devices;
            &&& devices.len() == snapshot.devices.len()
            &&& forall|i: int|
                0 <= i < snapshot.devices.len() ==> {
                    &&& (#[trigger] devices[i]).0 == snapshot.devices[i].0
                    &&& devices[i].1.device_id == snapshot.devices[i].1.device_id
                    &&& devices[i].1.device_name == snapshot.devices[i].1.device_name
                    &&& devices[i].1.workspaces == snapshot.devices[i].1.workspaces
                    &&& !devices[i].1.connected
                }
        }),
{
}

/// Loading keeps every session as it was stored.
pub proof fn law_loading_keeps_the_sessions(snapshot: SnapshotModel, log: Seq<EventModel>)
    ensures
        relay_state::loaded(snapshot, log).sessions == snapshot.sessions,
{
}

/// Loading keeps the events of the snapshot, in front, and those events of the
/// log that end after all of these; nothing else comes in.
pub proof fn law_loading_keeps_the_history(
    snapshot: SnapshotModel,
    log: Seq<EventModel>,
    event: EventModel,
)
    ensures
        ({
            let store = relay_state::loaded(snapshot, log);
            let covered = snapshot.checkpointed_events.len() as int;
            let last = match event.seq_end {
                Some(seq_end) => seq_end,
                None => event.seq,
            };
            &&& covered <= store.events.len()
            &&& store.events.take(covered) == snapshot.checkpointed_events
            &&& store.checkpointed_event_count == covered
            &&& store.checkpointed_through_seq >= snapshot.checkpointed_through_seq
            &&& snapshot.checkpointed_events.contains(event) ==> last
                <= store.checkpointed_through_seq
            &&& store.events.skip(covered).contains(event) <==> log.contains(event) && last
                > store.checkpointed_through_seq
        }),
{
    let store = relay_state::loaded(snapshot, log);
    let covered = snapshot.checkpointed_events.len() as int;
    let through = relay_state::covered_through(snapshot);
    let later = |event: EventModel| relay_state::event_max_seq(event) > through;
    seqs::lemma_filter_members(log, later);
    assert(store.events.take(covered) =~= snapshot.checkpointed_events);
    assert(store.events.skip(covered) =~= log.filter(later));
    if snapshot.checkpointed_events.contains(event) {
        let i = choose|i: int|
            0 <= i < snapshot.checkpointed_events.len() && snapshot.checkpointed_events[i]
                == event;
        law_next_event_seq_is_new(snapshot.checkpointed_events, i);
    }
}

/// Where nothing was numbered beyond the snapshot's own mark and its events, the
/// loaded checkpoint reaches no further than these.
pub proof fn law_loading_covers_no_more(snapshot: SnapshotModel, log: Seq<EventModel>, bound: u64)
    requires
        snapshot.checkpointed_through_seq <= bound,
        forall|i: int|
            0 <= i < snapshot.checkpointed_events.len() ==> (match (
            #[trigger] snapshot.checkpointed_events[i]).seq_end {
                Some(seq_end) => seq_end,
                None => snapshot.checkpointed_events[i].seq,
            }) <= bound,
    ensures
        relay_state::loaded(snapshot, log).checkpointed_through_seq <= bound,
{
    law_highest_seq_is_reached(snapshot.checkpointed_events, bound);
}

/// The highest number among events is no higher than any bound of them all.
pub proof fn law_highest_seq_is_reached(events: Seq<EventModel>, bound: u64)
    requires
        forall|i: int|
            0 <= i < events.len() ==> (match (#[trigger] events[i]).seq_end {
                Some(seq_end) => seq_end,
                None => events[i].seq,
            }) <= bound,
    ensures
        relay_state::highest_seq(events) <= bound,
    decreases events.len(),
{
    if events.len() > 0 {
        let rest = events.drop_last();
        assert forall|i: int| 0 <= i < rest.len() implies (match (#[trigger] rest[i]).seq_end {
            Some(seq_end) => seq_end,
            None => rest[i].seq,
        }) <= bound by {
            assert(rest[i] == events[i]);
        }
        law_highest_seq_is_reached(rest, bound);
        assert(events[events.len() - 1] == events.last());
    }
}

/// A snapshot has the devices and the sessions of the store, all of them, and
/// as many of its first events as the checkpoint counts.
pub proof fn law_snapshot_holds_the_store(store: StoreModel)
    ensures
        ({
            let snapshot = relay_state::snapshot_of(store);
            &&& snapshot.devices == store.devices
            &&& snapshot.sessions == store.sessions
            &&& snapshot.checkpointed_through_seq == store.checkpointed_through_seq
            &&& store.checkpointed_event_count <= store.events.len()
                ==> snapshot.checkpointed_events.len() == store.checkpointed_event_count
            &&& store.checkpointed_event_count > store.events.len()
                ==> snapshot.checkpointed_events.len() == store.events.len()
            &&& forall|i: int|
                0 <= i < snapshot.checkpointed_events.len()
                    ==> #[trigger] snapshot.checkpointed_events[i] == store.events[i]
        }),
{
}

/// A finished change keeps the devices and the sessions as they were changed,
/// and the checkpoint covers no event that is not there.
pub proof fn law_settling_keeps_the_sessions(store: StoreModel, threshold: nat)
    ensures
        ({
            let after = relay_state::settled(store, threshold);
            &&& after.devices == store.devices
            &&& after.sessions == store.sessions
            &&& after.checkpointed_event_count <= after.events.len()
            &&& store.checkpointed_event_count + threshold > store.events.len()
                && store.checkpointed_event_count <= store.events.len() ==> after == store
            &&& store.checkpointed_event_count + threshold <= store.events.len() ==> {
                &&& after.checkpointed_event_count == after.events.len()
                &&& relay_state::live_events_of(after).len() == 0
                &&& after.events.len() > 0 ==> after.checkpointed_through_seq
                    == relay_state::highest_seq(store.events)
                &&& after.events.len() == 0 ==> after.checkpointed_through_seq
                    == store.checkpointed_through_seq
                &&& forall|i: int|
                    0 < i < after.events.len() ==> !relay_state::continues(
                        after.events[i - 1],
                        #[trigger] after.events[i],
                    )
            }
        }),
{
    law_compaction_keeps_highest_seq(store.events);
    law_compaction_leaves_no_runs(store.events);
}

/// Output that follows output of the same session is joined to it: the event
/// begins where it began, ends where the new output ends, was changed when that
/// came, and says the one text after the other.
pub proof fn law_output_is_joined(events: Seq<EventModel>, event: EventModel)
    requires
        events.len() > 0,
        events.last().kind == "output_chunk"@,
        event.kind == "output_chunk"@,
        events.last().session_id == event.session_id,
    ensures
        ({
            let before = relay_state::compact(events);
            let after = relay_state::compact(events.push(event));
            let first = before.last();
            let last = after.last();
            let first_end = match first.seq_end {
                Some(seq_end) => seq_end,
                None => first.seq,
            };
            let event_end = match event.seq_end {
                Some(seq_end) => seq_end,
                None => event.seq,
            };
            &&& before.len() > 0
            &&& after.len() == before.len()
            &&& after.drop_last() == before.drop_last()
            &&& last.kind == "output_chunk"@
            &&& last.session_id == event.session_id
            &&& last.timestamp == event.timestamp
            &&& last.seq == first.seq
            &&& last.seq_end matches Some(end)
            &&& end >= first_end && end >= event_end
            &&& end == first_end || end == event_end
            &&& last.text == Some(
                (match first.text {
                    Some(text) => text,
                    None => Seq::empty(),
                }) + (match event.text {
                    Some(text) => text,
                    None => Seq::empty(),
                }),
            )
            &&& last.stop_reason == first.stop_reason
            &&& last.request_id == first.request_id
            &&& last.options == first.options
        }),
{
    assert(events.push(event).drop_last() =~= events);
    let before = relay_state::compact(events);
    let done = relay_state::compact(events.drop_last());
    assert(before.len() > 0);
    assert(relay_state::continues(before.last(), event));
    assert(relay_state::compact(events.push(event)) == before.drop_last().push(
        relay_state::joined(before.last(), event),
    ));
}

/// Anything else is kept as a new event, as it is.
pub proof fn law_other_events_are_appended(events: Seq<EventModel>, event: EventModel)
    requires
        events.len() == 0 || event.kind != "output_chunk"@ || events.last().kind
            != "output_chunk"@ || events.last().session_id != event.session_id,
    ensures
        relay_state::compact(events.push(event)) == relay_state::compact(events).push(event),
{
    assert(events.push(event).drop_last() =~= events);
}

/// A segment holds as many numbers as the limit says, and the number that it is
/// found by is one of them.
pub proof fn law_segment_holds_its_numbers(limit: nat, seq: u64)
    requires
        limit > 0,
        seq > 0,
    ensures
        ({
            let start = relay_state::segment_start(limit, seq);
            &&& start <= seq < start + limit
            &&& (start - 1) % limit as int == 0
        }),
{
    let offset = seq - 1;
    let limit = limit as int;
    vstd::arithmetic::div_mod::lemma_fundamental_div_mod(offset, limit);
    vstd::arithmetic::mul::lemma_mul_is_commutative(offset / limit, limit);
    vstd::arithmetic::div_mod::lemma_mod_multiples_basic(offset / limit, limit);
}

/// A store that is loaded has every device of the snapshot, with its id, its name
/// and its workspaces, and none of them is connected; and every session.
pub proof fn law_store_is_loaded_whole(
    persistence: RelayPersistence,
    snapshot: RelaySnapshot,
    log: Vec<SessionEventMessage>,
    store: RelayStore,
    i: int,
)
    requires
        call_ensures(RelayPersistence::load, (&persistence, snapshot, log), store),
        0 <= i < snapshot.devices.deep_view().len(),
    ensures
        store.devices.deep_view().len() == snapshot.devices.deep_view().len(),
        ({
            let before = snapshot.devices.deep_view()[i];
            let after = store.devices.deep_view()[i];
            &&& after.0 == before.0
            &&& after.1.device_id == before.1.device_id
            &&& after.1.device_name == before.1.device_name
            &&& after.1.workspaces == before.1.workspaces
            &&& !after.1.connected
        }),
        store.sessions.deep_view() == snapshot.sessions.deep_view(),
{
    law_loading_keeps_the_devices(snapshot.deep_view(), log.deep_view());
    assert(store.deep_view() == relay_state::loaded(snapshot.deep_view(), log.deep_view()));
    assert(store.deep_view().devices[i] == store.devices.deep_view()[i]);
}

/// The highest number among the ids of sessions is no higher than any bound of
/// them all.
pub proof fn law_highest_session_number_is_reached<V>(sessions: Seq<(Seq<char>, V)>, bound: nat)
    requires
        forall|i: int|
            0 <= i < sessions.len() ==> (relay_state::session_number(
                (#[trigger] sessions[i]).0,
            ) matches Some(number) ==> number <= bound),
    ensures
        relay_state::highest_session_number(sessions) <= bound,
    decreases sessions.len(),
{
    if sessions.len() > 0 {
        let rest = sessions.drop_last();
        assert forall|i: int| 0 <= i < rest.len() implies (relay_state::session_number(
            (#[trigger] rest[i]).0,
        ) matches Some(number) ==> number <= bound) by {
            assert(rest[i] == sessions[i]);
        }
        law_highest_session_number_is_reached(rest, bound);
        assert(sessions[sessions.len() - 1] == sessions.last());
    }
}

/// The log is read from the segments where there are any, or else from the file
/// that came before them; a line counts that is not blank.
pub proof fn law_log_is_read_from_the_segments(
    legacy_file_exists: bool,
    with_segments: LogSource,
    with_file: LogSource,
    with_nothing: LogSource,
    line: &str,
    counts: bool,
)
    requires
        call_ensures(relay_state::log_source, (true, legacy_file_exists), with_segments),
        call_ensures(relay_state::log_source, (false, true), with_file),
        call_ensures(relay_state::log_source, (false, false), with_nothing),
        call_ensures(relay_state::holds_event, (line,), counts),
    ensures
        with_segments is Segments,
        with_file is LegacyFile,
        with_nothing is Nothing,
        counts <==> !text_laws::all_spaces(line@),
{
    if text_laws::all_spaces(line@) {
        text_laws::law_trimming_gives_the_text(line@, Seq::empty(), Seq::empty());
        assert(line@ + Seq::<char>::empty() + Seq::<char>::empty() =~= line@);
    } else if text::trim(line@).len() == 0 {
        let start = text_laws::law_trimming_takes_off_spaces(line@);
        assert forall|i: int| 0 <= i < line@.len() implies text::is_space(
            #[trigger] line@[i],
        ) by {
            if i < start {
                assert(line@.take(start)[i] == line@[i]);
            } else {
                assert(line@.skip(start)[i - start] == line@[i]);
            }
        }
    }
}

} // verus!
