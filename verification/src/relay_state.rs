//! The relay server's store: devices, sessions and the event history, its
//! compaction into a checkpoint, and what is written to disk and read back.
use crate::duplicate::{duplicate_range, Duplicate};
use crate::paths::with_extension;
use crate::paths;
use crate::protocol::{
    DeviceModel, DeviceStatusMessage, EventModel, RelaySessionSummaryMessage, SessionEventMessage,
    SummaryModel,
};
use crate::seqs::{vec_append, vec_empty, vec_push};
use crate::seqs;
use crate::string_map::StringMap;
use crate::text::{chars, is_blank, join2, join3, padded_number_string, parse_u64, same, slice_after_last};
use crate::text;
use vstd::prelude::*;

verus! {

/// A session as the store keeps it.
#[derive(Debug, Clone)]
pub struct PersistedRelaySession {
    pub summary: RelaySessionSummaryMessage,
    pub client_session_id: Option<String>,
}

/// What a [`PersistedRelaySession`] says.
#[verifier::ext_equal]
pub struct PersistedModel {
    pub summary: SummaryModel,
    pub client_session_id: Option<Seq<char>>,
}

impl DeepView for PersistedRelaySession {
    type V = PersistedModel;

    open spec fn deep_view(&self) -> PersistedModel {
        PersistedModel {
            summary: self.summary.deep_view(),
            client_session_id: self.client_session_id.deep_view(),
        }
    }
}

impl Duplicate for PersistedRelaySession {
    fn duplicate(&self) -> (r: Self) {
        PersistedRelaySession {
            summary: self.summary.duplicate(),
            client_session_id: self.client_session_id.duplicate(),
        }
    }
}

/// What the snapshot file holds.
#[derive(Debug, Clone)]
pub struct RelaySnapshot {
    pub devices: StringMap<DeviceStatusMessage>,
    pub sessions: StringMap<PersistedRelaySession>,
    pub checkpointed_through_seq: u64,
    pub checkpointed_events: Vec<SessionEventMessage>,
}

/// What a [`RelaySnapshot`] says.
#[verifier::ext_equal]
pub struct SnapshotModel {
    pub devices: Seq<(Seq<char>, DeviceModel)>,
    pub sessions: Seq<(Seq<char>, PersistedModel)>,
    pub checkpointed_through_seq: u64,
    pub checkpointed_events: Seq<EventModel>,
}

impl DeepView for RelaySnapshot {
    type V = SnapshotModel;

    open spec fn deep_view(&self) -> SnapshotModel {
        SnapshotModel {
            devices: self.devices.deep_view(),
            sessions: self.sessions.deep_view(),
            checkpointed_through_seq: self.checkpointed_through_seq,
            checkpointed_events: self.checkpointed_events.deep_view(),
        }
    }
}

impl Duplicate for RelaySnapshot {
    fn duplicate(&self) -> (r: Self) {
        RelaySnapshot {
            devices: self.devices.duplicate(),
            sessions: self.sessions.duplicate(),
            checkpointed_through_seq: self.checkpointed_through_seq,
            checkpointed_events: self.checkpointed_events.duplicate(),
        }
    }
}

/// Everything that the relay server keeps of devices, sessions and events.
#[derive(Debug, Clone)]
pub struct RelayStore {
    pub devices: StringMap<DeviceStatusMessage>,
    pub sessions: StringMap<PersistedRelaySession>,
    pub events: Vec<SessionEventMessage>,
    pub checkpointed_event_count: usize,
    pub checkpointed_through_seq: u64,
}

/// What a [`RelayStore`] says.
#[verifier::ext_equal]
pub struct StoreModel {
    pub devices: Seq<(Seq<char>, DeviceModel)>,
    pub sessions: Seq<(Seq<char>, PersistedModel)>,
    pub events: Seq<EventModel>,
    pub checkpointed_event_count: nat,
    pub checkpointed_through_seq: u64,
}

impl DeepView for RelayStore {
    type V = StoreModel;

    open spec fn deep_view(&self) -> StoreModel {
        StoreModel {
            devices: self.devices.deep_view(),
            sessions: self.sessions.deep_view(),
            events: self.events.deep_view(),
            checkpointed_event_count: self.checkpointed_event_count as nat,
            checkpointed_through_seq: self.checkpointed_through_seq,
        }
    }
}

impl Duplicate for RelayStore {
    fn duplicate(&self) -> (r: Self) {
        RelayStore {
            devices: self.devices.duplicate(),
            sessions: self.sessions.duplicate(),
            events: self.events.duplicate(),
            checkpointed_event_count: self.checkpointed_event_count,
            checkpointed_through_seq: self.checkpointed_through_seq,
        }
    }
}
impl Default for RelaySnapshot {
    fn default() -> (r: Self)
        ensures
            r.deep_view() == empty_snapshot(),
    {
        RelaySnapshot {
            devices: StringMap::new(),
            sessions: StringMap::new(),
            checkpointed_through_seq: 0,
            checkpointed_events: vec_empty(),
        }
    }
}

impl Default for RelayStore {
    fn default() -> (r: Self)
        ensures
            r.deep_view() == empty_store(),
    {
        RelayStore {
            devices: StringMap::new(),
            sessions: StringMap::new(),
            events: vec_empty(),
            checkpointed_event_count: 0,
            checkpointed_through_seq: 0,
        }
    }
}

pub open spec fn empty_snapshot() -> SnapshotModel {
    SnapshotModel {
        devices: Seq::empty(),
        sessions: Seq::empty(),
        checkpointed_through_seq: 0,
        checkpointed_events: Seq::empty(),
    }
}

pub open spec fn empty_store() -> StoreModel {
    StoreModel {
        devices: Seq::empty(),
        sessions: Seq::empty(),
        events: Seq::empty(),
        checkpointed_event_count: 0,
        checkpointed_through_seq: 0,
    }
}

// ---------------------------------------------------------------------------
// Sequence numbers
// ---------------------------------------------------------------------------

/// The last sequence number that an event covers.
pub open spec fn event_max_seq(event: EventModel) -> u64 {
    match event.seq_end {
        Some(seq_end) => seq_end,
        None => event.seq,
    }
}

/// Events that cover a range of sequence numbers.
pub trait SessionEventExt {
    spec fn spec_max_seq(&self) -> u64;

    /// The last sequence number that the event covers.
    fn max_seq(&self) -> (r: u64)
        ensures
            r == self.spec_max_seq(),
    ;
}

impl SessionEventExt for SessionEventMessage {
    open spec fn spec_max_seq(&self) -> u64 {
        event_max_seq(self.deep_view())
    }

    fn max_seq(&self) -> (r: u64) {
        match self.seq_end {
            Some(seq_end) => seq_end,
            None => self.seq,
        }
    }
}

pub open spec fn larger(a: u64, b: u64) -> u64 {
    if a >= b {
        a
    } else {
        b
    }
}

/// The highest sequence number among events; zero where there are none.
pub open spec fn highest_seq(events: Seq<EventModel>) -> u64
    decreases events.len(),
{
    if events.len() == 0 {
        0
    } else {
        larger(highest_seq(events.drop_last()), event_max_seq(events.last()))
    }
}

fn highest_event_seq(events: &Vec<SessionEventMessage>) -> (r: u64)
    ensures
        r == highest_seq(events.deep_view()),
{
    let mut highest: u64 = 0;
    let ghost all = events.deep_view();
    assert(all.take(0) =~= Seq::empty());
    for i in 0..events.len()
        invariant
            all == events.deep_view(),
            highest == highest_seq(all.take(i as int)),
    {
        assert(all.take(i + 1).drop_last() == all.take(i as int));
        assert(all.take(i + 1).last() == events@[i as int].deep_view());
        let seq = events[i].max_seq();
        if seq > highest {
            highest = seq;
        }
    }
    assert(all.take(all.len() as int) == all);
    highest
}

/// The number at the end of a session id, after its last hyphen.
pub open spec fn session_number(session_id: Seq<char>) -> Option<nat> {
    text::parse_number(text::after_last(session_id, '-'), u64::MAX as nat)
}

/// The highest number at the end of a session id; zero where none has one.
pub open spec fn highest_session_number<V>(sessions: Seq<(Seq<char>, V)>) -> nat
    decreases sessions.len(),
{
    if sessions.len() == 0 {
        0
    } else {
        let rest = highest_session_number(sessions.drop_last());
        match session_number(sessions.last().0) {
            Some(number) => if number > rest {
                number
            } else {
                rest
            },
            None => rest,
        }
    }
}

// ---------------------------------------------------------------------------
// Compaction
// ---------------------------------------------------------------------------

pub open spec fn text_or_empty(text: Option<Seq<char>>) -> Seq<char> {
    match text {
        Some(text) => text,
        None => Seq::empty(),
    }
}

pub open spec fn is_output(event: EventModel) -> bool {
    event.kind == "output_chunk"@
}

/// Whether an event continues the output of the one before it.
pub open spec fn continues(previous: EventModel, event: EventModel) -> bool {
    is_output(previous) && is_output(event) && previous.session_id == event.session_id
}

/// An output event with the output that continues it.
pub open spec fn joined(previous: EventModel, event: EventModel) -> EventModel {
    EventModel {
        timestamp: event.timestamp,
        seq_end: Some(larger(event_max_seq(previous), event_max_seq(event))),
        text: Some(text_or_empty(previous.text) + text_or_empty(event.text)),
        ..previous
    }
}

/// Events with every run of output of one session joined into one event.
pub open spec fn compact(events: Seq<EventModel>) -> Seq<EventModel>
    decreases events.len(),
{
    if events.len() == 0 {
        events
    } else {
        let done = compact(events.drop_last());
        if done.len() > 0 && continues(done.last(), events.last()) {
            done.drop_last().push(joined(done.last(), events.last()))
        } else {
            done.push(events.last())
        }
    }
}

fn text_of(text: &Option<String>) -> (r: &str)
    ensures
        r@ == text_or_empty(text.deep_view()),
{
    match text {
        Some(text) => text.as_str(),
        None => {
            proof {
                reveal_strlit("");
            }
            assert(""@ =~= Seq::empty());
            ""
        },
    }
}

fn join_output(previous: &mut SessionEventMessage, event: &SessionEventMessage)
    ensures
        final(previous).deep_view() == joined(old(previous).deep_view(), event.deep_view()),
{
    let a = previous.max_seq();
    let b = event.max_seq();
    let text = join2(text_of(&previous.text), text_of(&event.text));
    previous.timestamp = event.timestamp;
    previous.seq_end = Some(
        if a >= b {
            a
        } else {
            b
        },
    );
    previous.text = Some(text);
}

/// Joins every run of output of one session into one event.
pub fn compact_events(events: &Vec<SessionEventMessage>) -> (r: Vec<SessionEventMessage>)
    ensures
        r.deep_view() == compact(events.deep_view()),
{
    let mut compacted: Vec<SessionEventMessage> = vec_empty();
    let ghost all = events.deep_view();
    assert(all.take(0) =~= Seq::empty());
    for i in 0..events.len()
        invariant
            all == events.deep_view(),
            compacted.deep_view() == compact(all.take(i as int)),
    {
        assert(all.take(i + 1).drop_last() == all.take(i as int));
        assert(all.take(i + 1).last() == events@[i as int].deep_view());
        let ghost done = compacted.deep_view();
        let event = &events[i];
        let n: usize = compacted.len();
        if n > 0 && same(compacted[n - 1].kind.as_str(), "output_chunk") && same(
            event.kind.as_str(),
            "output_chunk",
        ) && same(compacted[n - 1].session_id.as_str(), event.session_id.as_str()) {
            assert(done.last() == compacted@[n - 1].deep_view());
            join_output(&mut compacted[n - 1], event);
            assert(compacted.deep_view() =~= done.drop_last().push(
                joined(done.last(), event.deep_view()),
            ));
        } else {
            assert(n > 0 ==> done.last() == compacted@[n - 1].deep_view());
            vec_push(&mut compacted, event.duplicate());
        }
    }
    assert(all.take(all.len() as int) == all);
    compacted
}

// ---------------------------------------------------------------------------
// The store
// ---------------------------------------------------------------------------

pub open spec fn smaller(a: nat, b: nat) -> nat {
    if a <= b {
        a
    } else {
        b
    }
}

/// How many of the store's events the checkpoint covers.
pub open spec fn boundary(store: StoreModel) -> nat {
    smaller(store.checkpointed_event_count, store.events.len())
}

/// The snapshot of a store: its devices, its sessions and the events up to the checkpoint.
pub open spec fn snapshot_of(store: StoreModel) -> SnapshotModel {
    SnapshotModel {
        devices: store.devices,
        sessions: store.sessions,
        checkpointed_through_seq: store.checkpointed_through_seq,
        checkpointed_events: store.events.take(boundary(store) as int),
    }
}

/// The events after the checkpoint.
pub open spec fn live_events_of(store: StoreModel) -> Seq<EventModel> {
    store.events.skip(boundary(store) as int)
}

/// The store with all its events compacted and covered by the checkpoint.
pub open spec fn checkpointed(store: StoreModel) -> StoreModel {
    let events = compact(store.events);
    StoreModel {
        events,
        checkpointed_event_count: events.len(),
        checkpointed_through_seq: if events.len() == 0 {
            store.checkpointed_through_seq
        } else {
            highest_seq(events)
        },
        ..store
    }
}

/// What has to be written to disk after a change to the store.
#[derive(Debug, Clone)]
pub enum StoreWrite {
    /// Append the events to the log, one after the other; then save the snapshot.
    Append { events: Vec<SessionEventMessage>, snapshot: RelaySnapshot },
    /// Save the snapshot; then let the log hold just these events.
    Rewrite { snapshot: RelaySnapshot, events: Vec<SessionEventMessage> },
}

/// What a [`StoreWrite`] says.
#[verifier::ext_equal]
pub enum StoreWriteModel {
    Append { events: Seq<EventModel>, snapshot: SnapshotModel },
    Rewrite { snapshot: SnapshotModel, events: Seq<EventModel> },
}

impl DeepView for StoreWrite {
    type V = StoreWriteModel;

    open spec fn deep_view(&self) -> StoreWriteModel {
        match self {
            StoreWrite::Append { events, snapshot } => StoreWriteModel::Append {
                events: events.deep_view(),
                snapshot: snapshot.deep_view(),
            },
            StoreWrite::Rewrite { snapshot, events } => StoreWriteModel::Rewrite {
                snapshot: snapshot.deep_view(),
                events: events.deep_view(),
            },
        }
    }
}

/// The store once a change is finished: compacted where the live events have
/// reached the threshold.
pub open spec fn settled(store: StoreModel, threshold: nat) -> StoreModel {
    let bounded = StoreModel { checkpointed_event_count: boundary(store), ..store };
    if live_events_of(bounded).len() >= threshold {
        checkpointed(bounded)
    } else {
        bounded
    }
}

/// What is written once a change is finished. `prior` is the number of events
/// before the change.
pub open spec fn settling_write(store: StoreModel, prior: nat, threshold: nat) -> StoreWriteModel {
    let after = settled(store, threshold);
    if live_events_of(store).len() >= threshold {
        StoreWriteModel::Rewrite { snapshot: snapshot_of(after), events: live_events_of(after) }
    } else {
        StoreWriteModel::Append {
            events: after.events.skip(smaller(prior, after.events.len()) as int),
            snapshot: snapshot_of(after),
        }
    }
}

impl RelayStore {
    /// One more than the highest number at the end of a session id.
    pub fn next_session_counter(&self) -> (r: u64)
        requires
            highest_session_number(self.sessions.deep_view()) < u64::MAX,
        ensures
            r == highest_session_number(self.sessions.deep_view()) + 1,
    {
        self.highest_session_counter() + 1
    }

    fn highest_session_counter(&self) -> (r: u64)
        ensures
            r == highest_session_number(self.sessions.deep_view()),
    {
        let mut highest: u64 = 0;
        let ghost all = self.sessions.deep_view();
        assert(all.take(0) =~= Seq::empty());
        let n: usize = self.sessions.len();
        for i in 0..n
            invariant
                all == self.sessions.deep_view(),
                n == all.len(),
                highest == highest_session_number(all.take(i as int)),
        {
            assert(all.take(i + 1).drop_last() == all.take(i as int));
            assert(all.take(i + 1).last() == all[i as int]);
            let id = chars(self.sessions.key_at(i).as_str());
            match parse_u64(slice_after_last(id.as_slice(), '-'), u64::MAX) {
                Some(number) => {
                    if number > highest {
                        highest = number;
                    }
                },
                None => {},
            }
        }
        assert(all.take(all.len() as int) == all);
        highest
    }

    /// One more than the highest sequence number among the events.
    pub fn next_event_seq(&self) -> (r: u64)
        requires
            highest_seq(self.events.deep_view()) < u64::MAX,
        ensures
            r == highest_seq(self.events.deep_view()) + 1,
    {
        highest_event_seq(&self.events) + 1
    }

    /// Whether there is a next session number and a next event sequence number.
    pub fn counters_available(&self) -> (r: bool)
        ensures
            r == (highest_session_number(self.sessions.deep_view()) < u64::MAX && highest_seq(
                self.events.deep_view(),
            ) < u64::MAX),
    {
        self.highest_session_counter() < u64::MAX && highest_event_seq(&self.events) < u64::MAX
    }

    fn boundary(&self) -> (r: usize)
        ensures
            r == boundary(self.deep_view()),
            r <= self.events@.len(),
    {
        if self.checkpointed_event_count <= self.events.len() {
            self.checkpointed_event_count
        } else {
            self.events.len()
        }
    }

    pub fn snapshot(&self) -> (r: RelaySnapshot)
        ensures
            r.deep_view() == snapshot_of(self.deep_view()),
    {
        let boundary = self.boundary();
        assert(self.events.deep_view().subrange(0, boundary as int)
            =~= self.events.deep_view().take(boundary as int));
        RelaySnapshot {
            devices: self.devices.duplicate(),
            sessions: self.sessions.duplicate(),
            checkpointed_through_seq: self.checkpointed_through_seq,
            checkpointed_events: duplicate_range(&self.events, 0, boundary),
        }
    }

    /// The number of events after the checkpoint.
    pub fn live_event_count(&self) -> (r: usize)
        ensures
            r == live_events_of(self.deep_view()).len(),
    {
        self.events.len() - self.boundary()
    }

    /// The events after the checkpoint.
    pub fn live_events(&self) -> (r: Vec<SessionEventMessage>)
        ensures
            r.deep_view() == live_events_of(self.deep_view()),
    {
        self.events_from(self.boundary())
    }

    /// The events from a position on; none where the position lies past the end.
    pub fn events_from(&self, index: usize) -> (r: Vec<SessionEventMessage>)
        ensures
            r.deep_view() == self.deep_view().events.skip(
                smaller(index as nat, self.deep_view().events.len()) as int,
            ),
    {
        let n: usize = self.events.len();
        let from: usize = if index <= n {
            index
        } else {
            n
        };
        assert(self.events.deep_view().subrange(from as int, n as int)
            =~= self.events.deep_view().skip(from as int));
        duplicate_range(&self.events, from, n)
    }

    /// Brings the checkpoint back to the end of the events where it lies past it.
    pub fn normalize_checkpoint_boundary(&mut self)
        ensures
            final(self).deep_view() == (StoreModel {
                checkpointed_event_count: boundary(old(self).deep_view()),
                ..old(self).deep_view()
            }),
    {
        self.checkpointed_event_count = self.boundary();
    }

    /// Compacts all events and covers them by the checkpoint.
    pub fn compact_into_checkpoint(&mut self)
        ensures
            final(self).deep_view() == checkpointed(old(self).deep_view()),
    {
        let compacted = compact_events(&self.events);
        if compacted.len() > 0 {
            self.checkpointed_through_seq = highest_event_seq(&compacted);
        }
        self.checkpointed_event_count = compacted.len();
        self.events = compacted;
    }

    /// Finishes a change before which the store held `prior_event_count`
    /// events, and says what has to be written.
    pub fn finish_update(&mut self, prior_event_count: usize, compaction_threshold: usize) -> (r:
        StoreWrite)
        ensures
            final(self).deep_view() == settled(old(self).deep_view(), compaction_threshold as nat),
            r.deep_view() == settling_write(
                old(self).deep_view(),
                prior_event_count as nat,
                compaction_threshold as nat,
            ),
    {
        let ghost before = self.deep_view();
        self.normalize_checkpoint_boundary();
        assert(live_events_of(self.deep_view()) == live_events_of(before));
        if self.live_event_count() >= compaction_threshold {
            self.compact_into_checkpoint();
            StoreWrite::Rewrite { snapshot: self.snapshot(), events: self.live_events() }
        } else {
            StoreWrite::Append {
                events: self.events_from(prior_event_count),
                snapshot: self.snapshot(),
            }
        }
    }
}

// ---------------------------------------------------------------------------
// Reading back
// ---------------------------------------------------------------------------

/// Devices, all of them marked as not connected.
pub open spec fn disconnected_devices(devices: Seq<(Seq<char>, DeviceModel)>) -> Seq<
    (Seq<char>, DeviceModel),
> {
    devices.map_values(
        |entry: (Seq<char>, DeviceModel)|
            (entry.0, DeviceModel { connected: false, ..entry.1 }),
    )
}

/// The last sequence number that a snapshot covers.
pub open spec fn covered_through(snapshot: SnapshotModel) -> u64 {
    larger(snapshot.checkpointed_through_seq, highest_seq(snapshot.checkpointed_events))
}

/// The store that a snapshot and an event log stand for: the snapshot's events
/// and those of the log that come after them. No device is connected.
pub open spec fn loaded(snapshot: SnapshotModel, log: Seq<EventModel>) -> StoreModel {
    let through = covered_through(snapshot);
    StoreModel {
        devices: disconnected_devices(snapshot.devices),
        sessions: snapshot.sessions,
        events: snapshot.checkpointed_events + log.filter(
            |event: EventModel| event_max_seq(event) > through,
        ),
        checkpointed_event_count: snapshot.checkpointed_events.len(),
        checkpointed_through_seq: through,
    }
}

/// Where the event log is read from.
#[derive(Debug, Clone, Copy, PartialEq, Eq, Structural)]
pub enum LogSource {
    /// The directory of segments.
    Segments,
    /// The single file that came before the segments; its events are then
    /// written out as segments.
    LegacyFile,
    Nothing,
}

/// The segments are read where their directory exists, else the single file
/// where that exists.
pub fn log_source(segments_exist: bool, legacy_file_exists: bool) -> (r: LogSource)
    ensures
        r == if segments_exist {
            LogSource::Segments
        } else if legacy_file_exists {
            LogSource::LegacyFile
        } else {
            LogSource::Nothing
        },
{
    if segments_exist {
        LogSource::Segments
    } else if legacy_file_exists {
        LogSource::LegacyFile
    } else {
        LogSource::Nothing
    }
}

/// Whether a line of the event log holds an event; blank lines do not.
pub fn holds_event(line: &str) -> (r: bool)
    ensures
        r == (text::trim(line@).len() > 0),
{
    !is_blank(line)
}

fn later_events(events: &Vec<SessionEventMessage>, through: u64) -> (r: Vec<SessionEventMessage>)
    ensures
        r.deep_view() == events.deep_view().filter(
            |event: EventModel| event_max_seq(event) > through,
        ),
{
    let ghost all = events.deep_view();
    let ghost later = |event: EventModel| event_max_seq(event) > through;
    let mut out: Vec<SessionEventMessage> = vec_empty();
    proof {
        seqs::lemma_filter_start(all, later);
    }
    for i in 0..events.len()
        invariant
            all == events.deep_view(),
            later == (|event: EventModel| event_max_seq(event) > through),
            out.deep_view() == all.take(i as int).filter(later),
    {
        proof {
            seqs::lemma_filter_step(all, later, i as int);
        }
        assert(all[i as int] == events@[i as int].deep_view());
        if events[i].max_seq() > through {
            vec_push(&mut out, events[i].duplicate());
        }
    }
    out
}

fn disconnect_all(devices: &mut StringMap<DeviceStatusMessage>)
    ensures
        final(devices).deep_view() == disconnected_devices(old(devices).deep_view()),
{
    let ghost before = devices.deep_view();
    let n: usize = devices.len();
    for i in 0..n
        invariant
            n == before.len(),
            devices.deep_view() == disconnected_devices(before.take(i as int)) + before.skip(
                i as int,
            ),
    {
        let ghost done = devices.deep_view();
        assert(done[i as int] == before[i as int]);
        let device = devices.value_at_mut(i);
        device.connected = false;
        assert(devices.deep_view() =~= disconnected_devices(before.take(i + 1)) + before.skip(
            i + 1,
        ));
    }
    assert(devices.deep_view() =~= disconnected_devices(before));
}

// ---------------------------------------------------------------------------
// Segments of the event log
// ---------------------------------------------------------------------------

/// The first sequence number of the segment that a sequence number falls into.
pub open spec fn segment_start(segment_event_limit: nat, seq: u64) -> nat {
    let offset = if seq == 0 {
        0nat
    } else {
        (seq - 1) as nat
    };
    offset / segment_event_limit * segment_event_limit + 1
}

/// The file name of the segment that starts at a sequence number.
pub open spec fn segment_name(start: nat) -> Seq<char> {
    "segment-"@ + text::decimal_padded(start, 20) + ".jsonl"@
}

fn segment_start_of(segment_event_limit: usize, seq: u64) -> (r: u64)
    requires
        segment_event_limit > 0,
    ensures
        r == segment_start(segment_event_limit as nat, seq),
{
    let limit: u64 = segment_event_limit as u64;
    let offset: u64 = if seq == 0 {
        0
    } else {
        seq - 1
    };
    let rounds: u64 = offset / limit;
    assert(rounds * limit <= offset && rounds * limit >= 0) by (nonlinear_arith)
        requires
            rounds == offset / limit,
            limit > 0,
    ;
    assert(offset < u64::MAX);
    rounds * limit + 1
}

/// The file name of the segment that an event with the sequence number belongs to.
pub fn segment_name_for_seq(segment_event_limit: usize, seq: u64) -> (r: String)
    requires
        segment_event_limit > 0,
    ensures
        r@ == segment_name(segment_start(segment_event_limit as nat, seq)),
{
    let start = segment_start_of(segment_event_limit, seq);
    join3("segment-", padded_number_string(start, 20).as_str(), ".jsonl")
}

/// One segment of the event log.
#[derive(Debug, Clone)]
pub struct LogSegment {
    pub start: u64,
    pub file_name: String,
    pub events: Vec<SessionEventMessage>,
}

pub open spec fn belongs_to(segment_event_limit: nat, start: nat) -> spec_fn(EventModel) -> bool {
    |event: EventModel| segment_start(segment_event_limit, event.seq) == start
}

/// Whether the segments are those of the events: in ascending order, each with
/// its own events in their order, none without events.
pub open spec fn are_segments_of(
    segments: Seq<LogSegment>,
    events: Seq<EventModel>,
    segment_event_limit: nat,
) -> bool {
    &&& forall|i: int, j: int|
        0 <= i < j < segments.len() ==> (#[trigger] segments[i]).start < (
        #[trigger] segments[j]).start
    &&& forall|i: int|
        0 <= i < segments.len() ==> {
            &&& (#[trigger] segments[i]).file_name@ == segment_name(segments[i].start as nat)
            &&& segments[i].events.deep_view() == events.filter(
                belongs_to(segment_event_limit, segments[i].start as nat),
            )
            &&& segments[i].events.deep_view().len() > 0
        }
    &&& forall|k: int|
        0 <= k < events.len() ==> exists|i: int|
            0 <= i < segments.len() && (#[trigger] segments[i]).start as nat == segment_start(
                segment_event_limit,
                (#[trigger] events[k]).seq,
            )
}

/// Divides events among the segments of the log.
#[verifier::rlimit(30)]
pub fn group_events_by_segment(
    events: &Vec<SessionEventMessage>,
    segment_event_limit: usize,
) -> (r: Vec<LogSegment>)
    requires
        segment_event_limit > 0,
    ensures
        are_segments_of(r@, events.deep_view(), segment_event_limit as nat),
{
    let ghost all = events.deep_view();
    let ghost limit = segment_event_limit as nat;
    let mut segments: Vec<LogSegment> = Vec::new();
    for k in 0..events.len()
        invariant
            segment_event_limit > 0,
            limit == segment_event_limit as nat,
            all == events.deep_view(),
            are_segments_of(segments@, all.take(k as int), limit),
    {
        let event = &events[k];
        let ghost done = all.take(k as int);
        let ghost next = all.take(k + 1);
        let ghost old_segments = segments@;
        assert(all[k as int] == event.deep_view());
        let start = segment_start_of(segment_event_limit, event.seq);
        let mut at: usize = 0;
        while at < segments.len() && segments[at].start < start
            invariant
                at <= segments@.len(),
                forall|i: int| 0 <= i < at ==> (#[trigger] segments@[i]).start < start,
            decreases segments@.len() - at,
        {
            at = at + 1;
        }
        assert forall|s: nat| true implies #[trigger] next.filter(belongs_to(limit, s)) == (
        if s == start as nat {
            done.filter(belongs_to(limit, s)).push(event.deep_view())
        } else {
            done.filter(belongs_to(limit, s))
        }) by {
            seqs::lemma_filter_step(all, belongs_to(limit, s), k as int);
        }
        if at < segments.len() && segments[at].start == start {
            let ghost before = segments@[at as int];
            vec_push(&mut segments[at].events, event.duplicate());
            assert forall|i: int| 0 <= i < segments@.len() && i != at implies segments@[i]
                == old_segments[i] by {}
            proof {
                assert forall|i: int, j: int| 0 <= i < j < segments@.len() implies (
                #[trigger] segments@[i]).start < (#[trigger] segments@[j]).start by {
                    assert(old_segments[i].start == segments@[i].start);
                    assert(old_segments[j].start == segments@[j].start);
                }
                assert forall|i: int| 0 <= i < segments@.len() implies {
                    &&& (#[trigger] segments@[i]).file_name@ == segment_name(
                        segments@[i].start as nat,
                    )
                    &&& segments@[i].events.deep_view() == next.filter(
                        belongs_to(limit, segments@[i].start as nat),
                    )
                    &&& segments@[i].events.deep_view().len() > 0
                } by {
                    assert(old_segments[i].start == segments@[i].start);
                    if i != at {
                        assert(segments@[i] == old_segments[i]);
                        assert(segments@[i].start != start) by {
                            if i < at {
                                assert(old_segments[i].start < old_segments[at as int].start);
                            } else {
                                assert(old_segments[at as int].start < old_segments[i].start);
                            }
                        }
                    }
                }
                assert forall|j: int| 0 <= j < next.len() implies exists|i: int|
                    0 <= i < segments@.len() && (#[trigger] segments@[i]).start as nat
                        == segment_start(limit, (#[trigger] next[j]).seq) by {
                    if j < k {
                        assert(next[j] == done[j]);
                        let i = choose|i: int|
                            0 <= i < old_segments.len() && (#[trigger] old_segments[i]).start as nat
                                == segment_start(limit, done[j].seq);
                        assert(segments@[i].start == old_segments[i].start);
                    } else {
                        assert(segments@[at as int].start as nat == segment_start(
                            limit,
                            next[j].seq,
                        ));
                    }
                }
                assert(are_segments_of(segments@, next, limit));
            }
        } else {
            let mut own: Vec<SessionEventMessage> = vec_empty();
            vec_push(&mut own, event.duplicate());
            let ghost own_events = own.deep_view();
            let segment = LogSegment {
                start,
                file_name: join3(
                    "segment-",
                    padded_number_string(start, 20).as_str(),
                    ".jsonl",
                ),
                events: own,
            };
            segments.insert(at, segment);
            proof {
                assert forall|i: int| 0 <= i < old_segments.len() implies (
                #[trigger] old_segments[i]).start != start by {
                    if i > at {
                        assert(old_segments[at as int].start < old_segments[i].start);
                    }
                }
                assert(done.filter(belongs_to(limit, start as nat)) =~= Seq::empty()) by {
                    assert forall|j: int| 0 <= j < done.len() implies !belongs_to(
                        limit,
                        start as nat,
                    )(#[trigger] done[j]) by {
                        let i = choose|i: int|
                            0 <= i < old_segments.len() && (#[trigger] old_segments[i]).start as nat
                                == segment_start(limit, done[j].seq);
                        assert(old_segments[i].start != start);
                    }
                    seqs::lemma_filter_none(done, belongs_to(limit, start as nat));
                }
                assert(next.filter(belongs_to(limit, start as nat)) =~= own_events);
                assert forall|i: int, j: int| 0 <= i < j < segments@.len() implies (
                #[trigger] segments@[i]).start < (#[trigger] segments@[j]).start by {
                    if i < at && j > at {
                        assert(segments@[j] == old_segments[j - 1]);
                        assert(old_segments[i].start < old_segments[j - 1].start);
                    } else if i > at {
                        assert(segments@[i] == old_segments[i - 1]);
                        assert(segments@[j] == old_segments[j - 1]);
                    } else if i == at {
                        assert(segments@[j] == old_segments[j - 1]);
                        if j - 1 > at {
                            assert(old_segments[at as int].start < old_segments[j - 1].start);
                        }
                    }
                }
                assert forall|i: int| 0 <= i < segments@.len() implies {
                    &&& (#[trigger] segments@[i]).file_name@ == segment_name(
                        segments@[i].start as nat,
                    )
                    &&& segments@[i].events.deep_view() == next.filter(
                        belongs_to(limit, segments@[i].start as nat),
                    )
                    &&& segments@[i].events.deep_view().len() > 0
                } by {
                    if i < at {
                        assert(segments@[i] == old_segments[i]);
                    } else if i > at {
                        assert(segments@[i] == old_segments[i - 1]);
                    }
                }
                assert forall|j: int| 0 <= j < next.len() implies exists|i: int|
                    0 <= i < segments@.len() && (#[trigger] segments@[i]).start as nat
                        == segment_start(limit, (#[trigger] next[j]).seq) by {
                    if j < k {
                        assert(next[j] == done[j]);
                        let i = choose|i: int|
                            0 <= i < old_segments.len() && (#[trigger] old_segments[i]).start as nat
                                == segment_start(limit, done[j].seq);
                        if i < at {
                            assert(segments@[i] == old_segments[i]);
                        } else {
                            assert(segments@[i + 1] == old_segments[i]);
                        }
                    } else {
                        assert(segments@[at as int].start as nat == segment_start(
                            limit,
                            next[j].seq,
                        ));
                    }
                }
                assert(are_segments_of(segments@, next, limit));
            }
        }
    }
    assert(all.take(all.len() as int) == all);
    segments
}

// ---------------------------------------------------------------------------
// Where the store is kept
// ---------------------------------------------------------------------------

/// The files that hold the store, and when they are rewritten.
#[derive(Debug)]
pub struct RelayPersistence {
    snapshot_path: String,
    event_log_dir: String,
    legacy_event_log_path: String,
    compaction_threshold: usize,
    segment_event_limit: usize,
}

/// What a [`RelayPersistence`] says.
#[verifier::ext_equal]
pub struct PersistenceModel {
    pub snapshot_path: Seq<char>,
    pub event_log_dir: Seq<char>,
    pub legacy_event_log_path: Seq<char>,
    pub compaction_threshold: nat,
    pub segment_event_limit: nat,
}

impl DeepView for RelayPersistence {
    type V = PersistenceModel;

    closed spec fn deep_view(&self) -> PersistenceModel {
        PersistenceModel {
            snapshot_path: self.snapshot_path@,
            event_log_dir: self.event_log_dir@,
            legacy_event_log_path: self.legacy_event_log_path@,
            compaction_threshold: self.compaction_threshold as nat,
            segment_event_limit: self.segment_event_limit as nat,
        }
    }
}

impl Clone for RelayPersistence {
    fn clone(&self) -> (r: Self)
        ensures
            r.deep_view() == self.deep_view(),
    {
        proof {
            use_type_invariant(self);
        }
        RelayPersistence {
            snapshot_path: self.snapshot_path.clone(),
            event_log_dir: self.event_log_dir.clone(),
            legacy_event_log_path: self.legacy_event_log_path.clone(),
            compaction_threshold: self.compaction_threshold,
            segment_event_limit: self.segment_event_limit,
        }
    }
}

impl RelayPersistence {
    #[verifier::type_invariant]
    spec fn segments_hold_events(self) -> bool {
        self.segment_event_limit >= 1
    }

    /// Beside the snapshot file stand the directory of the event log and the
    /// single-file log that came before it.
    pub fn new(
        snapshot_path: String,
        compaction_threshold: usize,
        segment_event_limit: usize,
    ) -> (r: Self)
        ensures
            r.deep_view().snapshot_path == snapshot_path@,
            paths::has_plain_stem(snapshot_path@) ==> {
                &&& r.deep_view().event_log_dir == paths::replace_extension(
                    snapshot_path@,
                    "events.d"@,
                )
                &&& r.deep_view().legacy_event_log_path == paths::replace_extension(
                    snapshot_path@,
                    "events.jsonl"@,
                )
            },
            r.deep_view().compaction_threshold == compaction_threshold,
            r.deep_view().segment_event_limit == if segment_event_limit == 0 {
                1
            } else {
                segment_event_limit as nat
            },
    {
        proof {
            reveal_strlit("events.d");
            reveal_strlit("events.jsonl");
        }
        let event_log_dir = with_extension(snapshot_path.as_str(), "events.d");
        let legacy_event_log_path = with_extension(snapshot_path.as_str(), "events.jsonl");
        RelayPersistence {
            snapshot_path,
            event_log_dir,
            legacy_event_log_path,
            compaction_threshold,
            segment_event_limit: if segment_event_limit == 0 {
                1
            } else {
                segment_event_limit
            },
        }
    }

    pub fn snapshot_path(&self) -> (r: &str)
        ensures
            r@ == self.deep_view().snapshot_path,
    {
        self.snapshot_path.as_str()
    }

    pub fn event_log_dir(&self) -> (r: &str)
        ensures
            r@ == self.deep_view().event_log_dir,
    {
        self.event_log_dir.as_str()
    }

    pub fn legacy_event_log_path(&self) -> (r: &str)
        ensures
            r@ == self.deep_view().legacy_event_log_path,
    {
        self.legacy_event_log_path.as_str()
    }

    /// The file that a snapshot is written to before it takes the old one's place.
    pub fn temporary_snapshot_path(&self) -> (r: String)
        ensures
            paths::has_plain_stem(self.deep_view().snapshot_path) ==> r@ == paths::replace_extension(
                self.deep_view().snapshot_path,
                "tmp"@,
            ),
    {
        proof {
            reveal_strlit("tmp");
        }
        with_extension(self.snapshot_path.as_str(), "tmp")
    }

    pub fn compaction_threshold(&self) -> (r: usize)
        ensures
            r == self.deep_view().compaction_threshold,
    {
        self.compaction_threshold
    }

    /// The number of sequence numbers that one segment covers.
    pub fn segment_event_limit(&self) -> (r: usize)
        ensures
            r == self.deep_view().segment_event_limit,
            r > 0,
    {
        proof {
            use_type_invariant(self);
        }
        self.segment_event_limit
    }

    /// The store that the snapshot and the event log, as they were read, stand for.
    pub fn load(&self, snapshot: RelaySnapshot, log: Vec<SessionEventMessage>) -> (r: RelayStore)
        ensures
            r.deep_view() == loaded(snapshot.deep_view(), log.deep_view()),
    {
        let RelaySnapshot { devices, sessions, checkpointed_through_seq, checkpointed_events } =
            snapshot;
        let highest = highest_event_seq(&checkpointed_events);
        let through: u64 = if checkpointed_through_seq >= highest {
            checkpointed_through_seq
        } else {
            highest
        };
        let checkpointed_event_count = checkpointed_events.len();
        let mut events = checkpointed_events;
        vec_append(&mut events, later_events(&log, through));
        let mut devices = devices;
        disconnect_all(&mut devices);
        RelayStore {
            devices,
            sessions,
            events,
            checkpointed_event_count,
            checkpointed_through_seq: through,
        }
    }
}

} // verus!
