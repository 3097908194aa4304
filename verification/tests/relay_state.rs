use codex_master::protocol::{DeviceStatusMessage, RelaySessionSummaryMessage, SessionEventMessage};
use codex_master::relay_state::{
    compact_events, group_events_by_segment, log_source, segment_name_for_seq, LogSource,
    PersistedRelaySession, RelayPersistence, RelaySnapshot, RelayStore, SessionEventExt, StoreWrite,
};
use codex_master::segment_order::segment_load_order;

fn event(seq: u64, session_id: &str, kind: &str, text: &str) -> SessionEventMessage {
    SessionEventMessage {
        seq,
        seq_end: None,
        session_id: session_id.to_string(),
        timestamp: seq * 10,
        kind: kind.to_string(),
        text: Some(text.to_string()),
        stop_reason: None,
        request_id: None,
        options: None,
    }
}

fn seqs(events: &[SessionEventMessage]) -> Vec<u64> {
    events.iter().map(|event| event.seq).collect()
}

#[test]
fn runs_of_output_are_joined() {
    let events = vec![
        event(1, "a", "output_chunk", "one "),
        event(2, "a", "output_chunk", "two"),
        event(3, "b", "output_chunk", "other"),
        event(4, "a", "output_chunk", "three"),
        event(5, "a", "prompt_finished", ""),
        event(6, "a", "output_chunk", "four"),
    ];
    let compacted = compact_events(&events);
    assert_eq!(seqs(&compacted), vec![1, 3, 4, 5, 6]);
    assert_eq!(compacted[0].text.as_deref(), Some("one two"));
    assert_eq!(compacted[0].seq_end, Some(2));
    assert_eq!(compacted[0].timestamp, 20);
    assert_eq!(compacted[0].max_seq(), 2);
    let again = compact_events(&compacted);
    assert_eq!(seqs(&again), seqs(&compacted));
    assert!(compact_events(&vec![]).is_empty());
}

#[test]
fn output_without_text_joins_as_empty_text() {
    let mut first = event(1, "a", "output_chunk", "x");
    first.text = None;
    let compacted = compact_events(&vec![first, event(2, "a", "output_chunk", "y")]);
    assert_eq!(compacted.len(), 1);
    assert_eq!(compacted[0].text.as_deref(), Some("y"));
}

#[test]
fn counters_follow_what_is_in_use() {
    let mut store = RelayStore::default();
    assert_eq!(store.next_session_counter(), 1);
    assert_eq!(store.next_event_seq(), 1);
    for id in ["relay-session-7", "relay-session-12", "other", "relay-session-x"] {
        store.sessions.insert(id.to_string(), session(id));
    }
    let mut joined = event(3, "a", "output_chunk", "x");
    joined.seq_end = Some(9);
    store.events.push(joined);
    store.events.push(event(5, "a", "info", "x"));
    assert_eq!(store.next_session_counter(), 13);
    assert_eq!(store.next_event_seq(), 10);
    assert!(store.counters_available());
    store.events.push(event(u64::MAX / 10, "a", "info", "x"));
    assert!(store.counters_available());
    let mut last = event(1, "a", "info", "x");
    last.seq = u64::MAX;
    store.events.push(last);
    assert!(!store.counters_available());
}

fn session(id: &str) -> PersistedRelaySession {
    PersistedRelaySession {
        summary: RelaySessionSummaryMessage {
            session_id: id.to_string(),
            device_id: "device".to_string(),
            status: "idle".to_string(),
            owner_user_id: None,
            workspace_id: None,
            workspace_name: None,
            created_at: 1,
            updated_at: 1,
        },
        client_session_id: None,
    }
}

#[test]
fn slices_stay_in_bounds_when_the_checkpoint_lies_past_the_end() {
    let mut store = RelayStore::default();
    store.events.push(event(1, "a", "info", "x"));
    store.checkpointed_event_count = 5;
    assert_eq!(store.snapshot().checkpointed_events.len(), 1);
    assert_eq!(store.live_event_count(), 0);
    assert!(store.live_events().is_empty());
    assert!(store.events_from(9).is_empty());
    assert_eq!(seqs(&store.events_from(0)), vec![1]);
    store.normalize_checkpoint_boundary();
    assert_eq!(store.checkpointed_event_count, 1);
}

#[test]
fn updates_append_until_the_threshold_is_reached() {
    let mut store = RelayStore::default();
    store.events.push(event(1, "a", "output_chunk", "x"));
    match store.finish_update(0, 3) {
        StoreWrite::Append { events, snapshot } => {
            assert_eq!(seqs(&events), vec![1]);
            assert!(snapshot.checkpointed_events.is_empty());
        }
        other => panic!("unexpected write: {other:?}"),
    }
    store.events.push(event(2, "a", "output_chunk", "y"));
    store.events.push(event(3, "b", "output_chunk", "z"));
    match store.finish_update(1, 3) {
        StoreWrite::Rewrite { snapshot, events } => {
            assert!(events.is_empty());
            assert_eq!(seqs(&snapshot.checkpointed_events), vec![1, 3]);
            assert_eq!(snapshot.checkpointed_through_seq, 3);
        }
        other => panic!("unexpected write: {other:?}"),
    }
    assert_eq!(store.events.len(), 2);
    assert_eq!(store.checkpointed_event_count, 2);
    assert_eq!(store.live_event_count(), 0);
}

#[test]
fn what_was_written_is_read_back() {
    let persistence = RelayPersistence::new("/var/lib/relay/state.json".to_string(), 3, 100);
    let mut store = RelayStore::default();
    let mut snapshot = RelaySnapshot::default();
    let mut log: Vec<SessionEventMessage> = vec![];
    store.devices.insert(
        "device".to_string(),
        DeviceStatusMessage {
            device_id: "device".to_string(),
            device_name: "Device".to_string(),
            connected: true,
            workspaces: vec![],
        },
    );
    for seq in 1..=7u64 {
        let prior = store.events.len();
        store.events.push(event(seq, if seq % 2 == 0 { "a" } else { "b" }, "info", "x"));
        match store.finish_update(prior, persistence.compaction_threshold()) {
            StoreWrite::Append { events, snapshot: written } => {
                log.extend(events);
                snapshot = written;
            }
            StoreWrite::Rewrite { snapshot: written, events } => {
                snapshot = written;
                log = events;
            }
        }
        let read = persistence.load(snapshot.clone(), log.clone());
        assert_eq!(seqs(&read.events), seqs(&store.events));
        assert_eq!(read.checkpointed_event_count, store.checkpointed_event_count);
        assert!(!read.devices.get("device").unwrap().connected);
    }
}

#[test]
fn events_that_the_snapshot_covers_are_not_read_twice() {
    let persistence = RelayPersistence::new("state.json".to_string(), 3, 100);
    let snapshot = RelaySnapshot {
        checkpointed_through_seq: 1,
        checkpointed_events: vec![event(1, "a", "info", "x"), event(2, "a", "info", "y")],
        ..RelaySnapshot::default()
    };
    let log = vec![event(1, "a", "info", "x"), event(2, "a", "info", "y"), event(3, "a", "info", "z")];
    let store = persistence.load(snapshot, log);
    assert_eq!(seqs(&store.events), vec![1, 2, 3]);
    assert_eq!(store.checkpointed_event_count, 2);
    assert_eq!(store.checkpointed_through_seq, 2);
}

#[test]
fn the_log_stands_beside_the_snapshot() {
    let persistence = RelayPersistence::new("/var/lib/relay/state.json".to_string(), 5, 0);
    assert_eq!(persistence.snapshot_path(), "/var/lib/relay/state.json");
    assert_eq!(persistence.event_log_dir(), "/var/lib/relay/state.events.d");
    assert_eq!(persistence.legacy_event_log_path(), "/var/lib/relay/state.events.jsonl");
    assert_eq!(persistence.compaction_threshold(), 5);
    assert_eq!(persistence.segment_event_limit(), 1);
    let bare = RelayPersistence::new("relay".to_string(), 5, 7);
    assert_eq!(bare.event_log_dir(), "relay.events.d");
    assert_eq!(bare.temporary_snapshot_path(), "relay.tmp");
    let hidden = RelayPersistence::new("/srv/.relay.json".to_string(), 5, 7);
    assert_eq!(hidden.event_log_dir(), "/srv/.relay.events.d");
    assert_eq!(hidden.temporary_snapshot_path(), "/srv/.relay.tmp");
    let undotted = RelayPersistence::new(".relay".to_string(), 5, 7);
    assert_eq!(undotted.legacy_event_log_path(), ".relay.events.jsonl");
    let dotted = RelayPersistence::new("...".to_string(), 5, 7);
    assert_eq!(dotted.temporary_snapshot_path(), "...tmp");
    assert_eq!(bare.segment_event_limit(), 7);
}

#[test]
fn segments_hold_a_range_of_numbers() {
    assert_eq!(segment_name_for_seq(100, 0), "segment-00000000000000000001.jsonl");
    assert_eq!(segment_name_for_seq(100, 1), "segment-00000000000000000001.jsonl");
    assert_eq!(segment_name_for_seq(100, 100), "segment-00000000000000000001.jsonl");
    assert_eq!(segment_name_for_seq(100, 101), "segment-00000000000000000101.jsonl");
    assert_eq!(segment_name_for_seq(1, u64::MAX), "segment-18446744073709551615.jsonl");
    let segments = group_events_by_segment(
        &vec![
            event(3, "a", "info", "x"),
            event(1, "a", "info", "x"),
            event(2, "a", "info", "x"),
            event(5, "a", "info", "x"),
        ],
        2,
    );
    assert_eq!(segments.len(), 3);
    assert_eq!(seqs(&segments[0].events), vec![1, 2]);
    assert_eq!(seqs(&segments[1].events), vec![3]);
    assert_eq!(seqs(&segments[2].events), vec![5]);
    assert_eq!(segments[2].file_name, "segment-00000000000000000005.jsonl");
    assert!(group_events_by_segment(&vec![], 2).is_empty());
}

#[test]
fn segments_are_read_in_the_order_of_their_names() {
    let names: Vec<Vec<u8>> = [
        "segment-00000000000000000101.jsonl",
        "notes.txt",
        "segment-00000000000000000001.jsonl",
        "segment-00000000000000000051.jsonl",
        "jsonl",
    ]
    .iter()
    .map(|name| name.as_bytes().to_vec())
    .collect();
    assert_eq!(segment_load_order(&names), vec![2, 3, 0]);
}

#[test]
fn segments_take_precedence_over_the_single_file() {
    assert_eq!(log_source(true, true), LogSource::Segments);
    assert_eq!(log_source(true, false), LogSource::Segments);
    assert_eq!(log_source(false, true), LogSource::LegacyFile);
    assert_eq!(log_source(false, false), LogSource::Nothing);
}
