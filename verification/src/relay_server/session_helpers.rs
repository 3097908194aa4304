//! Looking up sessions, deciding who may see them, and paging through history.
use crate::duplicate::Duplicate;
use crate::protocol::{
    EventModel, ServerMessageModel, ServerToClientMessage, SessionEventMessage, SummaryModel,
    WorkspaceModel, WorkspaceSummaryMessage,
};
use crate::relay_server::state::{RelayError, RelayErrorModel, RelaySession, SessionModel};
use crate::relay_server::state;
use crate::relay_state::{
    PersistedModel, PersistedRelaySession, RelayStore, SessionEventExt, StoreModel,
};
use crate::relay_state;
use crate::seqs::{vec_empty, vec_push};
use crate::seqs;
use crate::sorting::{insert_sorted, without_keys};
use crate::sorting;
use crate::string_map::StringMap;
use crate::string_map;
use crate::text::{join4, same, same_option};
use vstd::prelude::*;

verus! {

pub const SESSION_STATUS_REQUESTED: &'static str = "requested";

pub const SESSION_STATUS_READY: &'static str = "ready";

pub const SESSION_STATUS_IDLE: &'static str = "idle";

pub const SESSION_STATUS_RUNNING: &'static str = "running";

pub const SESSION_STATUS_AWAITING_PERMISSION: &'static str = "awaiting_permission";

pub const SESSION_STATUS_DEVICE_DISCONNECTED: &'static str = "device_disconnected";

pub const SESSION_STATUS_RESUME_FAILED: &'static str = "resume_failed";

pub const SESSION_STATUS_CLOSED: &'static str = "closed";

// ---------------------------------------------------------------------------
// Status
// ---------------------------------------------------------------------------

pub open spec fn is_closed(status: Seq<char>) -> bool {
    status == SESSION_STATUS_CLOSED@
}

pub fn session_is_closed(status: &str) -> (r: bool)
    ensures
        r == is_closed(status@),
{
    same(status, SESSION_STATUS_CLOSED)
}

/// Sessions are resumed unless they are closed or a resume has failed.
pub open spec fn is_resumable(status: Seq<char>) -> bool {
    !is_closed(status) && status != SESSION_STATUS_RESUME_FAILED@
}

pub fn session_should_auto_resume(status: &str) -> (r: bool)
    ensures
        r == is_resumable(status@),
{
    !session_is_closed(status) && !same(status, SESSION_STATUS_RESUME_FAILED)
}

// ---------------------------------------------------------------------------
// Events
// ---------------------------------------------------------------------------

/// An event that carries at most a text.
pub open spec fn event(
    seq: u64,
    session_id: Seq<char>,
    timestamp: u64,
    kind: Seq<char>,
    text: Option<Seq<char>>,
) -> EventModel {
    EventModel {
        seq,
        seq_end: None,
        session_id,
        timestamp,
        kind,
        text,
        stop_reason: None,
        request_id: None,
        options: None,
    }
}

pub(crate) fn new_event(
    seq: u64,
    session_id: &str,
    timestamp: u64,
    kind: &str,
    text: Option<String>,
) -> (r: SessionEventMessage)
    ensures
        r.deep_view() == event(seq, session_id@, timestamp, kind@, text.deep_view()),
{
    SessionEventMessage {
        seq,
        seq_end: None,
        session_id: session_id.to_string(),
        timestamp,
        kind: kind.to_string(),
        text,
        stop_reason: None,
        request_id: None,
        options: None,
    }
}

/// Sessions of which one has a new status; all as they are where it is not among them.
pub open spec fn with_status(
    sessions: Seq<(Seq<char>, PersistedModel)>,
    session_id: Seq<char>,
    status: Seq<char>,
    now: u64,
) -> Seq<(Seq<char>, PersistedModel)> {
    match string_map::lookup(sessions, session_id) {
        Some(session) => string_map::put(
            sessions,
            session_id,
            PersistedModel {
                summary: SummaryModel { status, updated_at: now, ..session.summary },
                ..session
            },
        ),
        None => sessions,
    }
}

pub(crate) fn set_status(
    sessions: &mut StringMap<PersistedRelaySession>,
    session_id: &str,
    status: &str,
    now: u64,
)
    ensures
        final(sessions).deep_view() == with_status(
            old(sessions).deep_view(),
            session_id@,
            status@,
            now,
        ),
{
    match sessions.get_mut(session_id) {
        Some(session) => {
            session.summary.status = status.to_string();
            session.summary.updated_at = now;
        },
        None => {},
    }
}

// ---------------------------------------------------------------------------
// Deletion
// ---------------------------------------------------------------------------

/// A store without a session and its history, with a record of the deletion.
pub open spec fn session_deleted(
    store: StoreModel,
    session_id: Seq<char>,
    deleted_by_user_id: Seq<char>,
    timestamp: u64,
    seq: u64,
) -> StoreModel {
    StoreModel {
        sessions: string_map::erase(store.sessions, session_id),
        events: store.events.filter(|event: EventModel| event.session_id != session_id).push(
            event(
                seq,
                Seq::empty(),
                timestamp,
                "session_deleted"@,
                Some("session_id="@ + session_id + " deleted_by="@ + deleted_by_user_id),
            ),
        ),
        ..store
    }
}

fn events_of_others(events: &Vec<SessionEventMessage>, session_id: &str) -> (r: Vec<
    SessionEventMessage,
>)
    ensures
        r.deep_view() == events.deep_view().filter(
            |event: EventModel| event.session_id != session_id@,
        ),
{
    let ghost all = events.deep_view();
    let ghost other = |event: EventModel| event.session_id != session_id@;
    let mut out: Vec<SessionEventMessage> = vec_empty();
    proof {
        seqs::lemma_filter_start(all, other);
    }
    for i in 0..events.len()
        invariant
            all == events.deep_view(),
            other == (|event: EventModel| event.session_id != session_id@),
            out.deep_view() == all.take(i as int).filter(other),
    {
        proof {
            seqs::lemma_filter_step(all, other, i as int);
        }
        assert(all[i as int] == events@[i as int].deep_view());
        if !same(events[i].session_id.as_str(), session_id) {
            vec_push(&mut out, events[i].duplicate());
        }
    }
    out
}

/// Removes a session and its history and records that they were deleted.
pub fn delete_session_from_store(
    store: &mut RelayStore,
    session_id: &str,
    deleted_by_user_id: &str,
    timestamp: u64,
    seq: u64,
)
    ensures
        final(store).deep_view() == session_deleted(
            old(store).deep_view(),
            session_id@,
            deleted_by_user_id@,
            timestamp,
            seq,
        ),
{
    proof {
        reveal_strlit("");
    }
    assert(""@ =~= Seq::empty());
    store.sessions.remove(session_id);
    let mut events = events_of_others(&store.events, session_id);
    vec_push(
        &mut events,
        new_event(
            seq,
            "",
            timestamp,
            "session_deleted",
            Some(join4("session_id=", session_id, " deleted_by=", deleted_by_user_id)),
        ),
    );
    store.events = events;
}

// ---------------------------------------------------------------------------
// Aliases
// ---------------------------------------------------------------------------

/// Whether a session is the one that a device knows by its own id.
pub open spec fn is_alias(session: SessionModel, device_id: Seq<char>, alias: Seq<char>) -> bool {
    session.device_id == device_id && session.client_session_id == Some(alias)
}

/// The first session that a device knows by its own id.
pub open spec fn first_alias(
    sessions: Seq<(Seq<char>, SessionModel)>,
    device_id: Seq<char>,
    alias: Seq<char>,
) -> Option<Seq<char>>
    decreases sessions.len(),
{
    if sessions.len() == 0 {
        None
    } else if is_alias(sessions[0].1, device_id, alias) {
        Some(sessions[0].0)
    } else {
        first_alias(sessions.skip(1), device_id, alias)
    }
}

/// The relay session that a device means by an id: the session of that id, or
/// else one that the device knows by it.
pub open spec fn resolved_alias(
    sessions: Seq<(Seq<char>, SessionModel)>,
    device_id: Seq<char>,
    incoming_session_id: Seq<char>,
) -> Option<Seq<char>> {
    if string_map::holds(sessions, incoming_session_id) {
        Some(incoming_session_id)
    } else {
        first_alias(sessions, device_id, incoming_session_id)
    }
}

pub fn resolve_client_session_alias_in_map(
    sessions: &StringMap<RelaySession>,
    device_id: &str,
    incoming_session_id: &str,
) -> (r: Option<String>)
    ensures
        r.deep_view() == resolved_alias(sessions.deep_view(), device_id@, incoming_session_id@),
{
    if sessions.contains_key(incoming_session_id) {
        return Some(incoming_session_id.to_string());
    }
    let ghost all = sessions.deep_view();
    let n: usize = sessions.len();
    assert(all.skip(0) == all);
    for i in 0..n
        invariant
            all == sessions.deep_view(),
            n == all.len(),
            !string_map::holds(all, incoming_session_id@),
            first_alias(all, device_id@, incoming_session_id@) == first_alias(
                all.skip(i as int),
                device_id@,
                incoming_session_id@,
            ),
    {
        assert(all.skip(i as int)[0] == all[i as int]);
        assert(all.skip(i as int).skip(1) == all.skip(i + 1));
        let session = sessions.value_at(i);
        if same(session.device_id.as_str(), device_id) && same_option(
            &session.client_session_id,
            incoming_session_id,
        ) {
            return Some(sessions.key_at(i).clone());
        }
    }
    None
}

// ---------------------------------------------------------------------------
// Visibility
// ---------------------------------------------------------------------------

/// A session without an owner belongs to everyone.
pub open spec fn owned_by(owner_user_id: Seq<char>, user_id: Seq<char>) -> bool {
    owner_user_id.len() == 0 || owner_user_id == user_id
}

pub fn session_owned_by_user_id(owner_user_id: &str, browser_user_id: &str) -> (r: bool)
    ensures
        r == owned_by(owner_user_id@, browser_user_id@),
{
    proof {
        reveal_strlit("");
    }
    assert(owner_user_id@.len() == 0 <==> owner_user_id@ =~= ""@);
    same(owner_user_id, "") || same(owner_user_id, browser_user_id)
}

pub open spec fn visible_to(session: PersistedModel, user_id: Seq<char>) -> bool {
    owned_by(relay_state::text_or_empty(session.summary.owner_user_id), user_id)
}

pub fn session_summary_visible_to_user(
    session: &PersistedRelaySession,
    browser_user_id: &str,
) -> (r: bool)
    ensures
        r == visible_to(session.deep_view(), browser_user_id@),
{
    match &session.summary.owner_user_id {
        Some(owner) => session_owned_by_user_id(owner.as_str(), browser_user_id),
        None => true,
    }
}

/// What a user is told of a change to a session.
#[derive(Debug, Clone, Copy, PartialEq, Eq, Structural)]
pub enum SessionVisibilityChange {
    Unchanged,
    Updated,
    Removed,
}

pub open spec fn visibility_change(
    previous: Option<PersistedModel>,
    current: Option<PersistedModel>,
    user_id: Seq<char>,
) -> SessionVisibilityChange {
    if current is Some && visible_to(current.unwrap(), user_id) {
        SessionVisibilityChange::Updated
    } else if previous is Some && visible_to(previous.unwrap(), user_id) {
        SessionVisibilityChange::Removed
    } else {
        SessionVisibilityChange::Unchanged
    }
}

/// What is said by an optional reference.
pub open spec fn optional_model(session: Option<&PersistedRelaySession>) -> Option<PersistedModel> {
    match session {
        Some(session) => Some(session.deep_view()),
        None => None,
    }
}

pub fn session_visibility_change(
    previous: Option<&PersistedRelaySession>,
    current: Option<&PersistedRelaySession>,
    browser_user_id: &str,
) -> (r: SessionVisibilityChange)
    ensures
        r == visibility_change(
            optional_model(previous),
            optional_model(current),
            browser_user_id@,
        ),
{
    let was_visible = match previous {
        Some(session) => session_summary_visible_to_user(session, browser_user_id),
        None => false,
    };
    let is_visible = match current {
        Some(session) => session_summary_visible_to_user(session, browser_user_id),
        None => false,
    };
    if is_visible {
        SessionVisibilityChange::Updated
    } else if was_visible {
        SessionVisibilityChange::Removed
    } else {
        SessionVisibilityChange::Unchanged
    }
}

/// A session as the store has it.
pub open spec fn current_session(store: StoreModel, session_id: Seq<char>) -> Result<
    PersistedModel,
    RelayErrorModel,
> {
    match string_map::lookup(store.sessions, session_id) {
        Some(session) => Ok(session),
        None => Err(RelayErrorModel::UnknownSession { session_id }),
    }
}

pub fn current_session_snapshot(store: &RelayStore, session_id: &str) -> (r: Result<
    PersistedRelaySession,
    RelayError,
>)
    ensures
        state::result_model(r) == current_session(store.deep_view(), session_id@),
{
    match store.sessions.get(session_id) {
        Some(session) => Ok(session.duplicate()),
        None => Err(RelayError::UnknownSession { session_id: session_id.to_string() }),
    }
}

/// A session as the store has it, for a user who may see it.
pub open spec fn visible_session(
    store: StoreModel,
    user_id: Seq<char>,
    session_id: Seq<char>,
) -> Result<PersistedModel, RelayErrorModel> {
    match string_map::lookup(store.sessions, session_id) {
        Some(session) => if visible_to(session, user_id) {
            Ok(session)
        } else {
            Err(RelayErrorModel::SessionForbidden)
        },
        None => Err(RelayErrorModel::UnknownSession { session_id }),
    }
}

pub fn get_visible_session_summary(
    store: &RelayStore,
    browser_user_id: &str,
    session_id: &str,
) -> (r: Result<PersistedRelaySession, RelayError>)
    ensures
        state::result_model(r) == visible_session(store.deep_view(), browser_user_id@, session_id@),
{
    match store.sessions.get(session_id) {
        Some(session) => if session_summary_visible_to_user(session, browser_user_id) {
            Ok(session.duplicate())
        } else {
            Err(RelayError::SessionForbidden)
        },
        None => Err(RelayError::UnknownSession { session_id: session_id.to_string() }),
    }
}

/// A session for the browser that has it.
pub open spec fn browser_session(
    sessions: Seq<(Seq<char>, SessionModel)>,
    browser_id: Seq<char>,
    user_id: Seq<char>,
    session_id: Seq<char>,
) -> Result<SessionModel, RelayErrorModel> {
    match string_map::lookup(sessions, session_id) {
        Some(session) => if !owned_by(session.owner_user_id, user_id) {
            Err(RelayErrorModel::SessionForbidden)
        } else if session.browser_id != browser_id {
            Err(RelayErrorModel::SessionOfOtherBrowser)
        } else {
            Ok(session)
        },
        None => Err(RelayErrorModel::UnknownSession { session_id }),
    }
}

pub fn get_browser_session(
    sessions: &StringMap<RelaySession>,
    browser_id: &str,
    browser_user_id: &str,
    session_id: &str,
) -> (r: Result<RelaySession, RelayError>)
    ensures
        state::result_model(r) == browser_session(
            sessions.deep_view(),
            browser_id@,
            browser_user_id@,
            session_id@,
        ),
{
    match sessions.get(session_id) {
        Some(session) => if !session_owned_by_user_id(
            session.owner_user_id.as_str(),
            browser_user_id,
        ) {
            Err(RelayError::SessionForbidden)
        } else if !same(session.browser_id.as_str(), browser_id) {
            Err(RelayError::SessionOfOtherBrowser)
        } else {
            Ok(session.duplicate())
        },
        None => Err(RelayError::UnknownSession { session_id: session_id.to_string() }),
    }
}

// ---------------------------------------------------------------------------
// Workspaces
// ---------------------------------------------------------------------------

/// The first workspace with an id.
pub open spec fn workspace_with_id(workspaces: Seq<WorkspaceModel>, id: Seq<char>) -> Option<
    WorkspaceModel,
>
    decreases workspaces.len(),
{
    if workspaces.len() == 0 {
        None
    } else if workspaces[0].workspace_id == id {
        Some(workspaces[0])
    } else {
        workspace_with_id(workspaces.skip(1), id)
    }
}

/// The workspace of a device.
pub open spec fn device_workspace(
    store: StoreModel,
    device_id: Seq<char>,
    workspace_id: Seq<char>,
) -> Result<WorkspaceModel, RelayErrorModel> {
    match string_map::lookup(store.devices, device_id) {
        Some(device) => match workspace_with_id(device.workspaces, workspace_id) {
            Some(workspace) => Ok(workspace),
            None => Err(RelayErrorModel::UnknownWorkspace { device_id, workspace_id }),
        },
        None => Err(RelayErrorModel::UnknownDevice { device_id }),
    }
}

fn find_workspace(workspaces: &Vec<WorkspaceSummaryMessage>, id: &str) -> (r: Option<
    WorkspaceSummaryMessage,
>)
    ensures
        r.deep_view() == workspace_with_id(workspaces.deep_view(), id@),
{
    let ghost all = workspaces.deep_view();
    assert(all.skip(0) == all);
    for i in 0..workspaces.len()
        invariant
            all == workspaces.deep_view(),
            workspace_with_id(all, id@) == workspace_with_id(all.skip(i as int), id@),
    {
        assert(all.skip(i as int)[0] == workspaces@[i as int].deep_view());
        assert(all.skip(i as int).skip(1) == all.skip(i + 1));
        if same(workspaces[i].workspace_id.as_str(), id) {
            return Some(workspaces[i].duplicate());
        }
    }
    None
}

pub fn resolve_device_workspace(store: &RelayStore, device_id: &str, workspace_id: &str) -> (r:
    Result<WorkspaceSummaryMessage, RelayError>)
    ensures
        state::result_model(r) == device_workspace(store.deep_view(), device_id@, workspace_id@),
{
    match store.devices.get(device_id) {
        Some(device) => match find_workspace(&device.workspaces, workspace_id) {
            Some(workspace) => Ok(workspace),
            None => Err(
                RelayError::UnknownWorkspace {
                    device_id: device_id.to_string(),
                    workspace_id: workspace_id.to_string(),
                },
            ),
        },
        None => Err(RelayError::UnknownDevice { device_id: device_id.to_string() }),
    }
}

// ---------------------------------------------------------------------------
// History
// ---------------------------------------------------------------------------

/// How many events a page holds at most.
pub open spec fn page_size(limit: Option<usize>) -> nat {
    match limit {
        Some(limit) => if limit < 1 {
            1
        } else if limit > 500 {
            500
        } else {
            limit as nat
        },
        None => 100,
    }
}

/// The events of a session that lie before a sequence number.
pub open spec fn in_history(session_id: Seq<char>, before_seq: Option<u64>) -> spec_fn(
    EventModel,
) -> bool {
    |event: EventModel|
        event.session_id == session_id && match before_seq {
            Some(before_seq) => relay_state::event_max_seq(event) < before_seq,
            None => true,
        }
}

/// The last items of a sequence, all of them where there are fewer.
pub open spec fn last_items<T>(items: Seq<T>, count: nat) -> Seq<T> {
    if items.len() <= count {
        items
    } else {
        items.skip(items.len() - count)
    }
}

/// A page of a session's history: its last events before a sequence number.
pub open spec fn history_events(
    events: Seq<EventModel>,
    session_id: Seq<char>,
    before_seq: Option<u64>,
    limit: Option<usize>,
) -> Seq<EventModel> {
    last_items(events.filter(in_history(session_id, before_seq)), page_size(limit))
}

/// Whether a session has events before a page.
pub open spec fn more_before(
    events: Seq<EventModel>,
    session_id: Seq<char>,
    page: Seq<EventModel>,
) -> bool {
    page.len() > 0 && exists|i: int|
        0 <= i < events.len() && in_history(session_id, Some(page[0].seq))(#[trigger] events[i])
}

/// A page of a session's history, where the page before it ends, and whether
/// there is one.
pub open spec fn history_page(
    events: Seq<EventModel>,
    session_id: Seq<char>,
    before_seq: Option<u64>,
    limit: Option<usize>,
) -> (Seq<EventModel>, Option<u64>, bool) {
    let page = history_events(events, session_id, before_seq, limit);
    let has_more = more_before(events, session_id, page);
    (
        page,
        if has_more {
            Some(page[0].seq)
        } else {
            None
        },
        has_more,
    )
}

fn is_in_history(event: &SessionEventMessage, session_id: &str, before_seq: Option<u64>) -> (r:
    bool)
    ensures
        r == in_history(session_id@, before_seq)(event.deep_view()),
{
    if !same(event.session_id.as_str(), session_id) {
        return false;
    }
    match before_seq {
        Some(before_seq) => event.max_seq() < before_seq,
        None => true,
    }
}

/// Where the last `count` events of a session's history begin.
fn start_of_page(
    events: &Vec<SessionEventMessage>,
    session_id: &str,
    before_seq: Option<u64>,
    count: usize,
) -> (start: usize)
    requires
        count > 0,
    ensures
        start <= events@.len(),
        last_items(
            events.deep_view().filter(in_history(session_id@, before_seq)),
            count as nat,
        ) == events.deep_view().skip(start as int).filter(in_history(session_id@, before_seq)),
{
    let ghost all = events.deep_view();
    let ghost wanted = in_history(session_id@, before_seq);
    let mut start: usize = events.len();
    let mut found: usize = 0;
    proof {
        reveal(Seq::filter);
        assert(all.skip(start as int).filter(wanted).len() == 0);
    }
    while start > 0 && found < count
        invariant
            start <= events@.len(),
            all == events.deep_view(),
            wanted == in_history(session_id@, before_seq),
            found == all.skip(start as int).filter(wanted).len(),
            found <= count,
        decreases start,
    {
        start = start - 1;
        proof {
            let one = seq![all[start as int]];
            assert(all.skip(start as int) =~= one + all.skip(start + 1));
            seqs::lemma_filter_concat(one, all.skip(start + 1), wanted);
            reveal(Seq::filter);
            assert(one.drop_last() =~= Seq::empty());
            assert(one.drop_last().filter(wanted) =~= Seq::empty());
            assert(one.last() == all[start as int]);
            assert(one.filter(wanted).len() == if wanted(all[start as int]) {
                1int
            } else {
                0
            });
        }
        assert(all[start as int] == events@[start as int].deep_view());
        if is_in_history(&events[start], session_id, before_seq) {
            found = found + 1;
        }
    }
    proof {
        seqs::lemma_filter_concat(all.take(start as int), all.skip(start as int), wanted);
        assert(all.take(start as int) + all.skip(start as int) =~= all);
        let whole = all.filter(wanted);
        let front = all.take(start as int).filter(wanted);
        let back = all.skip(start as int).filter(wanted);
        assert(whole == front + back);
        if start == 0 {
            assert(all.skip(0) =~= all);
        }
        if whole.len() > count {
            assert(whole.skip(whole.len() - count) =~= back);
        } else if start > 0 {
            assert(front.len() == 0);
            assert(whole =~= back);
        }
    }
    start
}

fn has_earlier(events: &Vec<SessionEventMessage>, session_id: &str, before_seq: u64) -> (r: bool)
    ensures
        r == exists|i: int|
            0 <= i < events@.len() && in_history(session_id@, Some(before_seq))(
                #[trigger] events.deep_view()[i],
            ),
{
    for i in 0..events.len()
        invariant
            forall|j: int|
                0 <= j < i ==> !in_history(session_id@, Some(before_seq))(
                    #[trigger] events.deep_view()[j],
                ),
    {
        assert(events.deep_view()[i as int] == events@[i as int].deep_view());
        if is_in_history(&events[i], session_id, Some(before_seq)) {
            return true;
        }
    }
    false
}

/// A page of a session's history: its last events before a sequence number, at
/// most `limit` of them, with the sequence number to go on from.
pub fn paginate_session_events(
    store: &RelayStore,
    session_id: &str,
    before_seq: Option<u64>,
    limit: Option<usize>,
) -> (r: (Vec<SessionEventMessage>, Option<u64>, bool))
    ensures
        (r.0.deep_view(), r.1, r.2) == history_page(
            store.deep_view().events,
            session_id@,
            before_seq,
            limit,
        ),
{
    let size: usize = match limit {
        Some(limit) => if limit < 1 {
            1
        } else if limit > 500 {
            500
        } else {
            limit
        },
        None => 100,
    };
    let start = start_of_page(&store.events, session_id, before_seq, size);
    let ghost all = store.events.deep_view();
    let ghost wanted = in_history(session_id@, before_seq);
    let ghost tail = all.skip(start as int);
    let mut page: Vec<SessionEventMessage> = vec_empty();
    proof {
        seqs::lemma_filter_start(tail, wanted);
    }
    let n: usize = store.events.len();
    for i in start..n
        invariant
            n == all.len(),
            start <= n,
            all == store.events.deep_view(),
            wanted == in_history(session_id@, before_seq),
            tail == all.skip(start as int),
            page.deep_view() == tail.take(i - start).filter(wanted),
    {
        proof {
            seqs::lemma_filter_step(tail, wanted, i - start);
        }
        assert(tail[i - start] == store.events@[i as int].deep_view());
        if is_in_history(&store.events[i], session_id, before_seq) {
            vec_push(&mut page, store.events[i].duplicate());
        }
    }
    assert(tail.take(tail.len() as int) == tail);
    assert(page.deep_view() == history_events(all, session_id@, before_seq, limit));
    if page.len() == 0 {
        return (page, None, false);
    }
    let first_seq = page[0].seq;
    assert(page.deep_view()[0] == page@[0].deep_view());
    let has_more = has_earlier(&store.events, session_id, first_seq);
    if has_more {
        (page, Some(first_seq), true)
    } else {
        (page, None, false)
    }
}

// ---------------------------------------------------------------------------
// Resuming
// ---------------------------------------------------------------------------

/// The command that resumes a session on a device, with the time of the
/// session's last change; none where the session cannot be resumed there.
pub open spec fn resume_candidate(session: PersistedModel, device_id: Seq<char>) -> Option<
    (u64, ServerMessageModel),
> {
    if session.summary.device_id == device_id && is_resumable(session.summary.status) {
        match (session.client_session_id, session.summary.workspace_id) {
            (Some(client_session_id), Some(workspace_id)) => Some(
                (
                    session.summary.updated_at,
                    ServerMessageModel::ResumeSession {
                        session_id: session.summary.session_id,
                        client_session_id,
                        workspace_id,
                    },
                ),
            ),
            _ => None,
        }
    } else {
        None
    }
}

pub open spec fn resume_candidates(
    sessions: Seq<(Seq<char>, PersistedModel)>,
    device_id: Seq<char>,
) -> Seq<(u64, ServerMessageModel)>
    decreases sessions.len(),
{
    if sessions.len() == 0 {
        Seq::empty()
    } else {
        let rest = resume_candidates(sessions.drop_last(), device_id);
        match resume_candidate(sessions.last().1, device_id) {
            Some(candidate) => rest.push(candidate),
            None => rest,
        }
    }
}

/// The commands that resume a device's sessions, the longest unchanged first.
pub open spec fn resume_commands(
    sessions: Seq<(Seq<char>, PersistedModel)>,
    device_id: Seq<char>,
) -> Seq<ServerMessageModel> {
    sorting::sort_by_key(resume_candidates(sessions, device_id)).map_values(
        |pair: (u64, ServerMessageModel)| pair.1,
    )
}

pub fn pending_resume_commands(store: &RelayStore, device_id: &str) -> (r: Vec<
    ServerToClientMessage,
>)
    ensures
        r.deep_view() == resume_commands(store.deep_view().sessions, device_id@),
{
    let ghost all = store.sessions.deep_view();
    let mut sorted: Vec<(u64, ServerToClientMessage)> = vec_empty();
    let n: usize = store.sessions.len();
    assert(all.take(0) =~= Seq::empty());
    for i in 0..n
        invariant
            n == all.len(),
            all == store.sessions.deep_view(),
            sorted.deep_view() == sorting::sort_by_key(
                resume_candidates(all.take(i as int), device_id@),
            ),
    {
        let ghost before = resume_candidates(all.take(i as int), device_id@);
        assert(all.take(i + 1).drop_last() == all.take(i as int));
        assert(all.take(i + 1).last() == all[i as int]);
        let session = store.sessions.value_at(i);
        if same(session.summary.device_id.as_str(), device_id) && session_should_auto_resume(
            session.summary.status.as_str(),
        ) {
            match (&session.client_session_id, &session.summary.workspace_id) {
                (Some(client_session_id), Some(workspace_id)) => {
                    let command = ServerToClientMessage::ResumeSession {
                        session_id: session.summary.session_id.clone(),
                        client_session_id: client_session_id.clone(),
                        workspace_id: workspace_id.clone(),
                    };
                    proof {
                        let candidate = (session.summary.updated_at, command.deep_view());
                        assert(before.push(candidate).drop_last() =~= before);
                    }
                    insert_sorted(&mut sorted, session.summary.updated_at, command);
                },
                _ => {},
            }
        }
    }
    assert(all.take(all.len() as int) == all);
    without_keys(sorted)
}

// ---------------------------------------------------------------------------
// Disconnecting
// ---------------------------------------------------------------------------

/// A session as it stands after its device went away. One that would not be
/// resumed keeps its status, so that it is not taken up when the device is back.
pub open spec fn disconnected_session(
    session: PersistedModel,
    device_id: Seq<char>,
    now: u64,
) -> PersistedModel {
    if session.summary.device_id == device_id {
        PersistedModel {
            summary: SummaryModel {
                status: if is_resumable(session.summary.status) {
                    SESSION_STATUS_DEVICE_DISCONNECTED@
                } else {
                    session.summary.status
                },
                updated_at: now,
                ..session.summary
            },
            ..session
        }
    } else {
        session
    }
}

/// A store after a device went away.
pub open spec fn device_disconnected(
    store: StoreModel,
    device_id: Seq<char>,
    now: u64,
    seq: u64,
) -> StoreModel {
    StoreModel {
        sessions: store.sessions.map_values(
            |entry: (Seq<char>, PersistedModel)|
                (entry.0, disconnected_session(entry.1, device_id, now)),
        ),
        events: store.events.push(
            event(seq, Seq::empty(), now, "device_disconnected"@, Some(device_id)),
        ),
        ..store
    }
}

/// The ids of a device's sessions.
pub open spec fn sessions_of_device(
    sessions: Seq<(Seq<char>, PersistedModel)>,
    device_id: Seq<char>,
) -> Seq<Seq<char>> {
    sessions.filter(
        |entry: (Seq<char>, PersistedModel)| entry.1.summary.device_id == device_id,
    ).map_values(|entry: (Seq<char>, PersistedModel)| entry.1.summary.session_id)
}

fn list_sessions_of_device(store: &RelayStore, device_id: &str) -> (r: Vec<String>)
    ensures
        r.deep_view() == sessions_of_device(store.deep_view().sessions, device_id@),
{
    let ghost all = store.sessions.deep_view();
    let ghost of_device = |entry: (Seq<char>, PersistedModel)|
        entry.1.summary.device_id == device_id@;
    let ghost id = |entry: (Seq<char>, PersistedModel)| entry.1.summary.session_id;
    let mut out: Vec<String> = vec_empty();
    let n: usize = store.sessions.len();
    proof {
        seqs::lemma_filter_start(all, of_device);
    }
    for i in 0..n
        invariant
            n == all.len(),
            all == store.sessions.deep_view(),
            of_device == (|entry: (Seq<char>, PersistedModel)|
                entry.1.summary.device_id == device_id@),
            id == (|entry: (Seq<char>, PersistedModel)| entry.1.summary.session_id),
            out.deep_view() == all.take(i as int).filter(of_device).map_values(id),
    {
        proof {
            seqs::lemma_filter_step(all, of_device, i as int);
        }
        let session = store.sessions.value_at(i);
        if same(session.summary.device_id.as_str(), device_id) {
            let ghost before = all.take(i as int).filter(of_device);
            vec_push(&mut out, session.summary.session_id.clone());
            assert(before.push(all[i as int]).map_values(id) =~= before.map_values(id).push(
                id(all[i as int]),
            ));
        }
    }
    out
}

/// Marks those of a device's sessions as disconnected that would be resumed,
/// records that the device went away, and gives the ids of all its sessions.
pub fn mark_device_disconnected(store: &mut RelayStore, device_id: &str, now: u64, seq: u64) -> (r:
    Vec<String>)
    ensures
        final(store).deep_view() == device_disconnected(
            old(store).deep_view(),
            device_id@,
            now,
            seq,
        ),
        r.deep_view() == sessions_of_device(old(store).deep_view().sessions, device_id@),
{
    let affected_session_ids = list_sessions_of_device(store, device_id);
    let ghost before = store.sessions.deep_view();
    let ghost mark = |entry: (Seq<char>, PersistedModel)|
        (entry.0, disconnected_session(entry.1, device_id@, now));
    let ghost rest = store.deep_view();
    let n: usize = store.sessions.len();
    for i in 0..n
        invariant
            n == before.len(),
            mark == (|entry: (Seq<char>, PersistedModel)|
                (entry.0, disconnected_session(entry.1, device_id@, now))),
            store.deep_view() == (StoreModel { sessions: store.sessions.deep_view(), ..rest }),
            store.sessions.deep_view() == before.take(i as int).map_values(mark) + before.skip(
                i as int,
            ),
    {
        let ghost done = store.sessions.deep_view();
        assert(done[i as int] == before[i as int]);
        let session = store.sessions.value_at_mut(i);
        if same(session.summary.device_id.as_str(), device_id) {
            if session_should_auto_resume(session.summary.status.as_str()) {
                session.summary.status = SESSION_STATUS_DEVICE_DISCONNECTED.to_string();
            }
            session.summary.updated_at = now;
        }
        assert(store.sessions.deep_view() =~= before.take(i + 1).map_values(mark) + before.skip(
            i + 1,
        ));
    }
    assert(store.sessions.deep_view() =~= before.map_values(mark));
    proof {
        reveal_strlit("");
    }
    assert(""@ =~= Seq::empty());
    vec_push(
        &mut store.events,
        new_event(seq, "", now, "device_disconnected", Some(device_id.to_string())),
    );
    affected_session_ids
}

} // verus!
