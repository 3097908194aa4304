//! Who is sent what: deliveries to browsers and devices, and broadcasts.
use crate::duplicate::Duplicate;
use crate::protocol::{
    BrowserReplyModel, ClientMessageModel, ClientToServerMessage, DeviceStatusMessage,
    ServerMessageModel, ServerToBrowserMessage, ServerToClientMessage,
};
use crate::relay_server::session_helpers::{
    current_session_snapshot, pending_resume_commands, session_summary_visible_to_user,
    session_visibility_change, SessionVisibilityChange,
};
use crate::relay_server::session_helpers;
use crate::relay_server::state::{
    finish, AppState, BrowserModel, ClientAuthConfig, ClientAuthModel, Delivery, DeliveryModel,
    PendingModel, PendingPermission, RelayError, RelayErrorModel, ServerModel, SessionModel, Step,
    StepModel,
};
use crate::relay_server::state;
use crate::relay_state::{PersistedModel, PersistedRelaySession};
use crate::seqs::{vec_empty, vec_push};
use crate::seqs;
use crate::string_map::StringMap;
use crate::string_map;
use crate::text::{chars, from_chars, join4, number_string, same};
use crate::text;
use vstd::prelude::*;

verus! {

pub const RELAY_CLOSE_REASON_CLIENT_HELLO_INVALID: &'static str =
    "relay.protocol.client_hello_invalid";

pub const RELAY_CLOSE_REASON_CLIENT_AUTH_REJECTED: &'static str =
    "relay.auth.client_token_rejected";

pub const RELAY_CLOSE_REASON_BROWSER_JSON_INVALID: &'static str =
    "relay.protocol.browser_json_invalid";

pub const RELAY_CLOSE_REASON_BROWSER_BINARY_UNSUPPORTED: &'static str =
    "relay.protocol.browser_binary_unsupported";

// ---------------------------------------------------------------------------
// Single deliveries
// ---------------------------------------------------------------------------

/// A delivery that must reach a browser, which has to be connected.
pub open spec fn to_browser(
    server: ServerModel,
    browser_id: Seq<char>,
    message: BrowserReplyModel,
) -> Result<DeliveryModel, RelayErrorModel> {
    if string_map::holds(server.browsers, browser_id) {
        Ok(DeliveryModel::Browser { browser_id, message, required: true })
    } else {
        Err(RelayErrorModel::BrowserOffline { browser_id })
    }
}

/// A delivery that must reach a device, which has to be connected.
pub open spec fn to_client(
    server: ServerModel,
    device_id: Seq<char>,
    message: ServerMessageModel,
) -> Result<DeliveryModel, RelayErrorModel> {
    if server.devices.contains(device_id) {
        Ok(DeliveryModel::Client { device_id, message, required: true })
    } else {
        Err(RelayErrorModel::DeviceNotConnected { device_id })
    }
}

/// The end of the work on a message: deliveries, and one more that may be impossible.
pub open spec fn ending_with(
    deliveries: Seq<DeliveryModel>,
    last: Result<DeliveryModel, RelayErrorModel>,
) -> StepModel {
    match last {
        Ok(delivery) => state::finished(deliveries.push(delivery), None),
        Err(error) => state::finished(deliveries, Some(error)),
    }
}

pub(crate) fn end_with(deliveries: Vec<Delivery>, last: Result<Delivery, RelayError>) -> (r: Step)
    ensures
        r.deep_view() == ending_with(deliveries.deep_view(), state::result_model(last)),
{
    let mut deliveries = deliveries;
    match last {
        Ok(delivery) => {
            vec_push(&mut deliveries, delivery);
            finish(deliveries, None)
        },
        Err(error) => finish(deliveries, Some(error)),
    }
}

impl AppState {
    pub fn send_to_browser(&self, browser_id: &str, message: ServerToBrowserMessage) -> (r: Result<
        Delivery,
        RelayError,
    >)
        ensures
            state::result_model(r) == to_browser(
                self.deep_view(),
                browser_id@,
                message.deep_view(),
            ),
    {
        if self.browsers.contains_key(browser_id) {
            Ok(Delivery::Browser { browser_id: browser_id.to_string(), message, required: true })
        } else {
            Err(RelayError::BrowserOffline { browser_id: browser_id.to_string() })
        }
    }

    pub fn send_to_client(&self, device_id: &str, message: ServerToClientMessage) -> (r: Result<
        Delivery,
        RelayError,
    >)
        ensures
            state::result_model(r) == to_client(self.deep_view(), device_id@, message.deep_view()),
    {
        if self.devices.contains(device_id) {
            Ok(Delivery::Client { device_id: device_id.to_string(), message, required: true })
        } else {
            Err(RelayError::DeviceNotConnected { device_id: device_id.to_string() })
        }
    }

    pub fn ensure_device_connected(&self, device_id: &str) -> (r: Result<(), RelayError>)
        ensures
            r is Ok <==> self.deep_view().devices.contains(device_id@),
            match r {
                Ok(_) => true,
                Err(error) => error.deep_view() == (RelayErrorModel::DeviceNotConnected {
                    device_id: device_id@,
                }),
            },
    {
        if self.devices.contains(device_id) {
            Ok(())
        } else {
            Err(RelayError::DeviceNotConnected { device_id: device_id.to_string() })
        }
    }
}

/// The browser that has a session.
pub open spec fn active_browser(
    sessions: Seq<(Seq<char>, SessionModel)>,
    session_id: Seq<char>,
) -> Option<Seq<char>> {
    match string_map::lookup(sessions, session_id) {
        Some(session) => if session.browser_id.len() == 0 {
            None
        } else {
            Some(session.browser_id)
        },
        None => None,
    }
}

/// A delivery that must reach the browser that has a session.
pub open spec fn to_session(
    server: ServerModel,
    session_id: Seq<char>,
    message: BrowserReplyModel,
) -> Result<DeliveryModel, RelayErrorModel> {
    match active_browser(server.sessions, session_id) {
        Some(browser_id) => to_browser(server, browser_id, message),
        None => Err(RelayErrorModel::UnknownSession { session_id }),
    }
}

pub(crate) fn is_empty_text(text: &str) -> (r: bool)
    ensures
        r == (text@.len() == 0),
{
    proof {
        reveal_strlit("");
    }
    assert(text@.len() == 0 <==> text@ =~= ""@);
    same(text, "")
}

impl AppState {
    pub fn active_browser_for_session(&self, session_id: &str) -> (r: Option<String>)
        ensures
            r.deep_view() == active_browser(self.deep_view().sessions, session_id@),
    {
        match self.sessions.get(session_id) {
            Some(session) => if is_empty_text(session.browser_id.as_str()) {
                None
            } else {
                Some(session.browser_id.clone())
            },
            None => None,
        }
    }

    pub fn route_session_message(&self, session_id: &str, message: ServerToBrowserMessage) -> (r:
        Result<Delivery, RelayError>)
        ensures
            state::result_model(r) == to_session(
                self.deep_view(),
                session_id@,
                message.deep_view(),
            ),
    {
        match self.active_browser_for_session(session_id) {
            Some(browser_id) => self.send_to_browser(browser_id.as_str(), message),
            None => Err(RelayError::UnknownSession { session_id: session_id.to_string() }),
        }
    }
}

// ---------------------------------------------------------------------------
// Broadcasts
// ---------------------------------------------------------------------------

/// A delivery to one of many browsers, which may fail without consequence.
pub open spec fn offer(browser_id: Seq<char>, message: BrowserReplyModel) -> DeliveryModel {
    DeliveryModel::Browser { browser_id, message, required: false }
}

/// What a user is sent of a change to a session; none where it does not concern them.
pub open spec fn delta_message(
    previous: Option<PersistedModel>,
    current: Option<PersistedModel>,
    user_id: Seq<char>,
) -> Option<BrowserReplyModel> {
    match session_helpers::visibility_change(previous, current, user_id) {
        SessionVisibilityChange::Updated => Some(
            BrowserReplyModel::SessionUpdated { session: current.unwrap().summary },
        ),
        SessionVisibilityChange::Removed => Some(
            BrowserReplyModel::SessionRemoved {
                session_id: match current {
                    Some(session) => session.summary.session_id,
                    None => previous.unwrap().summary.session_id,
                },
            },
        ),
        SessionVisibilityChange::Unchanged => None,
    }
}

/// What the browsers are sent of a change to a session.
pub open spec fn delta_deliveries(
    browsers: Seq<(Seq<char>, BrowserModel)>,
    previous: Option<PersistedModel>,
    current: Option<PersistedModel>,
) -> Seq<DeliveryModel>
    decreases browsers.len(),
{
    if browsers.len() == 0 {
        Seq::empty()
    } else {
        let rest = delta_deliveries(browsers.drop_last(), previous, current);
        match delta_message(previous, current, browsers.last().1.user_id) {
            Some(message) => rest.push(offer(browsers.last().0, message)),
            None => rest,
        }
    }
}

/// A change to a session, where there is a session.
pub open spec fn session_delta(
    server: ServerModel,
    previous: Option<PersistedModel>,
    current: Option<PersistedModel>,
) -> Result<Seq<DeliveryModel>, RelayErrorModel> {
    if previous is None && current is None {
        Err(RelayErrorModel::NoSessionInDelta)
    } else {
        Ok(delta_deliveries(server.browsers, previous, current))
    }
}

/// What the browsers are sent of a session as the store has it.
pub open spec fn session_update(
    server: ServerModel,
    previous: Option<PersistedModel>,
    session_id: Seq<char>,
) -> Result<Seq<DeliveryModel>, RelayErrorModel> {
    match session_helpers::current_session(server.store, session_id) {
        Ok(session) => Ok(delta_deliveries(server.browsers, previous, Some(session))),
        Err(error) => Err(error),
    }
}

/// What the browsers whose users see a session are sent when it is closed.
pub open spec fn closed_deliveries(
    browsers: Seq<(Seq<char>, BrowserModel)>,
    session: PersistedModel,
    session_id: Seq<char>,
) -> Seq<DeliveryModel>
    decreases browsers.len(),
{
    if browsers.len() == 0 {
        Seq::empty()
    } else {
        let rest = closed_deliveries(browsers.drop_last(), session, session_id);
        if session_helpers::visible_to(session, browsers.last().1.user_id) {
            rest.push(offer(browsers.last().0, BrowserReplyModel::SessionClosed { session_id }))
        } else {
            rest
        }
    }
}

pub open spec fn session_closed_broadcast(server: ServerModel, session_id: Seq<char>) -> Result<
    Seq<DeliveryModel>,
    RelayErrorModel,
> {
    match session_helpers::current_session(server.store, session_id) {
        Ok(session) => Ok(closed_deliveries(server.browsers, session, session_id)),
        Err(error) => Err(error),
    }
}

/// One message to every browser.
pub open spec fn to_all(server: ServerModel, message: BrowserReplyModel) -> Seq<DeliveryModel> {
    server.browsers.map_values(|browser: (Seq<char>, BrowserModel)| offer(browser.0, message))
}

impl AppState {
    /// Tells each browser of a change to a session, as far as its user may see it.
    pub fn broadcast_session_delta(
        &self,
        previous: Option<&PersistedRelaySession>,
        current: Option<&PersistedRelaySession>,
    ) -> (r: Result<Vec<Delivery>, RelayError>)
        ensures
            state::result_model(r) == session_delta(
                self.deep_view(),
                session_helpers::optional_model(previous),
                session_helpers::optional_model(current),
            ),
    {
        let session_id = match current {
            Some(session) => session.summary.session_id.clone(),
            None => match previous {
                Some(session) => session.summary.session_id.clone(),
                None => return Err(RelayError::NoSessionInDelta),
            },
        };
        let ghost all = self.browsers.deep_view();
        let ghost before = session_helpers::optional_model(previous);
        let ghost after = session_helpers::optional_model(current);
        let mut deliveries: Vec<Delivery> = vec_empty();
        let n: usize = self.browsers.len();
        assert(all.take(0) =~= Seq::empty());
        for i in 0..n
            invariant
                n == all.len(),
                all == self.browsers.deep_view(),
                before == session_helpers::optional_model(previous),
                after == session_helpers::optional_model(current),
                session_id@ == match after {
                    Some(session) => session.summary.session_id,
                    None => before.unwrap().summary.session_id,
                },
                deliveries.deep_view() == delta_deliveries(all.take(i as int), before, after),
        {
            assert(all.take(i + 1).drop_last() == all.take(i as int));
            assert(all.take(i + 1).last() == all[i as int]);
            let user_id = &self.browsers.value_at(i).user_id;
            let message = match session_visibility_change(previous, current, user_id.as_str()) {
                SessionVisibilityChange::Updated => match current {
                    Some(session) => Some(
                        ServerToBrowserMessage::SessionUpdated {
                            session: session.summary.duplicate(),
                        },
                    ),
                    None => None,
                },
                SessionVisibilityChange::Removed => Some(
                    ServerToBrowserMessage::SessionRemoved { session_id: session_id.clone() },
                ),
                SessionVisibilityChange::Unchanged => None,
            };
            assert(message.deep_view() == delta_message(before, after, user_id@));
            match message {
                Some(message) => {
                    let browser_id = self.browsers.key_at(i).clone();
                    vec_push(
                        &mut deliveries,
                        Delivery::Browser { browser_id, message, required: false },
                    );
                },
                None => {},
            }
        }
        assert(all.take(all.len() as int) == all);
        Ok(deliveries)
    }

    /// Tells the browsers whose users see a session that it is closed.
    pub fn broadcast_session_closed(&self, session_id: &str) -> (r: Result<
        Vec<Delivery>,
        RelayError,
    >)
        ensures
            state::result_model(r) == session_closed_broadcast(self.deep_view(), session_id@),
    {
        let session = match current_session_snapshot(&self.store, session_id) {
            Ok(session) => session,
            Err(error) => return Err(error),
        };
        let ghost all = self.browsers.deep_view();
        let mut deliveries: Vec<Delivery> = vec_empty();
        let n: usize = self.browsers.len();
        assert(all.take(0) =~= Seq::empty());
        for i in 0..n
            invariant
                n == all.len(),
                all == self.browsers.deep_view(),
                deliveries.deep_view() == closed_deliveries(
                    all.take(i as int),
                    session.deep_view(),
                    session_id@,
                ),
        {
            assert(all.take(i + 1).drop_last() == all.take(i as int));
            assert(all.take(i + 1).last() == all[i as int]);
            if session_summary_visible_to_user(
                &session,
                self.browsers.value_at(i).user_id.as_str(),
            ) {
                let message = ServerToBrowserMessage::SessionClosed {
                    session_id: session_id.to_string(),
                };
                let browser_id = self.browsers.key_at(i).clone();
                vec_push(
                    &mut deliveries,
                    Delivery::Browser { browser_id, message, required: false },
                );
            }
        }
        assert(all.take(all.len() as int) == all);
        Ok(deliveries)
    }

    /// Tells the browsers of a session as the store has it.
    pub fn broadcast_session_updated(&self, session_id: &str) -> (r: Result<
        Vec<Delivery>,
        RelayError,
    >)
        ensures
            state::result_model(r) == session_update(self.deep_view(), None, session_id@),
    {
        match current_session_snapshot(&self.store, session_id) {
            Ok(current) => self.broadcast_session_delta(None, Some(&current)),
            Err(error) => Err(error),
        }
    }

    /// Tells the browsers of a session as the store has it, and those whose
    /// users have lost it that it is gone.
    pub fn broadcast_session_visibility_transition(
        &self,
        previous: &PersistedRelaySession,
        session_id: &str,
    ) -> (r: Result<Vec<Delivery>, RelayError>)
        ensures
            state::result_model(r) == session_update(
                self.deep_view(),
                Some(previous.deep_view()),
                session_id@,
            ),
    {
        match current_session_snapshot(&self.store, session_id) {
            Ok(current) => self.broadcast_session_delta(Some(previous), Some(&current)),
            Err(error) => Err(error),
        }
    }

    /// Sends one message to every browser.
    fn broadcast(&self, message: &ServerToBrowserMessage) -> (r: Vec<Delivery>)
        ensures
            r.deep_view() == to_all(self.deep_view(), message.deep_view()),
    {
        let ghost all = self.browsers.deep_view();
        let ghost whole = to_all(self.deep_view(), message.deep_view());
        let mut deliveries: Vec<Delivery> = vec_empty();
        let n: usize = self.browsers.len();
        for i in 0..n
            invariant
                n == all.len(),
                all == self.browsers.deep_view(),
                whole == to_all(self.deep_view(), message.deep_view()),
                deliveries.deep_view() == whole.take(i as int),
        {
            let ghost done = deliveries.deep_view();
            let browser_id = self.browsers.key_at(i).clone();
            let delivery = Delivery::Browser {
                browser_id,
                message: message.duplicate(),
                required: false,
            };
            assert(delivery.deep_view() == whole[i as int]);
            vec_push(&mut deliveries, delivery);
            assert(done.push(whole[i as int]) =~= whole.take(i + 1));
        }
        assert(whole.take(whole.len() as int) == whole);
        deliveries
    }

    pub fn broadcast_device_status(&self, device: &DeviceStatusMessage) -> (r: Vec<Delivery>)
        ensures
            r.deep_view() == to_all(
                self.deep_view(),
                BrowserReplyModel::DeviceStatus { device: device.deep_view() },
            ),
    {
        self.broadcast(&ServerToBrowserMessage::DeviceStatus { device: device.duplicate() })
    }

    pub fn broadcast_info(&self, message: String) -> (r: Vec<Delivery>)
        ensures
            r.deep_view() == to_all(
                self.deep_view(),
                BrowserReplyModel::Info { message: message@ },
            ),
    {
        self.broadcast(&ServerToBrowserMessage::Info { message })
    }
}

// ---------------------------------------------------------------------------
// Resuming a device's sessions
// ---------------------------------------------------------------------------

/// Commands that must reach a device.
pub open spec fn commands_to(device_id: Seq<char>, commands: Seq<ServerMessageModel>) -> Seq<
    DeliveryModel,
> {
    commands.map_values(
        |message: ServerMessageModel| DeliveryModel::Client { device_id, message, required: true },
    )
}

/// The commands that resume a device's sessions, which has to be connected
/// where there are any.
pub open spec fn resumption(server: ServerModel, device_id: Seq<char>) -> Result<
    Seq<DeliveryModel>,
    RelayErrorModel,
> {
    let commands = session_helpers::resume_commands(server.store.sessions, device_id);
    if commands.len() == 0 || server.devices.contains(device_id) {
        Ok(commands_to(device_id, commands))
    } else {
        Err(RelayErrorModel::DeviceNotConnected { device_id })
    }
}

impl AppState {
    pub fn resume_device_sessions(&self, device_id: &str) -> (r: Result<Vec<Delivery>, RelayError>)
        ensures
            state::result_model(r) == resumption(self.deep_view(), device_id@),
    {
        let commands = pending_resume_commands(&self.store, device_id);
        let ghost all = commands.deep_view();
        let ghost whole = commands_to(device_id@, all);
        let mut deliveries: Vec<Delivery> = vec_empty();
        for i in 0..commands.len()
            invariant
                all == commands.deep_view(),
                all == session_helpers::resume_commands(
                    self.deep_view().store.sessions,
                    device_id@,
                ),
                whole == commands_to(device_id@, all),
                i > 0 ==> self.deep_view().devices.contains(device_id@),
                deliveries.deep_view() == whole.take(i as int),
        {
            let ghost done = deliveries.deep_view();
            match self.send_to_client(device_id, commands[i].duplicate()) {
                Ok(delivery) => {
                    assert(delivery.deep_view() == whole[i as int]);
                    vec_push(&mut deliveries, delivery);
                    assert(done.push(whole[i as int]) =~= whole.take(i + 1));
                },
                Err(error) => return Err(error),
            }
        }
        assert(whole.take(whole.len() as int) == whole);
        Ok(deliveries)
    }
}

// ---------------------------------------------------------------------------
// Pending permissions
// ---------------------------------------------------------------------------

/// The requests that do not concern a session.
pub open spec fn without_session(
    permissions: Seq<(Seq<char>, PendingModel)>,
    session_id: Seq<char>,
) -> Seq<(Seq<char>, PendingModel)> {
    permissions.filter(
        |entry: (Seq<char>, PendingModel)| entry.1.session_id != Some(session_id),
    )
}

/// The requests that a browser was not asked.
pub open spec fn without_browser(
    permissions: Seq<(Seq<char>, PendingModel)>,
    browser_id: Seq<char>,
) -> Seq<(Seq<char>, PendingModel)> {
    permissions.filter(|entry: (Seq<char>, PendingModel)| entry.1.browser_id != browser_id)
}

/// The requests that a device did not make.
pub open spec fn without_device(
    permissions: Seq<(Seq<char>, PendingModel)>,
    device_id: Seq<char>,
) -> Seq<(Seq<char>, PendingModel)> {
    permissions.filter(|entry: (Seq<char>, PendingModel)| entry.1.device_id != device_id)
}

/// Which of the pending requests to drop.
pub(crate) enum Dropped<'a> {
    OfSession(&'a str),
    OfBrowser(&'a str),
    OfDevice(&'a str),
}

pub(crate) open spec fn remain(
    permissions: Seq<(Seq<char>, PendingModel)>,
    dropped: Dropped,
) -> Seq<(Seq<char>, PendingModel)> {
    match dropped {
        Dropped::OfSession(id) => without_session(permissions, id@),
        Dropped::OfBrowser(id) => without_browser(permissions, id@),
        Dropped::OfDevice(id) => without_device(permissions, id@),
    }
}

pub(crate) open spec fn remains(dropped: Dropped) -> spec_fn((Seq<char>, PendingModel)) -> bool {
    match dropped {
        Dropped::OfSession(id) => |entry: (Seq<char>, PendingModel)|
            entry.1.session_id != Some(id@),
        Dropped::OfBrowser(id) => |entry: (Seq<char>, PendingModel)| entry.1.browser_id != id@,
        Dropped::OfDevice(id) => |entry: (Seq<char>, PendingModel)| entry.1.device_id != id@,
    }
}

fn is_dropped(pending: &PendingPermission, dropped: &Dropped) -> (r: bool)
    ensures
        forall|key: Seq<char>| r == !#[trigger] remains(*dropped)((key, pending.deep_view())),
{
    match dropped {
        Dropped::OfSession(id) => match &pending.session_id {
            Some(session_id) => same(session_id.as_str(), id),
            None => false,
        },
        Dropped::OfBrowser(id) => same(pending.browser_id.as_str(), id),
        Dropped::OfDevice(id) => same(pending.device_id.as_str(), id),
    }
}

pub(crate) fn drop_permissions(permissions: &mut StringMap<PendingPermission>, dropped: &Dropped)
    ensures
        final(permissions).deep_view() == remain(old(permissions).deep_view(), *dropped),
{
    let ghost all = permissions.deep_view();
    let ghost kept = remains(*dropped);
    let mut out: usize = 0;
    let n: usize = permissions.len();
    proof {
        seqs::lemma_filter_start(all, kept);
        assert(all.take(0).filter(kept) + all.skip(0) =~= all);
    }
    for i in 0..n
        invariant
            n == all.len(),
            out <= i,
            kept == remains(*dropped),
            out == all.take(i as int).filter(kept).len(),
            permissions.deep_view() == all.take(i as int).filter(kept) + all.skip(i as int),
    {
        proof {
            seqs::lemma_filter_step(all, kept, i as int);
        }
        let ghost before = permissions.deep_view();
        assert(before[out as int] == all[i as int]);
        let pending = permissions.value_at(out);
        let gone = is_dropped(pending, dropped);
        assert(all[i as int] == (all[i as int].0, pending.deep_view()));
        assert(gone == !remains(*dropped)((all[i as int].0, pending.deep_view())));
        if gone {
            permissions.remove_at(out);
            assert(before.remove(out as int) =~= all.take(i as int).filter(kept) + all.skip(i + 1));
        } else {
            out = out + 1;
            assert(before =~= all.take(i + 1).filter(kept) + all.skip(i + 1));
        }
    }
    assert(permissions.deep_view() =~= all.filter(kept));
}

// ---------------------------------------------------------------------------
// Kinds of messages
// ---------------------------------------------------------------------------

pub open spec fn client_kind(message: ClientMessageModel) -> Seq<char> {
    match message {
        ClientMessageModel::Hello { .. } => "hello"@,
        ClientMessageModel::Ready { .. } => "ready"@,
        ClientMessageModel::Info { .. } => "info"@,
        ClientMessageModel::SessionCreated { .. } => "session_created"@,
        ClientMessageModel::SessionResumed { .. } => "session_resumed"@,
        ClientMessageModel::SessionResumeFailed { .. } => "session_resume_failed"@,
        ClientMessageModel::OutputChunk { .. } => "output_chunk"@,
        ClientMessageModel::PromptFinished { .. } => "prompt_finished"@,
        ClientMessageModel::PermissionRequested { .. } => "permission_requested"@,
        ClientMessageModel::Error { .. } => "error"@,
    }
}

pub fn client_message_kind(message: &ClientToServerMessage) -> (r: &'static str)
    ensures
        r@ == client_kind(message.deep_view()),
{
    match message {
        ClientToServerMessage::Hello { .. } => "hello",
        ClientToServerMessage::Ready { .. } => "ready",
        ClientToServerMessage::Info { .. } => "info",
        ClientToServerMessage::SessionCreated { .. } => "session_created",
        ClientToServerMessage::SessionResumed { .. } => "session_resumed",
        ClientToServerMessage::SessionResumeFailed { .. } => "session_resume_failed",
        ClientToServerMessage::OutputChunk { .. } => "output_chunk",
        ClientToServerMessage::PromptFinished { .. } => "prompt_finished",
        ClientToServerMessage::PermissionRequested { .. } => "permission_requested",
        ClientToServerMessage::Error { .. } => "error",
    }
}

pub open spec fn server_kind(message: ServerMessageModel) -> Seq<char> {
    match message {
        ServerMessageModel::CreateSession { .. } => "create_session"@,
        ServerMessageModel::ResumeSession { .. } => "resume_session"@,
        ServerMessageModel::Prompt { .. } => "prompt"@,
        ServerMessageModel::ResolvePermission { .. } => "resolve_permission"@,
        ServerMessageModel::CancelSession { .. } => "cancel_session"@,
        ServerMessageModel::Ping => "ping"@,
        ServerMessageModel::Shutdown => "shutdown"@,
    }
}

pub fn server_message_kind(message: &ServerToClientMessage) -> (r: &'static str)
    ensures
        r@ == server_kind(message.deep_view()),
{
    match message {
        ServerToClientMessage::CreateSession { .. } => "create_session",
        ServerToClientMessage::ResumeSession { .. } => "resume_session",
        ServerToClientMessage::Prompt { .. } => "prompt",
        ServerToClientMessage::ResolvePermission { .. } => "resolve_permission",
        ServerToClientMessage::CancelSession { .. } => "cancel_session",
        ServerToClientMessage::Ping => "ping",
        ServerToClientMessage::Shutdown => "shutdown",
    }
}

// ---------------------------------------------------------------------------
// Texts for the log
// ---------------------------------------------------------------------------

/// What the frame that closed a connection says.
pub fn close_frame_summary(frame: Option<(u16, &str)>) -> (r: String)
    ensures
        r@ == match frame {
            Some((code, reason)) => "code="@ + text::decimal(code as nat) + " reason="@ + reason@,
            None => "none"@,
        },
{
    match frame {
        Some((code, reason)) => join4(
            "code=",
            number_string(code as u64).as_str(),
            " reason=",
            reason,
        ),
        None => "none".to_string(),
    }
}

/// A text with every line break written as a backslash and the letter `n`.
pub open spec fn on_one_line(text: Seq<char>) -> Seq<char>
    decreases text.len(),
{
    if text.len() == 0 {
        Seq::empty()
    } else if text.last() == '\n' {
        on_one_line(text.drop_last()) + seq!['\\', 'n']
    } else {
        on_one_line(text.drop_last()).push(text.last())
    }
}

/// The beginning of a text, with dots where it is cut off, on one line.
pub open spec fn shortened(text: Seq<char>, max_chars: nat) -> Seq<char> {
    if text.len() <= max_chars {
        on_one_line(text)
    } else {
        on_one_line(text.take(max_chars as int)) + seq!['.', '.', '.']
    }
}

pub fn truncate_for_log(text: &str, max_chars: usize) -> (r: String)
    ensures
        r@ == shortened(text@, max_chars as nat),
{
    let all = chars(text);
    let n: usize = if all.len() <= max_chars {
        all.len()
    } else {
        max_chars
    };
    let mut out: Vec<char> = Vec::new();
    assert(text@.take(0) =~= Seq::empty());
    for i in 0..n
        invariant
            n <= all@.len(),
            all@ == text@,
            out@ == on_one_line(text@.take(i as int)),
    {
        assert(text@.take(i + 1).drop_last() == text@.take(i as int));
        let c = all[i];
        let ghost before = out@;
        if c == '\n' {
            out.push('\\');
            out.push('n');
            assert(out@ =~= before + seq!['\\', 'n']);
        } else {
            out.push(c);
        }
    }
    assert(text@.take(text@.len() as int) == text@);
    if n < all.len() {
        let ghost before = out@;
        out.push('.');
        out.push('.');
        out.push('.');
        assert(out@ =~= before + seq!['.', '.', '.']);
    }
    from_chars(out.as_slice())
}

// ---------------------------------------------------------------------------
// Client tokens
// ---------------------------------------------------------------------------

/// A token is allowed unless it is revoked; where tokens are listed, it has to
/// be among them.
pub open spec fn token_allowed(auth: ClientAuthModel, token: Seq<char>) -> bool {
    !auth.revoked_tokens.contains(token) && (auth.accepted_tokens.len() == 0
        || auth.accepted_tokens.contains(token))
}

pub fn is_client_token_allowed(auth: &ClientAuthConfig, token: &str) -> (r: bool)
    ensures
        r == token_allowed(auth.deep_view(), token@),
{
    if auth.revoked_tokens.contains(token) {
        return false;
    }
    if auth.accepted_tokens.is_empty() {
        return true;
    }
    auth.accepted_tokens.contains(token)
}

} // verus!
