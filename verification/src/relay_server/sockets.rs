//! The life of a connection: how it is opened, what its frames mean, and what
//! its end leaves behind.
use crate::duplicate::Duplicate;
use crate::protocol::{
    BrowserReplyModel, BrowserToServerMessage, ClientMessageModel, ClientToServerMessage,
    DeviceModel, DeviceStatusMessage, ServerToBrowserMessage,
};
use crate::relay_server::browser_messages;
use crate::relay_server::connections::{
    client_message_kind, close_frame_summary, drop_permissions, is_client_token_allowed,
    is_empty_text, Dropped, RELAY_CLOSE_REASON_BROWSER_BINARY_UNSUPPORTED,
    RELAY_CLOSE_REASON_BROWSER_JSON_INVALID, RELAY_CLOSE_REASON_CLIENT_AUTH_REJECTED,
    RELAY_CLOSE_REASON_CLIENT_HELLO_INVALID,
};
use crate::relay_server::connections;
use crate::relay_server::session_helpers::mark_device_disconnected;
use crate::relay_server::session_helpers;
use crate::relay_server::state::{
    finish, AppState, BrowserConnection, BrowserModel, ClientAuthConfig, ClientAuthModel, Delivery,
    DeliveryModel, FollowUp, FollowUpModel, RelayError, RelayErrorModel, ServerModel, SessionModel, Step,
    StepModel,
};
use crate::relay_server::state;
use crate::relay_state::StoreModel;
use crate::seqs::{vec_append, vec_empty, vec_push};
use crate::seqs;
use crate::string_map;
use crate::text::{chars, is_blank, join2, join3, join4, join5, number_string, same};
use crate::text;
use vstd::prelude::*;

verus! {

/// The peer broke the protocol.
pub const CLOSE_CODE_PROTOCOL: u16 = 1002;

/// The peer sent a kind of frame that is not supported.
pub const CLOSE_CODE_UNSUPPORTED: u16 = 1003;

/// The peer sent a message that makes no sense.
pub const CLOSE_CODE_INVALID: u16 = 1007;

/// The peer is not allowed in.
pub const CLOSE_CODE_POLICY: u16 = 1008;

// ---------------------------------------------------------------------------
// Frames
// ---------------------------------------------------------------------------

/// What came in on a connection.
#[derive(Debug, Clone)]
pub enum Frame<M> {
    /// A text that is a message.
    Message { message: M },
    /// A text that is no message, and why.
    Malformed { error: String },
    Ping,
    Pong,
    /// The peer closes the connection, with a code and a reason where it gives them.
    Close { frame: Option<(u16, String)> },
    Binary { len: usize },
    Failed { error: String },
    /// Nothing more will come.
    Ended,
}

/// What to do about a frame.
#[derive(Debug, Clone)]
pub enum FrameAction<M> {
    Handle { message: M },
    AnswerPing,
    Skip,
    /// Leave the connection, after closing it with a code and a reason where
    /// they are given. The text says why, for the log.
    Leave { close: Option<(u16, &'static str)>, why: String },
}

/// What the frame that closed a connection says.
pub open spec fn close_summary(frame: Option<(u16, String)>) -> Seq<char> {
    match frame {
        Some((code, reason)) => "code="@ + text::decimal(code as nat) + " reason="@ + reason@,
        None => "none"@,
    }
}

fn summarize(frame: &Option<(u16, String)>) -> (r: String)
    ensures
        r@ == close_summary(*frame),
{
    match frame {
        Some((code, reason)) => close_frame_summary(Some((*code, reason.as_str()))),
        None => close_frame_summary(None),
    }
}

/// What a frame from a home client that is connected asks for.
pub fn client_frame_action(frame: Frame<ClientToServerMessage>) -> (r: FrameAction<
    ClientToServerMessage,
>)
    ensures
        match frame {
            Frame::Message { message } => r == (FrameAction::Handle { message }),
            Frame::Malformed { .. } | Frame::Pong | Frame::Binary { .. } => r
                == FrameAction::<ClientToServerMessage>::Skip,
            Frame::Ping => r == FrameAction::<ClientToServerMessage>::AnswerPing,
            Frame::Close { frame } => r matches FrameAction::Leave { close, why } && close is None
                && why@ == "close_frame: "@ + close_summary(frame),
            Frame::Failed { error } => r matches FrameAction::Leave { close, why } && close is None
                && why@ == "ws_error: "@ + error@,
            Frame::Ended => r matches FrameAction::Leave { close, why } && close is None && why@
                == "stream_ended"@,
        },
{
    match frame {
        Frame::Message { message } => FrameAction::Handle { message },
        Frame::Malformed { .. } => FrameAction::Skip,
        Frame::Ping => FrameAction::AnswerPing,
        Frame::Pong => FrameAction::Skip,
        Frame::Binary { .. } => FrameAction::Skip,
        Frame::Close { frame } => FrameAction::Leave {
            close: None,
            why: join2("close_frame: ", summarize(&frame).as_str()),
        },
        Frame::Failed { error } => FrameAction::Leave {
            close: None,
            why: join2("ws_error: ", error.as_str()),
        },
        Frame::Ended => FrameAction::Leave { close: None, why: "stream_ended".to_string() },
    }
}

/// What a frame from a browser asks for.
pub fn browser_frame_action(frame: Frame<BrowserToServerMessage>) -> (r: FrameAction<
    BrowserToServerMessage,
>)
    ensures
        match frame {
            Frame::Message { message } => r == (FrameAction::Handle { message }),
            Frame::Malformed { .. } => r matches FrameAction::Leave { close, why } && close == Some(
                (CLOSE_CODE_INVALID, RELAY_CLOSE_REASON_BROWSER_JSON_INVALID),
            ) && why@ == RELAY_CLOSE_REASON_BROWSER_JSON_INVALID@,
            Frame::Pong => r == FrameAction::<BrowserToServerMessage>::Skip,
            Frame::Ping => r == FrameAction::<BrowserToServerMessage>::AnswerPing,
            Frame::Binary { .. } => r matches FrameAction::Leave { close, why } && close == Some(
                (CLOSE_CODE_UNSUPPORTED, RELAY_CLOSE_REASON_BROWSER_BINARY_UNSUPPORTED),
            ) && why@ == RELAY_CLOSE_REASON_BROWSER_BINARY_UNSUPPORTED@,
            Frame::Close { frame } => r matches FrameAction::Leave { close, why } && close is None
                && why@ == "close_frame: "@ + close_summary(frame),
            Frame::Failed { error } => r matches FrameAction::Leave { close, why } && close is None
                && why@ == "ws_error: "@ + error@,
            Frame::Ended => r matches FrameAction::Leave { close, why } && close is None && why@
                == "stream_ended"@,
        },
{
    match frame {
        Frame::Message { message } => FrameAction::Handle { message },
        Frame::Malformed { .. } => FrameAction::Leave {
            close: Some((CLOSE_CODE_INVALID, RELAY_CLOSE_REASON_BROWSER_JSON_INVALID)),
            why: RELAY_CLOSE_REASON_BROWSER_JSON_INVALID.to_string(),
        },
        Frame::Ping => FrameAction::AnswerPing,
        Frame::Pong => FrameAction::Skip,
        Frame::Binary { .. } => FrameAction::Leave {
            close: Some((CLOSE_CODE_UNSUPPORTED, RELAY_CLOSE_REASON_BROWSER_BINARY_UNSUPPORTED)),
            why: RELAY_CLOSE_REASON_BROWSER_BINARY_UNSUPPORTED.to_string(),
        },
        Frame::Close { frame } => FrameAction::Leave {
            close: None,
            why: join2("close_frame: ", summarize(&frame).as_str()),
        },
        Frame::Failed { error } => FrameAction::Leave {
            close: None,
            why: join2("ws_error: ", error.as_str()),
        },
        Frame::Ended => FrameAction::Leave { close: None, why: "stream_ended".to_string() },
    }
}

// ---------------------------------------------------------------------------
// The greeting of a home client
// ---------------------------------------------------------------------------

/// A home client that has said who it is.
#[derive(Debug, Clone)]
pub struct ClientHello {
    pub device: DeviceStatusMessage,
    pub auth_token: String,
}

/// Why a frame is no greeting.
pub open spec fn hello_flaw(frame: Frame<ClientToServerMessage>) -> Seq<char> {
    match frame {
        Frame::Message { message } => "client 第一个消息必须是 hello，收到 "@
            + connections::client_kind(message.deep_view()),
        Frame::Malformed { .. } => "解析 client hello 失败"@,
        Frame::Ping | Frame::Pong => ""@,
        Frame::Close { frame } => "client 在 hello 前断开连接 ("@ + close_summary(frame) + ")"@,
        Frame::Binary { len } => "client hello 不支持 binary 消息 (bytes="@ + text::decimal(
            len as nat,
        ) + ")"@,
        Frame::Failed { error } => "读取 client hello 失败: "@ + error@,
        Frame::Ended => "client 在发送 hello 前断开连接"@,
    }
}

/// Reads a home client's first frames: nothing yet from the frames that keep a
/// connection alive, else who it is, or why it is turned away.
pub fn read_client_hello(frame: Frame<ClientToServerMessage>) -> (r: Option<
    Result<ClientHello, String>,
>)
    ensures
        match frame {
            Frame::Message { message } => match message.deep_view() {
                ClientMessageModel::Hello {
                    device_id,
                    device_name,
                    workspaces,
                    auth_token,
                    ..
                } => r matches Some(Ok(hello)) && hello.auth_token@ == auth_token
                    && hello.device.deep_view() == (DeviceModel {
                    device_id,
                    device_name,
                    connected: true,
                    workspaces,
                }),
                _ => r matches Some(Err(why)) && why@ == hello_flaw(frame),
            },
            Frame::Ping | Frame::Pong => r is None,
            _ => r matches Some(Err(why)) && why@ == hello_flaw(frame),
        },
{
    match frame {
        Frame::Message { message } => {
            let kind = client_message_kind(&message);
            match message {
                ClientToServerMessage::Hello {
                    device_id,
                    device_name,
                    workspaces,
                    auth_token,
                    ..
                } => Some(
                    Ok(
                        ClientHello {
                            device: DeviceStatusMessage {
                                device_id,
                                device_name,
                                connected: true,
                                workspaces,
                            },
                            auth_token,
                        },
                    ),
                ),
                _ => Some(Err(join2("client 第一个消息必须是 hello，收到 ", kind))),
            }
        },
        Frame::Malformed { .. } => Some(Err("解析 client hello 失败".to_string())),
        Frame::Ping => None,
        Frame::Pong => None,
        Frame::Close { frame } => Some(
            Err(join3("client 在 hello 前断开连接 (", summarize(&frame).as_str(), ")")),
        ),
        Frame::Binary { len } => Some(
            Err(
                join3(
                    "client hello 不支持 binary 消息 (bytes=",
                    number_string(len as u64).as_str(),
                    ")",
                ),
            ),
        ),
        Frame::Failed { error } => Some(Err(join2("读取 client hello 失败: ", error.as_str()))),
        Frame::Ended => Some(Err("client 在发送 hello 前断开连接".to_string())),
    }
}

/// What is said of a token in the log: never the token itself.
pub open spec fn token_state(token: Seq<char>) -> Seq<char> {
    if text::trim(token).len() == 0 {
        "empty"@
    } else {
        "set"@
    }
}

/// What the log says of a device whose token is not allowed.
pub open spec fn rejection_note(
    auth: ClientAuthModel,
    device_id: Seq<char>,
    token: Seq<char>,
) -> Seq<char> {
    "reject client `"@ + device_id + "` token_state="@ + token_state(token) + " token_len="@
        + text::decimal(token.len()) + " accepted_token_count="@ + text::decimal(
        auth.accepted_tokens.len(),
    ) + " revoked_token_count="@ + text::decimal(auth.revoked_tokens.len())
}

/// What the log says of a device that is let in.
pub open spec fn admission_note(device: DeviceModel, token: Seq<char>) -> Seq<char> {
    "authenticated device_id="@ + device.device_id + " device_name="@ + device.device_name
        + " workspace_count="@ + text::decimal(device.workspaces.len()) + " auth_token="@
        + token_state(token) + " token_len="@ + text::decimal(token.len())
}

fn describe_token(token: &str) -> (r: &'static str)
    ensures
        r@ == token_state(token@),
{
    if is_blank(token) {
        "empty"
    } else {
        "set"
    }
}

fn rejection(auth: &ClientAuthConfig, device_id: &str, token: &str) -> (r: String)
    ensures
        r@ == rejection_note(auth.deep_view(), device_id@, token@),
{
    let token_len: usize = chars(token).len();
    let who = join4("reject client `", device_id, "` token_state=", describe_token(token));
    let with_len = join3(who.as_str(), " token_len=", number_string(token_len as u64).as_str());
    join5(
        with_len.as_str(),
        " accepted_token_count=",
        number_string(auth.accepted_tokens.len() as u64).as_str(),
        " revoked_token_count=",
        number_string(auth.revoked_tokens.len() as u64).as_str(),
    )
}

fn admission(device: &DeviceStatusMessage, token: &str) -> (r: String)
    ensures
        r@ == admission_note(device.deep_view(), token@),
{
    let token_len: usize = chars(token).len();
    let who = join4(
        "authenticated device_id=",
        device.device_id.as_str(),
        " device_name=",
        device.device_name.as_str(),
    );
    let with_workspaces = join3(
        who.as_str(),
        " workspace_count=",
        number_string(device.workspaces.len() as u64).as_str(),
    );
    join5(
        with_workspaces.as_str(),
        " auth_token=",
        describe_token(token),
        " token_len=",
        number_string(token_len as u64).as_str(),
    )
}

/// How a home client's greeting is answered, and what the log says of it.
#[derive(Debug, Clone)]
pub enum Greeting {
    /// Wait for another frame.
    Await,
    /// Let the device in.
    Admit { device: DeviceStatusMessage, note: String },
    /// Close the connection.
    Refuse { code: u16, reason: &'static str, why: String },
}

/// Answers a home client's greeting: its first message has to be a hello with a
/// token that is allowed.
pub fn greet_client(auth: &ClientAuthConfig, frame: Frame<ClientToServerMessage>) -> (r: Greeting)
    ensures
        match frame {
            Frame::Ping | Frame::Pong => r is Await,
            Frame::Message { message } => match message.deep_view() {
                ClientMessageModel::Hello {
                    device_id,
                    device_name,
                    workspaces,
                    auth_token,
                    ..
                } => if connections::token_allowed(auth.deep_view(), auth_token) {
                    r matches Greeting::Admit { device, note } && device.deep_view() == (
                    DeviceModel { device_id, device_name, connected: true, workspaces }) && note@
                        == admission_note(device.deep_view(), auth_token)
                } else {
                    r matches Greeting::Refuse { code, reason, why } && code == CLOSE_CODE_POLICY
                        && reason == RELAY_CLOSE_REASON_CLIENT_AUTH_REJECTED && why@
                        == rejection_note(auth.deep_view(), device_id, auth_token)
                },
                _ => r matches Greeting::Refuse { code, reason, why } && code
                    == CLOSE_CODE_PROTOCOL && reason == RELAY_CLOSE_REASON_CLIENT_HELLO_INVALID
                    && why@ == hello_flaw(frame),
            },
            _ => r matches Greeting::Refuse { code, reason, why } && code == CLOSE_CODE_PROTOCOL
                && reason == RELAY_CLOSE_REASON_CLIENT_HELLO_INVALID && why@ == hello_flaw(frame),
        },
{
    match read_client_hello(frame) {
        None => Greeting::Await,
        Some(Err(why)) => Greeting::Refuse {
            code: CLOSE_CODE_PROTOCOL,
            reason: RELAY_CLOSE_REASON_CLIENT_HELLO_INVALID,
            why,
        },
        Some(Ok(hello)) => if is_client_token_allowed(auth, hello.auth_token.as_str()) {
            let note = admission(&hello.device, hello.auth_token.as_str());
            Greeting::Admit { device: hello.device, note }
        } else {
            Greeting::Refuse {
                code: CLOSE_CODE_POLICY,
                reason: RELAY_CLOSE_REASON_CLIENT_AUTH_REJECTED,
                why: rejection(
                    auth,
                    hello.device.device_id.as_str(),
                    hello.auth_token.as_str(),
                ),
            }
        },
    }
}

// ---------------------------------------------------------------------------
// Devices come and go
// ---------------------------------------------------------------------------

/// A device that is not connected.
pub open spec fn gone(device: DeviceModel) -> DeviceModel {
    DeviceModel { connected: false, ..device }
}

/// A device connects.
pub open spec fn connect_device_step(server: ServerModel, device: DeviceModel) -> (
    ServerModel,
    StepModel,
) {
    let here = DeviceModel { connected: true, ..device };
    state::updated(
        ServerModel { devices: string_map::with_member(
            server.devices,
            device.device_id,
        ), ..server },
        StoreModel { devices: string_map::put(
            server.store.devices,
            device.device_id,
            here,
        ), ..server.store },
        FollowUpModel::DeviceConnected { device: here },
    )
}

/// A device goes away.
pub open spec fn disconnect_device_step(server: ServerModel, device: DeviceModel) -> (
    ServerModel,
    StepModel,
) {
    state::updated(
        ServerModel { devices: string_map::without_member(
            server.devices,
            device.device_id,
        ), ..server },
        StoreModel {
            devices: string_map::put(server.store.devices, device.device_id, gone(device)),
            ..server.store
        },
        FollowUpModel::DeviceDisconnected { device: gone(device) },
    )
}

/// The browsers that have sessions of a device, once for each session.
pub open spec fn browsers_of_device(
    sessions: Seq<(Seq<char>, SessionModel)>,
    device_id: Seq<char>,
) -> Seq<Seq<char>> {
    sessions.filter(
        |entry: (Seq<char>, SessionModel)|
            entry.1.device_id == device_id && entry.1.browser_id.len() > 0,
    ).map_values(|entry: (Seq<char>, SessionModel)| entry.1.browser_id)
}

/// Once it is stored that a device went away, or could not be, what it asked
/// for is dropped and its sessions are marked.
pub open spec fn device_disconnected_step(server: ServerModel, device: DeviceModel, now: u64) -> (
    ServerModel,
    StepModel,
) {
    state::updated(
        ServerModel {
            next_event_id: state::counted(server.next_event_id),
            permissions: connections::without_device(server.permissions, device.device_id),
            ..server
        },
        session_helpers::device_disconnected(
            server.store,
            device.device_id,
            now,
            server.next_event_id,
        ),
        FollowUpModel::SessionsDisconnected {
            device,
            session_ids: session_helpers::sessions_of_device(
                server.store.sessions,
                device.device_id,
            ),
            browser_ids: browsers_of_device(server.sessions, device.device_id),
        },
    )
}

/// What the browsers are sent of sessions as the store has them; nothing of
/// those that it does not have.
pub open spec fn session_updates(server: ServerModel, session_ids: Seq<Seq<char>>) -> Seq<
    DeliveryModel,
>
    decreases session_ids.len(),
{
    if session_ids.len() == 0 {
        Seq::empty()
    } else {
        session_updates(server, session_ids.drop_last()) + match connections::session_update(
            server,
            None,
            session_ids.last(),
        ) {
            Ok(deliveries) => deliveries,
            Err(_) => Seq::empty(),
        }
    }
}

/// An error for each of some browsers, as far as they are connected.
pub open spec fn error_offers(
    server: ServerModel,
    browser_ids: Seq<Seq<char>>,
    message: Seq<char>,
) -> Seq<DeliveryModel>
    decreases browser_ids.len(),
{
    if browser_ids.len() == 0 {
        Seq::empty()
    } else {
        let rest = error_offers(server, browser_ids.drop_last(), message);
        if string_map::holds(server.browsers, browser_ids.last()) {
            rest.push(
                connections::offer(
                    browser_ids.last(),
                    BrowserReplyModel::Error { session_id: None, message },
                ),
            )
        } else {
            rest
        }
    }
}

/// Once the sessions of a device are stored as disconnected, the browsers hear
/// of them, of the device and that it went away.
pub open spec fn sessions_disconnected_step(
    server: ServerModel,
    device: DeviceModel,
    session_ids: Seq<Seq<char>>,
    browser_ids: Seq<Seq<char>>,
) -> StepModel {
    state::finished(
        session_updates(server, session_ids) + error_offers(
            server,
            browser_ids,
            "device 已断开连接: "@ + device.device_id,
        ) + connections::to_all(server, BrowserReplyModel::DeviceStatus { device }),
        None,
    )
}

impl AppState {
    /// Takes in a device that was let in.
    pub fn connect_device(&mut self, device: DeviceStatusMessage) -> (r: Step)
        ensures
            (final(self).deep_view(), r.deep_view()) == connect_device_step(
                old(self).deep_view(),
                device.deep_view(),
            ),
    {
        let mut device = device;
        device.connected = true;
        self.devices.insert(device.device_id.clone());
        let prior = self.store.events.len();
        self.store.devices.insert(device.device_id.clone(), device.duplicate());
        self.update_store(prior, FollowUp::DeviceConnected { device })
    }

    /// Takes note that a device's connection has ended.
    pub fn disconnect_device(&mut self, device: DeviceStatusMessage) -> (r: Step)
        ensures
            (final(self).deep_view(), r.deep_view()) == disconnect_device_step(
                old(self).deep_view(),
                device.deep_view(),
            ),
    {
        let mut device = device;
        device.connected = false;
        self.devices.remove(device.device_id.as_str());
        let prior = self.store.events.len();
        self.store.devices.insert(device.device_id.clone(), device.duplicate());
        self.update_store(prior, FollowUp::DeviceDisconnected { device })
    }

    fn list_browsers_of_device(&self, device_id: &str) -> (r: Vec<String>)
        ensures
            r.deep_view() == browsers_of_device(self.deep_view().sessions, device_id@),
    {
        let ghost all = self.sessions.deep_view();
        let ghost concerned = |entry: (Seq<char>, SessionModel)|
            entry.1.device_id == device_id@ && entry.1.browser_id.len() > 0;
        let ghost browser = |entry: (Seq<char>, SessionModel)| entry.1.browser_id;
        let mut out: Vec<String> = vec_empty();
        let n: usize = self.sessions.len();
        proof {
            seqs::lemma_filter_start(all, concerned);
        }
        for i in 0..n
            invariant
                n == all.len(),
                all == self.sessions.deep_view(),
                concerned == (|entry: (Seq<char>, SessionModel)|
                    entry.1.device_id == device_id@ && entry.1.browser_id.len() > 0),
                browser == (|entry: (Seq<char>, SessionModel)| entry.1.browser_id),
                out.deep_view() == all.take(i as int).filter(concerned).map_values(browser),
        {
            proof {
                seqs::lemma_filter_step(all, concerned, i as int);
            }
            let session = self.sessions.value_at(i);
            if same(session.device_id.as_str(), device_id) && !is_empty_text(
                session.browser_id.as_str(),
            ) {
                let ghost before = all.take(i as int).filter(concerned);
                vec_push(&mut out, session.browser_id.clone());
                assert(before.push(all[i as int]).map_values(browser) =~= before.map_values(
                    browser,
                ).push(browser(all[i as int])));
            }
        }
        out
    }

    /// Drops what a device asked for and marks its sessions.
    pub(crate) fn cleanup_device(&mut self, device: DeviceStatusMessage, now: u64) -> (r: Step)
        ensures
            (final(self).deep_view(), r.deep_view()) == device_disconnected_step(
                old(self).deep_view(),
                device.deep_view(),
                now,
            ),
    {
        let browser_ids = self.list_browsers_of_device(device.device_id.as_str());
        drop_permissions(&mut self.permissions, &Dropped::OfDevice(device.device_id.as_str()));
        let seq = self.next_event_seq();
        let prior = self.store.events.len();
        let session_ids = mark_device_disconnected(
            &mut self.store,
            device.device_id.as_str(),
            now,
            seq,
        );
        self.update_store(
            prior,
            FollowUp::SessionsDisconnected { device, session_ids, browser_ids },
        )
    }

    pub(crate) fn sessions_disconnected(
        &self,
        device: DeviceStatusMessage,
        session_ids: Vec<String>,
        browser_ids: Vec<String>,
    ) -> (r: Step)
        ensures
            r.deep_view() == sessions_disconnected_step(
                self.deep_view(),
                device.deep_view(),
                session_ids.deep_view(),
                browser_ids.deep_view(),
            ),
    {
        let ghost server = self.deep_view();
        let ghost ids = session_ids.deep_view();
        let mut deliveries: Vec<Delivery> = vec_empty();
        assert(ids.take(0) =~= Seq::empty());
        for i in 0..session_ids.len()
            invariant
                server == self.deep_view(),
                ids == session_ids.deep_view(),
                deliveries.deep_view() == session_updates(server, ids.take(i as int)),
        {
            assert(ids.take(i + 1).drop_last() == ids.take(i as int));
            assert(ids.take(i + 1).last() == session_ids@[i as int]@);
            let ghost done = deliveries.deep_view();
            match self.broadcast_session_updated(session_ids[i].as_str()) {
                Ok(updates) => {
                    vec_append(&mut deliveries, updates);
                },
                Err(_) => {
                    assert(done + Seq::<DeliveryModel>::empty() =~= done);
                },
            }
        }
        assert(ids.take(ids.len() as int) == ids);
        let text = join2("device 已断开连接: ", device.device_id.as_str());
        let ghost ids = browser_ids.deep_view();
        let mut errors: Vec<Delivery> = vec_empty();
        assert(ids.take(0) =~= Seq::empty());
        for i in 0..browser_ids.len()
            invariant
                server == self.deep_view(),
                ids == browser_ids.deep_view(),
                errors.deep_view() == error_offers(server, ids.take(i as int), text@),
        {
            assert(ids.take(i + 1).drop_last() == ids.take(i as int));
            assert(ids.take(i + 1).last() == browser_ids@[i as int]@);
            if self.browsers.contains_key(browser_ids[i].as_str()) {
                let message = ServerToBrowserMessage::Error {
                    session_id: None,
                    message: text.clone(),
                };
                let browser_id = browser_ids[i].clone();
                vec_push(
                    &mut errors,
                    Delivery::Browser { browser_id, message, required: false },
                );
            }
        }
        assert(ids.take(ids.len() as int) == ids);
        vec_append(&mut deliveries, errors);
        vec_append(&mut deliveries, self.broadcast_device_status(&device));
        finish(deliveries, None)
    }
}

// ---------------------------------------------------------------------------
// Browsers come and go
// ---------------------------------------------------------------------------

/// The server with a browser more.
pub open spec fn with_browser(server: ServerModel, user_id: Seq<char>) -> ServerModel {
    ServerModel {
        next_browser_id: state::counted(server.next_browser_id),
        browsers: string_map::put(
            server.browsers,
            "browser-"@ + text::decimal(server.next_browser_id as nat),
            BrowserModel { user_id },
        ),
        ..server
    }
}

/// The server without a browser, and without what it was asked.
pub open spec fn browser_gone(server: ServerModel, browser_id: Seq<char>) -> ServerModel {
    ServerModel {
        browsers: string_map::erase(server.browsers, browser_id),
        permissions: connections::without_browser(server.permissions, browser_id),
        ..server
    }
}

/// A delivery that may fail without consequence, where it is possible at all.
pub open spec fn as_offer(delivery: Result<DeliveryModel, RelayErrorModel>) -> Seq<DeliveryModel> {
    match delivery {
        Ok(DeliveryModel::Browser { browser_id, message, .. }) => seq![connections::offer(
            browser_id,
            message,
        )],
        Ok(DeliveryModel::Client { device_id, message, .. }) => seq![
            DeliveryModel::Client { device_id, message, required: false },
        ],
        Err(_) => Seq::empty(),
    }
}

fn offer_delivery(delivery: Result<Delivery, RelayError>) -> (r: Vec<Delivery>)
    ensures
        r.deep_view() == as_offer(state::result_model(delivery)),
{
    let mut out: Vec<Delivery> = vec_empty();
    match delivery {
        Ok(Delivery::Browser { browser_id, message, .. }) => {
            vec_push(&mut out, Delivery::Browser { browser_id, message, required: false });
        },
        Ok(Delivery::Client { device_id, message, .. }) => {
            vec_push(&mut out, Delivery::Client { device_id, message, required: false });
        },
        Err(_) => {},
    }
    assert(out.deep_view() =~= as_offer(state::result_model(delivery)));
    out
}

impl AppState {
    /// Takes in a browser of an authenticated user: its id, and the lists that
    /// it is sent first.
    pub fn connect_browser(&mut self, user_id: String) -> (r: (String, Vec<Delivery>))
        ensures
            r.0@ == "browser-"@ + text::decimal(old(self).next_browser_id as nat),
            final(self).deep_view() == with_browser(old(self).deep_view(), user_id@),
            r.1.deep_view() == as_offer(
                browser_messages::device_list(final(self).deep_view(), r.0@),
            ) + as_offer(
                browser_messages::session_list(final(self).deep_view(), r.0@, user_id@),
            ),
    {
        let browser_id = self.next_browser_id();
        self.browsers.insert(browser_id.clone(), BrowserConnection { user_id: user_id.clone() });
        let mut deliveries = offer_delivery(self.send_device_list(browser_id.as_str()));
        vec_append(
            &mut deliveries,
            offer_delivery(self.send_session_list(browser_id.as_str(), user_id.as_str())),
        );
        (browser_id, deliveries)
    }

    /// What a browser is sent when its message could not be answered.
    pub fn error_reply(&self, browser_id: &str, error: &RelayError) -> (r: Vec<Delivery>)
        ensures
            r.deep_view() == as_offer(
                connections::to_browser(
                    self.deep_view(),
                    browser_id@,
                    BrowserReplyModel::Error {
                        session_id: None,
                        message: state::error_text(error.deep_view()),
                    },
                ),
            ),
    {
        let message = ServerToBrowserMessage::Error { session_id: None, message: error.message() };
        offer_delivery(self.send_to_browser(browser_id, message))
    }

    /// Takes note that a browser's connection has ended.
    pub fn cleanup_browser(&mut self, browser_id: &str)
        ensures
            final(self).deep_view() == browser_gone(old(self).deep_view(), browser_id@),
    {
        self.browsers.remove(browser_id);
        drop_permissions(&mut self.permissions, &Dropped::OfBrowser(browser_id));
    }
}

} // verus!
