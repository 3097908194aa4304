//! What browsers and logs are told, word for word where words are passed on.
use crate::protocol::{
    BrowserReplyModel, BrowserToServerMessage, ClientMessageModel, ClientToServerMessage,
    DeviceModel, ServerMessageModel, SummaryModel,
};
use crate::relay_server::auth::AuthRefusal;
use crate::relay_server::auth;
use crate::relay_server::browser_messages;
use crate::relay_server::connections;
use crate::relay_server::request_laws;
use crate::relay_server::session_helpers;
use crate::relay_server::session_laws;
use crate::relay_server::sockets::{Frame, FrameAction};
use crate::relay_server::sockets;
use crate::relay_server::state::{ClientAuthModel, DeliveryModel, RelayErrorModel, ServerModel};
use crate::relay_server::state;
use crate::string_map;
use crate::text;
use crate::text_laws;
use vstd::prelude::*;

verus! {

/// An error that is about something names it, by the id that was given.
pub proof fn law_errors_name_what_they_are_about(id: Seq<char>, other: Seq<char>)
    ensures
        state::error_text(RelayErrorModel::UnknownSession { session_id: id })
            == "未知 relay session: "@ + id,
        state::error_text(RelayErrorModel::UnknownPermission { request_id: id })
            == "未知 permission request: "@ + id,
        state::error_text(RelayErrorModel::UnknownDevice { device_id: id }) == "未知 device: "@
            + id,
        state::error_text(
            RelayErrorModel::UnknownWorkspace { device_id: id, workspace_id: other },
        ) == "device `"@ + id + "` 不存在 workspace `"@ + other + "`"@,
        state::error_text(RelayErrorModel::DeviceNotConnected { device_id: id })
            == "device 未连接: "@ + id,
        state::error_text(RelayErrorModel::BrowserOffline { browser_id: id })
            == "browser 已离线: "@ + id,
        state::error_text(RelayErrorModel::NotSaved { message: id }) == id,
{
}

/// The other errors say what was wrong with the request.
pub proof fn law_errors_say_what_was_wrong()
    ensures
        state::error_text(RelayErrorModel::SessionForbidden) == "当前用户无权访问该 session"@,
        state::error_text(RelayErrorModel::SessionOfOtherBrowser)
            == "当前 browser 无权访问该 session"@,
        state::error_text(RelayErrorModel::PromptAfterClose)
            == "session 已关闭，不能再发送 prompt"@,
        state::error_text(RelayErrorModel::DeleteBeforeClose) == "只能删除已关闭的 session"@,
        state::error_text(RelayErrorModel::PermissionOfOtherBrowser)
            == "当前 browser 无权响应该 permission request"@,
        state::error_text(RelayErrorModel::BrowserChannelClosed) == "browser channel 已关闭"@,
        state::error_text(RelayErrorModel::ClientChannelClosed) == "client channel 已关闭"@,
        state::error_text(RelayErrorModel::NoSessionInDelta) == "session delta 缺少 session"@,
{
}

/// The work ends where a delivery fails that has to be made, with the channel
/// that was closed; it goes on where one fails that was only offered.
pub proof fn law_only_required_deliveries_end_the_work(delivery: DeliveryModel)
    ensures
        delivery matches DeliveryModel::Browser { required, .. } ==> state::delivery_failure(
            delivery,
        ) == if required {
            Some(RelayErrorModel::BrowserChannelClosed)
        } else {
            None
        },
        delivery matches DeliveryModel::Client { required, .. } ==> state::delivery_failure(
            delivery,
        ) == if required {
            Some(RelayErrorModel::ClientChannelClosed)
        } else {
            None
        },
{
}

/// A browser that has just connected is offered the devices and the sessions of
/// its user: every device as it is stored, and every session that the user may
/// see, the last changed first.
pub proof fn law_new_browser_is_shown_everything(
    server: ServerModel,
    browser_id: Seq<char>,
    user_id: Seq<char>,
    j: int,
)
    requires
        string_map::holds(server.browsers, browser_id),
        0 <= j < server.store.sessions.len(),
    ensures
        ({
            let shown = sockets::as_offer(browser_messages::device_list(server, browser_id));
            &&& shown.len() == 1
            &&& shown[0] matches DeliveryModel::Browser {
                browser_id: to,
                message: BrowserReplyModel::DeviceList { devices },
                required: false,
            }
            &&& to == browser_id
            &&& devices.len() == server.store.devices.len()
            &&& forall|i: int|
                0 <= i < devices.len() ==> #[trigger] devices[i] == server.store.devices[i].1
        }),
        ({
            let shown = sockets::as_offer(
                browser_messages::session_list(server, browser_id, user_id),
            );
            let stored = server.store.sessions[j].1;
            &&& shown.len() == 1
            &&& shown[0] matches DeliveryModel::Browser {
                browser_id: to,
                message: BrowserReplyModel::SessionList { sessions },
                required: false,
            }
            &&& to == browser_id
            &&& request_laws::may_see(stored.summary.owner_user_id, user_id)
                ==> sessions.contains(stored.summary)
            &&& forall|i: int|
                0 <= i < sessions.len() ==> request_laws::may_see(
                    (#[trigger] sessions[i]).owner_user_id,
                    user_id,
                ) && is_stored(server, sessions[i])
            &&& forall|i: int, k: int|
                0 <= i <= k < sessions.len() ==> (#[trigger] sessions[i]).updated_at >= (
                #[trigger] sessions[k]).updated_at
        }),
{
    let list = browser_messages::visible_sessions(server.store.sessions, user_id);
    session_laws::law_session_list_is_for_the_user(server.store.sessions, user_id);
    if request_laws::may_see(server.store.sessions[j].1.summary.owner_user_id, user_id) {
        assert(session_helpers::visible_to(server.store.sessions[j].1, user_id));
    }
    assert forall|i: int| 0 <= i < list.len() implies request_laws::may_see(
        (#[trigger] list[i]).owner_user_id,
        user_id,
    ) && is_stored(server, list[i]) by {
        assert(session_laws::sums_up_a_visible_one(server.store.sessions, user_id, list[i]));
        let k = choose|k: int|
            0 <= k < server.store.sessions.len() && session_helpers::visible_to(
                #[trigger] server.store.sessions[k].1,
                user_id,
            ) && server.store.sessions[k].1.summary == list[i];
        assert(server.store.sessions[k].1.summary == list[i]);
    }
}

/// A summary is that of a session in the store.
pub open spec fn is_stored(server: ServerModel, summary: SummaryModel) -> bool {
    exists|k: int|
        0 <= k < server.store.sessions.len() && (#[trigger] server.store.sessions[k]).1.summary
            == summary
}

/// What is too long for the log is cut off after as many characters as fit, and
/// shown as cut off; what is not is left whole. Nothing in the log breaks a line.
pub proof fn law_log_lines_are_kept_short(words: Seq<char>, max_chars: nat)
    requires
        !words.contains('\n'),
    ensures
        words.len() <= max_chars ==> connections::shortened(words, max_chars) == words,
        words.len() > max_chars ==> connections::shortened(words, max_chars) == words.take(
            max_chars as int,
        ) + seq!['.', '.', '.'],
{
    lemma_one_line(words);
    if words.len() > max_chars {
        let front = words.take(max_chars as int);
        assert forall|i: int| 0 <= i < front.len() implies front[i] != '\n' by {
            assert(words.contains(words[i]));
        }
        lemma_one_line(front);
    }
}

proof fn lemma_one_line(words: Seq<char>)
    requires
        !words.contains('\n'),
    ensures
        connections::on_one_line(words) == words,
    decreases words.len(),
{
    if words.len() > 0 {
        assert(words.contains(words.last()));
        let rest = words.drop_last();
        assert forall|i: int| 0 <= i < rest.len() implies rest[i] != '\n' by {
            assert(words.contains(words[i]));
        }
        lemma_one_line(rest);
        assert(rest.push(words.last()) =~= words);
    }
}

/// Line breaks are written as a backslash and an `n`, in their places.
pub proof fn law_line_breaks_are_written_out(front: Seq<char>, back: Seq<char>)
    ensures
        connections::on_one_line(front.push('\n') + back) == connections::on_one_line(front)
            + seq!['\\', 'n'] + connections::on_one_line(back),
        !connections::on_one_line(front).contains('\n'),
    decreases front.len() + back.len(),
{
    let s = front.push('\n') + back;
    let broken = connections::on_one_line(front) + seq!['\\', 'n'];
    if back.len() == 0 {
        assert(s =~= front.push('\n'));
        assert(s.drop_last() =~= front);
        assert(broken + connections::on_one_line(back) =~= broken);
    } else {
        let rest = back.drop_last();
        law_line_breaks_are_written_out(front, rest);
        assert(s.last() == back.last());
        assert(s.drop_last() =~= front.push('\n') + rest);
        assert(connections::on_one_line(s) =~= broken + connections::on_one_line(back));
    }
    lemma_no_breaks(front);
}

proof fn lemma_no_breaks(words: Seq<char>)
    ensures
        !connections::on_one_line(words).contains('\n'),
    decreases words.len(),
{
    let line = connections::on_one_line(words);
    if words.len() > 0 {
        lemma_no_breaks(words.drop_last());
        let rest = connections::on_one_line(words.drop_last());
        if line.contains('\n') {
            let i = choose|i: int| 0 <= i < line.len() && line[i] == '\n';
            if i < rest.len() {
                assert(rest[i] == '\n');
            }
        }
    }
}

/// A connection is closed with its code and its reason in the log, where there
/// are any.
pub proof fn law_close_is_summed_up(code: u16, reason: String)
    ensures
        sockets::close_summary(Some((code, reason))) == "code="@ + text::decimal(code as nat)
            + " reason="@ + reason@,
        sockets::close_summary(None) == "none"@,
{
}

/// A message on a connection is worked on, a ping answered; the end of the
/// connection is the end of the work. A device may send what cannot be read, a
/// browser may not.
pub proof fn law_frames_are_acted_on(
    message: ClientToServerMessage,
    request: BrowserToServerMessage,
    error: String,
    len: usize,
    handled: FrameAction<ClientToServerMessage>,
    asked: FrameAction<BrowserToServerMessage>,
    skipped: FrameAction<ClientToServerMessage>,
    refused: FrameAction<BrowserToServerMessage>,
    unsupported: FrameAction<BrowserToServerMessage>,
    pinged: FrameAction<BrowserToServerMessage>,
)
    requires
        call_ensures(sockets::client_frame_action, (Frame::Message { message },), handled),
        call_ensures(sockets::browser_frame_action, (Frame::Message { message: request },), asked),
        call_ensures(sockets::client_frame_action, (Frame::Malformed { error },), skipped),
        call_ensures(sockets::browser_frame_action, (Frame::Malformed { error },), refused),
        call_ensures(sockets::browser_frame_action, (Frame::Binary { len },), unsupported),
        call_ensures(sockets::browser_frame_action, (Frame::Ping,), pinged),
    ensures
        handled == (FrameAction::Handle { message }),
        asked == (FrameAction::Handle { message: request }),
        skipped is Skip,
        refused matches FrameAction::Leave { close: Some((code, _)), .. } && code == 1007,
        unsupported matches FrameAction::Leave { close: Some((code, _)), .. } && code == 1003,
        pinged is AnswerPing,
{
}

/// The log says of a device that is turned away, or let in, who it is and how long
/// its token is, but never the token.
pub proof fn law_notes_keep_the_token_secret(
    tokens: ClientAuthModel,
    device: DeviceModel,
    token: Seq<char>,
    other: Seq<char>,
)
    requires
        token.len() == other.len(),
        !text_laws::all_spaces(token),
        !text_laws::all_spaces(other),
    ensures
        sockets::rejection_note(tokens, device.device_id, token) == sockets::rejection_note(
            tokens,
            device.device_id,
            other,
        ),
        sockets::admission_note(device, token) == sockets::admission_note(device, other),
        sockets::rejection_note(tokens, device.device_id, token) == "reject client `"@
            + device.device_id + "` token_state="@ + "set"@ + " token_len="@ + text::decimal(
            token.len(),
        ) + " accepted_token_count="@ + text::decimal(tokens.accepted_tokens.len())
            + " revoked_token_count="@ + text::decimal(tokens.revoked_tokens.len()),
        sockets::admission_note(device, token) == "authenticated device_id="@ + device.device_id
            + " device_name="@ + device.device_name + " workspace_count="@ + text::decimal(
            device.workspaces.len(),
        ) + " auth_token="@ + "set"@ + " token_len="@ + text::decimal(token.len()),
{
    lemma_not_blank(token);
    lemma_not_blank(other);
}

proof fn lemma_not_blank(words: Seq<char>)
    requires
        !text_laws::all_spaces(words),
    ensures
        text::trim(words).len() > 0,
{
    if text::trim(words).len() == 0 {
        let start = text_laws::law_trimming_takes_off_spaces(words);
        assert forall|i: int| 0 <= i < words.len() implies text::is_space(
            #[trigger] words[i],
        ) by {
            if i < start {
                assert(words.take(start)[i] == words[i]);
            } else {
                assert(words.skip(start)[i - start] == words[i]);
            }
        }
    }
}

/// A request that is turned away is told why.
pub proof fn law_refusals_say_why()
    ensures
        auth::refusal_text(AuthRefusal::OriginMissing) == "browser origin header missing"@,
        auth::refusal_text(AuthRefusal::OriginInvalid) == "browser origin header invalid"@,
        auth::refusal_text(AuthRefusal::OriginNotAllowed) == "browser origin not allowed"@,
        auth::refusal_text(AuthRefusal::LoginMissing) == "browser login session missing"@,
        auth::refusal_text(AuthRefusal::LoginInvalid) == "browser login session invalid"@,
        auth::refusal_text(AuthRefusal::LoginExpired) == "browser login session expired"@,
{
}

/// The log calls each message by its kind.
pub proof fn law_messages_are_called_by_their_kind(
    report: ClientMessageModel,
    command: ServerMessageModel,
)
    ensures
        connections::client_kind(report) == match report {
            ClientMessageModel::Hello { .. } => "hello"@,
            ClientMessageModel::Ready { .. } => "ready"@,
            ClientMessageModel::Info { .. } => "info"@,
            ClientMessageModel::SessionCreated { .. } => "session_created"@,
            ClientMessageModel::SessionResumed { .. } => "session_resumed"@,
            ClientMessageModel::SessionResumeFailed { .. } => "session_resume_failed"@,
            ClientMessageModel::OutputChunk { .. } => "output_chunk"@,
            ClientMessageModel::PromptFinished { .. } => "prompt_finished"@,
            ClientMessageModel::PermissionRequested { .. } => "permission_requested"@,
            ClientMessageModel::Error { .. } => "error"@,
        },
        connections::server_kind(command) == match command {
            ServerMessageModel::CreateSession { .. } => "create_session"@,
            ServerMessageModel::ResumeSession { .. } => "resume_session"@,
            ServerMessageModel::Prompt { .. } => "prompt"@,
            ServerMessageModel::ResolvePermission { .. } => "resolve_permission"@,
            ServerMessageModel::CancelSession { .. } => "cancel_session"@,
            ServerMessageModel::Ping => "ping"@,
            ServerMessageModel::Shutdown => "shutdown"@,
        },
{
}

} // verus!
