//! The two ways in which the home client is reached: the console, for trying
//! things out, and the relay server.
use crate::config::{RelayTransportConfig, WorkspaceConfig, WorkspaceConfigModel};
use crate::duplicate::Duplicate;
use crate::protocol::{
    ClientMessageModel, ClientToServerMessage, PermissionOptionMessage, PermissionOptionModel,
    ServerMessageModel, ServerToClientMessage, WorkspaceModel, WorkspaceSummaryMessage,
};
use crate::relay_server::sockets::Frame;
use crate::seqs::{vec_empty, vec_push};
use crate::string_map::StringMap;
use crate::string_map;
use crate::text::{
    chars, from_chars, join2, join3, join4, join5, number_string, parse_u64, same,
    slice_after_prefix, slice_next_word, slice_same, slice_trim, same_option,
};
use crate::text;
use crate::types::{
    CommandModel, HomeClientCommand, HomeClientEvent, HomeEventModel, PermissionOptionView,
    WorkspaceView,
};
use vstd::prelude::*;

verus! {

// ---------------------------------------------------------------------------
// The console
// ---------------------------------------------------------------------------

/// Why a line from the console is not understood.
#[derive(Debug, Clone)]
pub enum CommandError {
    UseUsage,
    PermUsage,
    IndexNotNumber,
    IndexOutOfRange { highest: usize },
    UnknownRequest { request_id: String },
    UnknownCommand { text: String },
}

/// What a [`CommandError`] says.
#[verifier::ext_equal]
pub enum CommandErrorModel {
    UseUsage,
    PermUsage,
    IndexNotNumber,
    IndexOutOfRange { highest: usize },
    UnknownRequest { request_id: Seq<char> },
    UnknownCommand { text: Seq<char> },
}

impl DeepView for CommandError {
    type V = CommandErrorModel;

    open spec fn deep_view(&self) -> CommandErrorModel {
        match self {
            CommandError::UseUsage => CommandErrorModel::UseUsage,
            CommandError::PermUsage => CommandErrorModel::PermUsage,
            CommandError::IndexNotNumber => CommandErrorModel::IndexNotNumber,
            CommandError::IndexOutOfRange { highest } => CommandErrorModel::IndexOutOfRange {
                highest: *highest,
            },
            CommandError::UnknownRequest { request_id } => CommandErrorModel::UnknownRequest {
                request_id: request_id@,
            },
            CommandError::UnknownCommand { text } => CommandErrorModel::UnknownCommand {
                text: text@,
            },
        }
    }
}

/// What a line from the console comes to: nothing, a command, or lines to print.
#[derive(Debug, Clone)]
pub enum LocalInput {
    Nothing,
    Command { command: HomeClientCommand },
    Print { lines: Vec<String> },
}

/// What a [`LocalInput`] says.
#[verifier::ext_equal]
pub enum LocalInputModel {
    Nothing,
    Command { command: CommandModel },
    Print { lines: Seq<Seq<char>> },
}

impl DeepView for LocalInput {
    type V = LocalInputModel;

    open spec fn deep_view(&self) -> LocalInputModel {
        match self {
            LocalInput::Nothing => LocalInputModel::Nothing,
            LocalInput::Command { command } => LocalInputModel::Command {
                command: command.deep_view(),
            },
            LocalInput::Print { lines } => LocalInputModel::Print {
                lines: lines.deep_view(),
            },
        }
    }
}

/// Something to write to the console: a line, text within a line, or a line of the error stream.
#[derive(Debug, Clone)]
pub enum ConsoleOutput {
    Line { text: String },
    Inline { text: String },
    ErrorLine { text: String },
}

/// What a [`ConsoleOutput`] says.
#[verifier::ext_equal]
pub enum ConsoleOutputModel {
    Line { text: Seq<char> },
    Inline { text: Seq<char> },
    ErrorLine { text: Seq<char> },
}

impl DeepView for ConsoleOutput {
    type V = ConsoleOutputModel;

    open spec fn deep_view(&self) -> ConsoleOutputModel {
        match self {
            ConsoleOutput::Line { text } => ConsoleOutputModel::Line {
                text: text@,
            },
            ConsoleOutput::Inline { text } => ConsoleOutputModel::Inline {
                text: text@,
            },
            ConsoleOutput::ErrorLine { text } => ConsoleOutputModel::ErrorLine {
                text: text@,
            },
        }
    }
}

/// What the console remembers.
#[derive(Debug, Clone)]
pub struct LocalDebugState {
    pub active_session: Option<String>,
    pub pending_permission_requests: StringMap<usize>,
    pub active_stream_session: Option<String>,
    pub available_workspaces: Vec<WorkspaceView>,
}

/// What a [`LocalDebugState`] says.
#[verifier::ext_equal]
pub struct LocalModel {
    pub active_session: Option<Seq<char>>,
    pub pending_permission_requests: Seq<(Seq<char>, usize)>,
    pub active_stream_session: Option<Seq<char>>,
    pub available_workspaces: Seq<WorkspaceModel>,
}

impl DeepView for LocalDebugState {
    type V = LocalModel;

    open spec fn deep_view(&self) -> LocalModel {
        LocalModel {
            active_session: self.active_session.deep_view(),
            pending_permission_requests: self.pending_permission_requests.deep_view(),
            active_stream_session: self.active_stream_session.deep_view(),
            available_workspaces: self.available_workspaces.deep_view(),
        }
    }
}

impl Default for LocalDebugState {
    fn default() -> (r: Self)
        ensures
            r.deep_view() == (LocalModel {
                active_session: None,
                pending_permission_requests: Seq::empty(),
                active_stream_session: None,
                available_workspaces: Seq::empty(),
            }),
    {
        LocalDebugState {
            active_session: None,
            pending_permission_requests: StringMap::new(),
            active_stream_session: None,
            available_workspaces: vec_empty(),
        }
    }
}

pub open spec fn command_error_text(error: CommandErrorModel) -> Seq<char> {
    match error {
        CommandErrorModel::UseUsage => "用法: /use <session_id>"@,
        CommandErrorModel::PermUsage => "用法: /perm <request_id> <index>"@,
        CommandErrorModel::IndexNotNumber => "permission index 必须是数字"@,
        CommandErrorModel::IndexOutOfRange { highest } => "index 超出范围，当前可选上限为 "@
            + text::decimal(highest as nat),
        CommandErrorModel::UnknownRequest { request_id } =>
            "未找到待处理的 permission request: "@ + request_id,
        CommandErrorModel::UnknownCommand { text } => "未知命令: "@ + text,
    }
}

impl CommandError {
    pub fn message(&self) -> (r: String)
        ensures
            r@ == command_error_text(self.deep_view()),
    {
        match self {
            CommandError::UseUsage => "用法: /use <session_id>".to_string(),
            CommandError::PermUsage => "用法: /perm <request_id> <index>".to_string(),
            CommandError::IndexNotNumber => "permission index 必须是数字".to_string(),
            CommandError::IndexOutOfRange { highest } => join2(
                "index 超出范围，当前可选上限为 ",
                number_string(*highest as u64).as_str(),
            ),
            CommandError::UnknownRequest { request_id } => join2(
                "未找到待处理的 permission request: ",
                request_id.as_str(),
            ),
            CommandError::UnknownCommand { text } => join2("未知命令: ", text.as_str()),
        }
    }
}

/// What is said by the result of reading a line.
pub open spec fn input_result(result: Result<LocalInput, CommandError>) -> Result<
    LocalInputModel,
    CommandErrorModel,
> {
    match result {
        Ok(input) => Ok(input.deep_view()),
        Err(error) => Err(error.deep_view()),
    }
}

/// The commands of the console.
pub open spec fn help() -> Seq<Seq<char>> {
    seq![
        "命令:"@,
        "  /new [workspace_id]     创建新会话，可选指定工作区"@,
        "  /workspaces             查看当前允许的工作区"@,
        "  /use <session_id>       切换当前活跃会话"@,
        "  /perm <id> <index>      响应权限请求"@,
        "  /exit                   退出"@,
        "  其他任意文本会发送到当前会话；若没有会话则自动创建。"@,
    ]
}

pub fn help_lines() -> (r: Vec<String>)
    ensures
        r.deep_view() == help(),
{
    let mut lines: Vec<String> = vec_empty();
    vec_push(&mut lines, "命令:".to_string());
    vec_push(&mut lines, "  /new [workspace_id]     创建新会话，可选指定工作区".to_string());
    vec_push(&mut lines, "  /workspaces             查看当前允许的工作区".to_string());
    vec_push(&mut lines, "  /use <session_id>       切换当前活跃会话".to_string());
    vec_push(&mut lines, "  /perm <id> <index>      响应权限请求".to_string());
    vec_push(&mut lines, "  /exit                   退出".to_string());
    vec_push(
        &mut lines,
        "  其他任意文本会发送到当前会话；若没有会话则自动创建。".to_string(),
    );
    assert(lines.deep_view() =~= help());
    lines
}

/// One workspace in the list of workspaces.
pub open spec fn workspace_line(workspace: WorkspaceModel) -> Seq<char> {
    "  - "@ + workspace.workspace_name + " ("@ + workspace.workspace_id + ")"@
}

/// The list of workspaces.
pub open spec fn workspace_list(workspaces: Seq<WorkspaceModel>) -> Seq<Seq<char>> {
    if workspaces.len() == 0 {
        seq!["[info] 当前没有可用工作区。"@]
    } else {
        seq!["工作区:"@] + workspaces.map_values(
            |workspace: WorkspaceModel| workspace_line(workspace),
        )
    }
}

pub fn workspace_lines(workspaces: &Vec<WorkspaceView>) -> (r: Vec<String>)
    ensures
        r.deep_view() == workspace_list(workspaces.deep_view()),
{
    let mut lines: Vec<String> = vec_empty();
    if workspaces.len() == 0 {
        vec_push(&mut lines, "[info] 当前没有可用工作区。".to_string());
        assert(lines.deep_view() =~= workspace_list(workspaces.deep_view()));
        return lines;
    }
    let ghost whole = workspace_list(workspaces.deep_view());
    vec_push(&mut lines, "工作区:".to_string());
    assert(lines.deep_view() =~= whole.take(1));
    for i in 0..workspaces.len()
        invariant
            workspaces@.len() > 0,
            whole == workspace_list(workspaces.deep_view()),
            lines.deep_view() == whole.take(i + 1),
    {
        let ghost done = lines.deep_view();
        let line = join5(
            "  - ",
            workspaces[i].workspace_name.as_str(),
            " (",
            workspaces[i].workspace_id.as_str(),
            ")",
        );
        assert(whole[i + 1] == workspace_line(workspaces@[i as int].deep_view()));
        vec_push(&mut lines, line);
        assert(done.push(whole[i + 1]) =~= whole.take(i + 2));
    }
    assert(whole.take(whole.len() as int) == whole);
    lines
}

/// An argument, where there is one.
pub open spec fn optional_argument(rest: Seq<char>) -> Option<Seq<char>> {
    if text::trim(rest).len() == 0 {
        None
    } else {
        Some(text::trim(rest))
    }
}

fn parse_optional_arg(rest: &[char]) -> (r: Option<String>)
    ensures
        r.deep_view() == optional_argument(rest@),
{
    let argument = slice_trim(rest);
    if argument.len() == 0 {
        None
    } else {
        Some(from_chars(argument))
    }
}

/// The request and the choice that an answer to a permission request names.
pub open spec fn answer_of(rest: Seq<char>) -> Result<(Seq<char>, usize), CommandErrorModel> {
    match text::next_word(rest) {
        None => Err(CommandErrorModel::PermUsage),
        Some((request_id, rest)) => match text::next_word(rest) {
            None => Err(CommandErrorModel::PermUsage),
            Some((index, _)) => match text::parse_number(index, usize::MAX as nat) {
                None => Err(CommandErrorModel::IndexNotNumber),
                Some(index) => Ok((request_id, index as usize)),
            },
        },
    }
}

fn parse_answer(rest: &[char]) -> (r: Result<(String, usize), CommandError>)
    ensures
        match r {
            Ok((request_id, index)) => answer_of(rest@) == Ok::<_, CommandErrorModel>(
                (request_id@, index),
            ),
            Err(error) => answer_of(rest@) == Err::<(Seq<char>, usize), _>(error.deep_view()),
        },
{
    match slice_next_word(rest) {
        None => Err(CommandError::PermUsage),
        Some((request_id, rest)) => match slice_next_word(rest) {
            None => Err(CommandError::PermUsage),
            Some((index, _)) => match parse_u64(index, usize::MAX as u64) {
                None => Err(CommandError::IndexNotNumber),
                Some(index) => Ok((from_chars(request_id), index as usize)),
            },
        },
    }
}

/// An answer to a permission request: it has to be pending and to offer the choice.
pub open spec fn answer_step(state: LocalModel, rest: Seq<char>) -> (
    LocalModel,
    Result<LocalInputModel, CommandErrorModel>,
) {
    match answer_of(rest) {
        Err(error) => (state, Err(error)),
        Ok((request_id, selected_index)) => match string_map::lookup(
            state.pending_permission_requests,
            request_id,
        ) {
            None => (state, Err(CommandErrorModel::UnknownRequest { request_id })),
            Some(count) => if selected_index >= count {
                (
                    state,
                    Err(CommandErrorModel::IndexOutOfRange { highest: (count - 1) as usize }),
                )
            } else {
                (
                    LocalModel {
                        pending_permission_requests: string_map::erase(
                            state.pending_permission_requests,
                            request_id,
                        ),
                        ..state
                    },
                    Ok(
                        LocalInputModel::Command {
                            command: CommandModel::ResolvePermission {
                                request_id,
                                selected_index,
                            },
                        },
                    ),
                )
            },
        },
    }
}

/// What a line from the console comes to.
pub open spec fn line_step(state: LocalModel, line: Seq<char>) -> (
    LocalModel,
    Result<LocalInputModel, CommandErrorModel>,
) {
    let text = text::trim(line);
    if text.len() == 0 {
        (state, Ok(LocalInputModel::Nothing))
    } else if text == "/exit"@ || text == "/quit"@ {
        (state, Ok(LocalInputModel::Command { command: CommandModel::Exit }))
    } else if text == "/help"@ {
        (state, Ok(LocalInputModel::Print { lines: help() }))
    } else if text == "/workspaces"@ {
        (state, Ok(LocalInputModel::Print { lines: workspace_list(state.available_workspaces) }))
    } else if text::after_prefix(text, "/new"@) is Some {
        (
            state,
            Ok(
                LocalInputModel::Command {
                    command: CommandModel::CreateSession {
                        session_id: None,
                        workspace_id: optional_argument(text::after_prefix(text, "/new"@).unwrap()),
                    },
                },
            ),
        )
    } else if text::after_prefix(text, "/use"@) is Some {
        match optional_argument(text::after_prefix(text, "/use"@).unwrap()) {
            None => (state, Err(CommandErrorModel::UseUsage)),
            Some(session_id) => (
                LocalModel { active_session: Some(session_id), ..state },
                Ok(
                    LocalInputModel::Print {
                        lines: seq!["[info] active session 切换为 "@ + session_id],
                    },
                ),
            ),
        }
    } else if text::after_prefix(text, "/perm"@) is Some {
        answer_step(state, text::after_prefix(text, "/perm"@).unwrap())
    } else if text[0] == '/' {
        (state, Err(CommandErrorModel::UnknownCommand { text }))
    } else {
        (
            state,
            Ok(
                LocalInputModel::Command {
                    command: CommandModel::Prompt {
                        session_id: state.active_session,
                        text: line,
                        create_session_if_missing: true,
                    },
                },
            ),
        )
    }
}

/// Whether a line answers a pending permission request that offers no choice.
/// There is no highest choice to report of such a request.
pub open spec fn answers_empty_request(state: LocalModel, line: Seq<char>) -> bool {
    match text::after_prefix(text::trim(line), "/perm"@) {
        None => false,
        Some(rest) => match answer_of(rest) {
            Err(_) => false,
            Ok((request_id, _)) => string_map::lookup(
                state.pending_permission_requests,
                request_id,
            ) == Some(
                0usize,
            ),
        },
    }
}

impl LocalDebugState {
    /// Whether a line answers a pending permission request that offers no choice.
    pub fn answers_empty_request(&self, line: &str) -> (r: bool)
        ensures
            r == answers_empty_request(self.deep_view(), line@),
    {
        let all = chars(line);
        match slice_after_prefix(slice_trim(all.as_slice()), "/perm") {
            None => false,
            Some(rest) => match parse_answer(rest) {
                Err(_) => false,
                Ok((request_id, _)) => match self.pending_permission_requests.get(
                    request_id.as_str(),
                ) {
                    Some(count) => *count == 0,
                    None => false,
                },
            },
        }
    }

    fn answer(&mut self, rest: &[char]) -> (r: Result<LocalInput, CommandError>)
        requires
            match answer_of(rest@) {
                Err(_) => true,
                Ok((request_id, _)) => string_map::lookup(
                    old(self).deep_view().pending_permission_requests,
                    request_id,
                ) != Some(0usize),
            },
        ensures
            (final(self).deep_view(), input_result(r)) == answer_step(
                old(self).deep_view(),
                rest@,
            ),
    {
        let (request_id, selected_index) = match parse_answer(rest) {
            Err(error) => {
                return Err(error);
            },
            Ok(answer) => answer,
        };
        match self.pending_permission_requests.get(request_id.as_str()) {
            None => Err(CommandError::UnknownRequest { request_id }),
            Some(count) => {
                let count: usize = *count;
                if selected_index >= count {
                    return Err(CommandError::IndexOutOfRange { highest: count - 1 });
                }
                self.pending_permission_requests.remove(request_id.as_str());
                let command = HomeClientCommand::ResolvePermission { request_id, selected_index };
                Ok(LocalInput::Command { command })
            },
        }
    }

    /// Reads a line from the console.
    pub fn parse_command(&mut self, line: &str) -> (r: Result<LocalInput, CommandError>)
        requires
            !answers_empty_request(old(self).deep_view(), line@),
        ensures
            (final(self).deep_view(), input_result(r)) == line_step(old(self).deep_view(), line@),
    {
        let all = chars(line);
        let text = slice_trim(all.as_slice());
        if text.len() == 0 {
            return Ok(LocalInput::Nothing);
        }
        if slice_same(text, "/exit") || slice_same(text, "/quit") {
            return Ok(LocalInput::Command { command: HomeClientCommand::Exit });
        }
        if slice_same(text, "/help") {
            return Ok(LocalInput::Print { lines: help_lines() });
        }
        if slice_same(text, "/workspaces") {
            return Ok(LocalInput::Print { lines: workspace_lines(&self.available_workspaces) });
        }
        match slice_after_prefix(text, "/new") {
            Some(rest) => {
                let command = HomeClientCommand::CreateSession {
                    session_id: None,
                    workspace_id: parse_optional_arg(rest),
                };
                return Ok(LocalInput::Command { command });
            },
            None => {},
        }
        match slice_after_prefix(text, "/use") {
            Some(rest) => {
                return match parse_optional_arg(rest) {
                    None => Err(CommandError::UseUsage),
                    Some(session_id) => {
                        let mut lines: Vec<String> = vec_empty();
                        vec_push(
                            &mut lines,
                            join2("[info] active session 切换为 ", session_id.as_str()),
                        );
                        assert(lines.deep_view() =~= seq![
                            "[info] active session 切换为 "@ + session_id@,
                        ]);
                        self.active_session = Some(session_id);
                        Ok(LocalInput::Print { lines })
                    },
                };
            },
            None => {},
        }
        match slice_after_prefix(text, "/perm") {
            Some(rest) => {
                return self.answer(rest);
            },
            None => {},
        }
        if text[0] == '/' {
            return Err(CommandError::UnknownCommand { text: from_chars(text) });
        }
        let command = HomeClientCommand::Prompt {
            session_id: self.active_session.duplicate(),
            text: line.to_string(),
            create_session_if_missing: true,
        };
        Ok(LocalInput::Command { command })
    }
}

// ---------------------------------------------------------------------------
// What the console shows
// ---------------------------------------------------------------------------

pub open spec fn line_of(text: Seq<char>) -> ConsoleOutputModel {
    ConsoleOutputModel::Line { text }
}

/// One choice in a permission request.
pub open spec fn option_line(option: PermissionOptionModel) -> Seq<char> {
    "  ["@ + text::decimal(option.index as nat) + "] "@ + option.name + " ("@ + option.kind + ")"@
}

/// How a permission request is shown.
pub open spec fn permission_lines(
    request_id: Seq<char>,
    session_id: Option<Seq<char>>,
    options: Seq<PermissionOptionModel>,
) -> Seq<ConsoleOutputModel> {
    seq![
        line_of(
            "\n[permission] request_id="@ + request_id + " session="@ + match session_id {
                Some(session_id) => session_id,
                None => "unknown"@,
            },
        ),
    ] + options.map_values(|option: PermissionOptionModel| line_of(option_line(option))) + seq![
        line_of("  使用 /perm "@ + request_id + " <index> 来选择。"@),
    ]
}

/// What an event changes, and how it is shown on the console.
pub open spec fn event_step(state: LocalModel, event: HomeEventModel) -> (
    LocalModel,
    Seq<ConsoleOutputModel>,
) {
    match event {
        HomeEventModel::Ready { agent_name, workspaces } => (
            LocalModel { available_workspaces: workspaces, ..state },
            seq![line_of("已连接 "@ + agent_name + "。输入 /help 查看命令。"@)] + workspace_list(
                workspaces,
            ).map_values(|line: Seq<char>| line_of(line)),
        ),
        HomeEventModel::Info { message } => (state, seq![line_of("[info] "@ + message)]),
        HomeEventModel::SessionCreated { session_id, workspace_id, workspace_name, .. } => (
            LocalModel { active_session: Some(session_id), ..state },
            seq![
                line_of(
                    "[session] "@ + session_id + " workspace="@ + workspace_name + " ("@
                        + workspace_id + ")"@,
                ),
            ],
        ),
        HomeEventModel::SessionResumed { session_id, .. } => (
            LocalModel { active_session: Some(session_id), ..state },
            seq![line_of("[session] "@ + session_id + " resumed"@)],
        ),
        HomeEventModel::SessionResumeFailed { session_id, message, .. } => (
            state,
            seq![
                ConsoleOutputModel::ErrorLine {
                    text: "[error] session="@ + session_id + " resume 失败: "@ + message,
                },
            ],
        ),
        HomeEventModel::OutputChunk { session_id, text } => (
            LocalModel { active_stream_session: Some(session_id), ..state },
            if state.active_stream_session is Some && state.active_stream_session != Some(
                session_id,
            ) {
                seq![line_of(Seq::empty()), ConsoleOutputModel::Inline { text }]
            } else {
                seq![ConsoleOutputModel::Inline { text }]
            },
        ),
        HomeEventModel::PromptFinished { session_id, stop_reason } => (
            LocalModel { active_stream_session: None, ..state },
            (if state.active_stream_session is Some {
                seq![line_of(Seq::empty())]
            } else {
                Seq::empty()
            }) + (if stop_reason != "EndTurn"@ {
                seq![line_of("[done] session="@ + session_id + " stop_reason="@ + stop_reason)]
            } else {
                Seq::empty()
            }),
        ),
        HomeEventModel::PermissionRequested { request_id, session_id, options } => (
            LocalModel {
                pending_permission_requests: string_map::put(
                    state.pending_permission_requests,
                    request_id,
                    options.len() as usize,
                ),
                ..state
            },
            permission_lines(request_id, session_id, options),
        ),
        HomeEventModel::Error { message } => (
            state,
            seq![ConsoleOutputModel::ErrorLine { text: "[error] "@ + message }],
        ),
    }
}

fn push_line(outputs: &mut Vec<ConsoleOutput>, text: String)
    ensures
        final(outputs).deep_view() == old(outputs).deep_view().push(line_of(text@)),
{
    vec_push(outputs, ConsoleOutput::Line { text });
}

fn show_workspaces(agent_name: &str, workspaces: &Vec<WorkspaceView>) -> (r: Vec<ConsoleOutput>)
    ensures
        r.deep_view() == seq![line_of("已连接 "@ + agent_name@ + "。输入 /help 查看命令。"@)]
            + workspace_list(workspaces.deep_view()).map_values(|line: Seq<char>| line_of(line)),
{
    let mut outputs: Vec<ConsoleOutput> = vec_empty();
    push_line(&mut outputs, join3("已连接 ", agent_name, "。输入 /help 查看命令。"));
    let lines = workspace_lines(workspaces);
    let ghost all = lines.deep_view();
    let ghost first = outputs.deep_view();
    let ghost shown = all.map_values(|line: Seq<char>| line_of(line));
    assert(first =~= seq![line_of("已连接 "@ + agent_name@ + "。输入 /help 查看命令。"@)]);
    assert(first + shown.take(0) =~= first);
    for i in 0..lines.len()
        invariant
            all == lines.deep_view(),
            shown == all.map_values(|line: Seq<char>| line_of(line)),
            outputs.deep_view() == first + shown.take(i as int),
    {
        let ghost done = outputs.deep_view();
        assert(all[i as int] == lines@[i as int]@);
        push_line(&mut outputs, lines[i].clone());
        assert(done.push(shown[i as int]) =~= first + shown.take(i + 1));
    }
    assert(shown.take(shown.len() as int) == shown);
    outputs
}

fn show_permission(
    request_id: &str,
    session_id: &Option<String>,
    options: &Vec<PermissionOptionView>,
) -> (r: Vec<ConsoleOutput>)
    ensures
        r.deep_view() == permission_lines(
            request_id@,
            session_id.deep_view(),
            options.deep_view(),
        ),
{
    let session = match session_id {
        Some(session_id) => session_id.as_str(),
        None => "unknown",
    };
    let mut outputs: Vec<ConsoleOutput> = vec_empty();
    push_line(
        &mut outputs,
        join4("\n[permission] request_id=", request_id, " session=", session),
    );
    let ghost first = outputs.deep_view();
    let ghost all = options.deep_view();
    let ghost shown = all.map_values(|option: PermissionOptionModel| line_of(option_line(option)));
    assert(first + shown.take(0) =~= first);
    for i in 0..options.len()
        invariant
            all == options.deep_view(),
            shown == all.map_values(
                |option: PermissionOptionModel| line_of(option_line(option)),
            ),
            outputs.deep_view() == first + shown.take(i as int),
    {
        let ghost done = outputs.deep_view();
        let option = &options[i];
        let start = join3("  [", number_string(option.index as u64).as_str(), "] ");
        let line = join5(start.as_str(), option.name.as_str(), " (", option.kind.as_str(), ")");
        assert(line@ == option_line(option.deep_view()));
        push_line(&mut outputs, line);
        assert(shown[i as int] == line_of(option_line(options@[i as int].deep_view())));
        assert(done.push(shown[i as int]) =~= first + shown.take(i + 1));
    }
    assert(shown.take(shown.len() as int) == shown);
    push_line(&mut outputs, join3("  使用 /perm ", request_id, " <index> 来选择。"));
    assert(outputs.deep_view() =~= permission_lines(
        request_id@,
        session_id.deep_view(),
        options.deep_view(),
    ));
    outputs
}

impl LocalDebugState {
    /// Takes up an event of the runtime and says what to write to the console.
    pub fn publish_event(&mut self, event: HomeClientEvent) -> (r: Vec<ConsoleOutput>)
        ensures
            (final(self).deep_view(), r.deep_view()) == event_step(
                old(self).deep_view(),
                event.deep_view(),
            ),
    {
        let ghost expected = event_step(self.deep_view(), event.deep_view());
        let mut outputs: Vec<ConsoleOutput> = vec_empty();
        match event {
            HomeClientEvent::Ready { agent_name, workspaces } => {
                outputs = show_workspaces(agent_name.as_str(), &workspaces);
                self.available_workspaces = workspaces;
            },
            HomeClientEvent::Info { message } => {
                push_line(&mut outputs, join2("[info] ", message.as_str()));
            },
            HomeClientEvent::SessionCreated { session_id, workspace_id, workspace_name, .. } => {
                let start = join4(
                    "[session] ",
                    session_id.as_str(),
                    " workspace=",
                    workspace_name.as_str(),
                );
                push_line(
                    &mut outputs,
                    join4(start.as_str(), " (", workspace_id.as_str(), ")"),
                );
                self.active_session = Some(session_id);
            },
            HomeClientEvent::SessionResumed { session_id, .. } => {
                push_line(&mut outputs, join3("[session] ", session_id.as_str(), " resumed"));
                self.active_session = Some(session_id);
            },
            HomeClientEvent::SessionResumeFailed { session_id, message, .. } => {
                let text = join4(
                    "[error] session=",
                    session_id.as_str(),
                    " resume 失败: ",
                    message.as_str(),
                );
                vec_push(&mut outputs, ConsoleOutput::ErrorLine { text });
            },
            HomeClientEvent::OutputChunk { session_id, text } => {
                if self.active_stream_session.is_some() && !same_option(
                    &self.active_stream_session,
                    session_id.as_str(),
                ) {
                    push_line(&mut outputs, String::new());
                }
                self.active_stream_session = Some(session_id);
                vec_push(&mut outputs, ConsoleOutput::Inline { text });
            },
            HomeClientEvent::PromptFinished { session_id, stop_reason } => {
                if self.active_stream_session.is_some() {
                    push_line(&mut outputs, String::new());
                }
                self.active_stream_session = None;
                if !same(stop_reason.as_str(), "EndTurn") {
                    push_line(
                        &mut outputs,
                        join4(
                            "[done] session=",
                            session_id.as_str(),
                            " stop_reason=",
                            stop_reason.as_str(),
                        ),
                    );
                }
            },
            HomeClientEvent::PermissionRequested { request_id, session_id, options } => {
                outputs = show_permission(request_id.as_str(), &session_id, &options);
                self.pending_permission_requests.insert(request_id, options.len());
            },
            HomeClientEvent::Error { message } => {
                vec_push(
                    &mut outputs,
                    ConsoleOutput::ErrorLine { text: join2("[error] ", message.as_str()) },
                );
            },
        }
        assert(outputs.deep_view() =~= expected.1);
        assert(self.deep_view() =~= expected.0);
        outputs
    }
}

// ---------------------------------------------------------------------------
// The relay server
// ---------------------------------------------------------------------------

/// The command that a message from the relay server stands for; none for those
/// that only keep the connection alive.
pub open spec fn command_of(message: ServerMessageModel) -> Option<CommandModel> {
    match message {
        ServerMessageModel::CreateSession { session_id, workspace_id } => Some(
            CommandModel::CreateSession {
                session_id: Some(session_id),
                workspace_id: Some(workspace_id),
            },
        ),
        ServerMessageModel::ResumeSession { session_id, client_session_id, workspace_id } => Some(
            CommandModel::ResumeSession { session_id, client_session_id, workspace_id },
        ),
        ServerMessageModel::Prompt { session_id, text, create_session_if_missing } => Some(
            CommandModel::Prompt { session_id, text, create_session_if_missing },
        ),
        ServerMessageModel::ResolvePermission { request_id, selected_index } => Some(
            CommandModel::ResolvePermission { request_id, selected_index },
        ),
        ServerMessageModel::CancelSession { session_id } => Some(
            CommandModel::CancelSession { session_id },
        ),
        ServerMessageModel::Ping => None,
        ServerMessageModel::Shutdown => Some(CommandModel::Exit),
    }
}

pub fn map_server_message(message: ServerToClientMessage) -> (r: Option<HomeClientCommand>)
    ensures
        r.deep_view() == command_of(message.deep_view()),
{
    match message {
        ServerToClientMessage::CreateSession { session_id, workspace_id } => Some(
            HomeClientCommand::CreateSession {
                session_id: Some(session_id),
                workspace_id: Some(workspace_id),
            },
        ),
        ServerToClientMessage::ResumeSession { session_id, client_session_id, workspace_id } =>
            Some(HomeClientCommand::ResumeSession { session_id, client_session_id, workspace_id }),
        ServerToClientMessage::Prompt { session_id, text, create_session_if_missing } => Some(
            HomeClientCommand::Prompt { session_id, text, create_session_if_missing },
        ),
        ServerToClientMessage::ResolvePermission { request_id, selected_index } => Some(
            HomeClientCommand::ResolvePermission { request_id, selected_index },
        ),
        ServerToClientMessage::CancelSession { session_id } => Some(
            HomeClientCommand::CancelSession { session_id },
        ),
        ServerToClientMessage::Ping => None,
        ServerToClientMessage::Shutdown => Some(HomeClientCommand::Exit),
    }
}

/// The message by which the relay server hears of an event.
pub open spec fn message_of(event: HomeEventModel) -> ClientMessageModel {
    match event {
        HomeEventModel::Ready { agent_name, .. } => ClientMessageModel::Ready { agent_name },
        HomeEventModel::Info { message } => ClientMessageModel::Info { message },
        HomeEventModel::SessionCreated {
            session_id,
            client_session_id,
            workspace_id,
            workspace_name,
        } => ClientMessageModel::SessionCreated {
            session_id,
            client_session_id,
            workspace_id,
            workspace_name,
        },
        HomeEventModel::SessionResumed { session_id, client_session_id } =>
            ClientMessageModel::SessionResumed { session_id, client_session_id },
        HomeEventModel::SessionResumeFailed { session_id, client_session_id, message } =>
            ClientMessageModel::SessionResumeFailed { session_id, client_session_id, message },
        HomeEventModel::OutputChunk { session_id, text } => ClientMessageModel::OutputChunk {
            session_id,
            text,
        },
        HomeEventModel::PromptFinished { session_id, stop_reason } =>
            ClientMessageModel::PromptFinished { session_id, stop_reason },
        HomeEventModel::PermissionRequested { request_id, session_id, options } =>
            ClientMessageModel::PermissionRequested { request_id, session_id, options },
        HomeEventModel::Error { message } => ClientMessageModel::Error { message },
    }
}

fn option_messages(options: Vec<PermissionOptionView>) -> (r: Vec<PermissionOptionMessage>)
    ensures
        r.deep_view() == options.deep_view(),
{
    let ghost all = options.deep_view();
    let mut out: Vec<PermissionOptionMessage> = vec_empty();
    for i in 0..options.len()
        invariant
            all == options.deep_view(),
            out.deep_view() == all.take(i as int),
    {
        let ghost done = out.deep_view();
        let option = &options[i];
        vec_push(
            &mut out,
            PermissionOptionMessage {
                index: option.index,
                name: option.name.clone(),
                kind: option.kind.clone(),
            },
        );
        assert(all[i as int] == option.deep_view());
        assert(done.push(all[i as int]) =~= all.take(i + 1));
    }
    assert(all.take(all.len() as int) == all);
    out
}

pub fn map_home_event(event: HomeClientEvent) -> (r: ClientToServerMessage)
    ensures
        r.deep_view() == message_of(event.deep_view()),
{
    match event {
        HomeClientEvent::Ready { agent_name, .. } => ClientToServerMessage::Ready { agent_name },
        HomeClientEvent::Info { message } => ClientToServerMessage::Info { message },
        HomeClientEvent::SessionCreated {
            session_id,
            client_session_id,
            workspace_id,
            workspace_name,
        } => ClientToServerMessage::SessionCreated {
            session_id,
            client_session_id,
            workspace_id,
            workspace_name,
        },
        HomeClientEvent::SessionResumed { session_id, client_session_id } =>
            ClientToServerMessage::SessionResumed { session_id, client_session_id },
        HomeClientEvent::SessionResumeFailed { session_id, client_session_id, message } =>
            ClientToServerMessage::SessionResumeFailed { session_id, client_session_id, message },
        HomeClientEvent::OutputChunk { session_id, text } => ClientToServerMessage::OutputChunk {
            session_id,
            text,
        },
        HomeClientEvent::PromptFinished { session_id, stop_reason } =>
            ClientToServerMessage::PromptFinished { session_id, stop_reason },
        HomeClientEvent::PermissionRequested { request_id, session_id, options } =>
            ClientToServerMessage::PermissionRequested {
                request_id,
                session_id,
                options: option_messages(options),
            },
        HomeClientEvent::Error { message } => ClientToServerMessage::Error { message },
    }
}

/// The workspaces as the relay server sees them.
pub open spec fn offered(workspaces: Seq<WorkspaceConfigModel>) -> Seq<WorkspaceModel> {
    workspaces.map_values(
        |workspace: WorkspaceConfigModel|
            WorkspaceModel { workspace_id: workspace.id, workspace_name: workspace.name },
    )
}

fn workspace_messages(workspaces: &Vec<WorkspaceConfig>) -> (r: Vec<WorkspaceSummaryMessage>)
    ensures
        r.deep_view() == offered(workspaces.deep_view()),
{
    let ghost all = offered(workspaces.deep_view());
    let mut out: Vec<WorkspaceSummaryMessage> = vec_empty();
    for i in 0..workspaces.len()
        invariant
            all == offered(workspaces.deep_view()),
            out.deep_view() == all.take(i as int),
    {
        let ghost done = out.deep_view();
        let message = WorkspaceSummaryMessage {
            workspace_id: workspaces[i].id.clone(),
            workspace_name: workspaces[i].name.clone(),
        };
        assert(all[i as int] == message.deep_view());
        vec_push(&mut out, message);
        assert(done.push(all[i as int]) =~= all.take(i + 1));
    }
    assert(all.take(all.len() as int) == all);
    out
}

/// What the home client can do.
pub open spec fn capabilities() -> Seq<Seq<char>> {
    seq!["acp"@, "session-create"@, "prompt-stream"@, "permission-roundtrip"@]
}

fn capability_list() -> (r: Vec<String>)
    ensures
        r.deep_view() == capabilities(),
{
    let mut out: Vec<String> = vec_empty();
    vec_push(&mut out, "acp".to_string());
    vec_push(&mut out, "session-create".to_string());
    vec_push(&mut out, "prompt-stream".to_string());
    vec_push(&mut out, "permission-roundtrip".to_string());
    assert(out.deep_view() =~= capabilities());
    out
}

/// The first message to the relay server.
pub fn hello_message(
    config: &RelayTransportConfig,
    workspaces: &Vec<WorkspaceConfig>,
    client_version: &str,
) -> (r: ClientToServerMessage)
    ensures
        r.deep_view() == (ClientMessageModel::Hello {
            device_id: config.device_id@,
            device_name: config.device_name@,
            client_version: client_version@,
            capabilities: capabilities(),
            workspaces: offered(workspaces.deep_view()),
            auth_token: config.auth_token@,
        }),
{
    ClientToServerMessage::Hello {
        device_id: config.device_id.clone(),
        device_name: config.device_name.clone(),
        client_version: client_version.to_string(),
        capabilities: capability_list(),
        workspaces: workspace_messages(workspaces),
        auth_token: config.auth_token.clone(),
    }
}

/// What to do about a frame from the relay server: the message to answer with,
/// the command to hand on, whether to answer a ping, and whether to leave.
#[derive(Debug, Clone)]
pub struct RelayReaction {
    pub reply: Option<ClientToServerMessage>,
    pub command: Option<HomeClientCommand>,
    pub answer_ping: bool,
    pub leave: bool,
}

/// What a [`RelayReaction`] says.
#[verifier::ext_equal]
pub struct ReactionModel {
    pub reply: Option<ClientMessageModel>,
    pub command: Option<CommandModel>,
    pub answer_ping: bool,
    pub leave: bool,
}

impl DeepView for RelayReaction {
    type V = ReactionModel;

    open spec fn deep_view(&self) -> ReactionModel {
        ReactionModel {
            reply: self.reply.deep_view(),
            command: self.command.deep_view(),
            answer_ping: self.answer_ping,
            leave: self.leave,
        }
    }
}

pub open spec fn no_reaction() -> ReactionModel {
    ReactionModel { reply: None, command: None, answer_ping: false, leave: false }
}

/// What a frame from the relay server asks for.
pub open spec fn reaction_to(frame: Frame<ServerToClientMessage>) -> ReactionModel {
    match frame {
        Frame::Message { message } => ReactionModel {
            command: command_of(message.deep_view()),
            ..no_reaction()
        },
        Frame::Malformed { error } => ReactionModel {
            reply: Some(
                ClientMessageModel::Error { message: "无法解析 server 消息: "@ + error@ },
            ),
            ..no_reaction()
        },
        Frame::Ping => ReactionModel { answer_ping: true, ..no_reaction() },
        Frame::Pong => no_reaction(),
        Frame::Close { .. } => ReactionModel {
            command: Some(CommandModel::Exit),
            leave: true,
            ..no_reaction()
        },
        Frame::Binary { .. } => ReactionModel {
            reply: Some(
                ClientMessageModel::Error {
                    message: "当前 relay transport 不支持 binary websocket 消息"@,
                },
            ),
            ..no_reaction()
        },
        Frame::Failed { error } => ReactionModel {
            reply: Some(
                ClientMessageModel::Error { message: "relay websocket 读取失败: "@ + error@ },
            ),
            command: Some(CommandModel::Exit),
            leave: true,
            ..no_reaction()
        },
        Frame::Ended => ReactionModel { leave: true, ..no_reaction() },
    }
}

pub fn react_to_frame(frame: Frame<ServerToClientMessage>) -> (r: RelayReaction)
    ensures
        r.deep_view() == reaction_to(frame),
{
    let mut reaction = RelayReaction {
        reply: None,
        command: None,
        answer_ping: false,
        leave: false,
    };
    match frame {
        Frame::Message { message } => {
            reaction.command = map_server_message(message);
        },
        Frame::Malformed { error } => {
            reaction.reply = Some(
                ClientToServerMessage::Error {
                    message: join2("无法解析 server 消息: ", error.as_str()),
                },
            );
        },
        Frame::Ping => {
            reaction.answer_ping = true;
        },
        Frame::Pong => {},
        Frame::Close { .. } => {
            reaction.command = Some(HomeClientCommand::Exit);
            reaction.leave = true;
        },
        Frame::Binary { .. } => {
            reaction.reply = Some(
                ClientToServerMessage::Error {
                    message: "当前 relay transport 不支持 binary websocket 消息".to_string(),
                },
            );
        },
        Frame::Failed { error } => {
            reaction.reply = Some(
                ClientToServerMessage::Error {
                    message: join2("relay websocket 读取失败: ", error.as_str()),
                },
            );
            reaction.command = Some(HomeClientCommand::Exit);
            reaction.leave = true;
        },
        Frame::Ended => {
            reaction.leave = true;
        },
    }
    reaction
}

// ---------------------------------------------------------------------------
// Laws
// ---------------------------------------------------------------------------

/// A permission request that was shown on the console can be answered there
/// with any of its choices, and then no second time.
pub proof fn law_shown_request_can_be_answered(
    state: LocalModel,
    request_id: Seq<char>,
    session_id: Option<Seq<char>>,
    options: Seq<PermissionOptionModel>,
    answer: Seq<char>,
    selected_index: usize,
)
    requires
        string_map::distinct(state.pending_permission_requests),
        options.len() <= usize::MAX,
        answer_of(answer) == Ok::<(Seq<char>, usize), CommandErrorModel>(
            (request_id, selected_index),
        ),
        selected_index < options.len(),
    ensures
        ({
            let shown = event_step(
                state,
                HomeEventModel::PermissionRequested { request_id, session_id, options },
            ).0;
            let (after, result) = answer_step(shown, answer);
            &&& result == Ok::<LocalInputModel, CommandErrorModel>(
                LocalInputModel::Command {
                    command: CommandModel::ResolvePermission { request_id, selected_index },
                },
            )
            &&& answer_step(after, answer).1 == Err::<LocalInputModel, CommandErrorModel>(
                CommandErrorModel::UnknownRequest { request_id },
            )
        }),
{
    let requests = state.pending_permission_requests;
    let count = options.len() as usize;
    string_map::law_lookup_after_put(requests, request_id, count, request_id);
    string_map::law_keys_stay_distinct(requests, request_id, count);
    string_map::law_lookup_after_erase(
        string_map::put(requests, request_id, count),
        request_id,
        request_id,
    );
}

/// Once a session was created or named, other text goes to it.
pub proof fn law_text_goes_to_the_active_session(state: LocalModel, line: Seq<char>)
    requires
        text::trim(line).len() > 0,
        text::trim(line)[0] != '/',
    ensures
        line_step(state, line) == (
            state,
            Ok::<LocalInputModel, CommandErrorModel>(
                LocalInputModel::Command {
                    command: CommandModel::Prompt {
                        session_id: state.active_session,
                        text: line,
                        create_session_if_missing: true,
                    },
                },
            ),
        ),
{
    reveal_strlit("/exit");
    reveal_strlit("/quit");
    reveal_strlit("/help");
    reveal_strlit("/workspaces");
    reveal_strlit("/new");
    reveal_strlit("/use");
    reveal_strlit("/perm");
    let text = text::trim(line);
    assert(text.len() >= 4 ==> text.take(4)[0] == text[0]);
    assert(text.len() >= 5 ==> text.take(5)[0] == text[0]);
}

} // verus!
