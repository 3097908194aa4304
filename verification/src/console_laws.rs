//! What is typed on the console is what is asked for, and what happens is what is
//! shown there.
use crate::protocol::{PermissionOptionModel, WorkspaceModel};
use crate::string_map;
use crate::text;
use crate::text_laws;
use crate::transport::{
    CommandErrorModel, ConsoleOutputModel, LocalInputModel, LocalModel,
};
use crate::transport;
use crate::types::{CommandModel, HomeEventModel};
use vstd::prelude::*;

verus! {

// ---------------------------------------------------------------------------
// Commands
// ---------------------------------------------------------------------------

/// A text that is not blank and has no white space at its ends.
pub open spec fn is_argument(word: Seq<char>) -> bool {
    word.len() > 0 && !text::is_space(word[0]) && !text::is_space(word.last())
}

/// A command with an argument, with any white space around both.
pub open spec fn typed(
    left: Seq<char>,
    command: Seq<char>,
    middle: Seq<char>,
    argument: Seq<char>,
    right: Seq<char>,
) -> Seq<char> {
    left + (command + middle + argument) + right
}

/// What was typed is one of the commands that take no argument.
pub open spec fn is_bare_command(text: Seq<char>) -> bool {
    text == "/exit"@ || text == "/quit"@ || text == "/help"@ || text == "/workspaces"@
}

proof fn lemma_typed(
    left: Seq<char>,
    command: Seq<char>,
    middle: Seq<char>,
    argument: Seq<char>,
    right: Seq<char>,
)
    requires
        text_laws::all_spaces(left),
        text_laws::all_spaces(middle),
        text_laws::all_spaces(right),
        middle.len() > 0,
        is_argument(argument),
        command == "/new"@ || command == "/use"@ || command == "/perm"@,
    ensures
        text::trim(typed(left, command, middle, argument, right)) == command + middle + argument,
        text::after_prefix(command + middle + argument, command) == Some(middle + argument),
        text::trim(middle + argument) == argument,
        !is_bare_command(command + middle + argument),
        command == "/use"@ ==> text::after_prefix(command + middle + argument, "/new"@) is None,
        command == "/perm"@ ==> text::after_prefix(command + middle + argument, "/new"@) is None
            && text::after_prefix(command + middle + argument, "/use"@) is None,
{
    reveal_strlit("/new");
    reveal_strlit("/use");
    reveal_strlit("/perm");
    reveal_strlit("/exit");
    reveal_strlit("/quit");
    reveal_strlit("/help");
    reveal_strlit("/workspaces");
    let word = command + middle + argument;
    assert(word[0] == command[0]);
    assert(word[0] == '/');
    assert(word.last() == argument.last());
    text_laws::law_trimming_gives_the_text(left, word, right);
    text_laws::law_rest_follows_the_prefix(command, middle + argument, word);
    assert(word =~= command + (middle + argument));
    text_laws::law_trimming_gives_the_text(middle, argument, Seq::empty());
    assert(middle + argument + Seq::<char>::empty() =~= middle + argument);
    assert(word[1] == command[1]);
    assert(word.take(4)[1] == word[1]);
}

/// A new session is asked for in the workspace that is named.
pub proof fn law_new_names_a_workspace(
    state: LocalModel,
    left: Seq<char>,
    middle: Seq<char>,
    workspace_id: Seq<char>,
    right: Seq<char>,
)
    requires
        text_laws::all_spaces(left),
        text_laws::all_spaces(middle),
        text_laws::all_spaces(right),
        middle.len() > 0,
        is_argument(workspace_id),
    ensures
        transport::line_step(state, typed(left, "/new"@, middle, workspace_id, right)) == (
            state,
            Ok::<_, CommandErrorModel>(
                LocalInputModel::Command {
                    command: CommandModel::CreateSession {
                        session_id: None,
                        workspace_id: Some(workspace_id),
                    },
                },
            ),
        ),
{
    lemma_typed(left, "/new"@, middle, workspace_id, right);
    assert(("/new"@ + middle + workspace_id).len() > 0);
}

/// A new session is asked for in no workspace where none is named.
pub proof fn law_new_needs_no_workspace(state: LocalModel, line: Seq<char>)
    requires
        text::trim(line) == "/new"@,
    ensures
        transport::line_step(state, line) == (
            state,
            Ok::<_, CommandErrorModel>(
                LocalInputModel::Command {
                    command: CommandModel::CreateSession {
                        session_id: None,
                        workspace_id: None,
                    },
                },
            ),
        ),
{
    reveal_strlit("/new");
    reveal_strlit("/exit");
    reveal_strlit("/quit");
    reveal_strlit("/help");
    reveal_strlit("/workspaces");
    text_laws::law_rest_follows_the_prefix("/new"@, Seq::empty(), "/new"@);
    assert("/new"@ + Seq::<char>::empty() =~= "/new"@);
    text_laws::law_trimming_gives_the_text(Seq::empty(), Seq::empty(), Seq::empty());
    assert(Seq::<char>::empty() + Seq::<char>::empty() + Seq::<char>::empty()
        =~= Seq::<char>::empty());
    assert("/new"@[1] == 'n');
    assert("/exit"@[1] == 'e');
    assert("/quit"@[1] == 'q');
    assert("/help"@[1] == 'h');
    assert("/workspaces"@[1] == 'w');
}

/// The session that is named becomes the active one, and only that changes.
pub proof fn law_use_names_a_session(
    state: LocalModel,
    left: Seq<char>,
    middle: Seq<char>,
    session_id: Seq<char>,
    right: Seq<char>,
)
    requires
        text_laws::all_spaces(left),
        text_laws::all_spaces(middle),
        text_laws::all_spaces(right),
        middle.len() > 0,
        is_argument(session_id),
    ensures
        transport::line_step(state, typed(left, "/use"@, middle, session_id, right)) == (
            LocalModel { active_session: Some(session_id), ..state },
            Ok::<_, CommandErrorModel>(
                LocalInputModel::Print {
                    lines: seq!["[info] active session 切换为 "@ + session_id],
                },
            ),
        ),
{
    lemma_typed(left, "/use"@, middle, session_id, right);
    assert(("/use"@ + middle + session_id).len() > 0);
}

/// An answer names the request and the choice, in digits. It is passed on where
/// the request is pending and offers the choice, and the request is pending no
/// longer; it is refused with the request, or with the highest choice, where not.
pub proof fn law_answer_names_request_and_choice(
    state: LocalModel,
    left: Seq<char>,
    first: Seq<char>,
    request_id: Seq<char>,
    second: Seq<char>,
    choice: usize,
    right: Seq<char>,
)
    requires
        string_map::distinct(state.pending_permission_requests),
        text_laws::all_spaces(left),
        text_laws::all_spaces(first),
        text_laws::all_spaces(second),
        text_laws::all_spaces(right),
        first.len() > 0,
        second.len() > 0,
        request_id.len() > 0,
        text_laws::no_spaces(request_id),
        string_map::lookup(state.pending_permission_requests, request_id) != Some(0usize),
    ensures
        ({
            let (after, result) = transport::line_step(
                state,
                typed(
                    left,
                    "/perm"@,
                    first,
                    request_id + second + text::decimal(choice as nat),
                    right,
                ),
            );
            match string_map::lookup(state.pending_permission_requests, request_id) {
                None => {
                    &&& after == state
                    &&& result == Err::<LocalInputModel, _>(
                        CommandErrorModel::UnknownRequest { request_id },
                    )
                },
                Some(count) => if choice < count {
                    &&& result == Ok::<_, CommandErrorModel>(
                        LocalInputModel::Command {
                            command: CommandModel::ResolvePermission {
                                request_id,
                                selected_index: choice,
                            },
                        },
                    )
                    &&& string_map::lookup(after.pending_permission_requests, request_id) is None
                    &&& after.active_session == state.active_session
                    &&& after.active_stream_session == state.active_stream_session
                    &&& after.available_workspaces == state.available_workspaces
                } else {
                    &&& after == state
                    &&& result == Err::<LocalInputModel, _>(
                        CommandErrorModel::IndexOutOfRange { highest: (count - 1) as usize },
                    )
                },
            }
        }),
{
    let digits = text::decimal(choice as nat);
    let argument = request_id + second + digits;
    lemma_digits(choice as nat);
    assert(argument[0] == request_id[0]);
    assert(argument.last() == digits.last());
    assert(!text::is_space(digits[digits.len() - 1]));
    assert(!text::is_space(request_id[0]));
    lemma_typed(left, "/perm"@, first, argument, right);
    let rest = first + argument;
    assert(rest =~= first + request_id + (second + digits));
    assert((second + digits)[0] == second[0]);
    text_laws::law_first_word_is_found(first, request_id, second + digits);
    text_laws::law_first_word_is_found(second, digits, Seq::empty());
    assert(second + digits + Seq::<char>::empty() =~= second + digits);
    text::law_decimal_is_read_back(choice as nat, usize::MAX as nat);
    assert(transport::answer_of(rest) == Ok::<_, CommandErrorModel>((request_id, choice)));
    string_map::law_lookup_after_erase(
        state.pending_permission_requests,
        request_id,
        request_id,
    );
    assert(("/perm"@ + first + argument).len() > 0);
}

proof fn lemma_digits(n: nat)
    ensures
        text::decimal(n).len() > 0,
        text_laws::no_spaces(text::decimal(n)),
    decreases n,
{
    if n >= 10 {
        lemma_digits(n / 10);
    }
    let d = n % 10;
    let c = text::digit(d);
    assert(c as u32 == d + 48) by {
        assert(((d + 48) as u8) as char as u32 == d + 48);
    }
    assert(!text::is_space(c));
    if n < 10 {
        assert(d == n);
    }
}

/// The commands that take no argument, and a blank line, come to this.
pub proof fn law_bare_commands(state: LocalModel, line: Seq<char>)
    ensures
        text::trim(line) == "/exit"@ || text::trim(line) == "/quit"@ ==> transport::line_step(
            state,
            line,
        ) == (
            state,
            Ok::<_, CommandErrorModel>(
                LocalInputModel::Command { command: CommandModel::Exit },
            ),
        ),
        text_laws::all_spaces(line) ==> transport::line_step(state, line) == (
            state,
            Ok::<_, CommandErrorModel>(LocalInputModel::Nothing),
        ),
{
    reveal_strlit("/exit");
    reveal_strlit("/quit");
    if text_laws::all_spaces(line) {
        text_laws::law_trimming_gives_the_text(line, Seq::empty(), Seq::empty());
        assert(line + Seq::<char>::empty() + Seq::<char>::empty() =~= line);
    }
}

/// Text that begins with a slash and is no command is refused, with the text.
pub proof fn law_unknown_command_is_quoted(state: LocalModel, line: Seq<char>)
    requires
        text::trim(line).len() > 0,
        text::trim(line)[0] == '/',
        !is_bare_command(text::trim(line)),
        text::trim(line).len() >= 4 ==> text::trim(line).take(4) != "/new"@ && text::trim(
            line,
        ).take(4) != "/use"@,
        text::trim(line).len() >= 5 ==> text::trim(line).take(5) != "/perm"@,
    ensures
        transport::line_step(state, line) == (
            state,
            Err::<LocalInputModel, _>(
                CommandErrorModel::UnknownCommand { text: text::trim(line) },
            ),
        ),
{
    reveal_strlit("/new");
    reveal_strlit("/use");
    reveal_strlit("/perm");
}

/// Once the agent has said which workspaces it offers, they are listed: each with
/// its name and its id, in order.
pub proof fn law_workspaces_are_listed(
    state: LocalModel,
    agent_name: Seq<char>,
    workspaces: Seq<WorkspaceModel>,
    line: Seq<char>,
    i: int,
)
    requires
        text::trim(line) == "/workspaces"@,
        0 <= i < workspaces.len(),
    ensures
        ({
            let (heard, shown) = transport::event_step(
                state,
                HomeEventModel::Ready { agent_name, workspaces },
            );
            let (after, result) = transport::line_step(heard, line);
            let entry = "  - "@ + workspaces[i].workspace_name + " ("@
                + workspaces[i].workspace_id + ")"@;
            &&& after == heard
            &&& heard.active_session == state.active_session
            &&& heard.pending_permission_requests == state.pending_permission_requests
            &&& heard.active_stream_session == state.active_stream_session
            &&& result matches Ok(LocalInputModel::Print { lines })
            &&& lines.len() == workspaces.len() + 1
            &&& lines[i + 1] == entry
            &&& shown.len() == workspaces.len() + 2
            &&& shown[0] == (ConsoleOutputModel::Line {
                text: "已连接 "@ + agent_name + "。输入 /help 查看命令。"@,
            })
            &&& shown[i + 2] == (ConsoleOutputModel::Line { text: entry })
        }),
{
    reveal_strlit("/exit");
    reveal_strlit("/quit");
    reveal_strlit("/help");
    reveal_strlit("/workspaces");
}

// ---------------------------------------------------------------------------
// What is shown
// ---------------------------------------------------------------------------

/// Output is shown as it came, with nothing added; a new line stands before it
/// only where the output of another session was being shown.
pub proof fn law_output_is_shown_as_it_came(
    state: LocalModel,
    session_id: Seq<char>,
    output: Seq<char>,
)
    ensures
        ({
            let (after, shown) = transport::event_step(
                state,
                HomeEventModel::OutputChunk { session_id, text: output },
            );
            &&& shown.len() > 0
            &&& shown.last() == (ConsoleOutputModel::Inline { text: output })
            &&& state.active_stream_session is None || state.active_stream_session == Some(
                session_id,
            ) ==> shown.len() == 1
            &&& (state.active_stream_session matches Some(other) && other != session_id)
                ==> shown.len() == 2 && shown[0] == (ConsoleOutputModel::Line {
                text: Seq::empty(),
            })
            &&& after.active_stream_session == Some(session_id)
            &&& after.active_session == state.active_session
            &&& after.pending_permission_requests == state.pending_permission_requests
            &&& after.available_workspaces == state.available_workspaces
        }),
{
}

/// A session that was created or taken up again is the active one, and is named.
pub proof fn law_new_session_is_active(
    state: LocalModel,
    session_id: Seq<char>,
    client_session_id: Seq<char>,
    workspace_id: Seq<char>,
    workspace_name: Seq<char>,
)
    ensures
        transport::event_step(
            state,
            HomeEventModel::SessionCreated {
                session_id,
                client_session_id,
                workspace_id,
                workspace_name,
            },
        ) == (
            LocalModel { active_session: Some(session_id), ..state },
            seq![
                ConsoleOutputModel::Line {
                    text: "[session] "@ + session_id + " workspace="@ + workspace_name + " ("@
                        + workspace_id + ")"@,
                },
            ],
        ),
        transport::event_step(
            state,
            HomeEventModel::SessionResumed { session_id, client_session_id },
        ) == (
            LocalModel { active_session: Some(session_id), ..state },
            seq![
                ConsoleOutputModel::Line { text: "[session] "@ + session_id + " resumed"@ },
            ],
        ),
{
}

/// What the agent says otherwise is shown in its own words and changes nothing.
pub proof fn law_words_are_shown(
    state: LocalModel,
    session_id: Seq<char>,
    client_session_id: Seq<char>,
    words: Seq<char>,
)
    ensures
        transport::event_step(state, HomeEventModel::Info { message: words }) == (
            state,
            seq![ConsoleOutputModel::Line { text: "[info] "@ + words }],
        ),
        transport::event_step(state, HomeEventModel::Error { message: words }) == (
            state,
            seq![ConsoleOutputModel::ErrorLine { text: "[error] "@ + words }],
        ),
        transport::event_step(
            state,
            HomeEventModel::SessionResumeFailed { session_id, client_session_id, message: words },
        ) == (
            state,
            seq![
                ConsoleOutputModel::ErrorLine {
                    text: "[error] session="@ + session_id + " resume 失败: "@ + words,
                },
            ],
        ),
{
}

/// The end of a prompt ends the line of output that was being shown, and is
/// reported where the reason is not the usual one.
pub proof fn law_finish_is_shown(
    state: LocalModel,
    session_id: Seq<char>,
    stop_reason: Seq<char>,
)
    ensures
        ({
            let (after, shown) = transport::event_step(
                state,
                HomeEventModel::PromptFinished { session_id, stop_reason },
            );
            let report = ConsoleOutputModel::Line {
                text: "[done] session="@ + session_id + " stop_reason="@ + stop_reason,
            };
            let end = ConsoleOutputModel::Line { text: Seq::empty() };
            &&& after == (LocalModel { active_stream_session: None, ..state })
            &&& state.active_stream_session is None && stop_reason == "EndTurn"@ ==> shown.len()
                == 0
            &&& state.active_stream_session is None && stop_reason != "EndTurn"@ ==> shown
                == seq![report]
            &&& state.active_stream_session is Some && stop_reason == "EndTurn"@ ==> shown
                == seq![end]
            &&& state.active_stream_session is Some && stop_reason != "EndTurn"@ ==> shown
                == seq![end, report]
        }),
{
    let shown = transport::event_step(
        state,
        HomeEventModel::PromptFinished { session_id, stop_reason },
    ).1;
    let report = ConsoleOutputModel::Line {
        text: "[done] session="@ + session_id + " stop_reason="@ + stop_reason,
    };
    let end = ConsoleOutputModel::Line { text: Seq::empty() };
    if state.active_stream_session is Some {
        if stop_reason == "EndTurn"@ {
            assert(shown =~= seq![end]);
        } else {
            assert(shown =~= seq![end, report]);
        }
    } else if stop_reason != "EndTurn"@ {
        assert(shown =~= seq![report]);
    }
}

/// A request is shown with its id, its session, and every choice in order under
/// its number, with its name and its kind; from then on it is pending with as
/// many choices as were shown.
pub proof fn law_request_is_shown(
    state: LocalModel,
    request_id: Seq<char>,
    session_id: Option<Seq<char>>,
    options: Seq<PermissionOptionModel>,
    i: int,
)
    requires
        0 <= i < options.len() <= usize::MAX,
    ensures
        ({
            let (after, shown) = transport::event_step(
                state,
                HomeEventModel::PermissionRequested { request_id, session_id, options },
            );
            &&& string_map::lookup(after.pending_permission_requests, request_id) == Some(
                options.len() as usize,
            )
            &&& after.active_session == state.active_session
            &&& after.active_stream_session == state.active_stream_session
            &&& after.available_workspaces == state.available_workspaces
            &&& shown.len() == options.len() + 2
            &&& shown[0] == (ConsoleOutputModel::Line {
                text: "\n[permission] request_id="@ + request_id + " session="@
                    + match session_id {
                    Some(session_id) => session_id,
                    None => "unknown"@,
                },
            })
            &&& shown[i + 1] == (ConsoleOutputModel::Line {
                text: "  ["@ + text::decimal(options[i].index as nat) + "] "@ + options[i].name
                    + " ("@ + options[i].kind + ")"@,
            })
            &&& shown.last() == (ConsoleOutputModel::Line {
                text: "  使用 /perm "@ + request_id + " <index> 来选择。"@,
            })
        }),
{
    string_map::law_lookup_after_put(
        state.pending_permission_requests,
        request_id,
        options.len() as usize,
        request_id,
    );
}

/// A command that is refused is answered with how it is used, or with what it
/// named.
pub proof fn law_refused_commands_are_answered(words: Seq<char>, highest: usize)
    ensures
        transport::command_error_text(CommandErrorModel::UseUsage) == "用法: /use <session_id>"@,
        transport::command_error_text(CommandErrorModel::PermUsage)
            == "用法: /perm <request_id> <index>"@,
        transport::command_error_text(CommandErrorModel::IndexNotNumber)
            == "permission index 必须是数字"@,
        transport::command_error_text(CommandErrorModel::IndexOutOfRange { highest })
            == "index 超出范围，当前可选上限为 "@ + text::decimal(highest as nat),
        transport::command_error_text(CommandErrorModel::UnknownRequest { request_id: words })
            == "未找到待处理的 permission request: "@ + words,
        transport::command_error_text(CommandErrorModel::UnknownCommand { text: words })
            == "未知命令: "@ + words,
{
}

} // verus!
