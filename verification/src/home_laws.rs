//! What passes between the agent at home and the browsers passes whole: the words,
//! the ids and the choices that go in at one end come out at the other.
use crate::config::{RelayTransportConfig, WorkspaceConfig, WorkspaceConfigModel};
use crate::protocol::{
    BrowserReplyModel, BrowserRequestModel, ClientMessageModel, ClientToServerMessage,
    DeviceModel, PermissionOptionModel, ServerMessageModel, ServerToClientMessage, WorkspaceModel,
};
use crate::relay_server::report_laws;
use crate::relay_server::request_laws;
use crate::relay_server::sockets::{Frame, Greeting};
use crate::relay_server::sockets;
use crate::relay_server::state::{
    ClientAuthConfig, DeliveryModel, PendingModel, ServerModel, SessionModel, StepModel,
};
use crate::relay_state::PersistedModel;
use crate::runtime::{ActionModel, FailureModel, InternalEventModel, PurposeModel, RuntimeModel};
use crate::runtime;
use crate::string_map;
use crate::text;
use crate::transport;
use crate::types::{CommandModel, HomeClientCommand, HomeClientEvent, HomeEventModel};
use vstd::prelude::*;

verus! {

// ---------------------------------------------------------------------------
// Between the home client and the relay server
// ---------------------------------------------------------------------------

/// The relay server hears of output and of the end of a prompt as the agent had
/// it: of the same session, with the same words.
pub proof fn law_words_are_sent_on(session_id: Seq<char>, words: Seq<char>)
    ensures
        transport::message_of(HomeEventModel::OutputChunk { session_id, text: words }) == (
        ClientMessageModel::OutputChunk { session_id, text: words }),
        transport::message_of(
            HomeEventModel::PromptFinished { session_id, stop_reason: words },
        ) == (ClientMessageModel::PromptFinished { session_id, stop_reason: words }),
        transport::message_of(HomeEventModel::Info { message: words }) == (
        ClientMessageModel::Info { message: words }),
        transport::message_of(HomeEventModel::Error { message: words }) == (
        ClientMessageModel::Error { message: words }),
{
}

/// The relay server hears of a session under both of its ids, and of the
/// workspace that it is in.
pub proof fn law_sessions_are_sent_on(
    session_id: Seq<char>,
    client_session_id: Seq<char>,
    workspace_id: Seq<char>,
    workspace_name: Seq<char>,
    message: Seq<char>,
)
    ensures
        transport::message_of(
            HomeEventModel::SessionCreated {
                session_id,
                client_session_id,
                workspace_id,
                workspace_name,
            },
        ) == (ClientMessageModel::SessionCreated {
            session_id,
            client_session_id,
            workspace_id,
            workspace_name,
        }),
        transport::message_of(HomeEventModel::SessionResumed { session_id, client_session_id })
            == (ClientMessageModel::SessionResumed { session_id, client_session_id }),
        transport::message_of(
            HomeEventModel::SessionResumeFailed { session_id, client_session_id, message },
        ) == (ClientMessageModel::SessionResumeFailed { session_id, client_session_id, message }),
{
}

/// The relay server hears of a request with all its choices, and of an agent by
/// its name.
pub proof fn law_requests_are_sent_on(
    request_id: Seq<char>,
    session_id: Option<Seq<char>>,
    options: Seq<PermissionOptionModel>,
    agent_name: Seq<char>,
    workspaces: Seq<WorkspaceModel>,
)
    ensures
        transport::message_of(
            HomeEventModel::PermissionRequested { request_id, session_id, options },
        ) == (ClientMessageModel::PermissionRequested { request_id, session_id, options }),
        transport::message_of(HomeEventModel::Ready { agent_name, workspaces }) == (
        ClientMessageModel::Ready { agent_name }),
{
}

/// No two events of which the relay server hears are told by the same message,
/// but for the workspaces, which it has heard of before.
pub proof fn law_events_are_told_apart(first: HomeEventModel, second: HomeEventModel)
    requires
        transport::message_of(first) == transport::message_of(second),
    ensures
        first == second || (first matches HomeEventModel::Ready { agent_name: one, .. } && second
            matches HomeEventModel::Ready { agent_name: other, .. } && one == other),
{
}

/// What the relay server asks for is what the home client is told to do: in the
/// session that is named, with the words and the choice that came.
pub proof fn law_commands_are_handed_on(
    session_id: Seq<char>,
    client_session_id: Seq<char>,
    workspace_id: Seq<char>,
    prompted: Option<Seq<char>>,
    words: Seq<char>,
    create_session_if_missing: bool,
    request_id: Seq<char>,
    selected_index: usize,
)
    ensures
        transport::command_of(ServerMessageModel::CreateSession { session_id, workspace_id })
            == Some(
            CommandModel::CreateSession {
                session_id: Some(session_id),
                workspace_id: Some(workspace_id),
            },
        ),
        transport::command_of(
            ServerMessageModel::ResumeSession { session_id, client_session_id, workspace_id },
        ) == Some(
            CommandModel::ResumeSession { session_id, client_session_id, workspace_id },
        ),
        transport::command_of(
            ServerMessageModel::Prompt {
                session_id: prompted,
                text: words,
                create_session_if_missing,
            },
        ) == Some(
            CommandModel::Prompt { session_id: prompted, text: words, create_session_if_missing },
        ),
        transport::command_of(
            ServerMessageModel::ResolvePermission { request_id, selected_index },
        ) == Some(CommandModel::ResolvePermission { request_id, selected_index }),
        transport::command_of(ServerMessageModel::CancelSession { session_id }) == Some(
            CommandModel::CancelSession { session_id },
        ),
        transport::command_of(ServerMessageModel::Ping) is None,
        transport::command_of(ServerMessageModel::Shutdown) == Some(CommandModel::Exit),
{
}

/// A device offers each of its workspaces under its id and its name, in order,
/// and keeps to itself where they lie.
pub proof fn law_workspaces_are_offered(workspaces: Seq<WorkspaceConfigModel>)
    ensures
        transport::offered(workspaces).len() == workspaces.len(),
        forall|i: int|
            0 <= i < workspaces.len() ==> #[trigger] transport::offered(workspaces)[i] == (
            WorkspaceModel { workspace_id: workspaces[i].id, workspace_name: workspaces[i].name }),
{
}

// ---------------------------------------------------------------------------
// The workspace of a session
// ---------------------------------------------------------------------------

/// The workspace that is chosen is one of those that there are, and the first
/// with the id that was asked for; where none was, the first with the default
/// id; where there is no default either, the first of all.
pub proof fn law_workspace_is_the_one_asked_for(
    workspaces: Seq<WorkspaceConfigModel>,
    requested: Option<Seq<char>>,
    default: Option<Seq<char>>,
    i: int,
)
    requires
        0 <= i < workspaces.len(),
        match (requested, default) {
            (Some(id), _) => workspaces[i].id == id && forall|j: int|
                0 <= j < i ==> (#[trigger] workspaces[j]).id != id,
            (None, Some(id)) => workspaces[i].id == id && forall|j: int|
                0 <= j < i ==> (#[trigger] workspaces[j]).id != id,
            (None, None) => i == 0,
        },
    ensures
        runtime::chosen_workspace(workspaces, requested, default) == Ok::<_, FailureModel>(
            workspaces[i],
        ),
{
    match (requested, default) {
        (Some(id), _) => lemma_first_workspace(workspaces, id, i),
        (None, Some(id)) => lemma_first_workspace(workspaces, id, i),
        (None, None) => {},
    }
}

proof fn lemma_first_workspace(workspaces: Seq<WorkspaceConfigModel>, id: Seq<char>, i: int)
    requires
        0 <= i < workspaces.len(),
        workspaces[i].id == id,
        forall|j: int| 0 <= j < i ==> (#[trigger] workspaces[j]).id != id,
    ensures
        runtime::workspace_by_id(workspaces, id) == Some(workspaces[i]),
    decreases i,
{
    if i > 0 {
        let rest = workspaces.skip(1);
        assert(workspaces[0].id != id);
        assert forall|j: int| 0 <= j < i - 1 implies (#[trigger] rest[j]).id != id by {
            assert(rest[j] == workspaces[j + 1]);
        }
        assert(rest[i - 1] == workspaces[i]);
        lemma_first_workspace(rest, id, i - 1);
    }
}

/// Where no workspace has the id that was asked for, or the default id, it is
/// said which id it was.
pub proof fn law_missing_workspace_is_named(
    workspaces: Seq<WorkspaceConfigModel>,
    id: Seq<char>,
    default: Option<Seq<char>>,
)
    requires
        forall|j: int| 0 <= j < workspaces.len() ==> (#[trigger] workspaces[j]).id != id,
    ensures
        runtime::chosen_workspace(workspaces, Some(id), default) == Err::<
            WorkspaceConfigModel,
            _,
        >(FailureModel::UnknownWorkspace { workspace_id: id }),
        runtime::chosen_workspace(workspaces, None, Some(id)) == Err::<WorkspaceConfigModel, _>(
            FailureModel::NoDefaultWorkspace { workspace_id: id },
        ),
        workspaces.len() == 0 ==> runtime::chosen_workspace(workspaces, None, None) == Err::<
            WorkspaceConfigModel,
            _,
        >(FailureModel::NoWorkspace),
{
    lemma_no_workspace(workspaces, id);
}

proof fn lemma_no_workspace(workspaces: Seq<WorkspaceConfigModel>, id: Seq<char>)
    requires
        forall|j: int| 0 <= j < workspaces.len() ==> (#[trigger] workspaces[j]).id != id,
    ensures
        runtime::workspace_by_id(workspaces, id) is None,
    decreases workspaces.len(),
{
    if workspaces.len() > 0 {
        let rest = workspaces.skip(1);
        assert(workspaces[0].id != id);
        assert forall|j: int| 0 <= j < rest.len() implies (#[trigger] rest[j]).id != id by {
            assert(rest[j] == workspaces[j + 1]);
        }
        lemma_no_workspace(rest, id);
    }
}

// ---------------------------------------------------------------------------
// What the home client does about commands
// ---------------------------------------------------------------------------

/// A prompt to a session that is known, while no other runs, runs in the agent's
/// session with the text as it came, and counts as running from then on.
pub proof fn law_prompt_runs_as_written(
    state: RuntimeModel,
    workspaces: Seq<WorkspaceConfigModel>,
    default_workspace_id: Seq<char>,
    session_id: Seq<char>,
    prompt: Seq<char>,
    create_session_if_missing: bool,
    agent_session_id: Seq<char>,
)
    requires
        !state.prompt_in_flight,
        string_map::lookup(state.sessions, session_id) == Some(agent_session_id),
    ensures
        runtime::command_step(
            state,
            workspaces,
            default_workspace_id,
            CommandModel::Prompt {
                session_id: Some(session_id),
                text: prompt,
                create_session_if_missing,
            },
        ) == (
            RuntimeModel {
                active_prompt_session: Some(session_id),
                prompt_in_flight: true,
                ..state
            },
            Ok::<_, FailureModel>(
                seq![
                    ActionModel::RunPrompt {
                        session_ref: session_id,
                        agent_session_id,
                        text: prompt,
                    },
                ],
            ),
        ),
{
}

/// A prompt to no session, where one may be created, opens one in the default
/// workspace, and then runs there with the text as it came.
pub proof fn law_prompt_opens_a_session(
    state: RuntimeModel,
    workspaces: Seq<WorkspaceConfigModel>,
    default_workspace_id: Seq<char>,
    prompt: Seq<char>,
    agent_session_id: Seq<char>,
    i: int,
)
    requires
        !state.prompt_in_flight,
        0 <= i < workspaces.len(),
        workspaces[i].id == default_workspace_id,
        forall|j: int| 0 <= j < i ==> (#[trigger] workspaces[j]).id != default_workspace_id,
    ensures
        runtime::command_step(
            state,
            workspaces,
            default_workspace_id,
            CommandModel::Prompt {
                session_id: None,
                text: prompt,
                create_session_if_missing: true,
            },
        ) == (
            state,
            Ok::<_, FailureModel>(
                seq![
                    ActionModel::OpenSession {
                        workspace: workspaces[i],
                        purpose: PurposeModel::Prompt { text: prompt },
                    },
                ],
            ),
        ),
        ({
            let (after, actions) = runtime::session_opened_step(
                state,
                workspaces[i],
                PurposeModel::Prompt { text: prompt },
                Some(agent_session_id),
            );
            &&& after.prompt_in_flight
            &&& after.active_prompt_session == Some(agent_session_id)
            &&& string_map::lookup(after.sessions, agent_session_id) == Some(agent_session_id)
            &&& actions == Ok::<_, FailureModel>(
                seq![
                    ActionModel::Publish {
                        event: HomeEventModel::SessionCreated {
                            session_id: agent_session_id,
                            client_session_id: agent_session_id,
                            workspace_id: workspaces[i].id,
                            workspace_name: workspaces[i].name,
                        },
                    },
                    ActionModel::RunPrompt {
                        session_ref: agent_session_id,
                        agent_session_id,
                        text: prompt,
                    },
                ],
            )
        }),
{
    lemma_first_workspace(workspaces, default_workspace_id, i);
    string_map::law_lookup_after_put(
        state.sessions,
        agent_session_id,
        agent_session_id,
        agent_session_id,
    );
}

/// Prompts that cannot run are answered with the reason, and change nothing.
pub proof fn law_prompt_that_cannot_run_is_answered(
    state: RuntimeModel,
    workspaces: Seq<WorkspaceConfigModel>,
    default_workspace_id: Seq<char>,
    session_id: Seq<char>,
    prompt: Seq<char>,
    create_session_if_missing: bool,
)
    requires
        !state.prompt_in_flight,
        string_map::lookup(state.sessions, session_id) is None,
    ensures
        runtime::command_step(
            state,
            workspaces,
            default_workspace_id,
            CommandModel::Prompt {
                session_id: Some(session_id),
                text: prompt,
                create_session_if_missing,
            },
        ) == (
            state,
            Ok::<_, FailureModel>(
                seq![
                    ActionModel::Publish {
                        event: HomeEventModel::Error { message: "未知 session: "@ + session_id },
                    },
                ],
            ),
        ),
        runtime::command_step(
            state,
            workspaces,
            default_workspace_id,
            CommandModel::CancelSession { session_id },
        ) == (
            state,
            Ok::<_, FailureModel>(
                seq![
                    ActionModel::Publish {
                        event: HomeEventModel::Error { message: "未知 session: "@ + session_id },
                    },
                ],
            ),
        ),
        runtime::command_step(
            state,
            workspaces,
            default_workspace_id,
            CommandModel::Prompt {
                session_id: None,
                text: prompt,
                create_session_if_missing: false,
            },
        ) == (
            state,
            Ok::<_, FailureModel>(
                seq![
                    ActionModel::Publish {
                        event: HomeEventModel::Error {
                            message: "当前命令没有指定 session，且不允许自动创建。"@,
                        },
                    },
                ],
            ),
        ),
{
}

/// A session is created in the workspace that is asked for, and told of under the
/// id that it was asked for by, with the id that the agent gave it.
pub proof fn law_session_is_created_as_asked(
    state: RuntimeModel,
    workspaces: Seq<WorkspaceConfigModel>,
    default_workspace_id: Seq<char>,
    session_id: Seq<char>,
    agent_session_id: Seq<char>,
    i: int,
)
    requires
        0 <= i < workspaces.len(),
        forall|j: int| 0 <= j < i ==> (#[trigger] workspaces[j]).id != workspaces[i].id,
    ensures
        runtime::command_step(
            state,
            workspaces,
            default_workspace_id,
            CommandModel::CreateSession {
                session_id: Some(session_id),
                workspace_id: Some(workspaces[i].id),
            },
        ) == (
            state,
            Ok::<_, FailureModel>(
                seq![
                    ActionModel::OpenSession {
                        workspace: workspaces[i],
                        purpose: PurposeModel::Create { session_id: Some(session_id) },
                    },
                ],
            ),
        ),
        ({
            let (after, actions) = runtime::session_opened_step(
                state,
                workspaces[i],
                PurposeModel::Create { session_id: Some(session_id) },
                Some(agent_session_id),
            );
            &&& string_map::lookup(after.sessions, session_id) == Some(agent_session_id)
            &&& after.prompt_in_flight == state.prompt_in_flight
            &&& after.active_prompt_session == state.active_prompt_session
            &&& after.pending_permissions == state.pending_permissions
            &&& actions == Ok::<_, FailureModel>(
                seq![
                    ActionModel::Publish {
                        event: HomeEventModel::SessionCreated {
                            session_id,
                            client_session_id: agent_session_id,
                            workspace_id: workspaces[i].id,
                            workspace_name: workspaces[i].name,
                        },
                    },
                ],
            )
        }),
        runtime::session_opened_step(
            state,
            workspaces[i],
            PurposeModel::Create { session_id: Some(session_id) },
            None,
        ) == (state, Err::<Seq<ActionModel>, _>(FailureModel::SessionNotCreated)),
{
    lemma_first_workspace(workspaces, workspaces[i].id, i);
    string_map::law_lookup_after_put(state.sessions, session_id, agent_session_id, session_id);
}

/// A session that was created without an id of its own is known by the agent's.
pub proof fn law_unnamed_session_takes_the_agents_id(
    state: RuntimeModel,
    workspace: WorkspaceConfigModel,
    agent_session_id: Seq<char>,
)
    ensures
        ({
            let (after, actions) = runtime::session_opened_step(
                state,
                workspace,
                PurposeModel::Create { session_id: None },
                Some(agent_session_id),
            );
            &&& string_map::lookup(after.sessions, agent_session_id) == Some(agent_session_id)
            &&& actions == Ok::<_, FailureModel>(
                seq![
                    ActionModel::Publish {
                        event: HomeEventModel::SessionCreated {
                            session_id: agent_session_id,
                            client_session_id: agent_session_id,
                            workspace_id: workspace.id,
                            workspace_name: workspace.name,
                        },
                    },
                ],
            )
        }),
{
    string_map::law_lookup_after_put(
        state.sessions,
        agent_session_id,
        agent_session_id,
        agent_session_id,
    );
}

/// A session is taken up again by the agent's own id, where its workspace lies,
/// and told of under both ids; a failure is told in the words that it came with.
pub proof fn law_session_is_taken_up_again(
    state: RuntimeModel,
    workspaces: Seq<WorkspaceConfigModel>,
    default_workspace_id: Seq<char>,
    session_id: Seq<char>,
    client_session_id: Seq<char>,
    message: Seq<char>,
    i: int,
)
    requires
        0 <= i < workspaces.len(),
        forall|j: int| 0 <= j < i ==> (#[trigger] workspaces[j]).id != workspaces[i].id,
    ensures
        runtime::command_step(
            state,
            workspaces,
            default_workspace_id,
            CommandModel::ResumeSession {
                session_id,
                client_session_id,
                workspace_id: workspaces[i].id,
            },
        ) == (
            state,
            Ok::<_, FailureModel>(
                seq![
                    ActionModel::LoadSession {
                        session_id,
                        client_session_id,
                        path: workspaces[i].path,
                    },
                ],
            ),
        ),
        ({
            let (after, actions) = runtime::session_loaded_step(
                state,
                session_id,
                client_session_id,
                None,
            );
            &&& string_map::lookup(after.sessions, session_id) == Some(client_session_id)
            &&& actions == seq![
                ActionModel::Publish {
                    event: HomeEventModel::SessionResumed { session_id, client_session_id },
                },
            ]
        }),
        runtime::session_loaded_step(state, session_id, client_session_id, Some(message)) == (
            state,
            seq![
                ActionModel::Publish {
                    event: HomeEventModel::SessionResumeFailed {
                        session_id,
                        client_session_id,
                        message,
                    },
                },
            ],
        ),
{
    lemma_first_workspace(workspaces, workspaces[i].id, i);
    string_map::law_lookup_after_put(state.sessions, session_id, client_session_id, session_id);
}

/// A session whose workspace is gone is not taken up; it is told of under both
/// ids, with the workspace that was missed.
pub proof fn law_session_without_workspace_is_not_taken_up(
    state: RuntimeModel,
    workspaces: Seq<WorkspaceConfigModel>,
    default_workspace_id: Seq<char>,
    session_id: Seq<char>,
    client_session_id: Seq<char>,
    workspace_id: Seq<char>,
)
    requires
        forall|j: int| 0 <= j < workspaces.len() ==> (#[trigger] workspaces[j]).id != workspace_id,
    ensures
        runtime::command_step(
            state,
            workspaces,
            default_workspace_id,
            CommandModel::ResumeSession { session_id, client_session_id, workspace_id },
        ) == (
            state,
            Ok::<_, FailureModel>(
                seq![
                    ActionModel::Publish {
                        event: HomeEventModel::SessionResumeFailed {
                            session_id,
                            client_session_id,
                            message: "未知 workspace: "@ + workspace_id,
                        },
                    },
                ],
            ),
        ),
        runtime::command_step(
            state,
            workspaces,
            default_workspace_id,
            CommandModel::CreateSession {
                session_id: Some(session_id),
                workspace_id: Some(workspace_id),
            },
        ) == (
            state,
            Err::<Seq<ActionModel>, _>(FailureModel::UnknownWorkspace { workspace_id }),
        ),
{
    lemma_no_workspace(workspaces, workspace_id);
}

/// An answer goes to the request that it names, with the choice that was made;
/// other requests stay open. A cancellation goes to the session of the agent that
/// stands behind the one that is named. Nothing else is done about either.
pub proof fn law_answers_and_cancellations_are_passed_on(
    state: RuntimeModel,
    workspaces: Seq<WorkspaceConfigModel>,
    default_workspace_id: Seq<char>,
    request_id: Seq<char>,
    selected_index: usize,
    session_id: Seq<char>,
    agent_session_id: Seq<char>,
    other_id: Seq<char>,
)
    requires
        state.pending_permissions.contains(request_id),
        string_map::lookup(state.sessions, session_id) == Some(agent_session_id),
    ensures
        ({
            let (after, actions) = runtime::command_step(
                state,
                workspaces,
                default_workspace_id,
                CommandModel::ResolvePermission { request_id, selected_index },
            );
            &&& actions == Ok::<_, FailureModel>(
                seq![ActionModel::AnswerPermission { request_id, selected_index }],
            )
            &&& !after.pending_permissions.contains(request_id)
            &&& other_id != request_id ==> (after.pending_permissions.contains(other_id)
                <==> state.pending_permissions.contains(other_id))
            &&& after.sessions == state.sessions
            &&& after.prompt_in_flight == state.prompt_in_flight
            &&& after.active_prompt_session == state.active_prompt_session
        }),
        runtime::command_step(
            state,
            workspaces,
            default_workspace_id,
            CommandModel::CancelSession { session_id },
        ) == (
            state,
            Ok::<_, FailureModel>(seq![ActionModel::CancelPrompt { agent_session_id }]),
        ),
        runtime::command_step(state, workspaces, default_workspace_id, CommandModel::Exit) == (
            state,
            Ok::<_, FailureModel>(seq![ActionModel::Stop]),
        ),
{
    string_map::law_member_leaves(state.pending_permissions, request_id, request_id);
    string_map::law_member_leaves(state.pending_permissions, request_id, other_id);
}

/// What happens in the agent is told as it happened. Only the end of a prompt
/// lets the next one through.
pub proof fn law_agent_is_quoted(
    state: RuntimeModel,
    session_id: Seq<char>,
    words: Seq<char>,
    request_id: Seq<char>,
    asked: Option<Seq<char>>,
    options: Seq<PermissionOptionModel>,
)
    ensures
        runtime::internal_event_step(
            state,
            InternalEventModel::OutputChunk { session_id, text: words },
        ) == (state, HomeEventModel::OutputChunk { session_id, text: words }),
        runtime::internal_event_step(
            state,
            InternalEventModel::PermissionRequested { request_id, session_id: asked, options },
        ) == (
            state,
            HomeEventModel::PermissionRequested { request_id, session_id: asked, options },
        ),
        runtime::internal_event_step(
            state,
            InternalEventModel::PromptFinished { session_id, stop_reason: words },
        ) == (
            RuntimeModel { prompt_in_flight: false, ..state },
            HomeEventModel::PromptFinished { session_id, stop_reason: words },
        ),
        runtime::internal_event_step(
            state,
            InternalEventModel::PromptFailed { session_id, message: words },
        ) == (
            RuntimeModel { prompt_in_flight: false, ..state },
            HomeEventModel::Error {
                message: "session="@ + session_id + " prompt 失败: "@ + words,
            },
        ),
        runtime::internal_event_step(
            state,
            InternalEventModel::RuntimeError { message: words },
        ) == (state, HomeEventModel::Error { message: words }),
{
}

/// The choices of a request are numbered from zero, each with the name and the
/// kind that the agent gave it.
pub proof fn law_choices_are_numbered(options: Seq<(Seq<char>, Seq<char>)>, i: int)
    requires
        0 <= i < options.len() <= usize::MAX,
    ensures
        runtime::numbered_options(options).len() == options.len(),
        runtime::numbered_options(options)[i].index == i,
        runtime::numbered_options(options)[i].name == options[i].0,
        runtime::numbered_options(options)[i].kind == options[i].1,
{
}

/// The agent asks in the session whose prompt runs, under an id that was not used
/// before, with its choices numbered from zero; the request is pending from then
/// on, and the next one gets the next number. Nothing else changes.
pub proof fn law_request_is_made_in_the_running_session(
    state: RuntimeModel,
    options: Seq<(Seq<char>, Seq<char>)>,
    i: int,
    other_id: Seq<char>,
)
    requires
        state.next_permission_request_id < u64::MAX,
        0 <= i < options.len() <= usize::MAX,
    ensures
        ({
            let (after, event) = runtime::permission_asked_step(state, options);
            let id = "perm-"@ + text::decimal(state.next_permission_request_id as nat);
            &&& event matches InternalEventModel::PermissionRequested {
                request_id,
                session_id,
                options: choices,
            }
            &&& request_id == id
            &&& session_id == state.active_prompt_session
            &&& choices.len() == options.len()
            &&& choices[i] == (PermissionOptionModel {
                index: i as usize,
                name: options[i].0,
                kind: options[i].1,
            })
            &&& after.next_permission_request_id == state.next_permission_request_id + 1
            &&& after.pending_permissions.contains(other_id)
                <==> state.pending_permissions.contains(other_id) || other_id == id
            &&& after.sessions == state.sessions
            &&& after.prompt_in_flight == state.prompt_in_flight
            &&& after.active_prompt_session == state.active_prompt_session
        }),
{
    let id = "perm-"@ + text::decimal(state.next_permission_request_id as nat);
    string_map::law_member_joins(state.pending_permissions, id, other_id);
}

/// A prompt that has begun is the one that runs; once it has ended, none is.
pub proof fn law_prompt_begins_and_ends(state: RuntimeModel, session_ref: Seq<char>)
    ensures
        ({
            let begun = runtime::with_prompt(state, session_ref);
            let ended = runtime::without_prompt(begun);
            &&& begun.active_prompt_session == Some(session_ref)
            &&& begun.prompt_in_flight
            &&& ended.active_prompt_session is None
            &&& ended.sessions == state.sessions
            &&& ended.pending_permissions == state.pending_permissions
            &&& ended.next_permission_request_id == state.next_permission_request_id
        }),
{
}

/// A home client that starts says by which name the agent goes and which
/// workspaces it offers, in order.
pub proof fn law_start_is_announced(
    agent_name: Seq<char>,
    workspaces: Seq<WorkspaceConfigModel>,
    through_relay: bool,
)
    ensures
        ({
            let events = runtime::startup_events(agent_name, workspaces, through_relay);
            &&& events.len() == 2
            &&& events[0] matches HomeEventModel::Ready { agent_name: name, workspaces: offered }
            &&& name == agent_name
            &&& offered.len() == workspaces.len()
            &&& forall|i: int|
                0 <= i < workspaces.len() ==> (#[trigger] offered[i]).workspace_id
                    == workspaces[i].id && offered[i].workspace_name == workspaces[i].name
            &&& events[1] is Info
        }),
{
}

// ---------------------------------------------------------------------------
// From end to end
// ---------------------------------------------------------------------------

/// What the relay server makes of something that happened in the agent of a
/// device, where what it writes reaches the disk.
pub open spec fn heard_of(
    server: ServerModel,
    device_id: Seq<char>,
    state: RuntimeModel,
    event: InternalEventModel,
    now: u64,
) -> (ServerModel, StepModel) {
    report_laws::reported(
        server,
        device_id,
        transport::message_of(runtime::internal_event_step(state, event).1),
        now,
    )
}

/// The last delivery of a step.
pub open spec fn last_delivery(step: StepModel) -> DeliveryModel {
    step->Finished_outcome.deliveries.last()
}

/// The output of the agent is what the browser that has the session is sent: of
/// that session, the very text.
pub proof fn law_output_passes_from_agent_to_browser(
    server: ServerModel,
    device_id: Seq<char>,
    state: RuntimeModel,
    agent_session_id: Seq<char>,
    output: Seq<char>,
    now: u64,
    session_id: Seq<char>,
    route: SessionModel,
    stored: PersistedModel,
)
    requires
        report_laws::is_meant(server.sessions, device_id, agent_session_id, session_id),
        string_map::lookup(server.sessions, session_id) == Some(route),
        route.browser_id.len() > 0,
        string_map::holds(server.browsers, route.browser_id),
        string_map::lookup(server.store.sessions, session_id) == Some(stored),
    ensures
        last_delivery(
            heard_of(
                server,
                device_id,
                state,
                InternalEventModel::OutputChunk { session_id: agent_session_id, text: output },
                now,
            ).1,
        ) == (DeliveryModel::Browser {
            browser_id: route.browser_id,
            message: BrowserReplyModel::OutputChunk { session_id, text: output },
            required: true,
        }),
{
    report_laws::law_output_reaches_its_browser(
        server,
        device_id,
        agent_session_id,
        output,
        now,
        session_id,
        route,
        stored,
        session_id.push('-'),
    );
    assert(session_id.push('-').len() != session_id.len());
}

/// The end of a prompt passes from the agent to the browser, with its reason.
pub proof fn law_finish_passes_from_agent_to_browser(
    server: ServerModel,
    device_id: Seq<char>,
    state: RuntimeModel,
    agent_session_id: Seq<char>,
    stop_reason: Seq<char>,
    now: u64,
    session_id: Seq<char>,
    route: SessionModel,
    stored: PersistedModel,
)
    requires
        report_laws::is_meant(server.sessions, device_id, agent_session_id, session_id),
        string_map::lookup(server.sessions, session_id) == Some(route),
        route.browser_id.len() > 0,
        string_map::holds(server.browsers, route.browser_id),
        string_map::lookup(server.store.sessions, session_id) == Some(stored),
    ensures
        last_delivery(
            heard_of(
                server,
                device_id,
                state,
                InternalEventModel::PromptFinished { session_id: agent_session_id, stop_reason },
                now,
            ).1,
        ) == (DeliveryModel::Browser {
            browser_id: route.browser_id,
            message: BrowserReplyModel::PromptFinished { session_id, stop_reason },
            required: true,
        }),
{
    report_laws::law_finish_reaches_its_browser(
        server,
        device_id,
        agent_session_id,
        stop_reason,
        now,
        session_id,
        route,
        stored,
    );
}

/// A request passes from the agent to the browser with all its choices.
pub proof fn law_request_passes_from_agent_to_browser(
    server: ServerModel,
    device_id: Seq<char>,
    state: RuntimeModel,
    agent_session_id: Seq<char>,
    request_id: Seq<char>,
    options: Seq<PermissionOptionModel>,
    now: u64,
    session_id: Seq<char>,
    route: SessionModel,
    stored: PersistedModel,
)
    requires
        report_laws::is_meant(server.sessions, device_id, agent_session_id, session_id),
        string_map::lookup(server.sessions, session_id) == Some(route),
        string_map::holds(server.browsers, route.browser_id),
        string_map::lookup(server.store.sessions, session_id) == Some(stored),
        stored.summary.status != "closed"@,
    ensures
        last_delivery(
            heard_of(
                server,
                device_id,
                state,
                InternalEventModel::PermissionRequested {
                    request_id,
                    session_id: Some(agent_session_id),
                    options,
                },
                now,
            ).1,
        ) == (DeliveryModel::Browser {
            browser_id: route.browser_id,
            message: BrowserReplyModel::PermissionRequested {
                request_id,
                session_id: Some(session_id),
                options,
            },
            required: true,
        }),
{
    report_laws::law_request_reaches_its_browser(
        server,
        device_id,
        agent_session_id,
        request_id,
        options,
        now,
        session_id,
        route,
        stored,
    );
}

/// What a device does about a delivery that it is sent.
pub open spec fn done_about(
    state: RuntimeModel,
    workspaces: Seq<WorkspaceConfigModel>,
    default_workspace_id: Seq<char>,
    delivery: DeliveryModel,
) -> (RuntimeModel, Result<Seq<ActionModel>, FailureModel>) {
    runtime::command_step(
        state,
        workspaces,
        default_workspace_id,
        transport::command_of(delivery->Client_message).unwrap(),
    )
}

/// A prompt passes from the browser to the agent: to the device that has the
/// session, into the agent's session behind it, with the text as written.
pub proof fn law_prompt_passes_from_browser_to_agent(
    server: ServerModel,
    browser_id: Seq<char>,
    user_id: Seq<char>,
    session_id: Seq<char>,
    prompt: Seq<char>,
    now: u64,
    stored: PersistedModel,
    route: SessionModel,
    state: RuntimeModel,
    workspaces: Seq<WorkspaceConfigModel>,
    default_workspace_id: Seq<char>,
    agent_session_id: Seq<char>,
)
    requires
        request_laws::may_prompt(server, browser_id, user_id, session_id, stored, route),
        server.devices.contains(route.device_id),
        !state.prompt_in_flight,
        string_map::lookup(state.sessions, session_id) == Some(agent_session_id),
    ensures
        ({
            let delivery = last_delivery(
                request_laws::answered(
                    server,
                    browser_id,
                    user_id,
                    BrowserRequestModel::Prompt { session_id, text: prompt },
                    now,
                ).1,
            );
            &&& delivery is Client
            &&& delivery->Client_device_id == route.device_id
            &&& done_about(state, workspaces, default_workspace_id, delivery).1 == Ok::<
                _,
                FailureModel,
            >(
                seq![
                    ActionModel::RunPrompt {
                        session_ref: session_id,
                        agent_session_id,
                        text: prompt,
                    },
                ],
            )
        }),
{
    request_laws::law_prompt_reaches_its_device(
        server,
        browser_id,
        user_id,
        session_id,
        prompt,
        now,
        stored,
        route,
    );
}

/// An answer passes from the browser to the agent that asked, with the choice
/// that was made.
pub proof fn law_answer_passes_from_browser_to_agent(
    server: ServerModel,
    browser_id: Seq<char>,
    user_id: Seq<char>,
    request_id: Seq<char>,
    selected_index: usize,
    now: u64,
    pending: PendingModel,
    state: RuntimeModel,
    workspaces: Seq<WorkspaceConfigModel>,
    default_workspace_id: Seq<char>,
)
    requires
        string_map::distinct(server.permissions),
        string_map::lookup(server.permissions, request_id) == Some(pending),
        pending.browser_id == browser_id,
        server.devices.contains(pending.device_id),
        pending.session_id matches Some(session_id) ==> string_map::holds(
            server.store.sessions,
            session_id,
        ),
        state.pending_permissions.contains(request_id),
    ensures
        ({
            let delivery = last_delivery(
                request_laws::answered(
                    server,
                    browser_id,
                    user_id,
                    BrowserRequestModel::ResolvePermission { request_id, selected_index },
                    now,
                ).1,
            );
            &&& delivery is Client
            &&& delivery->Client_device_id == pending.device_id
            &&& done_about(state, workspaces, default_workspace_id, delivery).1 == Ok::<
                _,
                FailureModel,
            >(seq![ActionModel::AnswerPermission { request_id, selected_index }])
        }),
{
    request_laws::law_answer_reaches_the_asking_device(
        server,
        browser_id,
        user_id,
        request_id,
        selected_index,
        now,
        pending,
    );
}

/// A new session passes from the browser to the agent: it is opened in the
/// workspace that was asked for, under the id that the relay server stored.
pub proof fn law_session_passes_from_browser_to_agent(
    server: ServerModel,
    browser_id: Seq<char>,
    user_id: Seq<char>,
    device: DeviceModel,
    now: u64,
    state: RuntimeModel,
    workspaces: Seq<WorkspaceConfigModel>,
    default_workspace_id: Seq<char>,
    i: int,
)
    requires
        server.devices.contains(device.device_id),
        string_map::lookup(server.store.devices, device.device_id) == Some(device),
        device.workspaces == transport::offered(workspaces),
        0 <= i < workspaces.len(),
        forall|j: int| 0 <= j < i ==> (#[trigger] workspaces[j]).id != workspaces[i].id,
    ensures
        ({
            let (after, step) = request_laws::answered(
                server,
                browser_id,
                user_id,
                BrowserRequestModel::CreateSession {
                    device_id: device.device_id,
                    workspace_id: workspaces[i].id,
                },
                now,
            );
            let delivery = last_delivery(step);
            let session_id = "relay-session-"@ + text::decimal(server.next_session_id as nat);
            &&& string_map::holds(after.store.sessions, session_id)
            &&& delivery is Client
            &&& delivery->Client_device_id == device.device_id
            &&& done_about(state, workspaces, default_workspace_id, delivery).1 == Ok::<
                _,
                FailureModel,
            >(
                seq![
                    ActionModel::OpenSession {
                        workspace: workspaces[i],
                        purpose: PurposeModel::Create { session_id: Some(session_id) },
                    },
                ],
            )
        }),
{
    assert(device.workspaces[i].workspace_id == workspaces[i].id);
    request_laws::law_session_is_created_where_asked(
        server,
        browser_id,
        user_id,
        device.device_id,
        workspaces[i].id,
        now,
        device,
        i,
    );
    lemma_first_workspace(workspaces, workspaces[i].id, i);
}

// ---------------------------------------------------------------------------
// Greeting
// ---------------------------------------------------------------------------

/// A home client that introduces itself to a relay server, with a token that is
/// allowed there, is let in as the device that its settings name, with the
/// workspaces that it offers; with a token that is not, it is turned away.
pub proof fn law_introduction_is_understood(
    settings: RelayTransportConfig,
    workspaces: Vec<WorkspaceConfig>,
    client_version: &str,
    introduction: ClientToServerMessage,
    auth: ClientAuthConfig,
    greeting: Greeting,
)
    requires
        call_ensures(
            transport::hello_message,
            (&settings, &workspaces, client_version),
            introduction,
        ),
        call_ensures(
            sockets::greet_client,
            (&auth, Frame::Message { message: introduction }),
            greeting,
        ),
    ensures
        ({
            let token = settings.auth_token@;
            let accepted = auth.deep_view().accepted_tokens;
            let revoked = auth.deep_view().revoked_tokens;
            if !revoked.contains(token) && (accepted.len() == 0 || accepted.contains(token)) {
                &&& greeting matches Greeting::Admit { device, .. }
                &&& device.deep_view().device_id == settings.device_id@
                &&& device.deep_view().device_name == settings.device_name@
                &&& device.deep_view().connected
                &&& device.deep_view().workspaces.len() == workspaces@.len()
                &&& forall|i: int|
                    0 <= i < workspaces@.len() ==> (
                    #[trigger] device.deep_view().workspaces[i]).workspace_id == workspaces@[i].id@
                        && device.deep_view().workspaces[i].workspace_name
                        == workspaces@[i].name@
            } else {
                greeting is Refuse
            }
        }),
{
}

/// What is sent to the relay server of output that the agent gave says the very
/// session and the very text.
pub proof fn law_output_message_is_exact(
    session_id: String,
    text: String,
    message: ClientToServerMessage,
)
    requires
        call_ensures(
            transport::map_home_event,
            (HomeClientEvent::OutputChunk { session_id, text },),
            message,
        ),
    ensures
        message matches ClientToServerMessage::OutputChunk { session_id: of, text: said } && of@
            == session_id@ && said@ == text@,
{
}

/// What the home client makes of a prompt that the relay server sends says the
/// very session and the very text; of an answer, the very request and choice.
pub proof fn law_command_is_exact(
    session_id: String,
    text: String,
    request_id: String,
    selected_index: usize,
    prompt: Option<HomeClientCommand>,
    answer: Option<HomeClientCommand>,
)
    requires
        call_ensures(
            transport::map_server_message,
            (
                ServerToClientMessage::Prompt {
                    session_id: Some(session_id),
                    text,
                    create_session_if_missing: false,
                },
            ),
            prompt,
        ),
        call_ensures(
            transport::map_server_message,
            (ServerToClientMessage::ResolvePermission { request_id, selected_index },),
            answer,
        ),
    ensures
        prompt matches Some(HomeClientCommand::Prompt {
            session_id: Some(of),
            text: said,
            create_session_if_missing: false,
        }) && of@ == session_id@ && said@ == text@,
        answer matches Some(HomeClientCommand::ResolvePermission {
            request_id: of,
            selected_index: chosen,
        }) && of@ == request_id@ && chosen == selected_index,
{
}

/// What a frame from the relay server asks for: a message its command, a ping its
/// answer, the end of the connection to leave; what cannot be understood is
/// reported in the words of the failure.
pub proof fn law_frames_are_answered(message: ServerToClientMessage, error: String, len: usize)
    ensures
        ({
            let reaction = transport::reaction_to(Frame::Message { message });
            &&& reaction.command == transport::command_of(message.deep_view())
            &&& reaction.reply is None
            &&& !reaction.answer_ping
            &&& !reaction.leave
        }),
        ({
            let reaction = transport::reaction_to(Frame::Malformed { error });
            &&& reaction.command is None
            &&& reaction.reply == Some(
                ClientMessageModel::Error { message: "无法解析 server 消息: "@ + error@ },
            )
            &&& !reaction.leave
        }),
        ({
            let reaction = transport::reaction_to(Frame::Ping);
            reaction.answer_ping && !reaction.leave && reaction.command is None && reaction.reply
                is None
        }),
        ({
            let reaction = transport::reaction_to(Frame::Pong);
            !reaction.answer_ping && !reaction.leave && reaction.command is None
                && reaction.reply is None
        }),
        ({
            let reaction = transport::reaction_to(Frame::Close { frame: None });
            reaction.leave && reaction.command == Some(CommandModel::Exit)
        }),
        ({
            let reaction = transport::reaction_to(Frame::Binary { len });
            reaction.reply is Some && reaction.command is None && !reaction.leave
        }),
        ({
            let reaction = transport::reaction_to(Frame::Failed { error });
            &&& reaction.leave
            &&& reaction.command == Some(CommandModel::Exit)
            &&& reaction.reply == Some(
                ClientMessageModel::Error { message: "relay websocket 读取失败: "@ + error@ },
            )
        }),
        ({
            let reaction = transport::reaction_to(Frame::Ended);
            reaction.leave && reaction.command is None && reaction.reply is None
        }),
{
}

/// An agent is known by its title, or else by its name, or else by the usual one;
/// a choice counts where the request offers it.
pub proof fn law_agent_and_choice(
    title: String,
    name: String,
    titled: String,
    named: String,
    unnamed: String,
    option_count: usize,
    selected_index: usize,
    selected: Option<usize>,
)
    requires
        call_ensures(runtime::agent_name, (Some((Some(title), name)),), titled),
        call_ensures(runtime::agent_name, (Some((None, name)),), named),
        call_ensures(runtime::agent_name, (None,), unnamed),
        call_ensures(runtime::selected_option, (option_count, selected_index), selected),
    ensures
        titled@ == title@,
        named@ == name@,
        unnamed@ == "codex-acp"@,
        selected_index < option_count ==> selected == Some(selected_index),
        selected_index >= option_count ==> selected is None,
{
}

/// A failure names the workspace that was missed.
pub proof fn law_failures_name_the_workspace(workspace_id: Seq<char>)
    ensures
        runtime::failure_text(FailureModel::UnknownWorkspace { workspace_id })
            == "未知 workspace: "@ + workspace_id,
        runtime::failure_text(FailureModel::NoDefaultWorkspace { workspace_id })
            == "默认 workspace 不存在: "@ + workspace_id,
        runtime::failure_text(FailureModel::NoWorkspace) == "当前没有可用工作区，无法创建会话"@,
        runtime::failure_text(FailureModel::SessionNotCreated) == "创建会话失败"@,
{
}

} // verus!
