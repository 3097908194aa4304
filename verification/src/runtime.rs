//! The home client between its transport and its agent: what it does about
//! commands, and about what happens in the agent.
//!
//! The work is done in steps. A step says what to do next; what comes of it is
//! handed back.
use crate::config::{WorkspaceConfig, WorkspaceConfigModel};
use crate::duplicate::Duplicate;
use crate::protocol::PermissionOptionModel;
use crate::seqs::{vec_empty, vec_push};
use crate::seqs;
use crate::string_map::{StringMap, StringSet};
use crate::string_map;
use crate::text::{join2, join4, number_string, same};
use crate::text;
use crate::transport;
use crate::types::{
    CommandModel, HomeClientCommand, HomeClientEvent, HomeEventModel, PermissionOptionView,
    WorkspaceView,
};
use vstd::prelude::*;

verus! {

/// Something that happened in the agent.
#[derive(Debug, Clone)]
pub enum InternalEvent {
    OutputChunk { session_id: String, text: String },
    PermissionRequested {
        request_id: String,
        session_id: Option<String>,
        options: Vec<PermissionOptionView>,
    },
    PromptFinished { session_id: String, stop_reason: String },
    PromptFailed { session_id: String, message: String },
    RuntimeError { message: String },
}

/// What a [`InternalEvent`] says.
#[verifier::ext_equal]
pub enum InternalEventModel {
    OutputChunk { session_id: Seq<char>, text: Seq<char> },
    PermissionRequested {
        request_id: Seq<char>,
        session_id: Option<Seq<char>>,
        options: Seq<PermissionOptionModel>,
    },
    PromptFinished { session_id: Seq<char>, stop_reason: Seq<char> },
    PromptFailed { session_id: Seq<char>, message: Seq<char> },
    RuntimeError { message: Seq<char> },
}

impl DeepView for InternalEvent {
    type V = InternalEventModel;

    open spec fn deep_view(&self) -> InternalEventModel {
        match self {
            InternalEvent::OutputChunk { session_id, text } => InternalEventModel::OutputChunk {
                session_id: session_id@,
                text: text@,
            },
            InternalEvent::PermissionRequested {
                request_id,
                session_id,
                options,
            } => InternalEventModel::PermissionRequested {
                request_id: request_id@,
                session_id: session_id.deep_view(),
                options: options.deep_view(),
            },
            InternalEvent::PromptFinished {
                session_id,
                stop_reason,
            } => InternalEventModel::PromptFinished {
                session_id: session_id@,
                stop_reason: stop_reason@,
            },
            InternalEvent::PromptFailed {
                session_id,
                message,
            } => InternalEventModel::PromptFailed {
                session_id: session_id@,
                message: message@,
            },
            InternalEvent::RuntimeError { message } => InternalEventModel::RuntimeError {
                message: message@,
            },
        }
    }
}

/// What a session of the agent is opened for: to be there, or for a prompt.
#[derive(Debug, Clone)]
pub enum SessionPurpose {
    Create { session_id: Option<String> },
    Prompt { text: String },
}

/// What a [`SessionPurpose`] says.
#[verifier::ext_equal]
pub enum PurposeModel {
    Create { session_id: Option<Seq<char>> },
    Prompt { text: Seq<char> },
}

impl DeepView for SessionPurpose {
    type V = PurposeModel;

    open spec fn deep_view(&self) -> PurposeModel {
        match self {
            SessionPurpose::Create { session_id } => PurposeModel::Create {
                session_id: session_id.deep_view(),
            },
            SessionPurpose::Prompt { text } => PurposeModel::Prompt {
                text: text@,
            },
        }
    }
}

/// What to do next.
#[derive(Debug, Clone)]
pub enum RuntimeAction {
    Publish { event: HomeClientEvent },
    OpenSession { workspace: WorkspaceConfig, purpose: SessionPurpose },
    LoadSession { session_id: String, client_session_id: String, path: String },
    RunPrompt { session_ref: String, agent_session_id: String, text: String },
    AnswerPermission { request_id: String, selected_index: usize },
    CancelPrompt { agent_session_id: String },
    Stop,
}

/// What a [`RuntimeAction`] says.
#[verifier::ext_equal]
pub enum ActionModel {
    Publish { event: HomeEventModel },
    OpenSession { workspace: WorkspaceConfigModel, purpose: PurposeModel },
    LoadSession { session_id: Seq<char>, client_session_id: Seq<char>, path: Seq<char> },
    RunPrompt { session_ref: Seq<char>, agent_session_id: Seq<char>, text: Seq<char> },
    AnswerPermission { request_id: Seq<char>, selected_index: usize },
    CancelPrompt { agent_session_id: Seq<char> },
    Stop,
}

impl DeepView for RuntimeAction {
    type V = ActionModel;

    open spec fn deep_view(&self) -> ActionModel {
        match self {
            RuntimeAction::Publish { event } => ActionModel::Publish {
                event: event.deep_view(),
            },
            RuntimeAction::OpenSession { workspace, purpose } => ActionModel::OpenSession {
                workspace: workspace.deep_view(),
                purpose: purpose.deep_view(),
            },
            RuntimeAction::LoadSession {
                session_id,
                client_session_id,
                path,
            } => ActionModel::LoadSession {
                session_id: session_id@,
                client_session_id: client_session_id@,
                path: path@,
            },
            RuntimeAction::RunPrompt {
                session_ref,
                agent_session_id,
                text,
            } => ActionModel::RunPrompt {
                session_ref: session_ref@,
                agent_session_id: agent_session_id@,
                text: text@,
            },
            RuntimeAction::AnswerPermission {
                request_id,
                selected_index,
            } => ActionModel::AnswerPermission {
                request_id: request_id@,
                selected_index: *selected_index,
            },
            RuntimeAction::CancelPrompt { agent_session_id } => ActionModel::CancelPrompt {
                agent_session_id: agent_session_id@,
            },
            RuntimeAction::Stop => ActionModel::Stop,
        }
    }
}

/// What ends the runtime.
#[derive(Debug, Clone)]
pub enum RuntimeFailure {
    UnknownWorkspace { workspace_id: String },
    NoDefaultWorkspace { workspace_id: String },
    NoWorkspace,
    SessionNotCreated,
}

/// What a [`RuntimeFailure`] says.
#[verifier::ext_equal]
pub enum FailureModel {
    UnknownWorkspace { workspace_id: Seq<char> },
    NoDefaultWorkspace { workspace_id: Seq<char> },
    NoWorkspace,
    SessionNotCreated,
}

impl DeepView for RuntimeFailure {
    type V = FailureModel;

    open spec fn deep_view(&self) -> FailureModel {
        match self {
            RuntimeFailure::UnknownWorkspace { workspace_id } => FailureModel::UnknownWorkspace {
                workspace_id: workspace_id@,
            },
            RuntimeFailure::NoDefaultWorkspace {
                workspace_id,
            } => FailureModel::NoDefaultWorkspace {
                workspace_id: workspace_id@,
            },
            RuntimeFailure::NoWorkspace => FailureModel::NoWorkspace,
            RuntimeFailure::SessionNotCreated => FailureModel::SessionNotCreated,
        }
    }
}

/// What the runtime remembers.
#[derive(Debug, Clone)]
pub struct RuntimeState {
    pub active_prompt_session: Option<String>,
    pub next_permission_request_id: u64,
    pub pending_permissions: StringSet,
    pub sessions: StringMap<String>,
    pub prompt_in_flight: bool,
}

/// What a [`RuntimeState`] says. The sessions are those of the agent, under the
/// ids by which the transport knows them.
#[verifier::ext_equal]
pub struct RuntimeModel {
    pub active_prompt_session: Option<Seq<char>>,
    pub next_permission_request_id: u64,
    pub pending_permissions: Seq<Seq<char>>,
    pub sessions: Seq<(Seq<char>, Seq<char>)>,
    pub prompt_in_flight: bool,
}

impl DeepView for RuntimeState {
    type V = RuntimeModel;

    open spec fn deep_view(&self) -> RuntimeModel {
        RuntimeModel {
            active_prompt_session: self.active_prompt_session.deep_view(),
            next_permission_request_id: self.next_permission_request_id,
            pending_permissions: self.pending_permissions.deep_view(),
            sessions: self.sessions.deep_view(),
            prompt_in_flight: self.prompt_in_flight,
        }
    }
}

impl Default for RuntimeState {
    fn default() -> (r: Self)
        ensures
            r.deep_view() == (RuntimeModel {
                active_prompt_session: None,
                next_permission_request_id: 1,
                pending_permissions: Seq::empty(),
                sessions: Seq::empty(),
                prompt_in_flight: false,
            }),
    {
        RuntimeState {
            active_prompt_session: None,
            next_permission_request_id: 1,
            pending_permissions: StringSet::new(),
            sessions: StringMap::new(),
            prompt_in_flight: false,
        }
    }
}

pub open spec fn failure_text(failure: FailureModel) -> Seq<char> {
    match failure {
        FailureModel::UnknownWorkspace { workspace_id } => "未知 workspace: "@ + workspace_id,
        FailureModel::NoDefaultWorkspace { workspace_id } => "默认 workspace 不存在: "@
            + workspace_id,
        FailureModel::NoWorkspace => "当前没有可用工作区，无法创建会话"@,
        FailureModel::SessionNotCreated => "创建会话失败"@,
    }
}

impl RuntimeFailure {
    pub fn message(&self) -> (r: String)
        ensures
            r@ == failure_text(self.deep_view()),
    {
        match self {
            RuntimeFailure::UnknownWorkspace { workspace_id } => join2(
                "未知 workspace: ",
                workspace_id.as_str(),
            ),
            RuntimeFailure::NoDefaultWorkspace { workspace_id } => join2(
                "默认 workspace 不存在: ",
                workspace_id.as_str(),
            ),
            RuntimeFailure::NoWorkspace => "当前没有可用工作区，无法创建会话".to_string(),
            RuntimeFailure::SessionNotCreated => "创建会话失败".to_string(),
        }
    }
}

/// What is said by a result.
pub open spec fn runtime_result<T: DeepView>(result: Result<T, RuntimeFailure>) -> Result<
    T::V,
    FailureModel,
> {
    match result {
        Ok(value) => Ok(value.deep_view()),
        Err(failure) => Err(failure.deep_view()),
    }
}

// ---------------------------------------------------------------------------
// Start
// ---------------------------------------------------------------------------

/// What the agent is called: by its title, or else its name.
pub fn agent_name(info: Option<(Option<String>, String)>) -> (r: String)
    ensures
        r@ == match info {
            Some((Some(title), _)) => title@,
            Some((None, name)) => name@,
            None => "codex-acp"@,
        },
{
    match info {
        Some((Some(title), _)) => title,
        Some((None, name)) => name,
        None => "codex-acp".to_string(),
    }
}

/// What is said once the agent is there: that it is ready, and by which way
/// the home client is reached.
pub open spec fn startup_events(
    agent_name: Seq<char>,
    workspaces: Seq<WorkspaceConfigModel>,
    through_relay: bool,
) -> Seq<HomeEventModel> {
    seq![
        HomeEventModel::Ready { agent_name, workspaces: transport::offered(workspaces) },
        HomeEventModel::Info {
            message: if through_relay {
                "当前为远程 relay transport。"@
            } else {
                "当前为本地 debug transport；下一步会接入远程 relay transport。"@
            },
        },
    ]
}

fn workspace_views(workspaces: &Vec<WorkspaceConfig>) -> (r: Vec<WorkspaceView>)
    ensures
        r.deep_view() == transport::offered(workspaces.deep_view()),
{
    let ghost all = transport::offered(workspaces.deep_view());
    let mut out: Vec<WorkspaceView> = vec_empty();
    for i in 0..workspaces.len()
        invariant
            all == transport::offered(workspaces.deep_view()),
            out.deep_view() == all.take(i as int),
    {
        let ghost done = out.deep_view();
        let view = WorkspaceView {
            workspace_id: workspaces[i].id.clone(),
            workspace_name: workspaces[i].name.clone(),
        };
        assert(all[i as int] == view.deep_view());
        vec_push(&mut out, view);
        assert(done.push(all[i as int]) =~= all.take(i + 1));
    }
    assert(all.take(all.len() as int) == all);
    out
}

pub fn startup(agent_name: String, workspaces: &Vec<WorkspaceConfig>, through_relay: bool) -> (r:
    Vec<HomeClientEvent>)
    ensures
        r.deep_view() == startup_events(agent_name@, workspaces.deep_view(), through_relay),
{
    let mut events: Vec<HomeClientEvent> = vec_empty();
    vec_push(
        &mut events,
        HomeClientEvent::Ready { agent_name, workspaces: workspace_views(workspaces) },
    );
    let message = if through_relay {
        "当前为远程 relay transport。"
    } else {
        "当前为本地 debug transport；下一步会接入远程 relay transport。"
    };
    vec_push(&mut events, HomeClientEvent::Info { message: message.to_string() });
    assert(events.deep_view() =~= startup_events(
        agent_name@,
        workspaces.deep_view(),
        through_relay,
    ));
    events
}

// ---------------------------------------------------------------------------
// Workspaces
// ---------------------------------------------------------------------------

/// The first workspace with an id.
pub open spec fn workspace_by_id(workspaces: Seq<WorkspaceConfigModel>, id: Seq<char>) -> Option<
    WorkspaceConfigModel,
>
    decreases workspaces.len(),
{
    if workspaces.len() == 0 {
        None
    } else if workspaces[0].id == id {
        Some(workspaces[0])
    } else {
        workspace_by_id(workspaces.skip(1), id)
    }
}

/// The workspace that is asked for, or else the default one, or else the first.
pub open spec fn chosen_workspace(
    workspaces: Seq<WorkspaceConfigModel>,
    requested: Option<Seq<char>>,
    default: Option<Seq<char>>,
) -> Result<WorkspaceConfigModel, FailureModel> {
    match (requested, default) {
        (Some(workspace_id), _) => match workspace_by_id(workspaces, workspace_id) {
            Some(workspace) => Ok(workspace),
            None => Err(FailureModel::UnknownWorkspace { workspace_id }),
        },
        (None, Some(workspace_id)) => match workspace_by_id(workspaces, workspace_id) {
            Some(workspace) => Ok(workspace),
            None => Err(FailureModel::NoDefaultWorkspace { workspace_id }),
        },
        (None, None) => if workspaces.len() > 0 {
            Ok(workspaces[0])
        } else {
            Err(FailureModel::NoWorkspace)
        },
    }
}

fn find_workspace(workspaces: &Vec<WorkspaceConfig>, id: &str) -> (r: Option<WorkspaceConfig>)
    ensures
        r.deep_view() == workspace_by_id(workspaces.deep_view(), id@),
{
    let ghost all = workspaces.deep_view();
    assert(all.skip(0) == all);
    for i in 0..workspaces.len()
        invariant
            all == workspaces.deep_view(),
            workspace_by_id(all, id@) == workspace_by_id(all.skip(i as int), id@),
    {
        assert(all.skip(i as int)[0] == workspaces@[i as int].deep_view());
        assert(all.skip(i as int).skip(1) == all.skip(i + 1));
        if same(workspaces[i].id.as_str(), id) {
            return Some(workspaces[i].duplicate());
        }
    }
    None
}

/// What is said by an optional text.
pub open spec fn id_model(id: Option<&str>) -> Option<Seq<char>> {
    match id {
        Some(id) => Some(id@),
        None => None,
    }
}

pub fn resolve_workspace(
    workspaces: &Vec<WorkspaceConfig>,
    requested_workspace_id: Option<&str>,
    default_workspace_id: Option<&str>,
) -> (r: Result<WorkspaceConfig, RuntimeFailure>)
    ensures
        runtime_result(r) == chosen_workspace(
            workspaces.deep_view(),
            id_model(requested_workspace_id),
            id_model(default_workspace_id),
        ),
{
    match requested_workspace_id {
        Some(workspace_id) => match find_workspace(workspaces, workspace_id) {
            Some(workspace) => Ok(workspace),
            None => Err(
                RuntimeFailure::UnknownWorkspace { workspace_id: workspace_id.to_string() },
            ),
        },
        None => match default_workspace_id {
            Some(workspace_id) => match find_workspace(workspaces, workspace_id) {
                Some(workspace) => Ok(workspace),
                None => Err(
                    RuntimeFailure::NoDefaultWorkspace { workspace_id: workspace_id.to_string() },
                ),
            },
            None => {
                if workspaces.len() > 0 {
                    assert(workspaces.deep_view()[0] == workspaces@[0].deep_view());
                    Ok(workspaces[0].duplicate())
                } else {
                    Err(RuntimeFailure::NoWorkspace)
                }
            },
        },
    }
}

// ---------------------------------------------------------------------------
// Commands
// ---------------------------------------------------------------------------

pub open spec fn publish(event: HomeEventModel) -> ActionModel {
    ActionModel::Publish { event }
}

pub open spec fn publish_error(message: Seq<char>) -> Seq<ActionModel> {
    seq![publish(HomeEventModel::Error { message })]
}

fn error_action(message: String) -> (r: Vec<RuntimeAction>)
    ensures
        r.deep_view() == publish_error(message@),
{
    let mut actions: Vec<RuntimeAction> = vec_empty();
    vec_push(
        &mut actions,
        RuntimeAction::Publish { event: HomeClientEvent::Error { message } },
    );
    assert(actions.deep_view() =~= publish_error(message@));
    actions
}

fn one_action(action: RuntimeAction) -> (r: Vec<RuntimeAction>)
    ensures
        r.deep_view() == seq![action.deep_view()],
{
    let mut actions: Vec<RuntimeAction> = vec_empty();
    vec_push(&mut actions, action);
    assert(actions.deep_view() =~= seq![action.deep_view()]);
    actions
}

/// The state while a prompt runs.
pub open spec fn with_prompt(state: RuntimeModel, session_ref: Seq<char>) -> RuntimeModel {
    RuntimeModel { prompt_in_flight: true, active_prompt_session: Some(session_ref), ..state }
}

/// The state once the agent is done with a prompt.
pub open spec fn without_prompt(state: RuntimeModel) -> RuntimeModel {
    RuntimeModel { active_prompt_session: None, ..state }
}

/// The agent asks for a permission, in the session whose prompt runs.
pub open spec fn permission_asked_step(
    state: RuntimeModel,
    options: Seq<(Seq<char>, Seq<char>)>,
) -> (RuntimeModel, InternalEventModel) {
    let request_id = permission_id(state.next_permission_request_id);
    (
        RuntimeModel {
            next_permission_request_id: (state.next_permission_request_id + 1) as u64,
            pending_permissions: string_map::with_member(state.pending_permissions, request_id),
            ..state
        },
        InternalEventModel::PermissionRequested {
            request_id,
            session_id: state.active_prompt_session,
            options: numbered_options(options),
        },
    )
}

/// A prompt: only one at a time, to a session that is known, or to a new one
/// where that is allowed.
pub open spec fn prompt_step(
    state: RuntimeModel,
    workspaces: Seq<WorkspaceConfigModel>,
    default_workspace_id: Seq<char>,
    session_id: Option<Seq<char>>,
    text: Seq<char>,
    create_session_if_missing: bool,
) -> (RuntimeModel, Result<Seq<ActionModel>, FailureModel>) {
    if state.prompt_in_flight {
        (
            state,
            Ok(publish_error("当前已有一个进行中的 prompt，请等待完成后再发送。"@)),
        )
    } else {
        match session_id {
            Some(session_ref) => match string_map::lookup(state.sessions, session_ref) {
                Some(agent_session_id) => (
                    with_prompt(state, session_ref),
                    Ok(seq![ActionModel::RunPrompt { session_ref, agent_session_id, text }]),
                ),
                None => (state, Ok(publish_error("未知 session: "@ + session_ref))),
            },
            None => if !create_session_if_missing {
                (
                    state,
                    Ok(publish_error("当前命令没有指定 session，且不允许自动创建。"@)),
                )
            } else {
                (
                    state,
                    match chosen_workspace(workspaces, None, Some(default_workspace_id)) {
                        Err(failure) => Err(failure),
                        Ok(workspace) => Ok(
                            seq![
                                ActionModel::OpenSession {
                                    workspace,
                                    purpose: PurposeModel::Prompt { text },
                                },
                            ],
                        ),
                    },
                )
            },
        }
    }
}

/// What is done about a command.
pub open spec fn command_step(
    state: RuntimeModel,
    workspaces: Seq<WorkspaceConfigModel>,
    default_workspace_id: Seq<char>,
    command: CommandModel,
) -> (RuntimeModel, Result<Seq<ActionModel>, FailureModel>) {
    match command {
        CommandModel::CreateSession { session_id, workspace_id } => (
            state,
            match chosen_workspace(workspaces, workspace_id, Some(default_workspace_id)) {
                Err(failure) => Err(failure),
                Ok(workspace) => Ok(
                    seq![
                        ActionModel::OpenSession {
                            workspace,
                            purpose: PurposeModel::Create { session_id },
                        },
                    ],
                ),
            },
        ),
        CommandModel::ResumeSession { session_id, client_session_id, workspace_id } => (
            state,
            match chosen_workspace(workspaces, Some(workspace_id), Some(default_workspace_id)) {
                Err(failure) => Ok(
                    seq![
                        publish(
                            HomeEventModel::SessionResumeFailed {
                                session_id,
                                client_session_id,
                                message: failure_text(failure),
                            },
                        ),
                    ],
                ),
                Ok(workspace) => Ok(
                    seq![
                        ActionModel::LoadSession {
                            session_id,
                            client_session_id,
                            path: workspace.path,
                        },
                    ],
                ),
            },
        ),
        CommandModel::Prompt { session_id, text, create_session_if_missing } => prompt_step(
            state,
            workspaces,
            default_workspace_id,
            session_id,
            text,
            create_session_if_missing,
        ),
        CommandModel::ResolvePermission { request_id, selected_index } => if state.pending_permissions.contains(
            request_id,
        ) {
            (
                RuntimeModel {
                    pending_permissions: string_map::without_member(
                        state.pending_permissions,
                        request_id,
                    ),
                    ..state
                },
                Ok(seq![ActionModel::AnswerPermission { request_id, selected_index }]),
            )
        } else {
            (state, Ok(publish_error("未找到待处理的 permission request: "@ + request_id)))
        },
        CommandModel::CancelSession { session_id } => (
            state,
            Ok(
                match string_map::lookup(state.sessions, session_id) {
                    Some(agent_session_id) => seq![ActionModel::CancelPrompt { agent_session_id }],
                    None => publish_error("未知 session: "@ + session_id),
                },
            ),
        ),
        CommandModel::Exit => (state, Ok(seq![ActionModel::Stop])),
    }
}

/// What is done once a session of the agent was opened, or could not be.
pub open spec fn session_opened_step(
    state: RuntimeModel,
    workspace: WorkspaceConfigModel,
    purpose: PurposeModel,
    opened: Option<Seq<char>>,
) -> (RuntimeModel, Result<Seq<ActionModel>, FailureModel>) {
    match opened {
        None => (state, Err(FailureModel::SessionNotCreated)),
        Some(agent_session_id) => {
            let session_ref = match purpose {
                PurposeModel::Create { session_id: Some(session_id) } => session_id,
                _ => agent_session_id,
            };
            let after = RuntimeModel {
                sessions: string_map::put(state.sessions, session_ref, agent_session_id),
                ..state
            };
            let told = publish(
                HomeEventModel::SessionCreated {
                    session_id: session_ref,
                    client_session_id: agent_session_id,
                    workspace_id: workspace.id,
                    workspace_name: workspace.name,
                },
            );
            match purpose {
                PurposeModel::Create { .. } => (after, Ok(seq![told])),
                PurposeModel::Prompt { text } => (
                    with_prompt(after, session_ref),
                    Ok(
                        seq![
                            told,
                            ActionModel::RunPrompt { session_ref, agent_session_id, text },
                        ],
                    ),
                ),
            }
        },
    }
}

/// What is done once a session of the agent was loaded, or could not be.
pub open spec fn session_loaded_step(
    state: RuntimeModel,
    session_id: Seq<char>,
    client_session_id: Seq<char>,
    failure: Option<Seq<char>>,
) -> (RuntimeModel, Seq<ActionModel>) {
    match failure {
        Some(message) => (
            state,
            seq![
                publish(
                    HomeEventModel::SessionResumeFailed { session_id, client_session_id, message },
                ),
            ],
        ),
        None => (
            RuntimeModel {
                sessions: string_map::put(state.sessions, session_id, client_session_id),
                ..state
            },
            seq![publish(HomeEventModel::SessionResumed { session_id, client_session_id })],
        ),
    }
}

/// An optional text, borrowed.
fn borrowed(value: &Option<String>) -> (r: Option<&str>)
    ensures
        id_model(r) == value.deep_view(),
{
    match value {
        Some(value) => Some(value.as_str()),
        None => None,
    }
}

impl RuntimeState {
    /// A prompt begins.
    pub fn begin_prompt(&mut self, session_ref: &str)
        ensures
            final(self).deep_view() == with_prompt(old(self).deep_view(), session_ref@),
    {
        self.prompt_in_flight = true;
        self.active_prompt_session = Some(session_ref.to_string());
    }

    /// The agent is done with a prompt.
    pub fn end_prompt(&mut self)
        ensures
            final(self).deep_view() == without_prompt(old(self).deep_view()),
            final(self).deep_view() == (RuntimeModel {
                active_prompt_session: None,
                ..old(self).deep_view()
            }),
    {
        self.active_prompt_session = None;
    }

    fn prompt(
        &mut self,
        workspaces: &Vec<WorkspaceConfig>,
        default_workspace_id: &str,
        session_id: Option<String>,
        text: String,
        create_session_if_missing: bool,
    ) -> (r: Result<Vec<RuntimeAction>, RuntimeFailure>)
        ensures
            (final(self).deep_view(), runtime_result(r)) == prompt_step(
                old(self).deep_view(),
                workspaces.deep_view(),
                default_workspace_id@,
                session_id.deep_view(),
                text@,
                create_session_if_missing,
            ),
    {
        if self.prompt_in_flight {
            return Ok(
                error_action("当前已有一个进行中的 prompt，请等待完成后再发送。".to_string()),
            );
        }
        match session_id {
            Some(session_ref) => {
                let known = match self.sessions.get(session_ref.as_str()) {
                    Some(agent_session_id) => Some(agent_session_id.clone()),
                    None => None,
                };
                match known {
                    Some(agent_session_id) => {
                        self.begin_prompt(session_ref.as_str());
                        Ok(
                            one_action(
                                RuntimeAction::RunPrompt { session_ref, agent_session_id, text },
                            ),
                        )
                    },
                    None => Ok(error_action(join2("未知 session: ", session_ref.as_str()))),
                }
            },
            None => {
                if !create_session_if_missing {
                    return Ok(
                        error_action(
                            "当前命令没有指定 session，且不允许自动创建。".to_string(),
                        ),
                    );
                }
                match resolve_workspace(workspaces, None, Some(default_workspace_id)) {
                    Err(failure) => Err(failure),
                    Ok(workspace) => Ok(
                        one_action(
                            RuntimeAction::OpenSession {
                                workspace,
                                purpose: SessionPurpose::Prompt { text },
                            },
                        ),
                    ),
                }
            },
        }
    }

    /// Says what to do about a command.
    pub fn handle_command(
        &mut self,
        workspaces: &Vec<WorkspaceConfig>,
        default_workspace_id: &str,
        command: HomeClientCommand,
    ) -> (r: Result<Vec<RuntimeAction>, RuntimeFailure>)
        ensures
            (final(self).deep_view(), runtime_result(r)) == command_step(
                old(self).deep_view(),
                workspaces.deep_view(),
                default_workspace_id@,
                command.deep_view(),
            ),
    {
        match command {
            HomeClientCommand::CreateSession { session_id, workspace_id } => {
                match resolve_workspace(
                    workspaces,
                    borrowed(&workspace_id),
                    Some(default_workspace_id),
                ) {
                    Err(failure) => Err(failure),
                    Ok(workspace) => Ok(
                        one_action(
                            RuntimeAction::OpenSession {
                                workspace,
                                purpose: SessionPurpose::Create { session_id },
                            },
                        ),
                    ),
                }
            },
            HomeClientCommand::ResumeSession { session_id, client_session_id, workspace_id } => {
                match resolve_workspace(
                    workspaces,
                    Some(workspace_id.as_str()),
                    Some(default_workspace_id),
                ) {
                    Err(failure) => {
                        let message = failure.message();
                        let event = HomeClientEvent::SessionResumeFailed {
                            session_id,
                            client_session_id,
                            message,
                        };
                        Ok(one_action(RuntimeAction::Publish { event }))
                    },
                    Ok(workspace) => Ok(
                        one_action(
                            RuntimeAction::LoadSession {
                                session_id,
                                client_session_id,
                                path: workspace.path,
                            },
                        ),
                    ),
                }
            },
            HomeClientCommand::Prompt { session_id, text, create_session_if_missing } =>
                self.prompt(
                workspaces,
                default_workspace_id,
                session_id,
                text,
                create_session_if_missing,
            ),
            HomeClientCommand::ResolvePermission { request_id, selected_index } => {
                if self.pending_permissions.contains(request_id.as_str()) {
                    self.pending_permissions.remove(request_id.as_str());
                    Ok(
                        one_action(
                            RuntimeAction::AnswerPermission { request_id, selected_index },
                        ),
                    )
                } else {
                    Ok(
                        error_action(
                            join2(
                                "未找到待处理的 permission request: ",
                                request_id.as_str(),
                            ),
                        ),
                    )
                }
            },
            HomeClientCommand::CancelSession { session_id } => {
                match self.sessions.get(session_id.as_str()) {
                    Some(agent_session_id) => Ok(
                        one_action(
                            RuntimeAction::CancelPrompt {
                                agent_session_id: agent_session_id.clone(),
                            },
                        ),
                    ),
                    None => Ok(error_action(join2("未知 session: ", session_id.as_str()))),
                }
            },
            HomeClientCommand::Exit => Ok(one_action(RuntimeAction::Stop)),
        }
    }

    /// Says what to do once a session of the agent was opened, or could not be.
    pub fn session_opened(
        &mut self,
        workspace: WorkspaceConfig,
        purpose: SessionPurpose,
        opened: Option<String>,
    ) -> (r: Result<Vec<RuntimeAction>, RuntimeFailure>)
        ensures
            (final(self).deep_view(), runtime_result(r)) == session_opened_step(
                old(self).deep_view(),
                workspace.deep_view(),
                purpose.deep_view(),
                opened.deep_view(),
            ),
    {
        let agent_session_id = match opened {
            None => {
                return Err(RuntimeFailure::SessionNotCreated);
            },
            Some(agent_session_id) => agent_session_id,
        };
        let (session_ref, text) = match purpose {
            SessionPurpose::Create { session_id: Some(session_id) } => (session_id, None),
            SessionPurpose::Create { session_id: None } => (agent_session_id.clone(), None),
            SessionPurpose::Prompt { text } => (agent_session_id.clone(), Some(text)),
        };
        self.sessions.insert(session_ref.clone(), agent_session_id.clone());
        let event = HomeClientEvent::SessionCreated {
            session_id: session_ref.clone(),
            client_session_id: agent_session_id.clone(),
            workspace_id: workspace.id,
            workspace_name: workspace.name,
        };
        let ghost told = publish(event.deep_view());
        let mut actions = one_action(RuntimeAction::Publish { event });
        match text {
            None => {},
            Some(text) => {
                self.begin_prompt(session_ref.as_str());
                let prompt = RuntimeAction::RunPrompt { session_ref, agent_session_id, text };
                let ghost running = prompt.deep_view();
                vec_push(&mut actions, prompt);
                assert(actions.deep_view() =~= seq![told, running]);
            },
        }
        Ok(actions)
    }

    /// Says what to do once a session of the agent was loaded, or could not be.
    pub fn session_loaded(
        &mut self,
        session_id: String,
        client_session_id: String,
        failure: Option<String>,
    ) -> (r: Vec<RuntimeAction>)
        ensures
            (final(self).deep_view(), r.deep_view()) == session_loaded_step(
                old(self).deep_view(),
                session_id@,
                client_session_id@,
                failure.deep_view(),
            ),
    {
        match failure {
            Some(message) => {
                let event = HomeClientEvent::SessionResumeFailed {
                    session_id,
                    client_session_id,
                    message,
                };
                one_action(RuntimeAction::Publish { event })
            },
            None => {
                self.sessions.insert(session_id.clone(), client_session_id.clone());
                let event = HomeClientEvent::SessionResumed { session_id, client_session_id };
                one_action(RuntimeAction::Publish { event })
            },
        }
    }
}

// ---------------------------------------------------------------------------
// What happens in the agent
// ---------------------------------------------------------------------------

/// What is said of something that happened in the agent. With the end of a
/// prompt the next one is let through.
pub open spec fn internal_event_step(state: RuntimeModel, event: InternalEventModel) -> (
    RuntimeModel,
    HomeEventModel,
) {
    match event {
        InternalEventModel::OutputChunk { session_id, text } => (
            state,
            HomeEventModel::OutputChunk { session_id, text },
        ),
        InternalEventModel::PermissionRequested { request_id, session_id, options } => (
            state,
            HomeEventModel::PermissionRequested { request_id, session_id, options },
        ),
        InternalEventModel::PromptFinished { session_id, stop_reason } => (
            RuntimeModel { prompt_in_flight: false, ..state },
            HomeEventModel::PromptFinished { session_id, stop_reason },
        ),
        InternalEventModel::PromptFailed { session_id, message } => (
            RuntimeModel { prompt_in_flight: false, ..state },
            HomeEventModel::Error {
                message: "session="@ + session_id + " prompt 失败: "@ + message,
            },
        ),
        InternalEventModel::RuntimeError { message } => (
            state,
            HomeEventModel::Error { message },
        ),
    }
}

/// What is offered in a permission request.
pub open spec fn numbered_options(options: Seq<(Seq<char>, Seq<char>)>) -> Seq<
    PermissionOptionModel,
> {
    Seq::new(
        options.len(),
        |i: int|
            PermissionOptionModel { index: i as usize, name: options[i].0, kind: options[i].1 },
    )
}

/// The id of a permission request.
pub open spec fn permission_id(number: u64) -> Seq<char> {
    "perm-"@ + text::decimal(number as nat)
}

/// The choice that an answer names, where there is such a choice.
pub fn selected_option(option_count: usize, selected_index: usize) -> (r: Option<usize>)
    ensures
        r == if selected_index < option_count {
            Some(selected_index)
        } else {
            None
        },
{
    if selected_index < option_count {
        Some(selected_index)
    } else {
        None
    }
}

impl RuntimeState {
    /// Takes up something that happened in the agent.
    pub fn handle_internal_event(&mut self, event: InternalEvent) -> (r: HomeClientEvent)
        ensures
            (final(self).deep_view(), r.deep_view()) == internal_event_step(
                old(self).deep_view(),
                event.deep_view(),
            ),
    {
        match event {
            InternalEvent::OutputChunk { session_id, text } => HomeClientEvent::OutputChunk {
                session_id,
                text,
            },
            InternalEvent::PermissionRequested { request_id, session_id, options } =>
                HomeClientEvent::PermissionRequested { request_id, session_id, options },
            InternalEvent::PromptFinished { session_id, stop_reason } => {
                self.prompt_in_flight = false;
                HomeClientEvent::PromptFinished { session_id, stop_reason }
            },
            InternalEvent::PromptFailed { session_id, message } => {
                self.prompt_in_flight = false;
                HomeClientEvent::Error {
                    message: join4(
                        "session=",
                        session_id.as_str(),
                        " prompt 失败: ",
                        message.as_str(),
                    ),
                }
            },
            InternalEvent::RuntimeError { message } => HomeClientEvent::Error { message },
        }
    }

    /// The agent asks for a permission, offering choices by name and kind.
    pub fn request_permission(&mut self, options: Vec<(String, String)>) -> (r: InternalEvent)
        requires
            old(self).next_permission_request_id < u64::MAX,
        ensures
            (final(self).deep_view(), r.deep_view()) == permission_asked_step(
                old(self).deep_view(),
                options.deep_view(),
            ),
            r.deep_view() == (InternalEventModel::PermissionRequested {
                request_id: permission_id(old(self).next_permission_request_id),
                session_id: old(self).deep_view().active_prompt_session,
                options: numbered_options(options.deep_view()),
            }),
            final(self).deep_view() == (RuntimeModel {
                next_permission_request_id: (old(self).next_permission_request_id + 1) as u64,
                pending_permissions: string_map::with_member(
                    old(self).deep_view().pending_permissions,
                    permission_id(old(self).next_permission_request_id),
                ),
                ..old(self).deep_view()
            }),
    {
        let request_id = join2("perm-", number_string(self.next_permission_request_id).as_str());
        self.next_permission_request_id = self.next_permission_request_id + 1;
        self.pending_permissions.insert(request_id.clone());
        let ghost all = numbered_options(options.deep_view());
        let mut views: Vec<PermissionOptionView> = vec_empty();
        for i in 0..options.len()
            invariant
                all == numbered_options(options.deep_view()),
                views.deep_view() == all.take(i as int),
        {
            let ghost done = views.deep_view();
            let view = PermissionOptionView {
                index: i,
                name: options[i].0.clone(),
                kind: options[i].1.clone(),
            };
            assert(options.deep_view()[i as int] == options@[i as int].deep_view());
            assert(all[i as int] == view.deep_view());
            vec_push(&mut views, view);
            assert(done.push(all[i as int]) =~= all.take(i + 1));
        }
        assert(all.take(all.len() as int) == all);
        InternalEvent::PermissionRequested {
            request_id,
            session_id: self.active_prompt_session.duplicate(),
            options: views,
        }
    }
}

// ---------------------------------------------------------------------------
// Laws
// ---------------------------------------------------------------------------

/// While a prompt runs, another one is turned away and changes nothing.
pub proof fn law_one_prompt_at_a_time(
    state: RuntimeModel,
    workspaces: Seq<WorkspaceConfigModel>,
    default_workspace_id: Seq<char>,
    session_id: Option<Seq<char>>,
    text: Seq<char>,
    create_session_if_missing: bool,
)
    requires
        state.prompt_in_flight,
    ensures
        command_step(
            state,
            workspaces,
            default_workspace_id,
            CommandModel::Prompt { session_id, text, create_session_if_missing },
        ) == (
            state,
            Ok::<Seq<ActionModel>, FailureModel>(
                publish_error("当前已有一个进行中的 prompt，请等待完成后再发送。"@),
            ),
        ),
{
}

/// A session that was created under an id is prompted under it, once no other
/// prompt runs.
pub proof fn law_created_session_can_be_prompted(
    state: RuntimeModel,
    workspaces: Seq<WorkspaceConfigModel>,
    default_workspace_id: Seq<char>,
    workspace: WorkspaceConfigModel,
    session_id: Seq<char>,
    agent_session_id: Seq<char>,
    text: Seq<char>,
)
    requires
        !state.prompt_in_flight,
    ensures
        ({
            let after = session_opened_step(
                state,
                workspace,
                PurposeModel::Create { session_id: Some(session_id) },
                Some(agent_session_id),
            ).0;
            command_step(
                after,
                workspaces,
                default_workspace_id,
                CommandModel::Prompt {
                    session_id: Some(session_id),
                    text,
                    create_session_if_missing: false,
                },
            ).1 == Ok::<Seq<ActionModel>, FailureModel>(
                seq![ActionModel::RunPrompt { session_ref: session_id, agent_session_id, text }],
            )
        }),
{
    string_map::law_lookup_after_put(state.sessions, session_id, agent_session_id, session_id);
}

/// A session that was resumed is prompted as the session that the agent knows.
pub proof fn law_resumed_session_can_be_prompted(
    state: RuntimeModel,
    workspaces: Seq<WorkspaceConfigModel>,
    default_workspace_id: Seq<char>,
    session_id: Seq<char>,
    client_session_id: Seq<char>,
    text: Seq<char>,
)
    requires
        !state.prompt_in_flight,
    ensures
        ({
            let after = session_loaded_step(state, session_id, client_session_id, None).0;
            command_step(
                after,
                workspaces,
                default_workspace_id,
                CommandModel::Prompt {
                    session_id: Some(session_id),
                    text,
                    create_session_if_missing: false,
                },
            ).1 == Ok::<Seq<ActionModel>, FailureModel>(
                seq![
                    ActionModel::RunPrompt {
                        session_ref: session_id,
                        agent_session_id: client_session_id,
                        text,
                    },
                ],
            )
        }),
{
    string_map::law_lookup_after_put(state.sessions, session_id, client_session_id, session_id);
}

/// Permission requests have different ids.
pub proof fn law_permission_ids_differ(first: u64, second: u64)
    requires
        first != second,
    ensures
        permission_id(first) != permission_id(second),
{
    let a = permission_id(first);
    let b = permission_id(second);
    if a == b {
        assert(a.skip("perm-"@.len() as int) =~= text::decimal(first as nat));
        assert(b.skip("perm-"@.len() as int) =~= text::decimal(second as nat));
        text::law_decimal_is_injective(first as nat, second as nat);
    }
}

/// A permission request is answered at most once.
pub proof fn law_permission_is_answered_once(
    state: RuntimeModel,
    workspaces: Seq<WorkspaceConfigModel>,
    default_workspace_id: Seq<char>,
    request_id: Seq<char>,
    first_index: usize,
    second_index: usize,
)
    requires
        state.pending_permissions.contains(request_id),
    ensures
        ({
            let (after, first) = command_step(
                state,
                workspaces,
                default_workspace_id,
                CommandModel::ResolvePermission { request_id, selected_index: first_index },
            );
            &&& first == Ok::<Seq<ActionModel>, FailureModel>(
                seq![
                    ActionModel::AnswerPermission { request_id, selected_index: first_index },
                ],
            )
            &&& command_step(
                after,
                workspaces,
                default_workspace_id,
                CommandModel::ResolvePermission { request_id, selected_index: second_index },
            ) == (
                after,
                Ok::<Seq<ActionModel>, FailureModel>(
                    publish_error("未找到待处理的 permission request: "@ + request_id),
                ),
            )
        }),
{
    let other = |member: Seq<char>| member != request_id;
    seqs::lemma_filter_members(state.pending_permissions, other);
    let after = string_map::without_member(state.pending_permissions, request_id);
    if after.contains(request_id) {
        let i = choose|i: int| 0 <= i < after.len() && after[i] == request_id;
        assert(other(after[i]));
    }
}

} // verus!
