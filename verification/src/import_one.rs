//! The import of one session: what is stored of it, step by step.
//!
//! An import creates a workspace, a session, a finished execution process and a
//! turn, and writes the conversation to the log of the process. A refresh of a
//! session that is there already writes the log anew and brings the title and the
//! times up to date; it creates nothing. Each step is an [`ImportAction`]; what came
//! of it is an [`ImportEvent`], which leads to the next [`ImportStage`].
use vstd::prelude::*;

use crate::text;
use crate::timestamp::Timestamp;
use crate::transcript::{DiscoveredSession, SessionView};
use crate::usage::TokenUsageInfo;

verus! {

/// The ids of what an import creates.
#[derive(Debug, Clone, Copy, PartialEq, Eq, Structural)]
pub struct ImportIds {
    pub workspace: u128,
    pub session: u128,
    pub process: u128,
    pub turn: u128,
}

/// An id that says of itself that it is random: version 4, in the variant of RFC
/// 9562.
pub open spec fn is_random_id(id: u128) -> bool {
    (id >> 76) & 0xf == 4 && (id >> 62) & 0x3 == 2
}

/// `uuid::Uuid::new_v4`: a random id, as a number. Whatever is drawn, the id
/// carries the version and the variant of random ids.
#[verifier::external_body]
fn fresh_id() -> (id: u128)
    ensures
        is_random_id(id),
{
    uuid::Uuid::new_v4().as_u128()
}

/// Draws the ids of an import.
pub fn fresh_ids() -> (ids: ImportIds)
    ensures
        is_random_id(ids.workspace),
        is_random_id(ids.session),
        is_random_id(ids.process),
        is_random_id(ids.turn),
{
    ImportIds {
        workspace: fresh_id(),
        session: fresh_id(),
        process: fresh_id(),
        turn: fresh_id(),
    }
}

/// The ids under which a session is stored.
#[derive(Debug, Clone, Copy, PartialEq, Eq, Structural)]
pub struct StoredIds {
    pub workspace: u128,
    pub session: u128,
    pub process: u128,
}

/// What the steps on a session are for.
#[derive(Debug, Clone, Copy, PartialEq, Eq, Structural)]
pub enum Purpose {
    /// To store a session that is not there.
    Import,
    /// To bring a session that is there up to date.
    Refresh,
}

/// Why an execution process is run.
#[derive(Debug, Clone, Copy, PartialEq, Eq, Structural)]
pub enum RunReason {
    CodingAgent,
}

/// How an execution process has ended.
#[derive(Debug, Clone, Copy, PartialEq, Eq, Structural)]
pub enum ProcessStatus {
    Completed,
}

/// Why an import failed.
#[derive(Debug, PartialEq, Eq)]
pub enum ImportError {
    /// The transcript asks for something that cannot be had.
    BadRequest(String),
    /// A step on the database failed, and this is what was said of it.
    Database(String),
    /// A step on the log failed, and this is what was said of it.
    Log(String),
}

/// What an import error says.
pub enum ErrorView {
    BadRequest(Seq<char>),
    Database(Seq<char>),
    Log(Seq<char>),
}

impl View for ImportError {
    type V = ErrorView;

    open spec fn view(&self) -> ErrorView {
        match self {
            ImportError::BadRequest(message) => ErrorView::BadRequest(message@),
            ImportError::Database(message) => ErrorView::Database(message@),
            ImportError::Log(message) => ErrorView::Log(message@),
        }
    }
}

/// One step of an import.
#[derive(Debug, PartialEq, Eq)]
pub enum ImportAction {
    /// Register the repository at `path`. Registering one again gives the same.
    RegisterRepo { path: String },
    /// Imported history records work already done; there is no worktree for it.
    CreateWorkspace { id: u128, branch: String, name: String, use_worktree: bool },
    LinkRepo { workspace_id: u128, repo_id: u128, target_branch: String },
    CreateSession { id: u128, workspace_id: u128, executor: String, name: String },
    /// Find the configuration of an executor.
    ResolveExecutor { executor: String },
    /// Create an execution process, whose first request is `initial_prompt`, to the
    /// executor that was found.
    CreateProcess {
        id: u128,
        session_id: u128,
        run_reason: RunReason,
        initial_prompt: String,
        working_dir: Option<String>,
    },
    OpenLog { session_id: u128, process_id: u128 },
    /// Open the log of a process that is there, at its place, to write it anew.
    RewriteLog { session_id: u128, process_id: u128 },
    /// Write the entry at `index` as a log message.
    EncodeEntry { index: usize },
    /// Write the entry that tells of the token usage, which stands at `index`, as a
    /// log message.
    EncodeUsage { index: usize, usage: TokenUsageInfo },
    /// Write the end of the conversation as a log message.
    EncodeFinished,
    AppendLine { line: String },
    CompleteProcess { process_id: u128, status: ProcessStatus, exit_code: Option<i64> },
    CreateTurn { id: u128, process_id: u128, prompt: Option<String> },
    StoreAgentSessionId { process_id: u128, agent_session_id: String },
    RenameWorkspace { workspace_id: u128, name: String },
    RenameSession { session_id: u128, name: String },
    StoreSummary { process_id: u128, summary: String },
    /// Let the turn of the process be of the times of the first and last message.
    StampTurn { process_id: u128, first: Timestamp, last: Timestamp },
    /// Let the process have started and completed with the first and last message.
    StampProcess { process_id: u128, first: Timestamp, last: Timestamp },
    /// Let the session be of the times of the first and last message.
    StampSession { session_id: u128, first: Timestamp, last: Timestamp },
    /// Let the workspace have been created and updated with the first and last
    /// message.
    StampWorkspace { workspace_id: u128, first: Timestamp, last: Timestamp },
}

/// What an action says.
pub enum StepView {
    RegisterRepo { path: Seq<char> },
    CreateWorkspace { id: u128, branch: Seq<char>, name: Seq<char>, use_worktree: bool },
    LinkRepo { workspace_id: u128, repo_id: u128, target_branch: Seq<char> },
    CreateSession { id: u128, workspace_id: u128, executor: Seq<char>, name: Seq<char> },
    ResolveExecutor { executor: Seq<char> },
    CreateProcess {
        id: u128,
        session_id: u128,
        run_reason: RunReason,
        initial_prompt: Seq<char>,
        working_dir: Option<Seq<char>>,
    },
    OpenLog { session_id: u128, process_id: u128 },
    RewriteLog { session_id: u128, process_id: u128 },
    EncodeEntry { index: nat },
    EncodeUsage { index: nat, usage: TokenUsageInfo },
    EncodeFinished,
    AppendLine { line: Seq<char> },
    CompleteProcess { process_id: u128, status: ProcessStatus, exit_code: Option<i64> },
    CreateTurn { id: u128, process_id: u128, prompt: Option<Seq<char>> },
    StoreAgentSessionId { process_id: u128, agent_session_id: Seq<char> },
    RenameWorkspace { workspace_id: u128, name: Seq<char> },
    RenameSession { session_id: u128, name: Seq<char> },
    StoreSummary { process_id: u128, summary: Seq<char> },
    StampTurn { process_id: u128, first: Timestamp, last: Timestamp },
    StampProcess { process_id: u128, first: Timestamp, last: Timestamp },
    StampSession { session_id: u128, first: Timestamp, last: Timestamp },
    StampWorkspace { workspace_id: u128, first: Timestamp, last: Timestamp },
}

impl View for ImportAction {
    type V = StepView;

    open spec fn view(&self) -> StepView {
        match self {
            ImportAction::RegisterRepo { path } => StepView::RegisterRepo { path: path@ },
            ImportAction::CreateWorkspace { id, branch, name, use_worktree } =>
                StepView::CreateWorkspace {
                id: *id,
                branch: branch@,
                name: name@,
                use_worktree: *use_worktree,
            },
            ImportAction::LinkRepo { workspace_id, repo_id, target_branch } => StepView::LinkRepo {
                workspace_id: *workspace_id,
                repo_id: *repo_id,
                target_branch: target_branch@,
            },
            ImportAction::CreateSession { id, workspace_id, executor, name } =>
                StepView::CreateSession {
                id: *id,
                workspace_id: *workspace_id,
                executor: executor@,
                name: name@,
            },
            ImportAction::ResolveExecutor { executor } => StepView::ResolveExecutor {
                executor: executor@,
            },
            ImportAction::CreateProcess {
                id,
                session_id,
                run_reason,
                initial_prompt,
                working_dir,
            } => StepView::CreateProcess {
                id: *id,
                session_id: *session_id,
                run_reason: *run_reason,
                initial_prompt: initial_prompt@,
                working_dir: text::view_opt(*working_dir),
            },
            ImportAction::OpenLog { session_id, process_id } => StepView::OpenLog {
                session_id: *session_id,
                process_id: *process_id,
            },
            ImportAction::RewriteLog { session_id, process_id } => StepView::RewriteLog {
                session_id: *session_id,
                process_id: *process_id,
            },
            ImportAction::EncodeEntry { index } => StepView::EncodeEntry { index: *index as nat },
            ImportAction::EncodeUsage { index, usage } => StepView::EncodeUsage {
                index: *index as nat,
                usage: *usage,
            },
            ImportAction::EncodeFinished => StepView::EncodeFinished,
            ImportAction::AppendLine { line } => StepView::AppendLine { line: line@ },
            ImportAction::CompleteProcess { process_id, status, exit_code } =>
                StepView::CompleteProcess {
                process_id: *process_id,
                status: *status,
                exit_code: *exit_code,
            },
            ImportAction::CreateTurn { id, process_id, prompt } => StepView::CreateTurn {
                id: *id,
                process_id: *process_id,
                prompt: text::view_opt(*prompt),
            },
            ImportAction::StoreAgentSessionId { process_id, agent_session_id } =>
                StepView::StoreAgentSessionId {
                process_id: *process_id,
                agent_session_id: agent_session_id@,
            },
            ImportAction::RenameWorkspace { workspace_id, name } => StepView::RenameWorkspace {
                workspace_id: *workspace_id,
                name: name@,
            },
            ImportAction::RenameSession { session_id, name } => StepView::RenameSession {
                session_id: *session_id,
                name: name@,
            },
            ImportAction::StoreSummary { process_id, summary } => StepView::StoreSummary {
                process_id: *process_id,
                summary: summary@,
            },
            ImportAction::StampTurn { process_id, first, last } => StepView::StampTurn {
                process_id: *process_id,
                first: *first,
                last: *last,
            },
            ImportAction::StampProcess { process_id, first, last } => StepView::StampProcess {
                process_id: *process_id,
                first: *first,
                last: *last,
            },
            ImportAction::StampSession { session_id, first, last } => StepView::StampSession {
                session_id: *session_id,
                first: *first,
                last: *last,
            },
            ImportAction::StampWorkspace { workspace_id, first, last } => StepView::StampWorkspace {
                workspace_id: *workspace_id,
                first: *first,
                last: *last,
            },
        }
    }
}

/// What came of a step.
#[derive(Debug, PartialEq, Eq)]
pub enum ImportEvent {
    /// What was to be registered or created has this id.
    Created(u128),
    /// The log message, on one line.
    Encoded(String),
    Done,
    Failed(String),
}

/// What an event says.
pub enum EventView {
    Created(u128),
    Encoded(Seq<char>),
    Done,
    Failed(Seq<char>),
}

impl View for ImportEvent {
    type V = EventView;

    open spec fn view(&self) -> EventView {
        match self {
            ImportEvent::Created(id) => EventView::Created(*id),
            ImportEvent::Encoded(line) => EventView::Encoded(line@),
            ImportEvent::Done => EventView::Done,
            ImportEvent::Failed(message) => EventView::Failed(message@),
        }
    }
}

/// How far an import is: the step that is due, and what it needs of earlier ones.
#[derive(Debug, PartialEq, Eq)]
pub enum ImportStage {
    RegisterRepo,
    CreateWorkspace { repo_id: u128 },
    LinkRepo { repo_id: u128, workspace_id: u128 },
    CreateSession { workspace_id: u128 },
    ResolveExecutor { workspace_id: u128, session_id: u128 },
    CreateProcess { workspace_id: u128, session_id: u128 },
    OpenLog { purpose: Purpose, stored: StoredIds },
    EncodeEntry { purpose: Purpose, stored: StoredIds, index: usize },
    AppendEntry { purpose: Purpose, stored: StoredIds, index: usize, line: String },
    EncodeUsage { purpose: Purpose, stored: StoredIds, usage: TokenUsageInfo },
    AppendUsage { purpose: Purpose, stored: StoredIds, line: String },
    EncodeFinished { purpose: Purpose, stored: StoredIds },
    AppendFinished { purpose: Purpose, stored: StoredIds, line: String },
    CompleteProcess { stored: StoredIds },
    CreateTurn { stored: StoredIds },
    StoreAgentSessionId { stored: StoredIds },
    RenameWorkspace { stored: StoredIds },
    RenameSession { stored: StoredIds },
    StoreSummary { stored: StoredIds },
    StampTurn { stored: StoredIds, first: Timestamp, last: Timestamp },
    StampProcess { stored: StoredIds, first: Timestamp, last: Timestamp },
    StampSession { stored: StoredIds, first: Timestamp, last: Timestamp },
    StampWorkspace { stored: StoredIds, first: Timestamp, last: Timestamp },
    /// The session is stored as its transcript has it.
    Stored,
    Failed(ImportError),
}

/// What a stage says.
pub enum StageView {
    RegisterRepo,
    CreateWorkspace { repo_id: u128 },
    LinkRepo { repo_id: u128, workspace_id: u128 },
    CreateSession { workspace_id: u128 },
    ResolveExecutor { workspace_id: u128, session_id: u128 },
    CreateProcess { workspace_id: u128, session_id: u128 },
    OpenLog { purpose: Purpose, stored: StoredIds },
    EncodeEntry { purpose: Purpose, stored: StoredIds, index: nat },
    AppendEntry { purpose: Purpose, stored: StoredIds, index: nat, line: Seq<char> },
    EncodeUsage { purpose: Purpose, stored: StoredIds, usage: TokenUsageInfo },
    AppendUsage { purpose: Purpose, stored: StoredIds, line: Seq<char> },
    EncodeFinished { purpose: Purpose, stored: StoredIds },
    AppendFinished { purpose: Purpose, stored: StoredIds, line: Seq<char> },
    CompleteProcess { stored: StoredIds },
    CreateTurn { stored: StoredIds },
    StoreAgentSessionId { stored: StoredIds },
    RenameWorkspace { stored: StoredIds },
    RenameSession { stored: StoredIds },
    StoreSummary { stored: StoredIds },
    StampTurn { stored: StoredIds, first: Timestamp, last: Timestamp },
    StampProcess { stored: StoredIds, first: Timestamp, last: Timestamp },
    StampSession { stored: StoredIds, first: Timestamp, last: Timestamp },
    StampWorkspace { stored: StoredIds, first: Timestamp, last: Timestamp },
    /// The session is stored as its transcript has it.
    Stored,
    Failed(ErrorView),
}

impl View for ImportStage {
    type V = StageView;

    open spec fn view(&self) -> StageView {
        match self {
            ImportStage::RegisterRepo => StageView::RegisterRepo,
            ImportStage::CreateWorkspace { repo_id } => StageView::CreateWorkspace {
                repo_id: *repo_id,
            },
            ImportStage::LinkRepo { repo_id, workspace_id } => StageView::LinkRepo {
                repo_id: *repo_id,
                workspace_id: *workspace_id,
            },
            ImportStage::CreateSession { workspace_id } => StageView::CreateSession {
                workspace_id: *workspace_id,
            },
            ImportStage::ResolveExecutor { workspace_id, session_id } => StageView::ResolveExecutor {
                workspace_id: *workspace_id,
                session_id: *session_id,
            },
            ImportStage::CreateProcess { workspace_id, session_id } => StageView::CreateProcess {
                workspace_id: *workspace_id,
                session_id: *session_id,
            },
            ImportStage::OpenLog { purpose, stored } => StageView::OpenLog {
                purpose: *purpose,
                stored: *stored,
            },
            ImportStage::EncodeEntry { purpose, stored, index } => StageView::EncodeEntry {
                purpose: *purpose,
                stored: *stored,
                index: *index as nat,
            },
            ImportStage::AppendEntry { purpose, stored, index, line } => StageView::AppendEntry {
                purpose: *purpose,
                stored: *stored,
                index: *index as nat,
                line: line@,
            },
            ImportStage::EncodeUsage { purpose, stored, usage } => StageView::EncodeUsage {
                purpose: *purpose,
                stored: *stored,
                usage: *usage,
            },
            ImportStage::AppendUsage { purpose, stored, line } => StageView::AppendUsage {
                purpose: *purpose,
                stored: *stored,
                line: line@,
            },
            ImportStage::EncodeFinished { purpose, stored } => StageView::EncodeFinished {
                purpose: *purpose,
                stored: *stored,
            },
            ImportStage::AppendFinished { purpose, stored, line } => StageView::AppendFinished {
                purpose: *purpose,
                stored: *stored,
                line: line@,
            },
            ImportStage::CompleteProcess { stored } => StageView::CompleteProcess {
                stored: *stored,
            },
            ImportStage::CreateTurn { stored } => StageView::CreateTurn {
                stored: *stored,
            },
            ImportStage::StoreAgentSessionId { stored } => StageView::StoreAgentSessionId {
                stored: *stored,
            },
            ImportStage::RenameWorkspace { stored } => StageView::RenameWorkspace {
                stored: *stored,
            },
            ImportStage::RenameSession { stored } => StageView::RenameSession {
                stored: *stored,
            },
            ImportStage::StoreSummary { stored } => StageView::StoreSummary {
                stored: *stored,
            },
            ImportStage::StampTurn { stored, first, last } => StageView::StampTurn {
                stored: *stored,
                first: *first,
                last: *last,
            },
            ImportStage::StampProcess { stored, first, last } => StageView::StampProcess {
                stored: *stored,
                first: *first,
                last: *last,
            },
            ImportStage::StampSession { stored, first, last } => StageView::StampSession {
                stored: *stored,
                first: *first,
                last: *last,
            },
            ImportStage::StampWorkspace { stored, first, last } => StageView::StampWorkspace {
                stored: *stored,
                first: *first,
                last: *last,
            },
            ImportStage::Stored => StageView::Stored,
            ImportStage::Failed(error) => StageView::Failed(error@),
        }
    }
}

/// The branch that a session is imported on.
pub open spec fn branch_of(d: SessionView) -> Seq<char> {
    match d.git_branch {
        Some(branch) => branch,
        None => "main"@,
    }
}


/// The stage that writes the entry at `index` to the log; after the last entry that
/// of the token usage, where it is known, and then the end.
pub open spec fn entry_stage(
    d: SessionView,
    purpose: Purpose,
    stored: StoredIds,
    index: nat,
) -> StageView {
    if index < d.entries.len() {
        StageView::EncodeEntry { purpose, stored, index }
    } else {
        match d.token_usage {
            Some(usage) => StageView::EncodeUsage { purpose, stored, usage },
            None => StageView::EncodeFinished { purpose, stored },
        }
    }
}

/// The stage that follows when all is stored but the times: they are stamped where
/// the session says when its first and last message were written.
pub open spec fn stamp_stage(d: SessionView, stored: StoredIds) -> StageView {
    match (d.started_at, d.ended_at) {
        (Some(first), Some(last)) => StageView::StampTurn { stored, first, last },
        _ => StageView::Stored,
    }
}

/// The step that is due; none where the import has ended.
pub open spec fn due_step(d: SessionView, ids: ImportIds, stage: StageView) -> Option<StepView> {
    match stage {
        StageView::RegisterRepo => Some(StepView::RegisterRepo { path: d.cwd }),
        StageView::CreateWorkspace { .. } => Some(
            StepView::CreateWorkspace {
                id: ids.workspace,
                branch: branch_of(d),
                name: d.title,
                use_worktree: false,
            },
        ),
        StageView::LinkRepo { repo_id, workspace_id } => Some(
            StepView::LinkRepo { workspace_id, repo_id, target_branch: branch_of(d) },
        ),
        StageView::CreateSession { workspace_id } => Some(
            StepView::CreateSession {
                id: ids.session,
                workspace_id,
                executor: "CLAUDE_CODE"@,
                name: d.title,
            },
        ),
        StageView::ResolveExecutor { .. } => Some(
            StepView::ResolveExecutor { executor: "CLAUDE_CODE"@ },
        ),
        StageView::CreateProcess { session_id, .. } => Some(
            StepView::CreateProcess {
                id: ids.process,
                session_id,
                run_reason: RunReason::CodingAgent,
                initial_prompt: match d.first_prompt {
                    Some(prompt) => prompt,
                    None => seq![],
                },
                working_dir: None,
            },
        ),
        StageView::OpenLog { purpose: Purpose::Import, stored } => Some(
            StepView::OpenLog { session_id: stored.session, process_id: stored.process },
        ),
        StageView::OpenLog { purpose: Purpose::Refresh, stored } => Some(
            StepView::RewriteLog { session_id: stored.session, process_id: stored.process },
        ),
        StageView::EncodeEntry { index, .. } => Some(StepView::EncodeEntry { index }),
        StageView::AppendEntry { line, .. } => Some(StepView::AppendLine { line }),
        StageView::EncodeUsage { usage, .. } => Some(
            StepView::EncodeUsage { index: d.entries.len(), usage },
        ),
        StageView::AppendUsage { line, .. } => Some(StepView::AppendLine { line }),
        StageView::EncodeFinished { .. } => Some(StepView::EncodeFinished),
        StageView::AppendFinished { line, .. } => Some(StepView::AppendLine { line }),
        StageView::CompleteProcess { stored } => Some(
            StepView::CompleteProcess {
                process_id: stored.process,
                status: ProcessStatus::Completed,
                exit_code: Some(0),
            },
        ),
        StageView::CreateTurn { stored } => Some(
            StepView::CreateTurn {
                id: ids.turn,
                process_id: stored.process,
                prompt: d.first_prompt,
            },
        ),
        StageView::StoreAgentSessionId { stored } => Some(
            StepView::StoreAgentSessionId {
                process_id: stored.process,
                agent_session_id: d.claude_session_id,
            },
        ),
        StageView::RenameWorkspace { stored } => Some(
            StepView::RenameWorkspace { workspace_id: stored.workspace, name: d.title },
        ),
        StageView::RenameSession { stored } => Some(
            StepView::RenameSession { session_id: stored.session, name: d.title },
        ),
        StageView::StoreSummary { stored } => Some(
            StepView::StoreSummary { process_id: stored.process, summary: d.title },
        ),
        StageView::StampTurn { stored, first, last } => Some(
            StepView::StampTurn { process_id: stored.process, first, last },
        ),
        StageView::StampProcess { stored, first, last } => Some(
            StepView::StampProcess { process_id: stored.process, first, last },
        ),
        StageView::StampSession { stored, first, last } => Some(
            StepView::StampSession { session_id: stored.session, first, last },
        ),
        StageView::StampWorkspace { stored, first, last } => Some(
            StepView::StampWorkspace { workspace_id: stored.workspace, first, last },
        ),
        StageView::Stored => None,
        StageView::Failed(_) => None,
    }
}

/// Whether an event can come of the step that is due.
pub open spec fn answers(stage: StageView, event: EventView) -> bool {
    match stage {
        StageView::Stored | StageView::Failed(_) => false,
        StageView::RegisterRepo
        | StageView::CreateWorkspace { .. }
        | StageView::CreateSession { .. }
        | StageView::CreateProcess { .. } => event is Created || event is Failed,
        StageView::EncodeEntry { .. }
        | StageView::EncodeUsage { .. }
        | StageView::EncodeFinished { .. } => event is Encoded || event is Failed,
        _ => event is Done || event is Failed,
    }
}

/// What is said of a step that failed with `message`.
pub open spec fn failure(d: SessionView, stage: StageView, message: Seq<char>) -> ErrorView {
    match stage {
        StageView::RegisterRepo => ErrorView::BadRequest(
            "register repo "@ + d.cwd + ": "@ + message,
        ),
        StageView::ResolveExecutor { .. } => ErrorView::BadRequest(
            "executor config: "@ + message,
        ),
        StageView::OpenLog { .. }
        | StageView::EncodeEntry { .. }
        | StageView::AppendEntry { .. }
        | StageView::EncodeUsage { .. }
        | StageView::AppendUsage { .. }
        | StageView::EncodeFinished { .. }
        | StageView::AppendFinished { .. } => ErrorView::Log(message),
        _ => ErrorView::Database(message),
    }
}

/// The stage that an event leads to.
pub open spec fn next_stage(d: SessionView, stage: StageView, event: EventView) -> StageView {
    match (stage, event) {
        (_, EventView::Failed(message)) => StageView::Failed(failure(d, stage, message)),
        (StageView::RegisterRepo, EventView::Created(repo_id)) => StageView::CreateWorkspace {
            repo_id,
        },
        (StageView::CreateWorkspace { repo_id }, EventView::Created(workspace_id)) =>
            StageView::LinkRepo { repo_id, workspace_id },
        (StageView::LinkRepo { workspace_id, .. }, _) => StageView::CreateSession { workspace_id },
        (StageView::CreateSession { workspace_id }, EventView::Created(session_id)) =>
            StageView::ResolveExecutor { workspace_id, session_id },
        (StageView::ResolveExecutor { workspace_id, session_id }, _) => StageView::CreateProcess {
            workspace_id,
            session_id,
        },
        (StageView::CreateProcess { workspace_id, session_id }, EventView::Created(process_id)) =>
            StageView::OpenLog {
            purpose: Purpose::Import,
            stored: StoredIds {
                workspace: workspace_id,
                session: session_id,
                process: process_id,
            },
        },
        (StageView::OpenLog { purpose, stored }, _) => entry_stage(d, purpose, stored, 0),
        (StageView::EncodeEntry { purpose, stored, index }, EventView::Encoded(line)) =>
            StageView::AppendEntry { purpose, stored, index, line: line.push('\n') },
        (StageView::AppendEntry { purpose, stored, index, .. }, _) => entry_stage(
            d,
            purpose,
            stored,
            index + 1,
        ),
        (StageView::EncodeUsage { purpose, stored, .. }, EventView::Encoded(line)) =>
            StageView::AppendUsage { purpose, stored, line: line.push('\n') },
        (StageView::AppendUsage { purpose, stored, .. }, _) => StageView::EncodeFinished {
            purpose,
            stored,
        },
        (StageView::EncodeFinished { purpose, stored }, EventView::Encoded(line)) =>
            StageView::AppendFinished { purpose, stored, line: line.push('\n') },
        (StageView::AppendFinished { purpose: Purpose::Import, stored, .. }, _) =>
            StageView::CompleteProcess { stored },
        (StageView::AppendFinished { purpose: Purpose::Refresh, stored, .. }, _) =>
            StageView::RenameWorkspace { stored },
        (StageView::CompleteProcess { stored }, _) => StageView::CreateTurn { stored },
        (StageView::CreateTurn { stored }, _) => StageView::StoreAgentSessionId { stored },
        (StageView::StoreAgentSessionId { stored }, _) => StageView::StoreSummary { stored },
        (StageView::RenameWorkspace { stored }, _) => StageView::RenameSession { stored },
        (StageView::RenameSession { stored }, _) => StageView::StoreSummary { stored },
        (StageView::StoreSummary { stored }, _) => stamp_stage(d, stored),
        (StageView::StampTurn { stored, first, last }, _) => StageView::StampProcess {
            stored,
            first,
            last,
        },
        (StageView::StampProcess { stored, first, last }, _) => StageView::StampSession {
            stored,
            first,
            last,
        },
        (StageView::StampSession { stored, first, last }, _) => StageView::StampWorkspace {
            stored,
            first,
            last,
        },
        (StageView::StampWorkspace { .. }, _) => StageView::Stored,
        _ => stage,
    }
}

/// The stage that the steps on a session start from: those of an import where it is
/// not stored, those of a refresh where it is, under the ids `stored`.
pub open spec fn start_stage(stored: Option<StoredIds>) -> StageView {
    match stored {
        Some(stored) => StageView::OpenLog { purpose: Purpose::Refresh, stored },
        None => StageView::RegisterRepo,
    }
}

/// The stage that the steps on a session start from.
pub fn start(stored: Option<StoredIds>) -> (stage: ImportStage)
    ensures
        stage@ == start_stage(stored),
{
    match stored {
        Some(stored) => ImportStage::OpenLog { purpose: Purpose::Refresh, stored },
        None => ImportStage::RegisterRepo,
    }
}

/// The branch that a session is imported on.
fn branch(d: &DiscoveredSession) -> (r: String)
    ensures
        r@ == branch_of(d@),
{
    match &d.git_branch {
        Some(branch) => branch.clone(),
        None => "main".to_owned(),
    }
}

/// The step that is due; none where the import has ended.
pub fn action(d: &DiscoveredSession, ids: &ImportIds, stage: &ImportStage) -> (step: Option<
    ImportAction,
>)
    ensures
        due_step(d@, *ids, stage@) == (match step {
            Some(step) => Some(step@),
            None => None,
        }),
{
    match stage {
        ImportStage::RegisterRepo => Some(ImportAction::RegisterRepo { path: d.cwd.clone() }),
        ImportStage::CreateWorkspace { .. } => Some(
            ImportAction::CreateWorkspace {
                id: ids.workspace,
                branch: branch(d),
                name: d.title.clone(),
                use_worktree: false,
            },
        ),
        ImportStage::LinkRepo { repo_id, workspace_id } => Some(
            ImportAction::LinkRepo {
                workspace_id: *workspace_id,
                repo_id: *repo_id,
                target_branch: branch(d),
            },
        ),
        ImportStage::CreateSession { workspace_id } => Some(
            ImportAction::CreateSession {
                id: ids.session,
                workspace_id: *workspace_id,
                executor: "CLAUDE_CODE".to_owned(),
                name: d.title.clone(),
            },
        ),
        ImportStage::ResolveExecutor { .. } => Some(
            ImportAction::ResolveExecutor { executor: "CLAUDE_CODE".to_owned() },
        ),
        ImportStage::CreateProcess { session_id, .. } => Some(
            ImportAction::CreateProcess {
                id: ids.process,
                session_id: *session_id,
                run_reason: RunReason::CodingAgent,
                initial_prompt: match &d.first_prompt {
                    Some(prompt) => prompt.clone(),
                    None => String::new(),
                },
                working_dir: None,
            },
        ),
        ImportStage::OpenLog { purpose, stored } => match purpose {
            Purpose::Import => Some(
                ImportAction::OpenLog { session_id: stored.session, process_id: stored.process },
            ),
            Purpose::Refresh => Some(
                ImportAction::RewriteLog { session_id: stored.session, process_id: stored.process },
            ),
        },
        ImportStage::EncodeEntry { index, .. } => Some(ImportAction::EncodeEntry { index: *index }),
        ImportStage::AppendEntry { line, .. } => Some(
            ImportAction::AppendLine { line: line.clone() },
        ),
        ImportStage::EncodeUsage { usage, .. } => Some(
            ImportAction::EncodeUsage { index: d.entries.len(), usage: *usage },
        ),
        ImportStage::AppendUsage { line, .. } => Some(
            ImportAction::AppendLine { line: line.clone() },
        ),
        ImportStage::EncodeFinished { .. } => Some(ImportAction::EncodeFinished),
        ImportStage::AppendFinished { line, .. } => Some(
            ImportAction::AppendLine { line: line.clone() },
        ),
        ImportStage::CompleteProcess { stored } => Some(
            ImportAction::CompleteProcess {
                process_id: stored.process,
                status: ProcessStatus::Completed,
                exit_code: Some(0),
            },
        ),
        ImportStage::CreateTurn { stored } => Some(
            ImportAction::CreateTurn {
                id: ids.turn,
                process_id: stored.process,
                prompt: text::copy_opt(&d.first_prompt),
            },
        ),
        ImportStage::StoreAgentSessionId { stored } => Some(
            ImportAction::StoreAgentSessionId {
                process_id: stored.process,
                agent_session_id: d.claude_session_id.clone(),
            },
        ),
        ImportStage::RenameWorkspace { stored } => Some(
            ImportAction::RenameWorkspace {
                workspace_id: stored.workspace,
                name: d.title.clone(),
            },
        ),
        ImportStage::RenameSession { stored } => Some(
            ImportAction::RenameSession { session_id: stored.session, name: d.title.clone() },
        ),
        ImportStage::StoreSummary { stored } => Some(
            ImportAction::StoreSummary { process_id: stored.process, summary: d.title.clone() },
        ),
        ImportStage::StampTurn { stored, first, last } => Some(
            ImportAction::StampTurn { process_id: stored.process, first: *first, last: *last },
        ),
        ImportStage::StampProcess { stored, first, last } => Some(
            ImportAction::StampProcess { process_id: stored.process, first: *first, last: *last },
        ),
        ImportStage::StampSession { stored, first, last } => Some(
            ImportAction::StampSession { session_id: stored.session, first: *first, last: *last },
        ),
        ImportStage::StampWorkspace { stored, first, last } => Some(
            ImportAction::StampWorkspace {
                workspace_id: stored.workspace,
                first: *first,
                last: *last,
            },
        ),
        ImportStage::Stored => None,
        ImportStage::Failed(_) => None,
    }
}

/// What is said of a step that failed with `message`.
fn failed(d: &DiscoveredSession, stage: &ImportStage, message: String) -> (error: ImportError)
    ensures
        error@ == failure(d@, stage@, message@),
{
    match stage {
        ImportStage::RegisterRepo => {
            let mut said = "register repo ".to_owned();
            said.append(d.cwd.as_str());
            said.append(": ");
            said.append(message.as_str());
            ImportError::BadRequest(said)
        },
        ImportStage::ResolveExecutor { .. } => {
            let mut said = "executor config: ".to_owned();
            said.append(message.as_str());
            ImportError::BadRequest(said)
        },
        ImportStage::OpenLog { .. }
        | ImportStage::EncodeEntry { .. }
        | ImportStage::AppendEntry { .. }
        | ImportStage::EncodeUsage { .. }
        | ImportStage::AppendUsage { .. }
        | ImportStage::EncodeFinished { .. }
        | ImportStage::AppendFinished { .. } => ImportError::Log(message),
        _ => ImportError::Database(message),
    }
}

/// The stage that writes the entry at `index` to the log.
fn write_entry(
    d: &DiscoveredSession,
    purpose: Purpose,
    stored: StoredIds,
    index: usize,
) -> (stage: ImportStage)
    ensures
        stage@ == entry_stage(d@, purpose, stored, index as nat),
{
    if index < d.entries.len() {
        return ImportStage::EncodeEntry { purpose, stored, index };
    }
    match d.token_usage {
        Some(usage) => ImportStage::EncodeUsage { purpose, stored, usage },
        None => ImportStage::EncodeFinished { purpose, stored },
    }
}

/// The stage that an event leads to.
pub fn advance(d: &DiscoveredSession, stage: ImportStage, event: ImportEvent) -> (next: ImportStage)
    requires
        answers(stage@, event@),
    ensures
        next@ == next_stage(d@, stage@, event@),
{
    match (stage, event) {
        (stage, ImportEvent::Failed(message)) => ImportStage::Failed(failed(d, &stage, message)),
        (ImportStage::RegisterRepo, ImportEvent::Created(repo_id)) =>
            ImportStage::CreateWorkspace { repo_id },
        (ImportStage::CreateWorkspace { repo_id }, ImportEvent::Created(workspace_id)) =>
            ImportStage::LinkRepo { repo_id, workspace_id },
        (ImportStage::LinkRepo { workspace_id, .. }, _) => ImportStage::CreateSession {
            workspace_id,
        },
        (ImportStage::CreateSession { workspace_id }, ImportEvent::Created(session_id)) =>
            ImportStage::ResolveExecutor { workspace_id, session_id },
        (ImportStage::ResolveExecutor { workspace_id, session_id }, _) =>
            ImportStage::CreateProcess { workspace_id, session_id },
        (
            ImportStage::CreateProcess { workspace_id, session_id },
            ImportEvent::Created(process_id),
        ) => ImportStage::OpenLog {
            purpose: Purpose::Import,
            stored: StoredIds {
                workspace: workspace_id,
                session: session_id,
                process: process_id,
            },
        },
        (ImportStage::OpenLog { purpose, stored }, _) => write_entry(d, purpose, stored, 0),
        (ImportStage::EncodeEntry { purpose, stored, index }, ImportEvent::Encoded(line)) => {
            let mut line = line;
            line.push('\n');
            ImportStage::AppendEntry { purpose, stored, index, line }
        },
        (ImportStage::AppendEntry { purpose, stored, index, .. }, _) => {
            let next: usize = if index < d.entries.len() {
                index + 1
            } else {
                index
            };
            write_entry(d, purpose, stored, next)
        },
        (ImportStage::EncodeUsage { purpose, stored, .. }, ImportEvent::Encoded(line)) => {
            let mut line = line;
            line.push('\n');
            ImportStage::AppendUsage { purpose, stored, line }
        },
        (ImportStage::AppendUsage { purpose, stored, .. }, _) => ImportStage::EncodeFinished {
            purpose,
            stored,
        },
        (ImportStage::EncodeFinished { purpose, stored }, ImportEvent::Encoded(line)) => {
            let mut line = line;
            line.push('\n');
            ImportStage::AppendFinished { purpose, stored, line }
        },
        (ImportStage::AppendFinished { purpose, stored, .. }, _) => match purpose {
            Purpose::Import => ImportStage::CompleteProcess { stored },
            Purpose::Refresh => ImportStage::RenameWorkspace { stored },
        },
        (ImportStage::CompleteProcess { stored }, _) => ImportStage::CreateTurn { stored },
        (ImportStage::CreateTurn { stored }, _) => ImportStage::StoreAgentSessionId { stored },
        (ImportStage::StoreAgentSessionId { stored }, _) => ImportStage::StoreSummary { stored },
        (ImportStage::RenameWorkspace { stored }, _) => ImportStage::RenameSession { stored },
        (ImportStage::RenameSession { stored }, _) => ImportStage::StoreSummary { stored },
        (ImportStage::StoreSummary { stored }, _) => match (d.started_at, d.ended_at) {
            (Some(first), Some(last)) => ImportStage::StampTurn { stored, first, last },
            _ => ImportStage::Stored,
        },
        (ImportStage::StampTurn { stored, first, last }, _) => ImportStage::StampProcess {
            stored,
            first,
            last,
        },
        (ImportStage::StampProcess { stored, first, last }, _) => ImportStage::StampSession {
            stored,
            first,
            last,
        },
        (ImportStage::StampSession { stored, first, last }, _) => ImportStage::StampWorkspace {
            stored,
            first,
            last,
        },
        (ImportStage::StampWorkspace { .. }, _) => ImportStage::Stored,
        (stage, _) => stage,
    }
}

} // verus!
