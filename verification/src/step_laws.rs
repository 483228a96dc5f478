//! What holds of the steps that store one session as a whole.
use vstd::prelude::*;

use crate::discovery;
use crate::import_one;
use crate::import_one::{
    ErrorView, EventView, ImportIds, ProcessStatus, Purpose, RunReason, StageView, StepView,
    StoredIds,
};
use crate::import_run;
use crate::text;
use crate::transcript::SessionView;

verus! {

/// What the outside makes of the steps on a session that all succeed.
pub struct World {
    pub repo_id: u128,
    pub workspace_id: u128,
    pub session_id: u128,
    pub process_id: u128,
    pub entry_lines: Seq<Seq<char>>,
    pub usage_line: Seq<char>,
    pub finished_line: Seq<char>,
}

impl World {
    /// The ids under which an import stores the session.
    pub open spec fn stored(self) -> StoredIds {
        StoredIds {
            workspace: self.workspace_id,
            session: self.session_id,
            process: self.process_id,
        }
    }
}

/// What comes of a step that succeeds.
pub open spec fn success(w: World, step: StepView) -> EventView {
    match step {
        StepView::RegisterRepo { .. } => EventView::Created(w.repo_id),
        StepView::CreateWorkspace { .. } => EventView::Created(w.workspace_id),
        StepView::CreateSession { .. } => EventView::Created(w.session_id),
        StepView::CreateProcess { .. } => EventView::Created(w.process_id),
        StepView::EncodeEntry { index } => EventView::Encoded(w.entry_lines[index as int]),
        StepView::EncodeUsage { .. } => EventView::Encoded(w.usage_line),
        StepView::EncodeFinished => EventView::Encoded(w.finished_line),
        _ => EventView::Done,
    }
}

/// How many entries are still to be written at `index`, the one there included.
pub open spec fn entries_left(index: nat, count: nat) -> nat {
    if index < count {
        (count - index) as nat
    } else {
        1
    }
}

/// A bound on the steps that are still due.
pub open spec fn steps_left(stage: StageView, count: nat) -> nat {
    match stage {
        StageView::RegisterRepo => 2 * count + 36,
        StageView::CreateWorkspace { .. } => 2 * count + 35,
        StageView::LinkRepo { .. } => 2 * count + 34,
        StageView::CreateSession { .. } => 2 * count + 33,
        StageView::ResolveExecutor { .. } => 2 * count + 32,
        StageView::CreateProcess { .. } => 2 * count + 31,
        StageView::OpenLog { .. } => 2 * count + 30,
        StageView::EncodeEntry { index, .. } => 2 * entries_left(index, count) + 28,
        StageView::AppendEntry { index, .. } => 2 * entries_left(index, count) + 27,
        StageView::EncodeUsage { .. } => 24,
        StageView::AppendUsage { .. } => 23,
        StageView::EncodeFinished { .. } => 22,
        StageView::AppendFinished { .. } => 21,
        StageView::CompleteProcess { .. } => 20,
        StageView::CreateTurn { .. } => 19,
        StageView::StoreAgentSessionId { .. } => 18,
        StageView::RenameWorkspace { .. } => 17,
        StageView::RenameSession { .. } => 16,
        StageView::StoreSummary { .. } => 15,
        StageView::StampTurn { .. } => 14,
        StageView::StampProcess { .. } => 13,
        StageView::StampSession { .. } => 12,
        StageView::StampWorkspace { .. } => 11,
        StageView::Stored => 0,
        StageView::Failed(_) => 0,
    }
}

/// The steps on a session from `stage` on, where all succeed.
pub open spec fn steps(d: SessionView, ids: ImportIds, w: World, stage: StageView) -> Seq<StepView>
    decreases steps_left(stage, d.entries.len()),
{
    match import_one::due_step(d, ids, stage) {
        Some(step) => seq![step] + steps(
            d,
            ids,
            w,
            import_one::next_stage(d, stage, success(w, step)),
        ),
        None => seq![],
    }
}

/// The branch that a session names, as it is written there; `main` for one that names
/// none.
pub open spec fn branch_said(d: SessionView) -> Seq<char> {
    match d.git_branch {
        Some(branch) => branch,
        None => "main"@,
    }
}

/// The ids that are drawn carry the version and the variant of random ids, in the bits
/// that are set aside for them.
pub proof fn law_random_ids(id: u128)
    ensures
        import_one::is_random_id(id) <==> id & 0xf000_c000_0000_0000_0000
            == 0x4000_8000_0000_0000_0000,
{
    assert(((id >> 76) & 0xf == 4 && (id >> 62) & 0x3 == 2) <==> id
        & 0xf000_c000_0000_0000_0000 == 0x4000_8000_0000_0000_0000) by (bit_vector);
}

/// A session is imported on the branch that it names, as it is written there: the
/// workspace is created on it and the repository is linked with it. Only a session that
/// names none goes to `main`.
pub proof fn law_sessions_go_to_their_branch(
    d: SessionView,
    ids: ImportIds,
    repo: u128,
    workspace: u128,
)
    ensures
        ({
            let branch = match d.git_branch {
                Some(branch) => branch,
                None => "main"@,
            };
            &&& import_one::due_step(d, ids, StageView::CreateWorkspace { repo_id: repo }) == Some(
                StepView::CreateWorkspace {
                    id: ids.workspace,
                    branch,
                    name: d.title,
                    use_worktree: false,
                },
            )
            &&& import_one::due_step(
                d,
                ids,
                StageView::LinkRepo { repo_id: repo, workspace_id: workspace },
            ) == Some(
                StepView::LinkRepo {
                    workspace_id: workspace,
                    repo_id: repo,
                    target_branch: branch,
                },
            )
        }),
{
}

/// The steps that lead up to the log.
pub open spec fn opening_steps(d: SessionView, ids: ImportIds, w: World) -> Seq<StepView> {
    seq![
        StepView::RegisterRepo { path: d.cwd },
        StepView::CreateWorkspace {
            id: ids.workspace,
            branch: branch_said(d),
            name: d.title,
            use_worktree: false,
        },
        StepView::LinkRepo {
            workspace_id: w.workspace_id,
            repo_id: w.repo_id,
            target_branch: branch_said(d),
        },
        StepView::CreateSession {
            id: ids.session,
            workspace_id: w.workspace_id,
            executor: "CLAUDE_CODE"@,
            name: d.title,
        },
        StepView::ResolveExecutor { executor: "CLAUDE_CODE"@ },
        StepView::CreateProcess {
            id: ids.process,
            session_id: w.session_id,
            run_reason: RunReason::CodingAgent,
            initial_prompt: match d.first_prompt {
                Some(prompt) => prompt,
                None => seq![],
            },
            working_dir: None,
        },
        StepView::OpenLog { session_id: w.session_id, process_id: w.process_id },
    ]
}

/// The steps that write the entries from `index` on.
pub open spec fn entry_steps(w: World, index: nat, count: nat) -> Seq<StepView>
    decreases count - index,
{
    if index < count {
        seq![
            StepView::EncodeEntry { index },
            StepView::AppendLine { line: w.entry_lines[index as int].push('\n') },
        ] + entry_steps(w, index + 1, count)
    } else {
        seq![]
    }
}

/// The steps that write the token usage, where it is known.
pub open spec fn usage_steps(d: SessionView, w: World) -> Seq<StepView> {
    match d.token_usage {
        Some(usage) => seq![
            StepView::EncodeUsage { index: d.entries.len(), usage },
            StepView::AppendLine { line: w.usage_line.push('\n') },
        ],
        None => seq![],
    }
}

/// The steps that write the end of the conversation.
pub open spec fn end_steps(w: World) -> Seq<StepView> {
    seq![
        StepView::EncodeFinished,
        StepView::AppendLine { line: w.finished_line.push('\n') },
    ]
}

/// The steps that fill the log.
pub open spec fn log_steps(d: SessionView, w: World) -> Seq<StepView> {
    entry_steps(w, 0, d.entries.len()) + usage_steps(d, w) + end_steps(w)
}

/// The steps that stamp what is stored with the times of the first and last message,
/// where they are known.
pub open spec fn stamp_steps(d: SessionView, stored: StoredIds) -> Seq<StepView> {
    match (d.started_at, d.ended_at) {
        (Some(first), Some(last)) => seq![
            StepView::StampTurn { process_id: stored.process, first, last },
            StepView::StampProcess { process_id: stored.process, first, last },
            StepView::StampSession { session_id: stored.session, first, last },
            StepView::StampWorkspace { workspace_id: stored.workspace, first, last },
        ],
        _ => seq![],
    }
}

/// The steps that follow the log.
pub open spec fn closing_steps(
    d: SessionView,
    ids: ImportIds,
    purpose: Purpose,
    stored: StoredIds,
) -> Seq<StepView> {
    match purpose {
        Purpose::Import => seq![
            StepView::CompleteProcess {
                process_id: stored.process,
                status: ProcessStatus::Completed,
                exit_code: Some(0),
            },
            StepView::CreateTurn {
                id: ids.turn,
                process_id: stored.process,
                prompt: d.first_prompt,
            },
            StepView::StoreAgentSessionId {
                process_id: stored.process,
                agent_session_id: d.claude_session_id,
            },
            StepView::StoreSummary { process_id: stored.process, summary: d.title },
        ],
        Purpose::Refresh => seq![
            StepView::RenameWorkspace { workspace_id: stored.workspace, name: d.title },
            StepView::RenameSession { session_id: stored.session, name: d.title },
            StepView::StoreSummary { process_id: stored.process, summary: d.title },
        ],
    }
}

proof fn lemma_stamps(d: SessionView, ids: ImportIds, w: World, stored: StoredIds)
    ensures
        steps(d, ids, w, import_one::stamp_stage(d, stored)) == stamp_steps(d, stored),
{
    reveal_with_fuel(steps, 5);
}

proof fn lemma_end(d: SessionView, ids: ImportIds, w: World, purpose: Purpose, stored: StoredIds)
    ensures
        steps(d, ids, w, StageView::EncodeFinished { purpose, stored }) == end_steps(w)
            + closing_steps(d, ids, purpose, stored) + stamp_steps(d, stored),
{
    reveal_with_fuel(steps, 7);
    lemma_stamps(d, ids, w, stored);
}

proof fn lemma_entries(
    d: SessionView,
    ids: ImportIds,
    w: World,
    purpose: Purpose,
    stored: StoredIds,
    index: nat,
)
    requires
        index <= d.entries.len(),
    ensures
        steps(d, ids, w, import_one::entry_stage(d, purpose, stored, index)) == entry_steps(
            w,
            index,
            d.entries.len(),
        ) + usage_steps(d, w) + end_steps(w) + closing_steps(d, ids, purpose, stored)
            + stamp_steps(d, stored),
    decreases d.entries.len() - index,
{
    reveal_with_fuel(steps, 3);
    if index < d.entries.len() {
        lemma_entries(d, ids, w, purpose, stored, index + 1);
    } else {
        lemma_end(d, ids, w, purpose, stored);
    }
}

/// The steps of an import from the process on.
proof fn lemma_process(d: SessionView, ids: ImportIds, w: World)
    ensures
        steps(
            d,
            ids,
            w,
            StageView::ResolveExecutor { workspace_id: w.workspace_id, session_id: w.session_id },
        ) == opening_steps(d, ids, w).skip(4) + log_steps(d, w) + closing_steps(
            d,
            ids,
            Purpose::Import,
            w.stored(),
        ) + stamp_steps(d, w.stored()),
{
    reveal_with_fuel(steps, 4);
    lemma_entries(d, ids, w, Purpose::Import, w.stored(), 0);
}

/// The import of a session, where all goes well: the repository, the workspace and
/// its link to the repository, the session and the process come first, then every
/// entry in order, the token usage and the end of the conversation go to the log,
/// one line each, and only then the process is completed, the turn gets the
/// session's id and title, and all is stamped with the times of the messages.
pub proof fn law_import_steps(d: SessionView, ids: ImportIds, w: World)
    ensures
        steps(d, ids, w, import_one::start_stage(None)) == opening_steps(d, ids, w) + log_steps(
            d,
            w,
        ) + closing_steps(d, ids, Purpose::Import, w.stored()) + stamp_steps(d, w.stored()),
{
    reveal_with_fuel(steps, 5);
    lemma_process(d, ids, w);
    let first = StageView::ResolveExecutor {
        workspace_id: w.workspace_id,
        session_id: w.session_id,
    };
    let head = opening_steps(d, ids, w);
    let rest = steps(d, ids, w, first);
    assert(steps(d, ids, w, StageView::RegisterRepo) =~= head.take(4) + rest);
    assert(head =~= head.take(4) + head.skip(4));
}

/// The refresh of a session that is stored, where all goes well: its log is written
/// anew, at its place, with the lines that an import would write, then the title and
/// the times are brought up to date.
pub proof fn law_refresh_steps(d: SessionView, ids: ImportIds, w: World, stored: StoredIds)
    ensures
        steps(d, ids, w, import_one::start_stage(Some(stored))) == seq![
            StepView::RewriteLog { session_id: stored.session, process_id: stored.process },
        ] + log_steps(d, w) + closing_steps(d, ids, Purpose::Refresh, stored) + stamp_steps(
            d,
            stored,
        ),
{
    reveal_with_fuel(steps, 2);
    lemma_entries(d, ids, w, Purpose::Refresh, stored, 0);
}

/// A step that adds something to the database.
pub open spec fn creates(step: StepView) -> bool {
    match step {
        StepView::RegisterRepo { .. }
        | StepView::CreateWorkspace { .. }
        | StepView::LinkRepo { .. }
        | StepView::CreateSession { .. }
        | StepView::CreateProcess { .. }
        | StepView::CreateTurn { .. }
        | StepView::StoreAgentSessionId { .. } => true,
        _ => false,
    }
}

/// A step that is on nothing but what is stored under the ids `stored`.
pub open spec fn within(step: StepView, stored: StoredIds) -> bool {
    match step {
        StepView::RewriteLog { session_id, process_id } => session_id == stored.session
            && process_id == stored.process,
        StepView::RenameWorkspace { workspace_id, .. } => workspace_id == stored.workspace,
        StepView::RenameSession { session_id, .. } => session_id == stored.session,
        StepView::StoreSummary { process_id, .. } => process_id == stored.process,
        StepView::StampTurn { process_id, .. } => process_id == stored.process,
        StepView::StampProcess { process_id, .. } => process_id == stored.process,
        StepView::StampSession { session_id, .. } => session_id == stored.session,
        StepView::StampWorkspace { workspace_id, .. } => workspace_id == stored.workspace,
        StepView::EncodeEntry { .. }
        | StepView::EncodeUsage { .. }
        | StepView::EncodeFinished
        | StepView::AppendLine { .. } => true,
        _ => false,
    }
}

/// A stage of a refresh of what is stored under the ids `stored`.
pub open spec fn refreshing(stage: StageView, stored: StoredIds) -> bool {
    match stage {
        StageView::OpenLog { purpose, stored: at }
        | StageView::EncodeEntry { purpose, stored: at, .. }
        | StageView::AppendEntry { purpose, stored: at, .. }
        | StageView::EncodeUsage { purpose, stored: at, .. }
        | StageView::AppendUsage { purpose, stored: at, .. }
        | StageView::EncodeFinished { purpose, stored: at }
        | StageView::AppendFinished { purpose, stored: at, .. } => purpose == Purpose::Refresh
            && at == stored,
        StageView::RenameWorkspace { stored: at }
        | StageView::RenameSession { stored: at }
        | StageView::StoreSummary { stored: at }
        | StageView::StampTurn { stored: at, .. }
        | StageView::StampProcess { stored: at, .. }
        | StageView::StampSession { stored: at, .. }
        | StageView::StampWorkspace { stored: at, .. } => at == stored,
        StageView::Stored | StageView::Failed(_) => true,
        _ => false,
    }
}

/// A refresh creates nothing and keeps the ids: whatever comes of its steps, each of
/// them is on what is stored under the ids that it started with.
pub proof fn law_refresh_creates_nothing(
    d: SessionView,
    ids: ImportIds,
    stage: StageView,
    event: EventView,
    stored: StoredIds,
)
    requires
        refreshing(stage, stored),
    ensures
        refreshing(import_one::start_stage(Some(stored)), stored),
        import_one::due_step(d, ids, stage) matches Some(step) ==> !creates(step) && within(
            step,
            stored,
        ),
        import_one::answers(stage, event) ==> refreshing(
            import_one::next_stage(d, stage, event),
            stored,
        ),
{
}

/// What is stored carries the times of the transcript, where it says them: an import
/// and a refresh alike end by stamping turn, process, session and workspace with the
/// times of the first and last message.
pub proof fn law_stored_rows_carry_the_times(
    d: SessionView,
    ids: ImportIds,
    w: World,
    stored: Option<StoredIds>,
)
    requires
        d.started_at is Some,
        d.ended_at is Some,
    ensures
        ({
            let all = steps(d, ids, w, import_one::start_stage(stored));
            let first = d.started_at->Some_0;
            let last = d.ended_at->Some_0;
            let at = match stored {
                Some(stored) => stored,
                None => w.stored(),
            };
            &&& all.len() >= 4
            &&& all.skip(all.len() - 4) == seq![
                StepView::StampTurn { process_id: at.process, first, last },
                StepView::StampProcess { process_id: at.process, first, last },
                StepView::StampSession { session_id: at.session, first, last },
                StepView::StampWorkspace { workspace_id: at.workspace, first, last },
            ]
        }),
{
    match stored {
        Some(stored) => law_refresh_steps(d, ids, w, stored),
        None => law_import_steps(d, ids, w),
    }
}

/// What is stored tells the token usage of the transcript, where it is known: an
/// import and a refresh alike write the entry of it after the conversation.
pub proof fn law_token_usage_is_written(
    d: SessionView,
    ids: ImportIds,
    w: World,
    stored: Option<StoredIds>,
)
    requires
        d.token_usage is Some,
    ensures
        steps(d, ids, w, import_one::start_stage(stored)).contains(
            (StepView::EncodeUsage { index: d.entries.len(), usage: d.token_usage->Some_0 }),
        ),
{
    let all = steps(d, ids, w, import_one::start_stage(stored));
    let at = match stored {
        Some(stored) => {
            law_refresh_steps(d, ids, w, stored);
            1 + entry_steps(w, 0, d.entries.len()).len()
        },
        None => {
            law_import_steps(d, ids, w);
            7 + entry_steps(w, 0, d.entries.len()).len()
        },
    };
    assert(all[at as int] == usage_steps(d, w)[0]);
}

/// Every step that succeeds is answered as the import expects.
pub proof fn law_success_answers(d: SessionView, ids: ImportIds, w: World, stage: StageView)
    ensures
        import_one::due_step(d, ids, stage) matches Some(step) ==> import_one::answers(
            stage,
            success(w, step),
        ),
{
}

/// An import that ends well has stored the agent's own session id with the turn: a
/// scan that reads the id back, and a run that is not asked to refresh, skip the
/// session.
pub proof fn law_import_stores_the_session_id(
    d: SessionView,
    ids: ImportIds,
    w: World,
    rows: Seq<Option<String>>,
    row: Option<String>,
)
    requires
        text::view_opt(row) == Some(d.claude_session_id),
    ensures
        steps(d, ids, w, import_one::start_stage(None)).contains(
            (StepView::StoreAgentSessionId {
                process_id: w.process_id,
                agent_session_id: d.claude_session_id,
            }),
        ),
        discovery::stored_ids(rows.push(row)).contains(d.claude_session_id),
        discovery::stored_ids(rows).subset_of(discovery::stored_ids(rows.push(row))),
        forall|wanted: Option<Set<Seq<char>>>|
            !(#[trigger] import_run::selected(
                d.claude_session_id,
                discovery::stored_ids(rows.push(row)),
                wanted,
                false,
            )),
{
    law_import_steps(d, ids, w);
    let all = steps(d, ids, w, import_one::start_stage(None));
    let closing = closing_steps(d, ids, Purpose::Import, w.stored());
    assert(all[all.len() - stamp_steps(d, w.stored()).len() - 2] == closing[2]);
    let after = rows.push(row);
    assert(text::view_opt(after[rows.len() as int]) == Some(d.claude_session_id));
    assert forall|id: Seq<char>| discovery::stored_ids(rows).contains(id) implies
        discovery::stored_ids(after).contains(id) by {
        let i = choose|i: int| 0 <= i < rows.len() && text::view_opt(#[trigger] rows[i]) == Some(id);
        assert(text::view_opt(after[i]) == Some(id));
    }
}

/// A step that is due may fail, and the import ends with what was said of it: a bad
/// request, which names the directory or the executor's configuration, where that is
/// what could not be had; else an error of the log or of the database.
pub proof fn law_failures_say_what_failed(
    d: SessionView,
    ids: ImportIds,
    stage: StageView,
    message: Seq<char>,
)
    requires
        import_one::due_step(d, ids, stage) is Some,
    ensures
        import_one::answers(stage, EventView::Failed(message)),
        ({
            let step = import_one::due_step(d, ids, stage)->Some_0;
            let end = import_one::next_stage(d, stage, EventView::Failed(message));
            match step {
                StepView::RegisterRepo { .. } => end == StageView::Failed(
                    ErrorView::BadRequest("register repo "@ + d.cwd + ": "@ + message),
                ),
                StepView::ResolveExecutor { .. } => end == StageView::Failed(
                    ErrorView::BadRequest("executor config: "@ + message),
                ),
                StepView::OpenLog { .. }
                | StepView::RewriteLog { .. }
                | StepView::EncodeEntry { .. }
                | StepView::EncodeUsage { .. }
                | StepView::EncodeFinished
                | StepView::AppendLine { .. } => end == StageView::Failed(ErrorView::Log(message)),
                _ => end == StageView::Failed(ErrorView::Database(message)),
            }
        }),
{
}

/// The first step that fails ends an import or a refresh: nothing is due after it.
pub proof fn law_first_failure_ends_an_import(
    d: SessionView,
    ids: ImportIds,
    stage: StageView,
    message: Seq<char>,
)
    ensures
        import_one::next_stage(d, stage, EventView::Failed(message)) is Failed,
        import_one::due_step(
            d,
            ids,
            import_one::next_stage(d, stage, EventView::Failed(message)),
        ) is None,
{
}

} // verus!
