//! What the views of values say: all that the values hold.
use vstd::prelude::*;

use crate::discovery;
use crate::entry;
use crate::entry::{
    ActionType, ActionView, EntryTypeView, NormalizedEntry, NormalizedEntryType,
};
use crate::import_one::{
    ErrorView, EventView, ImportAction, ImportError, ImportEvent, ImportStage, StageView, StepView,
};
use crate::json;
use crate::rate_limit::RateLimitSnapshot;
use crate::text;
use crate::transcript;
use crate::transcript::{DiscoveredSession, Transcript};

verus! {

/// The view of a session says all that the session says.
pub proof fn law_session_views(d: DiscoveredSession, list: Seq<DiscoveredSession>, i: int)
    ensures
        d@.claude_session_id == d.claude_session_id@,
        d@.cwd == d.cwd@,
        d@.title == d.title@,
        d@.message_count == d.message_count,
        d@.started_at == d.started_at,
        d@.ended_at == d.ended_at,
        d@.modified_at == d.modified_at,
        d@.git_branch == text::view_opt(d.git_branch),
        d@.entries == entry::views(d.entries@),
        d@.first_prompt == text::view_opt(d.first_prompt),
        d@.token_usage == d.token_usage,
        transcript::view_opt(Some(d)) == Some(d@),
        transcript::view_opt(None) is None,
        discovery::views(list).len() == list.len(),
        0 <= i < list.len() ==> discovery::views(list)[i] == list[i]@,
{
}

/// The view of a transcript says all that has been read of it.
pub proof fn law_transcript_views(t: Transcript)
    ensures
        t@.claude_session_id == text::view_opt(t.claude_session_id),
        t@.cwd == text::view_opt(t.cwd),
        t@.title == text::view_opt(t.title),
        t@.git_branch == text::view_opt(t.git_branch),
        t@.started_at == t.started_at,
        t@.ended_at == t.ended_at,
        t@.first_prompt == text::view_opt(t.first_prompt),
        t@.token_usage == t.token_usage,
        t@.entries == entry::views(t.entries@),
{
}

/// The view of an entry says all that the entry says.
pub proof fn law_entry_views(e: NormalizedEntry, list: Seq<NormalizedEntry>, i: int)
    ensures
        e@.timestamp == text::view_opt(e.timestamp),
        e@.entry_type == e.entry_type@,
        e@.content == e.content@,
        e@.metadata == json::view_opt(e.metadata),
        entry::view_opt(Some(e)) == Some(e@),
        entry::view_opt(None) is None,
        entry::views(list).len() == list.len(),
        0 <= i < list.len() ==> entry::views(list)[i] == list[i]@,
{
}

/// The view of an entry type says all that the type says.
pub proof fn law_entry_type_views(t: NormalizedEntryType, a: ActionType)
    ensures
        t == NormalizedEntryType::UserMessage ==> t@ == EntryTypeView::UserMessage,
        t == NormalizedEntryType::AssistantMessage ==> t@ == EntryTypeView::AssistantMessage,
        t == NormalizedEntryType::Thinking ==> t@ == EntryTypeView::Thinking,
        t matches NormalizedEntryType::TokenUsageInfo(info) ==> t@ == EntryTypeView::TokenUsageInfo(
            info,
        ),
        t matches NormalizedEntryType::ToolUse { tool_name, action_type, status } ==> t@ == (
        EntryTypeView::ToolUse { tool_name: tool_name@, action_type: action_type@, status }),
        a matches ActionType::Tool { tool_name, arguments, result } ==> a@ == (ActionView::Tool {
            tool_name: tool_name@,
            arguments: json::view_opt(arguments),
            result: json::view_opt(result),
        }),
{
}

/// The view of a report says all that the report says.
pub proof fn law_report_views(r: RateLimitSnapshot)
    ensures
        r@.rate_limit_type == r.rate_limit_type@,
        r@.status == r.status@,
        r@.resets_at == r.resets_at,
        r@.is_using_overage == r.is_using_overage,
        r@.overage_status == text::view_opt(r.overage_status),
        r@.observed_at == r.observed_at@,
{
}

/// The view of a step says all that the step says.
pub proof fn law_action_views(a: ImportAction)
    ensures
        a matches ImportAction::RegisterRepo { path } ==> a@ == (StepView::RegisterRepo {
            path: path@,
        }),
        a matches ImportAction::CreateWorkspace { id, branch, name, use_worktree }
            ==> a@ == (StepView::CreateWorkspace {
            id,
            branch: branch@,
            name: name@,
            use_worktree,
        }),
        a matches ImportAction::LinkRepo { workspace_id, repo_id, target_branch }
            ==> a@ == (StepView::LinkRepo {
            workspace_id,
            repo_id,
            target_branch: target_branch@,
        }),
        a matches ImportAction::CreateSession { id, workspace_id, executor, name }
            ==> a@ == (StepView::CreateSession {
            id,
            workspace_id,
            executor: executor@,
            name: name@,
        }),
        a matches ImportAction::ResolveExecutor { executor } ==> a@ == (StepView::ResolveExecutor {
            executor: executor@,
        }),
        a matches ImportAction::CreateProcess {
            id,
            session_id,
            run_reason,
            initial_prompt,
            working_dir,
        }
            ==> a@ == (StepView::CreateProcess {
            id,
            session_id,
            run_reason,
            initial_prompt: initial_prompt@,
            working_dir: text::view_opt(working_dir),
        }),
        a matches ImportAction::OpenLog { session_id, process_id } ==> a@ == (StepView::OpenLog {
            session_id,
            process_id,
        }),
        a matches ImportAction::RewriteLog { session_id, process_id }
            ==> a@ == (StepView::RewriteLog {
            session_id,
            process_id,
        }),
        a matches ImportAction::EncodeEntry { index } ==> a@ == (StepView::EncodeEntry {
            index: index as nat,
        }),
        a matches ImportAction::EncodeUsage { index, usage } ==> a@ == (StepView::EncodeUsage {
            index: index as nat,
            usage,
        }),
        a == ImportAction::EncodeFinished ==> a@ == StepView::EncodeFinished,
        a matches ImportAction::AppendLine { line } ==> a@ == (StepView::AppendLine {
            line: line@,
        }),
        a matches ImportAction::CompleteProcess { process_id, status, exit_code }
            ==> a@ == (StepView::CompleteProcess {
            process_id,
            status,
            exit_code,
        }),
        a matches ImportAction::CreateTurn { id, process_id, prompt }
            ==> a@ == (StepView::CreateTurn {
            id,
            process_id,
            prompt: text::view_opt(prompt),
        }),
        a matches ImportAction::StoreAgentSessionId { process_id, agent_session_id }
            ==> a@ == (StepView::StoreAgentSessionId {
            process_id,
            agent_session_id: agent_session_id@,
        }),
        a matches ImportAction::RenameWorkspace { workspace_id, name }
            ==> a@ == (StepView::RenameWorkspace {
            workspace_id,
            name: name@,
        }),
        a matches ImportAction::RenameSession { session_id, name }
            ==> a@ == (StepView::RenameSession {
            session_id,
            name: name@,
        }),
        a matches ImportAction::StoreSummary { process_id, summary }
            ==> a@ == (StepView::StoreSummary {
            process_id,
            summary: summary@,
        }),
        a matches ImportAction::StampTurn { process_id, first, last }
            ==> a@ == (StepView::StampTurn {
            process_id,
            first,
            last,
        }),
        a matches ImportAction::StampProcess { process_id, first, last }
            ==> a@ == (StepView::StampProcess {
            process_id,
            first,
            last,
        }),
        a matches ImportAction::StampSession { session_id, first, last }
            ==> a@ == (StepView::StampSession {
            session_id,
            first,
            last,
        }),
        a matches ImportAction::StampWorkspace { workspace_id, first, last }
            ==> a@ == (StepView::StampWorkspace {
            workspace_id,
            first,
            last,
        }),
{
}

/// The view of an event says all that the event says.
pub proof fn law_event_views(e: ImportEvent)
    ensures
        e matches ImportEvent::Created(x) ==> e@ == EventView::Created(x),
        e matches ImportEvent::Encoded(x) ==> e@ == EventView::Encoded(x@),
        e == ImportEvent::Done ==> e@ == EventView::Done,
        e matches ImportEvent::Failed(x) ==> e@ == EventView::Failed(x@),
{
}

/// The view of an error says all that the error says.
pub proof fn law_error_views(e: ImportError)
    ensures
        e matches ImportError::BadRequest(x) ==> e@ == ErrorView::BadRequest(x@),
        e matches ImportError::Database(x) ==> e@ == ErrorView::Database(x@),
        e matches ImportError::Log(x) ==> e@ == ErrorView::Log(x@),
{
}

/// The view of a stage says all that the stage says.
pub proof fn law_stage_views(s: ImportStage)
    ensures
        s == ImportStage::RegisterRepo ==> s@ == StageView::RegisterRepo,
        s matches ImportStage::CreateWorkspace { repo_id } ==> s@ == (StageView::CreateWorkspace {
            repo_id,
        }),
        s matches ImportStage::LinkRepo { repo_id, workspace_id } ==> s@ == (StageView::LinkRepo {
            repo_id,
            workspace_id,
        }),
        s matches ImportStage::CreateSession { workspace_id } ==> s@ == (StageView::CreateSession {
            workspace_id,
        }),
        s matches ImportStage::ResolveExecutor { workspace_id, session_id }
            ==> s@ == (StageView::ResolveExecutor {
            workspace_id,
            session_id,
        }),
        s matches ImportStage::CreateProcess { workspace_id, session_id }
            ==> s@ == (StageView::CreateProcess {
            workspace_id,
            session_id,
        }),
        s matches ImportStage::OpenLog { purpose, stored } ==> s@ == (StageView::OpenLog {
            purpose,
            stored,
        }),
        s matches ImportStage::EncodeEntry { purpose, stored, index }
            ==> s@ == (StageView::EncodeEntry {
            purpose,
            stored,
            index: index as nat,
        }),
        s matches ImportStage::AppendEntry { purpose, stored, index, line }
            ==> s@ == (StageView::AppendEntry {
            purpose,
            stored,
            index: index as nat,
            line: line@,
        }),
        s matches ImportStage::EncodeUsage { purpose, stored, usage }
            ==> s@ == (StageView::EncodeUsage {
            purpose,
            stored,
            usage,
        }),
        s matches ImportStage::AppendUsage { purpose, stored, line }
            ==> s@ == (StageView::AppendUsage {
            purpose,
            stored,
            line: line@,
        }),
        s matches ImportStage::EncodeFinished { purpose, stored }
            ==> s@ == (StageView::EncodeFinished {
            purpose,
            stored,
        }),
        s matches ImportStage::AppendFinished { purpose, stored, line }
            ==> s@ == (StageView::AppendFinished {
            purpose,
            stored,
            line: line@,
        }),
        s matches ImportStage::CompleteProcess { stored } ==> s@ == (StageView::CompleteProcess {
            stored,
        }),
        s matches ImportStage::CreateTurn { stored } ==> s@ == (StageView::CreateTurn {
            stored,
        }),
        s matches ImportStage::StoreAgentSessionId { stored }
            ==> s@ == (StageView::StoreAgentSessionId {
            stored,
        }),
        s matches ImportStage::RenameWorkspace { stored } ==> s@ == (StageView::RenameWorkspace {
            stored,
        }),
        s matches ImportStage::RenameSession { stored } ==> s@ == (StageView::RenameSession {
            stored,
        }),
        s matches ImportStage::StoreSummary { stored } ==> s@ == (StageView::StoreSummary {
            stored,
        }),
        s matches ImportStage::StampTurn { stored, first, last } ==> s@ == (StageView::StampTurn {
            stored,
            first,
            last,
        }),
        s matches ImportStage::StampProcess { stored, first, last }
            ==> s@ == (StageView::StampProcess {
            stored,
            first,
            last,
        }),
        s matches ImportStage::StampSession { stored, first, last }
            ==> s@ == (StageView::StampSession {
            stored,
            first,
            last,
        }),
        s matches ImportStage::StampWorkspace { stored, first, last }
            ==> s@ == (StageView::StampWorkspace {
            stored,
            first,
            last,
        }),
        s == ImportStage::Stored ==> s@ == StageView::Stored,
        s matches ImportStage::Failed(x) ==> s@ == StageView::Failed(x@),
{
}

} // verus!
