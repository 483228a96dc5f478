use cdesktop::discovery::already_imported_ids;
use cdesktop::discovery::scan;
use cdesktop::entry::{
    usage_entry, ActionType, NormalizedEntry, NormalizedEntryType, ToolStatus,
};
use cdesktop::import_one::{
    action, advance, fresh_ids, start, ImportAction, ImportError, ImportEvent, ImportIds,
    ImportStage, ProcessStatus, RunReason, StoredIds,
};
use cdesktop::import_run::{startup_sessions, ImportRequest, ImportResponse, ImportRun};
use cdesktop::timestamp::Timestamp;
use cdesktop::json::Json;
use cdesktop::transcript::DiscoveredSession;
use cdesktop::usage::TokenUsageInfo;

fn entry(content: &str) -> NormalizedEntry {
    NormalizedEntry {
        timestamp: None,
        entry_type: NormalizedEntryType::UserMessage,
        content: content.to_string(),
        metadata: None,
    }
}

fn session(id: &str) -> DiscoveredSession {
    DiscoveredSession {
        claude_session_id: id.to_string(),
        cwd: "/w".to_string(),
        title: "Title".to_string(),
        message_count: 2,
        started_at: None,
        ended_at: None,
        modified_at: None,
        git_branch: None,
        entries: vec![entry("one"), entry("two")],
        first_prompt: Some("one".to_string()),
        token_usage: None,
    }
}

fn at(seconds: i64) -> Timestamp {
    Timestamp { seconds, nanos: 0 }
}

const USAGE: TokenUsageInfo = TokenUsageInfo { total_tokens: 543, model_context_window: 200_000 };

/// A session that says all that a transcript can say.
fn full_session(id: &str) -> DiscoveredSession {
    DiscoveredSession {
        started_at: Some(at(5)),
        ended_at: Some(at(9)),
        token_usage: Some(USAGE),
        ..session(id)
    }
}

/// Runs an import in which `ok` tells which sessions can be imported; returns what
/// was handed out and the response.
fn run(known: &[&str], wanted: Option<Vec<&str>>, found: &[&str], ok: fn(&str) -> bool) -> (Vec<String>, ImportResponse) {
    let existing = already_imported_ids(known.iter().map(|id| Some(id.to_string())).collect());
    let request = ImportRequest {
        session_ids: wanted.map(|ids| ids.iter().map(|id| id.to_string()).collect()),
        refresh: false,
    };
    let sessions = found.iter().map(|id| session(id)).collect();
    drive(ImportRun::new(existing, request, sessions), ok)
}

fn drive(mut run: ImportRun, ok: fn(&str) -> bool) -> (Vec<String>, ImportResponse) {
    let mut tried = Vec::new();
    while let Some(i) = run.next() {
        let id = run.session(i).claude_session_id.clone();
        run.settle(ok(&id));
        tried.push(id);
    }
    (tried, run.response())
}

/// A run that refreshes.
fn refresh(known: &[&str], wanted: Option<Vec<&str>>, found: &[&str], ok: fn(&str) -> bool) -> (Vec<String>, ImportResponse) {
    let existing = already_imported_ids(known.iter().map(|id| Some(id.to_string())).collect());
    let request = ImportRequest {
        session_ids: wanted.map(|ids| ids.iter().map(|id| id.to_string()).collect()),
        refresh: true,
    };
    drive(ImportRun::new(existing, request, found.iter().map(|id| session(id)).collect()), ok)
}

fn response(imported: usize, skipped: usize, failed: &[&str]) -> ImportResponse {
    ImportResponse { imported, refreshed: 0, skipped, failed: failed.iter().map(|id| id.to_string()).collect() }
}

#[test]
fn a_run_imports_what_is_not_there() {
    let (tried, report) = run(&["b", "x"], None, &["a", "b", "c"], |_| true);
    assert_eq!(tried, vec!["a", "c"]);
    assert_eq!(report, response(2, 1, &[]));
}

#[test]
fn a_run_can_be_restricted() {
    let (tried, report) = run(&["b"], Some(vec!["b", "c", "z"]), &["a", "b", "c"], |_| true);
    assert_eq!(tried, vec!["c"]);
    assert_eq!(report, response(1, 2, &[]));
    let (tried, report) = run(&[], Some(vec![]), &["a", "b"], |_| true);
    assert!(tried.is_empty());
    assert_eq!(report, response(0, 2, &[]));
}

#[test]
fn failures_are_reported_in_order() {
    let (tried, report) = run(&["d"], None, &["a", "b", "c", "d", "e"], |id| id == "b" || id == "c");
    assert_eq!(tried, vec!["a", "b", "c", "e"]);
    assert_eq!(report, response(2, 1, &["a", "e"]));
}

#[test]
fn a_run_over_nothing_does_nothing() {
    assert_eq!(run(&["a"], None, &[], |_| true).1, response(0, 0, &[]));
}

#[test]
fn a_second_run_imports_nothing() {
    let found = ["a", "b", "c"];
    let (first, report) = run(&["b"], None, &found, |_| true);
    assert_eq!(report, response(2, 1, &[]));
    let mut known = vec!["b"];
    known.extend(first.iter().map(|id| id.as_str()));
    let (again, report) = run(&known, None, &found, |_| true);
    assert!(again.is_empty());
    assert_eq!(report, response(0, 3, &[]));
}

#[test]
fn only_failures_are_tried_again() {
    let found = ["a", "b", "c"];
    let (_, report) = run(&[], None, &found, |id| id != "b");
    assert_eq!(report, response(2, 0, &["b"]));
    let (again, report) = run(&["a", "c"], None, &found, |_| true);
    assert_eq!(again, vec!["b"]);
    assert_eq!(report, response(1, 2, &[]));
}

#[test]
fn one_id_found_twice_is_imported_twice() {
    let (tried, report) = run(&[], None, &["a", "a"], |_| true);
    assert_eq!(tried, vec!["a", "a"]);
    assert_eq!(report, response(2, 0, &[]));
}

#[test]
fn a_second_run_imports_nothing_whatever_is_asked() {
    let found = ["a", "b", "c"];
    let (first, report) = run(&["b"], None, &found, |_| true);
    assert_eq!(report, response(2, 1, &[]));
    let mut known = vec!["b"];
    known.extend(first.iter().map(|id| id.as_str()));
    for wanted in [Some(vec!["a", "c"]), Some(vec![]), Some(vec!["z"]), None] {
        let (again, report) = run(&known, wanted, &found, |_| true);
        assert!(again.is_empty());
        assert_eq!(report, response(0, 3, &[]));
    }
    let stored = already_imported_ids(known.iter().map(|id| Some(id.to_string())).collect());
    let shown = scan(&stored, found.iter().map(|id| session(id)).collect());
    assert!(shown.sessions.is_empty());
    assert_eq!(shown.already_imported, report.imported + report.skipped);
}

#[test]
fn a_refresh_reaches_what_is_stored() {
    let (tried, report) = refresh(&["b", "c"], None, &["a", "b", "c"], |_| true);
    assert_eq!(tried, vec!["a", "b", "c"]);
    assert_eq!(report, ImportResponse { imported: 1, refreshed: 2, skipped: 0, failed: vec![] });
    let (tried, report) = refresh(&["b", "c"], Some(vec!["c"]), &["a", "b", "c"], |_| true);
    assert_eq!(tried, vec!["c"]);
    assert_eq!(report, ImportResponse { imported: 0, refreshed: 1, skipped: 2, failed: vec![] });
    let (_, report) = refresh(&["b", "c"], None, &["a", "b", "c"], |id| id == "b");
    assert_eq!(
        report,
        ImportResponse { imported: 0, refreshed: 1, skipped: 0, failed: vec!["a".to_string(), "c".to_string()] }
    );
}

#[test]
fn a_run_tells_what_is_stored() {
    let existing = already_imported_ids(vec![Some("b".to_string())]);
    let request = ImportRequest { session_ids: None, refresh: true };
    let mut run = ImportRun::new(existing, request, vec![session("a"), session("b")]);
    assert_eq!(run.next(), Some(0));
    assert!(!run.is_stored(0));
    run.settle(true);
    assert_eq!(run.next(), Some(1));
    assert!(run.is_stored(1));
}

#[test]
fn the_startup_run_rewrites_only_what_is_newer() {
    let existing = already_imported_ids(
        ["grown", "same", "copied_later", "no_copy", "undated"].iter().map(|id| Some(id.to_string())).collect(),
    );
    let found = |id: &str, modified_at| DiscoveredSession { modified_at, ..session(id) };
    let sessions = vec![
        found("new", Some(at(1))),
        found("grown", Some(at(8))),
        found("same", Some(at(5))),
        found("copied_later", Some(at(3))),
        found("no_copy", Some(at(2))),
        found("undated", None),
    ];
    let written_at = vec![None, Some(at(7)), Some(at(5)), Some(at(4)), None, Some(at(1))];
    let due = startup_sessions(&existing, sessions.clone(), &written_at);
    let ids: Vec<&str> = due.iter().map(|s| s.claude_session_id.as_str()).collect();
    assert_eq!(ids, vec!["new", "grown", "no_copy"]);
    let (tried, report) = drive(ImportRun::at_startup(existing, sessions, &written_at), |_| true);
    assert_eq!(tried, vec!["new", "grown", "no_copy"]);
    assert_eq!(report, ImportResponse { imported: 1, refreshed: 2, skipped: 0, failed: vec![] });
}

#[test]
fn the_startup_run_goes_by_transcript() {
    let existing = already_imported_ids(vec![Some("s".to_string())]);
    let found = |cwd: &str, modified_at| DiscoveredSession {
        cwd: cwd.to_string(),
        modified_at: Some(at(modified_at)),
        ..session("s")
    };
    let sessions = vec![found("/fresh", 8), found("/stale", 3)];
    let mut run = ImportRun::at_startup(existing, sessions, &vec![Some(at(5)), Some(at(5))]);
    assert_eq!(run.next(), Some(0));
    assert_eq!(run.session(0).cwd, "/fresh");
    assert!(run.is_stored(0));
    run.settle(true);
    assert_eq!(run.next(), None);
}

#[test]
fn a_copy_of_a_session_is_the_same() {
    let mut original = full_session("s");
    original.git_branch = Some("dev".to_string());
    original.entries.push(NormalizedEntry {
        timestamp: Some("t".to_string()),
        entry_type: NormalizedEntryType::ToolUse {
            tool_name: "Bash".to_string(),
            action_type: ActionType::Tool {
                tool_name: "Bash".to_string(),
                arguments: Json::parse(r#"{"a":[1,null,"x"]}"#),
                result: None,
            },
            status: ToolStatus::Success,
        },
        content: String::new(),
        metadata: Some(Json::Null),
    });
    original.entries.push(usage_entry(USAGE));
    assert_eq!(original.clone(), original);
}

const IDS: ImportIds = ImportIds { workspace: 1, session: 2, process: 3, turn: 4 };

const STORED: StoredIds = StoredIds { workspace: 11, session: 22, process: 33 };

/// Performs an import whose steps all succeed, except that the step at `fail_at`
/// fails; returns the steps and where the import ended.
fn import(d: &DiscoveredSession, fail_at: Option<usize>) -> (Vec<ImportAction>, ImportStage) {
    perform(d, None, fail_at)
}

/// The same for the import of a session, or the refresh of one that is stored.
fn perform(
    d: &DiscoveredSession,
    stored: Option<StoredIds>,
    fail_at: Option<usize>,
) -> (Vec<ImportAction>, ImportStage) {
    let mut stage = start(stored);
    let mut steps = Vec::new();
    while let Some(step) = action(d, &IDS, &stage) {
        let event = match &step {
            _ if fail_at == Some(steps.len()) => ImportEvent::Failed("no luck".to_string()),
            ImportAction::RegisterRepo { .. } => ImportEvent::Created(70),
            ImportAction::CreateWorkspace { id, .. }
            | ImportAction::CreateSession { id, .. }
            | ImportAction::CreateProcess { id, .. } => ImportEvent::Created(*id * 10),
            ImportAction::EncodeEntry { index } => ImportEvent::Encoded(format!("entry {index}")),
            ImportAction::EncodeUsage { .. } => ImportEvent::Encoded("usage".to_string()),
            ImportAction::EncodeFinished => ImportEvent::Encoded("finished".to_string()),
            _ => ImportEvent::Done,
        };
        steps.push(step);
        stage = advance(d, stage, event);
    }
    (steps, stage)
}

fn line(s: &str) -> ImportAction {
    ImportAction::AppendLine { line: s.to_string() }
}

#[test]
fn an_import_takes_these_steps() {
    let (steps, end) = import(&session("s"), None);
    assert_eq!(end, ImportStage::Stored);
    assert_eq!(
        steps,
        vec![
            ImportAction::RegisterRepo { path: "/w".to_string() },
            ImportAction::CreateWorkspace {
                id: 1,
                branch: "main".to_string(),
                name: "Title".to_string(),
                use_worktree: false,
            },
            ImportAction::LinkRepo { workspace_id: 10, repo_id: 70, target_branch: "main".to_string() },
            ImportAction::CreateSession {
                id: 2,
                workspace_id: 10,
                executor: "CLAUDE_CODE".to_string(),
                name: "Title".to_string(),
            },
            ImportAction::ResolveExecutor { executor: "CLAUDE_CODE".to_string() },
            ImportAction::CreateProcess {
                id: 3,
                session_id: 20,
                run_reason: RunReason::CodingAgent,
                initial_prompt: "one".to_string(),
                working_dir: None,
            },
            ImportAction::OpenLog { session_id: 20, process_id: 30 },
            ImportAction::EncodeEntry { index: 0 },
            line("entry 0\n"),
            ImportAction::EncodeEntry { index: 1 },
            line("entry 1\n"),
            ImportAction::EncodeFinished,
            line("finished\n"),
            ImportAction::CompleteProcess {
                process_id: 30,
                status: ProcessStatus::Completed,
                exit_code: Some(0),
            },
            ImportAction::CreateTurn { id: 4, process_id: 30, prompt: Some("one".to_string()) },
            ImportAction::StoreAgentSessionId { process_id: 30, agent_session_id: "s".to_string() },
            ImportAction::StoreSummary { process_id: 30, summary: "Title".to_string() },
        ]
    );
}

#[test]
fn what_a_session_does_not_say_has_defaults() {
    let silent = DiscoveredSession {
        git_branch: Some("dev".to_string()),
        first_prompt: None,
        entries: Vec::new(),
        ..session("s")
    };
    let (steps, end) = import(&silent, None);
    assert_eq!(end, ImportStage::Stored);
    assert_eq!(steps.len(), 13);
    assert!(matches!(&steps[1], ImportAction::CreateWorkspace { branch, .. } if branch == "dev"));
    assert!(matches!(&steps[2], ImportAction::LinkRepo { target_branch, .. } if target_branch == "dev"));
    assert!(matches!(&steps[5], ImportAction::CreateProcess { initial_prompt, .. } if initial_prompt.is_empty()));
    assert_eq!(steps[7], ImportAction::EncodeFinished);
    assert!(matches!(&steps[10], ImportAction::CreateTurn { prompt: None, .. }));
}

#[test]
fn the_first_failure_ends_an_import() {
    let d = full_session("s");
    let all = import(&d, None).0.len();
    assert_eq!(all, 23);
    for fail_at in 0..all {
        let (steps, end) = import(&d, Some(fail_at));
        assert_eq!(steps.len(), fail_at + 1);
        let expected = match fail_at {
            0 => ImportError::BadRequest("register repo /w: no luck".to_string()),
            4 => ImportError::BadRequest("executor config: no luck".to_string()),
            6..=14 => ImportError::Log("no luck".to_string()),
            _ => ImportError::Database("no luck".to_string()),
        };
        assert_eq!(end, ImportStage::Failed(expected));
    }
}

#[test]
fn an_import_writes_the_usage_and_stamps_the_times() {
    let (steps, end) = import(&full_session("s"), None);
    assert_eq!(end, ImportStage::Stored);
    assert_eq!(steps[11..13], [ImportAction::EncodeUsage { index: 2, usage: USAGE }, line("usage\n")]);
    let (first, last) = (at(5), at(9));
    assert_eq!(
        steps[19..],
        [
            ImportAction::StampTurn { process_id: 30, first, last },
            ImportAction::StampProcess { process_id: 30, first, last },
            ImportAction::StampSession { session_id: 20, first, last },
            ImportAction::StampWorkspace { workspace_id: 10, first, last },
        ]
    );
    let written = usage_entry(USAGE);
    assert_eq!(written.entry_type, NormalizedEntryType::TokenUsageInfo(USAGE));
    assert_eq!((written.timestamp, written.content.as_str(), written.metadata), (None, "", None));
}

#[test]
fn a_refresh_takes_these_steps() {
    let (steps, end) = perform(&full_session("s"), Some(STORED), None);
    assert_eq!(end, ImportStage::Stored);
    let (first, last) = (at(5), at(9));
    assert_eq!(
        steps,
        vec![
            ImportAction::RewriteLog { session_id: 22, process_id: 33 },
            ImportAction::EncodeEntry { index: 0 },
            line("entry 0\n"),
            ImportAction::EncodeEntry { index: 1 },
            line("entry 1\n"),
            ImportAction::EncodeUsage { index: 2, usage: USAGE },
            line("usage\n"),
            ImportAction::EncodeFinished,
            line("finished\n"),
            ImportAction::RenameWorkspace { workspace_id: 11, name: "Title".to_string() },
            ImportAction::RenameSession { session_id: 22, name: "Title".to_string() },
            ImportAction::StoreSummary { process_id: 33, summary: "Title".to_string() },
            ImportAction::StampTurn { process_id: 33, first, last },
            ImportAction::StampProcess { process_id: 33, first, last },
            ImportAction::StampSession { session_id: 22, first, last },
            ImportAction::StampWorkspace { workspace_id: 11, first, last },
        ]
    );
    let (steps, end) = perform(&session("s"), Some(STORED), Some(0));
    assert_eq!(steps.len(), 1);
    assert_eq!(end, ImportStage::Failed(ImportError::Log("no luck".to_string())));
}

#[test]
fn the_session_id_is_stored_after_the_log_is_written() {
    let (steps, _) = import(&session("s"), None);
    let stored = steps.iter().position(|s| matches!(s, ImportAction::StoreAgentSessionId { .. })).unwrap();
    let last_line = steps.iter().rposition(|s| matches!(s, ImportAction::AppendLine { .. })).unwrap();
    assert!(last_line < stored);
    let known = already_imported_ids(vec![Some("s".to_string())]);
    let mut run = ImportRun::new(known, ImportRequest { session_ids: None, refresh: false }, vec![session("s")]);
    assert_eq!(run.next(), None);
}

#[test]
fn fresh_ids_are_random_ids() {
    let a = fresh_ids();
    let b = fresh_ids();
    for id in [a.workspace, a.session, a.process, a.turn] {
        let id = uuid::Uuid::from_u128(id);
        assert_eq!(id.get_version(), Some(uuid::Version::Random));
        assert_eq!(id.get_variant(), uuid::Variant::RFC4122);
    }
    assert_ne!(a, b);
    assert_ne!(a.workspace, a.session);
}
