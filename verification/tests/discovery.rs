use cdesktop::discovery::{
    already_imported_ids, is_newer, is_transcript, scan, sort_newest_first, DiskScan, SessionIds,
};
use cdesktop::timestamp::Timestamp;
use cdesktop::transcript::DiscoveredSession;

fn session(id: &str, started_at: Option<Timestamp>) -> DiscoveredSession {
    DiscoveredSession {
        claude_session_id: id.to_string(),
        cwd: "/w".to_string(),
        title: "t".to_string(),
        message_count: 0,
        started_at,
        ended_at: None,
        modified_at: None,
        git_branch: None,
        entries: Vec::new(),
        first_prompt: None,
        token_usage: None,
    }
}

fn at(seconds: i64, nanos: u32) -> Option<Timestamp> {
    Some(Timestamp { seconds, nanos })
}

fn ids(sessions: &[DiscoveredSession]) -> Vec<&str> {
    sessions.iter().map(|s| s.claude_session_id.as_str()).collect()
}

const FILE: &str = r#"{"type":"user","cwd":"/w","timestamp":"2026-08-29T10:00:00Z","message":{"content":"x"}}"#;

#[test]
fn sessions_come_newest_first() {
    let sorted = sort_newest_first(vec![
        session("undated", None),
        session("old", at(-10, 5)),
        session("new", at(100, 0)),
        session("newer", at(100, 1)),
        session("oldest", at(i64::MIN, 0)),
        session("newest", at(i64::MAX, u32::MAX)),
        session("middle", at(-10, 6)),
    ]);
    assert_eq!(ids(&sorted), vec!["newest", "newer", "new", "middle", "old", "oldest", "undated"]);
}

#[test]
fn sessions_of_one_time_keep_their_order() {
    let sorted = sort_newest_first(vec![
        session("a", None),
        session("b", at(1, 0)),
        session("c", None),
        session("d", at(1, 0)),
        session("e", at(2, 0)),
        session("f", at(1, 0)),
        session("g", None),
    ]);
    assert_eq!(ids(&sorted), vec!["e", "b", "d", "f", "a", "c", "g"]);
}

#[test]
fn sorting_agrees_with_std() {
    let times: Vec<Option<Timestamp>> = (0..200u32)
        .map(|i| if i % 7 == 0 { None } else { at(i64::from(i * 37 % 11) - 5, i * 13 % 3) })
        .collect();
    let make = || -> Vec<DiscoveredSession> {
        times.iter().enumerate().map(|(i, t)| session(&i.to_string(), *t)).collect()
    };
    let mut expected = make();
    expected.sort_by(|a, b| {
        let key = |s: &DiscoveredSession| s.started_at.map(|t| (t.seconds, t.nanos));
        key(b).cmp(&key(a))
    });
    assert_eq!(sort_newest_first(make()), expected);
}

#[test]
fn transcripts_are_told_by_extension() {
    assert!(is_transcript(Some("jsonl")));
    assert!(!is_transcript(Some("json")));
    assert!(!is_transcript(Some("JSONL")));
    assert!(!is_transcript(None));
}

#[test]
fn a_walk_finds_the_sessions() {
    let mut walk = DiskScan::new();
    walk.visit(Some("jsonl"), Some("a"), at(9, 1), Some(FILE));
    walk.visit(Some("json"), Some("b"), at(9, 1), Some(FILE));
    walk.visit(None, Some("c"), at(9, 1), Some(FILE));
    walk.visit(Some("jsonl"), Some("d"), at(9, 1), None);
    walk.visit(Some("jsonl"), Some("e"), at(9, 1), Some("nothing"));
    walk.visit(Some("jsonl"), None, at(9, 1), Some(FILE));
    let later = FILE.replace("10:00:00Z", "10:00:01Z");
    walk.visit(Some("jsonl"), Some("f"), at(9, 1), Some(&later));
    let found = walk.finish();
    assert_eq!(ids(&found), vec!["f", "a"]);
    assert_eq!(found[0].modified_at, at(9, 1));
}

#[test]
fn rows_without_an_id_are_passed_over() {
    let known = already_imported_ids(vec![Some("a".to_string()), None, Some("b".to_string()), Some("a".to_string())]);
    assert!(known.contains("a"));
    assert!(known.contains("b"));
    assert!(!known.contains("c"));
    assert!(!known.contains(""));
    assert!(!already_imported_ids(Vec::new()).contains("a"));
}

#[test]
fn ids_of_a_list_are_found() {
    let list = SessionIds::of(&vec!["x".to_string(), "y".to_string()]);
    assert!(list.contains("x") && list.contains("y") && !list.contains("z"));
}

#[test]
fn a_scan_parts_what_is_there_from_what_is_not() {
    let known = already_imported_ids(vec![Some("b".to_string()), Some("d".to_string())]);
    let all = vec![session("a", None), session("b", None), session("c", None), session("b", None)];
    let response = scan(&known, all);
    assert_eq!(ids(&response.sessions), vec!["a", "c"]);
    assert_eq!(response.already_imported, 2);
}

#[test]
fn newer_is_later_or_known() {
    assert!(is_newer(at(2, 0), at(1, 9)));
    assert!(is_newer(at(1, 2), at(1, 1)));
    assert!(!is_newer(at(1, 1), at(1, 1)));
    assert!(!is_newer(at(1, 9), at(2, 0)));
    assert!(is_newer(at(-5, 0), None));
    assert!(!is_newer(None, at(-5, 0)));
    assert!(!is_newer(None, None));
}

#[test]
fn a_scan_is_a_dry_run() {
    let known = already_imported_ids(vec![Some("b".to_string())]);
    let first = scan(&known, vec![session("a", None), session("b", None), session("c", None)]);
    let second = scan(&known, vec![session("c", None), session("a", None), session("b", None)]);
    assert_eq!(ids(&first.sessions), vec!["a", "c"]);
    assert_eq!(ids(&second.sessions), vec!["c", "a"]);
    assert_eq!((first.already_imported, second.already_imported), (1, 1));
}
