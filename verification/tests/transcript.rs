use cdesktop::entry::{
    block_to_entry, message_entry_type, text_of, ActionType, NormalizedEntry, NormalizedEntryType,
    ToolStatus,
};
use cdesktop::json::Json;
use cdesktop::timestamp::Timestamp;
use cdesktop::usage::{token_usage, TokenCounts, TokenUsageInfo};
use cdesktop::transcript::{normalize_cwd, parse_transcript, DiscoveredSession, Transcript};

fn json(text: &str) -> Json {
    Json::parse(text).unwrap()
}

fn parse(lines: &[&str]) -> Option<DiscoveredSession> {
    parse_transcript(&lines.join("\n"), Some("stem"))
}

fn message(entry_type: NormalizedEntryType, content: &str) -> NormalizedEntry {
    NormalizedEntry { timestamp: None, entry_type, content: content.to_string(), metadata: None }
}

const USER: &str = r#"{"type":"user","cwd":"/w","message":{"content":"hello"}}"#;

#[test]
fn drive_letters_are_upper_case() {
    assert_eq!(normalize_cwd("c:\\work"), "C:\\work");
    assert_eq!(normalize_cwd("C:\\work"), "C:\\work");
    assert_eq!(normalize_cwd("z:"), "Z:");
    assert_eq!(normalize_cwd("c:\\Work\\ä"), "C:\\Work\\ä");
    for other in ["", "c", "/home/c:", "ä:\\x", "1:\\x", "cc:\\x", ":c"] {
        assert_eq!(normalize_cwd(other), other);
    }
}

#[test]
fn normalizing_again_changes_nothing() {
    for cwd in ["c:\\a", "C:\\a", "/a", "q:"] {
        let once = normalize_cwd(cwd);
        assert_eq!(normalize_cwd(&once), once);
    }
}

#[test]
fn text_blocks_are_joined() {
    let content = json(
        r#"[{"type":"text","text":"a"},{"type":"image","text":"no"},{"type":"text","text":"b"},{"type":"text"}]"#,
    );
    assert_eq!(text_of(&content), Some("a\nb".to_string()));
}

#[test]
fn empty_texts_join_without_a_line_feed_at_the_front() {
    let front = json(r#"[{"type":"text","text":""},{"type":"text","text":"a"},{"type":"text","text":""}]"#);
    assert_eq!(text_of(&front), Some("a\n".to_string()));
}

#[test]
fn content_without_text_has_none() {
    assert_eq!(text_of(&json("[]")), None);
    assert_eq!(text_of(&json(r#"[{"type":"text","text":" \n "}]"#)), None);
    assert_eq!(text_of(&json(r#""text""#)), None);
    assert_eq!(text_of(&json("{}")), None);
}

#[test]
fn only_the_assistant_writes_assistant_messages() {
    assert_eq!(message_entry_type("assistant"), NormalizedEntryType::AssistantMessage);
    assert_eq!(message_entry_type("user"), NormalizedEntryType::UserMessage);
    assert_eq!(message_entry_type("Assistant"), NormalizedEntryType::UserMessage);
}

#[test]
fn text_and_thinking_blocks_become_entries() {
    let text = json(r#"{"type":"text","text":" hi "}"#);
    assert_eq!(
        block_to_entry(&text, "user", Some("t".to_string())),
        Some(NormalizedEntry {
            timestamp: Some("t".to_string()),
            ..message(NormalizedEntryType::UserMessage, " hi ")
        })
    );
    assert_eq!(
        block_to_entry(&text, "assistant", None),
        Some(message(NormalizedEntryType::AssistantMessage, " hi "))
    );
    let thinking = json(r#"{"type":"thinking","thinking":"hm","signature":"s"}"#);
    assert_eq!(
        block_to_entry(&thinking, "assistant", None),
        Some(message(NormalizedEntryType::Thinking, "hm"))
    );
}

#[test]
fn tool_calls_become_finished_entries() {
    let call = json(r#"{"type":"tool_use","name":"Bash","input":{"command":"ls","timeout":1.5}}"#);
    assert_eq!(
        block_to_entry(&call, "assistant", None),
        Some(message(
            NormalizedEntryType::ToolUse {
                tool_name: "Bash".to_string(),
                action_type: ActionType::Tool {
                    tool_name: "Bash".to_string(),
                    arguments: Some(json(r#"{"command":"ls","timeout":1.5}"#)),
                    result: None,
                },
                status: ToolStatus::Success,
            },
            "",
        ))
    );
    assert_eq!(
        block_to_entry(&json(r#"{"type":"tool_use"}"#), "assistant", None),
        Some(message(
            NormalizedEntryType::ToolUse {
                tool_name: "tool".to_string(),
                action_type: ActionType::Tool {
                    tool_name: "tool".to_string(),
                    arguments: None,
                    result: None,
                },
                status: ToolStatus::Success,
            },
            "",
        ))
    );
}

#[test]
fn other_blocks_become_nothing() {
    for block in [
        r#"{"type":"tool_result","content":"x"}"#,
        r#"{"type":"text","text":"  "}"#,
        r#"{"type":"text","text":5}"#,
        r#"{"type":"thinking","thinking":""}"#,
        r#"{"type":"thinking","signature":"s"}"#,
        r#"{"text":"x"}"#,
        r#"{"type":1}"#,
        r#""text""#,
    ] {
        assert_eq!(block_to_entry(&json(block), "user", None), None, "{block}");
    }
}

#[test]
fn a_transcript_becomes_a_session() {
    let session = parse(&[
        r#"{"type":"mode","sessionId":"s-1"}"#,
        r#"{"type":"user","sessionId":"s-2","cwd":"c:\\w","gitBranch":"","timestamp":"2026-08-29T10:00:00.250+02:00","message":{"role":"user","content":[{"type":"text","text":"fix it"}]}}"#,
        r#"{"type":"assistant","cwd":"d:\\x","gitBranch":"dev","timestamp":"2026-08-29T10:00:05Z","message":{"role":"assistant","content":[{"type":"thinking","thinking":"hm"},{"type":"text","text":"done"}]}}"#,
        r#"{"type":"ai-title","aiTitle":"First"}"#,
        r#"{"type":"ai-title","aiTitle":"Second"}"#,
        r#"{"type":"ai-title","aiTitle":"  "}"#,
    ])
    .unwrap();
    assert_eq!(session.claude_session_id, "s-1");
    assert_eq!(session.cwd, "C:\\w");
    assert_eq!(session.title, "Second");
    assert_eq!(session.git_branch, Some("dev".to_string()));
    assert_eq!(session.started_at, Some(Timestamp { seconds: 1787990400, nanos: 250_000_000 }));
    assert_eq!(session.ended_at, Some(Timestamp { seconds: 1787997605, nanos: 0 }));
    assert_eq!(session.modified_at, None);
    assert_eq!(session.token_usage, None);
    assert_eq!(session.first_prompt, Some("fix it".to_string()));
    assert_eq!(session.message_count, 3);
    let kinds: Vec<&NormalizedEntryType> = session.entries.iter().map(|e| &e.entry_type).collect();
    assert_eq!(
        kinds,
        vec![
            &NormalizedEntryType::UserMessage,
            &NormalizedEntryType::Thinking,
            &NormalizedEntryType::AssistantMessage,
        ]
    );
    assert_eq!(session.entries[2].timestamp, Some("2026-08-29T10:00:05Z".to_string()));
}

#[test]
fn instants_are_those_of_chrono() {
    for text in [
        "1996-12-19T16:39:57-08:00",
        "2026-08-29T10:00:00.123456789Z",
        "1969-12-31T23:59:59.5Z",
        "2016-12-31T23:59:60Z",
        "2026-02-30T00:00:00Z",
        "2026-08-29",
        "",
    ] {
        let line = format!(
            r#"{{"type":"user","cwd":"/w","timestamp":"{text}","message":{{"content":"x"}}}}"#
        );
        let expected = chrono::DateTime::parse_from_rfc3339(text)
            .ok()
            .map(|t| Timestamp { seconds: t.timestamp(), nanos: t.timestamp_subsec_nanos() });
        assert_eq!(parse(&[&line]).unwrap().started_at, expected, "{text:?}");
    }
    let leap = r#"{"type":"user","cwd":"/w","timestamp":"2016-12-31T23:59:60Z","message":{"content":"x"}}"#;
    assert_eq!(
        parse(&[leap]).unwrap().started_at,
        Some(Timestamp { seconds: 1483228799, nanos: 1_000_000_000 })
    );
}

#[test]
fn the_first_readable_instant_counts() {
    let session = parse(&[
        r#"{"type":"user","cwd":"/w","timestamp":"yesterday","message":{"content":"x"}}"#,
        r#"{"type":"summary","timestamp":"2026-08-29T10:00:00Z"}"#,
        r#"{"type":"user","timestamp":"1970-01-01T00:00:07Z"}"#,
        r#"{"type":"user","timestamp":"1970-01-01T00:00:01Z"}"#,
    ])
    .unwrap();
    assert_eq!(session.started_at, Some(Timestamp { seconds: 7, nanos: 0 }));
}

#[test]
fn the_last_readable_instant_counts() {
    let session = parse(&[
        r#"{"type":"user","cwd":"/w","timestamp":"1970-01-01T00:00:07Z","message":{"content":"x"}}"#,
        r#"{"type":"user","timestamp":"1970-01-01T00:00:03Z"}"#,
        r#"{"type":"user","timestamp":"tomorrow"}"#,
        r#"{"type":"summary","timestamp":"1970-01-01T00:00:09Z"}"#,
        r#"{"type":"user"}"#,
    ])
    .unwrap();
    assert_eq!(session.started_at, Some(Timestamp { seconds: 7, nanos: 0 }));
    assert_eq!(session.ended_at, Some(Timestamp { seconds: 3, nanos: 0 }));
    let silent = parse(&[USER]).unwrap();
    assert_eq!((silent.started_at, silent.ended_at), (None, None));
}

fn usage(total_tokens: u128, model_context_window: u64) -> TokenUsageInfo {
    TokenUsageInfo { total_tokens, model_context_window }
}

#[test]
fn occupancy_is_the_input_side() {
    let counts = TokenCounts { input: 7, cache_creation: 20, cache_read: 300 };
    assert_eq!(token_usage(counts, None), usage(327, 200_000));
    assert_eq!(token_usage(counts, Some("sonnet")), usage(327, 200_000));
    assert_eq!(token_usage(counts, Some("sonnet[1m]")), usage(327, 1_000_000));
    assert_eq!(token_usage(counts, Some("[1m]-beta")), usage(327, 1_000_000));
    for plain in ["", "1m", "[1m", "sonnet[1M]", "[1 m]", "sonnet[2m]"] {
        assert_eq!(token_usage(counts, Some(plain)), usage(327, 200_000), "{plain}");
    }
}

#[test]
fn more_than_the_plain_window_tells_the_large_one() {
    let at = TokenCounts { input: 0, cache_creation: 100_000, cache_read: 100_000 };
    assert_eq!(token_usage(at, Some("opus")), usage(200_000, 200_000));
    let above = TokenCounts { input: 1, ..at };
    assert_eq!(token_usage(above, Some("opus")), usage(200_001, 1_000_000));
    let most = TokenCounts { input: u64::MAX, cache_creation: u64::MAX, cache_read: u64::MAX };
    assert_eq!(token_usage(most, None), usage(3 * u128::from(u64::MAX), 1_000_000));
}

#[test]
fn the_last_message_that_counts_tokens_tells_the_usage() {
    let session = parse(&[
        USER,
        r#"{"type":"assistant","message":{"model":"opus[1m]","content":"a","usage":{"input_tokens":1}}}"#,
        r#"{"type":"assistant","message":{"model":"opus","content":"b","usage":{"input_tokens":3,"cache_creation_input_tokens":40,"cache_read_input_tokens":500,"output_tokens":6000}}}"#,
        r#"{"type":"assistant","message":{"model":"synthetic","content":"c","usage":{"input_tokens":0,"output_tokens":9}}}"#,
        r#"{"type":"system","message":{"usage":{"input_tokens":7}}}"#,
    ])
    .unwrap();
    assert_eq!(session.token_usage, Some(usage(543, 200_000)));
    assert_eq!(session.message_count, 4);
    assert_eq!(session.entries.len(), 4);
    let odd = parse(&[
        USER,
        r#"{"type":"assistant","message":{"usage":{"input_tokens":-4,"cache_creation_input_tokens":"9","cache_read_input_tokens":250000}}}"#,
    ])
    .unwrap();
    assert_eq!(odd.token_usage, Some(usage(250_000, 1_000_000)));
}

#[test]
fn bare_string_content_is_a_message() {
    let session = parse(&[
        r#"{"type":"user","cwd":"/w","message":{"role":"user","content":"  "}}"#,
        r#"{"type":"assistant","message":{"content":"hello"}}"#,
        r#"{"type":"user","message":{"role":"user","content":"first"}}"#,
        r#"{"type":"user","message":{"role":"user","content":"second"}}"#,
    ])
    .unwrap();
    assert_eq!(
        session.entries,
        vec![
            message(NormalizedEntryType::AssistantMessage, "hello"),
            message(NormalizedEntryType::UserMessage, "first"),
            message(NormalizedEntryType::UserMessage, "second"),
        ]
    );
    assert_eq!(session.first_prompt, Some("first".to_string()));
    assert_eq!(session.title, "first");
}

#[test]
fn the_role_of_the_message_goes_before_that_of_the_record() {
    let session = parse(&[
        r#"{"type":"user","cwd":"/w","message":{"role":"assistant","content":"a"}}"#,
        r#"{"type":"assistant","message":{"role":"user","content":"b"}}"#,
    ])
    .unwrap();
    assert_eq!(session.entries[0].entry_type, NormalizedEntryType::AssistantMessage);
    assert_eq!(session.entries[1].entry_type, NormalizedEntryType::UserMessage);
    assert_eq!(session.first_prompt, Some("b".to_string()));
}

#[test]
fn a_prompt_without_text_does_not_count() {
    let session = parse(&[
        r#"{"type":"user","cwd":"/w","message":{"content":[{"type":"tool_result"}]}}"#,
        r#"{"type":"user","message":{"content":[{"type":"text","text":"real"}]}}"#,
    ])
    .unwrap();
    assert_eq!(session.first_prompt, Some("real".to_string()));
    assert_eq!(session.message_count, 1);
}

#[test]
fn bad_lines_are_passed_over() {
    let clean = parse(&[USER]);
    assert!(clean.is_some());
    assert_eq!(parse(&["", "{oops", USER, "   ", "\u{a0}", "]"]), clean);
    assert_eq!(parse_transcript(&format!("\r\n{USER}\r\n"), Some("stem")), clean);
}

#[test]
fn other_records_carry_no_content() {
    let plain = parse(&[USER]);
    let noise = r#"{"type":"attachment","cwd":"/no","gitBranch":"no","aiTitle":"no","message":{"role":"user","content":"no"}}"#;
    assert_eq!(parse(&[noise, USER, noise]), plain);
    assert_eq!(parse(&["7", USER, r#"{"aiTitle":"no"}"#]), plain);
}

#[test]
fn the_file_stem_stands_in_for_a_session_id() {
    assert_eq!(parse(&[USER]).unwrap().claude_session_id, "stem");
    assert_eq!(parse_transcript(USER, None), None);
    let named = r#"{"type":"user","sessionId":"own","cwd":"/w","message":{"content":"x"}}"#;
    assert_eq!(parse(&[named]).unwrap().claude_session_id, "own");
    assert_eq!(parse_transcript(named, None), parse_transcript(named, Some("other")));
}

#[test]
fn a_session_needs_a_directory_and_an_entry() {
    assert_eq!(parse(&[]), None);
    assert_eq!(parse(&[r#"{"type":"user","message":{"content":"x"}}"#]), None);
    assert_eq!(parse(&[r#"{"type":"user","cwd":"/w","message":{"content":" "}}"#]), None);
    assert_eq!(parse(&[r#"{"type":"user","cwd":"/w"}"#]), None);
    assert_eq!(parse(&[r#"{"type":"user","cwd":"/w","message":{"content":{}}}"#]), None);
}

#[test]
fn a_long_prompt_makes_a_short_title() {
    let prompt = format!("  a\\nb{}", "é".repeat(80));
    let line = format!(r#"{{"type":"user","cwd":"/w","message":{{"content":"{prompt}"}}}}"#);
    let title = parse(&[&line]).unwrap().title;
    assert_eq!(title, format!("a b{}", "é".repeat(55)));
    let exact = "x".repeat(60);
    let line = format!(r#"{{"type":"user","cwd":"/w","message":{{"content":"{exact}"}}}}"#);
    assert_eq!(parse(&[&line]).unwrap().title, exact);
}

#[test]
fn a_title_is_never_blank() {
    let late = format!(
        r#"{{"type":"user","cwd":"/w","message":{{"content":"{}late"}}}}"#,
        " ".repeat(60)
    );
    assert_eq!(parse(&[&late]).unwrap().title, "Imported session");
    let silent = r#"{"type":"assistant","cwd":"/w","message":{"content":"x"}}"#;
    assert_eq!(parse(&[silent]).unwrap().title, "Imported session");
}

#[test]
fn a_growing_transcript_keeps_what_it_had() {
    let early = parse(&[USER, r#"{"type":"ai-title","aiTitle":"Early"}"#]).unwrap();
    let late = parse(&[
        USER,
        r#"{"type":"ai-title","aiTitle":"Early"}"#,
        r#"{"type":"user","cwd":"/other","message":{"content":"more"}}"#,
        r#"{"type":"ai-title","aiTitle":"Late"}"#,
    ])
    .unwrap();
    assert_eq!(early.title, "Early");
    assert_eq!(late.title, "Late");
    assert_eq!(late.cwd, early.cwd);
    assert_eq!(late.first_prompt, early.first_prompt);
    assert_eq!(late.entries[..1], early.entries[..]);
    assert_eq!(late.message_count, 2);
}

#[test]
fn an_instant_is_taken_with_the_record_that_names_it() {
    let at = Some(Timestamp { seconds: 5, nanos: 6 });
    let mut t = Transcript::new();
    t.absorb(&json(r#"{"type":"user"}"#), at);
    assert_eq!(t.started_at, None);
    t.absorb(&json(r#"{"type":"system","timestamp":"x"}"#), at);
    assert_eq!(t.started_at, None);
    t.absorb(&json(r#"{"type":"user","timestamp":"x"}"#), None);
    assert_eq!(t.started_at, None);
    t.absorb(&json(r#"{"type":"user","timestamp":"x"}"#), at);
    assert_eq!(t.started_at, at);
    t.absorb(&json(r#"{"type":"user","timestamp":"x"}"#), None);
    assert_eq!((t.started_at, t.ended_at), (at, at));
    let later = Some(Timestamp { seconds: 8, nanos: 0 });
    t.absorb(&json(r#"{"type":"user","timestamp":"x"}"#), later);
    assert_eq!((t.started_at, t.ended_at), (at, later));
    assert_eq!(t.finish(Some("s")), None);
}
