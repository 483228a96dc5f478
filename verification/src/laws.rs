//! What holds of rate limits, transcripts and walks as a whole.
use vstd::prelude::*;

use crate::discovery;
use crate::entry;
use crate::entry::EntryView;
use crate::json;
use crate::json::JsonTree;
use crate::order;
use crate::order::Ranked;
use crate::rate_limit;
use crate::rate_limit::SnapshotView;
use crate::text;
use crate::timestamp::Timestamp;
use crate::transcript;
use crate::usage;
use crate::transcript::{DiscoveredSession, SessionView, TranscriptView};

verus! {

// ---- Rate limits ----

/// A payload that names no window is ignored.
pub proof fn law_unkeyed_payload_is_ignored(
    windows: Map<Seq<char>, SnapshotView>,
    info: JsonTree,
    observed_at: Seq<char>,
)
    requires
        rate_limit::window_of(info) is None,
    ensures
        rate_limit::recorded(windows, info, observed_at) == windows,
{
}

/// A payload on one window leaves what is known of every other window as it was.
pub proof fn law_windows_do_not_overwrite_each_other(
    windows: Map<Seq<char>, SnapshotView>,
    info: JsonTree,
    observed_at: Seq<char>,
    other: Seq<char>,
)
    requires
        rate_limit::window_of(info) != Some(other),
    ensures
        rate_limit::recorded(windows, info, observed_at).dom().contains(other)
            == windows.dom().contains(other),
        rate_limit::recorded(windows, info, observed_at)[other] == windows[other],
{
}

/// Of two payloads on one window the later one is kept, as if the earlier one had
/// never come.
pub proof fn law_latest_report_wins(
    windows: Map<Seq<char>, SnapshotView>,
    earlier: JsonTree,
    earlier_at: Seq<char>,
    later: JsonTree,
    later_at: Seq<char>,
)
    requires
        rate_limit::window_of(earlier) == rate_limit::window_of(later),
    ensures
        rate_limit::recorded(
            rate_limit::recorded(windows, earlier, earlier_at),
            later,
            later_at,
        ) == rate_limit::recorded(windows, later, later_at),
        rate_limit::window_of(later) matches Some(window) ==> rate_limit::recorded(
            windows,
            later,
            later_at,
        )[window] == rate_limit::reported(window, later, later_at),
{
}

/// What a payload says is kept under the window that it names, where it names one that
/// is not empty: its status, `unknown` where it says none, and when the window resets
/// and how it stands with overage, where it says so.
pub proof fn law_reports_say_what_payloads_say(
    windows: Map<Seq<char>, SnapshotView>,
    info: JsonTree,
    observed_at: Seq<char>,
    window: Seq<char>,
)
    requires
        info.get("rateLimitType"@) == Some(JsonTree::String(window)),
        window.len() > 0,
    ensures
        ({
            let after = rate_limit::recorded(windows, info, observed_at);
            let kept = after[window];
            &&& after.dom() == windows.dom().insert(window)
            &&& kept.rate_limit_type == window
            &&& kept.observed_at == observed_at
            &&& kept.status == (match info.get("status"@) {
                Some(JsonTree::String(status)) => status,
                _ => "unknown"@,
            })
            &&& kept.resets_at == (match info.get("resetsAt"@) {
                Some(JsonTree::Number { integer, .. }) => integer,
                _ => None,
            })
            &&& kept.is_using_overage == (match info.get("isUsingOverage"@) {
                Some(JsonTree::Bool(b)) => Some(b),
                _ => None,
            })
            &&& kept.overage_status == (match info.get("overageStatus"@) {
                Some(JsonTree::String(status)) => Some(status),
                _ => None,
            })
        }),
{
    let after = rate_limit::recorded(windows, info, observed_at);
    assert(after.dom() =~= windows.dom().insert(window));
}

/// A payload whose window is missing, empty or no string changes nothing.
pub proof fn law_payloads_without_a_window(
    windows: Map<Seq<char>, SnapshotView>,
    info: JsonTree,
    observed_at: Seq<char>,
)
    requires
        info.get("rateLimitType"@) matches Some(JsonTree::String(window)) ==> window.len() == 0,
    ensures
        rate_limit::recorded(windows, info, observed_at) == windows,
        rate_limit::window_of(info) is None,
{
}

/// A payload leaves what is known of a window that it does not name.
pub proof fn law_other_windows_stay(
    windows: Map<Seq<char>, SnapshotView>,
    info: JsonTree,
    observed_at: Seq<char>,
    other: Seq<char>,
)
    requires
        info.get("rateLimitType"@) != Some(JsonTree::String(other)),
    ensures
        rate_limit::recorded(windows, info, observed_at).dom().contains(other)
            == windows.dom().contains(other),
        windows.dom().contains(other) ==> rate_limit::recorded(windows, info, observed_at)[other]
            == windows[other],
{
}

/// What a payload is said to report is what it says.
pub proof fn law_snapshots_say_what_payloads_say(
    info: JsonTree,
    observed_at: Seq<char>,
    window: Seq<char>,
)
    ensures
        rate_limit::window_of(info) == Some(window) <==> info.get("rateLimitType"@) == Some(
            JsonTree::String(window),
        ) && window.len() > 0,
        ({
            let said = rate_limit::reported(window, info, observed_at);
            &&& said.rate_limit_type == window
            &&& said.observed_at == observed_at
            &&& info.get("status"@) matches Some(JsonTree::String(x)) ==> said.status == x
            &&& !(info.get("status"@) matches Some(JsonTree::String(_))) ==> said.status
                == "unknown"@
            &&& info.get("resetsAt"@) matches Some(JsonTree::Number { integer, .. })
                ==> said.resets_at == integer
            &&& !(info.get("resetsAt"@) matches Some(JsonTree::Number { .. }))
                ==> said.resets_at is None
            &&& info.get("isUsingOverage"@) matches Some(JsonTree::Bool(b))
                ==> said.is_using_overage == Some(b)
            &&& !(info.get("isUsingOverage"@) matches Some(JsonTree::Bool(_)))
                ==> said.is_using_overage is None
            &&& info.get("overageStatus"@) matches Some(JsonTree::String(x))
                ==> said.overage_status == Some(x)
            &&& !(info.get("overageStatus"@) matches Some(JsonTree::String(_)))
                ==> said.overage_status is None
        }),
{
}

/// Windows stand in order: of two that say when they reset the later one first, and one
/// that does not say last. No two are about one window.
pub proof fn law_order_of_windows(
    a: i64,
    b: i64,
    list: Seq<rate_limit::RateLimitSnapshot>,
    i: int,
    j: int,
)
    ensures
        rate_limit::reset_no_earlier(Some(a), Some(b)) <==> a >= b,
        rate_limit::reset_no_earlier(Some(a), None),
        !rate_limit::reset_no_earlier(None, Some(b)),
        rate_limit::distinct_windows(list) && 0 <= i < list.len() && 0 <= j < list.len() && i != j
            ==> list[i].rate_limit_type@ != list[j].rate_limit_type@,
{
}

/// Every report is kept under the window that it is about.
pub open spec fn keyed_by_window(windows: Map<Seq<char>, SnapshotView>) -> bool {
    forall|window: Seq<char>| #[trigger]
        windows.dom().contains(window) ==> windows[window].rate_limit_type == window
}

/// Recording a payload keeps every report under the window that it is about.
pub proof fn law_reports_stay_under_their_window(
    windows: Map<Seq<char>, SnapshotView>,
    info: JsonTree,
    observed_at: Seq<char>,
)
    requires
        keyed_by_window(windows),
    ensures
        keyed_by_window(rate_limit::recorded(windows, info, observed_at)),
{
}

// ---- Working directories and titles ----

/// Normalising a working directory again changes nothing.
pub proof fn law_normalized_cwd_is_idempotent(cwd: Seq<char>)
    ensures
        transcript::normalized_cwd(transcript::normalized_cwd(cwd)) == transcript::normalized_cwd(
            cwd,
        ),
{
}

/// Working directories that differ only in the case of the drive letter are one.
pub proof fn law_drive_letter_case_does_not_matter(a: Seq<char>, b: Seq<char>)
    requires
        transcript::has_drive(a),
        transcript::has_drive(b),
        transcript::ascii_upper(a[0]) == transcript::ascii_upper(b[0]),
        a.skip(1) == b.skip(1),
    ensures
        transcript::normalized_cwd(a) == transcript::normalized_cwd(b),
{
    assert(a.len() == a.skip(1).len() + 1 && b.len() == b.skip(1).len() + 1);
    assert forall|i: int| 1 <= i < a.len() implies a[i] == b[i] by {
        assert(a[i] == a.skip(1)[i - 1] && b[i] == b.skip(1)[i - 1]);
    }
}

/// Normalising a working directory changes at most its drive letter.
pub proof fn law_normalized_cwd_keeps_the_path(cwd: Seq<char>)
    ensures
        transcript::normalized_cwd(cwd).len() == cwd.len(),
        forall|i: int| 1 <= i < cwd.len() ==> transcript::normalized_cwd(cwd)[i] == cwd[i],
        !transcript::has_drive(cwd) ==> transcript::normalized_cwd(cwd) == cwd,
{
}

/// The title that a prompt makes is short and stands on one line.
pub proof fn law_prompt_title_is_short(prompt: Seq<char>)
    ensures
        transcript::prompt_title(prompt).len() <= transcript::TITLE_CHARS,
        !transcript::prompt_title(prompt).contains('\n'),
{
    let start = if prompt.len() <= transcript::TITLE_CHARS {
        prompt
    } else {
        prompt.take(transcript::TITLE_CHARS as int)
    };
    let flat = start.map_values(
        |c: char|
            if c == '\n' {
                ' '
            } else {
                c
            },
    );
    text::lemma_trim_is_tight(flat);
}

/// A title that a record gives is not blank.
proof fn lemma_given_title_is_not_blank(records: Seq<JsonTree>)
    ensures
        transcript::transcript_of(records).title matches Some(title) ==> !text::blank(title),
    decreases records.len(),
{
    if records.len() > 0 {
        lemma_given_title_is_not_blank(records.drop_last());
    }
}

/// The title of a session is never blank.
pub proof fn law_title_is_never_blank(records: Seq<JsonTree>, file_stem: Option<Seq<char>>)
    ensures
        transcript::session_of(transcript::transcript_of(records), file_stem) matches Some(session)
            ==> !text::blank(session.title),
{
    let t = transcript::transcript_of(records);
    lemma_given_title_is_not_blank(records);
    if let Some(prompt) = t.first_prompt {
        let start = if prompt.len() <= transcript::TITLE_CHARS {
            prompt
        } else {
            prompt.take(transcript::TITLE_CHARS as int)
        };
        text::lemma_trim_is_tight(
            start.map_values(
                |c: char|
                    if c == '\n' {
                        ' '
                    } else {
                        c
                    },
            ),
        );
    }
    reveal_strlit("Imported session");
    assert(!text::white("Imported session"@[0]));
}

// ---- Transcripts ----

/// A session holds at least one entry, and counts them.
pub proof fn law_session_counts_its_entries(t: TranscriptView, file_stem: Option<Seq<char>>)
    ensures
        transcript::session_of(t, file_stem) matches Some(session) ==> session.message_count
            == session.entries.len() && session.entries.len() > 0,
{
}

/// A transcript that says when it started says when it ended, and the other way
/// round.
pub proof fn law_a_start_has_an_end(records: Seq<JsonTree>)
    ensures
        transcript::transcript_of(records).started_at is Some
            <==> transcript::transcript_of(records).ended_at is Some,
    decreases records.len(),
{
    if records.len() > 0 {
        law_a_start_has_an_end(records.drop_last());
    }
}

/// What the model wrote does not count as occupancy of the context: messages that
/// agree on the model and on the input side tell the same, whatever else they say.
pub proof fn law_only_the_input_side_counts(a: JsonTree, b: JsonTree, x: JsonTree, y: JsonTree)
    requires
        a.get("usage"@) == Some(x),
        b.get("usage"@) == Some(y),
        a.str_member("model"@) == b.str_member("model"@),
        x.get("input_tokens"@) == y.get("input_tokens"@),
        x.get("cache_creation_input_tokens"@) == y.get("cache_creation_input_tokens"@),
        x.get("cache_read_input_tokens"@) == y.get("cache_read_input_tokens"@),
    ensures
        usage::message_usage(a) == usage::message_usage(b),
{
}

/// The session id of the records goes before that of the file.
pub proof fn law_recorded_session_id_wins(t: TranscriptView, a: Option<Seq<char>>, b: Option<Seq<char>>)
    requires
        t.claude_session_id is Some,
    ensures
        transcript::session_of(t, a) == transcript::session_of(t, b),
{
}

/// An entry that has something to show: a text that is not blank, or a tool call.
pub open spec fn has_substance(e: EntryView) -> bool {
    if e.entry_type is ToolUse {
        e.content.len() == 0
    } else {
        !text::blank(e.content)
    }
}

proof fn lemma_block_entries_have_substance(
    blocks: Seq<JsonTree>,
    role: Seq<char>,
    timestamp: Option<Seq<char>>,
)
    ensures
        forall|i: int|
            0 <= i < entry::block_entries(blocks, role, timestamp).len() ==> has_substance(
                #[trigger] entry::block_entries(blocks, role, timestamp)[i],
            ),
    decreases blocks.len(),
{
    if blocks.len() > 0 {
        lemma_block_entries_have_substance(blocks.drop_last(), role, timestamp);
        let before = entry::block_entries(blocks.drop_last(), role, timestamp);
        let after = entry::block_entries(blocks, role, timestamp);
        assert forall|i: int| 0 <= i < after.len() implies has_substance(#[trigger] after[i]) by {
            if i < before.len() {
                assert(after[i] == before[i]);
            }
        }
    }
}

/// Every entry of a transcript has something to show.
pub proof fn law_entries_have_substance(records: Seq<JsonTree>)
    ensures
        forall|i: int|
            0 <= i < transcript::all_entries(records).len() ==> has_substance(
                #[trigger] transcript::all_entries(records)[i],
            ),
    decreases records.len(),
{
    if records.len() > 0 {
        law_entries_have_substance(records.drop_last());
        let rec = records.last();
        if let Some(JsonTree::Array(blocks)) = transcript::record_content(rec) {
            lemma_block_entries_have_substance(
                blocks,
                transcript::record_role(rec),
                transcript::record_timestamp(rec),
            );
        }
        let before = transcript::all_entries(records.drop_last());
        let after = transcript::all_entries(records);
        assert forall|i: int| 0 <= i < after.len() implies has_substance(#[trigger] after[i]) by {
            if i < before.len() {
                assert(after[i] == before[i]);
            } else {
                assert(after[i] == transcript::record_entries(rec)[i - before.len()]);
            }
        }
    }
}

/// A line that is blank, or that is not JSON, makes no difference.
pub proof fn law_bad_lines_are_passed_over(
    before: Seq<Seq<char>>,
    line: Seq<char>,
    after: Seq<Seq<char>>,
)
    requires
        text::blank(line) || json::parsed_json(line) is None,
    ensures
        transcript::records_in(before.push(line) + after) == transcript::records_in(before + after),
    decreases after.len(),
{
    let with = before.push(line) + after;
    let without = before + after;
    if after.len() == 0 {
        assert(with.drop_last() =~= before);
    } else {
        law_bad_lines_are_passed_over(before, line, after.drop_last());
        assert(with.drop_last() =~= before.push(line) + after.drop_last());
        assert(without.drop_last() =~= before + after.drop_last());
    }
}

/// A record that says nothing of one thing can be left out of what is said of it.
proof fn lemma_silent_record<A>(
    before: Seq<JsonTree>,
    rec: JsonTree,
    after: Seq<JsonTree>,
    f: spec_fn(JsonTree) -> Option<A>,
)
    requires
        f(rec) is None,
    ensures
        transcript::first_given(before.push(rec) + after, f) == transcript::first_given(
            before + after,
            f,
        ),
        transcript::last_given(before.push(rec) + after, f) == transcript::last_given(
            before + after,
            f,
        ),
    decreases after.len(),
{
    let with = before.push(rec) + after;
    let without = before + after;
    if after.len() == 0 {
        assert(with.drop_last() =~= before);
    } else {
        lemma_silent_record(before, rec, after.drop_last(), f);
        assert(with.drop_last() =~= before.push(rec) + after.drop_last());
        assert(without.drop_last() =~= before + after.drop_last());
    }
}

proof fn lemma_record_without_entries(before: Seq<JsonTree>, rec: JsonTree, after: Seq<JsonTree>)
    requires
        transcript::record_entries(rec).len() == 0,
    ensures
        transcript::all_entries(before.push(rec) + after) == transcript::all_entries(
            before + after,
        ),
    decreases after.len(),
{
    let with = before.push(rec) + after;
    let without = before + after;
    if after.len() == 0 {
        assert(with.drop_last() =~= before);
    } else {
        lemma_record_without_entries(before, rec, after.drop_last());
        assert(with.drop_last() =~= before.push(rec) + after.drop_last());
        assert(without.drop_last() =~= before + after.drop_last());
    }
}

/// A record that is neither a message nor a title says at most which session it is
/// of: wherever it stands, the rest of the transcript is as if it were not there.
pub proof fn law_other_records_carry_no_content(
    before: Seq<JsonTree>,
    rec: JsonTree,
    after: Seq<JsonTree>,
)
    requires
        !transcript::is_message(rec),
        transcript::record_kind(rec) != "ai-title"@,
    ensures
        transcript::transcript_of(before.push(rec) + after) == (TranscriptView {
            claude_session_id: transcript::transcript_of(
                before.push(rec) + after,
            ).claude_session_id,
            ..transcript::transcript_of(before + after)
        }),
        transcript::record_session_id(rec) is None ==> transcript::transcript_of(
            before.push(rec) + after,
        ) == transcript::transcript_of(before + after),
{
    lemma_silent_record(before, rec, after, |r: JsonTree| transcript::record_cwd(r));
    lemma_silent_record(before, rec, after, |r: JsonTree| transcript::record_title(r));
    lemma_silent_record(before, rec, after, |r: JsonTree| transcript::record_branch(r));
    lemma_silent_record(before, rec, after, |r: JsonTree| transcript::record_instant(r));
    lemma_silent_record(before, rec, after, |r: JsonTree| transcript::record_prompt(r));
    lemma_silent_record(before, rec, after, |r: JsonTree| transcript::record_usage(r));
    lemma_record_without_entries(before, rec, after);
    if transcript::record_session_id(rec) is None {
        lemma_silent_record(before, rec, after, |r: JsonTree| transcript::record_session_id(r));
    }
}

proof fn lemma_first_given_stays<A>(
    a: Seq<JsonTree>,
    b: Seq<JsonTree>,
    f: spec_fn(JsonTree) -> Option<A>,
)
    ensures
        transcript::first_given(a + b, f) == transcript::either(
            transcript::first_given(a, f),
            transcript::first_given(b, f),
        ),
        transcript::last_given(a + b, f) == transcript::either(
            transcript::last_given(b, f),
            transcript::last_given(a, f),
        ),
    decreases b.len(),
{
    if b.len() > 0 {
        lemma_first_given_stays(a, b.drop_last(), f);
        assert((a + b).drop_last() =~= a + b.drop_last());
    }
}

proof fn lemma_entries_append(a: Seq<JsonTree>, b: Seq<JsonTree>)
    ensures
        transcript::all_entries(a + b) == transcript::all_entries(a) + transcript::all_entries(b),
    decreases b.len(),
{
    if b.len() > 0 {
        lemma_entries_append(a, b.drop_last());
        assert((a + b).drop_last() =~= a + b.drop_last());
    }
}

/// A transcript that grows keeps the session id, working directory, branch, start
/// and first prompt once it has them, takes its title, end and token usage from the
/// later records where they give one, and keeps its entries ahead of the later ones.
pub proof fn law_growing_transcript(a: Seq<JsonTree>, b: Seq<JsonTree>)
    ensures
        ({
            let early = transcript::transcript_of(a);
            let late = transcript::transcript_of(b);
            transcript::transcript_of(a + b) == (TranscriptView {
                claude_session_id: transcript::either(
                    early.claude_session_id,
                    late.claude_session_id,
                ),
                cwd: transcript::either(early.cwd, late.cwd),
                title: transcript::either(late.title, early.title),
                git_branch: transcript::either(early.git_branch, late.git_branch),
                started_at: transcript::either(early.started_at, late.started_at),
                ended_at: transcript::either(late.ended_at, early.ended_at),
                first_prompt: transcript::either(early.first_prompt, late.first_prompt),
                token_usage: transcript::either(late.token_usage, early.token_usage),
                entries: early.entries + late.entries,
            })
        }),
{
    lemma_first_given_stays(a, b, |r: JsonTree| transcript::record_session_id(r));
    lemma_first_given_stays(a, b, |r: JsonTree| transcript::record_cwd(r));
    lemma_first_given_stays(a, b, |r: JsonTree| transcript::record_title(r));
    lemma_first_given_stays(a, b, |r: JsonTree| transcript::record_branch(r));
    lemma_first_given_stays(a, b, |r: JsonTree| transcript::record_instant(r));
    lemma_first_given_stays(a, b, |r: JsonTree| transcript::record_prompt(r));
    lemma_first_given_stays(a, b, |r: JsonTree| transcript::record_usage(r));
    lemma_entries_append(a, b);
}

/// A transcript that is read record by record says what its records say together.
pub proof fn law_records_add_up(records: Seq<JsonTree>, rec: JsonTree)
    ensures
        transcript::absorbed(
            transcript::transcript_of(records),
            rec,
            transcript::record_instant(rec),
        ) == transcript::transcript_of(records.push(rec)),
{
    assert(records.push(rec).drop_last() =~= records);
}

/// What is appended to a text that ends its last line adds its own lines.
proof fn lemma_lines_append(a: Seq<char>, b: Seq<char>)
    requires
        a.len() == 0 || a.last() == '\n',
    ensures
        text::lines_of(a + b) == text::lines_of(a) + text::lines_of(b),
    decreases a.len(),
{
    if a.len() > 0 {
        let n = first_line_feed(a);
        let line = a.take(n);
        let rest = a.skip(n + 1);
        assert(a =~= line.push('\n') + rest);
        assert(a + b =~= line.push('\n') + (rest + b));
        text::lemma_lines_split(line, rest);
        text::lemma_lines_split(line, rest + b);
        lemma_lines_append(rest, b);
    }
}

/// The place of the first line feed of a text that ends in one.
proof fn first_line_feed(a: Seq<char>) -> (n: int)
    requires
        a.len() > 0,
        a.last() == '\n',
    ensures
        0 <= n < a.len(),
        a[n] == '\n',
        !a.take(n).contains('\n'),
    decreases a.len(),
{
    if a.first() == '\n' {
        0
    } else {
        let m = first_line_feed(a.drop_first());
        let line = a.take(m + 1);
        assert forall|i: int| 0 <= i < line.len() implies #[trigger] line[i] != '\n' by {
            if i > 0 {
                assert(line[i] == a.drop_first().take(m)[i - 1]);
            }
        }
        m + 1
    }
}

proof fn lemma_records_append(a: Seq<Seq<char>>, b: Seq<Seq<char>>)
    ensures
        transcript::records_in(a + b) == transcript::records_in(a) + transcript::records_in(b),
    decreases b.len(),
{
    if b.len() > 0 {
        lemma_records_append(a, b.drop_last());
        assert((a + b).drop_last() =~= a + b.drop_last());
    }
}

/// What is appended to a transcript that ends its last line adds its own records
/// after those that were there.
pub proof fn law_appended_text_appends_records(raw: Seq<char>, more: Seq<char>)
    requires
        raw.len() == 0 || raw.last() == '\n',
    ensures
        transcript::records_in(text::lines_of(raw + more)) == transcript::records_in(
            text::lines_of(raw),
        ) + transcript::records_in(text::lines_of(more)),
{
    lemma_lines_append(raw, more);
    lemma_records_append(text::lines_of(raw), text::lines_of(more));
}

// ---- Sorting ----

/// A stable sort puts lower ranks first, and keeps the order of what is of one rank.
pub proof fn law_stable_sorts<T: Ranked>(sorted: Seq<T>, s: Seq<T>, i: int, j: int, k: int)
    requires
        order::is_stable_sort_of(sorted, s),
    ensures
        0 <= i < j < sorted.len() ==> sorted[i].rank() <= sorted[j].rank(),
        sorted.filter(|x: T| x.rank() == k) == s.filter(|x: T| x.rank() == k),
{
    assert(order::of_rank(sorted, k) == order::of_rank(s, k));
    assert(order::has_rank::<T>(k) =~= (|x: T| x.rank() == k));
}

/// A stable sort is the only one: what is asked of it leaves no choice.
pub proof fn law_stable_sort_is_unique<T: Ranked>(x: Seq<T>, y: Seq<T>, s: Seq<T>)
    requires
        order::is_stable_sort_of(x, s),
        order::is_stable_sort_of(y, s),
    ensures
        x == y,
{
    lemma_ranks_pin_order(x, y);
}

/// The last value is the last of its rank, and adds nothing to other ranks.
proof fn lemma_last_of_rank<T: Ranked>(s: Seq<T>, k: int)
    requires
        s.len() > 0,
    ensures
        order::of_rank(s, k) == (if s.last().rank() == k {
            order::of_rank(s.drop_last(), k).push(s.last())
        } else {
            order::of_rank(s.drop_last(), k)
        }),
{
    reveal(Seq::filter);
}

/// A rank that occurs among values is not above that of the last of an ascending
/// sequence.
proof fn lemma_rank_below_last<T: Ranked>(s: Seq<T>, k: int)
    requires
        order::ascending(s),
        order::of_rank(s, k).len() > 0,
    ensures
        s.len() > 0,
        k <= s.last().rank(),
    decreases s.len(),
{
    if s.len() == 0 {
        reveal(Seq::filter);
    } else {
        lemma_last_of_rank(s, k);
        if s.last().rank() != k {
            lemma_rank_below_last(s.drop_last(), k);
        }
    }
}

proof fn lemma_ranks_pin_order<T: Ranked>(x: Seq<T>, y: Seq<T>)
    requires
        order::ascending(x),
        order::ascending(y),
        forall|k: int| #[trigger] order::of_rank(x, k) == order::of_rank(y, k),
    ensures
        x == y,
    decreases x.len() + y.len(),
{
    if x.len() > 0 || y.len() > 0 {
        if x.len() > 0 {
            let k = x.last().rank();
            lemma_last_of_rank(x, k);
            lemma_rank_below_last(y, k);
        }
        if y.len() > 0 {
            let k = y.last().rank();
            lemma_last_of_rank(y, k);
            lemma_rank_below_last(x, k);
        }
        let k = x.last().rank();
        lemma_last_of_rank(x, k);
        lemma_last_of_rank(y, k);
        assert(order::of_rank(x, k).last() == order::of_rank(y, k).last());
        assert(order::of_rank(x, k).drop_last() =~= order::of_rank(x.drop_last(), k));
        assert forall|r: int| #[trigger]
            order::of_rank(x.drop_last(), r) == order::of_rank(y.drop_last(), r) by {
            lemma_last_of_rank(x, r);
            lemma_last_of_rank(y, r);
        }
        lemma_ranks_pin_order(x.drop_last(), y.drop_last());
        assert(x =~= x.drop_last().push(x.last()));
    }
}

// ---- Walks ----

/// A walk that starts with nothing and visits files one after the other has found
/// the sessions that they hold, in order. `found` is what it has found before each
/// file and at the end.
pub proof fn law_a_walk_adds_up(
    files: Seq<discovery::FileView>,
    found: Seq<Seq<DiscoveredSession>>,
)
    requires
        found.len() == files.len() + 1,
        found[0].len() == 0,
        forall|i: int|
            #![trigger files[i]]
            0 <= i < files.len() ==> discovery::views(found[i + 1]) == (
            match discovery::session_in(files[i]) {
                Some(session) => discovery::views(found[i]).push(session),
                None => discovery::views(found[i]),
            }),
    ensures
        discovery::views(found.last()) == discovery::sessions_in(files),
    decreases files.len(),
{
    if files.len() > 0 {
        law_a_walk_adds_up(files.drop_last(), found.drop_last());
    }
}

// ---- Discovery ----

/// What is of a later time is newer, by however little or much; what is of no known time
/// is older than what is of a known one.
pub proof fn law_newer_is_later(a: Timestamp, b: Timestamp, c: Option<Timestamp>)
    ensures
        discovery::newer(Some(a), Some(b)) <==> a.seconds > b.seconds || (a.seconds == b.seconds
            && a.nanos > b.nanos),
        discovery::newer(Some(a), None),
        !discovery::newer(None, c),
{
}

/// What a scan finds in a file is what parsing its text gives, in every field but the
/// time of the file, which the file system tells.
pub proof fn law_files_hold_what_their_text_says(file: discovery::FileView, raw: Seq<char>)
    requires
        file.extension == Some("jsonl"@),
        file.raw == Some(raw),
    ensures
        match (
            discovery::session_in(file),
            transcript::session_of(
                transcript::transcript_of(transcript::records_in(text::lines_of(raw))),
                file.stem,
            ),
        ) {
            (Some(found), Some(parsed)) => {
                &&& found.modified_at == file.modified_at
                &&& found.claude_session_id == parsed.claude_session_id
                &&& found.cwd == parsed.cwd
                &&& found.title == parsed.title
                &&& found.message_count == parsed.message_count
                &&& found.started_at == parsed.started_at
                &&& found.ended_at == parsed.ended_at
                &&& found.git_branch == parsed.git_branch
                &&& found.entries == parsed.entries
                &&& found.first_prompt == parsed.first_prompt
                &&& found.token_usage == parsed.token_usage
            },
            (None, None) => true,
            _ => false,
        },
{
}

/// A file of another extension, or one that cannot be read, holds no session.
pub proof fn law_other_files_hold_none(file: discovery::FileView)
    requires
        file.extension != Some("jsonl"@) || file.raw is None,
    ensures
        discovery::session_in(file) is None,
{
}

/// The sessions of files are those of each, in order.
pub proof fn law_files_add_up(
    a: Seq<discovery::FileView>,
    b: Seq<discovery::FileView>,
    file: discovery::FileView,
)
    ensures
        discovery::sessions_in(a + b) == discovery::sessions_in(a) + discovery::sessions_in(b),
        discovery::sessions_in(seq![file]) == (match discovery::session_in(file) {
            Some(session) => seq![session],
            None => seq![],
        }),
        discovery::sessions_in(seq![]) == Seq::<SessionView>::empty(),
    decreases b.len(),
{
    reveal_with_fuel(discovery::sessions_in, 2);
    assert(seq![file].drop_last() =~= seq![]);
    if b.len() > 0 {
        law_files_add_up(a, b.drop_last(), file);
        assert((a + b).drop_last() =~= a + b.drop_last());
        assert((a + b).last() == b.last());
    } else {
        assert(a + b =~= a);
    }
}

/// Sessions that are listed newest first: of two the later listed one did not start
/// later, those that do not say when they started come after all that do, and those
/// that started at one time keep the order in which they were found.
pub proof fn law_newest_first(
    sorted: Seq<DiscoveredSession>,
    s: Seq<DiscoveredSession>,
    i: int,
    j: int,
    at: Option<Timestamp>,
)
    requires
        discovery::newest_first(sorted, s),
    ensures
        0 <= i < j < sorted.len() ==> match (sorted[i].started_at, sorted[j].started_at) {
            (Some(a), Some(b)) => a.seconds > b.seconds || (a.seconds == b.seconds && a.nanos
                >= b.nanos),
            (Some(_), None) => true,
            (None, b) => b is None,
        },
        sorted.filter(|x: DiscoveredSession| x.started_at == at) == s.filter(
            |x: DiscoveredSession| x.started_at == at,
        ),
{
    assert(discovery::started_at(sorted, at) == discovery::started_at(s, at));
}

/// An id is stored if and only if some turn carries it.
pub proof fn law_stored_ids(rows: Seq<Option<String>>, id: Seq<char>)
    ensures
        discovery::stored_ids(rows).contains(id) <==> exists|i: int|
            0 <= i < rows.len() && ((#[trigger] rows[i]) matches Some(s) && s@ == id),
{
    if discovery::stored_ids(rows).contains(id) {
        let i = choose|i: int|
            0 <= i < rows.len() && text::view_opt(#[trigger] rows[i]) == Some(id);
        assert(rows[i] matches Some(s) && s@ == id);
    }
}

/// A scan judges each session by itself: it shows those whose id is not stored, in
/// order and each as often as it was found.
pub proof fn law_scans_add_up(
    a: Seq<DiscoveredSession>,
    b: Seq<DiscoveredSession>,
    session: DiscoveredSession,
    existing: Set<Seq<char>>,
)
    ensures
        discovery::not_imported(a + b, existing) == discovery::not_imported(a, existing)
            + discovery::not_imported(b, existing),
        discovery::not_imported(seq![session], existing) == (if existing.contains(
            session.claude_session_id@,
        ) {
            seq![]
        } else {
            seq![session]
        }),
    decreases b.len(),
{
    reveal_with_fuel(Seq::filter, 2);
    assert(seq![session].drop_last() =~= seq![]);
    if b.len() > 0 {
        law_scans_add_up(a, b.drop_last(), session, existing);
        assert((a + b).drop_last() =~= a + b.drop_last());
        assert((a + b).last() == b.last());
    } else {
        assert(a + b =~= a);
    }
}

} // verus!
