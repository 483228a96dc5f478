//! What holds of content blocks, records and the sessions that they make.
use vstd::prelude::*;

use crate::entry;
use crate::entry::{ActionView, EntryTypeView, EntryView, ToolStatus};
use crate::json;
use crate::json::JsonTree;
use crate::text;
use crate::timestamp;
use crate::timestamp::Timestamp;
use crate::transcript;
use crate::transcript::{SessionView, TranscriptView};
use crate::usage;
use crate::usage::{TokenCounts, TokenUsageInfo};

verus! {

/// The text of the member named `key`, where that is a string.
pub open spec fn text_under(v: JsonTree, key: Seq<char>) -> Option<Seq<char>> {
    match v.get(key) {
        Some(JsonTree::String(s)) => Some(s),
        _ => None,
    }
}

/// The kind of message that someone of the role `role` writes.
pub open spec fn written_by(role: Seq<char>) -> EntryTypeView {
    if role == "assistant"@ {
        EntryTypeView::AssistantMessage
    } else {
        EntryTypeView::UserMessage
    }
}

// ---- Content blocks ----

/// Only an assistant writes assistant messages.
pub proof fn law_who_writes_what(role: Seq<char>)
    ensures
        entry::message_type("assistant"@) == EntryTypeView::AssistantMessage,
        role != "assistant"@ ==> entry::message_type(role) == EntryTypeView::UserMessage,
{
}

/// Every block stands for its own entries, whatever blocks come before or after it:
/// the entries of two lists of blocks are those of the first and then those of the
/// second.
pub proof fn law_blocks_add_up(
    a: Seq<JsonTree>,
    b: Seq<JsonTree>,
    role: Seq<char>,
    at: Option<Seq<char>>,
)
    ensures
        entry::block_entries(seq![], role, at) == Seq::<EntryView>::empty(),
        entry::block_entries(a + b, role, at) == entry::block_entries(a, role, at)
            + entry::block_entries(b, role, at),
    decreases b.len(),
{
    if b.len() > 0 {
        law_blocks_add_up(a, b.drop_last(), role, at);
        assert((a + b).drop_last() =~= a + b.drop_last());
        assert((a + b).last() == b.last());
    } else {
        assert(a + b =~= a);
    }
}

proof fn lemma_one_block(block: JsonTree, role: Seq<char>, at: Option<Seq<char>>)
    ensures
        entry::block_entries(seq![block], role, at) == (match entry::block_entry(block, role, at) {
            Some(e) => seq![e],
            None => seq![],
        }),
{
    reveal_with_fuel(entry::block_entries, 2);
    assert(seq![block].drop_last() =~= seq![]);
}

proof fn lemma_kinds_differ()
    ensures
        "text"@ != "thinking"@,
        "text"@ != "tool_use"@,
        "thinking"@ != "tool_use"@,
{
    reveal_strlit("text");
    reveal_strlit("thinking");
    reveal_strlit("tool_use");
    assert("text"@.len() == 4 && "thinking"@.len() == 8 && "tool_use"@.len() == 8);
    assert("thinking"@[1] == 'h' && "tool_use"@[1] == 'o');
}

/// A text block stands for one message of whoever wrote it, with its text as it is; a
/// blank one stands for none.
pub proof fn law_text_blocks(
    block: JsonTree,
    t: Seq<char>,
    role: Seq<char>,
    at: Option<Seq<char>>,
)
    requires
        text_under(block, "type"@) == Some("text"@),
        text_under(block, "text"@) == Some(t),
    ensures
        text::blank(t) ==> entry::block_entry(block, role, at) is None && entry::block_entries(
            seq![block],
            role,
            at,
        ).len() == 0,
        !text::blank(t) ==> ({
            let e = EntryView {
                timestamp: at,
                entry_type: written_by(role),
                content: t,
                metadata: None,
            };
            entry::block_entry(block, role, at) == Some(e) && entry::block_entries(
                seq![block],
                role,
                at,
            ) == seq![e]
        }),
{
    lemma_kinds_differ();
    lemma_one_block(block, role, at);
}

/// A thinking block stands for one thought, with its text as it is; a blank one stands
/// for none.
pub proof fn law_thinking_blocks(
    block: JsonTree,
    t: Seq<char>,
    role: Seq<char>,
    at: Option<Seq<char>>,
)
    requires
        text_under(block, "type"@) == Some("thinking"@),
        text_under(block, "thinking"@) == Some(t),
    ensures
        text::blank(t) ==> entry::block_entry(block, role, at) is None && entry::block_entries(
            seq![block],
            role,
            at,
        ).len() == 0,
        !text::blank(t) ==> ({
            let e = EntryView {
                timestamp: at,
                entry_type: EntryTypeView::Thinking,
                content: t,
                metadata: None,
            };
            entry::block_entry(block, role, at) == Some(e) && entry::block_entries(
                seq![block],
                role,
                at,
            ) == seq![e]
        }),
{
    lemma_kinds_differ();
    lemma_one_block(block, role, at);
}

/// A tool block stands for one call, that already ran, of the tool that it names, with
/// its input as it is; one that names no tool calls `tool`.
pub proof fn law_tool_blocks(block: JsonTree, role: Seq<char>, at: Option<Seq<char>>)
    requires
        text_under(block, "type"@) == Some("tool_use"@),
    ensures
        ({
            let name = match text_under(block, "name"@) {
                Some(name) => name,
                None => "tool"@,
            };
            let e = EntryView {
                timestamp: at,
                entry_type: EntryTypeView::ToolUse {
                    tool_name: name,
                    action_type: ActionView::Tool {
                        tool_name: name,
                        arguments: block.get("input"@),
                        result: None,
                    },
                    status: ToolStatus::Success,
                },
                content: seq![],
                metadata: None,
            };
            entry::block_entry(block, role, at) == Some(e) && entry::block_entries(
                seq![block],
                role,
                at,
            ) == seq![e]
        }),
{
    lemma_kinds_differ();
    lemma_one_block(block, role, at);
}

/// Blocks of other kinds, and texts and thoughts that hold no text, stand for nothing.
pub proof fn law_other_blocks(block: JsonTree, role: Seq<char>, at: Option<Seq<char>>)
    requires
        ({
            let kind = text_under(block, "type"@);
            ||| kind is None
            ||| kind != Some("text"@) && kind != Some("thinking"@) && kind != Some("tool_use"@)
            ||| kind == Some("text"@) && text_under(block, "text"@) is None
            ||| kind == Some("thinking"@) && text_under(block, "thinking"@) is None
        }),
    ensures
        entry::block_entry(block, role, at) is None,
        entry::block_entries(seq![block], role, at).len() == 0,
{
    lemma_kinds_differ();
    lemma_one_block(block, role, at);
}

/// The text of blocks: each text block adds its text on a new line, the first one that
/// is not empty starts it, and blocks of other kinds add nothing.
pub proof fn law_texts_are_joined(blocks: Seq<JsonTree>, block: JsonTree)
    ensures
        entry::joined_text(seq![]) == Seq::<char>::empty(),
        ({
            let before = entry::joined_text(blocks);
            let after = entry::joined_text(blocks.push(block));
            match (text_under(block, "type"@), text_under(block, "text"@)) {
                (Some(kind), Some(t)) if kind == "text"@ => after == (if before.len() > 0 {
                    before + seq!['\n'] + t
                } else {
                    t
                }),
                _ => after == before,
            }
        }),
{
    assert(blocks.push(block).drop_last() =~= blocks);
    let before = entry::joined_text(blocks);
    assert(before.push('\n') =~= before + seq!['\n']);
}

/// Content has a text if and only if it is a list of blocks whose joined text is not
/// blank, and then it is that text.
pub proof fn law_text_of_content(content: JsonTree, blocks: Seq<JsonTree>)
    ensures
        content !is Array ==> entry::content_text(content) is None,
        text::blank(entry::joined_text(blocks)) ==> entry::content_text(
            JsonTree::Array(blocks),
        ) is None,
        !text::blank(entry::joined_text(blocks)) ==> entry::content_text(JsonTree::Array(blocks))
            == Some(entry::joined_text(blocks)),
{
}

/// The entry that tells of token usage says nothing else.
pub proof fn law_usage_entry(info: TokenUsageInfo)
    ensures
        entry::usage_view(info) == (EntryView {
            timestamp: None,
            entry_type: EntryTypeView::TokenUsageInfo(info),
            content: seq![],
            metadata: None,
        }),
{
}

// ---- Token usage ----

/// The occupancy is the input tokens and both cache buckets, and the window is the
/// large one if and only if the model id holds the marker or the plain one is too
/// small.
pub proof fn law_occupancy(counts: TokenCounts, model: Option<Seq<char>>)
    ensures
        usage::usage_of(counts, model).total_tokens == counts.input + counts.cache_creation
            + counts.cache_read,
        counts.input + counts.cache_creation + counts.cache_read > 200_000 ==> usage::usage_of(
            counts,
            model,
        ).model_context_window == 1_000_000,
        model matches Some(m) && text::holds(m, "[1m]"@) ==> usage::usage_of(
            counts,
            model,
        ).model_context_window == 1_000_000,
        counts.input + counts.cache_creation + counts.cache_read <= 200_000 && (model matches Some(
            m,
        ) ==> !text::holds(m, "[1m]"@)) ==> usage::usage_of(counts, model).model_context_window
            == 200_000,
{
}

/// The number of tokens that is told under `key`: none where no number from zero up is.
pub open spec fn tokens_under(usage: JsonTree, key: Seq<char>) -> int {
    match usage.get(key) {
        Some(JsonTree::Number { integer: Some(n), .. }) if n >= 0 => n as int,
        _ => 0,
    }
}

/// A message tells its usage by three counts, of which one at least is above zero, and
/// by its model.
pub proof fn law_messages_tell_their_usage(message: JsonTree, told: JsonTree)
    ensures
        message.get("usage"@) is None ==> usage::message_usage(message) is None,
        message.get("usage"@) == Some(told) ==> ({
            let total = tokens_under(told, "input_tokens"@) + tokens_under(
                told,
                "cache_creation_input_tokens"@,
            ) + tokens_under(told, "cache_read_input_tokens"@);
            let large = total > 200_000 || (text_under(message, "model"@) matches Some(m)
                && text::holds(m, "[1m]"@));
            match usage::message_usage(message) {
                Some(info) => total > 0 && info.total_tokens == total && info.model_context_window
                    == (if large {
                    1_000_000int
                } else {
                    200_000int
                }),
                None => total == 0,
            }
        }),
{
}

// ---- Records ----

/// A record of the kind `kind`.
pub open spec fn of_kind(rec: JsonTree, kind: Seq<char>) -> bool {
    text_under(rec, "type"@) == Some(kind)
}

/// A record of a message of the conversation.
pub open spec fn holds_message(rec: JsonTree) -> bool {
    of_kind(rec, "user"@) || of_kind(rec, "assistant"@)
}

proof fn lemma_kind(rec: JsonTree)
    ensures
        transcript::is_message(rec) <==> holds_message(rec),
        transcript::record_kind(rec) == "ai-title"@ <==> of_kind(rec, "ai-title"@),
        !(holds_message(rec) && of_kind(rec, "ai-title"@)),
{
    reveal_strlit("");
    reveal_strlit("user");
    reveal_strlit("assistant");
    reveal_strlit("ai-title");
    assert(""@.len() == 0 && "user"@.len() == 4 && "assistant"@.len() == 9);
    assert("ai-title"@.len() == 8);
}

/// What a record says of its session, each under its own name: any record its id, a
/// title record the title, where it is not blank, and a message record the directory,
/// the branch, where it is not empty, and the time.
pub proof fn law_what_records_say(rec: JsonTree, s: Seq<char>)
    ensures
        transcript::is_message(rec) <==> holds_message(rec),
        transcript::record_session_id(rec) == Some(s) <==> text_under(rec, "sessionId"@) == Some(s),
        transcript::record_title(rec) == Some(s) <==> of_kind(rec, "ai-title"@) && text_under(
            rec,
            "aiTitle"@,
        ) == Some(s) && !text::blank(s),
        transcript::record_cwd(rec) == Some(s) <==> holds_message(rec) && text_under(rec, "cwd"@)
            == Some(s),
        transcript::record_branch(rec) == Some(s) <==> holds_message(rec) && text_under(
            rec,
            "gitBranch"@,
        ) == Some(s) && s.len() > 0,
        transcript::record_timestamp(rec) == Some(s) <==> holds_message(rec) && text_under(
            rec,
            "timestamp"@,
        ) == Some(s),
{
    lemma_kind(rec);
}

/// The instant of a record is the one that its text for the time names.
pub proof fn law_record_instants(rec: JsonTree, t: Timestamp)
    ensures
        transcript::record_instant(rec) == Some(t) <==> holds_message(rec) && (text_under(
            rec,
            "timestamp"@,
        ) matches Some(s) && timestamp::rfc3339_instant(s) == Some(t)),
{
    lemma_kind(rec);
}

/// The content of a message record, with the role that it is written in: that of the
/// message, or that of the record where the message names none.
pub open spec fn carries(
    rec: JsonTree,
    message: JsonTree,
    content: JsonTree,
    role: Seq<char>,
) -> bool {
    &&& holds_message(rec)
    &&& rec.get("message"@) == Some(message)
    &&& message.get("content"@) == Some(content)
    &&& match text_under(message, "role"@) {
        Some(r) => role == r,
        None => text_under(rec, "type"@) == Some(role),
    }
}

/// The entries and the prompt of a message record: a list of blocks holds the entries
/// of its blocks, a bare text that is not blank is one message, and what a user writes
/// is a prompt.
pub proof fn law_what_messages_hold(
    rec: JsonTree,
    message: JsonTree,
    content: JsonTree,
    role: Seq<char>,
)
    requires
        carries(rec, message, content, role),
    ensures
        ({
            let at = text_under(rec, "timestamp"@);
            match content {
                JsonTree::Array(blocks) => {
                    &&& transcript::record_entries(rec) == entry::block_entries(blocks, role, at)
                    &&& role == "user"@ ==> transcript::record_prompt(rec) == entry::content_text(
                        content,
                    )
                },
                JsonTree::String(s) => if text::blank(s) {
                    &&& transcript::record_entries(rec).len() == 0
                    &&& transcript::record_prompt(rec) is None
                } else {
                    &&& transcript::record_entries(rec) == seq![
                        EntryView {
                            timestamp: at,
                            entry_type: written_by(role),
                            content: s,
                            metadata: None,
                        },
                    ]
                    &&& role == "user"@ ==> transcript::record_prompt(rec) == Some(s)
                },
                _ => {
                    &&& transcript::record_entries(rec).len() == 0
                    &&& transcript::record_prompt(rec) is None
                },
            }
        }),
        role != "user"@ ==> transcript::record_prompt(rec) is None,
{
    lemma_kind(rec);
}

/// A record without message content holds no entries and no prompt.
pub proof fn law_what_other_records_hold(rec: JsonTree)
    requires
        !holds_message(rec) || rec.get("message"@) is None || (rec.get("message"@) matches Some(m)
            && m.get("content"@) is None),
    ensures
        transcript::record_entries(rec).len() == 0,
        transcript::record_prompt(rec) is None,
{
    lemma_kind(rec);
}

/// The usage that a message record tells is that of its message.
pub proof fn law_record_usage(rec: JsonTree, message: JsonTree)
    ensures
        !holds_message(rec) || rec.get("message"@) is None ==> transcript::record_usage(
            rec,
        ) is None,
        holds_message(rec) && rec.get("message"@) == Some(message) ==> transcript::record_usage(rec)
            == usage::message_usage(message),
{
    lemma_kind(rec);
}

// ---- Records together ----

/// What is first given is what the first record gives that gives anything, and what is
/// last given is what the last such record gives.
pub proof fn law_first_and_last<A>(
    records: Seq<JsonTree>,
    f: spec_fn(JsonTree) -> Option<A>,
    i: int,
)
    ensures
        0 <= i < records.len() && f(records[i]) is Some && (forall|j: int|
            0 <= j < i ==> f(#[trigger] records[j]) is None) ==> transcript::first_given(records, f)
            == f(records[i]),
        0 <= i < records.len() && f(records[i]) is Some && (forall|j: int|
            i < j < records.len() ==> f(#[trigger] records[j]) is None) ==> transcript::last_given(
            records,
            f,
        ) == f(records[i]),
        (forall|j: int| 0 <= j < records.len() ==> f(#[trigger] records[j]) is None) ==> (
        transcript::first_given(records, f) is None && transcript::last_given(records, f) is None),
    decreases records.len(),
{
    if records.len() > 0 {
        let rest = records.drop_last();
        let last = records.len() - 1;
        law_first_and_last(rest, f, i);
        assert forall|j: int| 0 <= j < rest.len() implies rest[j] == records[j] by {}
        assert(records.last() == records[last]);
        if i == last && (forall|j: int| 0 <= j < i ==> f(#[trigger] records[j]) is None) {
            assert forall|j: int| 0 <= j < rest.len() implies f(#[trigger] rest[j]) is None by {
                assert(f(records[j]) is None);
            }
        }
        if forall|j: int| 0 <= j < records.len() ==> f(#[trigger] records[j]) is None {
            assert forall|j: int| 0 <= j < rest.len() implies f(#[trigger] rest[j]) is None by {
                assert(f(records[j]) is None);
            }
            assert(f(records[last]) is None);
        }
        if 0 <= i < last && (forall|j: int| 0 <= j < i ==> f(#[trigger] records[j]) is None) {
            assert forall|j: int| 0 <= j < i implies f(#[trigger] rest[j]) is None by {
                assert(f(records[j]) is None);
            }
        }
        if 0 <= i < last && (forall|j: int|
            i < j < records.len() ==> f(#[trigger] records[j]) is None) {
            assert(f(records[last]) is None);
            assert forall|j: int| i < j < rest.len() implies f(#[trigger] rest[j]) is None by {
                assert(f(records[j]) is None);
            }
        }
    }
}

/// The entries of records are those of each, in order.
pub proof fn law_entries_add_up(a: Seq<JsonTree>, b: Seq<JsonTree>, rec: JsonTree)
    ensures
        transcript::all_entries(seq![]) == Seq::<EntryView>::empty(),
        transcript::all_entries(seq![rec]) == transcript::record_entries(rec),
        transcript::all_entries(a + b) == transcript::all_entries(a) + transcript::all_entries(b),
    decreases b.len(),
{
    reveal_with_fuel(transcript::all_entries, 2);
    assert(seq![rec].drop_last() =~= seq![]);
    if b.len() > 0 {
        law_entries_add_up(a, b.drop_last(), rec);
        assert((a + b).drop_last() =~= a + b.drop_last());
        assert((a + b).last() == b.last());
    } else {
        assert(a + b =~= a);
    }
}

/// The records of lines are those of each, in order: a line that is one JSON value
/// holds that value, and a line that is blank or no JSON value holds none.
pub proof fn law_lines_hold_records(a: Seq<Seq<char>>, b: Seq<Seq<char>>, line: Seq<char>)
    ensures
        transcript::records_in(seq![]) == Seq::<JsonTree>::empty(),
        transcript::records_in(a + b) == transcript::records_in(a) + transcript::records_in(b),
        text::blank(line) ==> transcript::records_in(seq![line]).len() == 0,
        !text::blank(line) ==> match json::parsed_json(line) {
            Some(rec) => transcript::records_in(seq![line]) == seq![rec],
            None => transcript::records_in(seq![line]).len() == 0,
        },
    decreases b.len(),
{
    reveal_with_fuel(transcript::records_in, 2);
    assert(seq![line].drop_last() =~= seq![]);
    if b.len() > 0 {
        law_lines_hold_records(a, b.drop_last(), line);
        assert((a + b).drop_last() =~= a + b.drop_last());
        assert((a + b).last() == b.last());
    } else {
        assert(a + b =~= a);
    }
}

// ---- Sessions ----

/// The session that records amount to, which were read from a file of the stem `stem`.
pub open spec fn session_from(records: Seq<JsonTree>, stem: Option<Seq<char>>) -> Option<
    SessionView,
> {
    transcript::session_of(transcript::transcript_of(records), stem)
}

/// A working directory, `cwd` as a transcript spells it and `kept` as it is kept: a
/// small drive letter becomes a large one, and all else stays.
pub open spec fn same_directory(kept: Seq<char>, cwd: Seq<char>) -> bool {
    if cwd.len() >= 2 && cwd[1] == ':' && 'a' <= cwd[0] && cwd[0] <= 'z' {
        &&& kept.len() == cwd.len()
        &&& kept[0] as int == cwd[0] as int - 32
        &&& kept.skip(1) == cwd.skip(1)
    } else {
        kept == cwd
    }
}

/// Normalising a working directory makes a small drive letter a large one, and changes
/// nothing else.
pub proof fn law_normalized_directories(cwd: Seq<char>)
    ensures
        same_directory(transcript::normalized_cwd(cwd), cwd),
{
    let kept = transcript::normalized_cwd(cwd);
    if cwd.len() >= 2 && cwd[1] == ':' && 'a' <= cwd[0] && cwd[0] <= 'z' {
        assert(kept.skip(1) =~= cwd.skip(1));
    } else {
        assert(kept =~= cwd);
    }
}

/// The first characters of a prompt, 60 at most, on one line.
pub open spec fn start_of(prompt: Seq<char>) -> Seq<char> {
    Seq::new(
        if prompt.len() <= 60 {
            prompt.len()
        } else {
            60
        },
        |i: int|
            if prompt[i] == '\n' {
                ' '
            } else {
                prompt[i]
            },
    )
}

/// The title that a prompt makes is its first 60 characters, line feeds as spaces, but
/// for the white space at both ends.
pub proof fn law_prompt_titles(prompt: Seq<char>)
    ensures
        transcript::prompt_title(prompt) == text::trim(start_of(prompt)),
{
    let start = if prompt.len() <= 60 {
        prompt
    } else {
        prompt.take(60)
    };
    let flat = start.map_values(
        |c: char|
            if c == '\n' {
                ' '
            } else {
                c
            },
    );
    assert(flat =~= start_of(prompt));
}

/// A session has the title that it was given; else that of its first prompt, unless
/// nothing is left of it; else a fixed one.
pub proof fn law_session_titles(title: Seq<char>, prompt: Seq<char>, other: Option<Seq<char>>)
    ensures
        title.len() > 0 ==> transcript::session_title(Some(title), other) == title,
        text::trim(start_of(prompt)).len() > 0 ==> transcript::session_title(None, Some(prompt))
            == text::trim(start_of(prompt)),
        text::trim(start_of(prompt)).len() == 0 ==> transcript::session_title(None, Some(prompt))
            == "Imported session"@,
        transcript::session_title(None, None) == "Imported session"@,
{
    law_prompt_titles(prompt);
}

/// Records make a session if and only if it has an id, if only that of the file, some
/// message names a directory, and there is an entry.
pub proof fn law_when_records_make_a_session(records: Seq<JsonTree>, stem: Option<Seq<char>>)
    ensures
        session_from(records, stem) is Some <==> {
            &&& stem is Some || exists|i: int|
                0 <= i < records.len() && text_under(#[trigger] records[i], "sessionId"@) is Some
            &&& exists|i: int|
                0 <= i < records.len() && holds_message(#[trigger] records[i]) && text_under(
                    records[i],
                    "cwd"@,
                ) is Some
            &&& exists|i: int|
                0 <= i < records.len() && transcript::record_entries(#[trigger] records[i]).len()
                    > 0
        },
{
    let t = transcript::transcript_of(records);
    lemma_some_given(records, |r: JsonTree| transcript::record_session_id(r));
    lemma_some_given(records, |r: JsonTree| transcript::record_cwd(r));
    lemma_some_entry(records);
    assert forall|i: int| 0 <= i < records.len() implies (transcript::record_cwd(
        #[trigger] records[i],
    ) is Some <==> holds_message(records[i]) && text_under(records[i], "cwd"@) is Some) by {
        lemma_kind(records[i]);
    }
    assert(t.claude_session_id is Some <==> exists|i: int|
        0 <= i < records.len() && text_under(#[trigger] records[i], "sessionId"@) is Some);
    assert(t.cwd is Some <==> exists|i: int|
        0 <= i < records.len() && transcript::record_cwd(#[trigger] records[i]) is Some);
}

proof fn lemma_some_given<A>(records: Seq<JsonTree>, f: spec_fn(JsonTree) -> Option<A>)
    ensures
        transcript::first_given(records, f) is Some <==> exists|i: int|
            0 <= i < records.len() && f(#[trigger] records[i]) is Some,
    decreases records.len(),
{
    if records.len() > 0 {
        let rest = records.drop_last();
        lemma_some_given(rest, f);
        if exists|i: int| 0 <= i < records.len() && f(#[trigger] records[i]) is Some {
            let i = choose|i: int| 0 <= i < records.len() && f(#[trigger] records[i]) is Some;
            if i < rest.len() {
                assert(rest[i] == records[i]);
            }
        }
        if exists|i: int| 0 <= i < rest.len() && f(#[trigger] rest[i]) is Some {
            let i = choose|i: int| 0 <= i < rest.len() && f(#[trigger] rest[i]) is Some;
            assert(f(records[i]) is Some);
        }
        if f(records.last()) is Some {
            assert(f(records[records.len() - 1]) is Some);
        }
    }
}

proof fn lemma_some_entry(records: Seq<JsonTree>)
    ensures
        transcript::all_entries(records).len() > 0 <==> exists|i: int|
            0 <= i < records.len() && transcript::record_entries(#[trigger] records[i]).len() > 0,
    decreases records.len(),
{
    if records.len() > 0 {
        let rest = records.drop_last();
        lemma_some_entry(rest);
        if exists|i: int|
            0 <= i < records.len() && transcript::record_entries(#[trigger] records[i]).len() > 0 {
            let i = choose|i: int|
                0 <= i < records.len() && transcript::record_entries(#[trigger] records[i]).len()
                    > 0;
            if i < rest.len() {
                assert(rest[i] == records[i]);
            }
        }
        if exists|i: int|
            0 <= i < rest.len() && transcript::record_entries(#[trigger] rest[i]).len() > 0 {
            let i = choose|i: int|
                0 <= i < rest.len() && transcript::record_entries(#[trigger] rest[i]).len() > 0;
            assert(transcript::record_entries(records[i]).len() > 0);
        }
        if transcript::record_entries(records.last()).len() > 0 {
            assert(transcript::record_entries(records[records.len() - 1]).len() > 0);
        }
    }
}

/// A session has the id that the first record names that names one; where none does,
/// that of its file.
pub proof fn law_session_ids(records: Seq<JsonTree>, stem: Option<Seq<char>>, i: int)
    requires
        session_from(records, stem) is Some,
    ensures
        0 <= i < records.len() && text_under(records[i], "sessionId"@) is Some && (forall|j: int|
            0 <= j < i ==> text_under(#[trigger] records[j], "sessionId"@) is None) ==> Some(
            session_from(records, stem)->Some_0.claude_session_id,
        ) == text_under(records[i], "sessionId"@),
        (forall|j: int|
            0 <= j < records.len() ==> text_under(#[trigger] records[j], "sessionId"@) is None)
            ==> Some(session_from(records, stem)->Some_0.claude_session_id) == stem,
{
    law_first_and_last(records, |r: JsonTree| transcript::record_session_id(r), i);
}

/// A session is of the directory that the first message record names that names one.
pub proof fn law_session_directories(records: Seq<JsonTree>, stem: Option<Seq<char>>, i: int)
    requires
        session_from(records, stem) is Some,
        0 <= i < records.len(),
        holds_message(records[i]),
        text_under(records[i], "cwd"@) is Some,
        forall|j: int|
            0 <= j < i ==> !holds_message(#[trigger] records[j]) || text_under(
                records[j],
                "cwd"@,
            ) is None,
    ensures
        same_directory(
            session_from(records, stem)->Some_0.cwd,
            text_under(records[i], "cwd"@)->Some_0,
        ),
{
    assert forall|j: int| 0 <= j < records.len() implies (transcript::record_cwd(
        #[trigger] records[j],
    ) is Some <==> holds_message(records[j]) && text_under(records[j], "cwd"@) is Some) by {
        lemma_kind(records[j]);
    }
    law_first_and_last(records, |r: JsonTree| transcript::record_cwd(r), i);
    law_normalized_directories(text_under(records[i], "cwd"@)->Some_0);
}

/// A session is on the branch that the first message record names that names one, as
/// it is written there; where none does, it is on none.
pub proof fn law_session_branches(records: Seq<JsonTree>, stem: Option<Seq<char>>, i: int)
    requires
        session_from(records, stem) is Some,
    ensures
        ({
            let named = |r: JsonTree|
                holds_message(r) && (text_under(r, "gitBranch"@) matches Some(b) && b.len() > 0);
            let branch = session_from(records, stem)->Some_0.git_branch;
            &&& 0 <= i < records.len() && named(records[i]) && (forall|j: int|
                0 <= j < i ==> !named(#[trigger] records[j])) ==> branch == text_under(
                records[i],
                "gitBranch"@,
            )
            &&& (forall|j: int| 0 <= j < records.len() ==> !named(#[trigger] records[j]))
                ==> branch is None
        }),
{
    assert forall|j: int| 0 <= j < records.len() implies (transcript::record_branch(
        #[trigger] records[j],
    ) is Some <==> holds_message(records[j]) && (text_under(records[j], "gitBranch"@) matches Some(
        b,
    ) && b.len() > 0)) by {
        lemma_kind(records[j]);
    }
    law_first_and_last(records, |r: JsonTree| transcript::record_branch(r), i);
}

/// A session has the title of the last title record whose title is not blank.
pub proof fn law_given_titles(records: Seq<JsonTree>, stem: Option<Seq<char>>, i: int)
    requires
        session_from(records, stem) is Some,
        0 <= i < records.len(),
        of_kind(records[i], "ai-title"@),
        text_under(records[i], "aiTitle"@) is Some,
        !text::blank(text_under(records[i], "aiTitle"@)->Some_0),
        forall|j: int|
            i < j < records.len() ==> {
                ||| !of_kind(#[trigger] records[j], "ai-title"@)
                ||| text_under(records[j], "aiTitle"@) is None
                ||| text::blank(text_under(records[j], "aiTitle"@)->Some_0)
            },
    ensures
        Some(session_from(records, stem)->Some_0.title) == text_under(records[i], "aiTitle"@),
{
    assert forall|j: int| 0 <= j < records.len() implies (transcript::record_title(
        #[trigger] records[j],
    ) is Some <==> of_kind(records[j], "ai-title"@) && text_under(records[j], "aiTitle"@) is Some
        && !text::blank(text_under(records[j], "aiTitle"@)->Some_0)) by {
        lemma_kind(records[j]);
    }
    law_first_and_last(records, |r: JsonTree| transcript::record_title(r), i);
    let title = text_under(records[i], "aiTitle"@)->Some_0;
    assert(title.len() > 0) by {
        if title.len() == 0 {
            assert(text::blank(title));
        }
    }
}

/// A session that was given no title has that of its first prompt, or the fixed one.
pub proof fn law_made_titles(records: Seq<JsonTree>, stem: Option<Seq<char>>)
    requires
        session_from(records, stem) is Some,
        forall|j: int|
            0 <= j < records.len() ==> {
                ||| !of_kind(#[trigger] records[j], "ai-title"@)
                ||| text_under(records[j], "aiTitle"@) is None
                ||| text::blank(text_under(records[j], "aiTitle"@)->Some_0)
            },
    ensures
        ({
            let session = session_from(records, stem)->Some_0;
            session.title == (match session.first_prompt {
                Some(prompt) if text::trim(start_of(prompt)).len() > 0 => text::trim(
                    start_of(prompt),
                ),
                _ => "Imported session"@,
            })
        }),
{
    assert forall|j: int| 0 <= j < records.len() implies transcript::record_title(
        #[trigger] records[j],
    ) is None by {
        lemma_kind(records[j]);
    }
    law_first_and_last(records, |r: JsonTree| transcript::record_title(r), 0);
    if let Some(prompt) = session_from(records, stem)->Some_0.first_prompt {
        law_prompt_titles(prompt);
    }
}

/// When a record says it was written, where it is a message and its text for the time
/// can be read.
pub open spec fn written_at(rec: JsonTree) -> Option<Timestamp> {
    match text_under(rec, "timestamp"@) {
        Some(s) if holds_message(rec) => timestamp::rfc3339_instant(s),
        _ => None,
    }
}

/// A session starts with the first message and ends with the last one that says when it
/// was written.
pub proof fn law_session_times(records: Seq<JsonTree>, stem: Option<Seq<char>>, i: int)
    requires
        session_from(records, stem) is Some,
    ensures
        ({
            let session = session_from(records, stem)->Some_0;
            &&& 0 <= i < records.len() && written_at(records[i]) is Some && (forall|j: int|
                0 <= j < i ==> written_at(#[trigger] records[j]) is None) ==> session.started_at
                == written_at(records[i])
            &&& 0 <= i < records.len() && written_at(records[i]) is Some && (forall|j: int|
                i < j < records.len() ==> written_at(#[trigger] records[j]) is None)
                ==> session.ended_at == written_at(records[i])
            &&& (forall|j: int|
                0 <= j < records.len() ==> written_at(#[trigger] records[j]) is None)
                ==> session.started_at is None && session.ended_at is None
        }),
{
    assert forall|j: int| 0 <= j < records.len() implies transcript::record_instant(
        #[trigger] records[j],
    ) == written_at(records[j]) by {
        lemma_kind(records[j]);
    }
    law_first_and_last(records, |r: JsonTree| transcript::record_instant(r), i);
}

/// The first prompt of a session is that of the first record that holds one, and its
/// token usage that of the last record that tells one.
pub proof fn law_session_prompts_and_usage(
    records: Seq<JsonTree>,
    stem: Option<Seq<char>>,
    i: int,
)
    requires
        session_from(records, stem) is Some,
    ensures
        ({
            let session = session_from(records, stem)->Some_0;
            &&& 0 <= i < records.len() && transcript::record_prompt(records[i]) is Some && (forall|
                j: int,
            |
                0 <= j < i ==> transcript::record_prompt(#[trigger] records[j]) is None)
                ==> session.first_prompt == transcript::record_prompt(records[i])
            &&& (forall|j: int|
                0 <= j < records.len() ==> transcript::record_prompt(#[trigger] records[j]) is None)
                ==> session.first_prompt is None
            &&& 0 <= i < records.len() && transcript::record_usage(records[i]) is Some && (forall|
                j: int,
            |
                i < j < records.len() ==> transcript::record_usage(#[trigger] records[j]) is None)
                ==> session.token_usage == transcript::record_usage(records[i])
            &&& (forall|j: int|
                0 <= j < records.len() ==> transcript::record_usage(#[trigger] records[j]) is None)
                ==> session.token_usage is None
        }),
{
    law_first_and_last(records, |r: JsonTree| transcript::record_prompt(r), i);
    law_first_and_last(records, |r: JsonTree| transcript::record_usage(r), i);
}

/// A session holds the entries of all its records, and counts them.
pub proof fn law_session_entries(records: Seq<JsonTree>, stem: Option<Seq<char>>)
    requires
        session_from(records, stem) is Some,
    ensures
        session_from(records, stem)->Some_0.entries == transcript::all_entries(records),
        session_from(records, stem)->Some_0.message_count == transcript::all_entries(records).len(),
        session_from(records, stem)->Some_0.modified_at is None,
{
}

/// A record with a message of blocks adds one entry for each of its tool calls, and one
/// for each text and thought that is not blank, to the session.
pub proof fn law_every_block_reaches_the_session(
    before: Seq<JsonTree>,
    rec: JsonTree,
    after: Seq<JsonTree>,
    message: JsonTree,
    role: Seq<char>,
    a: Seq<JsonTree>,
    block: JsonTree,
    b: Seq<JsonTree>,
    stem: Option<Seq<char>>,
)
    requires
        carries(rec, message, JsonTree::Array(a + seq![block] + b), role),
        session_from(before + seq![rec] + after, stem) is Some,
    ensures
        ({
            let at = text_under(rec, "timestamp"@);
            session_from(before + seq![rec] + after, stem)->Some_0.entries
                == transcript::all_entries(before) + entry::block_entries(a, role, at)
                + entry::block_entries(seq![block], role, at) + entry::block_entries(b, role, at)
                + transcript::all_entries(after)
        }),
{
    let at = text_under(rec, "timestamp"@);
    law_what_messages_hold(rec, message, JsonTree::Array(a + seq![block] + b), role);
    law_blocks_add_up(a + seq![block], b, role, at);
    law_blocks_add_up(a, seq![block], role, at);
    law_entries_add_up(before + seq![rec], after, rec);
    law_entries_add_up(before, seq![rec], rec);
}

/// Reading one more record, whose text for the time names `instant`: what the session
/// has stays, but for title, end and usage, which the record replaces where it gives
/// them, and its entries are added.
pub proof fn law_one_more_record(t: TranscriptView, rec: JsonTree, instant: Option<Timestamp>)
    ensures
        ({
            let after = transcript::absorbed(t, rec, instant);
            let timed = holds_message(rec) && text_under(rec, "timestamp"@) is Some
                && instant is Some;
            &&& t.claude_session_id is Some ==> after.claude_session_id == t.claude_session_id
            &&& t.claude_session_id is None ==> after.claude_session_id == text_under(
                rec,
                "sessionId"@,
            )
            &&& t.cwd is Some ==> after.cwd == t.cwd
            &&& t.cwd is None ==> after.cwd == transcript::record_cwd(rec)
            &&& t.git_branch is Some ==> after.git_branch == t.git_branch
            &&& t.git_branch is None ==> after.git_branch == transcript::record_branch(rec)
            &&& t.first_prompt is Some ==> after.first_prompt == t.first_prompt
            &&& t.first_prompt is None ==> after.first_prompt == transcript::record_prompt(rec)
            &&& t.started_at is Some || !timed ==> after.started_at == t.started_at
            &&& t.started_at is None && timed ==> after.started_at == instant
            &&& after.ended_at == (if timed {
                instant
            } else {
                t.ended_at
            })
            &&& after.title == (match transcript::record_title(rec) {
                Some(title) => Some(title),
                None => t.title,
            })
            &&& after.token_usage == (match transcript::record_usage(rec) {
                Some(usage) => Some(usage),
                None => t.token_usage,
            })
            &&& after.entries == t.entries + transcript::record_entries(rec)
        }),
{
    lemma_kind(rec);
}

/// What has been read of a transcript makes a session if and only if there is an id, if
/// only that of the file, a directory and an entry; and the session says what was read.
pub proof fn law_a_finished_transcript(t: TranscriptView, stem: Option<Seq<char>>)
    ensures
        match transcript::session_of(t, stem) {
            Some(session) => {
                &&& t.claude_session_id is Some || stem is Some
                &&& t.claude_session_id is Some ==> Some(session.claude_session_id)
                    == t.claude_session_id
                &&& t.claude_session_id is None ==> Some(session.claude_session_id) == stem
                &&& t.cwd is Some && same_directory(session.cwd, t.cwd->Some_0)
                &&& t.entries.len() > 0 && session.entries == t.entries
                &&& session.message_count == t.entries.len()
                &&& session.started_at == t.started_at && session.ended_at == t.ended_at
                &&& session.git_branch == t.git_branch
                &&& session.first_prompt == t.first_prompt
                &&& session.token_usage == t.token_usage
                &&& session.modified_at is None
                &&& t.title is Some && t.title->Some_0.len() > 0 ==> Some(session.title)
                    == t.title
                &&& t.title is None ==> session.title == (match t.first_prompt {
                    Some(prompt) if text::trim(start_of(prompt)).len() > 0 => text::trim(
                        start_of(prompt),
                    ),
                    _ => "Imported session"@,
                })
            },
            None => {
                ||| t.claude_session_id is None && stem is None
                ||| t.cwd is None
                ||| t.entries.len() == 0
            },
        },
{
    if let Some(cwd) = t.cwd {
        law_normalized_directories(cwd);
    }
    if let Some(prompt) = t.first_prompt {
        law_prompt_titles(prompt);
    }
}

} // verus!
