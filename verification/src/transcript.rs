//! Transcripts of the coding agent's CLI: one JSON record per line.
use vstd::prelude::*;

use crate::entry;
use crate::entry::{EntryView, NormalizedEntry};
use crate::json;
use crate::json::{Json, JsonTree};
use crate::text;
use crate::timestamp;
use crate::timestamp::Timestamp;
use crate::usage;
use crate::usage::TokenUsageInfo;

verus! {

/// An agent session recovered from a transcript.
#[derive(Debug, PartialEq, Eq)]
pub struct DiscoveredSession {
    /// The agent's own session id. Doubles as the idempotency key: it is stored with
    /// the imported turn, so that running the import again skips it.
    pub claude_session_id: String,
    /// Real working directory, taken from the records themselves.
    pub cwd: String,
    pub title: String,
    pub message_count: usize,
    /// When the first message was written.
    pub started_at: Option<Timestamp>,
    /// When the last message was written.
    pub ended_at: Option<Timestamp>,
    /// When the transcript's file was last written, where that is known.
    pub modified_at: Option<Timestamp>,
    pub git_branch: Option<String>,
    pub entries: Vec<NormalizedEntry>,
    pub first_prompt: Option<String>,
    /// What the session occupies of its context window.
    pub token_usage: Option<TokenUsageInfo>,
}

/// What a session says.
pub struct SessionView {
    pub claude_session_id: Seq<char>,
    pub cwd: Seq<char>,
    pub title: Seq<char>,
    pub message_count: nat,
    pub started_at: Option<Timestamp>,
    pub ended_at: Option<Timestamp>,
    pub modified_at: Option<Timestamp>,
    pub git_branch: Option<Seq<char>>,
    pub entries: Seq<EntryView>,
    pub first_prompt: Option<Seq<char>>,
    pub token_usage: Option<TokenUsageInfo>,
}

impl View for DiscoveredSession {
    type V = SessionView;

    open spec fn view(&self) -> SessionView {
        SessionView {
            claude_session_id: self.claude_session_id@,
            cwd: self.cwd@,
            title: self.title@,
            message_count: self.message_count as nat,
            started_at: self.started_at,
            ended_at: self.ended_at,
            modified_at: self.modified_at,
            git_branch: text::view_opt(self.git_branch),
            entries: entry::views(self.entries@),
            first_prompt: text::view_opt(self.first_prompt),
            token_usage: self.token_usage,
        }
    }
}

impl Clone for DiscoveredSession {
    fn clone(&self) -> (copy: Self)
        ensures
            copy@ == self@,
    {
        DiscoveredSession {
            claude_session_id: self.claude_session_id.clone(),
            cwd: self.cwd.clone(),
            title: self.title.clone(),
            message_count: self.message_count,
            started_at: self.started_at,
            ended_at: self.ended_at,
            modified_at: self.modified_at,
            git_branch: text::copy_opt(&self.git_branch),
            entries: entry::copy_all(&self.entries),
            first_prompt: text::copy_opt(&self.first_prompt),
            token_usage: self.token_usage,
        }
    }
}

/// The view of an optional session.
pub open spec fn view_opt(session: Option<DiscoveredSession>) -> Option<SessionView> {
    match session {
        Some(session) => Some(session@),
        None => None,
    }
}

/// `a` where there is one, else `b`.
pub open spec fn either<A>(a: Option<A>, b: Option<A>) -> Option<A> {
    match a {
        Some(_) => a,
        None => b,
    }
}

/// An ASCII letter.
pub open spec fn ascii_letter(c: char) -> bool {
    ('a' <= c && c <= 'z') || ('A' <= c && c <= 'Z')
}

/// An ASCII letter in upper case; other characters as they are.
pub open spec fn ascii_upper(c: char) -> char {
    if 'a' <= c && c <= 'z' {
        ((c as u8) - 32) as u8 as char
    } else {
        c
    }
}

/// A path that starts with a drive letter and a colon.
pub open spec fn has_drive(path: Seq<char>) -> bool {
    path.len() >= 2 && path[1] == ':' && ascii_letter(path[0])
}

/// `cwd` with its drive letter, where it has one, in upper case.
pub open spec fn normalized_cwd(cwd: Seq<char>) -> Seq<char> {
    if has_drive(cwd) {
        cwd.update(0, ascii_upper(cwd[0]))
    } else {
        cwd
    }
}

/// Transcripts record the working directory with whatever drive-letter case the
/// shell happened to use, so the same project shows up as both `c:\...` and
/// `C:\...`. Repo registration is case-sensitive, so without this the same
/// directory registers twice.
pub fn normalize_cwd(cwd: &str) -> (r: String)
    ensures
        r@ == normalized_cwd(cwd@),
{
    let chars = text::chars_of(cwd);
    if chars.len() < 2 || chars[1] != ':' {
        return cwd.to_owned();
    }
    let drive = chars[0];
    let upper = if 'a' <= drive && drive <= 'z' {
        (drive as u8 - 32) as char
    } else if 'A' <= drive && drive <= 'Z' {
        drive
    } else {
        return cwd.to_owned();
    };
    let mut r = String::new();
    r.push(upper);
    for i in 1..chars.len()
        invariant
            chars@ == cwd@,
            has_drive(cwd@),
            chars@.len() >= 2,
            r@ == normalized_cwd(cwd@).take(i as int),
    {
        r.push(chars[i]);
    }
    r
}

/// How many characters of a prompt a title keeps.
pub const TITLE_CHARS: usize = 60;

/// The title that a prompt makes: its first characters on one line.
pub open spec fn prompt_title(prompt: Seq<char>) -> Seq<char> {
    let start = if prompt.len() <= TITLE_CHARS {
        prompt
    } else {
        prompt.take(TITLE_CHARS as int)
    };
    text::trim(
        start.map_values(
            |c: char|
                if c == '\n' {
                    ' '
                } else {
                    c
                },
        ),
    )
}

/// The title of a session: the one that the agent gave it, else the one that its
/// first prompt makes, else a fixed one.
pub open spec fn session_title(title: Option<Seq<char>>, prompt: Option<Seq<char>>) -> Seq<char> {
    let made = match prompt {
        Some(prompt) => Some(prompt_title(prompt)),
        None => None,
    };
    match either(title, made) {
        Some(t) => if t.len() > 0 {
            t
        } else {
            "Imported session"@
        },
        None => "Imported session"@,
    }
}

/// The title that a prompt makes.
fn title_of_prompt(prompt: &str) -> (r: String)
    ensures
        r@ == prompt_title(prompt@),
{
    let ghost flat = prompt@.map_values(
        |c: char|
            if c == '\n' {
                ' '
            } else {
                c
            },
    );
    let mut kept: Vec<char> = Vec::new();
    for c in it: prompt.chars()
        invariant
            it.seq() == prompt@,
            flat.len() == prompt@.len(),
            forall|i: int|
                0 <= i < flat.len() ==> #[trigger] flat[i] == (if prompt@[i] == '\n' {
                    ' '
                } else {
                    prompt@[i]
                }),
            kept@.len() == (if it.index() <= TITLE_CHARS {
                it.index()
            } else {
                TITLE_CHARS as int
            }),
            kept@ == flat.take(kept@.len() as int),
    {
        if kept.len() < TITLE_CHARS {
            kept.push(
                if c == '\n' {
                    ' '
                } else {
                    c
                },
            );
        }
    }
    assert(kept@ =~= (if prompt@.len() <= TITLE_CHARS {
        prompt@
    } else {
        prompt@.take(TITLE_CHARS as int)
    }).map_values(
        |c: char|
            if c == '\n' {
                ' '
            } else {
                c
            },
    ));
    text::trimmed(&kept)
}

/// The title of a session.
fn make_title(title: Option<String>, first_prompt: &Option<String>) -> (r: String)
    ensures
        r@ == session_title(text::view_opt(title), text::view_opt(*first_prompt)),
{
    let candidate = match title {
        Some(title) => Some(title),
        None => match first_prompt {
            Some(prompt) => Some(title_of_prompt(prompt.as_str())),
            None => None,
        },
    };
    match candidate {
        Some(title) => if title.as_str().is_empty() {
            "Imported session".to_owned()
        } else {
            title
        },
        None => "Imported session".to_owned(),
    }
}

/// The kind of a record, empty where it has none.
pub open spec fn record_kind(rec: JsonTree) -> Seq<char> {
    match rec.str_member("type"@) {
        Some(kind) => kind,
        None => ""@,
    }
}

/// A record that carries a message of the conversation.
pub open spec fn is_message(rec: JsonTree) -> bool {
    record_kind(rec) == "user"@ || record_kind(rec) == "assistant"@
}

/// The session id that a record names.
pub open spec fn record_session_id(rec: JsonTree) -> Option<Seq<char>> {
    rec.str_member("sessionId"@)
}

/// The title that a record gives the session: the agent's own generated title, where
/// it is not blank.
pub open spec fn record_title(rec: JsonTree) -> Option<Seq<char>> {
    if record_kind(rec) == "ai-title"@ {
        match rec.str_member("aiTitle"@) {
            Some(title) => if text::blank(title) {
                None
            } else {
                Some(title)
            },
            None => None,
        }
    } else {
        None
    }
}

/// The working directory that a message record names.
pub open spec fn record_cwd(rec: JsonTree) -> Option<Seq<char>> {
    if is_message(rec) {
        rec.str_member("cwd"@)
    } else {
        None
    }
}

/// The git branch that a message record names, where it is not empty.
pub open spec fn record_branch(rec: JsonTree) -> Option<Seq<char>> {
    if is_message(rec) {
        match rec.str_member("gitBranch"@) {
            Some(branch) => if branch.len() > 0 {
                Some(branch)
            } else {
                None
            },
            None => None,
        }
    } else {
        None
    }
}

/// When a message record was written, as its text says.
pub open spec fn record_timestamp(rec: JsonTree) -> Option<Seq<char>> {
    if is_message(rec) {
        rec.str_member("timestamp"@)
    } else {
        None
    }
}

/// When a message record was written, where its text says so in RFC 3339.
pub open spec fn record_instant(rec: JsonTree) -> Option<Timestamp> {
    match record_timestamp(rec) {
        Some(t) => timestamp::rfc3339_instant(t),
        None => None,
    }
}

/// What a message record tells of the occupancy of the context window.
pub open spec fn record_usage(rec: JsonTree) -> Option<TokenUsageInfo> {
    if is_message(rec) {
        match rec.get("message"@) {
            Some(message) => usage::message_usage(message),
            None => None,
        }
    } else {
        None
    }
}

/// The role that a record's message is written in; a message that does not say is
/// written in the record's own.
pub open spec fn record_role(rec: JsonTree) -> Seq<char> {
    match rec.get("message"@) {
        Some(message) => match message.str_member("role"@) {
            Some(role) => role,
            None => record_kind(rec),
        },
        None => record_kind(rec),
    }
}

/// The content of a message record.
pub open spec fn record_content(rec: JsonTree) -> Option<JsonTree> {
    if is_message(rec) {
        match rec.get("message"@) {
            Some(message) => message.get("content"@),
            None => None,
        }
    } else {
        None
    }
}

/// The prompt that a record holds: the text of a user's message, which older
/// transcripts store as a bare string.
pub open spec fn record_prompt(rec: JsonTree) -> Option<Seq<char>> {
    match record_content(rec) {
        Some(content) => if record_role(rec) == "user"@ {
            match content {
                JsonTree::String(s) => if text::blank(s) {
                    None
                } else {
                    Some(s)
                },
                _ => entry::content_text(content),
            }
        } else {
            None
        },
        None => None,
    }
}

/// The entries of the conversation that a record holds.
pub open spec fn record_entries(rec: JsonTree) -> Seq<EntryView> {
    match record_content(rec) {
        Some(JsonTree::Array(blocks)) => entry::block_entries(
            blocks,
            record_role(rec),
            record_timestamp(rec),
        ),
        Some(JsonTree::String(s)) => if text::blank(s) {
            seq![]
        } else {
            seq![
                entry::text_entry(
                    record_timestamp(rec),
                    entry::message_type(record_role(rec)),
                    s,
                ),
            ]
        },
        _ => seq![],
    }
}

/// What the first record for which `f` gives anything gives.
pub open spec fn first_given<A>(
    records: Seq<JsonTree>,
    f: spec_fn(JsonTree) -> Option<A>,
) -> Option<A>
    decreases records.len(),
{
    if records.len() == 0 {
        None
    } else {
        either(first_given(records.drop_last(), f), f(records.last()))
    }
}

/// What the last record for which `f` gives anything gives.
pub open spec fn last_given<A>(
    records: Seq<JsonTree>,
    f: spec_fn(JsonTree) -> Option<A>,
) -> Option<A>
    decreases records.len(),
{
    if records.len() == 0 {
        None
    } else {
        either(f(records.last()), last_given(records.drop_last(), f))
    }
}

/// The entries of the conversation that the records hold, in order.
pub open spec fn all_entries(records: Seq<JsonTree>) -> Seq<EntryView>
    decreases records.len(),
{
    if records.len() == 0 {
        seq![]
    } else {
        all_entries(records.drop_last()) + record_entries(records.last())
    }
}

/// What has been read of a transcript.
pub struct TranscriptView {
    pub claude_session_id: Option<Seq<char>>,
    pub cwd: Option<Seq<char>>,
    pub title: Option<Seq<char>>,
    pub git_branch: Option<Seq<char>>,
    pub started_at: Option<Timestamp>,
    pub ended_at: Option<Timestamp>,
    pub first_prompt: Option<Seq<char>>,
    pub token_usage: Option<TokenUsageInfo>,
    pub entries: Seq<EntryView>,
}

/// What the records of a transcript say: the first session id, working directory,
/// branch, instant and prompt, the last title, instant and token usage, and all
/// entries.
pub open spec fn transcript_of(records: Seq<JsonTree>) -> TranscriptView {
    TranscriptView {
        claude_session_id: first_given(records, |rec: JsonTree| record_session_id(rec)),
        cwd: first_given(records, |rec: JsonTree| record_cwd(rec)),
        title: last_given(records, |rec: JsonTree| record_title(rec)),
        git_branch: first_given(records, |rec: JsonTree| record_branch(rec)),
        started_at: first_given(records, |rec: JsonTree| record_instant(rec)),
        ended_at: last_given(records, |rec: JsonTree| record_instant(rec)),
        first_prompt: first_given(records, |rec: JsonTree| record_prompt(rec)),
        token_usage: last_given(records, |rec: JsonTree| record_usage(rec)),
        entries: all_entries(records),
    }
}

/// The instant of a record, where its text for the time names `instant`; a record
/// without such a text has none.
pub open spec fn instant_taken(rec: JsonTree, instant: Option<Timestamp>) -> Option<Timestamp> {
    if record_timestamp(rec) is Some {
        instant
    } else {
        None
    }
}

/// `t` after one more record, whose text for the time names `instant`.
pub open spec fn absorbed(
    t: TranscriptView,
    rec: JsonTree,
    instant: Option<Timestamp>,
) -> TranscriptView {
    TranscriptView {
        claude_session_id: either(t.claude_session_id, record_session_id(rec)),
        cwd: either(t.cwd, record_cwd(rec)),
        title: either(record_title(rec), t.title),
        git_branch: either(t.git_branch, record_branch(rec)),
        started_at: either(t.started_at, instant_taken(rec, instant)),
        ended_at: either(instant_taken(rec, instant), t.ended_at),
        first_prompt: either(t.first_prompt, record_prompt(rec)),
        token_usage: either(record_usage(rec), t.token_usage),
        entries: t.entries + record_entries(rec),
    }
}

/// The session that a transcript amounts to: it needs a session id, if only that
/// of the file that it was read from, a working directory and an entry. When the
/// file was last written is not in its text.
pub open spec fn session_of(t: TranscriptView, file_stem: Option<Seq<char>>) -> Option<
    SessionView,
> {
    match (either(t.claude_session_id, file_stem), t.cwd) {
        (Some(id), Some(cwd)) => if t.entries.len() > 0 {
            Some(
                SessionView {
                    claude_session_id: id,
                    cwd: normalized_cwd(cwd),
                    title: session_title(t.title, t.first_prompt),
                    message_count: t.entries.len(),
                    started_at: t.started_at,
                    ended_at: t.ended_at,
                    modified_at: None,
                    git_branch: t.git_branch,
                    entries: t.entries,
                    first_prompt: t.first_prompt,
                    token_usage: t.token_usage,
                },
            )
        } else {
            None
        },
        _ => None,
    }
}

/// The records that the lines of a transcript hold. Blank lines hold none, and
/// lines that are not JSON are passed over.
pub open spec fn records_in(lines: Seq<Seq<char>>) -> Seq<JsonTree>
    decreases lines.len(),
{
    if lines.len() == 0 {
        seq![]
    } else {
        let before = records_in(lines.drop_last());
        if text::blank(lines.last()) {
            before
        } else {
            match json::parsed_json(lines.last()) {
                Some(rec) => before.push(rec),
                None => before,
            }
        }
    }
}

/// A transcript while it is read.
#[derive(Debug)]
pub struct Transcript {
    pub claude_session_id: Option<String>,
    pub cwd: Option<String>,
    pub title: Option<String>,
    pub git_branch: Option<String>,
    pub started_at: Option<Timestamp>,
    pub ended_at: Option<Timestamp>,
    pub first_prompt: Option<String>,
    pub token_usage: Option<TokenUsageInfo>,
    pub entries: Vec<NormalizedEntry>,
}

impl View for Transcript {
    type V = TranscriptView;

    open spec fn view(&self) -> TranscriptView {
        TranscriptView {
            claude_session_id: text::view_opt(self.claude_session_id),
            cwd: text::view_opt(self.cwd),
            title: text::view_opt(self.title),
            git_branch: text::view_opt(self.git_branch),
            started_at: self.started_at,
            ended_at: self.ended_at,
            first_prompt: text::view_opt(self.first_prompt),
            token_usage: self.token_usage,
            entries: entry::views(self.entries@),
        }
    }
}

/// Whether a record carries a message of the conversation.
fn carries_message(rec: &Json) -> (r: bool)
    ensures
        r == is_message(rec@),
{
    match rec.str_member("type") {
        Some(kind) => text::same(kind, "user") || text::same(kind, "assistant"),
        None => {
            proof {
                reveal_strlit("");
                reveal_strlit("user");
                reveal_strlit("assistant");
                assert(""@.len() == 0 && "user"@.len() == 4 && "assistant"@.len() == 9);
            }
            false
        },
    }
}

impl Transcript {
    /// A transcript of which nothing has been read.
    pub fn new() -> (t: Self)
        ensures
            t@ == transcript_of(seq![]),
    {
        let t = Transcript {
            claude_session_id: None,
            cwd: None,
            title: None,
            git_branch: None,
            started_at: None,
            ended_at: None,
            first_prompt: None,
            token_usage: None,
            entries: Vec::new(),
        };
        assert(t@.entries =~= seq![]);
        t
    }

    /// Adds the entries that content blocks stand for.
    fn add_blocks(&mut self, content: &Json, role: &str, timestamp: &Option<String>)
        requires
            content is Array,
        ensures
            final(self)@ == (TranscriptView {
                entries: old(self)@.entries + entry::block_entries(
                    content@->Array_0,
                    role@,
                    text::view_opt(*timestamp),
                ),
                ..old(self)@
            }),
    {
        if let Json::Array(blocks) = content {
            let ghost all = content@->Array_0;
            let ghost ts = text::view_opt(*timestamp);
            for i in 0..blocks.len()
                invariant
                    content == Json::Array(*blocks),
                    all == content@->Array_0,
                    all.len() == blocks@.len(),
                    ts == text::view_opt(*timestamp),
                    self@ == (TranscriptView {
                        entries: old(self)@.entries + entry::block_entries(
                            all.take(i as int),
                            role@,
                            ts,
                        ),
                        ..old(self)@
                    }),
            {
                assert(all.take(i + 1).drop_last() =~= all.take(i as int));
                let ghost before = self.entries@;
                if let Some(entry) = entry::block_to_entry(
                    &blocks[i],
                    role,
                    text::copy_opt(timestamp),
                ) {
                    self.entries.push(entry);
                    assert(entry::views(self.entries@) =~= entry::views(before).push(entry@));
                }
            }
            assert(all.take(all.len() as int) =~= all);
        }
    }

    /// Reads what a message record holds of the conversation.
    fn absorb_message(&mut self, rec: &Json, timestamp: &Option<String>)
        requires
            is_message(rec@),
            text::view_opt(*timestamp) == record_timestamp(rec@),
        ensures
            final(self)@ == (TranscriptView {
                first_prompt: either(old(self)@.first_prompt, record_prompt(rec@)),
                token_usage: either(record_usage(rec@), old(self)@.token_usage),
                entries: old(self)@.entries + record_entries(rec@),
                ..old(self)@
            }),
    {
        assert(self@.entries + seq![] =~= self@.entries);
        let message = match rec.get("message") {
            Some(message) => message,
            None => {
                return;
            },
        };
        if let Some(info) = usage::usage_in(message) {
            self.token_usage = Some(info);
        }
        let role = match message.str_member("role") {
            Some(role) => role,
            None => match rec.str_member("type") {
                Some(kind) => kind,
                None => "",
            },
        };
        let content = match message.get("content") {
            Some(content) => content,
            None => {
                return;
            },
        };
        match content {
            Json::Array(_) => {
                if text::same(role, "user") && self.first_prompt.is_none() {
                    self.first_prompt = entry::text_of(content);
                }
                self.add_blocks(content, role, timestamp);
            },
            Json::String(s) => {
                if !text::is_blank(s.as_str()) {
                    let ghost before = self.entries@;
                    let entry = NormalizedEntry {
                        timestamp: text::copy_opt(timestamp),
                        entry_type: entry::message_entry_type(role),
                        content: s.clone(),
                        metadata: None,
                    };
                    self.entries.push(entry);
                    assert(entry::views(self.entries@) =~= entry::views(before).push(entry@));
                    if text::same(role, "user") && self.first_prompt.is_none() {
                        self.first_prompt = Some(s.clone());
                    }
                }
            },
            _ => {},
        }
    }

    /// Reads one more record, whose text for the time names `instant`.
    pub fn absorb(&mut self, rec: &Json, instant: Option<Timestamp>)
        ensures
            final(self)@ == absorbed(old(self)@, rec@, instant),
    {
        if self.claude_session_id.is_none() {
            if let Some(id) = rec.str_member("sessionId") {
                self.claude_session_id = Some(id.to_owned());
            }
        }
        if carries_message(rec) {
            if self.cwd.is_none() {
                if let Some(cwd) = rec.str_member("cwd") {
                    self.cwd = Some(cwd.to_owned());
                }
            }
            if self.git_branch.is_none() {
                if let Some(branch) = rec.str_member("gitBranch") {
                    if !branch.is_empty() {
                        self.git_branch = Some(branch.to_owned());
                    }
                }
            }
            let timestamp = match rec.str_member("timestamp") {
                Some(t) => Some(t.to_owned()),
                None => None,
            };
            if timestamp.is_some() && instant.is_some() {
                if self.started_at.is_none() {
                    self.started_at = instant;
                }
                self.ended_at = instant;
            }
            self.absorb_message(rec, &timestamp);
            proof {
                reveal_strlit("user");
                reveal_strlit("assistant");
                reveal_strlit("ai-title");
                assert("user"@.len() == 4 && "assistant"@.len() == 9 && "ai-title"@.len() == 8);
            }
        } else {
            if let Some(kind) = rec.str_member("type") {
                if text::same(kind, "ai-title") {
                    if let Some(title) = rec.str_member("aiTitle") {
                        if !text::is_blank(title) {
                            self.title = Some(title.to_owned());
                        }
                    }
                }
            }
            proof {
                reveal_strlit("");
                reveal_strlit("ai-title");
                assert(""@.len() == 0 && "ai-title"@.len() == 8);
            }
            // Everything else carries no conversation content worth rendering.
        }
    }

    /// The session that the transcript amounts to; `file_stem` stands in for a
    /// session id that no record names.
    pub fn finish(self, file_stem: Option<&str>) -> (session: Option<DiscoveredSession>)
        ensures
            view_opt(session) == session_of(self@, text::view_opt_str(file_stem)),
    {
        let claude_session_id = match self.claude_session_id {
            Some(id) => id,
            None => match file_stem {
                Some(stem) => stem.to_owned(),
                None => {
                    return None;
                },
            },
        };
        let cwd = match self.cwd {
            Some(cwd) => cwd,
            None => {
                return None;
            },
        };
        if self.entries.len() == 0 {
            return None;
        }
        let title = make_title(self.title, &self.first_prompt);
        Some(
            DiscoveredSession {
                claude_session_id,
                cwd: normalize_cwd(cwd.as_str()),
                title,
                message_count: self.entries.len(),
                started_at: self.started_at,
                ended_at: self.ended_at,
                modified_at: None,
                git_branch: self.git_branch,
                entries: self.entries,
                first_prompt: self.first_prompt,
                token_usage: self.token_usage,
            },
        )
    }
}

/// Parses the text of a single `<session-id>.jsonl` transcript, read from a file
/// of the stem `file_stem`.
pub fn parse_transcript(raw: &str, file_stem: Option<&str>) -> (session: Option<DiscoveredSession>)
    ensures
        view_opt(session) == session_of(
            transcript_of(records_in(text::lines_of(raw@))),
            text::view_opt_str(file_stem),
        ),
{
    let lines = text::lines(raw);
    let ghost all = text::lines_of(raw@);
    let mut transcript = Transcript::new();
    for i in 0..lines.len()
        invariant
            text::views(lines@) == all,
            transcript@ == transcript_of(records_in(all.take(i as int))),
    {
        let line = lines[i].as_str();
        let ghost before = records_in(all.take(i as int));
        assert(all.take(i + 1).drop_last() =~= all.take(i as int));
        if !text::is_blank(line) {
            if let Some(rec) = Json::parse(line) {
                let mut instant: Option<Timestamp> = None;
                if carries_message(&rec) {
                    if let Some(t) = rec.str_member("timestamp") {
                        instant = timestamp::parse_rfc3339(t);
                    }
                }
                transcript.absorb(&rec, instant);
                assert(before.push(rec@).drop_last() =~= before);
            }
        }
    }
    assert(all.take(all.len() as int) =~= all);
    transcript.finish(file_stem)
}

} // verus!
