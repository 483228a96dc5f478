//! Conversation entries, and the content blocks that they come from.
use vstd::prelude::*;

use crate::json;
use crate::json::{Json, JsonTree};
use crate::text;
use crate::usage::TokenUsageInfo;

verus! {

/// How a tool call went.
#[derive(Debug, Clone, Copy, PartialEq, Eq, Structural)]
pub enum ToolStatus {
    Success,
}

/// What a tool call does.
#[derive(Debug, PartialEq, Eq)]
pub enum ActionType {
    Tool { tool_name: String, arguments: Option<Json>, result: Option<Json> },
}

/// What kind of entry a conversation entry is.
#[derive(Debug, PartialEq, Eq)]
pub enum NormalizedEntryType {
    UserMessage,
    AssistantMessage,
    Thinking,
    ToolUse { tool_name: String, action_type: ActionType, status: ToolStatus },
    TokenUsageInfo(TokenUsageInfo),
}

/// One entry of a conversation.
#[derive(Debug, PartialEq, Eq)]
pub struct NormalizedEntry {
    pub timestamp: Option<String>,
    pub entry_type: NormalizedEntryType,
    pub content: String,
    pub metadata: Option<Json>,
}

impl Clone for ActionType {
    fn clone(&self) -> (copy: Self)
        ensures
            copy@ == self@,
    {
        match self {
            ActionType::Tool { tool_name, arguments, result } => ActionType::Tool {
                tool_name: tool_name.clone(),
                arguments: json::copy_opt(arguments),
                result: json::copy_opt(result),
            },
        }
    }
}

impl Clone for NormalizedEntryType {
    fn clone(&self) -> (copy: Self)
        ensures
            copy@ == self@,
    {
        match self {
            NormalizedEntryType::UserMessage => NormalizedEntryType::UserMessage,
            NormalizedEntryType::AssistantMessage => NormalizedEntryType::AssistantMessage,
            NormalizedEntryType::Thinking => NormalizedEntryType::Thinking,
            NormalizedEntryType::ToolUse { tool_name, action_type, status } =>
                NormalizedEntryType::ToolUse {
                tool_name: tool_name.clone(),
                action_type: action_type.clone(),
                status: *status,
            },
            NormalizedEntryType::TokenUsageInfo(info) => NormalizedEntryType::TokenUsageInfo(*info),
        }
    }
}

impl Clone for NormalizedEntry {
    fn clone(&self) -> (copy: Self)
        ensures
            copy@ == self@,
    {
        NormalizedEntry {
            timestamp: text::copy_opt(&self.timestamp),
            entry_type: self.entry_type.clone(),
            content: self.content.clone(),
            metadata: json::copy_opt(&self.metadata),
        }
    }
}

/// A copy of a list of entries.
pub fn copy_all(entries: &Vec<NormalizedEntry>) -> (copies: Vec<NormalizedEntry>)
    ensures
        views(copies@) == views(entries@),
{
    let mut copies: Vec<NormalizedEntry> = Vec::new();
    for i in 0..entries.len()
        invariant
            copies@.len() == i,
            forall|j: int| 0 <= j < i ==> (#[trigger] copies@[j])@ == entries@[j]@,
    {
        copies.push(entries[i].clone());
    }
    assert(views(copies@) =~= views(entries@));
    copies
}

/// What an action says.
pub enum ActionView {
    Tool { tool_name: Seq<char>, arguments: Option<JsonTree>, result: Option<JsonTree> },
}

/// What an entry type says.
pub enum EntryTypeView {
    UserMessage,
    AssistantMessage,
    Thinking,
    ToolUse { tool_name: Seq<char>, action_type: ActionView, status: ToolStatus },
    TokenUsageInfo(TokenUsageInfo),
}

/// What an entry says.
pub struct EntryView {
    pub timestamp: Option<Seq<char>>,
    pub entry_type: EntryTypeView,
    pub content: Seq<char>,
    pub metadata: Option<JsonTree>,
}

impl View for ActionType {
    type V = ActionView;

    open spec fn view(&self) -> ActionView {
        match self {
            ActionType::Tool { tool_name, arguments, result } => ActionView::Tool {
                tool_name: tool_name@,
                arguments: json::view_opt(*arguments),
                result: json::view_opt(*result),
            },
        }
    }
}

impl View for NormalizedEntryType {
    type V = EntryTypeView;

    open spec fn view(&self) -> EntryTypeView {
        match self {
            NormalizedEntryType::UserMessage => EntryTypeView::UserMessage,
            NormalizedEntryType::AssistantMessage => EntryTypeView::AssistantMessage,
            NormalizedEntryType::Thinking => EntryTypeView::Thinking,
            NormalizedEntryType::ToolUse { tool_name, action_type, status } =>
                EntryTypeView::ToolUse {
                tool_name: tool_name@,
                action_type: action_type@,
                status: *status,
            },
            NormalizedEntryType::TokenUsageInfo(info) => EntryTypeView::TokenUsageInfo(*info),
        }
    }
}

impl View for NormalizedEntry {
    type V = EntryView;

    open spec fn view(&self) -> EntryView {
        EntryView {
            timestamp: text::view_opt(self.timestamp),
            entry_type: self.entry_type@,
            content: self.content@,
            metadata: json::view_opt(self.metadata),
        }
    }
}

/// The view of an optional entry.
pub open spec fn view_opt(entry: Option<NormalizedEntry>) -> Option<EntryView> {
    match entry {
        Some(entry) => Some(entry@),
        None => None,
    }
}

/// The views of a list of entries.
pub open spec fn views(entries: Seq<NormalizedEntry>) -> Seq<EntryView> {
    entries.map_values(|e: NormalizedEntry| e@)
}

/// The text of a text block.
pub open spec fn block_text(block: JsonTree) -> Option<Seq<char>> {
    if block.str_member("type"@) == Some("text"@) {
        block.str_member("text"@)
    } else {
        None
    }
}

/// The texts of the text blocks among `blocks`, joined by line feeds. A text that
/// follows nothing but empty ones is joined to them without one.
pub open spec fn joined_text(blocks: Seq<JsonTree>) -> Seq<char>
    decreases blocks.len(),
{
    if blocks.len() == 0 {
        seq![]
    } else {
        let before = joined_text(blocks.drop_last());
        match block_text(blocks.last()) {
            Some(t) => if before.len() == 0 {
                t
            } else {
                before.push('\n') + t
            },
            None => before,
        }
    }
}

/// The text of message content that is a list of blocks, where it has any.
pub open spec fn content_text(content: JsonTree) -> Option<Seq<char>> {
    match content {
        JsonTree::Array(blocks) => {
            let all = joined_text(blocks);
            if text::blank(all) {
                None
            } else {
                Some(all)
            }
        },
        _ => None,
    }
}

/// What kind of message a role writes.
pub open spec fn message_type(role: Seq<char>) -> EntryTypeView {
    if role == "assistant"@ {
        EntryTypeView::AssistantMessage
    } else {
        EntryTypeView::UserMessage
    }
}

/// An entry of a given type and text.
pub open spec fn text_entry(
    timestamp: Option<Seq<char>>,
    entry_type: EntryTypeView,
    content: Seq<char>,
) -> EntryView {
    EntryView { timestamp, entry_type, content, metadata: None }
}

/// The entry of a call of the tool `name`, which already ran.
pub open spec fn tool_entry(
    timestamp: Option<Seq<char>>,
    name: Seq<char>,
    arguments: Option<JsonTree>,
) -> EntryView {
    text_entry(
        timestamp,
        EntryTypeView::ToolUse {
            tool_name: name,
            action_type: ActionView::Tool { tool_name: name, arguments, result: None },
            status: ToolStatus::Success,
        },
        seq![],
    )
}

/// The entry that tells what a session occupies of its context window.
pub open spec fn usage_view(info: TokenUsageInfo) -> EntryView {
    text_entry(None, EntryTypeView::TokenUsageInfo(info), seq![])
}

/// The entry that a content block stands for: a text or a thought that is not
/// blank, or a tool call. Other blocks stand for none.
pub open spec fn block_entry(
    block: JsonTree,
    role: Seq<char>,
    timestamp: Option<Seq<char>>,
) -> Option<EntryView> {
    match block.str_member("type"@) {
        Some(kind) => if kind == "text"@ {
            match block.str_member("text"@) {
                Some(t) => if text::blank(t) {
                    None
                } else {
                    Some(text_entry(timestamp, message_type(role), t))
                },
                None => None,
            }
        } else if kind == "thinking"@ {
            match block.str_member("thinking"@) {
                Some(t) => if text::blank(t) {
                    None
                } else {
                    Some(text_entry(timestamp, EntryTypeView::Thinking, t))
                },
                None => None,
            }
        } else if kind == "tool_use"@ {
            let name = match block.str_member("name"@) {
                Some(name) => name,
                None => "tool"@,
            };
            Some(tool_entry(timestamp, name, block.get("input"@)))
        } else {
            None
        },
        None => None,
    }
}

/// The entries that content blocks stand for, in order.
pub open spec fn block_entries(
    blocks: Seq<JsonTree>,
    role: Seq<char>,
    timestamp: Option<Seq<char>>,
) -> Seq<EntryView>
    decreases blocks.len(),
{
    if blocks.len() == 0 {
        seq![]
    } else {
        let before = block_entries(blocks.drop_last(), role, timestamp);
        match block_entry(blocks.last(), role, timestamp) {
            Some(entry) => before.push(entry),
            None => before,
        }
    }
}

/// Pulls the text out of a content block array, ignoring non-text blocks.
pub fn text_of(content: &Json) -> (r: Option<String>)
    ensures
        text::view_opt(r) == content_text(content@),
{
    match content {
        Json::Array(blocks) => {
            let ghost all = content@->Array_0;
            let mut out = String::new();
            for i in 0..blocks.len()
                invariant
                    content == Json::Array(*blocks),
                    all == content@->Array_0,
                    all.len() == blocks@.len(),
                    out@ == joined_text(all.take(i as int)),
            {
                let block = &blocks[i];
                assert(all.take(i + 1).drop_last() =~= all.take(i as int));
                if let Some(kind) = block.str_member("type") {
                    if text::same(kind, "text") {
                        if let Some(t) = block.str_member("text") {
                            if !out.as_str().is_empty() {
                                out.push('\n');
                            }
                            out.append(t);
                        }
                    }
                }
            }
            assert(all.take(all.len() as int) =~= all);
            if text::is_blank(out.as_str()) {
                None
            } else {
                Some(out)
            }
        },
        _ => None,
    }
}

/// What kind of message a role writes.
pub fn message_entry_type(role: &str) -> (r: NormalizedEntryType)
    ensures
        r@ == message_type(role@),
{
    if text::same(role, "assistant") {
        NormalizedEntryType::AssistantMessage
    } else {
        NormalizedEntryType::UserMessage
    }
}

/// The entry that tells what a session occupies of its context window.
pub fn usage_entry(info: TokenUsageInfo) -> (entry: NormalizedEntry)
    ensures
        entry@ == usage_view(info),
{
    NormalizedEntry {
        timestamp: None,
        entry_type: NormalizedEntryType::TokenUsageInfo(info),
        content: String::new(),
        metadata: None,
    }
}

/// Converts one content block into a normalized entry.
pub fn block_to_entry(block: &Json, role: &str, timestamp: Option<String>) -> (entry: Option<
    NormalizedEntry,
>)
    ensures
        view_opt(entry) == block_entry(block@, role@, text::view_opt(timestamp)),
{
    let kind = match block.str_member("type") {
        Some(kind) => kind,
        None => {
            return None;
        },
    };
    if text::same(kind, "text") {
        match block.str_member("text") {
            Some(t) => {
                if text::is_blank(t) {
                    return None;
                }
                Some(
                    NormalizedEntry {
                        timestamp,
                        entry_type: message_entry_type(role),
                        content: t.to_owned(),
                        metadata: None,
                    },
                )
            },
            None => None,
        }
    } else if text::same(kind, "thinking") {
        match block.str_member("thinking") {
            Some(t) => {
                if text::is_blank(t) {
                    return None;
                }
                Some(
                    NormalizedEntry {
                        timestamp,
                        entry_type: NormalizedEntryType::Thinking,
                        content: t.to_owned(),
                        metadata: None,
                    },
                )
            },
            None => None,
        }
    } else if text::same(kind, "tool_use") {
        let name = match block.str_member("name") {
            Some(name) => name.to_owned(),
            None => "tool".to_owned(),
        };
        let arguments = match block.get("input") {
            Some(input) => Some(input.clone()),
            None => None,
        };
        // A transcript records calls that already ran. The paired tool_result is not
        // replayed: there is no entry type for it.
        Some(
            NormalizedEntry {
                timestamp,
                entry_type: NormalizedEntryType::ToolUse {
                    tool_name: name.clone(),
                    action_type: ActionType::Tool { tool_name: name, arguments, result: None },
                    status: ToolStatus::Success,
                },
                content: String::new(),
                metadata: None,
            },
        )
    } else {
        None
    }
}

} // verus!
