//! How much of its context window a session occupies.
use vstd::prelude::*;

use crate::json::{Json, JsonTree};
use crate::text;

verus! {

/// The tokens that a plain context window holds.
pub const CONTEXT_WINDOW: u64 = 200_000;

/// The tokens that a large context window holds.
pub const LARGE_CONTEXT_WINDOW: u64 = 1_000_000;

/// The occupancy of a context window, which feeds the context gauge.
#[derive(Debug, Clone, Copy, PartialEq, Eq, Structural)]
pub struct TokenUsageInfo {
    pub total_tokens: u128,
    pub model_context_window: u64,
}

/// What a message occupies of its context: the input side, in three buckets. What
/// the model wrote is not part of it.
#[derive(Debug, Clone, Copy, PartialEq, Eq, Structural)]
pub struct TokenCounts {
    pub input: u64,
    pub cache_creation: u64,
    pub cache_read: u64,
}

impl TokenCounts {
    /// The tokens of the three buckets together.
    pub open spec fn total(self) -> int {
        self.input + self.cache_creation + self.cache_read
    }
}

/// Whether a model id carries the marker of the large context window.
pub open spec fn marked_large(model: Option<Seq<char>>) -> bool {
    match model {
        Some(model) => text::holds(model, "[1m]"@),
        None => false,
    }
}

/// The context window of a session that occupies `total` tokens. A transcript may
/// record a plain model id where the large window is in force; more tokens than the
/// plain window holds tell it all the same.
pub open spec fn window_of(total: int, model: Option<Seq<char>>) -> u64 {
    if marked_large(model) || total > CONTEXT_WINDOW {
        LARGE_CONTEXT_WINDOW
    } else {
        CONTEXT_WINDOW
    }
}

/// The occupancy that token counts and a model id tell.
pub open spec fn usage_of(counts: TokenCounts, model: Option<Seq<char>>) -> TokenUsageInfo {
    TokenUsageInfo {
        total_tokens: counts.total() as u128,
        model_context_window: window_of(counts.total(), model),
    }
}

/// The count that a usage object gives under `key`; none is given where the member
/// is missing, or is no integer from zero up that fits.
pub open spec fn count_under(usage: JsonTree, key: Seq<char>) -> u64 {
    match usage.get(key) {
        Some(value) => match value.as_i64() {
            Some(n) => if n >= 0 {
                n as u64
            } else {
                0
            },
            None => 0,
        },
        None => 0,
    }
}

/// The counts of a usage object. The names of its members are those of the agent's
/// API; nothing else in this project fixes them.
pub open spec fn counts_of(usage: JsonTree) -> TokenCounts {
    TokenCounts {
        input: count_under(usage, "input_tokens"@),
        cache_creation: count_under(usage, "cache_creation_input_tokens"@),
        cache_read: count_under(usage, "cache_read_input_tokens"@),
    }
}

/// The occupancy that a message tells, where it tells of any token. The names
/// `usage` and `model` are those of the agent's API too.
pub open spec fn message_usage(message: JsonTree) -> Option<TokenUsageInfo> {
    match message.get("usage"@) {
        Some(usage) => if counts_of(usage).total() > 0 {
            Some(usage_of(counts_of(usage), message.str_member("model"@)))
        } else {
            None
        },
        None => None,
    }
}

/// The occupancy that token counts and a model id tell: the input tokens and both
/// cache buckets, of the large window where the id is marked so or the tokens do
/// not fit in the plain one.
pub fn token_usage(counts: TokenCounts, model: Option<&str>) -> (info: TokenUsageInfo)
    ensures
        info.total_tokens == counts.input + counts.cache_creation + counts.cache_read,
        info.model_context_window == (if marked_large(text::view_opt_str(model))
            || info.total_tokens > CONTEXT_WINDOW {
            LARGE_CONTEXT_WINDOW
        } else {
            CONTEXT_WINDOW
        }),
        info == usage_of(counts, text::view_opt_str(model)),
{
    let total_tokens: u128 = counts.input as u128 + counts.cache_creation as u128
        + counts.cache_read as u128;
    let marked = match model {
        Some(model) => text::is_in("[1m]", model),
        None => false,
    };
    let model_context_window: u64 = if marked || total_tokens > CONTEXT_WINDOW as u128 {
        LARGE_CONTEXT_WINDOW
    } else {
        CONTEXT_WINDOW
    };
    TokenUsageInfo { total_tokens, model_context_window }
}

/// The count that a usage object gives under `key`.
fn read_count(usage: &Json, key: &str) -> (n: u64)
    ensures
        n == count_under(usage@, key@),
{
    match usage.get(key) {
        Some(value) => match value.as_i64() {
            Some(n) => if n >= 0 {
                n as u64
            } else {
                0
            },
            None => 0,
        },
        None => 0,
    }
}

/// The occupancy that a message tells, where it tells of any token.
pub fn usage_in(message: &Json) -> (info: Option<TokenUsageInfo>)
    ensures
        info == message_usage(message@),
{
    match message.get("usage") {
        Some(usage) => {
            let counts = TokenCounts {
                input: read_count(usage, "input_tokens"),
                cache_creation: read_count(usage, "cache_creation_input_tokens"),
                cache_read: read_count(usage, "cache_read_input_tokens"),
            };
            let info = token_usage(counts, message.str_member("model"));
            if info.total_tokens > 0 {
                Some(info)
            } else {
                None
            }
        },
        None => None,
    }
}

} // verus!
