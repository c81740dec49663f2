//! Token usage and finish reasons as the library reports them.

use vstd::prelude::*;

use crate::json::JsonValue;

verus! {

/// Token counts of one direction (input or output).
#[derive(Debug)]
pub struct TokenUsage {
    pub total: Option<u32>,
    /// Input tokens read neither from nor written to a cache.
    pub no_cache: Option<u32>,
    pub cache_read: Option<u32>,
    pub cache_write: Option<u32>,
    /// Output tokens that are text.
    pub text: Option<u32>,
    /// Output tokens spent on reasoning.
    pub reasoning: Option<u32>,
}

impl TokenUsage {
    /// No counts known.
    pub fn empty() -> (t: TokenUsage)
        ensures
            t.total is None && t.no_cache is None && t.cache_read is None && t.cache_write is None
                && t.text is None && t.reasoning is None,
    {
        TokenUsage { total: None, no_cache: None, cache_read: None, cache_write: None, text: None, reasoning: None }
    }
}

/// Token usage of a call, with the provider's own usage document.
#[derive(Debug)]
pub struct Usage {
    pub input_tokens: TokenUsage,
    pub output_tokens: TokenUsage,
    pub raw: Option<JsonValue>,
}

impl Usage {
    /// No usage known.
    pub fn empty() -> (u: Usage)
        ensures
            u.input_tokens == TokenUsage::empty_spec(),
            u.output_tokens == TokenUsage::empty_spec(),
            u.raw is None,
    {
        Usage { input_tokens: TokenUsage::empty(), output_tokens: TokenUsage::empty(), raw: None }
    }
}

impl TokenUsage {
    /// No counts known.
    pub open spec fn empty_spec() -> TokenUsage {
        TokenUsage { total: None, no_cache: None, cache_read: None, cache_write: None, text: None, reasoning: None }
    }
}

/// Why generation stopped, in the library's terms.
#[derive(Debug, Clone, Copy, PartialEq, Eq, Structural)]
pub enum FinishReasonUnified {
    Stop,
    Length,
    ContentFilter,
    ToolCalls,
    Error,
    Other,
}

/// A finish reason: the unified reason and the provider's own text.
#[derive(Debug)]
pub struct FinishReason {
    pub unified: FinishReasonUnified,
    pub raw: Option<String>,
}

} // verus!
