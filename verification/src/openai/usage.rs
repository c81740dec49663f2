//! Usage and finish-reason conversion of the chat-completions API.

use vstd::prelude::*;

use crate::json::{copy_opt_json_ref, opt_json_ref_view, opt_json_view, JsonValue};
use crate::openai::types::UsageResponse;
use crate::usage::{TokenUsage, Usage};

verus! {

/// `a - b`, or 0 when `b > a`.
pub open spec fn sat_sub(a: u32, b: u32) -> u32 {
    if a >= b {
        (a - b) as u32
    } else {
        0
    }
}

/// `o`, or `d` when absent.
pub open spec fn or_default(o: Option<u32>, d: u32) -> u32 {
    match o {
        Some(v) => v,
        None => d,
    }
}

/// Cache-read tokens: the top-level count when present, else the nested one,
/// else 0.
pub open spec fn cached_tokens_spec(u: UsageResponse) -> u32 {
    let nested = match u.prompt_tokens_details {
        Some(d) => or_default(d.cached_tokens, 0),
        None => 0,
    };
    or_default(u.cached_tokens, nested)
}

/// Cache-write tokens, when reported.
pub open spec fn cache_write_spec(u: UsageResponse) -> Option<u32> {
    match u.prompt_tokens_details {
        Some(d) => d.cache_write_tokens,
        None => None,
    }
}

/// Reasoning tokens, 0 when not reported.
pub open spec fn reasoning_tokens_spec(u: UsageResponse) -> u32 {
    match u.completion_tokens_details {
        Some(d) => or_default(d.reasoning_tokens, 0),
        None => 0,
    }
}

fn sat_sub_u32(a: u32, b: u32) -> (r: u32)
    ensures
        r == sat_sub(a, b),
{
    if a >= b {
        a - b
    } else {
        0
    }
}

/// The input-token counts of a usage object (see [`convert_usage`]).
pub open spec fn input_usage_spec(usage: UsageResponse) -> TokenUsage {
    TokenUsage {
        total: Some(or_default(usage.prompt_tokens, 0)),
        no_cache: Some(
            sat_sub(
                sat_sub(or_default(usage.prompt_tokens, 0), cached_tokens_spec(usage)),
                or_default(cache_write_spec(usage), 0),
            ),
        ),
        cache_read: Some(cached_tokens_spec(usage)),
        cache_write: cache_write_spec(usage),
        text: None,
        reasoning: None,
    }
}

/// The output-token counts of a usage object (see [`convert_usage`]).
pub open spec fn output_usage_spec(usage: UsageResponse) -> TokenUsage {
    TokenUsage {
        total: Some(or_default(usage.completion_tokens, 0)),
        no_cache: None,
        cache_read: None,
        cache_write: None,
        text: Some(sat_sub(or_default(usage.completion_tokens, 0), reasoning_tokens_spec(usage))),
        reasoning: Some(reasoning_tokens_spec(usage)),
    }
}

/// Converts a chat-completions usage object. Input: total = prompt tokens,
/// cache read as above, no-cache = prompt - cache read - cache write (never
/// below 0). Output: total = completion tokens, text = completion -
/// reasoning (never below 0). `raw` is the provider's usage document.
pub fn convert_usage(usage: &UsageResponse, usage_raw: Option<&JsonValue>) -> (u: Usage)
    ensures
        u.input_tokens.total == Some(or_default(usage.prompt_tokens, 0)),
        u.input_tokens.cache_read == Some(cached_tokens_spec(*usage)),
        u.input_tokens.cache_write == cache_write_spec(*usage),
        u.input_tokens.no_cache == Some(
            sat_sub(
                sat_sub(or_default(usage.prompt_tokens, 0), cached_tokens_spec(*usage)),
                or_default(cache_write_spec(*usage), 0),
            ),
        ),
        u.input_tokens.text is None && u.input_tokens.reasoning is None,
        u.output_tokens.total == Some(or_default(usage.completion_tokens, 0)),
        u.output_tokens.reasoning == Some(reasoning_tokens_spec(*usage)),
        u.output_tokens.text == Some(
            sat_sub(or_default(usage.completion_tokens, 0), reasoning_tokens_spec(*usage)),
        ),
        u.output_tokens.no_cache is None && u.output_tokens.cache_read is None
            && u.output_tokens.cache_write is None,
        opt_json_view(u.raw) == opt_json_ref_view(usage_raw),
        u.input_tokens == input_usage_spec(*usage),
        u.output_tokens == output_usage_spec(*usage),
{
    let prompt_tokens: u32 = match usage.prompt_tokens {
        Some(v) => v,
        None => 0,
    };
    let completion_tokens: u32 = match usage.completion_tokens {
        Some(v) => v,
        None => 0,
    };
    let nested_cached: u32 = match &usage.prompt_tokens_details {
        Some(d) => match d.cached_tokens {
            Some(v) => v,
            None => 0,
        },
        None => 0,
    };
    let cached: u32 = match usage.cached_tokens {
        Some(v) => v,
        None => nested_cached,
    };
    let cache_write: Option<u32> = match &usage.prompt_tokens_details {
        Some(d) => d.cache_write_tokens,
        None => None,
    };
    let cw: u32 = match cache_write {
        Some(v) => v,
        None => 0,
    };
    let no_cache = sat_sub_u32(sat_sub_u32(prompt_tokens, cached), cw);
    let reasoning_tokens: u32 = match &usage.completion_tokens_details {
        Some(d) => match d.reasoning_tokens {
            Some(v) => v,
            None => 0,
        },
        None => 0,
    };
    let text_tokens = sat_sub_u32(completion_tokens, reasoning_tokens);
    Usage {
        input_tokens: TokenUsage {
            total: Some(prompt_tokens),
            no_cache: Some(no_cache),
            cache_read: Some(cached),
            cache_write,
            text: None,
            reasoning: None,
        },
        output_tokens: TokenUsage {
            total: Some(completion_tokens),
            no_cache: None,
            cache_read: None,
            cache_write: None,
            text: Some(text_tokens),
            reasoning: Some(reasoning_tokens),
        },
        raw: copy_opt_json_ref(usage_raw),
    }
}

/// When the cache and reasoning counts fit in the totals, the converted
/// usage adds up: no-cache + cache read + cache write is the prompt total,
/// text + reasoning is the completion total.
pub proof fn law_usage_adds_up(u: UsageResponse)
    requires
        cached_tokens_spec(u) + or_default(cache_write_spec(u), 0) <= or_default(u.prompt_tokens, 0),
        reasoning_tokens_spec(u) <= or_default(u.completion_tokens, 0),
    ensures
        sat_sub(sat_sub(or_default(u.prompt_tokens, 0), cached_tokens_spec(u)), or_default(cache_write_spec(u), 0))
            + cached_tokens_spec(u) + or_default(cache_write_spec(u), 0) == or_default(u.prompt_tokens, 0),
        sat_sub(or_default(u.completion_tokens, 0), reasoning_tokens_spec(u)) + reasoning_tokens_spec(u)
            == or_default(u.completion_tokens, 0),
{
}

} // verus!
