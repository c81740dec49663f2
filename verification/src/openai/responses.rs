//! The OpenAI Responses-API model (`/responses`), its usage type and its
//! finish-reason mapping.

use vstd::prelude::*;

use crate::headers::HeaderMap;
use crate::http::{bearer, opt_headers_ref};
use crate::json::{Json, JsonValue};
use crate::openai::convert_common::{
    is_reasoning_model_spec, supports_flex_processing_spec, supports_non_reasoning_parameters_spec,
    supports_priority_processing_spec,
};
use crate::openai::model::endpoint_url;
use crate::openai::OpenAIConfig;
use crate::text::{str_contains, str_eq};
use crate::usage::{FinishReason, FinishReasonUnified, TokenUsage, Usage};

verus! {

/// Model capabilities relevant to Responses request bodies.
#[derive(Debug)]
pub struct ResponsesModelCapabilities {
    pub is_reasoning_model: bool,
    pub system_message_mode: ResponsesSystemMessageMode,
    pub supports_flex_processing: bool,
    pub supports_priority_processing: bool,
    pub supports_non_reasoning_parameters: bool,
}

/// The capabilities of a model for the Responses API: those of the chat
/// path, system messages going as `developer` messages to reasoning models.
pub fn get_model_capabilities(model_id: &str) -> (c: ResponsesModelCapabilities)
    ensures
        c.is_reasoning_model == is_reasoning_model_spec(model_id@),
        c.system_message_mode == (if is_reasoning_model_spec(model_id@) {
            ResponsesSystemMessageMode::Developer
        } else {
            ResponsesSystemMessageMode::System
        }),
        c.supports_flex_processing == supports_flex_processing_spec(model_id@),
        c.supports_priority_processing == supports_priority_processing_spec(model_id@),
        c.supports_non_reasoning_parameters == supports_non_reasoning_parameters_spec(model_id@),
{
    let common = crate::openai::convert_common::get_model_capabilities(model_id);
    ResponsesModelCapabilities {
        is_reasoning_model: common.is_reasoning_model,
        system_message_mode: if common.is_reasoning_model {
            ResponsesSystemMessageMode::Developer
        } else {
            ResponsesSystemMessageMode::System
        },
        supports_flex_processing: common.supports_flex_processing,
        supports_priority_processing: common.supports_priority_processing,
        supports_non_reasoning_parameters: common.supports_non_reasoning_parameters,
    }
}

/// How system messages are sent to a Responses model.
#[derive(Debug, Clone, Copy, PartialEq, Eq, Structural)]
pub enum ResponsesSystemMessageMode {
    System,
    Developer,
    Remove,
}

/// Token usage reported by the Responses API.
#[derive(Debug)]
pub struct ResponsesUsage {
    pub input_tokens: u32,
    pub output_tokens: u32,
    pub input_tokens_details: Option<ResponsesInputTokensDetails>,
    pub output_tokens_details: Option<ResponsesOutputTokensDetails>,
    /// Reported by some compatible vendors.
    pub total_tokens: Option<u32>,
}

/// Details of the input tokens.
#[derive(Debug)]
pub struct ResponsesInputTokensDetails {
    pub cached_tokens: Option<u32>,
    pub cache_write_tokens: Option<u32>,
}

/// Details of the output tokens.
#[derive(Debug)]
pub struct ResponsesOutputTokensDetails {
    pub reasoning_tokens: Option<u32>,
}

/// Cached input tokens, 0 when not reported.
pub open spec fn responses_cached(u: ResponsesUsage) -> u32 {
    match u.input_tokens_details {
        Some(d) => match d.cached_tokens {
            Some(v) => v,
            None => 0,
        },
        None => 0,
    }
}

/// Cache-write input tokens, when reported.
pub open spec fn responses_cache_write(u: ResponsesUsage) -> Option<u32> {
    match u.input_tokens_details {
        Some(d) => d.cache_write_tokens,
        None => None,
    }
}

/// Reasoning output tokens, 0 when not reported.
pub open spec fn responses_reasoning(u: ResponsesUsage) -> u32 {
    match u.output_tokens_details {
        Some(d) => match d.reasoning_tokens {
            Some(v) => v,
            None => 0,
        },
        None => 0,
    }
}

/// The counts add up: cached and cache-write tokens are part of the input
/// tokens, reasoning tokens part of the output tokens.
pub open spec fn responses_usage_consistent(u: ResponsesUsage) -> bool {
    &&& responses_cached(u) <= u.input_tokens
    &&& responses_cached(u) + match responses_cache_write(u) {
        Some(w) => w as int,
        None => 0int,
    } <= u.input_tokens
    &&& responses_reasoning(u) <= u.output_tokens
}

/// A JSON number or `null`.
pub open spec fn opt_number_json(v: Option<u32>) -> Json {
    match v {
        Some(n) => Json::Number(crate::text::decimal_digits(n as nat)),
        None => Json::Null,
    }
}

/// The JSON document of a Responses usage, members in declaration order.
pub open spec fn responses_usage_json(u: ResponsesUsage) -> Json {
    Json::Object(
        seq![
            ("input_tokens"@, Json::Number(crate::text::decimal_digits(u.input_tokens as nat))),
            ("output_tokens"@, Json::Number(crate::text::decimal_digits(u.output_tokens as nat))),
            ("input_tokens_details"@, match u.input_tokens_details {
                Some(d) => Json::Object(
                    seq![
                        ("cached_tokens"@, opt_number_json(d.cached_tokens)),
                        ("cache_write_tokens"@, opt_number_json(d.cache_write_tokens)),
                    ],
                ),
                None => Json::Null,
            }),
            ("output_tokens_details"@, match u.output_tokens_details {
                Some(d) => Json::Object(seq![("reasoning_tokens"@, opt_number_json(d.reasoning_tokens))]),
                None => Json::Null,
            }),
            ("total_tokens"@, opt_number_json(u.total_tokens)),
        ],
    )
}

fn opt_number(v: Option<u32>) -> (j: JsonValue)
    ensures
        j@ == opt_number_json(v),
{
    match v {
        Some(n) => JsonValue::Number(crate::text::u64_to_decimal(n as u64)),
        None => JsonValue::Null,
    }
}

/// The usage as a JSON document.
pub fn responses_usage_to_json(u: &ResponsesUsage) -> (j: JsonValue)
    ensures
        j@ == responses_usage_json(*u),
{
    let mut members: Vec<(String, JsonValue)> = Vec::new();
    members.push((String::from_str("input_tokens"), JsonValue::Number(crate::text::u64_to_decimal(u.input_tokens as u64))));
    members.push((String::from_str("output_tokens"), JsonValue::Number(crate::text::u64_to_decimal(u.output_tokens as u64))));
    let itd = match &u.input_tokens_details {
        Some(d) => {
            let mut m: Vec<(String, JsonValue)> = Vec::new();
            m.push((String::from_str("cached_tokens"), opt_number(d.cached_tokens)));
            m.push((String::from_str("cache_write_tokens"), opt_number(d.cache_write_tokens)));
            proof {
                crate::json::lemma_members_view(m@);
                assert(crate::json::members_view(m@) =~= seq![
                    ("cached_tokens"@, opt_number_json(d.cached_tokens)),
                    ("cache_write_tokens"@, opt_number_json(d.cache_write_tokens)),
                ]);
            }
            JsonValue::Object(m)
        },
        None => JsonValue::Null,
    };
    members.push((String::from_str("input_tokens_details"), itd));
    let otd = match &u.output_tokens_details {
        Some(d) => {
            let mut m: Vec<(String, JsonValue)> = Vec::new();
            m.push((String::from_str("reasoning_tokens"), opt_number(d.reasoning_tokens)));
            proof {
                crate::json::lemma_members_view(m@);
                assert(crate::json::members_view(m@) =~= seq![("reasoning_tokens"@, opt_number_json(d.reasoning_tokens))]);
            }
            JsonValue::Object(m)
        },
        None => JsonValue::Null,
    };
    members.push((String::from_str("output_tokens_details"), otd));
    members.push((String::from_str("total_tokens"), opt_number(u.total_tokens)));
    proof {
        crate::json::lemma_members_view(members@);
        let expected = match responses_usage_json(*u) {
            Json::Object(ms) => ms,
            _ => Seq::empty(),
        };
        assert(crate::json::members_view(members@) =~= expected);
    }
    JsonValue::Object(members)
}

/// Converts a Responses usage: input total, cache read, cache write and
/// no-cache = input - cached - cache write; output total, reasoning and
/// text = output - reasoning; the usage document as `raw`. No usage gives
/// an empty usage.
pub fn convert_responses_usage(usage: Option<&ResponsesUsage>) -> (r: Usage)
    requires
        match usage {
            Some(u) => responses_usage_consistent(*u),
            None => true,
        },
    ensures
        match usage {
            None => r.input_tokens == TokenUsage::empty_spec() && r.output_tokens == TokenUsage::empty_spec()
                && r.raw is None,
            Some(u) => {
                &&& r.input_tokens.total == Some(u.input_tokens)
                &&& r.input_tokens.cache_read == Some(responses_cached(*u))
                &&& r.input_tokens.cache_write == responses_cache_write(*u)
                &&& r.input_tokens.no_cache matches Some(n) && n == u.input_tokens - responses_cached(*u)
                    - match responses_cache_write(*u) {
                    Some(w) => w as int,
                    None => 0int,
                }
                &&& r.input_tokens.text is None && r.input_tokens.reasoning is None
                &&& r.output_tokens.total == Some(u.output_tokens)
                &&& r.output_tokens.reasoning == Some(responses_reasoning(*u))
                &&& r.output_tokens.text matches Some(t) && t == u.output_tokens - responses_reasoning(*u)
                &&& r.output_tokens.no_cache is None && r.output_tokens.cache_read is None
                    && r.output_tokens.cache_write is None
                &&& r.raw matches Some(j) && j@ == responses_usage_json(*u)
            },
        },
{
    match usage {
        None => Usage::empty(),
        Some(u) => {
            let cached: u32 = match &u.input_tokens_details {
                Some(d) => match d.cached_tokens {
                    Some(v) => v,
                    None => 0,
                },
                None => 0,
            };
            let cache_write: Option<u32> = match &u.input_tokens_details {
                Some(d) => d.cache_write_tokens,
                None => None,
            };
            let reasoning: u32 = match &u.output_tokens_details {
                Some(d) => match d.reasoning_tokens {
                    Some(v) => v,
                    None => 0,
                },
                None => 0,
            };
            let cw: u32 = match cache_write {
                Some(v) => v,
                None => 0,
            };
            let no_cache = u.input_tokens - cached - cw;
            let text = u.output_tokens - reasoning;
            Usage {
                input_tokens: TokenUsage {
                    total: Some(u.input_tokens),
                    no_cache: Some(no_cache),
                    cache_read: Some(cached),
                    cache_write,
                    text: None,
                    reasoning: None,
                },
                output_tokens: TokenUsage {
                    total: Some(u.output_tokens),
                    no_cache: None,
                    cache_read: None,
                    cache_write: None,
                    text: Some(text),
                    reasoning: Some(reasoning),
                },
                raw: Some(responses_usage_to_json(u)),
            }
        },
    }
}

/// The unified reason of a Responses finish reason: none gives tool calls
/// (after a function call) or stop; `max_output_tokens` gives length;
/// `content_filter` gives content filter; anything else gives tool calls
/// (after a function call) or other.
pub open spec fn responses_finish_reason_spec(
    finish_reason: Option<Seq<char>>,
    has_function_call: bool,
) -> FinishReasonUnified {
    match finish_reason {
        None => if has_function_call {
            FinishReasonUnified::ToolCalls
        } else {
            FinishReasonUnified::Stop
        },
        Some(s) => if s == "max_output_tokens"@ {
            FinishReasonUnified::Length
        } else if s == "content_filter"@ {
            FinishReasonUnified::ContentFilter
        } else if has_function_call {
            FinishReasonUnified::ToolCalls
        } else {
            FinishReasonUnified::Other
        },
    }
}

/// Maps a Responses finish reason; the text is kept as `raw`.
pub fn map_responses_finish_reason(finish_reason: Option<&str>, has_function_call: bool) -> (r: FinishReason)
    ensures
        r.unified == responses_finish_reason_spec(
            match finish_reason { Some(s) => Some(s@), None => None },
            has_function_call,
        ),
        match finish_reason {
            Some(s) => r.raw matches Some(t) && t@ == s@,
            None => r.raw is None,
        },
{
    match finish_reason {
        None => FinishReason {
            unified: if has_function_call {
                FinishReasonUnified::ToolCalls
            } else {
                FinishReasonUnified::Stop
            },
            raw: None,
        },
        Some(s) => {
            let unified = if str_eq(s, "max_output_tokens") {
                FinishReasonUnified::Length
            } else if str_eq(s, "content_filter") {
                FinishReasonUnified::ContentFilter
            } else if has_function_call {
                FinishReasonUnified::ToolCalls
            } else {
                FinishReasonUnified::Other
            };
            FinishReason { unified, raw: Some(String::from_str(s)) }
        },
    }
}

/// The headers of a Responses request: `Authorization`, `OpenAI-Organization`
/// when set, then the per-call headers. (Project and configured extra
/// headers are not sent on this path.)
pub open spec fn responses_headers_spec(c: OpenAIConfig, extra: Option<&HeaderMap>) -> Map<Seq<char>, Seq<char>> {
    let m0 = Map::<Seq<char>, Seq<char>>::empty().insert("Authorization"@, bearer(c.api_key@));
    let m1 = match c.org_id {
        Some(o) => m0.insert("OpenAI-Organization"@, o@),
        None => m0,
    };
    m1.union_prefer_right(opt_headers_ref(extra))
}

/// An OpenAI Responses-API model.
#[derive(Debug)]
pub struct OpenAIResponsesModel {
    model_id: String,
    config: OpenAIConfig,
}

impl OpenAIResponsesModel {
    pub fn new(model_id: String, config: OpenAIConfig) -> (m: Self)
        ensures
            m.model_id_spec() == model_id@,
            m.config_spec() == config,
    {
        OpenAIResponsesModel { model_id, config }
    }

    /// The model id.
    pub closed spec fn model_id_spec(&self) -> Seq<char> {
        self.model_id@
    }

    /// The configuration.
    pub closed spec fn config_spec(&self) -> OpenAIConfig {
        self.config
    }

    /// The provider name of the configuration.
    pub fn provider(&self) -> (s: &str)
        ensures
            s@ == self.config_spec().provider@,
    {
        self.config.provider.as_str()
    }

    /// The model id.
    pub fn model_id(&self) -> (s: &str)
        ensures
            s@ == self.model_id_spec(),
    {
        self.model_id.as_str()
    }

    /// Request headers (see [`responses_headers_spec`]).
    pub fn build_headers(&self, extra: Option<&HeaderMap>) -> (h: HeaderMap)
        ensures
            h@ == responses_headers_spec(self.config_spec(), extra),
    {
        let mut h = HeaderMap::new();
        h.insert(String::from_str("Authorization"), crate::http::bearer_value(self.config.api_key.as_str()));
        match &self.config.org_id {
            Some(o) => h.insert(String::from_str("OpenAI-Organization"), o.clone()),
            None => {},
        }
        let ghost m = h@;
        match extra {
            Some(e) => h.extend(e),
            None => {
                assert(m.union_prefer_right(Map::empty()) =~= m);
            },
        }
        h
    }

    /// `{base_url}/responses`.
    pub fn endpoint(&self) -> (r: String)
        ensures
            r@ == self.config_spec().base_url@ + "/responses"@,
    {
        endpoint_url(self.config.base_url.as_str(), "/responses")
    }

    /// The provider-metadata key: `azure` when the provider name contains
    /// `azure`, else `openai`.
    pub fn provider_options_name(&self) -> (s: &str)
        ensures
            s@ == (if crate::text::contains_seq(self.config_spec().provider@, "azure"@) {
                "azure"@
            } else {
                "openai"@
            }),
    {
        if str_contains(self.config.provider.as_str(), "azure") {
            "azure"
        } else {
            "openai"
        }
    }
}

} // verus!
