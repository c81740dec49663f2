//! The Open Responses provider: any endpoint that speaks the Responses API.
//!
//! Authentication is the caller's: a header factory, called for every
//! request, supplies the headers. The functions here take what it returned.

use vstd::prelude::*;

use crate::headers::{pairs_to_map, names_unique, HeaderMap};
use crate::http::{opt_headers, opt_headers_ref, overlay_headers};
use crate::json::{json_as_u64, json_get, members_view, opt_json_view, Json, JsonValue};
use crate::replay::ProviderRecord;
use crate::search::push_member;
use crate::openai::copy_opt_string;
use crate::text::{ascii_lower, ascii_lower_spec, str_eq};
use crate::usage::{FinishReasonUnified, TokenUsage, Usage};

verus! {

/// Configuration of an Open Responses endpoint.
#[derive(Debug)]
pub struct OpenResponsesConfig {
    /// Provider name reported by the models.
    pub provider: String,
    /// Key of the provider-specific options.
    pub provider_options_name: String,
    /// The full endpoint URL (not a base URL).
    pub url: String,
    /// Where the credentials come from, when the caller says so.
    pub api_key_source: Option<String>,
}

impl OpenResponsesConfig {
    pub fn new(provider: String, provider_options_name: String, url: String) -> (c: Self)
        ensures
            c.provider == provider,
            c.provider_options_name == provider_options_name,
            c.url == url,
            c.api_key_source is None,
    {
        OpenResponsesConfig { provider, provider_options_name, url, api_key_source: None }
    }

    /// Records where the credentials come from.
    pub fn with_api_key_source(self, source: Option<&str>) -> (c: Self)
        ensures
            c.provider == self.provider && c.provider_options_name == self.provider_options_name && c.url == self.url,
            match source {
                Some(s) => c.api_key_source matches Some(t) && t@ == s@,
                None => c.api_key_source is None,
            },
    {
        let api_key_source = match source {
            Some(s) => Some(String::from_str(s)),
            None => None,
        };
        OpenResponsesConfig { api_key_source, ..self }
    }

    /// A copy of the configuration.
    pub fn copy(&self) -> (c: Self)
        ensures
            c == *self,
    {
        OpenResponsesConfig {
            provider: self.provider.clone(),
            provider_options_name: self.provider_options_name.clone(),
            url: self.url.clone(),
            api_key_source: copy_opt_string(&self.api_key_source),
        }
    }
}

/// The Open Responses provider.
#[derive(Debug)]
pub struct OpenResponsesProvider {
    config: OpenResponsesConfig,
}

impl OpenResponsesProvider {
    pub fn new(config: OpenResponsesConfig) -> (p: Self)
        ensures
            p.config() == config,
    {
        OpenResponsesProvider { config }
    }

    /// The configuration.
    pub closed spec fn config(&self) -> OpenResponsesConfig {
        self.config
    }

    /// The provider name of the configuration.
    pub fn name(&self) -> (s: &str)
        ensures
            s@ == self.config().provider@,
    {
        self.config.provider.as_str()
    }

    /// A model.
    pub fn model(&self, model_id: &str) -> (m: OpenResponsesModel)
        ensures
            m.model_id_spec() == model_id@,
            m.config_spec() == self.config(),
    {
        OpenResponsesModel::new(String::from_str(model_id), &self.config)
    }
}

/// Header names that carry credentials (compared in ASCII lower case).
pub open spec fn is_auth_header_name(lower: Seq<char>) -> bool {
    lower == "authorization"@ || lower == "x-api-key"@ || lower == "x-goog-api-key"@ || lower == "api-key"@
}

/// Some header name carries credentials.
pub open spec fn has_auth_header(h: Map<Seq<char>, Seq<char>>) -> bool {
    exists|k: Seq<char>| #[trigger] h.dom().contains(k) && is_auth_header_name(ascii_lower_spec(k))
}

/// The credential source: the configured one; else `none` without a header
/// factory; else `explicit` when the factory's headers carry credentials,
/// `none` otherwise.
pub open spec fn api_key_source_spec(
    configured: Option<String>,
    factory_headers: Option<Map<Seq<char>, Seq<char>>>,
) -> Seq<char> {
    match configured {
        Some(s) => s@,
        None => match factory_headers {
            None => "none"@,
            Some(h) => if has_auth_header(h) {
                "explicit"@
            } else {
                "none"@
            },
        },
    }
}

/// An Open Responses language model.
#[derive(Debug)]
pub struct OpenResponsesModel {
    model_id: String,
    config: OpenResponsesConfig,
}

impl OpenResponsesModel {
    pub fn new(model_id: String, config: &OpenResponsesConfig) -> (m: Self)
        ensures
            m.model_id_spec() == model_id@,
            m.config_spec() == *config,
    {
        OpenResponsesModel { model_id, config: config.copy() }
    }

    /// The model id.
    pub closed spec fn model_id_spec(&self) -> Seq<char> {
        self.model_id@
    }

    /// The configuration.
    pub closed spec fn config_spec(&self) -> OpenResponsesConfig {
        self.config
    }

    /// The provider name of the configuration.
    pub fn provider(&self) -> (s: &str)
        ensures
            s@ == self.config_spec().provider@,
    {
        self.config.provider.as_str()
    }

    /// The model id.
    pub fn model_id(&self) -> (s: &str)
        ensures
            s@ == self.model_id_spec(),
    {
        self.model_id.as_str()
    }

    /// Request headers: what the header factory returned (none without a
    /// factory), then the per-call headers.
    pub fn build_headers(&self, factory_headers: Option<HeaderMap>, extra: Option<&HeaderMap>) -> (h: HeaderMap)
        ensures
            h@ == opt_headers(factory_headers).union_prefer_right(opt_headers_ref(extra)),
    {
        let base = match factory_headers {
            Some(h) => h,
            None => HeaderMap::new(),
        };
        overlay_headers(base, extra)
    }

    /// The credential source (see [`api_key_source_spec`]); `factory_headers`
    /// is what the header factory returned, none without a factory.
    pub fn resolve_api_key_source(&self, factory_headers: Option<&HeaderMap>) -> (s: String)
        ensures
            s@ == api_key_source_spec(
                self.config_spec().api_key_source,
                match factory_headers {
                    Some(h) => Some(h@),
                    None => None,
                },
            ),
    {
        match &self.config.api_key_source {
            Some(s) => {
                return s.clone();
            },
            None => {},
        }
        let h = match factory_headers {
            Some(h) => h,
            None => {
                return String::from_str("none");
            },
        };
        let pairs = h.to_pairs();
        let mut i: usize = 0;
        while i < pairs.len()
            invariant
                0 <= i <= pairs@.len(),
                pairs_to_map(pairs@) == h@,
                self.config_spec().api_key_source is None,
                factory_headers == Some(h),
                forall|j: int| 0 <= j < i ==> !is_auth_header_name(ascii_lower_spec(#[trigger] pairs@[j].0@)),
            decreases pairs@.len() - i,
        {
            let lower = ascii_lower(pairs[i].0.as_str());
            if str_eq(lower.as_str(), "authorization") || str_eq(lower.as_str(), "x-api-key") || str_eq(
                lower.as_str(),
                "x-goog-api-key",
            ) || str_eq(lower.as_str(), "api-key") {
                proof {
                    let k = pairs@[i as int].0@;
                    crate::headers::lemma_pairs_to_map_dom(pairs@, k);
                    assert(h@.dom().contains(k));
                    assert(lower@ == ascii_lower_spec(k));
                    assert(is_auth_header_name(ascii_lower_spec(k)));
                    assert(has_auth_header(h@));
                }
                return String::from_str("explicit");
            }
            i += 1;
        }
        proof {
            assert forall|k: Seq<char>| h@.dom().contains(k) implies !is_auth_header_name(ascii_lower_spec(k)) by {
                crate::headers::lemma_pairs_to_map_dom(pairs@, k);
                let j = choose|j: int| 0 <= j < pairs@.len() && #[trigger] pairs@[j].0@ == k;
                assert(!is_auth_header_name(ascii_lower_spec(pairs@[j].0@)));
            }
        }
        String::from_str("none")
    }

    /// The recorded configuration: the provider and model, the endpoint
    /// URL as base URL, the credential source (see
    /// [`Self::resolve_api_key_source`]), no profile, and as options the
    /// options name and whether a header factory is set. Only header names
    /// are looked at; no header value is recorded.
    pub fn config_snapshot(&self, factory_headers: Option<&HeaderMap>) -> (r: ProviderRecord)
        ensures
            r.provider@ == self.config_spec().provider@,
            r.model_id@ == self.model_id_spec(),
            r.base_url matches Some(u) && u@ == self.config_spec().url@,
            r.api_key_source@ == api_key_source_spec(
                self.config_spec().api_key_source,
                match factory_headers {
                    Some(h) => Some(h@),
                    None => None,
                },
            ),
            r.profile is None,
            opt_json_view(r.provider_options) == Some(
                Json::Object(
                    seq![
                        ("has_headers"@, Json::Bool(factory_headers is Some)),
                        ("provider_options_name"@, Json::String(self.config_spec().provider_options_name@)),
                    ],
                ),
            ),
    {
        let source = self.resolve_api_key_source(factory_headers);
        let mut ms: Vec<(String, JsonValue)> = Vec::new();
        push_member(&mut ms, "has_headers", JsonValue::Bool(factory_headers.is_some()));
        push_member(&mut ms, "provider_options_name", JsonValue::String(self.config.provider_options_name.clone()));
        proof {
            assert(members_view(ms@) =~= seq![
                ("has_headers"@, Json::Bool(factory_headers is Some)),
                ("provider_options_name"@, Json::String(self.config_spec().provider_options_name@)),
            ]);
        }
        ProviderRecord {
            provider: self.config.provider.clone(),
            model_id: self.model_id.clone(),
            base_url: Some(self.config.url.clone()),
            api_key_source: source,
            profile: None,
            provider_options: Some(JsonValue::Object(ms)),
        }
    }
}

/// The unified reason of an Open Responses finish reason (as for the
/// Responses API).
pub fn map_open_responses_finish_reason(finish_reason: Option<&str>, has_tool_calls: bool) -> (r: FinishReasonUnified)
    ensures
        r == crate::openai::responses::responses_finish_reason_spec(
            match finish_reason { Some(s) => Some(s@), None => None },
            has_tool_calls,
        ),
{
    crate::openai::responses::map_responses_finish_reason(finish_reason, has_tool_calls).unified
}

/// The top-level media type (`image` of `image/png`).
pub fn top_level_media_type(media_type: &str) -> (r: String)
    ensures
        r@ == crate::media::top_level_spec(media_type@),
{
    crate::media::top_level_of(media_type)
}

/// A token count of the usage document, truncated to `u32`.
pub open spec fn usage_count(usage: Json, key: Seq<char>) -> Option<u32> {
    match json_get(usage, key) {
        Some(v) => match json_as_u64(v) {
            Some(n) => Some(n as u32),
            None => None,
        },
        None => None,
    }
}

/// A nested token count (`outer.inner`), truncated to `u32`.
pub open spec fn nested_count(usage: Json, outer: Seq<char>, inner: Seq<char>) -> Option<u32> {
    match json_get(usage, outer) {
        Some(d) => usage_count(d, inner),
        None => None,
    }
}

/// `o`, or 0.
pub open spec fn or_zero(o: Option<u32>) -> u32 {
    match o {
        Some(v) => v,
        None => 0,
    }
}

/// The cached and reasoning counts do not exceed the totals they are part
/// of.
pub open spec fn usage_document_consistent(usage: Json) -> bool {
    or_zero(nested_count(usage, "input_tokens_details"@, "cached_tokens"@)) <= or_zero(usage_count(usage, "input_tokens"@))
        && or_zero(nested_count(usage, "output_tokens_details"@, "reasoning_tokens"@)) <= or_zero(
        usage_count(usage, "output_tokens"@),
    )
}

pub(crate) fn count(v: &JsonValue, key: &str) -> (r: Option<u32>)
    ensures
        r == usage_count(v@, key@),
{
    match v.get(key) {
        Some(n) => match n.as_u64() {
            Some(x) => Some(x as u32),
            None => None,
        },
        None => None,
    }
}

pub(crate) fn nested(v: &JsonValue, outer: &str, inner: &str) -> (r: Option<u32>)
    ensures
        r == nested_count(v@, outer@, inner@),
{
    match v.get(outer) {
        Some(d) => count(d, inner),
        None => None,
    }
}

/// The usage of a Responses `usage` document: input total and cache read,
/// no-cache = input - cached; output total and reasoning, text = output -
/// reasoning; the document itself as `raw`.
pub fn extract_usage_from_value(usage: &JsonValue) -> (u: Usage)
    requires
        usage_document_consistent(usage@),
    ensures
        u.input_tokens.total == usage_count(usage@, "input_tokens"@),
        u.input_tokens.cache_read == nested_count(usage@, "input_tokens_details"@, "cached_tokens"@),
        u.input_tokens.no_cache == Some(
            (or_zero(usage_count(usage@, "input_tokens"@)) - or_zero(
                nested_count(usage@, "input_tokens_details"@, "cached_tokens"@),
            )) as u32,
        ),
        u.input_tokens.cache_write is None && u.input_tokens.text is None && u.input_tokens.reasoning is None,
        u.output_tokens.total == usage_count(usage@, "output_tokens"@),
        u.output_tokens.reasoning == nested_count(usage@, "output_tokens_details"@, "reasoning_tokens"@),
        u.output_tokens.text == Some(
            (or_zero(usage_count(usage@, "output_tokens"@)) - or_zero(
                nested_count(usage@, "output_tokens_details"@, "reasoning_tokens"@),
            )) as u32,
        ),
        u.output_tokens.no_cache is None && u.output_tokens.cache_read is None && u.output_tokens.cache_write is None,
        u.raw matches Some(j) && j@ == usage@,
{
    let input_tokens = count(usage, "input_tokens");
    let cached = nested(usage, "input_tokens_details", "cached_tokens");
    let output_tokens = count(usage, "output_tokens");
    let reasoning = nested(usage, "output_tokens_details", "reasoning_tokens");
    let it: u32 = match input_tokens {
        Some(v) => v,
        None => 0,
    };
    let ct: u32 = match cached {
        Some(v) => v,
        None => 0,
    };
    let ot: u32 = match output_tokens {
        Some(v) => v,
        None => 0,
    };
    let rt: u32 = match reasoning {
        Some(v) => v,
        None => 0,
    };
    Usage {
        input_tokens: TokenUsage {
            total: input_tokens,
            no_cache: Some(it - ct),
            cache_read: cached,
            cache_write: None,
            text: None,
            reasoning: None,
        },
        output_tokens: TokenUsage {
            total: output_tokens,
            no_cache: None,
            cache_read: None,
            cache_write: None,
            text: Some(ot - rt),
            reasoning,
        },
        raw: Some(usage.deep_copy()),
    }
}

/// The usage of a response body: none when `usage` is absent or `null`.
pub fn extract_usage(raw: &JsonValue) -> (u: Usage)
    requires
        match json_get(raw@, "usage"@) {
            Some(v) => v !is Null ==> usage_document_consistent(v),
            None => true,
        },
    ensures
        match json_get(raw@, "usage"@) {
            Some(v) => if v is Null {
                u.input_tokens == TokenUsage::empty_spec() && u.output_tokens == TokenUsage::empty_spec() && u.raw is None
            } else {
                u.raw matches Some(j) && j@ == v && u.input_tokens.total == usage_count(v, "input_tokens"@)
                    && u.output_tokens.total == usage_count(v, "output_tokens"@)
            },
            None => u.input_tokens == TokenUsage::empty_spec() && u.output_tokens == TokenUsage::empty_spec()
                && u.raw is None,
        },
{
    match raw.get("usage") {
        Some(u) => {
            if u.is_null() {
                Usage::empty()
            } else {
                extract_usage_from_value(u)
            }
        },
        None => Usage::empty(),
    }
}

} // verus!
