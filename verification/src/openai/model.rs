//! The OpenAI chat-completions model and the shared authentication headers.

use vstd::prelude::*;

use crate::headers::HeaderMap;
use crate::http::{bearer, bearer_value, layer_headers, opt_headers, opt_headers_ref};
use crate::openai::OpenAIConfig;
use crate::json::{copy_opt_json_ref, opt_json_ref_view, opt_json_view, JsonValue};
use crate::openai::convert::{deep_merge_json, merge_spec};
use crate::text::concat;

verus! {

/// `Authorization`, then `OpenAI-Organization` and `OpenAI-Project` when set.
pub open spec fn auth_base_headers(
    api_key: Seq<char>,
    org_id: Option<String>,
    project: Option<String>,
) -> Map<Seq<char>, Seq<char>> {
    let m0 = Map::<Seq<char>, Seq<char>>::empty().insert("Authorization"@, bearer(api_key));
    let m1 = match org_id {
        Some(o) => m0.insert("OpenAI-Organization"@, o@),
        None => m0,
    };
    match project {
        Some(p) => m1.insert("OpenAI-Project"@, p@),
        None => m1,
    }
}

/// The headers of a configuration: authentication, organization, project,
/// then the configured extra headers on top.
pub open spec fn openai_auth_headers(c: OpenAIConfig) -> Map<Seq<char>, Seq<char>> {
    auth_base_headers(c.api_key@, c.org_id, c.project).union_prefer_right(opt_headers(c.headers))
}

/// Authentication, organization and project headers.
pub fn auth_base(api_key: &str, org_id: &Option<String>, project: &Option<String>) -> (h: HeaderMap)
    ensures
        h@ == auth_base_headers(api_key@, *org_id, *project),
{
    let mut h = HeaderMap::new();
    h.insert(String::from_str("Authorization"), bearer_value(api_key));
    match org_id {
        Some(o) => h.insert(String::from_str("OpenAI-Organization"), o.clone()),
        None => {},
    }
    match project {
        Some(p) => h.insert(String::from_str("OpenAI-Project"), p.clone()),
        None => {},
    }
    h
}

/// The authentication and provider-level headers of a configuration (no
/// per-call headers).
pub fn build_auth_headers(config: &OpenAIConfig) -> (h: HeaderMap)
    ensures
        h@ == openai_auth_headers(*config),
{
    let base = auth_base(config.api_key.as_str(), &config.org_id, &config.project);
    let h = layer_headers(base, &config.headers, None);
    assert(h@ =~= openai_auth_headers(*config));
    h
}

/// The configuration's headers with the per-call headers on top.
pub fn openai_request_headers(config: &OpenAIConfig, extra: Option<&HeaderMap>) -> (h: HeaderMap)
    ensures
        h@ == openai_auth_headers(*config).union_prefer_right(opt_headers_ref(extra)),
{
    let base = auth_base(config.api_key.as_str(), &config.org_id, &config.project);
    layer_headers(base, &config.headers, extra)
}

/// `base_url` followed by `path`.
pub fn endpoint_url(base_url: &str, path: &str) -> (r: String)
    ensures
        r@ == base_url@ + path@,
{
    concat(base_url, path)
}

/// The body overrides of a call: the provider-level overrides with the
/// call's merged on top; the call's alone without provider-level ones.
pub open spec fn merged_overrides_spec(provider: Option<JsonValue>, call: Option<&JsonValue>) -> Option<crate::json::Json> {
    match provider {
        Some(p) => match call {
            Some(c) => Some(merge_spec(p@, c@)),
            None => Some(p@),
        },
        None => opt_json_ref_view(call),
    }
}

/// Merges provider-level body overrides with a call's (the call's win).
pub fn merge_body_overrides(call: Option<&JsonValue>, provider_overrides: &Option<JsonValue>) -> (r: Option<JsonValue>)
    ensures
        opt_json_view(r) == merged_overrides_spec(*provider_overrides, call),
{
    match provider_overrides {
        Some(p) => match call {
            Some(c) => {
                let mut merged = p.deep_copy();
                deep_merge_json(&mut merged, c);
                Some(merged)
            },
            None => Some(p.deep_copy()),
        },
        None => copy_opt_json_ref(call),
    }
}

/// An OpenAI-compatible chat-completions model.
#[derive(Debug)]
pub struct OpenAIModel {
    model_id: String,
    config: OpenAIConfig,
}

impl OpenAIModel {
    pub fn new(model_id: String, config: OpenAIConfig) -> (m: Self)
        ensures
            m.model_id_spec() == model_id@,
            m.config_spec() == config,
    {
        OpenAIModel { model_id, config }
    }

    /// The model id.
    pub closed spec fn model_id_spec(&self) -> Seq<char> {
        self.model_id@
    }

    /// The configuration.
    pub closed spec fn config_spec(&self) -> OpenAIConfig {
        self.config
    }

    /// The provider name of the configuration (e.g. `"groq"`).
    pub fn provider(&self) -> (s: &str)
        ensures
            s@ == self.config_spec().provider@,
    {
        self.config.provider.as_str()
    }

    /// The model id.
    pub fn model_id(&self) -> (s: &str)
        ensures
            s@ == self.model_id_spec(),
    {
        self.model_id.as_str()
    }

    /// The configuration.
    pub fn config(&self) -> (c: &OpenAIConfig)
        ensures
            *c == self.config_spec(),
    {
        &self.config
    }

    /// Request headers: the configuration's, then the per-call ones.
    pub fn build_headers(&self, extra: Option<&HeaderMap>) -> (h: HeaderMap)
        ensures
            h@ == openai_auth_headers(self.config_spec()).union_prefer_right(opt_headers_ref(extra)),
    {
        openai_request_headers(&self.config, extra)
    }

    /// `{base_url}/chat/completions`.
    pub fn endpoint(&self) -> (r: String)
        ensures
            r@ == self.config_spec().base_url@ + "/chat/completions"@,
    {
        endpoint_url(self.config.base_url.as_str(), "/chat/completions")
    }
}

} // verus!
