//! OpenAI-compatible provider: configuration, provider and models.
//!
//! Works with any OpenAI-compatible endpoint; a profile describes the
//! differences between vendors.

pub mod convert;
pub mod convert_common;
pub mod model;
pub mod image;
pub mod files;
pub mod speech;
pub mod transcription;
pub mod embedding;
pub mod responses;
pub mod responses_input;
pub mod responses_body;
pub mod types;
pub mod usage;
pub mod request;
pub mod tools;
pub mod messages;
pub mod body;
pub mod stream;
pub mod generate;

use vstd::prelude::*;

use crate::headers::HeaderMap;
use crate::json::JsonValue;
use crate::retry::RetryConfig;
use crate::text::{without_trailing_slash, without_trailing_slash_spec};

verus! {

/// The differences of an OpenAI-compatible vendor.
#[derive(Debug)]
pub struct OpenAICompatProfile {
    /// Whether `top_k` is sent.
    pub supports_top_k: bool,
    /// Whether `tools` / `tool_choice` are sent.
    pub supports_tools: bool,
    /// Whether `response_format` is sent.
    pub supports_response_format: bool,
    /// Key under which streamed usage arrives (`None`: top-level `usage`).
    pub stream_usage_key: Option<String>,
    /// Key of the max-token field (`None`: inferred from the model).
    pub max_tokens_key: Option<String>,
}

/// A copy of an optional string.
pub fn copy_opt_string(s: &Option<String>) -> (r: Option<String>)
    ensures
        r == *s,
{
    match s {
        Some(v) => Some(v.clone()),
        None => None,
    }
}

impl OpenAICompatProfile {
    /// Every capability supported, no special keys.
    pub fn full() -> (p: Self)
        ensures
            p.supports_top_k && p.supports_tools && p.supports_response_format,
            p.stream_usage_key is None,
            p.max_tokens_key is None,
    {
        OpenAICompatProfile {
            supports_top_k: true,
            supports_tools: true,
            supports_response_format: true,
            stream_usage_key: None,
            max_tokens_key: None,
        }
    }

    /// Groq: no `top_k`, streamed usage under `x_groq`, only
    /// `max_completion_tokens`.
    pub fn groq() -> (p: Self)
        ensures
            !p.supports_top_k && p.supports_tools && p.supports_response_format,
            p.stream_usage_key matches Some(k) && k@ == "x_groq"@,
            p.max_tokens_key matches Some(k) && k@ == "max_completion_tokens"@,
    {
        OpenAICompatProfile {
            supports_top_k: false,
            supports_tools: true,
            supports_response_format: true,
            stream_usage_key: Some(String::from_str("x_groq")),
            max_tokens_key: Some(String::from_str("max_completion_tokens")),
        }
    }

    /// Sets the max-token key.
    pub fn with_max_tokens_key(self, key: &str) -> (p: Self)
        ensures
            p.supports_top_k == self.supports_top_k,
            p.supports_tools == self.supports_tools,
            p.supports_response_format == self.supports_response_format,
            p.stream_usage_key == self.stream_usage_key,
            p.max_tokens_key matches Some(k) && k@ == key@,
    {
        OpenAICompatProfile { max_tokens_key: Some(String::from_str(key)), ..self }
    }

    /// DeepSeek: the full profile.
    pub fn deepseek() -> (p: Self)
        ensures
            p.supports_top_k && p.supports_tools && p.supports_response_format,
            p.stream_usage_key is None,
            p.max_tokens_key is None,
    {
        Self::full()
    }

    /// A copy of the profile.
    pub fn copy(&self) -> (p: Self)
        ensures
            p == *self,
    {
        OpenAICompatProfile {
            supports_top_k: self.supports_top_k,
            supports_tools: self.supports_tools,
            supports_response_format: self.supports_response_format,
            stream_usage_key: copy_opt_string(&self.stream_usage_key),
            max_tokens_key: copy_opt_string(&self.max_tokens_key),
        }
    }
}

/// Configuration of an OpenAI-compatible provider.
#[derive(Debug)]
pub struct OpenAIConfig {
    pub api_key: String,
    pub base_url: String,
    pub org_id: Option<String>,
    /// Project id, sent as `OpenAI-Project`.
    pub project: Option<String>,
    /// Extra headers sent with every request.
    pub headers: Option<HeaderMap>,
    /// Provider name, reported by the models.
    pub provider: String,
    pub profile: OpenAICompatProfile,
    pub retry_config: RetryConfig,
    /// Provider-level request-body overrides.
    pub body_overrides: Option<JsonValue>,
    /// Where the API key came from (`explicit` or `env:VAR`), when known.
    pub api_key_source: Option<String>,
}

/// A copy of an optional header map.
pub fn copy_opt_headers(h: &Option<HeaderMap>) -> (r: Option<HeaderMap>)
    ensures
        crate::http::opt_headers(r) == crate::http::opt_headers(*h),
        r is Some <==> h is Some,
{
    match h {
        Some(m) => Some(m.clone()),
        None => None,
    }
}

/// Two configurations that agree on every field, the header maps and
/// body overrides by their values.
pub open spec fn config_equiv(a: OpenAIConfig, b: OpenAIConfig) -> bool {
    &&& a.api_key == b.api_key
    &&& a.base_url == b.base_url
    &&& a.org_id == b.org_id
    &&& a.project == b.project
    &&& crate::http::opt_headers(a.headers) == crate::http::opt_headers(b.headers)
    &&& (a.headers is Some <==> b.headers is Some)
    &&& a.provider == b.provider
    &&& a.profile == b.profile
    &&& a.retry_config == b.retry_config
    &&& crate::json::opt_json_view(a.body_overrides) == crate::json::opt_json_view(b.body_overrides)
    &&& a.api_key_source == b.api_key_source
}

impl OpenAIConfig {
    /// A configuration for the OpenAI API itself.
    pub fn new(api_key: String) -> (c: Self)
        ensures
            c.api_key == api_key,
            c.base_url@ == "https://api.openai.com/v1"@,
            c.org_id is None,
            c.project is None,
            c.headers is None,
            c.provider@ == "openai"@,
            c.profile.supports_top_k && c.profile.supports_tools && c.profile.supports_response_format,
            c.profile.stream_usage_key is None,
            c.profile.max_tokens_key is None,
            c.retry_config.max_retries == 2,
            c.body_overrides is None,
            c.api_key_source is None,
    {
        OpenAIConfig {
            api_key,
            base_url: String::from_str("https://api.openai.com/v1"),
            org_id: None,
            project: None,
            headers: None,
            provider: String::from_str("openai"),
            profile: OpenAICompatProfile::full(),
            retry_config: RetryConfig::default_config(),
            body_overrides: None,
            api_key_source: None,
        }
    }

    /// Uses a custom base URL (one trailing `/` removed).
    pub fn with_base_url(self, url: &str) -> (c: Self)
        ensures
            c.base_url@ == without_trailing_slash_spec(url@),
            c == (OpenAIConfig { base_url: c.base_url, ..self }),
    {
        OpenAIConfig { base_url: without_trailing_slash(url), ..self }
    }

    pub fn with_org_id(self, org_id: String) -> (c: Self)
        ensures
            c == (OpenAIConfig { org_id: Some(org_id), ..self }),
    {
        OpenAIConfig { org_id: Some(org_id), ..self }
    }

    /// Sets the project id.
    pub fn with_project(self, project: String) -> (c: Self)
        ensures
            c == (OpenAIConfig { project: Some(project), ..self }),
    {
        OpenAIConfig { project: Some(project), ..self }
    }

    /// Sets extra headers sent with every request.
    pub fn with_headers(self, headers: HeaderMap) -> (c: Self)
        ensures
            c == (OpenAIConfig { headers: Some(headers), ..self }),
    {
        OpenAIConfig { headers: Some(headers), ..self }
    }

    /// Sets the provider name.
    pub fn with_provider(self, provider: String) -> (c: Self)
        ensures
            c == (OpenAIConfig { provider: provider, ..self }),
    {
        OpenAIConfig { provider, ..self }
    }

    /// Sets the vendor profile.
    pub fn with_profile(self, profile: OpenAICompatProfile) -> (c: Self)
        ensures
            c == (OpenAIConfig { profile: profile, ..self }),
    {
        OpenAIConfig { profile, ..self }
    }

    /// Sets the retry settings.
    pub fn with_retry_config(self, config: RetryConfig) -> (c: Self)
        ensures
            c == (OpenAIConfig { retry_config: config, ..self }),
    {
        OpenAIConfig { retry_config: config, ..self }
    }

    /// Sets provider-level request-body overrides.
    pub fn with_body_overrides(self, overrides: JsonValue) -> (c: Self)
        ensures
            c == (OpenAIConfig { body_overrides: Some(overrides), ..self }),
    {
        OpenAIConfig { body_overrides: Some(overrides), ..self }
    }

    /// Records where the API key came from.
    pub fn with_api_key_source(self, source: Option<&str>) -> (c: Self)
        ensures
            c == (OpenAIConfig {
                api_key_source: match source {
                    Some(s) => Some(c.api_key_source.unwrap()),
                    None => None,
                },
                ..self
            }),
            match source {
                Some(s) => c.api_key_source matches Some(t) && t@ == s@,
                None => c.api_key_source is None,
            },
    {
        let api_key_source = match source {
            Some(s) => Some(String::from_str(s)),
            None => None,
        };
        OpenAIConfig { api_key_source, ..self }
    }

    /// A copy of the configuration.
    pub fn copy(&self) -> (c: Self)
        ensures
            config_equiv(c, *self),
    {
        OpenAIConfig {
            api_key: self.api_key.clone(),
            base_url: self.base_url.clone(),
            org_id: copy_opt_string(&self.org_id),
            project: copy_opt_string(&self.project),
            headers: copy_opt_headers(&self.headers),
            provider: self.provider.clone(),
            profile: self.profile.copy(),
            retry_config: self.retry_config,
            body_overrides: crate::json::copy_opt_json(&self.body_overrides),
            api_key_source: copy_opt_string(&self.api_key_source),
        }
    }
}

/// The OpenAI provider: creates models that share one configuration.
#[derive(Debug)]
pub struct OpenAIProvider {
    config: OpenAIConfig,
}

impl OpenAIProvider {
    pub fn new(config: OpenAIConfig) -> (p: Self)
        ensures
            p.config() == config,
    {
        OpenAIProvider { config }
    }

    /// The configuration.
    pub closed spec fn config(&self) -> OpenAIConfig {
        self.config
    }

    /// The provider name.
    pub fn name(&self) -> (s: &str)
        ensures
            s@ == "openai"@,
    {
        "openai"
    }

    /// A chat-completions model.
    pub fn model(&self, model_id: &str) -> (m: model::OpenAIModel)
        ensures
            m.model_id_spec() == model_id@,
            config_equiv(m.config_spec(), self.config()),
    {
        model::OpenAIModel::new(String::from_str(model_id), self.config.copy())
    }

    /// A chat-completions model that takes over the configuration.
    pub fn into_model(self, model_id: &str) -> (m: model::OpenAIModel)
        ensures
            m.model_id_spec() == model_id@,
            m.config_spec() == self.config(),
    {
        model::OpenAIModel::new(String::from_str(model_id), self.config)
    }

    /// A Responses-API model.
    pub fn responses_model(&self, model_id: &str) -> (m: responses::OpenAIResponsesModel)
        ensures
            m.model_id_spec() == model_id@,
            config_equiv(m.config_spec(), self.config()),
    {
        responses::OpenAIResponsesModel::new(String::from_str(model_id), self.config.copy())
    }

    /// The Files interface.
    pub fn files(&self) -> (f: files::OpenAIFiles)
        ensures
            config_equiv(f.config_spec(), self.config()),
    {
        files::OpenAIFiles::new(self.config.copy())
    }

    /// An embedding model.
    pub fn embedding_model(&self, model_id: &str) -> (m: embedding::OpenAIEmbeddingModel)
        ensures
            m.model_id_spec() == model_id@,
            config_equiv(m.config_spec(), self.config()),
    {
        embedding::OpenAIEmbeddingModel::new(String::from_str(model_id), self.config.copy())
    }

    /// A speech (text-to-speech) model.
    pub fn speech(&self, model_id: &str) -> (m: speech::OpenAISpeechModel)
        ensures
            m.model_id_spec() == model_id@,
            config_equiv(m.config_spec(), self.config()),
    {
        speech::OpenAISpeechModel::new(String::from_str(model_id), self.config.copy())
    }

    /// An image generation model.
    pub fn image(&self, model_id: &str) -> (m: image::OpenAIImageModel)
        ensures
            m.model_id_spec() == model_id@,
            config_equiv(m.config_spec(), self.config()),
    {
        image::OpenAIImageModel::new(String::from_str(model_id), self.config.copy())
    }

    /// A transcription (speech-to-text) model.
    pub fn transcription(&self, model_id: &str) -> (m: transcription::OpenAITranscriptionModel)
        ensures
            m.model_id_spec() == model_id@,
            config_equiv(m.config_spec(), self.config()),
    {
        transcription::OpenAITranscriptionModel::new(String::from_str(model_id), self.config.copy())
    }
}

} // verus!
