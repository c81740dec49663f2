//! Rebuilding an OpenAI-compatible model from a recorded provider
//! configuration, for replaying recorded requests.
//!
//! Only the OpenAI-compatible family can be rebuilt this way; the recording
//! never stores the key itself, only where it came from.

use vstd::prelude::*;

use crate::env::Environment;
use crate::error::AiMuxError;
use crate::json::{json_get, opt_json_ref_view, opt_json_view, Json, JsonValue};
use crate::openai::model::OpenAIModel;
use crate::openai::{OpenAICompatProfile, OpenAIConfig, OpenAIProvider};
use crate::provider::{
    builtin_lookup, is_external_provider, opt_chars, opt_map, provider_registry_entry, ProviderOptions,
    ProviderRegistry,
};
use crate::text::{
    concat, concat3, debug_quoted, debug_str, is_prefix, str_eq, str_skip, str_starts_with, str_trim, trim_spec,
    without_trailing_slash_spec,
};

verus! {

/// A recorded provider configuration.
#[derive(Debug)]
pub struct ProviderRecord {
    pub provider: String,
    pub model_id: String,
    pub base_url: Option<String>,
    /// `explicit`, `env:VAR`, `none` or `unknown`.
    pub api_key_source: String,
    pub profile: Option<JsonValue>,
    pub provider_options: Option<JsonValue>,
}

/// Local and self-hosted servers whose providers wrap the OpenAI provider.
pub open spec fn is_thin_wrapper(name: Seq<char>) -> bool {
    name == "ollama"@ || name == "lmstudio"@ || name == "vllm"@ || name == "llamafile"@ || name == "mistralrs"@
        || name == "llamacpp"@ || name == "localai"@ || name == "local"@ || name == "mlx"@ || name == "omlx"@
        || name == "onnx"@ || name == "oobabooba"@ || name == "openvino"@ || name == "sglang"@ || name
        == "xinference"@ || name == "cybertron"@ || name == "docker_model_runner"@ || name == "gaudi"@ || name
        == "jlama"@ || name == "litellm_proxy"@ || name == "openrouter"@
}

fn thin_wrapper(name: &str) -> (b: bool)
    ensures
        b == is_thin_wrapper(name@),
{
    str_eq(name, "ollama") || str_eq(name, "lmstudio") || str_eq(name, "vllm") || str_eq(name, "llamafile")
        || str_eq(name, "mistralrs") || str_eq(name, "llamacpp") || str_eq(name, "localai") || str_eq(
        name,
        "local",
    ) || str_eq(name, "mlx") || str_eq(name, "omlx") || str_eq(name, "onnx") || str_eq(name, "oobabooba")
        || str_eq(name, "openvino") || str_eq(name, "sglang") || str_eq(name, "xinference") || str_eq(
        name,
        "cybertron",
    ) || str_eq(name, "docker_model_runner") || str_eq(name, "gaudi") || str_eq(name, "jlama") || str_eq(
        name,
        "litellm_proxy",
    ) || str_eq(name, "openrouter")
}

/// The local and self-hosted servers that wrap the OpenAI provider are all
/// rebuildable for replay, whatever the registry holds.
pub proof fn law_thin_wrappers_are_rebuildable(registry: ProviderRegistry, name: Seq<char>)
    requires
        name == "ollama"@ || name == "lmstudio"@ || name == "vllm"@ || name == "llamafile"@ || name
            == "mistralrs"@ || name == "llamacpp"@ || name == "localai"@ || name == "local"@ || name == "mlx"@
            || name == "omlx"@ || name == "onnx"@ || name == "oobabooba"@ || name == "openvino"@ || name
            == "sglang"@ || name == "xinference"@ || name == "cybertron"@ || name == "docker_model_runner"@
            || name == "gaudi"@ || name == "jlama"@ || name == "litellm_proxy"@ || name == "openrouter"@,
    ensures
        is_openai_compatible_spec(registry, name),
{
}

/// `openai` itself is always rebuildable.
pub proof fn law_openai_is_rebuildable(registry: ProviderRegistry)
    ensures
        is_openai_compatible_spec(registry, "openai"@),
{
}

/// The OpenAI-compatible family: `openai`, a built-in entry, a runtime
/// registration, or a thin wrapper.
pub open spec fn is_openai_compatible_spec(registry: ProviderRegistry, name: Seq<char>) -> bool {
    name == "openai"@ || builtin_lookup(registry.builtin_entries(), name) is Some
        || registry.overlay_entries().dom().contains(name) || is_thin_wrapper(name)
}

/// Whether a recorded provider name can be rebuilt.
pub fn is_openai_compatible_provider(registry: &ProviderRegistry, name: &str) -> (b: bool)
    ensures
        b == is_openai_compatible_spec(*registry, name@),
{
    if str_eq(name, "openai") {
        return true;
    }
    if provider_registry_entry(registry, name).is_some() {
        return true;
    }
    if is_external_provider(registry, name) {
        return true;
    }
    thin_wrapper(name)
}

/// A recorded boolean flag: its value when the profile holds a boolean of
/// that name, else `true`.
pub open spec fn flag_or_true(v: Json, key: Seq<char>) -> bool {
    match json_get(v, key) {
        Some(Json::Bool(b)) => b,
        _ => true,
    }
}

/// A recorded text field, when the profile holds a string of that name.
pub open spec fn text_field(v: Json, key: Seq<char>) -> Option<Seq<char>> {
    match json_get(v, key) {
        Some(Json::String(s)) => Some(s),
        _ => None,
    }
}

/// The profile restored from a recording: missing or mistyped fields fall
/// back to full capability and no keys.
pub open spec fn restored_profile(v: Option<Json>, p: OpenAICompatProfile) -> bool {
    match v {
        None => p.supports_top_k && p.supports_tools && p.supports_response_format && p.stream_usage_key is None
            && p.max_tokens_key is None,
        Some(j) => {
            &&& p.supports_top_k == flag_or_true(j, "supports_top_k"@)
            &&& p.supports_tools == flag_or_true(j, "supports_tools"@)
            &&& p.supports_response_format == flag_or_true(j, "supports_response_format"@)
            &&& opt_chars(p.stream_usage_key) == text_field(j, "stream_usage_key"@)
            &&& opt_chars(p.max_tokens_key) == text_field(j, "max_tokens_key"@)
        },
    }
}

fn flag(v: &JsonValue, key: &str) -> (b: bool)
    ensures
        b == flag_or_true(v@, key@),
{
    match v.get(key) {
        Some(f) => match f.as_bool() {
            Some(b) => b,
            None => true,
        },
        None => true,
    }
}

fn text(v: &JsonValue, key: &str) -> (r: Option<String>)
    ensures
        opt_chars(r) == text_field(v@, key@),
{
    match v.get(key) {
        Some(f) => match f.as_str() {
            Some(s) => Some(String::from_str(s)),
            None => None,
        },
        None => None,
    }
}

/// Restores a recorded profile.
pub fn profile_from_value(v: Option<&JsonValue>) -> (p: OpenAICompatProfile)
    ensures
        restored_profile(opt_json_ref_view(v), p),
{
    match v {
        None => OpenAICompatProfile::full(),
        Some(j) => OpenAICompatProfile {
            supports_top_k: flag(j, "supports_top_k"),
            supports_tools: flag(j, "supports_tools"),
            supports_response_format: flag(j, "supports_response_format"),
            stream_usage_key: text(j, "stream_usage_key"),
            max_tokens_key: text(j, "max_tokens_key"),
        },
    }
}

/// The outcome of resolving the key of a recording.
pub enum ReplayKey {
    Key(Seq<char>),
    Failed(Seq<char>),
}

/// Key resolution from the recorded source (trimmed): `env:VAR` reads
/// `VAR`; `explicit` needs the caller's key; `none` uses a placeholder;
/// anything else uses the caller's key when given.
pub open spec fn replay_key_spec(
    provider: Seq<char>,
    source_raw: Seq<char>,
    api_key: Option<Seq<char>>,
    env: Map<Seq<char>, Seq<char>>,
) -> ReplayKey {
    let source = trim_spec(source_raw);
    if is_prefix("env:"@, source) {
        let var = source.skip(4);
        if env.dom().contains(var) {
            ReplayKey::Key(env[var])
        } else {
            ReplayKey::Failed(
                "mock replay: env var '"@ + var + "' not set (needed to rebuild provider '"@ + provider + "')"@,
            )
        }
    } else if source == "explicit"@ {
        match api_key {
            Some(k) => ReplayKey::Key(k),
            None => ReplayKey::Failed(
                "mock replay: recording uses an explicit api key (not stored); pass api_key to rebuild_provider"@,
            ),
        }
    } else if source == "none"@ {
        ReplayKey::Key("not-needed"@)
    } else {
        match api_key {
            Some(k) => ReplayKey::Key(k),
            None => ReplayKey::Failed(
                "mock replay: no api key source for provider '"@ + provider + "' (api_key_source="@
                    + debug_quoted(source_raw)
                    + "); pass api_key or provide a model instance to replay_with_model"@,
            ),
        }
    }
}

/// An optional borrowed string by its characters.
pub open spec fn opt_str(o: Option<&str>) -> Option<Seq<char>> {
    match o {
        Some(s) => Some(s@),
        None => None,
    }
}

/// Resolves the key of a recording.
pub fn resolve_api_key(p: &ProviderRecord, api_key: Option<&str>, env: &Environment) -> (r: Result<String, AiMuxError>)
    ensures
        match replay_key_spec(p.provider@, p.api_key_source@, opt_str(api_key), env@) {
            ReplayKey::Key(k) => r matches Ok(s) && s@ == k,
            ReplayKey::Failed(m) => r matches Err(AiMuxError::InvalidArgument(t)) && t@ == m,
        },
{
    let source = str_trim(p.api_key_source.as_str());
    if str_starts_with(source.as_str(), "env:") {
        proof {
            reveal_strlit("env:");
        }
        let var = str_skip(source.as_str(), 4);
        return match env.get(var.as_str()) {
            Some(v) => Ok(v),
            None => {
                let a = concat3("mock replay: env var '", var.as_str(), "' not set (needed to rebuild provider '");
                Err(AiMuxError::InvalidArgument(concat3(a.as_str(), p.provider.as_str(), "')")))
            },
        };
    }
    if str_eq(source.as_str(), "explicit") {
        return match api_key {
            Some(k) => Ok(String::from_str(k)),
            None => Err(
                AiMuxError::InvalidArgument(
                    String::from_str(
                        "mock replay: recording uses an explicit api key (not stored); pass api_key to rebuild_provider",
                    ),
                ),
            ),
        };
    }
    if str_eq(source.as_str(), "none") {
        return Ok(String::from_str("not-needed"));
    }
    match api_key {
        Some(k) => Ok(String::from_str(k)),
        None => {
            let a = concat3("mock replay: no api key source for provider '", p.provider.as_str(), "' (api_key_source=");
            let d = debug_str(p.api_key_source.as_str());
            Err(
                AiMuxError::InvalidArgument(
                    concat3(
                        a.as_str(),
                        d.as_str(),
                        "); pass api_key or provide a model instance to replay_with_model",
                    ),
                ),
            )
        },
    }
}

/// The message for a recording outside the OpenAI-compatible family.
pub open spec fn unsupported_message(provider: Seq<char>) -> Seq<char> {
    "mock replay: rebuild_provider covers only the OpenAI-compatible family (recorded provider '"@ + provider
        + "'); pass a model instance to replay_with_model"@
}

/// The configuration rebuilt from a recording, its key and the parsed
/// provider options: the recorded name, profile and base URL, each option
/// overriding the recorded or default value.
pub open spec fn rebuilt_config(c: OpenAIConfig, p: ProviderRecord, key: Seq<char>, options: Option<ProviderOptions>) -> bool {
    let o = match options {
        Some(o) => o,
        None => ProviderOptions {
            base_url: None,
            headers: None,
            organization: None,
            project: None,
            max_retries: None,
            body_overrides: None,
        },
    };
    &&& c.api_key@ == key
    &&& c.provider == p.provider
    &&& restored_profile(opt_json_view(p.profile), c.profile)
    &&& c.base_url@ == match o.base_url {
        Some(u) => without_trailing_slash_spec(u@),
        None => match p.base_url {
            Some(b) => without_trailing_slash_spec(b@),
            None => "https://api.openai.com/v1"@,
        },
    }
    &&& opt_map(c.headers) == opt_map(o.headers)
    &&& opt_chars(c.org_id) == opt_chars(o.organization)
    &&& opt_chars(c.project) == opt_chars(o.project)
    &&& c.retry_config.max_retries == match o.max_retries {
        Some(n) => n,
        None => 2,
    }
    &&& opt_json_view(c.body_overrides) == opt_json_view(o.body_overrides)
}

/// Rebuilds the model of a recording. `options` are the recording's
/// provider options as parsed by the caller (none when absent or not of
/// that shape).
pub fn rebuild_provider(
    registry: &ProviderRegistry,
    p: &ProviderRecord,
    api_key: Option<&str>,
    options: Option<ProviderOptions>,
    env: &Environment,
) -> (r: Result<OpenAIModel, AiMuxError>)
    ensures
        if !is_openai_compatible_spec(*registry, p.provider@) {
            r matches Err(AiMuxError::UnsupportedFunctionality(m)) && m@ == unsupported_message(p.provider@)
        } else if p.model_id@.len() == 0 {
            r matches Err(AiMuxError::InvalidArgument(m)) && m@
                == "mock replay: provider record has empty model_id"@
        } else {
            match replay_key_spec(p.provider@, p.api_key_source@, opt_str(api_key), env@) {
                ReplayKey::Failed(msg) => r matches Err(AiMuxError::InvalidArgument(m)) && m@ == msg,
                ReplayKey::Key(k) => r matches Ok(model) && model.model_id_spec() == p.model_id@
                    && rebuilt_config(model.config_spec(), *p, k, options),
            }
        },
{
    if !is_openai_compatible_provider(registry, p.provider.as_str()) {
        let a = concat3(
            "mock replay: rebuild_provider covers only the OpenAI-compatible family (recorded provider '",
            p.provider.as_str(),
            "'); pass a model instance to replay_with_model",
        );
        return Err(AiMuxError::UnsupportedFunctionality(a));
    }
    if p.model_id.unicode_len() == 0 {
        return Err(AiMuxError::InvalidArgument(String::from_str("mock replay: provider record has empty model_id")));
    }
    let key = match resolve_api_key(p, api_key, env) {
        Ok(k) => k,
        Err(e) => {
            return Err(e);
        },
    };
    let mut config = OpenAIConfig::new(key).with_provider(p.provider.clone()).with_profile(
        profile_from_value(p.profile.as_ref()),
    );
    match &p.base_url {
        Some(b) => {
            config = config.with_base_url(b.as_str());
        },
        None => {},
    }
    match options {
        Some(opts) => {
            let ProviderOptions { base_url, headers, organization, project, max_retries, body_overrides } =
                opts;
            match base_url {
                Some(u) => {
                    config = config.with_base_url(u.as_str());
                },
                None => {},
            }
            match headers {
                Some(h) => {
                    config = config.with_headers(h);
                },
                None => {},
            }
            match organization {
                Some(o) => {
                    config = config.with_org_id(o);
                },
                None => {},
            }
            match project {
                Some(pr) => {
                    config = config.with_project(pr);
                },
                None => {},
            }
            match max_retries {
                Some(n) => {
                    config.retry_config.max_retries = n;
                },
                None => {},
            }
            match body_overrides {
                Some(b) => {
                    config = config.with_body_overrides(b);
                },
                None => {},
            }
        },
        None => {},
    }
    Ok(OpenAIProvider::new(config).into_model(p.model_id.as_str()))
}

} // verus!
