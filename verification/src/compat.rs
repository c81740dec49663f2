//! Thin OpenAI-compatible providers: a base URL, a key variable and the
//! full profile, everything else shared with the OpenAI provider.

use vstd::prelude::*;

use crate::env::{load_api_key, missing_key_message, Environment};
use crate::error::AiMuxError;
use crate::openai::model::OpenAIModel;
use crate::openai::{OpenAICompatProfile, OpenAIConfig, OpenAIProvider, config_equiv};
use crate::text::without_trailing_slash_spec;

verus! {

/// A configuration for the OpenAI-compatible endpoint `base_url` of
/// `provider`, with the full profile and no other settings.
pub open spec fn compat_config_spec(c: OpenAIConfig, api_key: Seq<char>, base_url: Seq<char>, provider: Seq<char>) -> bool {
    &&& c.api_key@ == api_key
    &&& c.base_url@ == without_trailing_slash_spec(base_url)
    &&& c.provider@ == provider
    &&& c.profile.supports_top_k && c.profile.supports_tools && c.profile.supports_response_format
    &&& c.profile.stream_usage_key is None && c.profile.max_tokens_key is None
    &&& c.org_id is None && c.project is None && c.headers is None && c.body_overrides is None
    &&& c.retry_config.max_retries == 2
}

/// The configuration of an OpenAI-compatible endpoint with the full profile.
pub fn compat_config(api_key: String, base_url: &str, provider: &str) -> (c: OpenAIConfig)
    ensures
        compat_config_spec(c, api_key@, base_url@, provider@),
{
    OpenAIConfig::new(api_key).with_base_url(base_url).with_provider(String::from_str(provider)).with_profile(
        OpenAICompatProfile::full(),
    )
}

/// Configuration of the openrouter provider.
#[derive(Debug)]
pub struct OpenRouterConfig(OpenAIConfig);

impl OpenRouterConfig {
    /// The wrapped configuration.
    pub closed spec fn inner(&self) -> OpenAIConfig {
        self.0
    }

    /// A configuration with the default base URL.
    pub fn new(api_key: String) -> (c: Self)
        ensures
            compat_config_spec(c.inner(), api_key@, "https://openrouter.ai/api/v1"@, "openrouter"@),
    {
        OpenRouterConfig(compat_config(api_key, "https://openrouter.ai/api/v1", "openrouter"))
    }

    /// A configuration with the key from `OPENROUTER_API_KEY`.
    pub fn from_env(env: &Environment) -> (r: Result<Self, AiMuxError>)
        ensures
            match r {
                Ok(c) => env@.dom().contains("OPENROUTER_API_KEY"@) && compat_config_spec(
                    c.inner(),
                    env@["OPENROUTER_API_KEY"@],
                    "https://openrouter.ai/api/v1"@,
                    "openrouter"@,
                ),
                Err(e) => !env@.dom().contains("OPENROUTER_API_KEY"@) && (e matches AiMuxError::InvalidArgument(m)
                    && m@ == missing_key_message("OPENROUTER_API_KEY"@, "OpenRouter"@)),
            },
    {
        match load_api_key(None, "OPENROUTER_API_KEY", "OpenRouter", env) {
            Ok(k) => Ok(Self::new(k)),
            Err(e) => Err(e),
        }
    }

    /// Uses a custom base URL (one trailing `/` removed).
    pub fn with_base_url(self, url: &str) -> (c: Self)
        ensures
            c.inner() == (OpenAIConfig { base_url: c.inner().base_url, ..self.inner() }),
            c.inner().base_url@ == without_trailing_slash_spec(url@),
    {
        OpenRouterConfig(self.0.with_base_url(url))
    }
}

/// The openrouter provider: creates OpenAI-compatible chat models.
#[derive(Debug)]
pub struct OpenRouterProvider(OpenAIProvider);

impl OpenRouterProvider {
    pub fn new(config: OpenRouterConfig) -> (p: Self)
        ensures
            p.config() == config.inner(),
    {
        OpenRouterProvider(OpenAIProvider::new(config.0))
    }

    /// The configuration.
    pub closed spec fn config(&self) -> OpenAIConfig {
        self.0.config()
    }

    /// The provider name.
    pub fn name(&self) -> (s: &str)
        ensures
            s@ == "openrouter"@,
    {
        "openrouter"
    }

    /// A chat model.
    pub fn model(&self, model_id: &str) -> (m: OpenAIModel)
        ensures
            m.model_id_spec() == model_id@,
            config_equiv(m.config_spec(), self.config()),
    {
        self.0.model(model_id)
    }
}

/// Configuration of the siliconflow provider.
#[derive(Debug)]
pub struct SiliconFlowConfig(OpenAIConfig);

impl SiliconFlowConfig {
    /// The wrapped configuration.
    pub closed spec fn inner(&self) -> OpenAIConfig {
        self.0
    }

    /// A configuration with the default base URL.
    pub fn new(api_key: String) -> (c: Self)
        ensures
            compat_config_spec(c.inner(), api_key@, "https://api.siliconflow.cn/v1"@, "siliconflow"@),
    {
        SiliconFlowConfig(compat_config(api_key, "https://api.siliconflow.cn/v1", "siliconflow"))
    }

    /// A configuration with the key from `SILICONFLOW_API_KEY`.
    pub fn from_env(env: &Environment) -> (r: Result<Self, AiMuxError>)
        ensures
            match r {
                Ok(c) => env@.dom().contains("SILICONFLOW_API_KEY"@) && compat_config_spec(
                    c.inner(),
                    env@["SILICONFLOW_API_KEY"@],
                    "https://api.siliconflow.cn/v1"@,
                    "siliconflow"@,
                ),
                Err(e) => !env@.dom().contains("SILICONFLOW_API_KEY"@) && (e matches AiMuxError::InvalidArgument(m)
                    && m@ == missing_key_message("SILICONFLOW_API_KEY"@, "SiliconFlow"@)),
            },
    {
        match load_api_key(None, "SILICONFLOW_API_KEY", "SiliconFlow", env) {
            Ok(k) => Ok(Self::new(k)),
            Err(e) => Err(e),
        }
    }

    /// Uses a custom base URL (one trailing `/` removed).
    pub fn with_base_url(self, url: &str) -> (c: Self)
        ensures
            c.inner() == (OpenAIConfig { base_url: c.inner().base_url, ..self.inner() }),
            c.inner().base_url@ == without_trailing_slash_spec(url@),
    {
        SiliconFlowConfig(self.0.with_base_url(url))
    }
}

/// The siliconflow provider: creates OpenAI-compatible chat models.
#[derive(Debug)]
pub struct SiliconFlowProvider(OpenAIProvider);

impl SiliconFlowProvider {
    pub fn new(config: SiliconFlowConfig) -> (p: Self)
        ensures
            p.config() == config.inner(),
    {
        SiliconFlowProvider(OpenAIProvider::new(config.0))
    }

    /// The configuration.
    pub closed spec fn config(&self) -> OpenAIConfig {
        self.0.config()
    }

    /// The provider name.
    pub fn name(&self) -> (s: &str)
        ensures
            s@ == "siliconflow"@,
    {
        "siliconflow"
    }

    /// A chat model.
    pub fn model(&self, model_id: &str) -> (m: OpenAIModel)
        ensures
            m.model_id_spec() == model_id@,
            config_equiv(m.config_spec(), self.config()),
    {
        self.0.model(model_id)
    }
}

/// Configuration of the snowflake provider.
#[derive(Debug)]
pub struct SnowflakeConfig(OpenAIConfig);

impl SnowflakeConfig {
    /// The wrapped configuration.
    pub closed spec fn inner(&self) -> OpenAIConfig {
        self.0
    }

    /// A configuration with the default base URL.
    pub fn new(api_key: String) -> (c: Self)
        ensures
            compat_config_spec(c.inner(), api_key@, "https://<account-identifier>.snowflakecomputing.com/api/v2/cortex/v1"@, "snowflake"@),
    {
        SnowflakeConfig(compat_config(api_key, "https://<account-identifier>.snowflakecomputing.com/api/v2/cortex/v1", "snowflake"))
    }

    /// A configuration with the key from `SNOWFLAKE_PAT`.
    pub fn from_env(env: &Environment) -> (r: Result<Self, AiMuxError>)
        ensures
            match r {
                Ok(c) => env@.dom().contains("SNOWFLAKE_PAT"@) && compat_config_spec(
                    c.inner(),
                    env@["SNOWFLAKE_PAT"@],
                    "https://<account-identifier>.snowflakecomputing.com/api/v2/cortex/v1"@,
                    "snowflake"@,
                ),
                Err(e) => !env@.dom().contains("SNOWFLAKE_PAT"@) && (e matches AiMuxError::InvalidArgument(m)
                    && m@ == missing_key_message("SNOWFLAKE_PAT"@, "Snowflake"@)),
            },
    {
        match load_api_key(None, "SNOWFLAKE_PAT", "Snowflake", env) {
            Ok(k) => Ok(Self::new(k)),
            Err(e) => Err(e),
        }
    }

    /// Uses a custom base URL (one trailing `/` removed).
    pub fn with_base_url(self, url: &str) -> (c: Self)
        ensures
            c.inner() == (OpenAIConfig { base_url: c.inner().base_url, ..self.inner() }),
            c.inner().base_url@ == without_trailing_slash_spec(url@),
    {
        SnowflakeConfig(self.0.with_base_url(url))
    }
}

/// The snowflake provider: creates OpenAI-compatible chat models.
#[derive(Debug)]
pub struct SnowflakeProvider(OpenAIProvider);

impl SnowflakeProvider {
    pub fn new(config: SnowflakeConfig) -> (p: Self)
        ensures
            p.config() == config.inner(),
    {
        SnowflakeProvider(OpenAIProvider::new(config.0))
    }

    /// The configuration.
    pub closed spec fn config(&self) -> OpenAIConfig {
        self.0.config()
    }

    /// The provider name.
    pub fn name(&self) -> (s: &str)
        ensures
            s@ == "snowflake"@,
    {
        "snowflake"
    }

    /// A chat model.
    pub fn model(&self, model_id: &str) -> (m: OpenAIModel)
        ensures
            m.model_id_spec() == model_id@,
            config_equiv(m.config_spec(), self.config()),
    {
        self.0.model(model_id)
    }
}

/// Configuration of the tencent provider.
#[derive(Debug)]
pub struct TencentConfig(OpenAIConfig);

impl TencentConfig {
    /// The wrapped configuration.
    pub closed spec fn inner(&self) -> OpenAIConfig {
        self.0
    }

    /// A configuration with the default base URL.
    pub fn new(api_key: String) -> (c: Self)
        ensures
            compat_config_spec(c.inner(), api_key@, "https://api.hunyuan.cloud.tencent.com/v1"@, "tencent"@),
    {
        TencentConfig(compat_config(api_key, "https://api.hunyuan.cloud.tencent.com/v1", "tencent"))
    }

    /// A configuration with the key from `TENCENT_API_KEY`.
    pub fn from_env(env: &Environment) -> (r: Result<Self, AiMuxError>)
        ensures
            match r {
                Ok(c) => env@.dom().contains("TENCENT_API_KEY"@) && compat_config_spec(
                    c.inner(),
                    env@["TENCENT_API_KEY"@],
                    "https://api.hunyuan.cloud.tencent.com/v1"@,
                    "tencent"@,
                ),
                Err(e) => !env@.dom().contains("TENCENT_API_KEY"@) && (e matches AiMuxError::InvalidArgument(m)
                    && m@ == missing_key_message("TENCENT_API_KEY"@, "Tencent (混元/Hunyuan)"@)),
            },
    {
        match load_api_key(None, "TENCENT_API_KEY", "Tencent (混元/Hunyuan)", env) {
            Ok(k) => Ok(Self::new(k)),
            Err(e) => Err(e),
        }
    }

    /// Uses a custom base URL (one trailing `/` removed).
    pub fn with_base_url(self, url: &str) -> (c: Self)
        ensures
            c.inner() == (OpenAIConfig { base_url: c.inner().base_url, ..self.inner() }),
            c.inner().base_url@ == without_trailing_slash_spec(url@),
    {
        TencentConfig(self.0.with_base_url(url))
    }
}

/// The tencent provider: creates OpenAI-compatible chat models.
#[derive(Debug)]
pub struct TencentProvider(OpenAIProvider);

impl TencentProvider {
    pub fn new(config: TencentConfig) -> (p: Self)
        ensures
            p.config() == config.inner(),
    {
        TencentProvider(OpenAIProvider::new(config.0))
    }

    /// The configuration.
    pub closed spec fn config(&self) -> OpenAIConfig {
        self.0.config()
    }

    /// The provider name.
    pub fn name(&self) -> (s: &str)
        ensures
            s@ == "tencent"@,
    {
        "tencent"
    }

    /// A chat model.
    pub fn model(&self, model_id: &str) -> (m: OpenAIModel)
        ensures
            m.model_id_spec() == model_id@,
            config_equiv(m.config_spec(), self.config()),
    {
        self.0.model(model_id)
    }
}

/// Configuration of the togetherai provider.
#[derive(Debug)]
pub struct TogetherAIConfig(OpenAIConfig);

impl TogetherAIConfig {
    /// The wrapped configuration.
    pub closed spec fn inner(&self) -> OpenAIConfig {
        self.0
    }

    /// A configuration with the default base URL.
    pub fn new(api_key: String) -> (c: Self)
        ensures
            compat_config_spec(c.inner(), api_key@, "https://api.together.xyz/v1"@, "togetherai"@),
    {
        TogetherAIConfig(compat_config(api_key, "https://api.together.xyz/v1", "togetherai"))
    }

    /// A configuration with the key from `TOGETHER_API_KEY`.
    pub fn from_env(env: &Environment) -> (r: Result<Self, AiMuxError>)
        ensures
            match r {
                Ok(c) => env@.dom().contains("TOGETHER_API_KEY"@) && compat_config_spec(
                    c.inner(),
                    env@["TOGETHER_API_KEY"@],
                    "https://api.together.xyz/v1"@,
                    "togetherai"@,
                ),
                Err(e) => !env@.dom().contains("TOGETHER_API_KEY"@) && (e matches AiMuxError::InvalidArgument(m)
                    && m@ == missing_key_message("TOGETHER_API_KEY"@, "Together AI"@)),
            },
    {
        match load_api_key(None, "TOGETHER_API_KEY", "Together AI", env) {
            Ok(k) => Ok(Self::new(k)),
            Err(e) => Err(e),
        }
    }

    /// Uses a custom base URL (one trailing `/` removed).
    pub fn with_base_url(self, url: &str) -> (c: Self)
        ensures
            c.inner() == (OpenAIConfig { base_url: c.inner().base_url, ..self.inner() }),
            c.inner().base_url@ == without_trailing_slash_spec(url@),
    {
        TogetherAIConfig(self.0.with_base_url(url))
    }
}

/// The togetherai provider: creates OpenAI-compatible chat models.
#[derive(Debug)]
pub struct TogetherAIProvider(OpenAIProvider);

impl TogetherAIProvider {
    pub fn new(config: TogetherAIConfig) -> (p: Self)
        ensures
            p.config() == config.inner(),
    {
        TogetherAIProvider(OpenAIProvider::new(config.0))
    }

    /// The configuration.
    pub closed spec fn config(&self) -> OpenAIConfig {
        self.0.config()
    }

    /// The provider name.
    pub fn name(&self) -> (s: &str)
        ensures
            s@ == "togetherai"@,
    {
        "togetherai"
    }

    /// A chat model.
    pub fn model(&self, model_id: &str) -> (m: OpenAIModel)
        ensures
            m.model_id_spec() == model_id@,
            config_equiv(m.config_spec(), self.config()),
    {
        self.0.model(model_id)
    }
}

/// Configuration of the vercel provider.
#[derive(Debug)]
pub struct VercelConfig(OpenAIConfig);

impl VercelConfig {
    /// The wrapped configuration.
    pub closed spec fn inner(&self) -> OpenAIConfig {
        self.0
    }

    /// A configuration with the default base URL.
    pub fn new(api_key: String) -> (c: Self)
        ensures
            compat_config_spec(c.inner(), api_key@, "https://api.v0.dev/v1"@, "vercel"@),
    {
        VercelConfig(compat_config(api_key, "https://api.v0.dev/v1", "vercel"))
    }

    /// A configuration with the key from `VERCEL_API_KEY`.
    pub fn from_env(env: &Environment) -> (r: Result<Self, AiMuxError>)
        ensures
            match r {
                Ok(c) => env@.dom().contains("VERCEL_API_KEY"@) && compat_config_spec(
                    c.inner(),
                    env@["VERCEL_API_KEY"@],
                    "https://api.v0.dev/v1"@,
                    "vercel"@,
                ),
                Err(e) => !env@.dom().contains("VERCEL_API_KEY"@) && (e matches AiMuxError::InvalidArgument(m)
                    && m@ == missing_key_message("VERCEL_API_KEY"@, "Vercel"@)),
            },
    {
        match load_api_key(None, "VERCEL_API_KEY", "Vercel", env) {
            Ok(k) => Ok(Self::new(k)),
            Err(e) => Err(e),
        }
    }

    /// Uses a custom base URL (one trailing `/` removed).
    pub fn with_base_url(self, url: &str) -> (c: Self)
        ensures
            c.inner() == (OpenAIConfig { base_url: c.inner().base_url, ..self.inner() }),
            c.inner().base_url@ == without_trailing_slash_spec(url@),
    {
        VercelConfig(self.0.with_base_url(url))
    }
}

/// The vercel provider: creates OpenAI-compatible chat models.
#[derive(Debug)]
pub struct VercelProvider(OpenAIProvider);

impl VercelProvider {
    pub fn new(config: VercelConfig) -> (p: Self)
        ensures
            p.config() == config.inner(),
    {
        VercelProvider(OpenAIProvider::new(config.0))
    }

    /// The configuration.
    pub closed spec fn config(&self) -> OpenAIConfig {
        self.0.config()
    }

    /// The provider name.
    pub fn name(&self) -> (s: &str)
        ensures
            s@ == "vercel"@,
    {
        "vercel"
    }

    /// A chat model.
    pub fn model(&self, model_id: &str) -> (m: OpenAIModel)
        ensures
            m.model_id_spec() == model_id@,
            config_equiv(m.config_spec(), self.config()),
    {
        self.0.model(model_id)
    }
}

/// Configuration of the Meta Llama models served by Vertex AI as a service
/// (OpenAI-compatible).
#[derive(Debug)]
pub struct VertexAiLlamaModelsConfig(OpenAIConfig);

impl VertexAiLlamaModelsConfig {
    /// The wrapped configuration.
    pub closed spec fn inner(&self) -> OpenAIConfig {
        self.0
    }

    /// A configuration with an access token; the project and location come
    /// from `GOOGLE_VERTEX_PROJECT` and `GOOGLE_VERTEX_LOCATION`, defaulting
    /// to `your-project` and `global`.
    pub fn new(api_key: String, env: &Environment) -> (c: Self)
        ensures
            compat_config_spec(
                c.inner(),
                api_key@,
                crate::vertex::maas_base_url_spec(
                    if env@.dom().contains("GOOGLE_VERTEX_PROJECT"@) {
                        env@["GOOGLE_VERTEX_PROJECT"@]
                    } else {
                        "your-project"@
                    },
                    if env@.dom().contains("GOOGLE_VERTEX_LOCATION"@) {
                        env@["GOOGLE_VERTEX_LOCATION"@]
                    } else {
                        "global"@
                    },
                ),
                "vertex_ai_llama_models"@,
            ),
    {
        let project = match env.get("GOOGLE_VERTEX_PROJECT") {
            Some(p) => p,
            None => String::from_str("your-project"),
        };
        let location = match env.get("GOOGLE_VERTEX_LOCATION") {
            Some(l) => l,
            None => String::from_str("global"),
        };
        let url = crate::vertex::build_maas_base_url(project.as_str(), location.as_str());
        VertexAiLlamaModelsConfig(compat_config(api_key, url.as_str(), "vertex_ai_llama_models"))
    }

    /// A configuration from `GOOGLE_VERTEX_ACCESS_TOKEN` and
    /// `GOOGLE_VERTEX_PROJECT` (both required) and `GOOGLE_VERTEX_LOCATION`
    /// (default `global`).
    pub fn from_env(env: &Environment) -> (r: Result<Self, AiMuxError>)
        ensures
            if !env@.dom().contains("GOOGLE_VERTEX_ACCESS_TOKEN"@) {
                r matches Err(AiMuxError::InvalidArgument(m)) && m@
                    == "GOOGLE_VERTEX_ACCESS_TOKEN environment variable is required for Vertex AI MaaS"@
            } else if !env@.dom().contains("GOOGLE_VERTEX_PROJECT"@) {
                r matches Err(AiMuxError::InvalidArgument(m)) && m@
                    == "GOOGLE_VERTEX_PROJECT environment variable is required for Vertex AI MaaS"@
            } else {
                r matches Ok(c) && compat_config_spec(
                    c.inner(),
                    env@["GOOGLE_VERTEX_ACCESS_TOKEN"@],
                    crate::vertex::maas_base_url_spec(
                        env@["GOOGLE_VERTEX_PROJECT"@],
                        if env@.dom().contains("GOOGLE_VERTEX_LOCATION"@) {
                            env@["GOOGLE_VERTEX_LOCATION"@]
                        } else {
                            "global"@
                        },
                    ),
                    "vertex_ai_llama_models"@,
                )
            },
    {
        let token = match env.get("GOOGLE_VERTEX_ACCESS_TOKEN") {
            Some(t) => t,
            None => {
                return Err(
                    AiMuxError::InvalidArgument(
                        String::from_str("GOOGLE_VERTEX_ACCESS_TOKEN environment variable is required for Vertex AI MaaS"),
                    ),
                );
            },
        };
        let project = match env.get("GOOGLE_VERTEX_PROJECT") {
            Some(p) => p,
            None => {
                return Err(
                    AiMuxError::InvalidArgument(
                        String::from_str("GOOGLE_VERTEX_PROJECT environment variable is required for Vertex AI MaaS"),
                    ),
                );
            },
        };
        let location = match env.get("GOOGLE_VERTEX_LOCATION") {
            Some(l) => l,
            None => String::from_str("global"),
        };
        let url = crate::vertex::build_maas_base_url(project.as_str(), location.as_str());
        Ok(VertexAiLlamaModelsConfig(compat_config(token, url.as_str(), "vertex_ai_llama_models")))
    }

    /// Uses a custom base URL (one trailing `/` removed).
    pub fn with_base_url(self, url: &str) -> (c: Self)
        ensures
            c.inner() == (OpenAIConfig { base_url: c.inner().base_url, ..self.inner() }),
            c.inner().base_url@ == without_trailing_slash_spec(url@),
    {
        VertexAiLlamaModelsConfig(self.0.with_base_url(url))
    }
}

/// The Vertex AI Llama provider: creates OpenAI-compatible chat models.
#[derive(Debug)]
pub struct VertexAiLlamaModelsProvider(OpenAIProvider);

impl VertexAiLlamaModelsProvider {
    pub fn new(config: VertexAiLlamaModelsConfig) -> (p: Self)
        ensures
            p.config() == config.inner(),
    {
        VertexAiLlamaModelsProvider(OpenAIProvider::new(config.0))
    }

    /// The configuration.
    pub closed spec fn config(&self) -> OpenAIConfig {
        self.0.config()
    }

    /// The provider name.
    pub fn name(&self) -> (s: &str)
        ensures
            s@ == "vertex_ai_llama_models"@,
    {
        "vertex_ai_llama_models"
    }

    /// A chat model.
    pub fn model(&self, model_id: &str) -> (m: OpenAIModel)
        ensures
            m.model_id_spec() == model_id@,
            config_equiv(m.config_spec(), self.config()),
    {
        self.0.model(model_id)
    }
}

} // verus!
