//! Recraft image provider.

use vstd::prelude::*;

use crate::env::{load_api_key, missing_key_message, Environment};
use crate::error::AiMuxError;
use crate::headers::HeaderMap;
use crate::http::{bearer, bearer_value, layer_headers, opt_headers, opt_headers_ref, single_header};
use crate::openai::copy_opt_headers;
use crate::text::{concat, without_trailing_slash, without_trailing_slash_spec};

verus! {

/// Configuration of the Recraft provider.
#[derive(Debug)]
pub struct RecraftConfig {
    pub api_key: String,
    pub base_url: String,
    /// Extra headers sent with every request.
    pub headers: Option<HeaderMap>,
}

impl RecraftConfig {
    /// A configuration with the default base URL.
    pub fn new(api_key: String) -> (c: Self)
        ensures
            c.api_key == api_key,
            c.base_url@ == "https://external.api.recraft.ai/v1"@,
            c.headers is None,
    {
        RecraftConfig {
            api_key,
            base_url: String::from_str("https://external.api.recraft.ai/v1"),
            headers: None,
        }
    }

    /// Uses a custom base URL (one trailing `/` removed).
    pub fn with_base_url(self, url: &str) -> (c: Self)
        ensures
            c.base_url@ == without_trailing_slash_spec(url@),
            c == (RecraftConfig { base_url: c.base_url, ..self }),
    {
        RecraftConfig { base_url: without_trailing_slash(url), ..self }
    }

    /// Sets extra headers sent with every request.
    pub fn with_headers(self, headers: HeaderMap) -> (c: Self)
        ensures
            c == (RecraftConfig { headers: Some(headers), ..self }),
    {
        RecraftConfig { headers: Some(headers), ..self }
    }

    /// A configuration with the key from `RECRAFT_API_TOKEN`.
    pub fn from_env(env: &Environment) -> (r: Result<Self, AiMuxError>)
        ensures
            match r {
                Ok(c) => env@.dom().contains("RECRAFT_API_TOKEN"@) && {
                    &&& c.api_key@ == env@["RECRAFT_API_TOKEN"@]
                    &&& c.base_url@ == "https://external.api.recraft.ai/v1"@
                    &&& c.headers is None
                },
                Err(e) => !env@.dom().contains("RECRAFT_API_TOKEN"@) && (e matches AiMuxError::InvalidArgument(m)
                    && m@ == missing_key_message("RECRAFT_API_TOKEN"@, "Recraft"@)),
            },
    {
        match load_api_key(None, "RECRAFT_API_TOKEN", "Recraft", env) {
            Ok(k) => Ok(Self::new(k)),
            Err(e) => Err(e),
        }
    }
}

/// Two configurations that agree field by field (header maps by value).
pub open spec fn config_copy(a: RecraftConfig, b: RecraftConfig) -> bool {
    a.api_key == b.api_key
        && a.base_url == b.base_url
        && opt_headers(a.headers) == opt_headers(b.headers)
        && (a.headers is Some <==> b.headers is Some)
}

impl RecraftConfig {
    /// A copy of the configuration.
    pub fn copy(&self) -> (c: Self)
        ensures
            config_copy(c, *self),
    {
        RecraftConfig {
            api_key: self.api_key.clone(),
            base_url: self.base_url.clone(),
            headers: copy_opt_headers(&self.headers),
        }
    }
}

/// The provider: creates models that share one configuration.
#[derive(Debug)]
pub struct RecraftProvider {
    config: RecraftConfig,
}

impl RecraftProvider {
    pub fn new(config: RecraftConfig) -> (p: Self)
        ensures
            p.config() == config,
    {
        RecraftProvider { config }
    }

    /// The configuration.
    pub closed spec fn config(&self) -> RecraftConfig {
        self.config
    }

    /// The provider name.
    pub fn name(&self) -> (s: &str)
        ensures
            s@ == "recraft"@,
    {
        "recraft"
    }

    /// An image generation model.
    pub fn image(&self, model_id: &str) -> (m: RecraftImageModel)
        ensures
            m.model_id_spec() == model_id@,
            config_copy(m.config_spec(), self.config()),
    {
        RecraftImageModel::new(String::from_str(model_id), self.config.copy())
    }
}

/// A Recraft image generation model.
#[derive(Debug)]
pub struct RecraftImageModel {
    model_id: String,
    config: RecraftConfig,
}

impl RecraftImageModel {
    pub fn new(model_id: String, config: RecraftConfig) -> (m: Self)
        ensures
            m.model_id_spec() == model_id@,
            m.config_spec() == config,
    {
        RecraftImageModel { model_id, config }
    }

    /// The model id.
    pub closed spec fn model_id_spec(&self) -> Seq<char> {
        self.model_id@
    }

    /// The configuration.
    pub closed spec fn config_spec(&self) -> RecraftConfig {
        self.config
    }

    /// The provider name.
    pub fn provider(&self) -> (s: &str)
        ensures
            s@ == "recraft"@,
    {
        "recraft"
    }

    /// The model id.
    pub fn model_id(&self) -> (s: &str)
        ensures
            s@ == self.model_id_spec(),
    {
        self.model_id.as_str()
    }

    /// At most 1 per call.
    pub fn max_images_per_call(&self) -> (n: Option<u32>)
        ensures
            n == Some(1u32),
    {
        Some(1)
    }

    /// Request headers: `Authorization: Bearer <key>`, the configured headers, then the per-call ones.
    pub fn build_headers(&self, extra: Option<&HeaderMap>) -> (h: HeaderMap)
        ensures
            h@ == Map::<Seq<char>, Seq<char>>::empty().insert("Authorization"@, "Bearer "@ + self.config_spec().api_key@).union_prefer_right(opt_headers(self.config_spec().headers)).union_prefer_right(opt_headers_ref(extra)),
    {
        let base = single_header("Authorization", concat("Bearer ", self.config.api_key.as_str()));
        layer_headers(base, &self.config.headers, extra)
    }

    /// `{base_url}/images/generations`.
    pub fn generations_endpoint(&self) -> (r: String)
        ensures
            r@ == self.config_spec().base_url@ + "/images/generations"@,
    {
        concat(self.config.base_url.as_str(), "/images/generations")
    }
}

} // verus!
