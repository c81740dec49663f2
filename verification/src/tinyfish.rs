//! TinyFish search provider.

use vstd::prelude::*;

use crate::env::{load_api_key, missing_key_message, Environment};
use crate::error::AiMuxError;
use crate::headers::{names_unique, pairs_to_map, HeaderMap};
use crate::http::{opt_headers_ref, overlay_headers, pairs_view, push_extra, single_header};
use crate::text::{concat, debug_quoted, debug_str, without_trailing_slash, without_trailing_slash_spec};

verus! {

/// Configuration of the TinyFish provider. Its `Debug` text never shows the key.
pub struct TinyfishConfig {
    api_key: String,
    base_url: String,
}

impl TinyfishConfig {
    /// A configuration with the default base URL.
    pub fn new(api_key: String) -> (c: Self)
        ensures
            c.api_key_spec() == api_key@,
            c.base_url_spec() == "https://api.search.tinyfish.ai"@,
    {
        TinyfishConfig {
            api_key,
            base_url: String::from_str("https://api.search.tinyfish.ai"),
        }
    }

    /// Uses a custom base URL (one trailing `/` removed).
    pub fn with_base_url(self, url: &str) -> (c: Self)
        ensures
            c.base_url_spec() == without_trailing_slash_spec(url@),
            c.api_key_spec() == self.api_key_spec(),
    {
        TinyfishConfig { base_url: without_trailing_slash(url), ..self }
    }

    /// A configuration with the key from `TINYFISH_API_KEY`.
    pub fn from_env(env: &Environment) -> (r: Result<Self, AiMuxError>)
        ensures
            match r {
                Ok(c) => env@.dom().contains("TINYFISH_API_KEY"@) && {
                    &&& c.api_key_spec() == env@["TINYFISH_API_KEY"@]
                    &&& c.base_url_spec() == "https://api.search.tinyfish.ai"@
                },
                Err(e) => !env@.dom().contains("TINYFISH_API_KEY"@) && (e matches AiMuxError::InvalidArgument(m)
                    && m@ == missing_key_message("TINYFISH_API_KEY"@, "TinyFish"@)),
            },
    {
        match load_api_key(None, "TINYFISH_API_KEY", "TinyFish", env) {
            Ok(k) => Ok(Self::new(k)),
            Err(e) => Err(e),
        }
    }
}

impl TinyfishConfig {
    /// A copy of the configuration.
    pub fn copy(&self) -> (c: Self)
        ensures
            c == *self,
    {
        TinyfishConfig { api_key: self.api_key.clone(), base_url: self.base_url.clone() }
    }
}

/// The provider (search only).
pub struct TinyfishProvider {
    config: TinyfishConfig,
}

impl TinyfishProvider {
    pub fn new(config: TinyfishConfig) -> (p: Self)
        ensures
            p.config() == config,
    {
        TinyfishProvider { config }
    }

    /// The configuration.
    pub closed spec fn config(&self) -> TinyfishConfig {
        self.config
    }

    /// The provider name.
    pub fn name(&self) -> (s: &str)
        ensures
            s@ == "tinyfish"@,
    {
        "tinyfish"
    }

    /// The search model.
    pub fn search_model(&self) -> (m: TinyfishSearchModel)
        ensures
            m.config_spec() == self.config(),
    {
        TinyfishSearchModel::new(self.config.copy())
    }

    /// Language models are not offered.
    pub fn language_model(&self, model_id: &str) -> (e: AiMuxError)
        ensures
            e matches AiMuxError::Unsupported(m) && m@ == "tinyfish does not support language models. Use search_model() instead."@,
    {
        AiMuxError::Unsupported(String::from_str("tinyfish does not support language models. Use search_model() instead."))
    }
}

impl TinyfishConfig {
    /// The API key.
    pub closed spec fn api_key_spec(&self) -> Seq<char> {
        self.api_key@
    }

    /// The base URL.
    pub closed spec fn base_url_spec(&self) -> Seq<char> {
        self.base_url@
    }

    /// The base URL.
    pub fn base_url(&self) -> (s: &str)
        ensures
            s@ == self.base_url_spec(),
    {
        self.base_url.as_str()
    }

    /// The `Debug` text: the key is shown as `<redacted>`.
    pub fn debug_text(&self) -> (s: String)
        ensures
            s@ == "TinyfishConfig { api_key: \"<redacted>\", base_url: "@ + debug_quoted(self.base_url_spec()) + " }"@,
    {
        let d = debug_str(self.base_url.as_str());
        let a = concat("TinyfishConfig { api_key: \"<redacted>\", base_url: ", d.as_str());
        concat(a.as_str(), " }")
    }
}

/// The number of results asked for: `max_results`, or 10.
pub fn resolve_count(max_results: Option<u32>) -> (n: u32)
    ensures
        n == match max_results {
            Some(m) => m,
            None => 10u32,
        },
{
    match max_results {
        Some(m) => m,
        None => 10,
    }
}

/// A search model.
pub struct TinyfishSearchModel {
    config: TinyfishConfig,
}

impl TinyfishSearchModel {
    pub fn new(config: TinyfishConfig) -> (m: Self)
        ensures
            m.config_spec() == config,
    {
        TinyfishSearchModel { config }
    }

    /// The configuration.
    pub closed spec fn config_spec(&self) -> TinyfishConfig {
        self.config
    }

    /// The provider name.
    pub fn provider(&self) -> (s: &str)
        ensures
            s@ == "tinyfish"@,
    {
        "tinyfish"
    }

    /// The fixed model id.
    pub fn model_id(&self) -> (s: &str)
        ensures
            s@ == "tinyfish-search"@,
    {
        "tinyfish-search"
    }

    /// `X-API-Key: <key>`, then the per-call headers.
    pub fn build_headers(&self, extra: Option<&HeaderMap>) -> (h: HeaderMap)
        ensures
            h@ == Map::<Seq<char>, Seq<char>>::empty().insert("X-API-Key"@, self.config_spec().api_key_spec()).union_prefer_right(
                opt_headers_ref(extra),
            ),
    {
        overlay_headers(single_header("X-API-Key", self.config.api_key.clone()), extra)
    }

    /// The search endpoint: the base URL itself.
    pub fn endpoint(&self) -> (r: String)
        ensures
            r@ == self.config_spec().base_url_spec(),
    {
        self.config.base_url.clone()
    }
}

} // verus!
