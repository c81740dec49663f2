//! SearXNG search provider (self-hosted, unauthenticated).

use vstd::prelude::*;
use crate::search::SearchResultItem;

use crate::env::Environment;
use crate::error::AiMuxError;
use crate::headers::{names_unique, pairs_to_map, HeaderMap};
use crate::http::push_extra;
use crate::text::{concat, without_trailing_slash, without_trailing_slash_spec};

verus! {

/// What parsing `url`, appending the form-encoded query pairs in order and
/// serializing gives; a parse failure gives the error's text.
pub uninterp spec fn url_with_query_pairs(url: Seq<char>, pairs: Seq<(Seq<char>, Seq<char>)>) -> Result<Seq<char>, Seq<char>>;

/// Parses a URL (`Url::parse`), appends two query pairs
/// (`query_pairs_mut().append_pair`) and serializes it; a parse error is
/// given as its text.
#[verifier::external_body]
fn url_append_two_pairs(url: &str, k1: &str, v1: &str, k2: &str, v2: &str) -> (r: Result<String, String>)
    ensures
        match r {
            Ok(s) => url_with_query_pairs(url@, seq![(k1@, v1@), (k2@, v2@)]) matches Ok(t) && t == s@,
            Err(e) => url_with_query_pairs(url@, seq![(k1@, v1@), (k2@, v2@)]) matches Err(t) && t == e@,
        },
{
    match url::Url::parse(url) {
        Ok(mut u) => {
            u.query_pairs_mut().append_pair(k1, v1).append_pair(k2, v2);
            Ok(u.to_string())
        },
        Err(e) => Err(e.to_string()),
    }
}

/// Configuration of the SearXNG provider: the instance's base URL.
#[derive(Debug)]
pub struct SearxngConfig {
    pub base_url: String,
}

impl SearxngConfig {
    /// A configuration for an instance (one trailing `/` removed).
    pub fn new(base_url: &str) -> (c: Self)
        ensures
            c.base_url@ == without_trailing_slash_spec(base_url@),
    {
        SearxngConfig { base_url: without_trailing_slash(base_url) }
    }

    /// Uses another base URL (one trailing `/` removed).
    pub fn with_base_url(self, url: &str) -> (c: Self)
        ensures
            c.base_url@ == without_trailing_slash_spec(url@),
    {
        SearxngConfig { base_url: without_trailing_slash(url) }
    }

    /// A configuration for the instance named by `SEARXNG_URL`.
    pub fn from_env(env: &Environment) -> (r: Result<Self, AiMuxError>)
        ensures
            match r {
                Ok(c) => env@.dom().contains("SEARXNG_URL"@) && c.base_url@ == without_trailing_slash_spec(
                    env@["SEARXNG_URL"@],
                ),
                Err(e) => !env@.dom().contains("SEARXNG_URL"@) && (e matches AiMuxError::InvalidArgument(m)
                    && m@ == "SEARXNG_URL environment variable is required for SearXNG"@),
            },
    {
        match env.get("SEARXNG_URL") {
            Some(u) => Ok(Self::new(u.as_str())),
            None => Err(
                AiMuxError::InvalidArgument(
                    String::from_str("SEARXNG_URL environment variable is required for SearXNG"),
                ),
            ),
        }
    }

    /// A copy of the configuration.
    pub fn copy(&self) -> (c: Self)
        ensures
            c == *self,
    {
        SearxngConfig { base_url: self.base_url.clone() }
    }
}

/// The SearXNG provider (search only).
#[derive(Debug)]
pub struct SearxngProvider {
    config: SearxngConfig,
}

impl SearxngProvider {
    pub fn new(config: SearxngConfig) -> (p: Self)
        ensures
            p.config() == config,
    {
        SearxngProvider { config }
    }

    /// The configuration.
    pub closed spec fn config(&self) -> SearxngConfig {
        self.config
    }

    /// The provider name.
    pub fn name(&self) -> (s: &str)
        ensures
            s@ == "searxng"@,
    {
        "searxng"
    }

    /// The search model.
    pub fn search_model(&self) -> (m: SearxngSearchModel)
        ensures
            m.config_spec() == self.config(),
    {
        SearxngSearchModel::new(self.config.copy())
    }
}

/// A SearXNG search model.
#[derive(Debug)]
pub struct SearxngSearchModel {
    config: SearxngConfig,
}

impl SearxngSearchModel {
    pub fn new(config: SearxngConfig) -> (m: Self)
        ensures
            m.config_spec() == config,
    {
        SearxngSearchModel { config }
    }

    /// The configuration.
    pub closed spec fn config_spec(&self) -> SearxngConfig {
        self.config
    }

    /// The provider name.
    pub fn provider(&self) -> (s: &str)
        ensures
            s@ == "searxng"@,
    {
        "searxng"
    }

    /// The fixed model id.
    pub fn model_id(&self) -> (s: &str)
        ensures
            s@ == "searxng-search"@,
    {
        "searxng-search"
    }

    /// `{base_url}/search`.
    pub fn endpoint(&self) -> (r: String)
        ensures
            r@ == self.config_spec().base_url@ + "/search"@,
    {
        concat(self.config.base_url.as_str(), "/search")
    }

    /// The search URL: the endpoint with `q={query}` and `format=json`
    /// appended; an endpoint that does not parse is an `InvalidArgument`.
    pub fn search_url(&self, query: &str) -> (r: Result<String, AiMuxError>)
        ensures
            match url_with_query_pairs(
                self.config_spec().base_url@ + "/search"@,
                seq![("q"@, query@), ("format"@, "json"@)],
            ) {
                Ok(u) => r matches Ok(s) && s@ == u,
                Err(e) => r matches Err(AiMuxError::InvalidArgument(m)) && m@ == "invalid searxng endpoint: "@ + e,
            },
    {
        let endpoint = self.endpoint();
        match url_append_two_pairs(endpoint.as_str(), "q", query, "format", "json") {
            Ok(u) => Ok(u),
            Err(e) => Err(
                AiMuxError::InvalidArgument(concat("invalid searxng endpoint: ", e.as_str())),
            ),
        }
    }

    /// Request headers: only the per-call ones (the instance is
    /// unauthenticated), one pair per name.
    pub fn build_headers(&self, extra: Option<&HeaderMap>) -> (v: Vec<(String, String)>)
        ensures
            match extra {
                Some(e) => names_unique(v@) && pairs_to_map(v@) == e@,
                None => v@.len() == 0,
            },
    {
        let mut v: Vec<(String, String)> = Vec::new();
        push_extra(&mut v, extra);
        proof {
            match extra {
                Some(e) => {
                    let s = choose|s: Seq<(String, String)>| #[trigger] v@ == Seq::<(String, String)>::empty() + s
                        && names_unique(s) && pairs_to_map(s) == e@;
                    assert(v@ =~= s);
                },
                None => {},
            }
        }
        v
    }
}

/// A SearXNG hit as returned.
#[derive(Debug)]
pub struct SearxngResult<S> {
    pub url: Option<String>,
    pub title: Option<String>,
    pub content: Option<String>,
    pub score: Option<S>,
}

/// Maps SearXNG hits: title, URL, content and score kept.
pub fn map_results<S>(entries: Vec<SearxngResult<S>>) -> (r: Vec<SearchResultItem<S>>)
    ensures
        r@.len() == entries@.len(),
        forall|i: int|
            0 <= i < r@.len() ==> {
                let (a, e) = (#[trigger] r@[i], entries@[i]);
                &&& a.title == e.title
                &&& a.url == e.url
                &&& a.content == e.content
                &&& a.raw_content is None
                &&& a.score == e.score
                &&& a.provider_metadata is None
            },
{
    let mut r: Vec<SearchResultItem<S>> = Vec::new();
    let mut rest = entries;
    let n = rest.len();
    let ghost all = rest@;
    let mut i: usize = 0;
    while rest.len() > 0
        invariant
            all.len() == n,
            r@.len() == i,
            i + rest@.len() == all.len(),
            rest@ == all.subrange(i as int, all.len() as int),
            forall|j: int|
                0 <= j < i ==> {
                    let (a, e) = (#[trigger] r@[j], all[j]);
                    &&& a.title == e.title
                    &&& a.url == e.url
                    &&& a.content == e.content
                    &&& a.raw_content is None
                    &&& a.score == e.score
                    &&& a.provider_metadata is None
                },
        decreases rest@.len(),
    {
        let e = rest.remove(0);
        assert(e == all[i as int]);
        r.push(
            SearchResultItem {
                title: e.title,
                url: e.url,
                content: e.content,
                raw_content: None,
                score: e.score,
                provider_metadata: None,
            },
        );
        assert(rest@ =~= all.subrange(i + 1, all.len() as int));
        i += 1;
    }
    r
}

} // verus!
