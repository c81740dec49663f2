//! Tavily search provider.

use vstd::prelude::*;
use crate::json::{members_view, Json, JsonValue};
use crate::openai::request::{jstr, number_json, set_member, set_member_spec, strings_json};
use crate::search::{push_member, strings_array, SearchCallOptions, SearchResultItem};
use crate::text::decimal_digits;

use crate::env::{load_api_key, missing_key_message, Environment};
use crate::error::AiMuxError;
use crate::headers::{names_unique, pairs_to_map, HeaderMap};
use crate::http::{bearer, bearer_value, pairs_view, push_extra};
use crate::text::{concat, without_trailing_slash, without_trailing_slash_spec};

verus! {

/// Configuration of the Tavily provider.
#[derive(Debug)]
pub struct TavilyConfig {
    pub api_key: String,
    pub base_url: String,
}

impl TavilyConfig {
    /// A configuration with the default base URL.
    pub fn new(api_key: String) -> (c: Self)
        ensures
            c.api_key == api_key,
            c.base_url@ == "https://api.tavily.com"@,
    {
        TavilyConfig {
            api_key,
            base_url: String::from_str("https://api.tavily.com"),
        }
    }

    /// Uses a custom base URL (one trailing `/` removed).
    pub fn with_base_url(self, url: &str) -> (c: Self)
        ensures
            c.base_url@ == without_trailing_slash_spec(url@),
            c == (TavilyConfig { base_url: c.base_url, ..self }),
    {
        TavilyConfig { base_url: without_trailing_slash(url), ..self }
    }

    /// A configuration with the key from `TAVILY_API_KEY`.
    pub fn from_env(env: &Environment) -> (r: Result<Self, AiMuxError>)
        ensures
            match r {
                Ok(c) => env@.dom().contains("TAVILY_API_KEY"@) && {
                    &&& c.api_key@ == env@["TAVILY_API_KEY"@]
                    &&& c.base_url@ == "https://api.tavily.com"@
                },
                Err(e) => !env@.dom().contains("TAVILY_API_KEY"@) && (e matches AiMuxError::InvalidArgument(m)
                    && m@ == missing_key_message("TAVILY_API_KEY"@, "Tavily"@)),
            },
    {
        match load_api_key(None, "TAVILY_API_KEY", "Tavily", env) {
            Ok(k) => Ok(Self::new(k)),
            Err(e) => Err(e),
        }
    }
}

impl TavilyConfig {
    /// A copy of the configuration.
    pub fn copy(&self) -> (c: Self)
        ensures
            c == *self,
    {
        TavilyConfig { api_key: self.api_key.clone(), base_url: self.base_url.clone() }
    }
}

/// The Tavily provider (search only).
#[derive(Debug)]
pub struct TavilyProvider {
    config: TavilyConfig,
}

impl TavilyProvider {
    pub fn new(config: TavilyConfig) -> (p: Self)
        ensures
            p.config() == config,
    {
        TavilyProvider { config }
    }

    /// The configuration.
    pub closed spec fn config(&self) -> TavilyConfig {
        self.config
    }

    /// The provider name.
    pub fn name(&self) -> (s: &str)
        ensures
            s@ == "tavily"@,
    {
        "tavily"
    }

    /// The search model.
    pub fn search_model(&self) -> (m: TavilySearchModel)
        ensures
            m.config_spec() == self.config(),
    {
        TavilySearchModel::new(self.config.copy())
    }

    /// Language models are not offered.
    pub fn language_model(&self, model_id: &str) -> (e: AiMuxError)
        ensures
            e matches AiMuxError::Unsupported(m) && m@ == "tavily does not support language models. Use search_model() instead."@,
    {
        AiMuxError::Unsupported(String::from_str("tavily does not support language models. Use search_model() instead."))
    }
}

/// A Tavily search model.
#[derive(Debug)]
pub struct TavilySearchModel {
    config: TavilyConfig,
}

impl TavilySearchModel {
    pub fn new(config: TavilyConfig) -> (m: Self)
        ensures
            m.config_spec() == config,
    {
        TavilySearchModel { config }
    }

    /// The configuration.
    pub closed spec fn config_spec(&self) -> TavilyConfig {
        self.config
    }

    /// The provider name.
    pub fn provider(&self) -> (s: &str)
        ensures
            s@ == "tavily"@,
    {
        "tavily"
    }

    /// The fixed model id.
    pub fn model_id(&self) -> (s: &str)
        ensures
            s@ == "tavily-search"@,
    {
        "tavily-search"
    }

    /// `{base_url}/search`.
    pub fn endpoint(&self) -> (r: String)
        ensures
            r@ == self.config_spec().base_url@ + "/search"@,
    {
        concat(self.config.base_url.as_str(), "/search")
    }

    /// Request headers as a list: the fixed ones, then the per-call headers
    /// (one pair per name, in some order).
    pub fn build_headers(&self, extra: Option<&HeaderMap>) -> (v: Vec<(String, String)>)
        ensures
            v@.len() >= 2,
            pairs_view(v@.subrange(0, 2)) == seq![("Content-Type"@, "application/json"@), ("Authorization"@, bearer(self.config_spec().api_key@))],
            match extra {
                Some(e) => names_unique(v@.skip(2)) && pairs_to_map(v@.skip(2)) == e@,
                None => v@.len() == 2,
            },
    {
        let mut v: Vec<(String, String)> = Vec::new();
        v.push((String::from_str("Content-Type"), String::from_str("application/json")));
        v.push((String::from_str("Authorization"), bearer_value(self.config.api_key.as_str())));
        let ghost fixed = v@;
        push_extra(&mut v, extra);
        proof {
            assert(v@.subrange(0, 2) =~= fixed);
            assert(pairs_view(fixed) =~= seq![("Content-Type"@, "application/json"@), ("Authorization"@, bearer(self.config_spec().api_key@))]);
            match extra {
                Some(e) => {
                    let s = choose|s: Seq<(String, String)>| #[trigger] v@ == fixed + s && names_unique(s) && pairs_to_map(s) == e@;
                    assert(v@.skip(2) =~= s);
                },
                None => {},
            }
        }
        v
    }
}

/// The Tavily request body: the query, no generated answer, and the
/// optional limit, domain lists and raw-content flag.
pub open spec fn request_body_spec(o: SearchCallOptions) -> Seq<(Seq<char>, Json)> {
    let m0 = seq![("query"@, jstr(o.query@)), ("include_answer"@, Json::Bool(false))];
    let m1 = match o.max_results {
        Some(n) => set_member_spec(m0, "max_results"@, Json::Number(decimal_digits(n as nat))),
        None => m0,
    };
    let m2 = match o.include_domains {
        Some(d) => set_member_spec(m1, "include_domains"@, strings_array(d@)),
        None => m1,
    };
    let m3 = match o.exclude_domains {
        Some(d) => set_member_spec(m2, "exclude_domains"@, strings_array(d@)),
        None => m2,
    };
    match o.include_raw_content {
        Some(b) => set_member_spec(m3, "include_raw_contents"@, Json::Bool(b)),
        None => m3,
    }
}

/// Builds the Tavily request body (see [`request_body_spec`]).
pub fn build_request_body(options: &SearchCallOptions) -> (b: JsonValue)
    ensures
        b@ == Json::Object(request_body_spec(*options)),
{
    let mut ms: Vec<(String, JsonValue)> = Vec::new();
    assert(members_view(ms@) =~= Seq::<(Seq<char>, Json)>::empty());
    push_member(&mut ms, "query", JsonValue::String(options.query.clone()));
    push_member(&mut ms, "include_answer", JsonValue::Bool(false));
    assert(members_view(ms@) =~= seq![("query"@, jstr(options.query@)), ("include_answer"@, Json::Bool(false))]);
    match options.max_results {
        Some(n) => set_member(&mut ms, "max_results", number_json(n as u64)),
        None => {},
    }
    match &options.include_domains {
        Some(d) => {
            let j = strings_json(d);
            set_member(&mut ms, "include_domains", j);
        },
        None => {},
    }
    match &options.exclude_domains {
        Some(d) => {
            let j = strings_json(d);
            set_member(&mut ms, "exclude_domains", j);
        },
        None => {},
    }
    match options.include_raw_content {
        Some(b) => set_member(&mut ms, "include_raw_contents", JsonValue::Bool(b)),
        None => {},
    }
    JsonValue::Object(ms)
}

/// A Tavily hit as returned.
#[derive(Debug)]
pub struct TavilyResult<S> {
    pub title: Option<String>,
    pub url: Option<String>,
    pub content: Option<String>,
    pub raw_content: Option<String>,
    pub score: Option<S>,
}

/// Maps Tavily hits: every field kept, no metadata.
pub fn map_results<S>(entries: Vec<TavilyResult<S>>) -> (r: Vec<SearchResultItem<S>>)
    ensures
        r@.len() == entries@.len(),
        forall|i: int|
            0 <= i < r@.len() ==> {
                let (a, e) = (#[trigger] r@[i], entries@[i]);
                &&& a.title == e.title
                &&& a.url == e.url
                &&& a.content == e.content
                &&& a.raw_content == e.raw_content
                &&& a.score == e.score
                &&& a.provider_metadata is None
            },
{
    let mut r: Vec<SearchResultItem<S>> = Vec::new();
    let mut rest = entries;
    let n = rest.len();
    let ghost all = rest@;
    let mut i: usize = 0;
    while rest.len() > 0
        invariant
            all.len() == n,
            r@.len() == i,
            i + rest@.len() == all.len(),
            rest@ == all.subrange(i as int, all.len() as int),
            forall|j: int|
                0 <= j < i ==> {
                    let (a, e) = (#[trigger] r@[j], all[j]);
                    &&& a.title == e.title
                    &&& a.url == e.url
                    &&& a.content == e.content
                    &&& a.raw_content == e.raw_content
                    &&& a.score == e.score
                    &&& a.provider_metadata is None
                },
        decreases rest@.len(),
    {
        let e = rest.remove(0);
        assert(e == all[i as int]);
        r.push(
            SearchResultItem {
                title: e.title,
                url: e.url,
                content: e.content,
                raw_content: e.raw_content,
                score: e.score,
                provider_metadata: None,
            },
        );
        assert(rest@ =~= all.subrange(i + 1, all.len() as int));
        i += 1;
    }
    r
}

} // verus!
