//! Parallel AI search provider.

use vstd::prelude::*;
use crate::json::{members_view, Json, JsonValue};
use crate::openai::request::jstr;
use crate::search::{push_member, SearchCallOptions, SearchResultItem};

use crate::env::{load_api_key, missing_key_message, Environment};
use crate::error::AiMuxError;
use crate::headers::{names_unique, pairs_to_map, HeaderMap};
use crate::http::{opt_headers_ref, overlay_headers, pairs_view, push_extra, single_header};
use crate::text::{concat, without_trailing_slash, without_trailing_slash_spec};

verus! {

/// Configuration of the Parallel AI provider.
#[derive(Debug)]
pub struct ParallelAiConfig {
    pub api_key: String,
    pub base_url: String,
}

impl ParallelAiConfig {
    /// A configuration with the default base URL.
    pub fn new(api_key: String) -> (c: Self)
        ensures
            c.api_key == api_key,
            c.base_url@ == "https://api.parallel.ai"@,
    {
        ParallelAiConfig {
            api_key,
            base_url: String::from_str("https://api.parallel.ai"),
        }
    }

    /// Uses a custom base URL (one trailing `/` removed).
    pub fn with_base_url(self, url: &str) -> (c: Self)
        ensures
            c.base_url@ == without_trailing_slash_spec(url@),
            c == (ParallelAiConfig { base_url: c.base_url, ..self }),
    {
        ParallelAiConfig { base_url: without_trailing_slash(url), ..self }
    }

    /// A configuration with the key from `PARALLEL_API_KEY`.
    pub fn from_env(env: &Environment) -> (r: Result<Self, AiMuxError>)
        ensures
            match r {
                Ok(c) => env@.dom().contains("PARALLEL_API_KEY"@) && {
                    &&& c.api_key@ == env@["PARALLEL_API_KEY"@]
                    &&& c.base_url@ == "https://api.parallel.ai"@
                },
                Err(e) => !env@.dom().contains("PARALLEL_API_KEY"@) && (e matches AiMuxError::InvalidArgument(m)
                    && m@ == missing_key_message("PARALLEL_API_KEY"@, "Parallel AI"@)),
            },
    {
        match load_api_key(None, "PARALLEL_API_KEY", "Parallel AI", env) {
            Ok(k) => Ok(Self::new(k)),
            Err(e) => Err(e),
        }
    }
}

impl ParallelAiConfig {
    /// A copy of the configuration.
    pub fn copy(&self) -> (c: Self)
        ensures
            c == *self,
    {
        ParallelAiConfig { api_key: self.api_key.clone(), base_url: self.base_url.clone() }
    }
}

/// The provider (search only).
#[derive(Debug)]
pub struct ParallelAiProvider {
    config: ParallelAiConfig,
}

impl ParallelAiProvider {
    pub fn new(config: ParallelAiConfig) -> (p: Self)
        ensures
            p.config() == config,
    {
        ParallelAiProvider { config }
    }

    /// The configuration.
    pub closed spec fn config(&self) -> ParallelAiConfig {
        self.config
    }

    /// The provider name.
    pub fn name(&self) -> (s: &str)
        ensures
            s@ == "parallel_ai"@,
    {
        "parallel_ai"
    }

    /// The search model.
    pub fn search_model(&self) -> (m: ParallelAiSearchModel)
        ensures
            m.config_spec() == self.config(),
    {
        ParallelAiSearchModel::new(self.config.copy())
    }
}

/// A search model.
#[derive(Debug)]
pub struct ParallelAiSearchModel {
    config: ParallelAiConfig,
}

impl ParallelAiSearchModel {
    pub fn new(config: ParallelAiConfig) -> (m: Self)
        ensures
            m.config_spec() == config,
    {
        ParallelAiSearchModel { config }
    }

    /// The configuration.
    pub closed spec fn config_spec(&self) -> ParallelAiConfig {
        self.config
    }

    /// The provider name.
    pub fn provider(&self) -> (s: &str)
        ensures
            s@ == "parallel_ai"@,
    {
        "parallel_ai"
    }

    /// The fixed model id.
    pub fn model_id(&self) -> (s: &str)
        ensures
            s@ == "parallel-search"@,
    {
        "parallel-search"
    }

    /// `x-api-key: <key>`, then the per-call headers.
    pub fn build_headers(&self, extra: Option<&HeaderMap>) -> (h: HeaderMap)
        ensures
            h@ == Map::<Seq<char>, Seq<char>>::empty().insert("x-api-key"@, self.config_spec().api_key@).union_prefer_right(
                opt_headers_ref(extra),
            ),
    {
        overlay_headers(single_header("x-api-key", self.config.api_key.clone()), extra)
    }

    /// The search endpoint.
    pub fn endpoint(&self) -> (r: String)
        ensures
            r@ == self.config_spec().base_url@ + "/v1/search"@,
    {
        concat(self.config.base_url.as_str(), "/v1/search")
    }
}

/// The Parallel AI request body: the query as objective and as the only
/// search query, in advanced mode.
pub open spec fn request_body_spec(o: SearchCallOptions) -> Seq<(Seq<char>, Json)> {
    seq![
        ("objective"@, jstr(o.query@)),
        ("search_queries"@, Json::Array(seq![jstr(o.query@)])),
        ("mode"@, jstr("advanced"@)),
    ]
}

/// Builds the Parallel AI request body (see [`request_body_spec`]).
pub fn build_request_body(options: &SearchCallOptions) -> (b: JsonValue)
    ensures
        b@ == Json::Object(request_body_spec(*options)),
{
    let mut ms: Vec<(String, JsonValue)> = Vec::new();
    assert(members_view(ms@) =~= Seq::<(Seq<char>, Json)>::empty());
    push_member(&mut ms, "objective", JsonValue::String(options.query.clone()));
    let mut qs: Vec<JsonValue> = Vec::new();
    qs.push(JsonValue::String(options.query.clone()));
    proof {
        crate::json::lemma_items_view(qs@);
        assert(crate::json::items_view(qs@) =~= seq![jstr(options.query@)]);
    }
    push_member(&mut ms, "search_queries", JsonValue::Array(qs));
    push_member(&mut ms, "mode", JsonValue::String(String::from_str("advanced")));
    assert(members_view(ms@) =~= request_body_spec(*options));
    JsonValue::Object(ms)
}

/// A Parallel AI hit as returned.
#[derive(Debug)]
pub struct ParallelAiResult {
    pub url: Option<String>,
    pub title: Option<String>,
    pub excerpts: Vec<String>,
}

/// The excerpts joined by newlines.
pub open spec fn join_lines(s: Seq<Seq<char>>) -> Seq<char>
    decreases s.len(),
{
    if s.len() == 0 {
        Seq::empty()
    } else if s.len() == 1 {
        s[0]
    } else {
        join_lines(s.drop_last()) + "\n"@ + s.last()
    }
}

/// The views of a list of strings.
pub open spec fn strings_seq(s: Seq<String>) -> Seq<Seq<char>> {
    Seq::new(s.len(), |i: int| s[i]@)
}

/// Joins strings with newlines.
pub fn join_with_newlines(s: &Vec<String>) -> (r: String)
    ensures
        r@ == join_lines(strings_seq(s@)),
{
    let mut r = String::new();
    let mut i: usize = 0;
    while i < s.len()
        invariant
            0 <= i <= s@.len(),
            r@ == join_lines(strings_seq(s@).subrange(0, i as int)),
        decreases s@.len() - i,
    {
        let ghost sub = strings_seq(s@).subrange(0, i + 1);
        proof {
            assert(sub.drop_last() =~= strings_seq(s@).subrange(0, i as int));
            assert(sub.last() == s@[i as int]@);
        }
        if i == 0 {
            r = s[0].clone();
            assert(sub =~= seq![s@[0]@]);
        } else {
            r = crate::text::concat3(r.as_str(), "\n", s[i].as_str());
        }
        i += 1;
    }
    assert(strings_seq(s@).subrange(0, s@.len() as int) =~= strings_seq(s@));
    r
}

/// Maps Parallel AI hits: the excerpts joined by newlines are the content
/// (none when there are no excerpts).
pub fn map_results<S>(entries: Vec<ParallelAiResult>) -> (r: Vec<SearchResultItem<S>>)
    ensures
        r@.len() == entries@.len(),
        forall|i: int|
            0 <= i < r@.len() ==> {
                let (a, e) = (#[trigger] r@[i], entries@[i]);
                &&& a.title == e.title
                &&& a.url == e.url
                &&& (if e.excerpts@.len() == 0 {
                    a.content is None
                } else {
                    a.content matches Some(c) && c@ == join_lines(strings_seq(e.excerpts@))
                })
                &&& a.raw_content is None
                &&& a.score is None
                &&& a.provider_metadata is None
            },
{
    let mut r: Vec<SearchResultItem<S>> = Vec::new();
    let mut rest = entries;
    let n = rest.len();
    let ghost all = rest@;
    let mut i: usize = 0;
    while rest.len() > 0
        invariant
            all.len() == n,
            r@.len() == i,
            i + rest@.len() == all.len(),
            rest@ == all.subrange(i as int, all.len() as int),
            forall|j: int|
                0 <= j < i ==> {
                    let (a, e) = (#[trigger] r@[j], all[j]);
                    &&& a.title == e.title
                    &&& a.url == e.url
                    &&& (if e.excerpts@.len() == 0 {
                        a.content is None
                    } else {
                        a.content matches Some(c) && c@ == join_lines(strings_seq(e.excerpts@))
                    })
                    &&& a.raw_content is None
                    &&& a.score is None
                    &&& a.provider_metadata is None
                },
        decreases rest@.len(),
    {
        let e = rest.remove(0);
        assert(e == all[i as int]);
        let content = if e.excerpts.len() == 0 {
            None
        } else {
            Some(join_with_newlines(&e.excerpts))
        };
        r.push(
            SearchResultItem {
                title: e.title,
                url: e.url,
                content,
                raw_content: None,
                score: None,
                provider_metadata: None,
            },
        );
        assert(rest@ =~= all.subrange(i + 1, all.len() as int));
        i += 1;
    }
    r
}

} // verus!
