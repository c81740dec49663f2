//! Serper (Google search) provider.

use vstd::prelude::*;
use crate::json::{members_view, Json, JsonValue};
use crate::openai::request::{jstr, number_json, set_member, set_member_spec, strings_json};
use crate::search::{push_member, strings_array, SearchCallOptions, SearchResultItem};
use crate::text::decimal_digits;

use crate::env::{load_api_key, missing_key_message, Environment};
use crate::error::AiMuxError;
use crate::headers::{names_unique, pairs_to_map, HeaderMap};
use crate::http::{pairs_view, push_extra};
use crate::text::{concat, without_trailing_slash, without_trailing_slash_spec};

verus! {

/// Configuration of the Serper provider.
#[derive(Debug)]
pub struct SerperConfig {
    pub api_key: String,
    pub base_url: String,
}

impl SerperConfig {
    /// A configuration with the default base URL.
    pub fn new(api_key: String) -> (c: Self)
        ensures
            c.api_key == api_key,
            c.base_url@ == "https://google.serper.dev"@,
    {
        SerperConfig {
            api_key,
            base_url: String::from_str("https://google.serper.dev"),
        }
    }

    /// Uses a custom base URL (one trailing `/` removed).
    pub fn with_base_url(self, url: &str) -> (c: Self)
        ensures
            c.base_url@ == without_trailing_slash_spec(url@),
            c == (SerperConfig { base_url: c.base_url, ..self }),
    {
        SerperConfig { base_url: without_trailing_slash(url), ..self }
    }

    /// A configuration with the key from `SERPER_API_KEY`.
    pub fn from_env(env: &Environment) -> (r: Result<Self, AiMuxError>)
        ensures
            match r {
                Ok(c) => env@.dom().contains("SERPER_API_KEY"@) && {
                    &&& c.api_key@ == env@["SERPER_API_KEY"@]
                    &&& c.base_url@ == "https://google.serper.dev"@
                },
                Err(e) => !env@.dom().contains("SERPER_API_KEY"@) && (e matches AiMuxError::InvalidArgument(m)
                    && m@ == missing_key_message("SERPER_API_KEY"@, "Serper"@)),
            },
    {
        match load_api_key(None, "SERPER_API_KEY", "Serper", env) {
            Ok(k) => Ok(Self::new(k)),
            Err(e) => Err(e),
        }
    }
}

impl SerperConfig {
    /// A copy of the configuration.
    pub fn copy(&self) -> (c: Self)
        ensures
            c == *self,
    {
        SerperConfig { api_key: self.api_key.clone(), base_url: self.base_url.clone() }
    }
}

/// The Serper provider (search only).
#[derive(Debug)]
pub struct SerperProvider {
    config: SerperConfig,
}

impl SerperProvider {
    pub fn new(config: SerperConfig) -> (p: Self)
        ensures
            p.config() == config,
    {
        SerperProvider { config }
    }

    /// The configuration.
    pub closed spec fn config(&self) -> SerperConfig {
        self.config
    }

    /// The provider name.
    pub fn name(&self) -> (s: &str)
        ensures
            s@ == "serper"@,
    {
        "serper"
    }

    /// The search model.
    pub fn search_model(&self) -> (m: SerperSearchModel)
        ensures
            m.config_spec() == self.config(),
    {
        SerperSearchModel::new(self.config.copy())
    }
}

/// A Serper search model.
#[derive(Debug)]
pub struct SerperSearchModel {
    config: SerperConfig,
}

impl SerperSearchModel {
    pub fn new(config: SerperConfig) -> (m: Self)
        ensures
            m.config_spec() == config,
    {
        SerperSearchModel { config }
    }

    /// The configuration.
    pub closed spec fn config_spec(&self) -> SerperConfig {
        self.config
    }

    /// The provider name.
    pub fn provider(&self) -> (s: &str)
        ensures
            s@ == "serper"@,
    {
        "serper"
    }

    /// The fixed model id.
    pub fn model_id(&self) -> (s: &str)
        ensures
            s@ == "serper-search"@,
    {
        "serper-search"
    }

    /// `{base_url}/search`.
    pub fn endpoint(&self) -> (r: String)
        ensures
            r@ == self.config_spec().base_url@ + "/search"@,
    {
        concat(self.config.base_url.as_str(), "/search")
    }

    /// Request headers as a list: the fixed ones, then the per-call headers
    /// (one pair per name, in some order).
    pub fn build_headers(&self, extra: Option<&HeaderMap>) -> (v: Vec<(String, String)>)
        ensures
            v@.len() >= 2,
            pairs_view(v@.subrange(0, 2)) == seq![("Content-Type"@, "application/json"@), ("X-API-KEY"@, self.config_spec().api_key@)],
            match extra {
                Some(e) => names_unique(v@.skip(2)) && pairs_to_map(v@.skip(2)) == e@,
                None => v@.len() == 2,
            },
    {
        let mut v: Vec<(String, String)> = Vec::new();
        v.push((String::from_str("Content-Type"), String::from_str("application/json")));
        v.push((String::from_str("X-API-KEY"), self.config.api_key.clone()));
        let ghost fixed = v@;
        push_extra(&mut v, extra);
        proof {
            assert(v@.subrange(0, 2) =~= fixed);
            assert(pairs_view(fixed) =~= seq![("Content-Type"@, "application/json"@), ("X-API-KEY"@, self.config_spec().api_key@)]);
            match extra {
                Some(e) => {
                    let s = choose|s: Seq<(String, String)>| #[trigger] v@ == fixed + s && names_unique(s) && pairs_to_map(s) == e@;
                    assert(v@.skip(2) =~= s);
                },
                None => {},
            }
        }
        v
    }
}

/// The Serper request body: `q`, and the limit as `num`.
pub open spec fn request_body_spec(o: SearchCallOptions) -> Seq<(Seq<char>, Json)> {
    let m0 = seq![("q"@, jstr(o.query@))];
    match o.max_results {
        Some(n) => set_member_spec(m0, "num"@, Json::Number(decimal_digits(n as nat))),
        None => m0,
    }
}

/// Builds the Serper request body (see [`request_body_spec`]).
pub fn build_request_body(options: &SearchCallOptions) -> (b: JsonValue)
    ensures
        b@ == Json::Object(request_body_spec(*options)),
{
    let mut ms: Vec<(String, JsonValue)> = Vec::new();
    assert(members_view(ms@) =~= Seq::<(Seq<char>, Json)>::empty());
    push_member(&mut ms, "q", JsonValue::String(options.query.clone()));
    assert(members_view(ms@) =~= seq![("q"@, jstr(options.query@))]);
    match options.max_results {
        Some(n) => set_member(&mut ms, "num", number_json(n as u64)),
        None => {},
    }
    JsonValue::Object(ms)
}

/// A Serper organic hit as returned.
#[derive(Debug)]
pub struct SerperOrganicResult {
    pub title: Option<String>,
    pub link: Option<String>,
    pub snippet: Option<String>,
}

/// Maps Serper hits: the link is the URL, the snippet the content.
pub fn map_results<S>(entries: Vec<SerperOrganicResult>) -> (r: Vec<SearchResultItem<S>>)
    ensures
        r@.len() == entries@.len(),
        forall|i: int|
            0 <= i < r@.len() ==> {
                let (a, e) = (#[trigger] r@[i], entries@[i]);
                &&& a.title == e.title
                &&& a.url == e.link
                &&& a.content == e.snippet
                &&& a.raw_content is None
                &&& a.score is None
                &&& a.provider_metadata is None
            },
{
    let mut r: Vec<SearchResultItem<S>> = Vec::new();
    let mut rest = entries;
    let n = rest.len();
    let ghost all = rest@;
    let mut i: usize = 0;
    while rest.len() > 0
        invariant
            all.len() == n,
            r@.len() == i,
            i + rest@.len() == all.len(),
            rest@ == all.subrange(i as int, all.len() as int),
            forall|j: int|
                0 <= j < i ==> {
                    let (a, e) = (#[trigger] r@[j], all[j]);
                    &&& a.title == e.title
                    &&& a.url == e.link
                    &&& a.content == e.snippet
                    &&& a.raw_content is None
                    &&& a.score is None
                    &&& a.provider_metadata is None
                },
        decreases rest@.len(),
    {
        let e = rest.remove(0);
        assert(e == all[i as int]);
        r.push(
            SearchResultItem {
                title: e.title,
                url: e.link,
                content: e.snippet,
                raw_content: None,
                score: None,
                provider_metadata: None,
            },
        );
        assert(rest@ =~= all.subrange(i + 1, all.len() as int));
        i += 1;
    }
    r
}

} // verus!
