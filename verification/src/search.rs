//! Web-search calls: the options a call carries and the hits a provider
//! returns.
//!
//! A relevance score is carried as an opaque value of the caller's choosing
//! (`S`); the library only moves it.

use vstd::prelude::*;

use crate::headers::HeaderMap;
use crate::json::{members_view, Json, JsonValue};

verus! {

broadcast use vstd::std_specs::vec::group_vec_axioms;

/// The options of a search call.
#[derive(Debug)]
pub struct SearchCallOptions {
    pub query: String,
    pub max_results: Option<u32>,
    pub include_domains: Option<Vec<String>>,
    pub exclude_domains: Option<Vec<String>>,
    pub include_raw_content: Option<bool>,
    pub headers: Option<HeaderMap>,
}

/// One search hit.
#[derive(Debug)]
pub struct SearchResultItem<S> {
    pub title: Option<String>,
    pub url: Option<String>,
    pub content: Option<String>,
    pub raw_content: Option<String>,
    pub score: Option<S>,
    pub provider_metadata: Option<JsonValue>,
}

/// A list of strings as a JSON array of strings.
pub open spec fn strings_array(s: Seq<String>) -> Json {
    Json::Array(Seq::new(s.len(), |i: int| Json::String(s[i]@)))
}

/// Appends a member to a list of members.
pub fn push_member(ms: &mut Vec<(String, JsonValue)>, k: &str, v: JsonValue)
    ensures
        members_view(final(ms)@) == members_view(old(ms)@).push((k@, v@)),
{
    ms.push((String::from_str(k), v));
    assert(ms@.drop_last() =~= old(ms)@);
}

} // verus!
