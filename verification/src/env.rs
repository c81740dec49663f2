//! A snapshot of environment variables, handed to the library by its caller,
//! and API-key loading from it.

use vstd::prelude::*;

use crate::error::AiMuxError;
use crate::headers::HeaderMap;
use crate::text::concat;

verus! {

/// Environment variables: a finite map from names to values.
#[derive(Debug)]
pub struct Environment {
    vars: HeaderMap,
}

impl View for Environment {
    type V = Map<Seq<char>, Seq<char>>;

    closed spec fn view(&self) -> Map<Seq<char>, Seq<char>> {
        self.vars@
    }
}

impl Environment {
    /// An environment with no variables set.
    pub fn empty() -> (e: Environment)
        ensures
            e@ == Map::<Seq<char>, Seq<char>>::empty(),
    {
        Environment { vars: HeaderMap::new() }
    }

    /// An environment holding the given variables; for a repeated name the
    /// last value wins.
    pub fn from_pairs(pairs: Vec<(String, String)>) -> (e: Environment)
        ensures
            e@ == crate::headers::pairs_to_map(pairs@),
    {
        Environment { vars: HeaderMap::from_pairs(pairs) }
    }

    /// Sets a variable.
    pub fn set(&mut self, name: String, value: String)
        ensures
            final(self)@ == old(self)@.insert(name@, value@),
    {
        self.vars.insert(name, value);
    }

    /// The value of a variable, if set.
    pub fn get(&self, name: &str) -> (r: Option<String>)
        ensures
            match r {
                Some(v) => self@.dom().contains(name@) && self@[name@] == v@,
                None => !self@.dom().contains(name@),
            },
    {
        self.vars.get(name)
    }
}

/// The message of a missing API key.
pub open spec fn missing_key_message(env_var: Seq<char>, description: Seq<char>) -> Seq<char> {
    description + " API key is missing. Pass it using the 'apiKey' parameter or the "@ + env_var
        + " environment variable."@
}

/// Loads an API key: the explicit key when given, else the value of
/// `env_var`; a missing variable is an `InvalidArgument` error.
pub fn load_api_key(
    api_key: Option<String>,
    env_var: &str,
    description: &str,
    env: &Environment,
) -> (r: Result<String, AiMuxError>)
    ensures
        match api_key {
            Some(k) => r == Ok::<String, AiMuxError>(k),
            None => match r {
                Ok(k) => env@.dom().contains(env_var@) && k@ == env@[env_var@],
                Err(e) => !env@.dom().contains(env_var@) && (e matches AiMuxError::InvalidArgument(m)
                    && m@ == missing_key_message(env_var@, description@)),
            },
        },
{
    match api_key {
        Some(k) => Ok(k),
        None => match env.get(env_var) {
            Some(v) => Ok(v),
            None => {
                let a = concat(description, " API key is missing. Pass it using the 'apiKey' parameter or the ");
                let b = concat(a.as_str(), env_var);
                let m = concat(b.as_str(), " environment variable.");
                Err(AiMuxError::InvalidArgument(m))
            },
        },
    }
}

} // verus!
