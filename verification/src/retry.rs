//! Retry settings of a provider.

use vstd::prelude::*;

verus! {

/// How often a failed request is retried.
#[derive(Debug, Clone, Copy)]
pub struct RetryConfig {
    /// Number of retries after the first attempt; `0` disables retries.
    pub max_retries: u32,
}

impl RetryConfig {
    /// Two retries.
    pub fn default_config() -> (r: RetryConfig)
        ensures
            r.max_retries == 2,
    {
        RetryConfig { max_retries: 2 }
    }
}

} // verus!
