//! RunwayML video provider.

use vstd::prelude::*;

use crate::env::{load_api_key, missing_key_message, Environment};
use crate::error::AiMuxError;
use crate::headers::HeaderMap;
use crate::http::{bearer, bearer_value, layer_headers, opt_headers, opt_headers_ref, single_header};
use crate::openai::copy_opt_headers;
use crate::text::{concat, concat3, without_trailing_slash, without_trailing_slash_spec};

verus! {

/// Configuration of the RunwayML provider.
#[derive(Debug)]
pub struct RunwaymlConfig {
    pub api_key: String,
    pub base_url: String,
    /// Extra headers sent with every request.
    pub headers: Option<HeaderMap>,
    /// Interval between task-status polls, in milliseconds (2 s by default).
    pub poll_interval_ms: u64,
    /// How long to wait for a task at most, in milliseconds (300 s by
    /// default).
    pub timeout_ms: u64,
}

impl RunwaymlConfig {
    /// A configuration with the default base URL.
    pub fn new(api_key: String) -> (c: Self)
        ensures
            c.api_key == api_key,
            c.base_url@ == "https://api.dev.runwayml.com"@,
            c.headers is None,
            c.poll_interval_ms == 2000,
            c.timeout_ms == 300_000,
    {
        RunwaymlConfig {
            api_key,
            base_url: String::from_str("https://api.dev.runwayml.com"),
            headers: None,
            poll_interval_ms: 2000,
            timeout_ms: 300_000,
        }
    }

    /// Uses a custom base URL (one trailing `/` removed).
    pub fn with_base_url(self, url: &str) -> (c: Self)
        ensures
            c.base_url@ == without_trailing_slash_spec(url@),
            c == (RunwaymlConfig { base_url: c.base_url, ..self }),
    {
        RunwaymlConfig { base_url: without_trailing_slash(url), ..self }
    }

    /// Sets extra headers sent with every request.
    pub fn with_headers(self, headers: HeaderMap) -> (c: Self)
        ensures
            c == (RunwaymlConfig { headers: Some(headers), ..self }),
    {
        RunwaymlConfig { headers: Some(headers), ..self }
    }

    /// Sets the interval between status polls, in milliseconds.
    pub fn with_poll_interval(self, interval_ms: u64) -> (c: Self)
        ensures
            c == (RunwaymlConfig { poll_interval_ms: interval_ms, ..self }),
    {
        RunwaymlConfig { poll_interval_ms: interval_ms, ..self }
    }

    /// Sets how long to wait for a task at most, in milliseconds.
    pub fn with_timeout(self, timeout_ms: u64) -> (c: Self)
        ensures
            c == (RunwaymlConfig { timeout_ms: timeout_ms, ..self }),
    {
        RunwaymlConfig { timeout_ms, ..self }
    }

    /// A configuration with the key from `RUNWAYML_API_SECRET`.
    pub fn from_env(env: &Environment) -> (r: Result<Self, AiMuxError>)
        ensures
            match r {
                Ok(c) => env@.dom().contains("RUNWAYML_API_SECRET"@) && {
                    &&& c.api_key@ == env@["RUNWAYML_API_SECRET"@]
                    &&& c.base_url@ == "https://api.dev.runwayml.com"@
                    &&& c.headers is None
                    &&& c.poll_interval_ms == 2000
                    &&& c.timeout_ms == 300_000
                },
                Err(e) => !env@.dom().contains("RUNWAYML_API_SECRET"@) && (e matches AiMuxError::InvalidArgument(m)
                    && m@ == missing_key_message("RUNWAYML_API_SECRET"@, "RunwayML"@)),
            },
    {
        match load_api_key(None, "RUNWAYML_API_SECRET", "RunwayML", env) {
            Ok(k) => Ok(Self::new(k)),
            Err(e) => Err(e),
        }
    }
}

/// Two configurations that agree field by field (header maps by value).
pub open spec fn config_copy(a: RunwaymlConfig, b: RunwaymlConfig) -> bool {
    a.api_key == b.api_key
        && a.base_url == b.base_url
        && opt_headers(a.headers) == opt_headers(b.headers)
        && (a.headers is Some <==> b.headers is Some)
        && a.poll_interval_ms == b.poll_interval_ms
        && a.timeout_ms == b.timeout_ms
}

impl RunwaymlConfig {
    /// A copy of the configuration.
    pub fn copy(&self) -> (c: Self)
        ensures
            config_copy(c, *self),
    {
        RunwaymlConfig {
            api_key: self.api_key.clone(),
            base_url: self.base_url.clone(),
            headers: copy_opt_headers(&self.headers),
            poll_interval_ms: self.poll_interval_ms,
            timeout_ms: self.timeout_ms,
        }
    }
}

/// The provider: creates models that share one configuration.
#[derive(Debug)]
pub struct RunwaymlProvider {
    config: RunwaymlConfig,
}

impl RunwaymlProvider {
    pub fn new(config: RunwaymlConfig) -> (p: Self)
        ensures
            p.config() == config,
    {
        RunwaymlProvider { config }
    }

    /// The configuration.
    pub closed spec fn config(&self) -> RunwaymlConfig {
        self.config
    }

    /// The provider name.
    pub fn name(&self) -> (s: &str)
        ensures
            s@ == "runwayml"@,
    {
        "runwayml"
    }

    /// A video generation model.
    pub fn video(&self, model_id: &str) -> (m: RunwaymlVideoModel)
        ensures
            m.model_id_spec() == model_id@,
            config_copy(m.config_spec(), self.config()),
    {
        RunwaymlVideoModel::new(String::from_str(model_id), self.config.copy())
    }
}

/// A RunwayML video generation model.
#[derive(Debug)]
pub struct RunwaymlVideoModel {
    model_id: String,
    config: RunwaymlConfig,
}

impl RunwaymlVideoModel {
    pub fn new(model_id: String, config: RunwaymlConfig) -> (m: Self)
        ensures
            m.model_id_spec() == model_id@,
            m.config_spec() == config,
    {
        RunwaymlVideoModel { model_id, config }
    }

    /// The model id.
    pub closed spec fn model_id_spec(&self) -> Seq<char> {
        self.model_id@
    }

    /// The configuration.
    pub closed spec fn config_spec(&self) -> RunwaymlConfig {
        self.config
    }

    /// The provider name.
    pub fn provider(&self) -> (s: &str)
        ensures
            s@ == "runwayml"@,
    {
        "runwayml"
    }

    /// The model id.
    pub fn model_id(&self) -> (s: &str)
        ensures
            s@ == self.model_id_spec(),
    {
        self.model_id.as_str()
    }

    /// At most 1 per call.
    pub fn max_videos_per_call(&self) -> (n: Option<u32>)
        ensures
            n == Some(1u32),
    {
        Some(1)
    }

    /// Request headers: `Authorization: Bearer <key>`, `X-Runway-Version: 2024-11-06`, the configured headers, then the per-call ones.
    pub fn build_headers(&self, extra: Option<&HeaderMap>) -> (h: HeaderMap)
        ensures
            h@ == Map::<Seq<char>, Seq<char>>::empty().insert("Authorization"@, "Bearer "@ + self.config_spec().api_key@).insert("X-Runway-Version"@, "2024-11-06"@).union_prefer_right(opt_headers(self.config_spec().headers)).union_prefer_right(opt_headers_ref(extra)),
    {
        let mut base = single_header("Authorization", concat("Bearer ", self.config.api_key.as_str()));
        base.insert(String::from_str("X-Runway-Version"), String::from_str("2024-11-06"));
        layer_headers(base, &self.config.headers, extra)
    }

    /// `{base_url}/v1/image_to_video` when an image is given, else
    /// `{base_url}/v1/text_to_video`.
    pub fn submit_url(&self, is_image_to_video: bool) -> (r: String)
        ensures
            r@ == self.config_spec().base_url@ + (if is_image_to_video {
                "/v1/image_to_video"@
            } else {
                "/v1/text_to_video"@
            }),
    {
        if is_image_to_video {
            concat(self.config.base_url.as_str(), "/v1/image_to_video")
        } else {
            concat(self.config.base_url.as_str(), "/v1/text_to_video")
        }
    }

    /// `{base_url}/v1/tasks/{task_id}`.
    pub fn task_url(&self, task_id: &str) -> (r: String)
        ensures
            r@ == self.config_spec().base_url@ + "/v1/tasks/"@ + task_id@,
    {
        concat3(self.config.base_url.as_str(), "/v1/tasks/", task_id)
    }
}

/// What a poll of a task's status leads to.
#[derive(Debug)]
pub enum TaskPollStep {
    /// The task finished; its output is ready.
    Succeeded,
    /// The task failed or was cancelled.
    Failed(AiMuxError),
    /// Poll again.
    Pending,
}

/// The step after a poll: `SUCCEEDED` finishes, `FAILED` and `CANCELLED`
/// fail, anything else (or no status) waits for the next poll.
pub fn task_poll_step(task_id: &str, status: Option<&str>) -> (r: TaskPollStep)
    ensures
        match status {
            Some(s) => if s@ == "SUCCEEDED"@ {
                r is Succeeded
            } else if s@ == "FAILED"@ || s@ == "CANCELLED"@ {
                r matches TaskPollStep::Failed(AiMuxError::Provider(m)) && m@ == "runwayml task "@ + task_id@
                    + " failed with status "@ + s@
            } else {
                r is Pending
            },
            None => r is Pending,
        },
{
    match status {
        Some(s) => {
            if crate::text::str_eq(s, "SUCCEEDED") {
                TaskPollStep::Succeeded
            } else if crate::text::str_eq(s, "FAILED") || crate::text::str_eq(s, "CANCELLED") {
                let a = concat3("runwayml task ", task_id, " failed with status ");
                TaskPollStep::Failed(AiMuxError::Provider(concat(a.as_str(), s)))
            } else {
                TaskPollStep::Pending
            }
        },
        None => TaskPollStep::Pending,
    }
}

/// The error of a task that outlived the timeout; `timeout_text` is the
/// timeout as `Debug` shows it.
pub fn task_timeout_error(task_id: &str, timeout_text: &str) -> (e: AiMuxError)
    ensures
        e matches AiMuxError::Provider(m) && m@ == "runwayml task "@ + task_id@ + " timed out after "@ + timeout_text@,
{
    let a = concat3("runwayml task ", task_id, " timed out after ");
    AiMuxError::Provider(concat(a.as_str(), timeout_text))
}

} // verus!
