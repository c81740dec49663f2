//! Rev.ai transcription provider.

use vstd::prelude::*;

use crate::env::{load_api_key, missing_key_message, Environment};
use crate::error::AiMuxError;
use crate::headers::HeaderMap;
use crate::http::{bearer, bearer_value, layer_headers, opt_headers, opt_headers_ref, single_header};
use crate::openai::copy_opt_headers;
use crate::json::{json_view, members_view, Json, JsonValue};
use crate::json_text::{json_text, to_json_text};
use crate::multipart::{
    closing_bytes, file_disposition, file_part_bytes, text_field_bytes, write_closing, write_file_field,
    write_text_field,
};
use crate::text::{concat, str_eq, without_trailing_slash, without_trailing_slash_spec};

verus! {

/// Configuration of the Rev.ai provider.
#[derive(Debug)]
pub struct RevaiConfig {
    pub api_key: String,
    pub base_url: String,
    /// Extra headers sent with every request.
    pub headers: Option<HeaderMap>,
}

impl RevaiConfig {
    /// A configuration with the default base URL.
    pub fn new(api_key: String) -> (c: Self)
        ensures
            c.api_key == api_key,
            c.base_url@ == "https://api.rev.ai"@,
            c.headers is None,
    {
        RevaiConfig {
            api_key,
            base_url: String::from_str("https://api.rev.ai"),
            headers: None,
        }
    }

    /// Uses a custom base URL (one trailing `/` removed).
    pub fn with_base_url(self, url: &str) -> (c: Self)
        ensures
            c.base_url@ == without_trailing_slash_spec(url@),
            c == (RevaiConfig { base_url: c.base_url, ..self }),
    {
        RevaiConfig { base_url: without_trailing_slash(url), ..self }
    }

    /// Sets extra headers sent with every request.
    pub fn with_headers(self, headers: HeaderMap) -> (c: Self)
        ensures
            c == (RevaiConfig { headers: Some(headers), ..self }),
    {
        RevaiConfig { headers: Some(headers), ..self }
    }

    /// A configuration with the key from `REVAI_API_KEY`.
    pub fn from_env(env: &Environment) -> (r: Result<Self, AiMuxError>)
        ensures
            match r {
                Ok(c) => env@.dom().contains("REVAI_API_KEY"@) && {
                    &&& c.api_key@ == env@["REVAI_API_KEY"@]
                    &&& c.base_url@ == "https://api.rev.ai"@
                    &&& c.headers is None
                },
                Err(e) => !env@.dom().contains("REVAI_API_KEY"@) && (e matches AiMuxError::InvalidArgument(m)
                    && m@ == missing_key_message("REVAI_API_KEY"@, "Rev.ai"@)),
            },
    {
        match load_api_key(None, "REVAI_API_KEY", "Rev.ai", env) {
            Ok(k) => Ok(Self::new(k)),
            Err(e) => Err(e),
        }
    }
}

/// Two configurations that agree field by field (header maps by value).
pub open spec fn config_copy(a: RevaiConfig, b: RevaiConfig) -> bool {
    a.api_key == b.api_key
        && a.base_url == b.base_url
        && opt_headers(a.headers) == opt_headers(b.headers)
        && (a.headers is Some <==> b.headers is Some)
}

impl RevaiConfig {
    /// A copy of the configuration.
    pub fn copy(&self) -> (c: Self)
        ensures
            config_copy(c, *self),
    {
        RevaiConfig {
            api_key: self.api_key.clone(),
            base_url: self.base_url.clone(),
            headers: copy_opt_headers(&self.headers),
        }
    }
}

/// The provider: creates models that share one configuration.
#[derive(Debug)]
pub struct RevaiProvider {
    config: RevaiConfig,
}

impl RevaiProvider {
    pub fn new(config: RevaiConfig) -> (p: Self)
        ensures
            p.config() == config,
    {
        RevaiProvider { config }
    }

    /// The configuration.
    pub closed spec fn config(&self) -> RevaiConfig {
        self.config
    }

    /// The provider name.
    pub fn name(&self) -> (s: &str)
        ensures
            s@ == "revai"@,
    {
        "revai"
    }

    /// A transcription model.
    pub fn transcription(&self, model_id: &str) -> (m: RevaiTranscriptionModel)
        ensures
            m.model_id_spec() == model_id@,
            config_copy(m.config_spec(), self.config()),
    {
        RevaiTranscriptionModel::new(String::from_str(model_id), self.config.copy())
    }
}

/// A Rev.ai transcription model.
#[derive(Debug)]
pub struct RevaiTranscriptionModel {
    model_id: String,
    config: RevaiConfig,
}

impl RevaiTranscriptionModel {
    pub fn new(model_id: String, config: RevaiConfig) -> (m: Self)
        ensures
            m.model_id_spec() == model_id@,
            m.config_spec() == config,
    {
        RevaiTranscriptionModel { model_id, config }
    }

    /// The model id.
    pub closed spec fn model_id_spec(&self) -> Seq<char> {
        self.model_id@
    }

    /// The configuration.
    pub closed spec fn config_spec(&self) -> RevaiConfig {
        self.config
    }

    /// The provider name.
    pub fn provider(&self) -> (s: &str)
        ensures
            s@ == "revai"@,
    {
        "revai"
    }

    /// The model id.
    pub fn model_id(&self) -> (s: &str)
        ensures
            s@ == self.model_id_spec(),
    {
        self.model_id.as_str()
    }

    /// Request headers: `Authorization: Bearer <key>`, the configured headers, then the per-call ones.
    pub fn build_headers(&self, extra: Option<&HeaderMap>) -> (h: HeaderMap)
        ensures
            h@ == Map::<Seq<char>, Seq<char>>::empty().insert("Authorization"@, "Bearer "@ + self.config_spec().api_key@).union_prefer_right(opt_headers(self.config_spec().headers)).union_prefer_right(opt_headers_ref(extra)),
    {
        let base = single_header("Authorization", concat("Bearer ", self.config.api_key.as_str()));
        layer_headers(base, &self.config.headers, extra)
    }

    /// `{base_url}/speechtotext/v1/jobs`.
    pub fn jobs_url(&self) -> (r: String)
        ensures
            r@ == self.config_spec().base_url@ + "/speechtotext/v1/jobs"@,
    {
        concat(self.config.base_url.as_str(), "/speechtotext/v1/jobs")
    }

    /// `{base_url}/speechtotext/v1/jobs/{job_id}`.
    pub fn job_status_url(&self, job_id: &str) -> (r: String)
        ensures
            r@ == self.config_spec().base_url@ + "/speechtotext/v1/jobs/"@ + job_id@,
    {
        crate::text::concat3(self.config.base_url.as_str(), "/speechtotext/v1/jobs/", job_id)
    }

    /// `{base_url}/speechtotext/v1/jobs/{job_id}/transcript`.
    pub fn transcript_url(&self, job_id: &str) -> (r: String)
        ensures
            r@ == self.config_spec().base_url@ + "/speechtotext/v1/jobs/"@ + job_id@ + "/transcript"@,
    {
        let a = crate::text::concat3(self.config.base_url.as_str(), "/speechtotext/v1/jobs/", job_id);
        concat(a.as_str(), "/transcript")
    }
}


/// The `config` field of a job: `{"transcriber": model_id}` as compact JSON.
pub open spec fn transcriber_config_text(model_id: Seq<char>) -> Seq<char> {
    json_text(Json::Object(seq![("transcriber"@, Json::String(model_id))]))
}

/// The job submission form: the audio under `media`, the `config` field and
/// the closing delimiter.
pub open spec fn revai_form_spec(
    boundary: Seq<char>,
    filename: Seq<char>,
    media_type: Seq<char>,
    audio: Seq<u8>,
    model_id: Seq<char>,
) -> Seq<u8> {
    file_part_bytes(boundary, file_disposition("media"@, filename), media_type, audio) + text_field_bytes(
        boundary,
        "config"@,
        transcriber_config_text(model_id),
    ) + closing_bytes(boundary)
}

/// Builds the job submission form (see [`revai_form_spec`]).
pub fn revai_job_form(boundary: &str, filename: &str, media_type: &str, audio: &[u8], model_id: &str) -> (r: Vec<
    u8,
>)
    ensures
        r@ == revai_form_spec(boundary@, filename@, media_type@, audio@, model_id@),
{
    let mut members: Vec<(String, JsonValue)> = Vec::new();
    members.push((String::from_str("transcriber"), JsonValue::String(String::from_str(model_id))));
    let config = JsonValue::Object(members);
    proof {
        reveal_strlit("transcriber");
        assert(members@.len() == 1);
        assert(members@.drop_last() =~= Seq::<(String, JsonValue)>::empty());
        assert(members_view(members@.drop_last()) =~= Seq::<(Seq<char>, Json)>::empty());
        assert(members@.last().0@ == "transcriber"@);
        assert(json_view(members@.last().1) == Json::String(model_id@));
        assert(members_view(members@) =~= seq![("transcriber"@, Json::String(model_id@))]);
        assert(config@ == Json::Object(seq![("transcriber"@, Json::String(model_id@))]));
    }
    let text = to_json_text(&config);
    let mut body: Vec<u8> = Vec::new();
    let ghost start = body@;
    write_file_field(&mut body, boundary, "media", filename, media_type, audio);
    write_text_field(&mut body, boundary, "config", text.as_str());
    write_closing(&mut body, boundary);
    assert(body@ =~= revai_form_spec(boundary@, filename@, media_type@, audio@, model_id@));
    body
}

/// Reads the answer to a job submission: a `failed` status is an error, a
/// missing id is an error, otherwise the job id.
pub fn revai_submitted_job(status: Option<&str>, id: Option<&str>) -> (r: Result<String, AiMuxError>)
    ensures
        (status matches Some(s) && s@ == "failed"@) ==> (r matches Err(AiMuxError::Provider(m))
            && m@ == "Failed to submit transcription job to Rev.ai"@),
        !(status matches Some(s) && s@ == "failed"@) ==> match id {
            Some(i) => r matches Ok(j) && j@ == i@,
            None => r matches Err(AiMuxError::Provider(m)) && m@
                == "Rev.ai job submission did not return an id"@,
        },
{
    if let Some(s) = status {
        if str_eq(s, "failed") {
            return Err(AiMuxError::Provider(String::from_str("Failed to submit transcription job to Rev.ai")));
        }
    }
    match id {
        Some(i) => Ok(String::from_str(i)),
        None => Err(AiMuxError::Provider(String::from_str("Rev.ai job submission did not return an id"))),
    }
}

/// Where a polled job stands.
#[derive(Debug, PartialEq, Eq, Structural)]
pub enum RevaiJobState {
    /// The transcript is ready.
    Transcribed,
    /// Poll again.
    Pending,
}

/// Reads a poll answer: `transcribed` ends the polling, `failed` is an
/// error, any other status (or none) means poll again.
pub fn revai_job_step(status: Option<&str>) -> (r: Result<RevaiJobState, AiMuxError>)
    ensures
        (status matches Some(s) && s@ == "transcribed"@) ==> r matches Ok(RevaiJobState::Transcribed),
        (status matches Some(s) && s@ == "failed"@) ==> (r matches Err(AiMuxError::Provider(m)) && m@
            == "Transcription job failed"@),
        !(status matches Some(s) && (s@ == "transcribed"@ || s@ == "failed"@)) ==> r matches Ok(
            RevaiJobState::Pending,
        ),
{
    proof {
        reveal_strlit("transcribed");
        reveal_strlit("failed");
        assert("transcribed"@.len() != "failed"@.len());
    }
    if let Some(s) = status {
        if str_eq(s, "transcribed") {
            return Ok(RevaiJobState::Transcribed);
        }
        if str_eq(s, "failed") {
            return Err(AiMuxError::Provider(String::from_str("Transcription job failed")));
        }
    }
    Ok(RevaiJobState::Pending)
}

/// One element of a transcript monologue (its timestamps are not carried).
#[derive(Debug)]
pub struct RevaiElement {
    /// `text` or `punct`.
    pub elem_type: Option<String>,
    pub value: Option<String>,
}

/// One speaker's monologue.
#[derive(Debug)]
pub struct RevaiMonologue {
    pub elements: Option<Vec<RevaiElement>>,
}

/// The text of an element (empty when it has none).
pub open spec fn element_text(e: RevaiElement) -> Seq<char> {
    match e.value {
        Some(v) => v@,
        None => Seq::empty(),
    }
}

/// The texts of elements, concatenated.
pub open spec fn elements_text(es: Seq<RevaiElement>) -> Seq<char>
    decreases es.len(),
{
    if es.len() == 0 {
        Seq::empty()
    } else {
        elements_text(es.drop_last()) + element_text(es.last())
    }
}

/// The text of a monologue.
pub open spec fn monologue_text_spec(m: RevaiMonologue) -> Seq<char> {
    match m.elements {
        Some(es) => elements_text(es@),
        None => Seq::empty(),
    }
}

/// The transcript: the monologue texts joined by single spaces.
pub open spec fn transcript_text_spec(ms: Seq<RevaiMonologue>) -> Seq<char>
    decreases ms.len(),
{
    if ms.len() == 0 {
        Seq::empty()
    } else if ms.len() == 1 {
        monologue_text_spec(ms[0])
    } else {
        transcript_text_spec(ms.drop_last()) + " "@ + monologue_text_spec(ms.last())
    }
}

/// The text of a monologue.
pub fn monologue_text(m: &RevaiMonologue) -> (r: String)
    ensures
        r@ == monologue_text_spec(*m),
{
    let mut out = String::new();
    if let Some(es) = &m.elements {
        let mut i: usize = 0;
        while i < es.len()
            invariant
                0 <= i <= es@.len(),
                out@ == elements_text(es@.subrange(0, i as int)),
            decreases es@.len() - i,
        {
            if let Some(v) = &es[i].value {
                out = concat(out.as_str(), v.as_str());
            }
            assert(es@.subrange(0, i + 1).drop_last() =~= es@.subrange(0, i as int));
            i += 1;
        }
        assert(es@.subrange(0, i as int) =~= es@);
    }
    out
}

/// The transcript text: the monologue texts joined by single spaces.
pub fn revai_transcript_text(monologues: &Vec<RevaiMonologue>) -> (r: String)
    ensures
        r@ == transcript_text_spec(monologues@),
{
    let mut out = String::new();
    let mut i: usize = 0;
    while i < monologues.len()
        invariant
            0 <= i <= monologues@.len(),
            out@ == transcript_text_spec(monologues@.subrange(0, i as int)),
        decreases monologues@.len() - i,
    {
        let t = monologue_text(&monologues[i]);
        if i == 0 {
            out = t;
        } else {
            let a = concat(out.as_str(), " ");
            out = concat(a.as_str(), t.as_str());
        }
        assert(monologues@.subrange(0, i + 1).drop_last() =~= monologues@.subrange(0, i as int));
        i += 1;
    }
    assert(monologues@.subrange(0, i as int) =~= monologues@);
    out
}

} // verus!
