//! Google Vertex AI: configuration, endpoints and models.

use vstd::prelude::*;
use vstd::utf8::encode_utf8;

use crate::env::Environment;
use crate::error::AiMuxError;
use crate::headers::{names_unique, pairs_to_map, HeaderMap};
use crate::http::{bearer, bearer_value, pairs_view, push_extra};
use crate::json::{items_view, json_as_u64, json_get, members_view, opt_json_ref_view, opt_json_view, Json, JsonValue};
use crate::keyed::KeyedVec;
use crate::codec::base64_encoded;
use crate::media::{audio_input_to_base64, before_first, data_base64, split_before, AudioInput, ImageFile, ImageFileData};
use crate::openai::request::{set_member, set_member_spec, warn, warnings_view, Warning, WarningV};
use crate::openai::request::opts_map;
use crate::provider::opt_chars;
use crate::search::push_member;
use crate::text::{
    concat, concat3, decimal_digits, has_char, str_trim, trim_spec, u64_to_decimal, is_blank, is_blank_spec, is_prefix, is_suffix, str_eq, str_has_char,
    str_starts_with, without_trailing_slash, without_trailing_slash_spec,
};

verus! {

/// How requests to Vertex AI are authenticated.
#[derive(Debug)]
pub enum VertexAuth {
    /// A Google Cloud OAuth2 access token.
    BearerToken(String),
    /// An API key (Express mode).
    ApiKey(String),
}

impl VertexAuth {
    /// A copy.
    pub fn copy(&self) -> (a: Self)
        ensures
            a == *self,
    {
        match self {
            VertexAuth::BearerToken(t) => VertexAuth::BearerToken(t.clone()),
            VertexAuth::ApiKey(k) => VertexAuth::ApiKey(k.clone()),
        }
    }
}

/// The API host of a location: `aiplatform.googleapis.com` for `global`,
/// `aiplatform.{eu|us}.rep.googleapis.com` for the multi-regions,
/// `{location}-aiplatform.googleapis.com` otherwise.
pub open spec fn vertex_host(location: Seq<char>) -> Seq<char> {
    if location == "global"@ {
        "aiplatform.googleapis.com"@
    } else if location == "eu"@ || location == "us"@ {
        "aiplatform."@ + location + ".rep.googleapis.com"@
    } else {
        location + "-aiplatform.googleapis.com"@
    }
}

/// The Gemini base URL of a project and location.
pub open spec fn base_url_spec(project: Seq<char>, location: Seq<char>) -> Seq<char> {
    "https://"@ + vertex_host(location) + "/v1beta1/projects/"@ + project + "/locations/"@ + location
        + "/publishers/google"@
}

/// The OpenAI-compatible (model-as-a-service) base URL of a project and
/// location.
pub open spec fn maas_base_url_spec(project: Seq<char>, location: Seq<char>) -> Seq<char> {
    "https://"@ + vertex_host(location) + "/v1/projects/"@ + project + "/locations/"@ + location
        + "/endpoints/openapi"@
}

/// The Vertex endpoints of a project and location: the global location
/// is served by `aiplatform.googleapis.com` itself, the `eu` and `us`
/// multi-regions by their `rep` hosts, and any other location by its
/// regional `{location}-aiplatform.googleapis.com` host; the path names the
/// project and the location.
pub proof fn law_vertex_hosts(project: Seq<char>, location: Seq<char>)
    ensures
        location == "global"@ ==> base_url_spec(project, location)
            == "https://aiplatform.googleapis.com/v1beta1/projects/"@ + project + "/locations/global/publishers/google"@,
        location == "global"@ ==> maas_base_url_spec(project, location)
            == "https://aiplatform.googleapis.com/v1/projects/"@ + project + "/locations/global/endpoints/openapi"@,
        (location == "eu"@ || location == "us"@) ==> base_url_spec(project, location) == "https://aiplatform."@
            + location + ".rep.googleapis.com/v1beta1/projects/"@ + project + "/locations/"@ + location
            + "/publishers/google"@,
        (location != "global"@ && location != "eu"@ && location != "us"@) ==> base_url_spec(project, location)
            == "https://"@ + location + "-aiplatform.googleapis.com/v1beta1/projects/"@ + project + "/locations/"@
            + location + "/publishers/google"@,
        (location != "global"@ && location != "eu"@ && location != "us"@) ==> maas_base_url_spec(project, location)
            == "https://"@ + location + "-aiplatform.googleapis.com/v1/projects/"@ + project + "/locations/"@
            + location + "/endpoints/openapi"@,
{
    reveal_strlit("https://");
    reveal_strlit("aiplatform.googleapis.com");
    reveal_strlit("/v1beta1/projects/");
    reveal_strlit("/v1/projects/");
    reveal_strlit("/locations/");
    reveal_strlit("/publishers/google");
    reveal_strlit("/endpoints/openapi");
    reveal_strlit("global");
    reveal_strlit("https://aiplatform.googleapis.com/v1beta1/projects/");
    reveal_strlit("https://aiplatform.googleapis.com/v1/projects/");
    reveal_strlit("/locations/global/publishers/google");
    reveal_strlit("/locations/global/endpoints/openapi");
    reveal_strlit("aiplatform.");
    reveal_strlit(".rep.googleapis.com");
    reveal_strlit("https://aiplatform.");
    reveal_strlit(".rep.googleapis.com/v1beta1/projects/");
    reveal_strlit("-aiplatform.googleapis.com");
    reveal_strlit("-aiplatform.googleapis.com/v1beta1/projects/");
    reveal_strlit("-aiplatform.googleapis.com/v1/projects/");
    reveal_strlit("eu");
    reveal_strlit("us");
    assert("global"@.len() != "eu"@.len() && "global"@.len() != "us"@.len());
    if location == "global"@ {
        assert(base_url_spec(project, location) =~= "https://aiplatform.googleapis.com/v1beta1/projects/"@ + project
            + "/locations/global/publishers/google"@);
        assert(maas_base_url_spec(project, location) =~= "https://aiplatform.googleapis.com/v1/projects/"@ + project
            + "/locations/global/endpoints/openapi"@);
    } else if location == "eu"@ || location == "us"@ {
        assert(base_url_spec(project, location) =~= "https://aiplatform."@ + location
            + ".rep.googleapis.com/v1beta1/projects/"@ + project + "/locations/"@ + location + "/publishers/google"@);
    } else {
        assert(base_url_spec(project, location) =~= "https://"@ + location
            + "-aiplatform.googleapis.com/v1beta1/projects/"@ + project + "/locations/"@ + location
            + "/publishers/google"@);
        assert(maas_base_url_spec(project, location) =~= "https://"@ + location
            + "-aiplatform.googleapis.com/v1/projects/"@ + project + "/locations/"@ + location
            + "/endpoints/openapi"@);
    }
}

fn host_of(location: &str) -> (h: String)
    ensures
        h@ == vertex_host(location@),
{
    if str_eq(location, "global") {
        String::from_str("aiplatform.googleapis.com")
    } else if str_eq(location, "eu") || str_eq(location, "us") {
        concat3("aiplatform.", location, ".rep.googleapis.com")
    } else {
        concat(location, "-aiplatform.googleapis.com")
    }
}

/// The Gemini base URL of a project and location.
pub fn build_base_url(project: &str, location: &str, endpoint: bool) -> (r: String)
    ensures
        r@ == base_url_spec(project@, location@),
{
    let h = host_of(location);
    let a = concat3("https://", h.as_str(), "/v1beta1/projects/");
    let b = concat3(a.as_str(), project, "/locations/");
    concat3(b.as_str(), location, "/publishers/google")
}

/// The OpenAI-compatible (model-as-a-service) base URL.
pub fn build_maas_base_url(project: &str, location: &str) -> (r: String)
    ensures
        r@ == maas_base_url_spec(project@, location@),
{
    let h = host_of(location);
    let a = concat3("https://", h.as_str(), "/v1/projects/");
    let b = concat3(a.as_str(), project, "/locations/");
    concat3(b.as_str(), location, "/endpoints/openapi")
}

/// Configuration of the Vertex AI provider.
#[derive(Debug)]
pub struct VertexProviderConfig {
    pub base_url: String,
    /// Project id (needed for transcription and video).
    pub project: Option<String>,
    /// Location (needed for transcription and video).
    pub location: Option<String>,
    pub auth: VertexAuth,
}

impl VertexProviderConfig {
    /// A configuration with an access token for a project and location.
    pub fn new(access_token: String, project: String, location: String) -> (c: Self)
        ensures
            c.base_url@ == base_url_spec(project@, location@),
            c.project == Some(project),
            c.location == Some(location),
            c.auth == VertexAuth::BearerToken(access_token),
    {
        let base_url = build_base_url(project.as_str(), location.as_str(), false);
        VertexProviderConfig {
            base_url,
            project: Some(project),
            location: Some(location),
            auth: VertexAuth::BearerToken(access_token),
        }
    }

    /// A configuration with an API key (Express mode).
    pub fn with_api_key(api_key: String) -> (c: Self)
        ensures
            c.base_url@ == "https://aiplatform.googleapis.com/v1/publishers/google"@,
            c.project is None && c.location is None,
            c.auth == VertexAuth::ApiKey(api_key),
    {
        VertexProviderConfig {
            base_url: String::from_str("https://aiplatform.googleapis.com/v1/publishers/google"),
            project: None,
            location: None,
            auth: VertexAuth::ApiKey(api_key),
        }
    }

    /// Uses a custom base URL (one trailing `/` removed).
    pub fn with_base_url(self, url: &str) -> (c: Self)
        ensures
            c.base_url@ == without_trailing_slash_spec(url@),
            c == (VertexProviderConfig { base_url: c.base_url, ..self }),
    {
        VertexProviderConfig { base_url: without_trailing_slash(url), ..self }
    }

    /// A configuration from the environment: Express mode when
    /// `GOOGLE_VERTEX_API_KEY` is set and not blank; else the access token,
    /// project and location (default `us-central1`) variables.
    pub fn from_env(env: &Environment) -> (r: Result<Self, AiMuxError>)
        ensures
            if env@.dom().contains("GOOGLE_VERTEX_API_KEY"@) && !is_blank_spec(env@["GOOGLE_VERTEX_API_KEY"@]) {
                r matches Ok(c) && c.project is None && c.location is None && (c.auth matches VertexAuth::ApiKey(k)
                    && k@ == env@["GOOGLE_VERTEX_API_KEY"@])
            } else if !env@.dom().contains("GOOGLE_VERTEX_ACCESS_TOKEN"@) {
                r matches Err(AiMuxError::InvalidArgument(m)) && m@
                    == "GOOGLE_VERTEX_ACCESS_TOKEN (or GOOGLE_VERTEX_API_KEY) environment variable is required for Vertex AI"@
            } else if !env@.dom().contains("GOOGLE_VERTEX_PROJECT"@) {
                r matches Err(AiMuxError::InvalidArgument(m)) && m@
                    == "GOOGLE_VERTEX_PROJECT environment variable is required for Vertex AI"@
            } else {
                let location = if env@.dom().contains("GOOGLE_VERTEX_LOCATION"@) {
                    env@["GOOGLE_VERTEX_LOCATION"@]
                } else {
                    "us-central1"@
                };
                r matches Ok(c) && c.base_url@ == base_url_spec(env@["GOOGLE_VERTEX_PROJECT"@], location)
                    && (c.project matches Some(p) && p@ == env@["GOOGLE_VERTEX_PROJECT"@]) && (c.location matches Some(
                    l,
                ) && l@ == location) && (c.auth matches VertexAuth::BearerToken(t) && t@
                    == env@["GOOGLE_VERTEX_ACCESS_TOKEN"@])
            },
    {
        match env.get("GOOGLE_VERTEX_API_KEY") {
            Some(key) => {
                if !is_blank(key.as_str()) {
                    return Ok(Self::with_api_key(key));
                }
            },
            None => {},
        }
        let access_token = match env.get("GOOGLE_VERTEX_ACCESS_TOKEN") {
            Some(t) => t,
            None => {
                return Err(
                    AiMuxError::InvalidArgument(
                        String::from_str(
                            "GOOGLE_VERTEX_ACCESS_TOKEN (or GOOGLE_VERTEX_API_KEY) environment variable is required for Vertex AI",
                        ),
                    ),
                );
            },
        };
        let project = match env.get("GOOGLE_VERTEX_PROJECT") {
            Some(p) => p,
            None => {
                return Err(
                    AiMuxError::InvalidArgument(
                        String::from_str("GOOGLE_VERTEX_PROJECT environment variable is required for Vertex AI"),
                    ),
                );
            },
        };
        let location = match env.get("GOOGLE_VERTEX_LOCATION") {
            Some(l) => l,
            None => String::from_str("us-central1"),
        };
        Ok(Self::new(access_token, project, location))
    }
}

/// The configuration a Vertex model is made with.
#[derive(Debug)]
pub struct VertexConfig {
    pub base_url: String,
    pub auth: VertexAuth,
}

/// The headers of a Vertex request as a list: `Content-Type:
/// application/json`, then `Authorization: Bearer <token>` or
/// `x-goog-api-key: <key>`.
pub open spec fn vertex_fixed_headers(auth: VertexAuth) -> Seq<(Seq<char>, Seq<char>)> {
    seq![
        ("Content-Type"@, "application/json"@),
        match auth {
            VertexAuth::BearerToken(t) => ("Authorization"@, bearer(t@)),
            VertexAuth::ApiKey(k) => ("x-goog-api-key"@, k@),
        },
    ]
}

/// The fixed headers, then the per-call headers (one pair per name, in some
/// order).
pub open spec fn vertex_headers_spec(v: Seq<(String, String)>, auth: VertexAuth, extra: Option<&HeaderMap>) -> bool {
    &&& v.len() >= 2
    &&& pairs_view(v.subrange(0, 2)) == vertex_fixed_headers(auth)
    &&& match extra {
        Some(e) => names_unique(v.skip(2)) && pairs_to_map(v.skip(2)) == e@,
        None => v.len() == 2,
    }
}

/// The request headers of a Vertex model.
pub fn vertex_headers(auth: &VertexAuth, extra: Option<&HeaderMap>) -> (v: Vec<(String, String)>)
    ensures
        vertex_headers_spec(v@, *auth, extra),
{
    let mut v: Vec<(String, String)> = Vec::new();
    v.push((String::from_str("Content-Type"), String::from_str("application/json")));
    match auth {
        VertexAuth::BearerToken(t) => v.push((String::from_str("Authorization"), bearer_value(t.as_str()))),
        VertexAuth::ApiKey(k) => v.push((String::from_str("x-goog-api-key"), k.clone())),
    }
    let ghost fixed = v@;
    push_extra(&mut v, extra);
    proof {
        assert(v@.subrange(0, 2) =~= fixed);
        assert(pairs_view(fixed) =~= vertex_fixed_headers(*auth));
        match extra {
            Some(e) => {
                let s = choose|s: Seq<(String, String)>| #[trigger] v@ == fixed + s && names_unique(s) && pairs_to_map(s) == e@;
                assert(v@.skip(2) =~= s);
            },
            None => {},
        }
    }
    v
}

/// The model path: the id itself when it holds a `/`, else `models/{id}`.
pub open spec fn model_path_spec(model_id: Seq<char>) -> Seq<char> {
    if has_char(model_id, '/') {
        model_id
    } else {
        "models/"@ + model_id
    }
}

fn model_path(model_id: &str) -> (r: String)
    ensures
        r@ == model_path_spec(model_id@),
{
    if str_has_char(model_id, '/') {
        String::from_str(model_id)
    } else {
        concat("models/", model_id)
    }
}

/// Tuned models (`endpoints/...`) are served without the
/// `/publishers/google` suffix of the base URL.
pub open spec fn effective_base_url_spec(model_id: Seq<char>, base_url: Seq<char>) -> Seq<char> {
    if is_prefix("endpoints/"@, model_id) && is_suffix("/publishers/google"@, base_url) {
        base_url.subrange(0, base_url.len() - "/publishers/google"@.len())
    } else {
        base_url
    }
}

/// A Vertex AI (Gemini) language model.
#[derive(Debug)]
pub struct VertexModel {
    model_id: String,
    config: VertexConfig,
}

impl VertexModel {
    pub fn new(model_id: String, config: VertexConfig) -> (m: Self)
        ensures
            m.model_id_spec() == model_id@,
            m.config_spec() == config,
    {
        VertexModel { model_id, config }
    }

    /// The model id.
    pub closed spec fn model_id_spec(&self) -> Seq<char> {
        self.model_id@
    }

    /// The configuration.
    pub closed spec fn config_spec(&self) -> VertexConfig {
        self.config
    }

    /// The provider name.
    pub fn provider(&self) -> (s: &str)
        ensures
            s@ == "google.vertex"@,
    {
        "google.vertex"
    }

    /// The model id.
    pub fn model_id(&self) -> (s: &str)
        ensures
            s@ == self.model_id_spec(),
    {
        self.model_id.as_str()
    }

    /// The request headers.
    pub fn build_headers(&self, extra: Option<&HeaderMap>) -> (v: Vec<(String, String)>)
        ensures
            vertex_headers_spec(v@, self.config_spec().auth, extra),
    {
        vertex_headers(&self.config.auth, extra)
    }

    /// The base URL the model is served from.
    pub fn effective_base_url(&self) -> (r: String)
        ensures
            r@ == effective_base_url_spec(self.model_id_spec(), self.config_spec().base_url@),
    {
        if str_starts_with(self.model_id.as_str(), "endpoints/") && crate::media::str_ends_with(
            self.config.base_url.as_str(),
            "/publishers/google",
        ) {
            proof {
                reveal_strlit("/publishers/google");
            }
            let c = crate::text::chars_of(self.config.base_url.as_str());
            let n = c.len() - 18;
            crate::text::string_from_chars(&crate::text::slice_chars(&c, 0, n))
        } else {
            self.config.base_url.clone()
        }
    }

    /// `{effective base}/{model path}:generateContent`.
    pub fn generate_endpoint(&self) -> (r: String)
        ensures
            r@ == effective_base_url_spec(self.model_id_spec(), self.config_spec().base_url@) + "/"@
                + model_path_spec(self.model_id_spec()) + ":generateContent"@,
    {
        let b = self.effective_base_url();
        let p = model_path(self.model_id.as_str());
        concat3(concat(b.as_str(), "/").as_str(), p.as_str(), ":generateContent")
    }

    /// `{effective base}/{model path}:streamGenerateContent?alt=sse`.
    pub fn stream_endpoint(&self) -> (r: String)
        ensures
            r@ == effective_base_url_spec(self.model_id_spec(), self.config_spec().base_url@) + "/"@
                + model_path_spec(self.model_id_spec()) + ":streamGenerateContent?alt=sse"@,
    {
        let b = self.effective_base_url();
        let p = model_path(self.model_id.as_str());
        concat3(concat(b.as_str(), "/").as_str(), p.as_str(), ":streamGenerateContent?alt=sse")
    }
}

/// Embedding models served only by `:embedContent` (one value per call).
pub open spec fn uses_embed_content_spec(model_id: Seq<char>) -> bool {
    model_id == "gemini-embedding-2"@ || model_id == "gemini-embedding-2-preview"@
}

/// Whether an embedding model is served only by `:embedContent`.
pub fn uses_embed_content_endpoint(model_id: &str) -> (b: bool)
    ensures
        b == uses_embed_content_spec(model_id@),
{
    str_eq(model_id, "gemini-embedding-2") || str_eq(model_id, "gemini-embedding-2-preview")
}

/// A Vertex AI embedding model.
#[derive(Debug)]
pub struct VertexEmbeddingModel {
    model_id: String,
    config: VertexConfig,
}

impl VertexEmbeddingModel {
    pub fn new(model_id: String, config: VertexConfig) -> (m: Self)
        ensures
            m.model_id_spec() == model_id@,
            m.config_spec() == config,
    {
        VertexEmbeddingModel { model_id, config }
    }

    /// The model id.
    pub closed spec fn model_id_spec(&self) -> Seq<char> {
        self.model_id@
    }

    /// The configuration.
    pub closed spec fn config_spec(&self) -> VertexConfig {
        self.config
    }

    /// The provider name.
    pub fn provider(&self) -> (s: &str)
        ensures
            s@ == "google.vertex"@,
    {
        "google.vertex"
    }

    /// The model id.
    pub fn model_id(&self) -> (s: &str)
        ensures
            s@ == self.model_id_spec(),
    {
        self.model_id.as_str()
    }

    /// The request headers.
    pub fn build_headers(&self, extra: Option<&HeaderMap>) -> (v: Vec<(String, String)>)
        ensures
            vertex_headers_spec(v@, self.config_spec().auth, extra),
    {
        vertex_headers(&self.config.auth, extra)
    }

    /// One value per call on `:embedContent` models, 2048 otherwise.
    pub fn max_embeddings_per_call(&self) -> (n: Option<u32>)
        ensures
            n == Some(if uses_embed_content_spec(self.model_id_spec()) { 1u32 } else { 2048u32 }),
    {
        if uses_embed_content_endpoint(self.model_id.as_str()) {
            Some(1)
        } else {
            Some(2048)
        }
    }

    /// Calls may run in parallel.
    pub fn supports_parallel_calls(&self) -> (b: bool)
        ensures
            b,
    {
        true
    }
}

/// Gemini image models (ids starting with `gemini-`).
pub open spec fn is_gemini_spec(model_id: Seq<char>) -> bool {
    is_prefix("gemini-"@, model_id)
}

/// Whether an image model is a Gemini model.
pub fn is_gemini_model(model_id: &str) -> (b: bool)
    ensures
        b == is_gemini_spec(model_id@),
{
    str_starts_with(model_id, "gemini-")
}

/// A Vertex AI image generation model.
#[derive(Debug)]
pub struct VertexImageModel {
    model_id: String,
    config: VertexConfig,
}

impl VertexImageModel {
    pub fn new(model_id: String, config: VertexConfig) -> (m: Self)
        ensures
            m.model_id_spec() == model_id@,
            m.config_spec() == config,
    {
        VertexImageModel { model_id, config }
    }

    /// The model id.
    pub closed spec fn model_id_spec(&self) -> Seq<char> {
        self.model_id@
    }

    /// The configuration.
    pub closed spec fn config_spec(&self) -> VertexConfig {
        self.config
    }

    /// The provider name.
    pub fn provider(&self) -> (s: &str)
        ensures
            s@ == "google.vertex"@,
    {
        "google.vertex"
    }

    /// The model id.
    pub fn model_id(&self) -> (s: &str)
        ensures
            s@ == self.model_id_spec(),
    {
        self.model_id.as_str()
    }

    /// The request headers.
    pub fn build_headers(&self, extra: Option<&HeaderMap>) -> (v: Vec<(String, String)>)
        ensures
            vertex_headers_spec(v@, self.config_spec().auth, extra),
    {
        vertex_headers(&self.config.auth, extra)
    }

    /// 10 images per call for Gemini models, 4 otherwise.
    pub fn max_images_per_call(&self) -> (n: Option<u32>)
        ensures
            n == Some(if is_gemini_spec(self.model_id_spec()) { 10u32 } else { 4u32 }),
    {
        if is_gemini_model(self.model_id.as_str()) {
            Some(10)
        } else {
            Some(4)
        }
    }

    /// `{base_url}/models/{model_id}:predict`.
    pub fn predict_endpoint(&self) -> (r: String)
        ensures
            r@ == self.config_spec().base_url@ + "/models/"@ + self.model_id_spec() + ":predict"@,
    {
        concat3(concat(self.config.base_url.as_str(), "/models/").as_str(), self.model_id.as_str(), ":predict")
    }

    /// `{base_url}/{model path}:generateContent`.
    pub fn generate_content_endpoint(&self) -> (r: String)
        ensures
            r@ == self.config_spec().base_url@ + "/"@ + model_path_spec(self.model_id_spec())
                + ":generateContent"@,
    {
        let p = model_path(self.model_id.as_str());
        concat3(concat(self.config.base_url.as_str(), "/").as_str(), p.as_str(), ":generateContent")
    }
}

/// A Vertex AI (Speech-to-Text) transcription model.
#[derive(Debug)]
pub struct VertexTranscriptionModel {
    pub model_id: String,
    pub project: String,
    pub location: String,
    pub auth: VertexAuth,
    pub base_url: String,
}

impl VertexTranscriptionModel {
    pub fn new(model_id: String, project: String, location: String, auth: VertexAuth, base_url: String) -> (m: Self)
        ensures
            m == (VertexTranscriptionModel { model_id, project, location, auth, base_url }),
    {
        VertexTranscriptionModel { model_id, project, location, auth, base_url }
    }
}

/// A Vertex AI video generation model.
#[derive(Debug)]
pub struct VertexVideoModel {
    pub model_id: String,
    pub project: String,
    pub location: String,
    pub auth: VertexAuth,
    pub base_url: String,
    pub retry_config: crate::retry::RetryConfig,
}

impl VertexVideoModel {
    /// A model with the default retry settings.
    pub fn new(model_id: String, project: String, location: String, auth: VertexAuth, base_url: String) -> (m: Self)
        ensures
            m.model_id == model_id && m.project == project && m.location == location && m.auth == auth
                && m.base_url == base_url && m.retry_config.max_retries == 2,
    {
        VertexVideoModel {
            model_id,
            project,
            location,
            auth,
            base_url,
            retry_config: crate::retry::RetryConfig::default_config(),
        }
    }

    /// At most one video per call.
    pub fn max_videos_per_call(&self) -> (n: Option<u32>)
        ensures
            n == Some(1u32),
    {
        Some(1)
    }
}

/// The Vertex AI provider.
#[derive(Debug)]
pub struct VertexProvider {
    config: VertexProviderConfig,
}

/// The model configuration of a provider configuration.
pub open spec fn model_config_of(c: VertexProviderConfig) -> VertexConfig {
    VertexConfig { base_url: c.base_url, auth: c.auth }
}

impl VertexProvider {
    pub fn new(config: VertexProviderConfig) -> (p: Self)
        ensures
            p.config() == config,
    {
        VertexProvider { config }
    }

    /// The configuration.
    pub closed spec fn config(&self) -> VertexProviderConfig {
        self.config
    }

    /// The provider name.
    pub fn name(&self) -> (s: &str)
        ensures
            s@ == "google.vertex"@,
    {
        "google.vertex"
    }

    fn model_config(&self) -> (c: VertexConfig)
        ensures
            c == model_config_of(self.config()),
    {
        VertexConfig { base_url: self.config.base_url.clone(), auth: self.config.auth.copy() }
    }

    /// A language model; tuned models (`endpoints/...`) cannot be used with
    /// an API key.
    pub fn model(&self, model_id: &str) -> (r: Result<VertexModel, AiMuxError>)
        ensures
            if is_prefix("endpoints/"@, model_id@) && self.config().auth is ApiKey {
                r matches Err(AiMuxError::InvalidArgument(m)) && m@
                    == "Google Vertex tuned models do not support Express Mode API keys. Use standard Google Cloud credentials instead."@
            } else {
                r matches Ok(m) && m.model_id_spec() == model_id@ && m.config_spec() == model_config_of(self.config())
            },
    {
        let is_api_key = match &self.config.auth {
            VertexAuth::ApiKey(_) => true,
            VertexAuth::BearerToken(_) => false,
        };
        if str_starts_with(model_id, "endpoints/") && is_api_key {
            return Err(
                AiMuxError::InvalidArgument(
                    String::from_str(
                        "Google Vertex tuned models do not support Express Mode API keys. Use standard Google Cloud credentials instead.",
                    ),
                ),
            );
        }
        Ok(VertexModel::new(String::from_str(model_id), self.model_config()))
    }

    /// An embedding model.
    pub fn embedding_model(&self, model_id: &str) -> (m: VertexEmbeddingModel)
        ensures
            m.model_id_spec() == model_id@,
            m.config_spec() == model_config_of(self.config()),
    {
        VertexEmbeddingModel::new(String::from_str(model_id), self.model_config())
    }

    /// An image generation model.
    pub fn image(&self, model_id: &str) -> (m: VertexImageModel)
        ensures
            m.model_id_spec() == model_id@,
            m.config_spec() == model_config_of(self.config()),
    {
        VertexImageModel::new(String::from_str(model_id), self.model_config())
    }

    /// A transcription model; needs a project (the location defaults to
    /// `us-central1`).
    pub fn transcription(&self, model_id: &str) -> (r: Result<VertexTranscriptionModel, AiMuxError>)
        ensures
            match self.config().project {
                None => r matches Err(AiMuxError::InvalidArgument(m)) && m@
                    == "Google Vertex transcription requires project and location. Use VertexProviderConfig::new() instead of with_api_key()."@,
                Some(p) => r matches Ok(m) && m.model_id@ == model_id@ && m.project == p && m.location@ == (
                match self.config().location {
                    Some(l) => l@,
                    None => "us-central1"@,
                }) && m.auth == self.config().auth && m.base_url == self.config().base_url,
            },
    {
        let project = match &self.config.project {
            Some(p) => p.clone(),
            None => {
                return Err(
                    AiMuxError::InvalidArgument(
                        String::from_str(
                            "Google Vertex transcription requires project and location. Use VertexProviderConfig::new() instead of with_api_key().",
                        ),
                    ),
                );
            },
        };
        let location = match &self.config.location {
            Some(l) => l.clone(),
            None => String::from_str("us-central1"),
        };
        Ok(
            VertexTranscriptionModel::new(
                String::from_str(model_id),
                project,
                location,
                self.config.auth.copy(),
                self.config.base_url.clone(),
            ),
        )
    }

    /// A video model; needs a project (the location defaults to
    /// `us-central1`).
    pub fn video(&self, model_id: &str) -> (r: Result<VertexVideoModel, AiMuxError>)
        ensures
            match self.config().project {
                None => r matches Err(AiMuxError::InvalidArgument(m)) && m@
                    == "Google Vertex video requires project and location. Use VertexProviderConfig::new() instead of with_api_key()."@,
                Some(p) => r matches Ok(m) && m.model_id@ == model_id@ && m.project == p && m.location@ == (
                match self.config().location {
                    Some(l) => l@,
                    None => "us-central1"@,
                }) && m.auth == self.config().auth && m.base_url == self.config().base_url,
            },
    {
        let project = match &self.config.project {
            Some(p) => p.clone(),
            None => {
                return Err(
                    AiMuxError::InvalidArgument(
                        String::from_str(
                            "Google Vertex video requires project and location. Use VertexProviderConfig::new() instead of with_api_key().",
                        ),
                    ),
                );
            },
        };
        let location = match &self.config.location {
            Some(l) => l.clone(),
            None => String::from_str("us-central1"),
        };
        Ok(
            VertexVideoModel::new(
                String::from_str(model_id),
                project,
                location,
                self.config.auth.copy(),
                self.config.base_url.clone(),
            ),
        )
    }
}

/// The ISO 639-1 code of a BCP 47 tag: its part before the first `-`, when
/// that part is two bytes long (its UTF-8 length as `str::len` reports it).
pub open spec fn bcp47_to_iso6391_spec(tag: Option<Seq<char>>) -> Option<Seq<char>> {
    match tag {
        Some(s) => {
            let p = before_first(s, '-');
            if encode_utf8(p).len() as usize == 2 {
                Some(p)
            } else {
                None
            }
        },
        None => None,
    }
}

/// Converts a BCP 47 language tag (`en-US`) to an ISO 639-1 code (`en`).
pub fn convert_bcp47_to_iso6391(value: &Option<String>) -> (r: Option<String>)
    ensures
        (match r {
            Some(s) => Some(s@),
            None => None,
        }) == bcp47_to_iso6391_spec(
            match value {
                Some(v) => Some(v@),
                None => None,
            },
        ),
{
    match value {
        Some(s) => {
            let p = split_before(s.as_str(), '-');
            if p.as_str().len() == 2 {
                Some(p)
            } else {
                None
            }
        },
        None => None,
    }
}

// ── Provider options ─────────────────────────────────────────────────────

/// The Vertex options of a call: the entry `googleVertex`, else `vertex`,
/// else (when `google` counts) `google`; none when none is present.
pub open spec fn vertex_options_spec(po: Option<Map<Seq<char>, JsonValue>>, google: bool) -> Option<Json> {
    match po {
        Some(m) => if m.dom().contains("googleVertex"@) {
            Some(m["googleVertex"@]@)
        } else if m.dom().contains("vertex"@) {
            Some(m["vertex"@]@)
        } else if google && m.dom().contains("google"@) {
            Some(m["google"@]@)
        } else {
            None
        },
        None => None,
    }
}

/// Picks the Vertex options of a call (see [`vertex_options_spec`]).
pub fn vertex_options(po: Option<&KeyedVec<JsonValue>>, google: bool) -> (r: Option<&JsonValue>)
    ensures
        opt_json_ref_view(r) == vertex_options_spec(opts_map(po), google),
{
    match po {
        Some(m) => match m.get("googleVertex") {
            Some(v) => Some(v),
            None => match m.get("vertex") {
                Some(v) => Some(v),
                None => if google {
                    m.get("google")
                } else {
                    None
                },
            },
        },
        None => None,
    }
}

/// The member `k` of the options, when they are an object that has it.
pub open spec fn option_of(o: Option<Json>, k: Seq<char>) -> Option<Json> {
    match o {
        Some(j) => json_get(j, k),
        None => None,
    }
}

/// A whole-number option, cut to 32 bits.
pub open spec fn u32_option(o: Option<Json>, k: Seq<char>) -> Option<u32> {
    match option_of(o, k) {
        Some(v) => match json_as_u64(v) {
            Some(n) => Some(n as u32),
            None => None,
        },
        None => None,
    }
}

/// A text option.
pub open spec fn text_option(o: Option<Json>, k: Seq<char>) -> Option<Seq<char>> {
    match option_of(o, k) {
        Some(Json::String(t)) => Some(t),
        _ => None,
    }
}

/// A flag option.
pub open spec fn bool_option(o: Option<Json>, k: Seq<char>) -> Option<bool> {
    match option_of(o, k) {
        Some(Json::Bool(b)) => Some(b),
        _ => None,
    }
}

fn member_of<'a>(o: Option<&'a JsonValue>, k: &str) -> (r: Option<&'a JsonValue>)
    ensures
        opt_json_ref_view(r) == option_of(opt_json_ref_view(o), k@),
{
    match o {
        Some(j) => j.get(k),
        None => None,
    }
}

fn u32_of(o: Option<&JsonValue>, k: &str) -> (r: Option<u32>)
    ensures
        r == u32_option(opt_json_ref_view(o), k@),
{
    match member_of(o, k) {
        Some(v) => match v.as_u64() {
            Some(n) => Some(n as u32),
            None => None,
        },
        None => None,
    }
}

fn text_of(o: Option<&JsonValue>, k: &str) -> (r: Option<String>)
    ensures
        opt_chars(r) == text_option(opt_json_ref_view(o), k@),
{
    match member_of(o, k) {
        Some(v) => match v.as_str() {
            Some(t) => Some(String::from_str(t)),
            None => None,
        },
        None => None,
    }
}

fn bool_of(o: Option<&JsonValue>, k: &str) -> (r: Option<bool>)
    ensures
        r == bool_option(opt_json_ref_view(o), k@),
{
    match member_of(o, k) {
        Some(v) => v.as_bool(),
        None => None,
    }
}

/// A string member when the text is given.
pub open spec fn text_member(k: Seq<char>, v: Option<Seq<char>>) -> Seq<(Seq<char>, Json)> {
    match v {
        Some(t) => seq![(k, Json::String(t))],
        None => Seq::empty(),
    }
}

/// A number member when the number is given.
pub open spec fn number_member(k: Seq<char>, v: Option<u32>) -> Seq<(Seq<char>, Json)> {
    match v {
        Some(n) => seq![(k, Json::Number(decimal_digits(n as nat)))],
        None => Seq::empty(),
    }
}

/// A flag member when the flag is given.
pub open spec fn flag_member(k: Seq<char>, v: Option<bool>) -> Seq<(Seq<char>, Json)> {
    match v {
        Some(b) => seq![(k, Json::Bool(b))],
        None => Seq::empty(),
    }
}

fn push_text_member(ms: &mut Vec<(String, JsonValue)>, k: &str, v: Option<String>)
    ensures
        members_view(final(ms)@) == members_view(old(ms)@) + text_member(k@, opt_chars(v)),
{
    let ghost before = members_view(ms@);
    match v {
        Some(t) => push_member(ms, k, JsonValue::String(t)),
        None => {},
    }
    assert(members_view(ms@) =~= before + text_member(k@, opt_chars(v)));
}

fn push_number_member(ms: &mut Vec<(String, JsonValue)>, k: &str, v: Option<u32>)
    ensures
        members_view(final(ms)@) == members_view(old(ms)@) + number_member(k@, v),
{
    let ghost before = members_view(ms@);
    match v {
        Some(n) => push_member(ms, k, JsonValue::Number(u64_to_decimal(n as u64))),
        None => {},
    }
    assert(members_view(ms@) =~= before + number_member(k@, v));
}

fn push_flag_member(ms: &mut Vec<(String, JsonValue)>, k: &str, v: Option<bool>)
    ensures
        members_view(final(ms)@) == members_view(old(ms)@) + flag_member(k@, v),
{
    let ghost before = members_view(ms@);
    match v {
        Some(b) => push_member(ms, k, JsonValue::Bool(b)),
        None => {},
    }
    assert(members_view(ms@) =~= before + flag_member(k@, v));
}

// ── Embeddings ───────────────────────────────────────────────────────────

/// The `:embedContent` body: the first value as the one text part, and the
/// embedding settings of the options.
pub open spec fn embed_content_body(first: Seq<char>, o: Option<Json>) -> Json {
    Json::Object(
        seq![
            (
                "content"@,
                Json::Object(
                    seq![("parts"@, Json::Array(seq![Json::Object(seq![("text"@, Json::String(first))])]))],
                ),
            ),
            (
                "embedContentConfig"@,
                Json::Object(
                    number_member("outputDimensionality"@, u32_option(o, "outputDimensionality"@)) + text_member(
                        "taskType"@,
                        text_option(o, "taskType"@),
                    ) + text_member("title"@, text_option(o, "title"@)) + flag_member(
                        "autoTruncate"@,
                        bool_option(o, "autoTruncate"@),
                    ),
                ),
            ),
        ],
    )
}

/// One `:predict` instance: the value, with the task type and title.
pub open spec fn predict_instance(value: Seq<char>, o: Option<Json>) -> Json {
    Json::Object(
        seq![("content"@, Json::String(value))] + text_member("task_type"@, text_option(o, "taskType"@))
            + text_member("title"@, text_option(o, "title"@)),
    )
}

/// The `:predict` instances of the values, in order.
pub open spec fn predict_instances(values: Seq<String>, o: Option<Json>) -> Seq<Json>
    decreases values.len(),
{
    if values.len() == 0 {
        Seq::empty()
    } else {
        predict_instances(values.drop_last(), o).push(predict_instance(values.last()@, o))
    }
}

/// The `:predict` body: one instance per value, and the parameters.
pub open spec fn predict_body(values: Seq<String>, o: Option<Json>) -> Json {
    Json::Object(
        seq![
            ("instances"@, Json::Array(predict_instances(values, o))),
            (
                "parameters"@,
                Json::Object(
                    number_member("outputDimensionality"@, u32_option(o, "outputDimensionality"@)) + flag_member(
                        "autoTruncate"@,
                        bool_option(o, "autoTruncate"@),
                    ),
                ),
            ),
        ],
    )
}

/// The body of an embedding call: `:embedContent` models embed the first
/// value (the empty text when there is none), the others every value.
pub open spec fn vertex_embed_body(model_id: Seq<char>, values: Seq<String>, o: Option<Json>) -> Json {
    if uses_embed_content_spec(model_id) {
        embed_content_body(
            if values.len() > 0 {
                values[0]@
            } else {
                Seq::empty()
            },
            o,
        )
    } else {
        predict_body(values, o)
    }
}

/// The URL of an embedding call.
pub open spec fn vertex_embed_url(base_url: Seq<char>, model_id: Seq<char>) -> Seq<char> {
    base_url + "/models/"@ + model_id + if uses_embed_content_spec(model_id) {
        ":embedContent"@
    } else {
        ":predict"@
    }
}

fn embed_config_members(o: Option<&JsonValue>, dims_first: bool) -> (r: Vec<(String, JsonValue)>)
    ensures
        dims_first ==> members_view(r@) == number_member(
            "outputDimensionality"@,
            u32_option(opt_json_ref_view(o), "outputDimensionality"@),
        ) + text_member("taskType"@, text_option(opt_json_ref_view(o), "taskType"@)) + text_member(
            "title"@,
            text_option(opt_json_ref_view(o), "title"@),
        ) + flag_member("autoTruncate"@, bool_option(opt_json_ref_view(o), "autoTruncate"@)),
        !dims_first ==> members_view(r@) == number_member(
            "outputDimensionality"@,
            u32_option(opt_json_ref_view(o), "outputDimensionality"@),
        ) + flag_member("autoTruncate"@, bool_option(opt_json_ref_view(o), "autoTruncate"@)),
{
    let mut ms: Vec<(String, JsonValue)> = Vec::new();
    assert(members_view(ms@) =~= Seq::<(Seq<char>, Json)>::empty());
    push_number_member(&mut ms, "outputDimensionality", u32_of(o, "outputDimensionality"));
    if dims_first {
        push_text_member(&mut ms, "taskType", text_of(o, "taskType"));
        push_text_member(&mut ms, "title", text_of(o, "title"));
    }
    push_flag_member(&mut ms, "autoTruncate", bool_of(o, "autoTruncate"));
    ms
}

/// Builds an `:embedContent` body (see [`embed_content_body`]).
fn embed_content_request(first: String, o: Option<&JsonValue>) -> (b: JsonValue)
    ensures
        b@ == embed_content_body(first@, opt_json_ref_view(o)),
{
    let ghost f = first@;
    let mut part: Vec<(String, JsonValue)> = Vec::new();
    push_member(&mut part, "text", JsonValue::String(first));
    let ghost mp = members_view(part@);
    let mut parts: Vec<JsonValue> = Vec::new();
    let p0 = JsonValue::Object(part);
    let ghost p0v = p0@;
    parts.push(p0);
    proof {
        assert(parts@.len() == 1);
        assert(parts@.drop_last() =~= Seq::<JsonValue>::empty());
        assert(items_view(parts@.drop_last()) =~= Seq::<Json>::empty());
        assert(parts@.last()@ == p0v);
        assert(items_view(parts@) =~= seq![p0v]);
    }
    let mut content: Vec<(String, JsonValue)> = Vec::new();
    let ghost pv = items_view(parts@);
    push_member(&mut content, "parts", JsonValue::Array(parts));
    let ghost cv = members_view(content@);
    let config = embed_config_members(o, true);
    let ghost gv = members_view(config@);
    let mut body: Vec<(String, JsonValue)> = Vec::new();
    push_member(&mut body, "content", JsonValue::Object(content));
    push_member(&mut body, "embedContentConfig", JsonValue::Object(config));
    proof {
        assert(mp =~= seq![("text"@, Json::String(f))]);
        assert(p0v == Json::Object(seq![("text"@, Json::String(f))]));
        assert(pv =~= seq![p0v]);
        assert(cv =~= seq![("parts"@, Json::Array(pv))]);
        assert(members_view(body@) =~= seq![("content"@, Json::Object(cv)), ("embedContentConfig"@, Json::Object(gv))]);
    }
    JsonValue::Object(body)
}

/// Builds a `:predict` body (see [`predict_body`]).
fn predict_request(values: &Vec<String>, o: Option<&JsonValue>) -> (b: JsonValue)
    ensures
        b@ == predict_body(values@, opt_json_ref_view(o)),
{
    let ghost ov = opt_json_ref_view(o);
    let mut instances: Vec<JsonValue> = Vec::new();
    let mut i: usize = 0;
    assert(values@.subrange(0, 0) =~= Seq::<String>::empty());
    assert(items_view(instances@) =~= Seq::<Json>::empty());
    while i < values.len()
        invariant
            0 <= i <= values@.len(),
            ov == opt_json_ref_view(o),
            items_view(instances@) == predict_instances(values@.subrange(0, i as int), ov),
        decreases values@.len() - i,
    {
        let mut inst: Vec<(String, JsonValue)> = Vec::new();
        push_member(&mut inst, "content", JsonValue::String(values[i].clone()));
        let ghost m1 = members_view(inst@);
        push_text_member(&mut inst, "task_type", text_of(o, "taskType"));
        push_text_member(&mut inst, "title", text_of(o, "title"));
        let ghost before = instances@;
        let iv = JsonValue::Object(inst);
        let ghost ivv = iv@;
        instances.push(iv);
        proof {
            assert(m1 =~= seq![("content"@, Json::String(values@[i as int]@))]);
            assert(ivv == predict_instance(values@[i as int]@, ov));
            assert(instances@.drop_last() =~= before);
            assert(items_view(instances@) == items_view(before).push(ivv));
            let sub = values@.subrange(0, i + 1);
            assert(sub.drop_last() =~= values@.subrange(0, i as int));
            assert(sub.last() == values@[i as int]);
        }
        i += 1;
    }
    assert(values@.subrange(0, i as int) =~= values@);
    let ghost iv = items_view(instances@);
    let params = embed_config_members(o, false);
    let ghost pv = members_view(params@);
    let mut body: Vec<(String, JsonValue)> = Vec::new();
    push_member(&mut body, "instances", JsonValue::Array(instances));
    push_member(&mut body, "parameters", JsonValue::Object(params));
    proof {
        assert(members_view(body@) =~= seq![("instances"@, Json::Array(iv)), ("parameters"@, Json::Object(pv))]);
    }
    JsonValue::Object(body)
}

impl VertexEmbeddingModel {
    /// The URL and body of an embedding call (see [`vertex_embed_url`] and
    /// [`vertex_embed_body`]); the options are the call's provider options.
    pub fn embed_request(&self, values: &Vec<String>, provider_options: Option<&KeyedVec<JsonValue>>) -> (r: (
        String,
        JsonValue,
    ))
        ensures
            r.0@ == vertex_embed_url(self.config_spec().base_url@, self.model_id_spec()),
            r.1@ == vertex_embed_body(
                self.model_id_spec(),
                values@,
                vertex_options_spec(opts_map(provider_options), true),
            ),
    {
        let o = vertex_options(provider_options, true);
        let base = concat3(self.config.base_url.as_str(), "/models/", self.model_id.as_str());
        if uses_embed_content_endpoint(self.model_id.as_str()) {
            let url = concat(base.as_str(), ":embedContent");
            let first = if values.len() > 0 {
                values[0].clone()
            } else {
                String::new()
            };
            (url, embed_content_request(first, o))
        } else {
            let url = concat(base.as_str(), ":predict");
            (url, predict_request(values, o))
        }
    }
}

proof fn lemma_predict_instances_len(values: Seq<String>, o: Option<Json>)
    ensures
        predict_instances(values, o).len() == values.len(),
        forall|i: int| 0 <= i < values.len() ==> #[trigger] predict_instances(values, o)[i] == predict_instance(values[i]@, o),
    decreases values.len(),
{
    if values.len() > 0 {
        lemma_predict_instances_len(values.drop_last(), o);
        assert forall|i: int| 0 <= i < values.len() implies #[trigger] predict_instances(values, o)[i]
            == predict_instance(values[i]@, o) by {
            if i < values.len() - 1 {
                assert(values.drop_last()[i] == values[i]);
            }
        }
    }
}

/// An embedding request carries as many values as one call of the model
/// takes: a `:predict` body has one instance per value, in order, each
/// holding its value; an `:embedContent` body holds exactly one text.
pub proof fn law_embed_request_matches_call_size(model_id: Seq<char>, values: Seq<String>, o: Option<Json>)
    ensures
        !uses_embed_content_spec(model_id) ==> (vertex_embed_body(model_id, values, o) matches Json::Object(ms)
            && ms[0].1 matches Json::Array(insts) && insts.len() == values.len() && forall|i: int|
            0 <= i < values.len() ==> json_get(#[trigger] insts[i], "content"@) == Some(Json::String(values[i]@))),
        uses_embed_content_spec(model_id) ==> (vertex_embed_body(model_id, values, o) matches Json::Object(ms)
            && ms[0].1 == Json::Object(
            seq![
                (
                    "parts"@,
                    Json::Array(
                        seq![
                            Json::Object(
                                seq![
                                    (
                                        "text"@,
                                        Json::String(
                                            if values.len() > 0 {
                                                values[0]@
                                            } else {
                                                Seq::empty()
                                            },
                                        ),
                                    ),
                                ],
                            ),
                        ],
                    ),
                ),
            ],
        )),
{
    lemma_predict_instances_len(values, o);
    reveal_strlit("content");
    reveal_strlit("task_type");
    reveal_strlit("title");
    assert forall|i: int| 0 <= i < values.len() implies json_get(#[trigger] predict_instances(values, o)[i], "content"@)
        == Some(Json::String(values[i]@)) by {
        let ms = seq![("content"@, Json::String(values[i]@))] + text_member("task_type"@, text_option(o, "taskType"@))
            + text_member("title"@, text_option(o, "title"@));
        assert(predict_instances(values, o)[i] == Json::Object(ms));
        let head = seq![("content"@, Json::String(values[i]@))];
        let tail = text_member("task_type"@, text_option(o, "taskType"@)) + text_member("title"@, text_option(o, "title"@));
        assert(ms =~= head + tail);
        assert(forall|j: int| 0 <= j < tail.len() ==> #[trigger] tail[j].0 != "content"@) by {
            assert("task_type"@.len() != "content"@.len());
            assert("title"@.len() != "content"@.len());
        }
        lemma_member_get_skip(head, tail, "content"@);
        assert(head.drop_last() =~= Seq::<(Seq<char>, Json)>::empty());
    }
}

/// Members after the last one named `k` that are not named `k` do not
/// change what `k` gives.
proof fn lemma_member_get_skip(ms: Seq<(Seq<char>, Json)>, tail: Seq<(Seq<char>, Json)>, k: Seq<char>)
    requires
        forall|j: int| 0 <= j < tail.len() ==> #[trigger] tail[j].0 != k,
    ensures
        crate::json::member_get(ms + tail, k) == crate::json::member_get(ms, k),
    decreases tail.len(),
{
    if tail.len() == 0 {
        assert(ms + tail =~= ms);
    } else {
        assert((ms + tail).drop_last() =~= ms + tail.drop_last());
        assert((ms + tail).last() == tail.last());
        assert(tail.last() == tail[tail.len() - 1]);
        lemma_member_get_skip(ms, tail.drop_last(), k);
    }
}

/// The predictions of a `:predict` answer (none when absent).
pub open spec fn predictions_of(raw: Json) -> Seq<Json> {
    match json_get(raw, "predictions"@) {
        Some(Json::Array(a)) => a,
        _ => Seq::empty(),
    }
}

/// A whole number under `k`, when present.
pub open spec fn u64_at(j: Option<Json>, k: Seq<char>) -> Option<u64> {
    match j {
        Some(v) => match json_get(v, k) {
            Some(n) => json_as_u64(n),
            None => None,
        },
        None => None,
    }
}

/// The token count a prediction reports (`embeddings.statistics.token_count`,
/// cut to 32 bits; 0 when absent).
pub open spec fn prediction_tokens(p: Json) -> int {
    match u64_at(option_of(option_of(Some(p), "embeddings"@), "statistics"@), "token_count"@) {
        Some(n) => (n as u32) as int,
        None => 0,
    }
}

/// The tokens of predictions, added up.
pub open spec fn tokens_sum(ps: Seq<Json>) -> int
    decreases ps.len(),
{
    if ps.len() == 0 {
        0
    } else {
        tokens_sum(ps.drop_last()) + prediction_tokens(ps.last())
    }
}

/// The token count of an embedding answer: `usageMetadata.promptTokenCount`
/// (cut to 32 bits) for `:embedContent` models, else the sum over the
/// predictions.
pub open spec fn vertex_embed_tokens_spec(model_id: Seq<char>, raw: Json) -> Option<u32> {
    if uses_embed_content_spec(model_id) {
        match u64_at(json_get(raw, "usageMetadata"@), "promptTokenCount"@) {
            Some(n) => Some(n as u32),
            None => None,
        }
    } else {
        Some(tokens_sum(predictions_of(raw)) as u32)
    }
}

proof fn lemma_tokens_sum_prefix(ps: Seq<Json>, i: int)
    requires
        0 <= i <= ps.len(),
    ensures
        0 <= tokens_sum(ps.subrange(0, i)) <= tokens_sum(ps),
    decreases ps.len(),
{
    if ps.len() > 0 {
        if i == ps.len() {
            assert(ps.subrange(0, i) =~= ps);
            lemma_tokens_sum_prefix(ps.drop_last(), i - 1);
            assert(ps.drop_last().subrange(0, i - 1) =~= ps.drop_last());
        } else {
            lemma_tokens_sum_prefix(ps.drop_last(), i);
            assert(ps.drop_last().subrange(0, i) =~= ps.subrange(0, i));
        }
    }
}

fn u64_under(j: Option<&JsonValue>, k: &str) -> (r: Option<u64>)
    ensures
        r == u64_at(opt_json_ref_view(j), k@),
{
    match j {
        Some(v) => match v.get(k) {
            Some(n) => n.as_u64(),
            None => None,
        },
        None => None,
    }
}

/// The token count of an embedding answer (see [`vertex_embed_tokens_spec`]);
/// the predictions' counts must add up within 32 bits.
pub fn vertex_embed_token_total(model_id: &str, raw: &JsonValue) -> (r: Option<u32>)
    requires
        !uses_embed_content_spec(model_id@) ==> tokens_sum(predictions_of(raw@)) <= u32::MAX,
    ensures
        r == vertex_embed_tokens_spec(model_id@, raw@),
{
    if uses_embed_content_endpoint(model_id) {
        return match u64_under(raw.get("usageMetadata"), "promptTokenCount") {
            Some(n) => Some(n as u32),
            None => None,
        };
    }
    let mut total: u32 = 0;
    match raw.get("predictions") {
        Some(JsonValue::Array(preds)) => {
            let ghost ps = items_view(preds@);
            proof { crate::json::lemma_items_view(preds@); }
            let mut i: usize = 0;
            assert(ps.subrange(0, 0) =~= Seq::<Json>::empty());
            while i < preds.len()
                invariant
                    0 <= i <= preds@.len(),
                    ps == items_view(preds@),
                    ps.len() == preds@.len(),
                    forall|j: int| 0 <= j < preds@.len() ==> #[trigger] ps[j] == preds@[j]@,
                    ps == predictions_of(raw@),
                    tokens_sum(ps) <= u32::MAX,
                    total == tokens_sum(ps.subrange(0, i as int)),
                decreases preds@.len() - i,
            {
                let stats = member_of(member_of(Some(&preds[i]), "embeddings"), "statistics");
                let t: u32 = match u64_under(stats, "token_count") {
                    Some(n) => n as u32,
                    None => 0,
                };
                proof {
                    assert(ps.subrange(0, i + 1).drop_last() =~= ps.subrange(0, i as int));
                    assert(ps.subrange(0, i + 1).last() == ps[i as int]);
                    assert(t == prediction_tokens(ps[i as int]));
                    lemma_tokens_sum_prefix(ps, i + 1);
                }
                total = total + t;
                i += 1;
            }
            assert(ps.subrange(0, i as int) =~= ps);
        },
        _ => {},
    }
    Some(total)
}

// ── Transcription ────────────────────────────────────────────────────────

/// The string values among JSON values, in order.
pub open spec fn string_values(a: Seq<Json>) -> Seq<Json>
    decreases a.len(),
{
    if a.len() == 0 {
        Seq::empty()
    } else {
        let r = string_values(a.drop_last());
        match a.last() {
            Json::String(_) => r.push(a.last()),
            _ => r,
        }
    }
}

/// The language codes of a recognition: the strings of the
/// `languageCodes` option when it is an array, else `auto`.
pub open spec fn stt_language_codes(o: Option<Json>) -> Seq<Json> {
    match option_of(o, "languageCodes"@) {
        Some(Json::Array(a)) => string_values(a),
        _ => seq![Json::String("auto"@)],
    }
}

/// A flag option, `true` when absent.
pub open spec fn flag_or_on(o: Option<Json>, k: Seq<char>) -> bool {
    match bool_option(o, k) {
        Some(b) => b,
        None => true,
    }
}

/// The audio as base64 text (binary audio is encoded).
pub open spec fn audio_content(a: AudioInput) -> Seq<char> {
    match a {
        AudioInput::Base64(s) => s@,
        AudioInput::Binary(b) => base64_encoded(b@),
    }
}

/// The recognition body: the model, the language codes, automatic decoding,
/// word time offsets and punctuation (each on unless the options turn it
/// off), and the audio content.
pub open spec fn vertex_transcription_body_spec(model_id: Seq<char>, content: Seq<char>, o: Option<Json>) -> Json {
    Json::Object(
        seq![
            (
                "config"@,
                Json::Object(
                    seq![
                        ("model"@, Json::String(model_id)),
                        ("languageCodes"@, Json::Array(stt_language_codes(o))),
                        ("autoDecodingConfig"@, Json::Object(Seq::empty())),
                        (
                            "features"@,
                            Json::Object(
                                seq![
                                    ("enableWordTimeOffsets"@, Json::Bool(flag_or_on(o, "enableWordTimeOffsets"@))),
                                    (
                                        "enableAutomaticPunctuation"@,
                                        Json::Bool(flag_or_on(o, "enableAutomaticPunctuation"@)),
                                    ),
                                ],
                            ),
                        ),
                    ],
                ),
            ),
            ("content"@, Json::String(content)),
        ],
    )
}

/// The region of a recognition: the `region` option, else the location.
pub open spec fn stt_region(o: Option<Json>, location: Seq<char>) -> Seq<char> {
    match text_option(o, "region"@) {
        Some(r) => r,
        None => location,
    }
}

/// The recognition URL: on a local test server the base URL itself, else
/// the regional Speech-to-Text host (`speech.googleapis.com` for `global`).
pub open spec fn stt_endpoint_spec(base_url: Seq<char>, project: Seq<char>, region: Seq<char>) -> Seq<char> {
    let path = "/v2/projects/"@ + project + "/locations/"@ + region + "/recognizers/_:recognize"@;
    if is_prefix("http://127.0.0.1"@, base_url) || is_prefix("http://localhost"@, base_url) {
        base_url + path
    } else if region == "global"@ {
        "https://speech.googleapis.com"@ + path
    } else {
        "https://"@ + region + "-speech.googleapis.com"@ + path
    }
}

/// Off a local test server, recognition goes to the global Speech-to-Text
/// host `speech.googleapis.com` for the `global` region and to
/// `{region}-speech.googleapis.com` for any other, under the project and
/// region; on a local server it goes to the base URL.
pub proof fn law_stt_hosts(base_url: Seq<char>, project: Seq<char>, region: Seq<char>)
    ensures
        !is_local_spec(base_url) && region == "global"@ ==> stt_endpoint_spec(base_url, project, region)
            == "https://speech.googleapis.com/v2/projects/"@ + project + "/locations/global/recognizers/_:recognize"@,
        !is_local_spec(base_url) && region != "global"@ ==> stt_endpoint_spec(base_url, project, region)
            == "https://"@ + region + "-speech.googleapis.com/v2/projects/"@ + project + "/locations/"@ + region
            + "/recognizers/_:recognize"@,
        is_local_spec(base_url) ==> stt_endpoint_spec(base_url, project, region) == base_url + "/v2/projects/"@
            + project + "/locations/"@ + region + "/recognizers/_:recognize"@,
{
    reveal_strlit("https://speech.googleapis.com");
    reveal_strlit("https://speech.googleapis.com/v2/projects/");
    reveal_strlit("/v2/projects/");
    reveal_strlit("/locations/");
    reveal_strlit("/recognizers/_:recognize");
    reveal_strlit("/locations/global/recognizers/_:recognize");
    reveal_strlit("global");
    reveal_strlit("https://");
    reveal_strlit("-speech.googleapis.com");
    reveal_strlit("-speech.googleapis.com/v2/projects/");
    let path = "/v2/projects/"@ + project + "/locations/"@ + region + "/recognizers/_:recognize"@;
    if !is_local_spec(base_url) && region == "global"@ {
        assert("https://speech.googleapis.com"@ + path =~= "https://speech.googleapis.com/v2/projects/"@ + project
            + "/locations/global/recognizers/_:recognize"@);
    }
    if !is_local_spec(base_url) && region != "global"@ {
        assert("https://"@ + region + "-speech.googleapis.com"@ + path =~= "https://"@ + region
            + "-speech.googleapis.com/v2/projects/"@ + project + "/locations/"@ + region + "/recognizers/_:recognize"@);
    }
    if is_local_spec(base_url) {
        assert(base_url + path =~= base_url + "/v2/projects/"@ + project + "/locations/"@ + region
            + "/recognizers/_:recognize"@);
    }
}

fn language_codes_of(o: Option<&JsonValue>) -> (r: Vec<JsonValue>)
    ensures
        items_view(r@) == stt_language_codes(opt_json_ref_view(o)),
{
    let mut out: Vec<JsonValue> = Vec::new();
    match member_of(o, "languageCodes") {
        Some(JsonValue::Array(items)) => {
            let mut i: usize = 0;
            assert(items@.subrange(0, 0) =~= Seq::<JsonValue>::empty());
            assert(items_view(out@) =~= Seq::<Json>::empty());
            while i < items.len()
                invariant
                    0 <= i <= items@.len(),
                    items_view(out@) == string_values(items_view(items@.subrange(0, i as int))),
                decreases items@.len() - i,
            {
                let ghost prefix = items_view(items@.subrange(0, i as int));
                proof {
                    assert(items@.subrange(0, i + 1).drop_last() =~= items@.subrange(0, i as int));
                    assert(items_view(items@.subrange(0, i + 1)) == prefix.push(items@[i as int]@));
                    assert(prefix.push(items@[i as int]@).drop_last() =~= prefix);
                }
                match &items[i] {
                    JsonValue::String(t) => {
                        let ghost before = out@;
                        let v = JsonValue::String(t.clone());
                        out.push(v);
                        assert(out@.drop_last() =~= before);
                    },
                    _ => {},
                }
                i += 1;
            }
            assert(items@.subrange(0, i as int) =~= items@);
        },
        _ => {
            out.push(JsonValue::String(String::from_str("auto")));
            proof {
                assert(out@.drop_last() =~= Seq::<JsonValue>::empty());
                assert(items_view(out@.drop_last()) =~= Seq::<Json>::empty());
                assert(out@.last()@ == Json::String("auto"@));
                assert(items_view(out@) =~= seq![Json::String("auto"@)]);
            }
        },
    }
    out
}

impl VertexTranscriptionModel {
    /// The URL and body of a recognition (see [`stt_endpoint_spec`] and
    /// [`vertex_transcription_body_spec`]); the options are the call's
    /// provider options.
    pub fn transcription_request(&self, audio: &AudioInput, provider_options: Option<&KeyedVec<JsonValue>>) -> (r: (
        String,
        JsonValue,
    ))
        ensures
            r.0@ == stt_endpoint_spec(
                self.base_url@,
                self.project@,
                stt_region(vertex_options_spec(opts_map(provider_options), true), self.location@),
            ),
            r.1@ == vertex_transcription_body_spec(
                self.model_id@,
                audio_content(*audio),
                vertex_options_spec(opts_map(provider_options), true),
            ),
    {
        let o = vertex_options(provider_options, true);
        let region = match text_of(o, "region") {
            Some(r) => r,
            None => self.location.clone(),
        };
        let content = audio_input_to_base64(audio);
        let codes = language_codes_of(o);
        let ghost codes_v = items_view(codes@);
        let words = match bool_of(o, "enableWordTimeOffsets") {
            Some(b) => b,
            None => true,
        };
        let punct = match bool_of(o, "enableAutomaticPunctuation") {
            Some(b) => b,
            None => true,
        };
        let mut features: Vec<(String, JsonValue)> = Vec::new();
        push_member(&mut features, "enableWordTimeOffsets", JsonValue::Bool(words));
        push_member(&mut features, "enableAutomaticPunctuation", JsonValue::Bool(punct));
        let ghost fv = members_view(features@);
        let empty: Vec<(String, JsonValue)> = Vec::new();
        assert(members_view(empty@) =~= Seq::<(Seq<char>, Json)>::empty()) by {
            assert(empty@ =~= Seq::<(String, JsonValue)>::empty());
        }
        let ghost words_v = words;
        let ghost punct_v = punct;
        let mut config: Vec<(String, JsonValue)> = Vec::new();
        push_member(&mut config, "model", JsonValue::String(self.model_id.clone()));
        push_member(&mut config, "languageCodes", JsonValue::Array(codes));
        push_member(&mut config, "autoDecodingConfig", JsonValue::Object(empty));
        push_member(&mut config, "features", JsonValue::Object(features));
        let ghost gv = members_view(config@);
        let ghost cv = content@;
        let mut body: Vec<(String, JsonValue)> = Vec::new();
        push_member(&mut body, "config", JsonValue::Object(config));
        push_member(&mut body, "content", JsonValue::String(content));
        proof {
            assert(members_view(Seq::<(String, JsonValue)>::empty()) =~= Seq::<(Seq<char>, Json)>::empty());
            assert(gv =~= seq![
                ("model"@, Json::String(self.model_id@)),
                ("languageCodes"@, Json::Array(codes_v)),
                ("autoDecodingConfig"@, Json::Object(Seq::empty())),
                ("features"@, Json::Object(fv)),
            ]);
            assert(members_view(body@) =~= seq![("config"@, Json::Object(gv)), ("content"@, Json::String(cv))]);
            assert(fv =~= seq![("enableWordTimeOffsets"@, Json::Bool(words_v)), ("enableAutomaticPunctuation"@, Json::Bool(punct_v))]);
            assert(cv == audio_content(*audio));
            assert(codes_v == stt_language_codes(opt_json_ref_view(o)));
        }
        let url = self.endpoint(region.as_str());
        (url, JsonValue::Object(body))
    }

    /// The recognition URL for a region (see [`stt_endpoint_spec`]).
    pub fn endpoint(&self, region: &str) -> (r: String)
        ensures
            r@ == stt_endpoint_spec(self.base_url@, self.project@, region@),
    {
        let a = concat3("/v2/projects/", self.project.as_str(), "/locations/");
        let b = concat3(a.as_str(), region, "/recognizers/_:recognize");
        if str_starts_with(self.base_url.as_str(), "http://127.0.0.1") || str_starts_with(
            self.base_url.as_str(),
            "http://localhost",
        ) {
            concat(self.base_url.as_str(), b.as_str())
        } else if str_eq(region, "global") {
            concat("https://speech.googleapis.com", b.as_str())
        } else {
            let h = concat3("https://", region, "-speech.googleapis.com");
            concat(h.as_str(), b.as_str())
        }
    }
}

/// One recognition alternative (its word timings are not carried).
#[derive(Debug)]
pub struct VertexSttAlternative {
    pub transcript: Option<String>,
}

/// One recognition result.
#[derive(Debug)]
pub struct VertexSttResult {
    pub alternatives: Option<Vec<VertexSttAlternative>>,
    pub language_code: Option<String>,
}

/// The transcript of a result's first alternative, when it has one.
pub open spec fn first_transcript(r: VertexSttResult) -> Option<Seq<char>> {
    match r.alternatives {
        Some(a) => if a@.len() > 0 {
            opt_chars(a@[0].transcript)
        } else {
            None
        },
        None => None,
    }
}

/// The transcripts of results, in order.
pub open spec fn transcripts(rs: Seq<VertexSttResult>) -> Seq<Seq<char>>
    decreases rs.len(),
{
    if rs.len() == 0 {
        Seq::empty()
    } else {
        let t = transcripts(rs.drop_last());
        match first_transcript(rs.last()) {
            Some(x) => t.push(x),
            None => t,
        }
    }
}

/// Texts joined by single spaces.
pub open spec fn space_joined(ts: Seq<Seq<char>>) -> Seq<char>
    decreases ts.len(),
{
    if ts.len() == 0 {
        Seq::empty()
    } else if ts.len() == 1 {
        ts[0]
    } else {
        space_joined(ts.drop_last()) + " "@ + ts.last()
    }
}

/// The text of a recognition: the first transcripts of the results joined
/// by spaces, trimmed.
pub open spec fn vertex_transcript_spec(rs: Seq<VertexSttResult>) -> Seq<char> {
    trim_spec(space_joined(transcripts(rs)))
}

fn first_transcript_of(r: &VertexSttResult) -> (t: Option<String>)
    ensures
        opt_chars(t) == first_transcript(*r),
{
    match &r.alternatives {
        Some(a) => if a.len() > 0 {
            match &a[0].transcript {
                Some(x) => Some(x.clone()),
                None => None,
            }
        } else {
            None
        },
        None => None,
    }
}

/// The text of a recognition (see [`vertex_transcript_spec`]).
pub fn vertex_transcript_text(results: &Vec<VertexSttResult>) -> (r: String)
    ensures
        r@ == vertex_transcript_spec(results@),
{
    let mut out = String::new();
    let mut any = false;
    let mut i: usize = 0;
    assert(results@.subrange(0, 0) =~= Seq::<VertexSttResult>::empty());
    while i < results.len()
        invariant
            0 <= i <= results@.len(),
            out@ == space_joined(transcripts(results@.subrange(0, i as int))),
            any == (transcripts(results@.subrange(0, i as int)).len() > 0),
        decreases results@.len() - i,
    {
        let ghost ts = transcripts(results@.subrange(0, i as int));
        proof {
            assert(results@.subrange(0, i + 1).drop_last() =~= results@.subrange(0, i as int));
            assert(results@.subrange(0, i + 1).last() == results@[i as int]);
        }
        match first_transcript_of(&results[i]) {
            Some(t) => {
                if any {
                    let a = concat(out.as_str(), " ");
                    out = concat(a.as_str(), t.as_str());
                } else {
                    out = t;
                }
                any = true;
                proof {
                    assert(ts.push(t@).drop_last() =~= ts);
                }
            },
            None => {},
        }
        i += 1;
    }
    assert(results@.subrange(0, i as int) =~= results@);
    str_trim(out.as_str())
}

/// The ISO 639-1 code of a BCP 47 tag: the part before the first `-`,
/// when it is two bytes long.
pub open spec fn iso6391_spec(tag: Option<Seq<char>>) -> Option<Seq<char>> {
    match tag {
        Some(t) => {
            let p = before_first(t, '-');
            if encode_utf8(p).len() == 2 {
                Some(p)
            } else {
                None
            }
        },
        None => None,
    }
}

/// The language of a recognition: the ISO 639-1 code of the first result's
/// language tag.
pub fn vertex_transcript_language(results: &Vec<VertexSttResult>) -> (r: Option<String>)
    ensures
        opt_chars(r) == iso6391_spec(
            if results@.len() > 0 {
                opt_chars(results@[0].language_code)
            } else {
                None
            },
        ),
{
    if results.len() == 0 {
        return None;
    }
    match &results[0].language_code {
        Some(tag) => {
            let p = split_before(tag.as_str(), '-');
            if p.as_str().as_bytes().len() == 2 {
                Some(p)
            } else {
                None
            }
        },
        None => None,
    }
}

// ── Video ────────────────────────────────────────────────────────────────

/// Whether a base URL is a local test server.
pub open spec fn is_local_spec(base_url: Seq<char>) -> bool {
    is_prefix("http://127.0.0.1"@, base_url) || is_prefix("http://localhost"@, base_url)
}

fn is_local(base_url: &str) -> (b: bool)
    ensures
        b == is_local_spec(base_url@),
{
    str_starts_with(base_url, "http://127.0.0.1") || str_starts_with(base_url, "http://localhost")
}

/// The optional JSON value, `null` when absent.
pub open spec fn or_null(v: Option<Json>) -> Json {
    match v {
        Some(j) => j,
        None => Json::Null,
    }
}

/// The instance members of a video generation: the prompt (`null` when
/// absent) and, for an image given by URL, the image as a PNG at that URI.
pub open spec fn video_instance_members(prompt: Option<Seq<char>>, image_url: Option<Seq<char>>) -> Seq<(Seq<char>, Json)> {
    seq![("prompt"@, or_null_text(prompt))] + match image_url {
        Some(u) => seq![
            ("image"@, Json::Object(seq![("gcsUri"@, Json::String(u)), ("mimeType"@, Json::String("image/png"@))])),
        ],
        None => Seq::empty(),
    }
}

/// A text as JSON, `null` when absent.
pub open spec fn or_null_text(t: Option<Seq<char>>) -> Json {
    match t {
        Some(p) => Json::String(p),
        None => Json::Null,
    }
}

/// A member holding a JSON value when it is given.
pub open spec fn json_member(k: Seq<char>, v: Option<Json>) -> Seq<(Seq<char>, Json)> {
    match v {
        Some(j) => seq![(k, j)],
        None => Seq::empty(),
    }
}

/// The parameters of a video generation that are given.
pub open spec fn video_parameters(
    aspect_ratio: Option<Seq<char>>,
    seed: Option<Json>,
    duration: Option<Json>,
    generate_audio: Option<bool>,
) -> Seq<(Seq<char>, Json)> {
    text_member("aspectRatio"@, aspect_ratio) + json_member("seed"@, seed) + json_member("durationSeconds"@, duration)
        + flag_member("generateAudio"@, generate_audio)
}

/// The body that starts a video generation: one instance (see
/// [`video_instance_members`]) and the parameters that are given.
pub open spec fn vertex_video_body_spec(
    prompt: Option<Seq<char>>,
    image_url: Option<Seq<char>>,
    aspect_ratio: Option<Seq<char>>,
    seed: Option<Json>,
    duration: Option<Json>,
    generate_audio: Option<bool>,
) -> Json {
    Json::Object(
        seq![
            ("instances"@, Json::Array(seq![Json::Object(video_instance_members(prompt, image_url))])),
            ("parameters"@, Json::Object(video_parameters(aspect_ratio, seed, duration, generate_audio))),
        ],
    )
}

/// The URL that starts a video generation.
pub open spec fn video_predict_url_spec(base_url: Seq<char>, project: Seq<char>, location: Seq<char>, model_id: Seq<char>) -> Seq<char> {
    if is_local_spec(base_url) {
        base_url + "/models/"@ + model_id + ":predictLongRunning"@
    } else {
        "https://"@ + location + "-aiplatform.googleapis.com/v1beta1/projects/"@ + project + "/locations/"@
            + location + "/publishers/google/models/"@ + model_id + ":predictLongRunning"@
    }
}

/// The URL of an operation.
pub open spec fn video_operation_url_spec(base_url: Seq<char>, location: Seq<char>, name: Seq<char>) -> Seq<char> {
    if is_local_spec(base_url) {
        base_url + "/"@ + name
    } else {
        "https://"@ + location + "-aiplatform.googleapis.com/v1beta1/"@ + name
    }
}

fn opt_str_text(o: Option<&str>) -> (r: Option<String>)
    ensures
        opt_chars(r) == crate::openai::image::opt_text(o),
{
    match o {
        Some(t) => Some(String::from_str(t)),
        None => None,
    }
}

impl VertexVideoModel {
    /// The URL that starts a video generation (see [`video_predict_url_spec`]).
    pub fn predict_url(&self) -> (r: String)
        ensures
            r@ == video_predict_url_spec(self.base_url@, self.project@, self.location@, self.model_id@),
    {
        if is_local(self.base_url.as_str()) {
            let a = concat3(self.base_url.as_str(), "/models/", self.model_id.as_str());
            concat(a.as_str(), ":predictLongRunning")
        } else {
            let a = concat3("https://", self.location.as_str(), "-aiplatform.googleapis.com/v1beta1/projects/");
            let b = concat3(a.as_str(), self.project.as_str(), "/locations/");
            let c = concat3(b.as_str(), self.location.as_str(), "/publishers/google/models/");
            let d = concat(c.as_str(), self.model_id.as_str());
            concat(d.as_str(), ":predictLongRunning")
        }
    }

    /// The URL of an operation (see [`video_operation_url_spec`]).
    pub fn operation_url(&self, name: &str) -> (r: String)
        ensures
            r@ == video_operation_url_spec(self.base_url@, self.location@, name@),
    {
        if is_local(self.base_url.as_str()) {
            concat3(self.base_url.as_str(), "/", name)
        } else {
            let a = concat3("https://", self.location.as_str(), "-aiplatform.googleapis.com/v1beta1/");
            concat(a.as_str(), name)
        }
    }

    /// The body that starts a video generation (see
    /// [`vertex_video_body_spec`]); the image is given by its URL when the
    /// call's image is a URL, the duration and seed as the JSON numbers
    /// they are sent as.
    pub fn start_body(
        &self,
        prompt: Option<&str>,
        image_url: Option<&str>,
        aspect_ratio: Option<&str>,
        seed: Option<&JsonValue>,
        duration: Option<&JsonValue>,
        generate_audio: Option<bool>,
    ) -> (r: JsonValue)
        ensures
            r@ == vertex_video_body_spec(
                crate::openai::image::opt_text(prompt),
                crate::openai::image::opt_text(image_url),
                crate::openai::image::opt_text(aspect_ratio),
                opt_json_ref_view(seed),
                opt_json_ref_view(duration),
                generate_audio,
            ),
    {
        let mut inst: Vec<(String, JsonValue)> = Vec::new();
        let p = match prompt {
            Some(t) => JsonValue::String(String::from_str(t)),
            None => JsonValue::Null,
        };
        push_member(&mut inst, "prompt", p);
        let ghost i1 = members_view(inst@);
        match image_url {
            Some(u) => {
                let mut img: Vec<(String, JsonValue)> = Vec::new();
                push_member(&mut img, "gcsUri", JsonValue::String(String::from_str(u)));
                push_member(&mut img, "mimeType", JsonValue::String(String::from_str("image/png")));
                assert(members_view(img@) =~= seq![("gcsUri"@, Json::String(u@)), ("mimeType"@, Json::String("image/png"@))]);
                push_member(&mut inst, "image", JsonValue::Object(img));
            },
            None => {},
        }
        let ghost iv = members_view(inst@);
        let mut instances: Vec<JsonValue> = Vec::new();
        let x = JsonValue::Object(inst);
        let ghost xv = x@;
        instances.push(x);
        proof {
            assert(xv == Json::Object(iv));
            assert(instances@.last()@ == xv);
            assert(instances@.drop_last() =~= Seq::<JsonValue>::empty());
            assert(items_view(instances@.drop_last()) =~= Seq::<Json>::empty());
            assert(items_view(instances@) =~= seq![Json::Object(iv)]);
        }
        let ghost insts = items_view(instances@);
        let mut params: Vec<(String, JsonValue)> = Vec::new();
        assert(members_view(params@) =~= Seq::<(Seq<char>, Json)>::empty());
        push_text_member(&mut params, "aspectRatio", opt_str_text(aspect_ratio));
        let ghost q1 = members_view(params@);
        match seed {
            Some(j) => push_member(&mut params, "seed", j.deep_copy()),
            None => {},
        }
        let ghost q2 = members_view(params@);
        match duration {
            Some(j) => push_member(&mut params, "durationSeconds", j.deep_copy()),
            None => {},
        }
        let ghost q3 = members_view(params@);
        push_flag_member(&mut params, "generateAudio", generate_audio);
        let ghost pv = members_view(params@);
        let mut body: Vec<(String, JsonValue)> = Vec::new();
        push_member(&mut body, "instances", JsonValue::Array(instances));
        push_member(&mut body, "parameters", JsonValue::Object(params));
        proof {
            let wi = video_instance_members(crate::openai::image::opt_text(prompt), crate::openai::image::opt_text(image_url));
            let wp = video_parameters(crate::openai::image::opt_text(aspect_ratio), opt_json_ref_view(seed), opt_json_ref_view(duration), generate_audio);
            assert(i1 =~= seq![("prompt"@, or_null_text(crate::openai::image::opt_text(prompt)))]);
            assert(iv =~= wi);
            assert(q2 =~= q1 + json_member("seed"@, opt_json_ref_view(seed)));
            assert(q3 =~= q2 + json_member("durationSeconds"@, opt_json_ref_view(duration)));
            assert(pv =~= wp);
            assert(insts =~= seq![Json::Object(wi)]);
            assert(members_view(body@) =~= seq![("instances"@, Json::Array(seq![Json::Object(wi)])), ("parameters"@, Json::Object(wp))]);
        }
        JsonValue::Object(body)
    }
}

/// The operation a start answer names, or the error when it names none.
pub fn vertex_video_operation(raw: &JsonValue) -> (r: Result<String, AiMuxError>)
    ensures
        match json_get(raw@, "name"@) {
            Some(Json::String(n)) => r matches Ok(s) && s@ == n,
            _ => r matches Err(AiMuxError::InvalidResponseData(m)) && m@
                == "Vertex video prediction missing operation name"@,
        },
{
    match raw.get("name") {
        Some(JsonValue::String(n)) => Ok(n.clone()),
        _ => Err(AiMuxError::InvalidResponseData(String::from_str("Vertex video prediction missing operation name"))),
    }
}

/// The operation name of an operation reference, or the error when it has none.
pub fn vertex_operation_name(operation: &JsonValue) -> (r: Result<String, AiMuxError>)
    ensures
        match json_get(operation@, "operation_name"@) {
            Some(Json::String(n)) => r matches Ok(s) && s@ == n,
            _ => r matches Err(AiMuxError::InvalidArgument(m)) && m@
                == "google.vertex operation reference is missing operation_name"@,
        },
{
    match operation.get("operation_name") {
        Some(JsonValue::String(n)) => Ok(n.clone()),
        _ => Err(
            AiMuxError::InvalidArgument(String::from_str("google.vertex operation reference is missing operation_name")),
        ),
    }
}

/// Where a video operation stands.
#[derive(Debug)]
pub enum VertexVideoStatus {
    /// Poll again.
    Pending,
    /// Done: the URLs of the videos (MP4).
    Completed(Vec<String>),
}

/// The URL of a video entry: its `gcsUri` when present (a non-string
/// `gcsUri` gives none), else its `url`.
pub open spec fn video_entry_url(v: Json) -> Option<Seq<char>> {
    let u = match json_get(v, "gcsUri"@) {
        Some(g) => Some(g),
        None => json_get(v, "url"@),
    };
    match u {
        Some(Json::String(t)) => Some(t),
        _ => None,
    }
}

/// The video URLs of entries, in order.
pub open spec fn video_urls(vs: Seq<Json>) -> Seq<Seq<char>>
    decreases vs.len(),
{
    if vs.len() == 0 {
        Seq::empty()
    } else {
        let r = video_urls(vs.drop_last());
        match video_entry_url(vs.last()) {
            Some(u) => r.push(u),
            None => r,
        }
    }
}

/// The video entries of a finished operation (`response.videos`).
pub open spec fn video_entries(raw: Json) -> Seq<Json> {
    match option_of(json_get(raw, "response"@), "videos"@) {
        Some(Json::Array(a)) => a,
        _ => Seq::empty(),
    }
}

fn video_urls_of(raw: &JsonValue) -> (r: Vec<String>)
    ensures
        r@.map_values(|s: String| s@) == video_urls(video_entries(raw@)),
{
    let mut urls: Vec<String> = Vec::new();
    assert(urls@.map_values(|s: String| s@) =~= Seq::<Seq<char>>::empty());
    match member_of(raw.get("response"), "videos") {
        Some(JsonValue::Array(items)) => {
            let mut i: usize = 0;
            assert(items@.subrange(0, 0) =~= Seq::<JsonValue>::empty());
            while i < items.len()
                invariant
                    0 <= i <= items@.len(),
                    urls@.map_values(|s: String| s@) == video_urls(items_view(items@.subrange(0, i as int))),
                decreases items@.len() - i,
            {
                let ghost prefix = items_view(items@.subrange(0, i as int));
                proof {
                    assert(items@.subrange(0, i + 1).drop_last() =~= items@.subrange(0, i as int));
                    assert(items_view(items@.subrange(0, i + 1)) == prefix.push(items@[i as int]@));
                    assert(prefix.push(items@[i as int]@).drop_last() =~= prefix);
                }
                let v = &items[i];
                let u = match v.get("gcsUri") {
                    Some(g) => Some(g),
                    None => v.get("url"),
                };
                match u {
                    Some(JsonValue::String(t)) => {
                        let ghost before = urls@;
                        urls.push(t.clone());
                        assert(urls@.map_values(|s: String| s@) =~= before.map_values(|s: String| s@).push(t@));
                    },
                    _ => {},
                }
                i += 1;
            }
            assert(items@.subrange(0, i as int) =~= items@);
        },
        _ => {},
    }
    urls
}

/// Reads a poll answer of a video operation. An `error` member fails the
/// call (its message, `Unknown error` by default, its status as code,
/// HTTP status 200, the answer's text as body); an answer without
/// `done: true` means poll again; a finished operation gives its video
/// URLs, and fails when it has none.
pub fn vertex_video_status(raw: &JsonValue, body_text: &str) -> (r: Result<VertexVideoStatus, AiMuxError>)
    ensures
        match json_get(raw@, "error"@) {
            Some(err) => r matches Err(AiMuxError::ApiCall { status_code, provider_code, message, response_body }) && {
                &&& status_code == Some(200u16)
                &&& opt_chars(provider_code) == text_option(Some(err), "status"@)
                &&& message@ == match text_option(Some(err), "message"@) {
                    Some(m) => m,
                    None => "Unknown error"@,
                }
                &&& opt_chars(response_body) == Some(body_text@)
            },
            None => if json_get(raw@, "done"@) != Some(Json::Bool(true)) {
                r matches Ok(VertexVideoStatus::Pending)
            } else if video_urls(video_entries(raw@)).len() == 0 {
                r matches Err(AiMuxError::InvalidResponseData(m)) && m@
                    == "Vertex video operation completed without any video output"@
            } else {
                r matches Ok(VertexVideoStatus::Completed(v)) && v@.map_values(|s: String| s@) == video_urls(
                    video_entries(raw@),
                )
            },
        },
{
    match raw.get("error") {
        Some(err) => {
            let message = match text_of(Some(err), "message") {
                Some(m) => m,
                None => String::from_str("Unknown error"),
            };
            return Err(
                AiMuxError::ApiCall {
                    status_code: Some(200),
                    provider_code: text_of(Some(err), "status"),
                    message,
                    response_body: Some(String::from_str(body_text)),
                },
            );
        },
        None => {},
    }
    let done = match raw.get("done") {
        Some(JsonValue::Bool(b)) => *b,
        _ => false,
    };
    if !done {
        return Ok(VertexVideoStatus::Pending);
    }
    let urls = video_urls_of(raw);
    if urls.len() == 0 {
        return Err(
            AiMuxError::InvalidResponseData(
                String::from_str("Vertex video operation completed without any video output"),
            ),
        );
    }
    Ok(VertexVideoStatus::Completed(urls))
}

// ── Images ───────────────────────────────────────────────────────────────

/// The warning for a size the image models do not take.
pub open spec fn size_warnings(size_given: bool) -> Seq<WarningV> {
    if size_given {
        seq![
            WarningV::Unsupported(
                "size"@,
                Some("This model does not support the `size` option. Use `aspectRatio` instead."@),
            ),
        ]
    } else {
        Seq::empty()
    }
}

fn push_size_warning(warnings: &mut Vec<Warning>, size_given: bool)
    ensures
        warnings_view(final(warnings)@) == warnings_view(old(warnings)@) + size_warnings(size_given),
{
    let ghost before = warnings_view(warnings@);
    if size_given {
        warn(warnings, "size", Some("This model does not support the `size` option. Use `aspectRatio` instead."));
    }
    assert(warnings_view(warnings@) =~= before + size_warnings(size_given));
}

/// `ms` with each member of `add` set in turn, but those named `skip1` or
/// `skip2`.
pub open spec fn set_all_but(
    ms: Seq<(Seq<char>, Json)>,
    add: Seq<(Seq<char>, Json)>,
    skip1: Seq<char>,
    skip2: Seq<char>,
) -> Seq<(Seq<char>, Json)>
    decreases add.len(),
{
    if add.len() == 0 {
        ms
    } else {
        let r = set_all_but(ms, add.drop_last(), skip1, skip2);
        if add.last().0 == skip1 || add.last().0 == skip2 {
            r
        } else {
            set_member_spec(r, add.last().0, add.last().1)
        }
    }
}

fn set_options_but(ms: &mut Vec<(String, JsonValue)>, o: Option<&JsonValue>, skip1: &str, skip2: &str)
    ensures
        members_view(final(ms)@) == set_all_but(
            members_view(old(ms)@),
            crate::replicate::option_members(opt_json_ref_view(o)),
            skip1@,
            skip2@,
        ),
{
    match o {
        Some(JsonValue::Object(add)) => {
            let ghost start = members_view(ms@);
            let mut i: usize = 0;
            assert(add@.subrange(0, 0) =~= Seq::<(String, JsonValue)>::empty());
            while i < add.len()
                invariant
                    0 <= i <= add@.len(),
                    members_view(ms@) == set_all_but(start, members_view(add@.subrange(0, i as int)), skip1@, skip2@),
                decreases add@.len() - i,
            {
                let ghost prefix = members_view(add@.subrange(0, i as int));
                let ghost next = members_view(add@.subrange(0, i + 1));
                proof {
                    assert(add@.subrange(0, i + 1).drop_last() =~= add@.subrange(0, i as int));
                    assert(next == prefix.push((add@[i as int].0@, add@[i as int].1@)));
                    assert(next.drop_last() =~= prefix);
                }
                let k = &add[i].0;
                if !str_eq(k.as_str(), skip1) && !str_eq(k.as_str(), skip2) {
                    set_member(ms, k.as_str(), add[i].1.deep_copy());
                }
                i += 1;
            }
            assert(add@.subrange(0, i as int) =~= add@);
        },
        _ => {},
    }
}

/// The inline base64 data of an image (none for a URL).
pub open spec fn image_b64(f: ImageFile) -> Option<Seq<char>> {
    match f {
        ImageFile::Url { .. } => None,
        ImageFile::File { data, .. } => Some(data_base64(data)),
    }
}

fn image_base64(f: &ImageFile) -> (r: Option<String>)
    ensures
        opt_chars(r) == image_b64(*f),
{
    match f {
        ImageFile::Url { .. } => None,
        ImageFile::File { data, .. } => match data {
            ImageFileData::Base64(s) => Some(s.clone()),
            ImageFileData::Binary(b) => Some(crate::codec::base64_encode(b.as_slice())),
        },
    }
}

/// Every image is given inline.
pub open spec fn all_inline(files: Seq<ImageFile>) -> bool {
    forall|i: int| 0 <= i < files.len() ==> #[trigger] image_b64(files[i]) is Some
}

/// A raw reference image of an edit.
pub open spec fn raw_reference(id: nat, b64: Seq<char>) -> Json {
    Json::Object(
        seq![
            ("referenceType"@, Json::String("REFERENCE_TYPE_RAW"@)),
            ("referenceId"@, Json::Number(decimal_digits(id))),
            ("referenceImage"@, Json::Object(seq![("bytesBase64Encoded"@, Json::String(b64))])),
        ],
    )
}

/// The raw reference images of the first `k` files, numbered from 1.
pub open spec fn raw_references(files: Seq<ImageFile>, k: nat) -> Seq<Json>
    decreases k,
{
    if k == 0 {
        Seq::empty()
    } else {
        raw_references(files, (k - 1) as nat).push(
            raw_reference(k, match image_b64(files[k - 1]) {
                Some(b) => b,
                None => Seq::empty(),
            }),
        )
    }
}

/// The mask settings of an edit: the mask mode (`MASK_MODE_USER_PROVIDED`
/// by default) and dilation of the edit options.
pub open spec fn mask_config(edit: Option<Json>) -> Seq<(Seq<char>, Json)> {
    seq![("maskMode"@, Json::String(mask_mode(edit)))] + json_member("dilation"@, option_of(edit, "maskDilation"@))
}

/// The mask mode of the edit options.
pub open spec fn mask_mode(edit: Option<Json>) -> Seq<char> {
    match text_option(edit, "maskMode"@) {
        Some(t) => t,
        None => "MASK_MODE_USER_PROVIDED"@,
    }
}

/// The image member of a reference.
pub open spec fn reference_image(b64: Seq<char>) -> Json {
    Json::Object(seq![("bytesBase64Encoded"@, Json::String(b64))])
}

/// The mask reference of an edit, numbered after the files.
pub open spec fn mask_reference(id: nat, b64: Seq<char>, edit: Option<Json>) -> Json {
    Json::Object(
        seq![
            ("referenceType"@, Json::String("REFERENCE_TYPE_MASK"@)),
            ("referenceId"@, Json::Number(decimal_digits(id))),
            ("referenceImage"@, reference_image(b64)),
            ("maskImageConfig"@, Json::Object(mask_config(edit))),
        ],
    )
}

/// The message for an image given by URL to an Imagen edit.
pub open spec fn imagen_url_message() -> Seq<char> {
    "URL-based images are not supported for Google Vertex image editing."@
}

/// The parameters of an Imagen call: the count, aspect ratio and seed, for
/// an edit the edit mode (`EDIT_MODE_INPAINT_INSERTION` by default) and
/// base steps, then the options but `edit`, each replacing a member of its
/// name.
pub open spec fn imagen_parameters(
    n: u32,
    aspect_ratio: Option<Seq<char>>,
    seed: Option<Json>,
    is_edit: bool,
    o: Option<Json>,
) -> Seq<(Seq<char>, Json)> {
    let edit = option_of(o, "edit"@);
    set_all_but(
        seq![("sampleCount"@, Json::Number(decimal_digits(n as nat)))] + text_member("aspectRatio"@, aspect_ratio)
            + json_member("seed"@, seed) + if is_edit {
            seq![
                (
                    "editMode"@,
                    Json::String(
                        match text_option(edit, "mode"@) {
                            Some(m) => m,
                            None => "EDIT_MODE_INPAINT_INSERTION"@,
                        },
                    ),
                ),
            ] + match option_of(edit, "baseSteps"@) {
                Some(b) => seq![("editConfig"@, Json::Object(seq![("baseSteps"@, b)]))],
                None => Seq::empty(),
            }
        } else {
            Seq::empty()
        },
        crate::replicate::option_members(o),
        "edit"@,
        "edit"@,
    )
}

/// The Imagen request body, or the error of an edit with an image given
/// by URL. An edit (a call with images) sends the images and (after them)
/// the mask as references; otherwise only the prompt is sent.
pub open spec fn imagen_body_spec(
    prompt: Option<Seq<char>>,
    n: u32,
    aspect_ratio: Option<Seq<char>>,
    seed: Option<Json>,
    files: Seq<ImageFile>,
    mask: Option<ImageFile>,
    o: Option<Json>,
) -> Option<Json> {
    let is_edit = files.len() > 0;
    let edit = option_of(o, "edit"@);
    if is_edit && (!all_inline(files) || (mask matches Some(m) && image_b64(m) is None)) {
        None
    } else {
        let refs = raw_references(files, files.len()) + match mask {
            Some(m) => seq![
                mask_reference(
                    (files.len() + 1) as nat,
                    match image_b64(m) {
                        Some(b) => b,
                        None => Seq::empty(),
                    },
                    edit,
                ),
            ],
            None => Seq::empty(),
        };
        let instance = seq![("prompt"@, or_null_text(prompt))] + if is_edit {
            seq![("referenceImages"@, Json::Array(refs))]
        } else {
            Seq::empty()
        };
        Some(
            Json::Object(
                seq![
                    ("instances"@, Json::Array(seq![Json::Object(instance)])),
                    ("parameters"@, Json::Object(imagen_parameters(n, aspect_ratio, seed, is_edit, o))),
                ],
            ),
        )
    }
}

fn edit_references(files: &Vec<ImageFile>, mask: Option<&ImageFile>, edit: Option<&JsonValue>) -> (r: Option<Vec<JsonValue>>)
    requires
        files@.len() < 0xffff_ffff,
    ensures
        match r {
            Some(refs) => all_inline(files@) && !(mask matches Some(m) && image_b64(*m) is None) && items_view(refs@)
                == raw_references(files@, files@.len()) + match mask {
                Some(m) => seq![
                    mask_reference(
                        (files@.len() + 1) as nat,
                        match image_b64(*m) {
                            Some(b) => b,
                            None => Seq::empty(),
                        },
                        opt_json_ref_view(edit),
                    ),
                ],
                None => Seq::empty(),
            },
            None => !all_inline(files@) || (mask matches Some(m) && image_b64(*m) is None),
        },
{
    let mut refs: Vec<JsonValue> = Vec::new();
    let mut i: usize = 0;
    assert(items_view(refs@) =~= Seq::<Json>::empty());
    while i < files.len()
        invariant
            0 <= i <= files@.len(),
            files@.len() < 0xffff_ffff,
            items_view(refs@) == raw_references(files@, i as nat),
            forall|j: int| 0 <= j < i ==> #[trigger] image_b64(files@[j]) is Some,
        decreases files@.len() - i,
    {
        let b = match image_base64(&files[i]) {
            Some(b) => b,
            None => {
                return None;
            },
        };
        let mut img: Vec<(String, JsonValue)> = Vec::new();
        push_member(&mut img, "bytesBase64Encoded", JsonValue::String(b));
        let ghost imgv = members_view(img@);
        let mut m: Vec<(String, JsonValue)> = Vec::new();
        push_member(&mut m, "referenceType", JsonValue::String(String::from_str("REFERENCE_TYPE_RAW")));
        push_member(&mut m, "referenceId", JsonValue::Number(u64_to_decimal((i + 1) as u64)));
        push_member(&mut m, "referenceImage", JsonValue::Object(img));
        let ghost mv = members_view(m@);
        let x = JsonValue::Object(m);
        let ghost xv = x@;
        let ghost before = refs@;
        refs.push(x);
        proof {
            assert(imgv =~= seq![("bytesBase64Encoded"@, Json::String(image_b64(files@[i as int]).unwrap()))]);
            assert(mv =~= seq![
                ("referenceType"@, Json::String("REFERENCE_TYPE_RAW"@)),
                ("referenceId"@, Json::Number(decimal_digits((i + 1) as nat))),
                ("referenceImage"@, Json::Object(imgv)),
            ]);
            assert(xv == raw_reference((i + 1) as nat, image_b64(files@[i as int]).unwrap()));
            assert(refs@.drop_last() =~= before);
            assert(items_view(refs@) == items_view(before).push(xv));
        }
        i += 1;
    }
    match mask {
        Some(mk) => {
            let b = match image_base64(mk) {
                Some(b) => b,
                None => {
                    return None;
                },
            };
            let mut img: Vec<(String, JsonValue)> = Vec::new();
            push_member(&mut img, "bytesBase64Encoded", JsonValue::String(b));
            let ghost imgv = members_view(img@);
            let mode = match text_of(edit, "maskMode") {
                Some(t) => t,
                None => String::from_str("MASK_MODE_USER_PROVIDED"),
            };
            let mut cfg: Vec<(String, JsonValue)> = Vec::new();
            push_member(&mut cfg, "maskMode", JsonValue::String(mode));
            let ghost c1 = members_view(cfg@);
            match member_of(edit, "maskDilation") {
                Some(d) => push_member(&mut cfg, "dilation", d.deep_copy()),
                None => {},
            }
            let ghost cv = members_view(cfg@);
            let mut m: Vec<(String, JsonValue)> = Vec::new();
            push_member(&mut m, "referenceType", JsonValue::String(String::from_str("REFERENCE_TYPE_MASK")));
            push_member(&mut m, "referenceId", JsonValue::Number(u64_to_decimal((files.len() + 1) as u64)));
            push_member(&mut m, "referenceImage", JsonValue::Object(img));
            push_member(&mut m, "maskImageConfig", JsonValue::Object(cfg));
            let ghost mv = members_view(m@);
            let x = JsonValue::Object(m);
            let ghost xv = x@;
            let ghost before = refs@;
            refs.push(x);
            proof {
                let ev = opt_json_ref_view(edit);
                assert(imgv =~= seq![("bytesBase64Encoded"@, Json::String(image_b64(*mk).unwrap()))]);
                assert(Json::Object(imgv) == reference_image(image_b64(*mk).unwrap()));
                assert(c1 =~= seq![("maskMode"@, Json::String(mask_mode(ev)))]);
                assert(cv =~= mask_config(ev));
                assert(mv =~= seq![
                    ("referenceType"@, Json::String("REFERENCE_TYPE_MASK"@)),
                    ("referenceId"@, Json::Number(decimal_digits((files@.len() + 1) as nat))),
                    ("referenceImage"@, reference_image(image_b64(*mk).unwrap())),
                    ("maskImageConfig"@, Json::Object(mask_config(ev))),
                ]);
                assert(xv == mask_reference((files@.len() + 1) as nat, image_b64(*mk).unwrap(), ev));
                assert(refs@.drop_last() =~= before);
                assert(items_view(refs@) =~= items_view(before).push(xv));
            }
        },
        None => {},
    }
    Some(refs)
}

/// The Gemini request body, or the error. A mask, more than one image, or
/// an input image given by URL are refused (in that order); otherwise the
/// prompt and the inline images as parts, and the generation config: image
/// output, the aspect ratio and seed, then the options but
/// `responseModalities` and `imageConfig`.
pub open spec fn gemini_image_body_spec(
    prompt: Option<Seq<char>>,
    aspect_ratio: Option<Seq<char>>,
    seed: Option<Json>,
    files: Seq<ImageFile>,
    o: Option<Json>,
) -> Option<Json> {
    if !all_inline(files) {
        None
    } else {
        let parts = match prompt {
            Some(p) => seq![Json::Object(seq![("text"@, Json::String(p))])],
            None => Seq::empty(),
        } + inline_parts(files, files.len());
        let gc = set_all_but(
            seq![("responseModalities"@, Json::Array(seq![Json::String("IMAGE"@)]))] + match aspect_ratio {
                Some(a) => seq![("imageConfig"@, Json::Object(seq![("aspectRatio"@, Json::String(a))]))],
                None => Seq::empty(),
            } + json_member("seed"@, seed),
            crate::replicate::option_members(o),
            "responseModalities"@,
            "imageConfig"@,
        );
        Some(
            Json::Object(
                seq![
                    (
                        "contents"@,
                        Json::Array(
                            seq![Json::Object(seq![("role"@, Json::String("user"@)), ("parts"@, Json::Array(parts))])],
                        ),
                    ),
                    ("generationConfig"@, Json::Object(gc)),
                ],
            ),
        )
    }
}

/// An inline image part.
pub open spec fn inline_part(f: ImageFile) -> Json {
    match f {
        ImageFile::File { media_type, data } => Json::Object(
            seq![
                (
                    "inlineData"@,
                    Json::Object(
                        seq![("mimeType"@, Json::String(media_type@)), ("data"@, Json::String(data_base64(data)))],
                    ),
                ),
            ],
        ),
        ImageFile::Url { .. } => Json::Null,
    }
}

/// The inline parts of the first `k` files.
pub open spec fn inline_parts(files: Seq<ImageFile>, k: nat) -> Seq<Json>
    decreases k,
{
    if k == 0 {
        Seq::empty()
    } else {
        inline_parts(files, (k - 1) as nat).push(inline_part(files[k - 1]))
    }
}

/// The URL of the first file given by URL.
pub open spec fn first_url(files: Seq<ImageFile>) -> Seq<char>
    decreases files.len(),
{
    if files.len() == 0 {
        Seq::empty()
    } else {
        match files[0] {
            ImageFile::Url { url } => url@,
            _ => first_url(files.skip(1)),
        }
    }
}

fn imagen_body(
    prompt: Option<&str>,
    n: u32,
    aspect_ratio: Option<&str>,
    seed: Option<&JsonValue>,
    files: &Vec<ImageFile>,
    mask: Option<&ImageFile>,
    o: Option<&JsonValue>,
) -> (r: Option<JsonValue>)
    requires
        files@.len() < 0xffff_ffff,
    ensures
        opt_json_view(r) == imagen_body_spec(
            crate::openai::image::opt_text(prompt),
            n,
            crate::openai::image::opt_text(aspect_ratio),
            opt_json_ref_view(seed),
            files@,
            match mask {
                Some(m) => Some(*m),
                None => None,
            },
            opt_json_ref_view(o),
        ),
{
    let ghost ov = opt_json_ref_view(o);
    let ghost mask_v: Option<ImageFile> = match mask {
        Some(m) => Some(*m),
        None => None,
    };
    let is_edit = files.len() > 0;
    let edit = member_of(o, "edit");
    let mut params: Vec<(String, JsonValue)> = Vec::new();
    push_member(&mut params, "sampleCount", JsonValue::Number(u64_to_decimal(n as u64)));
    let ghost p1 = members_view(params@);
    push_text_member(&mut params, "aspectRatio", opt_str_text(aspect_ratio));
    let ghost p2 = members_view(params@);
    match seed {
        Some(j) => push_member(&mut params, "seed", j.deep_copy()),
        None => {},
    }
    let ghost p3 = members_view(params@);
    let mut refs: Vec<JsonValue> = Vec::new();
    if is_edit {
        refs = match edit_references(files, mask, edit) {
            Some(r) => r,
            None => {
                return None;
            },
        };
        let mode = match text_of(edit, "mode") {
            Some(t) => t,
            None => String::from_str("EDIT_MODE_INPAINT_INSERTION"),
        };
        push_member(&mut params, "editMode", JsonValue::String(mode));
        match member_of(edit, "baseSteps") {
            Some(bs) => {
                let mut ec: Vec<(String, JsonValue)> = Vec::new();
                push_member(&mut ec, "baseSteps", bs.deep_copy());
                push_member(&mut params, "editConfig", JsonValue::Object(ec));
            },
            None => {},
        }
    }
    let ghost p4 = members_view(params@);
    let ghost refs_v = items_view(refs@);
    proof {
        let ev = option_of(ov, "edit"@);
        assert(p1 =~= seq![("sampleCount"@, Json::Number(decimal_digits(n as nat)))]);
        assert(p3 =~= p2 + json_member("seed"@, opt_json_ref_view(seed)));
        assert(p4 =~= p3 + if is_edit {
            seq![
                (
                    "editMode"@,
                    Json::String(
                        match text_option(ev, "mode"@) {
                            Some(m) => m,
                            None => "EDIT_MODE_INPAINT_INSERTION"@,
                        },
                    ),
                ),
            ] + match option_of(ev, "baseSteps"@) {
                Some(b) => seq![("editConfig"@, Json::Object(seq![("baseSteps"@, b)]))],
                None => Seq::empty(),
            }
        } else {
            Seq::empty()
        });
    }
    set_options_but(&mut params, o, "edit", "edit");
    let ghost pv = members_view(params@);
    let mut inst: Vec<(String, JsonValue)> = Vec::new();
    let pj = match prompt {
        Some(t) => JsonValue::String(String::from_str(t)),
        None => JsonValue::Null,
    };
    push_member(&mut inst, "prompt", pj);
    let ghost i1 = members_view(inst@);
    if is_edit {
        push_member(&mut inst, "referenceImages", JsonValue::Array(refs));
    }
    let ghost iv = members_view(inst@);
    let mut instances: Vec<JsonValue> = Vec::new();
    let x = JsonValue::Object(inst);
    let ghost xv = x@;
    instances.push(x);
    proof {
        assert(instances@.drop_last() =~= Seq::<JsonValue>::empty());
        assert(items_view(instances@.drop_last()) =~= Seq::<Json>::empty());
        assert(instances@.last()@ == xv);
        assert(items_view(instances@) =~= seq![xv]);
    }
    let ghost insts = items_view(instances@);
    let mut body: Vec<(String, JsonValue)> = Vec::new();
    push_member(&mut body, "instances", JsonValue::Array(instances));
    push_member(&mut body, "parameters", JsonValue::Object(params));
    proof {
        assert(pv == imagen_parameters(n, crate::openai::image::opt_text(aspect_ratio), opt_json_ref_view(seed), is_edit, ov));
        assert(i1 =~= seq![("prompt"@, or_null_text(crate::openai::image::opt_text(prompt)))]);
        let files_v = files@;
        let refs_want = raw_references(files_v, files_v.len()) + match mask_v {
            Some(m) => seq![
                mask_reference(
                    (files_v.len() + 1) as nat,
                    match image_b64(m) {
                        Some(b) => b,
                        None => Seq::empty(),
                    },
                    option_of(ov, "edit"@),
                ),
            ],
            None => Seq::empty(),
        };
        let want_inst = seq![("prompt"@, or_null_text(crate::openai::image::opt_text(prompt)))] + if is_edit {
            seq![("referenceImages"@, Json::Array(refs_want))]
        } else {
            Seq::empty()
        };
        if is_edit {
            assert(refs_v == refs_want);
        }
        assert(iv =~= want_inst);
        assert(xv == Json::Object(want_inst));
        assert(members_view(body@) =~= seq![("instances"@, Json::Array(seq![Json::Object(want_inst)])), ("parameters"@, Json::Object(pv))]);
    }
    Some(JsonValue::Object(body))
}

/// The message for an input image given by URL to a Gemini model.
pub open spec fn gemini_url_message(url: Seq<char>) -> Seq<char> {
    "URL-based input images with media type \"image/*\" are not passed as inline bytes. URL: "@ + url
}

fn gemini_body(
    prompt: Option<&str>,
    aspect_ratio: Option<&str>,
    seed: Option<&JsonValue>,
    files: &Vec<ImageFile>,
    o: Option<&JsonValue>,
) -> (r: Result<JsonValue, String>)
    ensures
        match r {
            Ok(b) => all_inline(files@) && Some(b@) == gemini_image_body_spec(
                crate::openai::image::opt_text(prompt),
                crate::openai::image::opt_text(aspect_ratio),
                opt_json_ref_view(seed),
                files@,
                opt_json_ref_view(o),
            ),
            Err(m) => !all_inline(files@) && m@ == gemini_url_message(first_url(files@)),
        },
{
    let mut parts: Vec<JsonValue> = Vec::new();
    match prompt {
        Some(t) => {
            let mut m: Vec<(String, JsonValue)> = Vec::new();
            push_member(&mut m, "text", JsonValue::String(String::from_str(t)));
            let ghost mv = members_view(m@);
            let x = JsonValue::Object(m);
            let ghost xv = x@;
            parts.push(x);
            proof {
                assert(mv =~= seq![("text"@, Json::String(t@))]);
                assert(parts@.last()@ == xv);
                assert(parts@.drop_last() =~= Seq::<JsonValue>::empty());
                assert(items_view(parts@.drop_last()) =~= Seq::<Json>::empty());
                assert(items_view(parts@) =~= seq![Json::Object(seq![("text"@, Json::String(t@))])]);
            }
        },
        None => {},
    }
    let ghost lead = items_view(parts@);
    proof {
        assert(lead =~= match crate::openai::image::opt_text(prompt) {
            Some(p) => seq![Json::Object(seq![("text"@, Json::String(p))])],
            None => Seq::<Json>::empty(),
        }) by {
            if prompt is Some {
            } else {
                assert(parts@ =~= Seq::<JsonValue>::empty());
            }
        }
    }
    let mut i: usize = 0;
    assert(files@.skip(0) =~= files@);
    while i < files.len()
        invariant
            0 <= i <= files@.len(),
            items_view(parts@) == lead + inline_parts(files@, i as nat),
            forall|j: int| 0 <= j < i ==> #[trigger] image_b64(files@[j]) is Some,
            first_url(files@) == first_url(files@.skip(i as int)),
        decreases files@.len() - i,
    {
        proof {
            assert(files@.skip(i as int)[0] == files@[i as int]);
            assert(files@.skip(i as int).skip(1) =~= files@.skip(i + 1));
        }
        match &files[i] {
            ImageFile::Url { url } => {
                proof {
                    assert(image_b64(files@[i as int]) is None);
                }
                return Err(concat(
                    "URL-based input images with media type \"image/*\" are not passed as inline bytes. URL: ",
                    url.as_str(),
                ));
            },
            ImageFile::File { media_type, data } => {
                let d = match data {
                    ImageFileData::Base64(s) => s.clone(),
                    ImageFileData::Binary(b) => crate::codec::base64_encode(b.as_slice()),
                };
                let mut inner: Vec<(String, JsonValue)> = Vec::new();
                push_member(&mut inner, "mimeType", JsonValue::String(media_type.clone()));
                push_member(&mut inner, "data", JsonValue::String(d));
                let ghost innv = members_view(inner@);
                proof {
                    assert(innv =~= seq![("mimeType"@, Json::String(media_type@)), ("data"@, Json::String(data_base64(*data)))]);
                }
                let mut m: Vec<(String, JsonValue)> = Vec::new();
                push_member(&mut m, "inlineData", JsonValue::Object(inner));
                let ghost mv = members_view(m@);
                let x = JsonValue::Object(m);
                let ghost xv = x@;
                let ghost before = parts@;
                parts.push(x);
                proof {
                    assert(mv =~= seq![("inlineData"@, Json::Object(innv))]);
                    assert(xv =~~= inline_part(files@[i as int]));
                    assert(parts@.drop_last() =~= before);
                    assert(items_view(parts@) == items_view(before).push(xv));
                    assert(items_view(parts@) =~= lead + inline_parts(files@, (i + 1) as nat));
                }
            },
        }
        i += 1;
    }
    let mut gc: Vec<(String, JsonValue)> = Vec::new();
    let mut modalities: Vec<JsonValue> = Vec::new();
    let im = JsonValue::String(String::from_str("IMAGE"));
    let ghost imv = im@;
    modalities.push(im);
    let ghost modv = items_view(modalities@);
    proof {
        assert(imv == Json::String("IMAGE"@));
        assert(modalities@.last()@ == imv);
        assert(modalities@.drop_last() =~= Seq::<JsonValue>::empty());
        assert(items_view(modalities@.drop_last()) =~= Seq::<Json>::empty());
        assert(modv =~= seq![Json::String("IMAGE"@)]);
    }
    push_member(&mut gc, "responseModalities", JsonValue::Array(modalities));
    let ghost g1 = members_view(gc@);
    match aspect_ratio {
        Some(a) => {
            let mut ic: Vec<(String, JsonValue)> = Vec::new();
            push_member(&mut ic, "aspectRatio", JsonValue::String(String::from_str(a)));
            push_member(&mut gc, "imageConfig", JsonValue::Object(ic));
        },
        None => {},
    }
    let ghost g2 = members_view(gc@);
    match seed {
        Some(j) => push_member(&mut gc, "seed", j.deep_copy()),
        None => {},
    }
    let ghost g3 = members_view(gc@);
    proof {
        assert(g1 =~= seq![("responseModalities"@, Json::Array(seq![Json::String("IMAGE"@)]))]);
        assert(g2 =~= g1 + match crate::openai::image::opt_text(aspect_ratio) {
            Some(a) => seq![("imageConfig"@, Json::Object(seq![("aspectRatio"@, Json::String(a))]))],
            None => Seq::<(Seq<char>, Json)>::empty(),
        });
        assert(g3 =~= g2 + json_member("seed"@, opt_json_ref_view(seed)));
    }
    set_options_but(&mut gc, o, "responseModalities", "imageConfig");
    let ghost gv = members_view(gc@);
    let ghost pv = items_view(parts@);
    let mut content: Vec<(String, JsonValue)> = Vec::new();
    push_member(&mut content, "role", JsonValue::String(String::from_str("user")));
    push_member(&mut content, "parts", JsonValue::Array(parts));
    let ghost cv = members_view(content@);
    let mut contents: Vec<JsonValue> = Vec::new();
    let x = JsonValue::Object(content);
    let ghost xv = x@;
    contents.push(x);
    proof {
        assert(contents@.drop_last() =~= Seq::<JsonValue>::empty());
        assert(items_view(contents@.drop_last()) =~= Seq::<Json>::empty());
        assert(contents@.last()@ == xv);
    }
    let ghost csv = items_view(contents@);
    let mut body: Vec<(String, JsonValue)> = Vec::new();
    push_member(&mut body, "contents", JsonValue::Array(contents));
    push_member(&mut body, "generationConfig", JsonValue::Object(gc));
    proof {
        assert(cv =~= seq![("role"@, Json::String("user"@)), ("parts"@, Json::Array(pv))]);
        assert(csv =~= seq![Json::Object(cv)]);
        assert(members_view(body@) =~= seq![("contents"@, Json::Array(csv)), ("generationConfig"@, Json::Object(gv))]);
        assert(all_inline(files@));
    }
    Ok(JsonValue::Object(body))
}

impl VertexImageModel {
    /// The request of an image generation: the URL, the body and the
    /// warnings (a size is not taken), or the error of the call. Gemini
    /// models use `:generateContent` (see [`gemini_image_body_spec`]) and
    /// refuse a mask, more than one image, and input images given by URL;
    /// the others use `:predict` (see [`imagen_body_spec`]) and refuse an
    /// edit with an image given by URL. The options are the call's provider
    /// options (`googleVertex`, else `vertex`).
    pub fn image_request(
        &self,
        prompt: Option<&str>,
        n: u32,
        size_given: bool,
        aspect_ratio: Option<&str>,
        seed: Option<&JsonValue>,
        files: Option<&Vec<ImageFile>>,
        mask: Option<&ImageFile>,
        provider_options: Option<&KeyedVec<JsonValue>>,
    ) -> (r: Result<(String, JsonValue, Vec<Warning>), AiMuxError>)
        requires
            crate::replicate::opt_files(files).len() < 0xffff_ffff,
        ensures
            ({
                let fs = crate::replicate::opt_files(files);
                let o = vertex_options_spec(opts_map(provider_options), false);
                if is_gemini_spec(self.model_id_spec()) {
                    if mask is Some {
                        r matches Err(AiMuxError::UnsupportedFunctionality(m)) && m@
                            == "Gemini image models do not support mask-based image editing."@
                    } else if n > 1 {
                        r matches Err(AiMuxError::UnsupportedFunctionality(m)) && m@
                            == "Gemini image models do not support generating a set number of images per call. Use n=1 or omit the n parameter."@
                    } else if !all_inline(fs) {
                        r matches Err(AiMuxError::UnsupportedFunctionality(m)) && m@ == gemini_url_message(first_url(fs))
                    } else {
                        r matches Ok((url, body, ws)) && {
                            &&& url@ == self.config_spec().base_url@ + "/"@ + model_path_spec(self.model_id_spec())
                                + ":generateContent"@
                            &&& Some(body@) == gemini_image_body_spec(
                                crate::openai::image::opt_text(prompt),
                                crate::openai::image::opt_text(aspect_ratio),
                                opt_json_ref_view(seed),
                                fs,
                                o,
                            )
                            &&& warnings_view(ws@) == size_warnings(size_given)
                        }
                    }
                } else {
                    match imagen_body_spec(
                        crate::openai::image::opt_text(prompt),
                        n,
                        crate::openai::image::opt_text(aspect_ratio),
                        opt_json_ref_view(seed),
                        fs,
                        match mask {
                            Some(m) => Some(*m),
                            None => None,
                        },
                        o,
                    ) {
                        None => r matches Err(AiMuxError::InvalidArgument(m)) && m@ == imagen_url_message(),
                        Some(b) => r matches Ok((url, body, ws)) && {
                            &&& url@ == self.config_spec().base_url@ + "/models/"@ + self.model_id_spec() + ":predict"@
                            &&& body@ == b
                            &&& warnings_view(ws@) == size_warnings(size_given)
                        },
                    }
                }
            }),
    {
        let o = vertex_options(provider_options, false);
        let empty: Vec<ImageFile> = Vec::new();
        let fs: &Vec<ImageFile> = match files {
            Some(f) => f,
            None => &empty,
        };
        assert(fs@ == crate::replicate::opt_files(files)) by {
            if files is None {
                assert(empty@ =~= Seq::<ImageFile>::empty());
            }
        }
        if is_gemini_model(self.model_id.as_str()) {
            if mask.is_some() {
                return Err(
                    AiMuxError::UnsupportedFunctionality(
                        String::from_str("Gemini image models do not support mask-based image editing."),
                    ),
                );
            }
            if n > 1 {
                return Err(
                    AiMuxError::UnsupportedFunctionality(
                        String::from_str(
                            "Gemini image models do not support generating a set number of images per call. Use n=1 or omit the n parameter.",
                        ),
                    ),
                );
            }
            let mut warnings: Vec<Warning> = Vec::new();
            assert(warnings_view(warnings@) =~= Seq::<WarningV>::empty());
            push_size_warning(&mut warnings, size_given);
            match gemini_body(prompt, aspect_ratio, seed, fs, o) {
                Ok(b) => Ok((self.generate_content_endpoint(), b, warnings)),
                Err(m) => Err(AiMuxError::UnsupportedFunctionality(m)),
            }
        } else {
            let mut warnings: Vec<Warning> = Vec::new();
            assert(warnings_view(warnings@) =~= Seq::<WarningV>::empty());
            push_size_warning(&mut warnings, size_given);
            match imagen_body(prompt, n, aspect_ratio, seed, fs, mask, o) {
                Some(b) => Ok((self.predict_endpoint(), b, warnings)),
                None => Err(
                    AiMuxError::InvalidArgument(
                        String::from_str("URL-based images are not supported for Google Vertex image editing."),
                    ),
                ),
            }
        }
    }
}

// ── Image answers ────────────────────────────────────────────────────────

/// The base64 images of Imagen predictions (`bytesBase64Encoded` strings).
pub open spec fn imagen_images_spec(ps: Seq<Json>) -> Seq<Seq<char>>
    decreases ps.len(),
{
    if ps.len() == 0 {
        Seq::empty()
    } else {
        let r = imagen_images_spec(ps.drop_last());
        match json_get(ps.last(), "bytesBase64Encoded"@) {
            Some(Json::String(b)) => r.push(b),
            _ => r,
        }
    }
}

/// The metadata entry of a prediction: its revised prompt, when it has one.
pub open spec fn imagen_meta_entry(p: Json) -> Json {
    Json::Object(
        match json_get(p, "prompt"@) {
            Some(Json::String(rp)) => seq![("revisedPrompt"@, Json::String(rp))],
            _ => Seq::empty(),
        },
    )
}

/// The metadata entries of predictions, in order.
pub open spec fn imagen_meta_entries(ps: Seq<Json>) -> Seq<Json>
    decreases ps.len(),
{
    if ps.len() == 0 {
        Seq::empty()
    } else {
        imagen_meta_entries(ps.drop_last()).push(imagen_meta_entry(ps.last()))
    }
}

/// The images of an Imagen answer and the provider metadata payload
/// (`{"images": [...]}` with each prediction's revised prompt).
pub fn vertex_imagen_answer(raw: &JsonValue) -> (r: (Vec<String>, JsonValue))
    ensures
        r.0@.map_values(|s: String| s@) == imagen_images_spec(predictions_of(raw@)),
        r.1@ == Json::Object(seq![("images"@, Json::Array(imagen_meta_entries(predictions_of(raw@))))]),
{
    let mut images: Vec<String> = Vec::new();
    let mut metas: Vec<JsonValue> = Vec::new();
    assert(images@.map_values(|s: String| s@) =~= Seq::<Seq<char>>::empty());
    assert(items_view(metas@) =~= Seq::<Json>::empty());
    match raw.get("predictions") {
        Some(JsonValue::Array(items)) => {
            let mut i: usize = 0;
            assert(items@.subrange(0, 0) =~= Seq::<JsonValue>::empty());
            while i < items.len()
                invariant
                    0 <= i <= items@.len(),
                    images@.map_values(|s: String| s@) == imagen_images_spec(items_view(items@.subrange(0, i as int))),
                    items_view(metas@) == imagen_meta_entries(items_view(items@.subrange(0, i as int))),
                decreases items@.len() - i,
            {
                let ghost prefix = items_view(items@.subrange(0, i as int));
                proof {
                    assert(items@.subrange(0, i + 1).drop_last() =~= items@.subrange(0, i as int));
                    assert(items_view(items@.subrange(0, i + 1)) == prefix.push(items@[i as int]@));
                    assert(prefix.push(items@[i as int]@).drop_last() =~= prefix);
                }
                let p = &items[i];
                match p.get("bytesBase64Encoded") {
                    Some(JsonValue::String(b)) => {
                        let ghost before = images@;
                        images.push(b.clone());
                        assert(images@.map_values(|s: String| s@) =~= before.map_values(|s: String| s@).push(b@));
                    },
                    _ => {},
                }
                let mut e: Vec<(String, JsonValue)> = Vec::new();
                match p.get("prompt") {
                    Some(JsonValue::String(rp)) => push_member(&mut e, "revisedPrompt", JsonValue::String(rp.clone())),
                    _ => {},
                }
                let ghost ev = members_view(e@);
                let x = JsonValue::Object(e);
                let ghost xv = x@;
                let ghost before_m = metas@;
                metas.push(x);
                proof {
                    assert(ev =~= match json_get(items@[i as int]@, "prompt"@) {
                        Some(Json::String(rp)) => seq![("revisedPrompt"@, Json::String(rp))],
                        _ => Seq::<(Seq<char>, Json)>::empty(),
                    });
                    assert(xv == imagen_meta_entry(items@[i as int]@));
                    assert(metas@.drop_last() =~= before_m);
                    assert(items_view(metas@) == items_view(before_m).push(xv));
                }
                i += 1;
            }
            assert(items@.subrange(0, i as int) =~= items@);
        },
        _ => {},
    }
    let ghost mv = items_view(metas@);
    let mut payload: Vec<(String, JsonValue)> = Vec::new();
    push_member(&mut payload, "images", JsonValue::Array(metas));
    assert(members_view(payload@) =~= seq![("images"@, Json::Array(mv))]);
    (images, JsonValue::Object(payload))
}

/// The inline images among parts: `inlineData` whose `mimeType` starts
/// with `image/` and that carries `data` text.
pub open spec fn part_images(parts: Seq<Json>) -> Seq<Seq<char>>
    decreases parts.len(),
{
    if parts.len() == 0 {
        Seq::empty()
    } else {
        let r = part_images(parts.drop_last());
        let d = json_get(parts.last(), "inlineData"@);
        match (text_option(d, "mimeType"@), text_option(d, "data"@)) {
            (Some(mt), Some(data)) => if is_prefix("image/"@, mt) {
                r.push(data)
            } else {
                r
            },
            _ => r,
        }
    }
}

/// The parts of a candidate (`content.parts`).
pub open spec fn candidate_parts(c: Json) -> Seq<Json> {
    match option_of(json_get(c, "content"@), "parts"@) {
        Some(Json::Array(a)) => a,
        _ => Seq::empty(),
    }
}

/// The inline images of candidates, in order.
pub open spec fn candidate_images(cs: Seq<Json>) -> Seq<Seq<char>>
    decreases cs.len(),
{
    if cs.len() == 0 {
        Seq::empty()
    } else {
        candidate_images(cs.drop_last()) + part_images(candidate_parts(cs.last()))
    }
}

/// The candidates of a Gemini answer.
pub open spec fn candidates_of(raw: Json) -> Seq<Json> {
    match json_get(raw, "candidates"@) {
        Some(Json::Array(a)) => a,
        _ => Seq::empty(),
    }
}

fn push_part_images(images: &mut Vec<String>, parts: &Vec<JsonValue>)
    ensures
        final(images)@.map_values(|s: String| s@) == old(images)@.map_values(|s: String| s@) + part_images(
            items_view(parts@),
        ),
{
    let ghost start = images@.map_values(|s: String| s@);
    let mut i: usize = 0;
    assert(parts@.subrange(0, 0) =~= Seq::<JsonValue>::empty());
    assert(images@.map_values(|s: String| s@) =~= start + part_images(items_view(parts@.subrange(0, 0))));
    while i < parts.len()
        invariant
            0 <= i <= parts@.len(),
            images@.map_values(|s: String| s@) == start + part_images(items_view(parts@.subrange(0, i as int))),
        decreases parts@.len() - i,
    {
        let ghost prefix = items_view(parts@.subrange(0, i as int));
        proof {
            assert(parts@.subrange(0, i + 1).drop_last() =~= parts@.subrange(0, i as int));
            assert(items_view(parts@.subrange(0, i + 1)) == prefix.push(parts@[i as int]@));
            assert(prefix.push(parts@[i as int]@).drop_last() =~= prefix);
        }
        let d = parts[i].get("inlineData");
        match (text_of(d, "mimeType"), text_of(d, "data")) {
            (Some(mt), Some(data)) => {
                if str_starts_with(mt.as_str(), "image/") {
                    let ghost before = images@;
                    let ghost dv = data@;
                    images.push(data);
                    assert(images@.map_values(|s: String| s@) =~= before.map_values(|s: String| s@).push(dv));
                }
            },
            _ => {},
        }
        i += 1;
    }
    assert(parts@.subrange(0, i as int) =~= parts@);
}

/// The inline images of a Gemini answer.
pub fn vertex_gemini_images(raw: &JsonValue) -> (r: Vec<String>)
    ensures
        r@.map_values(|s: String| s@) == candidate_images(candidates_of(raw@)),
{
    let mut images: Vec<String> = Vec::new();
    assert(images@.map_values(|s: String| s@) =~= Seq::<Seq<char>>::empty());
    match raw.get("candidates") {
        Some(JsonValue::Array(cs)) => {
            let mut i: usize = 0;
            assert(cs@.subrange(0, 0) =~= Seq::<JsonValue>::empty());
            while i < cs.len()
                invariant
                    0 <= i <= cs@.len(),
                    images@.map_values(|s: String| s@) == candidate_images(items_view(cs@.subrange(0, i as int))),
                decreases cs@.len() - i,
            {
                let ghost prefix = items_view(cs@.subrange(0, i as int));
                proof {
                    assert(cs@.subrange(0, i + 1).drop_last() =~= cs@.subrange(0, i as int));
                    assert(items_view(cs@.subrange(0, i + 1)) == prefix.push(cs@[i as int]@));
                    assert(prefix.push(cs@[i as int]@).drop_last() =~= prefix);
                }
                match member_of(cs[i].get("content"), "parts") {
                    Some(JsonValue::Array(parts)) => push_part_images(&mut images, parts),
                    _ => {
                        assert(part_images(candidate_parts(cs@[i as int]@)) =~= Seq::<Seq<char>>::empty());
                        assert(images@.map_values(|s: String| s@) =~= images@.map_values(|s: String| s@) + Seq::<Seq<char>>::empty());
                    },
                }
                i += 1;
            }
            assert(cs@.subrange(0, i as int) =~= cs@);
        },
        _ => {},
    }
    images
}

/// A token count of Gemini usage, cut to 32 bits.
pub open spec fn usage_count(u: Json, k: Seq<char>) -> Option<u32> {
    match u64_at(Some(u), k) {
        Some(n) => Some(n as u32),
        None => None,
    }
}

/// The usage of a Gemini answer: input, output and total tokens; the total
/// is the sum of input and output (absent ones count 0) when the answer
/// gives none. None without `usageMetadata`.
pub open spec fn gemini_usage_spec(raw: Json) -> Option<(Option<u32>, Option<u32>, Option<u32>)> {
    match json_get(raw, "usageMetadata"@) {
        Some(u) => {
            let inp = usage_count(u, "promptTokenCount"@);
            let out = usage_count(u, "candidatesTokenCount"@);
            let tot = match usage_count(u, "totalTokenCount"@) {
                Some(t) => Some(t),
                None => Some(
                    ((match inp {
                        Some(x) => x as int,
                        None => 0,
                    }) + (match out {
                        Some(x) => x as int,
                        None => 0,
                    })) as u32,
                ),
            };
            Some((inp, out, tot))
        },
        None => None,
    }
}

/// Whether the usage of a Gemini answer adds up within 32 bits when the
/// total must be computed.
pub open spec fn gemini_usage_fits(raw: Json) -> bool {
    match json_get(raw, "usageMetadata"@) {
        Some(u) => usage_count(u, "totalTokenCount"@) is None ==> (match usage_count(u, "promptTokenCount"@) {
            Some(x) => x as int,
            None => 0,
        }) + (match usage_count(u, "candidatesTokenCount"@) {
            Some(x) => x as int,
            None => 0,
        }) <= u32::MAX,
        None => true,
    }
}

fn usage_count_of(u: &JsonValue, k: &str) -> (c: Option<u32>)
    ensures
        c == usage_count(u@, k@),
{
    match u64_under(Some(u), k) {
        Some(n) => Some(n as u32),
        None => None,
    }
}

/// The usage of a Gemini answer (see [`gemini_usage_spec`]).
pub fn vertex_gemini_usage(raw: &JsonValue) -> (r: Option<(Option<u32>, Option<u32>, Option<u32>)>)
    requires
        gemini_usage_fits(raw@),
    ensures
        r == gemini_usage_spec(raw@),
{
    match raw.get("usageMetadata") {
        Some(u) => {
            let inp = usage_count_of(u, "promptTokenCount");
            let out = usage_count_of(u, "candidatesTokenCount");
            let tot = match usage_count_of(u, "totalTokenCount") {
                Some(t) => Some(t),
                None => {
                    let a: u32 = match inp {
                        Some(x) => x,
                        None => 0,
                    };
                    let b: u32 = match out {
                        Some(x) => x,
                        None => 0,
                    };
                    Some(a + b)
                },
            };
            Some((inp, out, tot))
        },
        None => None,
    }
}

} // verus!
