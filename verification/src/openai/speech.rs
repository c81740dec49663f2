//! The OpenAI speech (text-to-speech) model (`/audio/speech`).

use vstd::prelude::*;

use crate::error::AiMuxError;
use crate::headers::HeaderMap;
use crate::json::{members_view, opt_json_view, Json, JsonValue};
use crate::openai::request::{jstr, set_member, set_member_spec, warn, warnings_view, Warning, WarningV};
use crate::search::push_member;
use crate::http::opt_headers_ref;
use crate::openai::model::{endpoint_url, openai_auth_headers, openai_request_headers};
use crate::openai::OpenAIConfig;
use crate::text::{concat, concat3, str_eq};

verus! {

/// The output formats accepted by the speech endpoint.
pub open spec fn is_supported_output_format(f: Seq<char>) -> bool {
    f == "mp3"@ || f == "opus"@ || f == "aac"@ || f == "flac"@ || f == "wav"@ || f == "pcm"@
}

/// Whether the speech endpoint accepts an output format.
pub fn supported_output_format(f: &str) -> (b: bool)
    ensures
        b == is_supported_output_format(f@),
{
    str_eq(f, "mp3") || str_eq(f, "opus") || str_eq(f, "aac") || str_eq(f, "flac") || str_eq(f, "wav")
        || str_eq(f, "pcm")
}

/// The requested format (default `mp3`) and, for an unsupported one, the
/// warning text; an unsupported format falls back to `mp3`.
pub open spec fn output_format_choice(requested: Option<Seq<char>>) -> (Seq<char>, Option<Seq<char>>) {
    let f = match requested {
        Some(r) => r,
        None => "mp3"@,
    };
    if is_supported_output_format(f) {
        (f, None)
    } else {
        ("mp3"@, Some("Unsupported output format: "@ + f + ". Using mp3 instead."@))
    }
}

/// Chooses the `response_format` sent for a requested output format.
pub fn resolve_output_format(requested: Option<&str>) -> (r: (String, Option<String>))
    ensures
        (r.0@, match r.1 { Some(w) => Some(w@), None => None }) == output_format_choice(
            match requested { Some(s) => Some(s@), None => None },
        ),
{
    let f: &str = match requested {
        Some(s) => s,
        None => "mp3",
    };
    if supported_output_format(f) {
        (String::from_str(f), None)
    } else {
        (String::from_str("mp3"), Some(concat3("Unsupported output format: ", f, ". Using mp3 instead.")))
    }
}

/// An OpenAI-compatible speech (text-to-speech) model.
#[derive(Debug)]
pub struct OpenAISpeechModel {
    model_id: String,
    config: OpenAIConfig,
}

impl OpenAISpeechModel {
    pub fn new(model_id: String, config: OpenAIConfig) -> (m: Self)
        ensures
            m.model_id_spec() == model_id@,
            m.config_spec() == config,
    {
        OpenAISpeechModel { model_id, config }
    }

    /// The model id.
    pub closed spec fn model_id_spec(&self) -> Seq<char> {
        self.model_id@
    }

    /// The configuration.
    pub closed spec fn config_spec(&self) -> OpenAIConfig {
        self.config
    }

    /// The provider name of the configuration.
    pub fn provider(&self) -> (s: &str)
        ensures
            s@ == self.config_spec().provider@,
    {
        self.config.provider.as_str()
    }

    /// The model id.
    pub fn model_id(&self) -> (s: &str)
        ensures
            s@ == self.model_id_spec(),
    {
        self.model_id.as_str()
    }

    /// Request headers: the configuration's, then the per-call ones.
    pub fn build_headers(&self, extra: Option<&HeaderMap>) -> (h: HeaderMap)
        ensures
            h@ == openai_auth_headers(self.config_spec()).union_prefer_right(opt_headers_ref(extra)),
    {
        openai_request_headers(&self.config, extra)
    }

    /// `{base_url}/audio/speech`.
    pub fn endpoint(&self) -> (r: String)
        ensures
            r@ == self.config_spec().base_url@ + "/audio/speech"@,
    {
        endpoint_url(self.config.base_url.as_str(), "/audio/speech")
    }
}

/// The settings of a speech call that shape its request body.
#[derive(Debug)]
pub struct SpeechCallOptions {
    pub text: String,
    pub voice: Option<String>,
    pub output_format: Option<String>,
    /// The speed, as the JSON number it is sent as.
    pub speed: Option<JsonValue>,
    pub instructions: Option<String>,
    pub language: Option<String>,
}

/// The speech request body and warnings: model, input, voice (`alloy` by
/// default), the response format (see [`output_format_choice`]), speed and
/// instructions when given; a warning for an unsupported format and one
/// for a language, which the endpoint does not take.
pub open spec fn speech_body_spec(o: SpeechCallOptions, model_id: Seq<char>) -> (Seq<(Seq<char>, Json)>, Seq<WarningV>) {
    let voice = match o.voice {
        Some(v) => v@,
        None => "alloy"@,
    };
    let (format, format_warning) = output_format_choice(
        match o.output_format {
            Some(f) => Some(f@),
            None => None,
        },
    );
    let m0 = seq![
        ("model"@, jstr(model_id)),
        ("input"@, jstr(o.text@)),
        ("voice"@, jstr(voice)),
        ("response_format"@, jstr("mp3"@)),
    ];
    let m1 = match opt_json_view(o.speed) {
        Some(v) => set_member_spec(m0, "speed"@, v),
        None => m0,
    };
    let m2 = match o.instructions {
        Some(i) => set_member_spec(m1, "instructions"@, jstr(i@)),
        None => m1,
    };
    let m3 = if format_warning is None {
        set_member_spec(m2, "response_format"@, jstr(format))
    } else {
        m2
    };
    let w1 = match format_warning {
        Some(d) => seq![WarningV::Unsupported("outputFormat"@, Some(d))],
        None => Seq::empty(),
    };
    let w2 = match o.language {
        Some(l) => seq![
            WarningV::Unsupported(
                "language"@,
                Some(
                    "OpenAI speech models do not support language selection. Language parameter \""@ + l@
                        + "\" was ignored."@,
                ),
            ),
        ],
        None => Seq::empty(),
    };
    (m3, w1 + w2)
}

/// Builds the speech request body with its warnings (see
/// [`speech_body_spec`]).
pub fn build_request_body_and_warnings(options: &SpeechCallOptions, model_id: &str) -> (r: Result<
    (Vec<(String, JsonValue)>, Vec<Warning>),
    AiMuxError,
>)
    ensures
        r matches Ok((body, ws)) && (members_view(body@), warnings_view(ws@)) == speech_body_spec(*options, model_id@),
{
    let mut warnings: Vec<Warning> = Vec::new();
    assert(warnings_view(warnings@) =~= Seq::<WarningV>::empty());
    let voice = match &options.voice {
        Some(v) => v.clone(),
        None => String::from_str("alloy"),
    };
    let requested = match &options.output_format {
        Some(f) => Some(f.as_str()),
        None => None,
    };
    let (format, format_warning) = resolve_output_format(requested);
    let mut body: Vec<(String, JsonValue)> = Vec::new();
    assert(members_view(body@) =~= Seq::<(Seq<char>, Json)>::empty());
    let ghost vv = voice@;
    push_member(&mut body, "model", JsonValue::String(String::from_str(model_id)));
    push_member(&mut body, "input", JsonValue::String(options.text.clone()));
    push_member(&mut body, "voice", JsonValue::String(voice));
    push_member(&mut body, "response_format", JsonValue::String(String::from_str("mp3")));
    assert(members_view(body@) =~= seq![
        ("model"@, jstr(model_id@)),
        ("input"@, jstr(options.text@)),
        ("voice"@, jstr(vv)),
        ("response_format"@, jstr("mp3"@)),
    ]);
    match &options.speed {
        Some(sp) => set_member(&mut body, "speed", sp.deep_copy()),
        None => {},
    }
    match &options.instructions {
        Some(i) => set_member(&mut body, "instructions", JsonValue::String(i.clone())),
        None => {},
    }
    match format_warning {
        None => set_member(&mut body, "response_format", JsonValue::String(format)),
        Some(d) => {
            warn(&mut warnings, "outputFormat", Some(d.as_str()));
        },
    }
    let ghost w1 = warnings_view(warnings@);
    match &options.language {
        Some(l) => {
            let a = concat3(
                "OpenAI speech models do not support language selection. Language parameter \"",
                l.as_str(),
                "\" was ignored.",
            );
            warn(&mut warnings, "language", Some(a.as_str()));
        },
        None => {},
    }
    proof {
        let (m, ws) = speech_body_spec(*options, model_id@);
        assert(members_view(body@) == m);
        assert(warnings_view(warnings@) =~= ws);
    }
    Ok((body, warnings))
}

} // verus!
