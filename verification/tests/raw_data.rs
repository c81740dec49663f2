use aimux_providers::error::AiMuxError;
use aimux_providers::headers::HeaderMap;
use aimux_providers::open_responses::{OpenResponsesConfig, OpenResponsesModel};
use aimux_providers::json::JsonValue;
use aimux_providers::media::{ImageFile, ImageFileData};
use aimux_providers::open_responses_request::build_stream_request_body;
use aimux_providers::open_responses_result::{first_data_error, open_responses_answer};
use aimux_providers::open_responses_stream::{DataStep, OpenResponsesStreamState};
use aimux_providers::openai::body::CallOptions;
use aimux_providers::openai::request::Warning;
use aimux_providers::openai::stream::{start_parts, StreamPart};
use aimux_providers::openai::tools::ToolChoice;
use aimux_providers::replicate::{replicate_image_request, replicate_output_urls};
use aimux_providers::revai::{
    revai_job_form, revai_job_step, revai_submitted_job, revai_transcript_text, RevaiElement, RevaiJobState,
    RevaiMonologue,
};
use aimux_providers::usage::FinishReasonUnified;

fn to_serde(v: &JsonValue) -> serde_json::Value {
    match v {
        JsonValue::Null => serde_json::Value::Null,
        JsonValue::Bool(b) => serde_json::Value::Bool(*b),
        JsonValue::Number(n) => serde_json::from_str(n).unwrap(),
        JsonValue::String(s) => serde_json::Value::String(s.clone()),
        JsonValue::Array(a) => serde_json::Value::Array(a.iter().map(to_serde).collect()),
        JsonValue::Object(ms) => {
            let mut m = serde_json::Map::new();
            for (k, x) in ms {
                m.insert(k.clone(), to_serde(x));
            }
            serde_json::Value::Object(m)
        },
    }
}

fn from_serde(v: &serde_json::Value) -> JsonValue {
    match v {
        serde_json::Value::Null => JsonValue::Null,
        serde_json::Value::Bool(b) => JsonValue::Bool(*b),
        serde_json::Value::Number(n) => JsonValue::Number(n.to_string()),
        serde_json::Value::String(s) => JsonValue::String(s.clone()),
        serde_json::Value::Array(a) => JsonValue::Array(a.iter().map(from_serde).collect()),
        serde_json::Value::Object(m) => JsonValue::Object(m.iter().map(|(k, v)| (k.clone(), from_serde(v))).collect()),
    }
}

fn parse(text: &str) -> serde_json::Value {
    serde_json::from_str(text).unwrap()
}

fn j(text: &str) -> JsonValue {
    from_serde(&parse(text))
}

fn empty_options() -> CallOptions {
    CallOptions {
        prompt: vec![],
        max_output_tokens: None,
        temperature: None,
        top_p: None,
        top_k: None,
        frequency_penalty: None,
        presence_penalty: None,
        stop_sequences: None,
        seed: None,
        response_format: None,
        reasoning: None,
        provider_options: None,
        tools: None,
        tool_choice: ToolChoice::Auto,
        body_overrides: None,
    }
}

fn messages(ws: &[Warning]) -> Vec<String> {
    ws.iter()
        .map(|w| match w {
            Warning::Other { message } => message.clone(),
            Warning::Unsupported { feature, .. } => feature.clone(),
        })
        .collect()
}

/// Runs a stream the way a caller does: the start part, the events'
/// parts until the stream stops, then the closing parts.
fn run_stream(warnings: Vec<Warning>, datas: &[&str]) -> Vec<StreamPart> {
    let mut parts = start_parts(warnings);
    let mut s = OpenResponsesStreamState::new();
    for d in datas {
        match s.on_data(d) {
            DataStep::Parts(p) => parts.extend(p),
            DataStep::Stop(p) => {
                parts.extend(p);
                break;
            },
            DataStep::UsageOutOfRange => panic!("usage out of range"),
        }
    }
    parts.extend(s.end());
    parts
}

#[test]
fn streamed_tool_call_from_raw_events() {
    let (body, warnings) = build_stream_request_body("m", &empty_options(), "open_responses");
    assert_eq!(to_serde(&body), parse(r#"{"model":"m","input":[],"stream":true}"#));
    assert!(warnings.is_empty());
    let parts = run_stream(
        warnings,
        &[
            r#"{"type":"response.output_item.added","item":{"type":"function_call","id":"f","call_id":"c","name":"w","arguments":"[1,"}}"#,
            r#"{"type":"response.function_call_arguments.delta","item_id":"f","delta":"2]"}"#,
            r#"{"type":"response.output_item.done","item":{"type":"function_call","id":"f"}}"#,
            r#"{"type":"response.completed","response":{}}"#,
        ],
    );
    assert_eq!(parts.len(), 3);
    match &parts[0] {
        StreamPart::StreamStart { warnings } => assert!(warnings.is_empty()),
        other => panic!("unexpected {other:?}"),
    }
    match &parts[1] {
        StreamPart::ToolCall { tool_call_id, tool_name, arguments } => {
            assert_eq!((tool_call_id.as_str(), tool_name.as_str(), arguments.as_str()), ("c", "w", "[1,2]"));
        },
        other => panic!("unexpected {other:?}"),
    }
    match &parts[2] {
        StreamPart::Finish { finish_reason, .. } => {
            assert_eq!(finish_reason.unified, FinishReasonUnified::ToolCalls);
            assert!(finish_reason.raw.is_none());
        },
        other => panic!("unexpected {other:?}"),
    }
}

#[test]
fn start_part_carries_request_warnings() {
    let parts = start_parts(vec![Warning::Other { message: "w".into() }]);
    assert_eq!(parts.len(), 1);
    match &parts[0] {
        StreamPart::StreamStart { warnings } => assert_eq!(messages(warnings), vec!["w".to_string()]),
        other => panic!("unexpected {other:?}"),
    }
}

#[test]
fn done_marker_stops_the_stream() {
    let mut s = OpenResponsesStreamState::new();
    match s.on_data("[DONE]") {
        DataStep::Stop(p) => assert!(p.is_empty()),
        other => panic!("unexpected {other:?}"),
    }
}

#[test]
fn data_that_is_not_json_ends_with_an_error_part() {
    let mut s = OpenResponsesStreamState::new();
    match s.on_data("{not json") {
        DataStep::Stop(p) => {
            assert_eq!(p.len(), 1);
            match &p[0] {
                StreamPart::Error { error: JsonValue::String(m) } => assert!(!m.is_empty()),
                other => panic!("unexpected {other:?}"),
            }
        },
        other => panic!("unexpected {other:?}"),
    }
}

#[test]
fn inconsistent_usage_is_refused() {
    let mut s = OpenResponsesStreamState::new();
    let step = s.on_data(
        r#"{"type":"response.completed","response":{"usage":{"input_tokens":1,"input_tokens_details":{"cached_tokens":2}}}}"#,
    );
    assert!(matches!(step, DataStep::UsageOutOfRange));
}

#[test]
fn first_data_reports_the_call_error() {
    match first_data_error(r#"{"error":{"message":"bad key","code":"auth"}}"#, 401) {
        Some(AiMuxError::ApiCall { status_code, provider_code, message, response_body }) => {
            assert_eq!(status_code, Some(401));
            assert_eq!(provider_code.as_deref(), Some("auth"));
            assert_eq!(message, "bad key");
            assert_eq!(response_body.as_deref(), Some(r#"{"error":{"message":"bad key","code":"auth"}}"#));
        },
        other => panic!("unexpected {other:?}"),
    }
    assert!(first_data_error(r#"{"type":"response.created"}"#, 200).is_none());
    assert!(first_data_error("nope", 200).is_none());
}

#[test]
fn answer_bodies_are_parsed() {
    match open_responses_answer(200, b"not json") {
        Some(Err(AiMuxError::JsonParse(m))) => assert!(!m.is_empty()),
        other => panic!("unexpected {other:?}"),
    }
    let body = br#"{"id":"r1","model":"m","created_at":7,"output":[{"type":"message","content":[{"type":"output_text","text":"hi"}]}],"usage":{"input_tokens":3,"output_tokens":2}}"#;
    match open_responses_answer(200, body) {
        Some(Ok(g)) => {
            assert_eq!(g.response_id.as_deref(), Some("r1"));
            assert_eq!(g.model_id.as_deref(), Some("m"));
            assert_eq!(g.timestamp.as_deref(), Some("7"));
            assert_eq!(g.usage.input_tokens.total, Some(3));
            assert_eq!(g.usage.output_tokens.total, Some(2));
        },
        other => panic!("unexpected {other:?}"),
    }
    let bad_usage = br#"{"output":[],"usage":{"input_tokens":1,"input_tokens_details":{"cached_tokens":2}}}"#;
    assert!(open_responses_answer(200, bad_usage).is_none());
}

#[test]
fn revai_job_form_frames_media_and_config() {
    let body = revai_job_form("B", "audio.mp3", "audio/mpeg", b"abc", "machine");
    let expected = "--B\r\nContent-Disposition: form-data; name=\"media\"; filename=\"audio.mp3\"\r\nContent-Type: audio/mpeg\r\n\r\nabc\r\n--B\r\nContent-Disposition: form-data; name=\"config\"\r\n\r\n{\"transcriber\":\"machine\"}\r\n--B--\r\n";
    assert_eq!(String::from_utf8(body).unwrap(), expected);
}

#[test]
fn revai_config_escapes_the_model_id() {
    let body = revai_job_form("B", "a.wav", "audio/wav", b"", "a\"b");
    let text = String::from_utf8(body).unwrap();
    assert!(text.contains("{\"transcriber\":\"a\\\"b\"}"));
}

#[test]
fn revai_submission_decisions() {
    match revai_submitted_job(Some("in_progress"), Some("j1")) {
        Ok(id) => assert_eq!(id, "j1"),
        other => panic!("unexpected {other:?}"),
    }
    match revai_submitted_job(Some("failed"), Some("j1")) {
        Err(AiMuxError::Provider(m)) => assert_eq!(m, "Failed to submit transcription job to Rev.ai"),
        other => panic!("unexpected {other:?}"),
    }
    match revai_submitted_job(None, None) {
        Err(AiMuxError::Provider(m)) => assert_eq!(m, "Rev.ai job submission did not return an id"),
        other => panic!("unexpected {other:?}"),
    }
}

#[test]
fn revai_poll_decisions() {
    assert!(matches!(revai_job_step(Some("transcribed")), Ok(RevaiJobState::Transcribed)));
    assert!(matches!(revai_job_step(Some("in_progress")), Ok(RevaiJobState::Pending)));
    assert!(matches!(revai_job_step(None), Ok(RevaiJobState::Pending)));
    match revai_job_step(Some("failed")) {
        Err(AiMuxError::Provider(m)) => assert_eq!(m, "Transcription job failed"),
        other => panic!("unexpected {other:?}"),
    }
}

fn element(t: &str, v: Option<&str>) -> RevaiElement {
    RevaiElement { elem_type: Some(t.into()), value: v.map(String::from) }
}

#[test]
fn revai_transcript_joins_monologues() {
    let monologues = vec![
        RevaiMonologue {
            elements: Some(vec![element("text", Some("Hello")), element("punct", Some(",")), element("text", None),
                element("punct", Some(" ")), element("text", Some("world"))]),
        },
        RevaiMonologue { elements: None },
        RevaiMonologue { elements: Some(vec![element("text", Some("Bye"))]) },
    ];
    assert_eq!(revai_transcript_text(&monologues), "Hello, world  Bye");
    assert_eq!(revai_transcript_text(&vec![]), "");
}

fn url_file(u: &str) -> ImageFile {
    ImageFile::Url { url: u.into() }
}

#[test]
fn replicate_flux2_request() {
    let files: Vec<ImageFile> = (1..=9).map(|i| url_file(&format!("https://x/{i}.png"))).collect();
    let opts = j(r#"{"maxWaitTimeInSeconds":30,"guidance":3,"prompt":"override"}"#);
    let (body, warnings, prefer) = replicate_image_request(
        "black-forest-labs/flux-2-pro:v9",
        Some("a cat"),
        Some("16:9"),
        None,
        Some(&JsonValue::Number("42".into())),
        2,
        Some(&files),
        Some(&url_file("https://x/mask.png")),
        Some(&opts),
    );
    let expected = parse(
        r#"{"input":{"prompt":"override","aspect_ratio":"16:9","seed":42,"num_outputs":2,
        "input_image":"https://x/1.png","input_image_2":"https://x/2.png","input_image_3":"https://x/3.png",
        "input_image_4":"https://x/4.png","input_image_5":"https://x/5.png","input_image_6":"https://x/6.png",
        "input_image_7":"https://x/7.png","input_image_8":"https://x/8.png","guidance":3},"version":"v9"}"#,
    );
    assert_eq!(to_serde(&body), expected);
    assert_eq!(
        messages(&warnings),
        vec![
            "Flux-2 models support up to 8 input images. Additional images are ignored.".to_string(),
            "Flux-2 models do not support mask input. The mask will be ignored.".to_string(),
        ]
    );
    assert_eq!(prefer, "wait=30");
}

#[test]
fn replicate_single_image_request() {
    let files = vec![
        ImageFile::File { media_type: "image/png".into(), data: ImageFileData::Binary(vec![1, 2, 3]) },
        url_file("https://x/2.png"),
    ];
    let (body, warnings, prefer) = replicate_image_request(
        "stability-ai/sdxl",
        None,
        None,
        Some("1024x1024"),
        None,
        1,
        Some(&files),
        Some(&ImageFile::File { media_type: "image/png".into(), data: ImageFileData::Base64("QUJD".into()) }),
        None,
    );
    let expected = parse(
        r#"{"input":{"size":"1024x1024","num_outputs":1,"image":"data:image/png;base64,AQID",
        "mask":"data:image/png;base64,QUJD"}}"#,
    );
    assert_eq!(to_serde(&body), expected);
    assert_eq!(
        messages(&warnings),
        vec!["This Replicate model only supports a single input image. Additional images are ignored.".to_string()]
    );
    assert_eq!(prefer, "wait");
}

#[test]
fn replicate_output_urls_read_strings() {
    assert_eq!(
        replicate_output_urls(&j(r#"{"output":["https://a","7",null,"https://b"]}"#)),
        vec!["https://a".to_string(), "7".to_string(), "https://b".to_string()]
    );
    assert_eq!(replicate_output_urls(&j(r#"{"output":"https://one"}"#)), vec!["https://one".to_string()]);
    assert!(replicate_output_urls(&j(r#"{"output":null}"#)).is_empty());
    assert!(replicate_output_urls(&j(r#"{"status":"ok"}"#)).is_empty());
}

#[test]
fn open_responses_snapshot_records_source_and_options() {
    let config = OpenResponsesConfig::new("lmstudio".into(), "lmstudio".into(), "http://localhost:1234/v1/responses".into());
    let model = OpenResponsesModel::new("qwen".into(), &config);
    let snap = model.config_snapshot(None);
    assert_eq!(snap.provider, "lmstudio");
    assert_eq!(snap.model_id, "qwen");
    assert_eq!(snap.base_url.as_deref(), Some("http://localhost:1234/v1/responses"));
    assert_eq!(snap.api_key_source, "none");
    assert!(snap.profile.is_none());
    assert_eq!(
        to_serde(snap.provider_options.as_ref().unwrap()),
        parse(r#"{"provider_options_name":"lmstudio","has_headers":false}"#)
    );
    let mut h = HeaderMap::new();
    h.insert("Authorization".into(), "Bearer secret".into());
    let snap = model.config_snapshot(Some(&h));
    assert_eq!(snap.api_key_source, "explicit");
    assert_eq!(
        to_serde(snap.provider_options.as_ref().unwrap()),
        parse(r#"{"provider_options_name":"lmstudio","has_headers":true}"#)
    );
    assert!(!format!("{snap:?}").contains("secret"));
    let marked = OpenResponsesModel::new("qwen".into(), &config.with_api_key_source(Some("env:LMSTUDIO_KEY")));
    assert_eq!(marked.config_snapshot(Some(&h)).api_key_source, "env:LMSTUDIO_KEY");
}

#[test]
fn flux2_input_never_carries_the_wait_limit() {
    let opts = j(r#"{"maxWaitTimeInSeconds":5}"#);
    let (body, _, prefer) =
        replicate_image_request("black-forest-labs/flux-2-dev", Some("p"), None, None, None, 1, None, None, Some(&opts));
    assert_eq!(to_serde(&body), parse(r#"{"input":{"prompt":"p","num_outputs":1}}"#));
    assert_eq!(prefer, "wait=5");
}
