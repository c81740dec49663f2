use aimux_providers::error::AiMuxError;
use aimux_providers::json::JsonValue;
use aimux_providers::keyed::KeyedVec;
use aimux_providers::media::{AudioInput, ImageFile, ImageFileData};
use aimux_providers::openai::request::Warning;
use aimux_providers::vertex::{
    vertex_embed_token_total, vertex_gemini_images, vertex_gemini_usage, vertex_imagen_answer, vertex_operation_name,
    vertex_transcript_language, vertex_transcript_text, vertex_video_operation, vertex_video_status, VertexAuth,
    VertexConfig, VertexEmbeddingModel, VertexImageModel, VertexSttAlternative, VertexSttResult,
    VertexTranscriptionModel, VertexVideoModel, VertexVideoStatus,
};

fn to_serde(v: &JsonValue) -> serde_json::Value {
    match v {
        JsonValue::Null => serde_json::Value::Null,
        JsonValue::Bool(b) => serde_json::Value::Bool(*b),
        JsonValue::Number(n) => serde_json::from_str(n).unwrap(),
        JsonValue::String(s) => serde_json::Value::String(s.clone()),
        JsonValue::Array(a) => serde_json::Value::Array(a.iter().map(to_serde).collect()),
        JsonValue::Object(ms) => {
            let mut m = serde_json::Map::new();
            for (k, x) in ms {
                m.insert(k.clone(), to_serde(x));
            }
            serde_json::Value::Object(m)
        },
    }
}

fn from_serde(v: &serde_json::Value) -> JsonValue {
    match v {
        serde_json::Value::Null => JsonValue::Null,
        serde_json::Value::Bool(b) => JsonValue::Bool(*b),
        serde_json::Value::Number(n) => JsonValue::Number(n.to_string()),
        serde_json::Value::String(s) => JsonValue::String(s.clone()),
        serde_json::Value::Array(a) => JsonValue::Array(a.iter().map(from_serde).collect()),
        serde_json::Value::Object(m) => JsonValue::Object(m.iter().map(|(k, v)| (k.clone(), from_serde(v))).collect()),
    }
}

fn parse(text: &str) -> serde_json::Value {
    serde_json::from_str(text).unwrap()
}

fn j(text: &str) -> JsonValue {
    from_serde(&parse(text))
}

fn options(entries: &[(&str, &str)]) -> KeyedVec<JsonValue> {
    let mut o = KeyedVec::new();
    for (k, v) in entries {
        o.insert(k.to_string(), j(v));
    }
    o
}

fn config() -> VertexConfig {
    VertexConfig { base_url: "https://b".into(), auth: VertexAuth::ApiKey("k".into()) }
}

#[test]
fn predict_embedding_request() {
    let m = VertexEmbeddingModel::new("text-embedding-004".into(), config());
    let po = options(&[(
        "vertex",
        r#"{"taskType":"RETRIEVAL_QUERY","outputDimensionality":256,"autoTruncate":false,"title":"t"}"#,
    )]);
    let (url, body) = m.embed_request(&vec!["a".into(), "b".into()], Some(&po));
    assert_eq!(url, "https://b/models/text-embedding-004:predict");
    assert_eq!(
        to_serde(&body),
        parse(
            r#"{"instances":[{"content":"a","task_type":"RETRIEVAL_QUERY","title":"t"},
            {"content":"b","task_type":"RETRIEVAL_QUERY","title":"t"}],
            "parameters":{"outputDimensionality":256,"autoTruncate":false}}"#
        )
    );
}

#[test]
fn embed_content_request_prefers_google_vertex_options() {
    let m = VertexEmbeddingModel::new("gemini-embedding-2".into(), config());
    let po = options(&[("google", r#"{"taskType":"X"}"#), ("googleVertex", r#"{"title":"T"}"#)]);
    let (url, body) = m.embed_request(&vec!["a".into(), "ignored".into()], Some(&po));
    assert_eq!(url, "https://b/models/gemini-embedding-2:embedContent");
    assert_eq!(
        to_serde(&body),
        parse(r#"{"content":{"parts":[{"text":"a"}]},"embedContentConfig":{"title":"T"}}"#)
    );
    let (_, body) = m.embed_request(&vec![], None);
    assert_eq!(to_serde(&body), parse(r#"{"content":{"parts":[{"text":""}]},"embedContentConfig":{}}"#));
}

#[test]
fn embedding_token_totals() {
    let raw = j(r#"{"predictions":[{"embeddings":{"statistics":{"token_count":3}}},{"embeddings":{}},
        {"embeddings":{"statistics":{"token_count":4}}}]}"#);
    assert_eq!(vertex_embed_token_total("text-embedding-004", &raw), Some(7));
    assert_eq!(vertex_embed_token_total("text-embedding-004", &j("{}")), Some(0));
    assert_eq!(vertex_embed_token_total("gemini-embedding-2", &j(r#"{"usageMetadata":{"promptTokenCount":5}}"#)), Some(5));
    assert_eq!(vertex_embed_token_total("gemini-embedding-2", &raw), None);
}

fn stt(base_url: &str) -> VertexTranscriptionModel {
    VertexTranscriptionModel::new(
        "chirp_2".into(),
        "p".into(),
        "us-central1".into(),
        VertexAuth::ApiKey("k".into()),
        base_url.into(),
    )
}

#[test]
fn transcription_request_reads_options() {
    let po = options(&[(
        "google",
        r#"{"region":"global","languageCodes":["en-US",5,"fr-FR"],"enableWordTimeOffsets":false}"#,
    )]);
    let (url, body) = stt("https://speech.example").transcription_request(&AudioInput::Binary(vec![1, 2, 3]), Some(&po));
    assert_eq!(url, "https://speech.googleapis.com/v2/projects/p/locations/global/recognizers/_:recognize");
    assert_eq!(
        to_serde(&body),
        parse(
            r#"{"config":{"model":"chirp_2","languageCodes":["en-US","fr-FR"],"autoDecodingConfig":{},
            "features":{"enableWordTimeOffsets":false,"enableAutomaticPunctuation":true}},"content":"AQID"}"#
        )
    );
}

#[test]
fn transcription_request_defaults() {
    let (url, body) = stt("http://localhost:9").transcription_request(&AudioInput::Base64("QUJD".into()), None);
    assert_eq!(url, "http://localhost:9/v2/projects/p/locations/us-central1/recognizers/_:recognize");
    assert_eq!(
        to_serde(&body),
        parse(
            r#"{"config":{"model":"chirp_2","languageCodes":["auto"],"autoDecodingConfig":{},
            "features":{"enableWordTimeOffsets":true,"enableAutomaticPunctuation":true}},"content":"QUJD"}"#
        )
    );
    assert_eq!(
        stt("https://x").endpoint("europe-west4"),
        "https://europe-west4-speech.googleapis.com/v2/projects/p/locations/europe-west4/recognizers/_:recognize"
    );
}

fn result(transcript: Option<&str>, lang: Option<&str>) -> VertexSttResult {
    VertexSttResult {
        alternatives: Some(vec![VertexSttAlternative { transcript: transcript.map(String::from) }]),
        language_code: lang.map(String::from),
    }
}

#[test]
fn transcript_text_and_language() {
    let results = vec![
        result(Some(" Hello"), Some("en-US")),
        VertexSttResult { alternatives: None, language_code: None },
        VertexSttResult { alternatives: Some(vec![]), language_code: None },
        result(None, None),
        result(Some("world "), None),
    ];
    assert_eq!(vertex_transcript_text(&results), "Hello world");
    assert_eq!(vertex_transcript_language(&results).as_deref(), Some("en"));
    assert_eq!(vertex_transcript_language(&vec![result(Some("x"), Some("fil-PH"))]), None);
    assert_eq!(vertex_transcript_language(&vec![]), None);
    assert_eq!(vertex_transcript_text(&vec![]), "");
}

fn veo(base_url: &str) -> VertexVideoModel {
    VertexVideoModel::new("veo".into(), "p".into(), "us-central1".into(), VertexAuth::ApiKey("k".into()), base_url.into())
}

#[test]
fn video_start_request() {
    let m = veo("https://aiplatform.example");
    assert_eq!(
        m.predict_url(),
        "https://us-central1-aiplatform.googleapis.com/v1beta1/projects/p/locations/us-central1/publishers/google/models/veo:predictLongRunning"
    );
    assert_eq!(m.operation_url("ops/1"), "https://us-central1-aiplatform.googleapis.com/v1beta1/ops/1");
    let local = veo("http://127.0.0.1:8");
    assert_eq!(local.predict_url(), "http://127.0.0.1:8/models/veo:predictLongRunning");
    assert_eq!(local.operation_url("ops/1"), "http://127.0.0.1:8/ops/1");
    let body = m.start_body(
        Some("a cat"),
        Some("gs://x.png"),
        Some("16:9"),
        Some(&JsonValue::Number("7".into())),
        Some(&JsonValue::Number("8".into())),
        Some(true),
    );
    assert_eq!(
        to_serde(&body),
        parse(
            r#"{"instances":[{"prompt":"a cat","image":{"gcsUri":"gs://x.png","mimeType":"image/png"}}],
            "parameters":{"aspectRatio":"16:9","seed":7,"durationSeconds":8,"generateAudio":true}}"#
        )
    );
    let body = m.start_body(None, None, None, None, None, None);
    assert_eq!(to_serde(&body), parse(r#"{"instances":[{"prompt":null}],"parameters":{}}"#));
}

#[test]
fn video_operation_names() {
    assert_eq!(vertex_video_operation(&j(r#"{"name":"ops/1"}"#)).unwrap(), "ops/1");
    match vertex_video_operation(&j("{}")) {
        Err(AiMuxError::InvalidResponseData(m)) => assert_eq!(m, "Vertex video prediction missing operation name"),
        other => panic!("unexpected {other:?}"),
    }
    assert_eq!(vertex_operation_name(&j(r#"{"operation_name":"ops/2"}"#)).unwrap(), "ops/2");
    match vertex_operation_name(&j(r#"{"operation_name":3}"#)) {
        Err(AiMuxError::InvalidArgument(m)) => {
            assert_eq!(m, "google.vertex operation reference is missing operation_name")
        },
        other => panic!("unexpected {other:?}"),
    }
}

#[test]
fn video_status_decisions() {
    match vertex_video_status(&j(r#"{"done":true,"error":{"message":"quota","status":"RESOURCE_EXHAUSTED"}}"#), "raw") {
        Err(AiMuxError::ApiCall { status_code, provider_code, message, response_body }) => {
            assert_eq!(status_code, Some(200));
            assert_eq!(provider_code.as_deref(), Some("RESOURCE_EXHAUSTED"));
            assert_eq!(message, "quota");
            assert_eq!(response_body.as_deref(), Some("raw"));
        },
        other => panic!("unexpected {other:?}"),
    }
    match vertex_video_status(&j(r#"{"error":{}}"#), "") {
        Err(AiMuxError::ApiCall { message, provider_code, .. }) => {
            assert_eq!(message, "Unknown error");
            assert!(provider_code.is_none());
        },
        other => panic!("unexpected {other:?}"),
    }
    assert!(matches!(vertex_video_status(&j(r#"{"done":false}"#), ""), Ok(VertexVideoStatus::Pending)));
    assert!(matches!(vertex_video_status(&j("{}"), ""), Ok(VertexVideoStatus::Pending)));
    match vertex_video_status(
        &j(r#"{"done":true,"response":{"videos":[{"gcsUri":"gs://a"},{"url":"https://b"},{"gcsUri":5,"url":"https://c"}]}}"#),
        "",
    ) {
        Ok(VertexVideoStatus::Completed(urls)) => assert_eq!(urls, vec!["gs://a".to_string(), "https://b".to_string()]),
        other => panic!("unexpected {other:?}"),
    }
    match vertex_video_status(&j(r#"{"done":true,"response":{"videos":[]}}"#), "") {
        Err(AiMuxError::InvalidResponseData(m)) => {
            assert_eq!(m, "Vertex video operation completed without any video output")
        },
        other => panic!("unexpected {other:?}"),
    }
}

fn png(b64: &str) -> ImageFile {
    ImageFile::File { media_type: "image/png".into(), data: ImageFileData::Base64(b64.into()) }
}

fn warning_texts(ws: &[Warning]) -> Vec<String> {
    ws.iter()
        .map(|w| match w {
            Warning::Unsupported { feature, details } => format!("{feature}: {}", details.clone().unwrap_or_default()),
            Warning::Other { message } => message.clone(),
        })
        .collect()
}

#[test]
fn imagen_generation_request() {
    let m = VertexImageModel::new("imagen-3.0-generate-002".into(), config());
    let (url, body, warnings) = m.image_request(Some("p"), 2, true, Some("1:1"), None, None, None, None).unwrap();
    assert_eq!(url, "https://b/models/imagen-3.0-generate-002:predict");
    assert_eq!(to_serde(&body), parse(r#"{"instances":[{"prompt":"p"}],"parameters":{"sampleCount":2,"aspectRatio":"1:1"}}"#));
    assert_eq!(
        warning_texts(&warnings),
        vec!["size: This model does not support the `size` option. Use `aspectRatio` instead.".to_string()]
    );
}

#[test]
fn imagen_edit_request() {
    let m = VertexImageModel::new("imagen-3.0-capability-001".into(), config());
    let po = options(&[(
        "vertex",
        r#"{"edit":{"mode":"EDIT_MODE_BGSWAP","baseSteps":10,"maskMode":"MASK_MODE_SEMANTIC","maskDilation":0.1},
        "personGeneration":"allow_all","sampleCount":3}"#,
    )]);
    let files = vec![png("QUJD")];
    let mask = ImageFile::File { media_type: "image/png".into(), data: ImageFileData::Binary(vec![1, 2, 3]) };
    let (_, body, warnings) =
        m.image_request(Some("p"), 1, false, None, None, Some(&files), Some(&mask), Some(&po)).unwrap();
    assert!(warnings.is_empty());
    assert_eq!(
        to_serde(&body),
        parse(
            r#"{"instances":[{"prompt":"p","referenceImages":[
            {"referenceType":"REFERENCE_TYPE_RAW","referenceId":1,"referenceImage":{"bytesBase64Encoded":"QUJD"}},
            {"referenceType":"REFERENCE_TYPE_MASK","referenceId":2,"referenceImage":{"bytesBase64Encoded":"AQID"},
             "maskImageConfig":{"maskMode":"MASK_MODE_SEMANTIC","dilation":0.1}}]}],
            "parameters":{"sampleCount":3,"editMode":"EDIT_MODE_BGSWAP","editConfig":{"baseSteps":10},
            "personGeneration":"allow_all"}}"#
        )
    );
    let urls = vec![ImageFile::Url { url: "https://x/1.png".into() }];
    match m.image_request(Some("p"), 1, false, None, None, Some(&urls), None, None) {
        Err(AiMuxError::InvalidArgument(msg)) => {
            assert_eq!(msg, "URL-based images are not supported for Google Vertex image editing.")
        },
        other => panic!("unexpected {other:?}"),
    }
}

#[test]
fn gemini_image_requests() {
    let m = VertexImageModel::new("gemini-2.5-flash-image".into(), config());
    let files = vec![png("QUJD")];
    let po = options(&[("googleVertex", r#"{"responseModalities":["TEXT"],"temperature":0.5}"#)]);
    let (url, body, warnings) = m
        .image_request(Some("p"), 1, false, Some("16:9"), Some(&JsonValue::Number("3".into())), Some(&files), None, Some(&po))
        .unwrap();
    assert!(warnings.is_empty());
    assert_eq!(url, "https://b/models/gemini-2.5-flash-image:generateContent");
    assert_eq!(
        to_serde(&body),
        parse(
            r#"{"contents":[{"role":"user","parts":[{"text":"p"},{"inlineData":{"mimeType":"image/png","data":"QUJD"}}]}],
            "generationConfig":{"responseModalities":["IMAGE"],"imageConfig":{"aspectRatio":"16:9"},"seed":3,"temperature":0.5}}"#
        )
    );
    match m.image_request(Some("p"), 1, false, None, None, None, Some(&png("QUJD")), None) {
        Err(AiMuxError::UnsupportedFunctionality(msg)) => {
            assert_eq!(msg, "Gemini image models do not support mask-based image editing.")
        },
        other => panic!("unexpected {other:?}"),
    }
    match m.image_request(Some("p"), 2, false, None, None, None, None, None) {
        Err(AiMuxError::UnsupportedFunctionality(msg)) => assert!(msg.starts_with("Gemini image models do not support generating")),
        other => panic!("unexpected {other:?}"),
    }
    let mixed = vec![png("QUJD"), ImageFile::Url { url: "https://x/2.png".into() }];
    match m.image_request(Some("p"), 1, false, None, None, Some(&mixed), None, None) {
        Err(AiMuxError::UnsupportedFunctionality(msg)) => assert_eq!(
            msg,
            "URL-based input images with media type \"image/*\" are not passed as inline bytes. URL: https://x/2.png"
        ),
        other => panic!("unexpected {other:?}"),
    }
}

#[test]
fn image_answers() {
    let (images, meta) =
        vertex_imagen_answer(&j(r#"{"predictions":[{"bytesBase64Encoded":"AAA","prompt":"rp"},{"bytesBase64Encoded":"BBB"}]}"#));
    assert_eq!(images, vec!["AAA".to_string(), "BBB".to_string()]);
    assert_eq!(to_serde(&meta), parse(r#"{"images":[{"revisedPrompt":"rp"},{}]}"#));
    let raw = j(r#"{"candidates":[{"content":{"parts":[{"text":"x"},{"inlineData":{"mimeType":"image/png","data":"IMG"}},
        {"inlineData":{"mimeType":"text/plain","data":"no"}}]}},{"content":{}}],
        "usageMetadata":{"promptTokenCount":3,"candidatesTokenCount":4}}"#);
    assert_eq!(vertex_gemini_images(&raw), vec!["IMG".to_string()]);
    assert_eq!(vertex_gemini_usage(&raw), Some((Some(3), Some(4), Some(7))));
    assert_eq!(
        vertex_gemini_usage(&j(r#"{"usageMetadata":{"totalTokenCount":9}}"#)),
        Some((None, None, Some(9)))
    );
    assert_eq!(vertex_gemini_usage(&j("{}")), None);
}
