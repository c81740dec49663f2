use aimux_providers::error::AiMuxError;
use aimux_providers::headers::HeaderMap;
use aimux_providers::http::layer_headers;
use aimux_providers::json::JsonValue;
use aimux_providers::media::{
    audio_input_to_base64, audio_input_to_bytes, complete_media_type, file_to_data_uri, image_file_to_bytes,
    AudioInput, ImageFile, ImageFileData,
};
use aimux_providers::multipart::{boundary_from_nanos, content_type_for, generate_boundary};
use aimux_providers::openai::convert::{
    deep_merge_json, get_top_level_media_type, parse_finish_reason, resolve_full_media_type,
};
use aimux_providers::openai::convert_common::{get_model_capabilities, SystemMessageMode};
use aimux_providers::openai::files::{build_multipart_form, build_multipart_form_with_boundary};
use aimux_providers::openai::image::{distribute_token_details, get_max_images_per_call, has_default_response_format};
use aimux_providers::openai::responses::map_responses_finish_reason;
use aimux_providers::openai::transcription::{is_realtime_transcription_model_id, language_name_to_code};
use aimux_providers::openai::types::{CompletionTokensDetails, PromptTokensDetails, UsageResponse};
use aimux_providers::openai::usage::convert_usage;
use aimux_providers::searxng::{SearxngConfig, SearxngProvider};
use aimux_providers::stability::{convert_size_to_aspect_ratio, gcd, model_id_to_subpath};
use aimux_providers::usage::FinishReasonUnified;

fn obj(members: Vec<(&str, JsonValue)>) -> JsonValue {
    JsonValue::Object(members.into_iter().map(|(k, v)| (k.to_string(), v)).collect())
}

fn num(n: &str) -> JsonValue {
    JsonValue::Number(n.to_string())
}

fn member<'a>(v: &'a JsonValue, k: &str) -> Option<&'a JsonValue> {
    match v {
        JsonValue::Object(ms) => ms.iter().find(|(n, _)| n == k).map(|(_, v)| v),
        _ => None,
    }
}

fn number_text(v: Option<&JsonValue>) -> Option<String> {
    match v {
        Some(JsonValue::Number(n)) => Some(n.clone()),
        _ => None,
    }
}

#[test]
fn aspect_ratio_reduces_by_gcd() {
    assert_eq!(gcd(12, 18), 6);
    assert_eq!(gcd(7, 0), 7);
    assert_eq!(convert_size_to_aspect_ratio(1920, 1080).as_deref(), Some("16:9"));
    assert_eq!(convert_size_to_aspect_ratio(1024, 1024).as_deref(), Some("1:1"));
    assert_eq!(convert_size_to_aspect_ratio(0, 512), None);
    assert_eq!(convert_size_to_aspect_ratio(512, 0), None);
}

#[test]
fn stability_subpaths() {
    assert_eq!(model_id_to_subpath("stable-image-ultra"), "ultra");
    assert_eq!(model_id_to_subpath("stable-image-core"), "core");
    assert_eq!(model_id_to_subpath("sd3"), "sd3");
    assert_eq!(model_id_to_subpath("sd3.5-large"), "sd3.5-large");
}

#[test]
fn image_model_limits() {
    assert_eq!(get_max_images_per_call("dall-e-3"), 1);
    assert_eq!(get_max_images_per_call("dall-e-2"), 10);
    assert_eq!(get_max_images_per_call("gpt-image-1"), 10);
    assert_eq!(get_max_images_per_call("chatgpt-image-latest"), 10);
    assert_eq!(get_max_images_per_call("other"), 1);
    assert!(has_default_response_format("gpt-image-1"));
    assert!(!has_default_response_format("dall-e-3"));
}

#[test]
fn token_details_split_over_images() {
    let details = obj(vec![("image_tokens", num("10")), ("text_tokens", num("7"))]);
    let first = distribute_token_details(Some(&details), 0, 3).unwrap();
    let last = distribute_token_details(Some(&details), 2, 3).unwrap();
    assert_eq!(number_text(member(&first, "imageTokens")).as_deref(), Some("3"));
    assert_eq!(number_text(member(&first, "textTokens")).as_deref(), Some("2"));
    assert_eq!(number_text(member(&last, "imageTokens")).as_deref(), Some("4"));
    assert_eq!(number_text(member(&last, "textTokens")).as_deref(), Some("3"));
    // The shares add up to the whole: 3 + 3 + 4 == 10.
    let middle = distribute_token_details(Some(&details), 1, 3).unwrap();
    assert_eq!(number_text(member(&middle, "imageTokens")).as_deref(), Some("3"));
    assert!(distribute_token_details(None, 0, 1).is_none());
    assert!(distribute_token_details(Some(&obj(vec![])), 0, 1).is_none());
}

#[test]
fn media_types_complete_from_data() {
    assert_eq!(get_top_level_media_type("image/png"), "image");
    assert_eq!(get_top_level_media_type("audio"), "audio");
    assert_eq!(resolve_full_media_type("image/*", "/9j/4AAQ"), "image/jpeg");
    assert_eq!(resolve_full_media_type("image", "iVBORw0KGgoAAA"), "image/png");
    assert_eq!(resolve_full_media_type("image", "R0lGODlh"), "image/gif");
    assert_eq!(resolve_full_media_type("image/*", "UklGRiQ"), "image/webp");
    assert_eq!(resolve_full_media_type("image", "xyz"), "image/png");
    assert_eq!(resolve_full_media_type("image/jpeg", "iVBORw0KGgo"), "image/jpeg");
    assert_eq!(complete_media_type("application/pdf", "JVBER"), "application/pdf");
}

#[test]
fn data_uri_of_binary_decodes_back() {
    let file = ImageFile::File { media_type: "image/png".into(), data: ImageFileData::Binary(vec![1, 2, 3]) };
    let uri = file_to_data_uri(&file).unwrap();
    assert_eq!(uri, "data:image/png;base64,AQID");
    let inline = ImageFile::File {
        media_type: "image/png".into(),
        data: ImageFileData::Base64(uri["data:image/png;base64,".len()..].to_string()),
    };
    assert_eq!(image_file_to_bytes(&inline).unwrap(), vec![1, 2, 3]);
    let url = ImageFile::Url { url: "https://x.example/a.png".into() };
    assert_eq!(file_to_data_uri(&url).unwrap(), "https://x.example/a.png");
}

#[test]
fn url_images_cannot_be_uploaded() {
    let url = ImageFile::Url { url: "https://x.example/a.png".into() };
    match image_file_to_bytes(&url) {
        Err(AiMuxError::InvalidArgument(m)) => {
            assert_eq!(m, "OpenAI image edit does not support URL files in this implementation")
        },
        other => panic!("unexpected {other:?}"),
    }
}

#[test]
fn invalid_base64_is_an_argument_error() {
    match audio_input_to_bytes(&AudioInput::Base64("!!!!".into())) {
        Err(AiMuxError::InvalidArgument(m)) => assert_eq!(m, "invalid base64: Invalid symbol 33, offset 0."),
        other => panic!("unexpected {other:?}"),
    }
    match audio_input_to_bytes(&AudioInput::Base64("QQ=".into())) {
        Err(AiMuxError::InvalidArgument(m)) => assert!(m.starts_with("invalid base64: "), "{m}"),
        other => panic!("unexpected {other:?}"),
    }
}

#[test]
fn audio_base64_roundtrip() {
    let b64 = audio_input_to_base64(&AudioInput::Binary(b"hello".to_vec()));
    assert_eq!(b64, "aGVsbG8=");
    assert_eq!(audio_input_to_bytes(&AudioInput::Base64(b64)).unwrap(), b"hello".to_vec());
    assert_eq!(audio_input_to_base64(&AudioInput::Base64("QUJD".into())), "QUJD");
}

#[test]
fn deep_merge_follows_merge_patch_rules() {
    let mut target = obj(vec![
        ("a", num("1")),
        ("b", obj(vec![("c", num("2")), ("d", num("3"))])),
        ("e", JsonValue::Bool(true)),
    ]);
    let patch = obj(vec![
        ("b", obj(vec![("c", num("20")), ("d", JsonValue::Null)])),
        ("e", JsonValue::Null),
        ("f", JsonValue::String("new".into())),
    ]);
    deep_merge_json(&mut target, &patch);
    assert_eq!(number_text(member(&target, "a")).as_deref(), Some("1"));
    let b = member(&target, "b").unwrap();
    assert_eq!(number_text(member(b, "c")).as_deref(), Some("20"));
    assert!(member(b, "d").is_none());
    assert!(member(&target, "e").is_none());
    assert!(matches!(member(&target, "f"), Some(JsonValue::String(s)) if s == "new"));

    let mut scalar = num("5");
    deep_merge_json(&mut scalar, &obj(vec![("x", num("1"))]));
    assert_eq!(number_text(member(&scalar, "x")).as_deref(), Some("1"));

    let mut replaced = obj(vec![("x", num("1"))]);
    deep_merge_json(&mut replaced, &JsonValue::Bool(false));
    assert!(matches!(replaced, JsonValue::Bool(false)));
}

#[test]
fn finish_reasons_map() {
    assert_eq!(parse_finish_reason("stop").unified, FinishReasonUnified::Stop);
    assert_eq!(parse_finish_reason("length").unified, FinishReasonUnified::Length);
    assert_eq!(parse_finish_reason("tool_calls").unified, FinishReasonUnified::ToolCalls);
    assert_eq!(parse_finish_reason("content_filter").unified, FinishReasonUnified::ContentFilter);
    let other = parse_finish_reason("weird");
    assert_eq!(other.unified, FinishReasonUnified::Other);
    assert_eq!(other.raw.as_deref(), Some("weird"));
    assert_eq!(map_responses_finish_reason(None, false).unified, FinishReasonUnified::Stop);
    assert_eq!(map_responses_finish_reason(None, true).unified, FinishReasonUnified::ToolCalls);
    assert_eq!(map_responses_finish_reason(Some("max_output_tokens"), true).unified, FinishReasonUnified::Length);
    assert_eq!(map_responses_finish_reason(Some("content_filter"), false).unified, FinishReasonUnified::ContentFilter);
    assert_eq!(map_responses_finish_reason(Some("other"), true).unified, FinishReasonUnified::ToolCalls);
    assert_eq!(map_responses_finish_reason(Some("other"), false).unified, FinishReasonUnified::Other);
}

#[test]
fn model_capabilities_follow_versions() {
    let c = get_model_capabilities("gpt-4o");
    assert!(!c.is_reasoning_model);
    assert!(matches!(c.system_message_mode, SystemMessageMode::System));
    assert!(c.supports_priority_processing);
    assert!(!c.supports_flex_processing);

    let c = get_model_capabilities("o3-mini");
    assert!(c.is_reasoning_model);
    assert!(matches!(c.system_message_mode, SystemMessageMode::Developer));
    assert!(c.supports_flex_processing && c.supports_priority_processing);

    let c = get_model_capabilities("gpt-5-chat-latest");
    assert!(!c.is_reasoning_model);
    assert!(!c.supports_flex_processing && !c.supports_priority_processing);

    let c = get_model_capabilities("gpt-5.1");
    assert!(c.is_reasoning_model && c.supports_non_reasoning_parameters);

    let c = get_model_capabilities("gpt-5-nano");
    assert!(c.is_reasoning_model && c.supports_flex_processing && !c.supports_priority_processing);
    assert!(!c.supports_non_reasoning_parameters);
}

#[test]
fn language_codes() {
    assert_eq!(language_name_to_code("english"), Some("en"));
    assert_eq!(language_name_to_code("german"), Some("de"));
    assert_eq!(language_name_to_code("klingon"), None);
    assert!(is_realtime_transcription_model_id("gpt-realtime-whisper"));
    assert!(is_realtime_transcription_model_id("gpt-realtime-whisper-2025"));
    assert!(!is_realtime_transcription_model_id("gpt-realtime"));
    assert!(!is_realtime_transcription_model_id("whisper-1"));
}

#[test]
fn usage_conversion_splits_cache_and_reasoning() {
    let usage = UsageResponse {
        prompt_tokens: Some(100),
        completion_tokens: Some(50),
        total_tokens: Some(150),
        cached_tokens: None,
        prompt_tokens_details: Some(PromptTokensDetails { cached_tokens: Some(20), cache_write_tokens: Some(10) }),
        completion_tokens_details: Some(CompletionTokensDetails {
            reasoning_tokens: Some(5),
            accepted_prediction_tokens: None,
            rejected_prediction_tokens: None,
        }),
    };
    let u = convert_usage(&usage, None);
    assert_eq!(u.input_tokens.total, Some(100));
    assert_eq!(u.input_tokens.cache_read, Some(20));
    assert_eq!(u.input_tokens.cache_write, Some(10));
    assert_eq!(u.input_tokens.no_cache, Some(70));
    assert_eq!(u.output_tokens.total, Some(50));
    assert_eq!(u.output_tokens.reasoning, Some(5));
    assert_eq!(u.output_tokens.text, Some(45));
    assert!(u.raw.is_none());

    let top_level = UsageResponse {
        prompt_tokens: Some(10),
        completion_tokens: Some(3),
        total_tokens: None,
        cached_tokens: Some(30),
        prompt_tokens_details: Some(PromptTokensDetails { cached_tokens: Some(1), cache_write_tokens: None }),
        completion_tokens_details: Some(CompletionTokensDetails {
            reasoning_tokens: Some(9),
            accepted_prediction_tokens: None,
            rejected_prediction_tokens: None,
        }),
    };
    let u = convert_usage(&top_level, Some(&num("1")));
    assert_eq!(u.input_tokens.cache_read, Some(30));
    assert_eq!(u.input_tokens.no_cache, Some(0));
    assert_eq!(u.output_tokens.text, Some(0));
    assert!(u.raw.is_some());
}

#[test]
fn header_layers_later_wins() {
    let mut base = HeaderMap::new();
    base.insert("Authorization".into(), "Bearer a".into());
    base.insert("X-Base".into(), "1".into());
    let mut config = HeaderMap::new();
    config.insert("Authorization".into(), "Bearer b".into());
    let mut extra = HeaderMap::new();
    extra.insert("X-Base".into(), "2".into());
    let h = layer_headers(base, &Some(config), Some(&extra));
    assert_eq!(h.get("Authorization").as_deref(), Some("Bearer b"));
    assert_eq!(h.get("X-Base").as_deref(), Some("2"));
    assert_eq!(h.len(), 2);
}

#[test]
fn boundary_shape() {
    assert_eq!(boundary_from_nanos(0), "----WebKitFormBoundary0000000000000000000000000");
    assert_eq!(boundary_from_nanos(255), "----WebKitFormBoundary00000000000000000000000ff");
    let b = generate_boundary();
    assert!(b.starts_with("----WebKitFormBoundary"));
    assert!(b.len() >= "----WebKitFormBoundary".len() + 25);
    assert_eq!(content_type_for("xyz"), "multipart/form-data; boundary=xyz");
}

#[test]
fn multipart_form_bytes_are_exact() {
    let (body, ct) = build_multipart_form_with_boundary(
        "B",
        "form-data; name=\"file\"; filename=\"a.txt\"",
        "text/plain",
        b"hi",
        &[("purpose".to_string(), "batch".to_string())],
        None,
    );
    let expected = "--B\r\nContent-Disposition: form-data; name=\"purpose\"\r\n\r\nbatch\r\n\
--B\r\nContent-Disposition: form-data; name=\"file\"; filename=\"a.txt\"\r\nContent-Type: text/plain\r\n\r\nhi\r\n\
--B--\r\n";
    assert_eq!(String::from_utf8(body).unwrap(), expected);
    assert_eq!(ct, "multipart/form-data; boundary=B");

    let (body, ct) = build_multipart_form("form-data; name=\"file\"", "text/plain", b"x", &[], None);
    let boundary = ct.strip_prefix("multipart/form-data; boundary=").unwrap().to_string();
    assert!(String::from_utf8(body).unwrap().ends_with(&format!("--{boundary}--\r\n")));
}

#[test]
fn searxng_search_url_encodes_query() {
    let model = SearxngProvider::new(SearxngConfig::new("http://localhost:8888/")).search_model();
    assert_eq!(model.endpoint(), "http://localhost:8888/search");
    assert_eq!(
        model.search_url("rust verus&more").unwrap(),
        "http://localhost:8888/search?q=rust+verus%26more&format=json"
    );
    let bad = SearxngProvider::new(SearxngConfig::new("not a url")).search_model();
    match bad.search_url("q") {
        Err(AiMuxError::InvalidArgument(m)) => assert!(m.starts_with("invalid searxng endpoint: "), "{m}"),
        other => panic!("unexpected {other:?}"),
    }
}

#[test]
fn deep_merge_never_writes_nulls() {
    let mut target = obj(vec![("a", num("1")), ("b", obj(vec![("c", num("1")), ("d", num("2"))]))]);
    let patch = obj(vec![
        ("a", JsonValue::Null),
        ("b", obj(vec![("c", JsonValue::Null), ("e", num("3"))])),
        ("f", obj(vec![("g", JsonValue::Null)])),
    ]);
    deep_merge_json(&mut target, &patch);
    assert!(member(&target, "a").is_none());
    let b = member(&target, "b").unwrap();
    assert!(member(b, "c").is_none());
    assert_eq!(number_text(member(b, "d")).as_deref(), Some("2"));
    assert_eq!(number_text(member(b, "e")).as_deref(), Some("3"));
    match member(&target, "f") {
        Some(JsonValue::Object(m)) => assert!(m.is_empty()),
        other => panic!("unexpected {other:?}"),
    }
    let mut scalar = num("5");
    deep_merge_json(&mut scalar, &obj(vec![("x", JsonValue::Null), ("y", num("1"))]));
    match &scalar {
        JsonValue::Object(m) => assert_eq!(m.len(), 1),
        other => panic!("unexpected {other:?}"),
    }
}

#[test]
fn runwayml_config_defaults() {
    let c = aimux_providers::runwayml::RunwaymlConfig::new("k".into());
    assert_eq!(c.api_key, "k");
    assert_eq!(c.base_url, "https://api.dev.runwayml.com");
    assert!(c.headers.is_none());
    assert_eq!(c.poll_interval_ms, 2000);
    assert_eq!(c.timeout_ms, 300_000);
    let d = c.with_poll_interval(100).with_timeout(5000);
    assert_eq!((d.poll_interval_ms, d.timeout_ms), (100, 5000));
}
