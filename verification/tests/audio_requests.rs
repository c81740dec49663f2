use aimux_providers::json::JsonValue;
use aimux_providers::keyed::KeyedVec;
use aimux_providers::openai::request::Warning;
use aimux_providers::openai::speech::{build_request_body_and_warnings, SpeechCallOptions};
use aimux_providers::openai::transcription::{build_transcription_form, parse_openai_options, transcription_fields};

fn from_serde(v: &serde_json::Value) -> JsonValue {
    match v {
        serde_json::Value::Null => JsonValue::Null,
        serde_json::Value::Bool(b) => JsonValue::Bool(*b),
        serde_json::Value::Number(n) => JsonValue::Number(n.to_string()),
        serde_json::Value::String(s) => JsonValue::String(s.clone()),
        serde_json::Value::Array(a) => JsonValue::Array(a.iter().map(from_serde).collect()),
        serde_json::Value::Object(m) => JsonValue::Object(m.iter().map(|(k, v)| (k.clone(), from_serde(v))).collect()),
    }
}

fn to_serde(v: &JsonValue) -> serde_json::Value {
    match v {
        JsonValue::Null => serde_json::Value::Null,
        JsonValue::Bool(b) => serde_json::Value::Bool(*b),
        JsonValue::Number(n) => serde_json::from_str(n).unwrap(),
        JsonValue::String(s) => serde_json::Value::String(s.clone()),
        JsonValue::Array(a) => serde_json::Value::Array(a.iter().map(to_serde).collect()),
        JsonValue::Object(m) => {
            let mut map = serde_json::Map::new();
            for (k, v) in m {
                map.insert(k.clone(), to_serde(v));
            }
            serde_json::Value::Object(map)
        },
    }
}

fn j(text: &str) -> JsonValue {
    from_serde(&serde_json::from_str(text).unwrap())
}

fn speech(text: &str) -> SpeechCallOptions {
    SpeechCallOptions { text: text.into(), voice: None, output_format: None, speed: None, instructions: None, language: None }
}

fn pairs(v: &[(String, String)]) -> Vec<(&str, &str)> {
    v.iter().map(|(a, b)| (a.as_str(), b.as_str())).collect()
}

#[test]
fn speech_body_defaults() {
    let (body, warnings) = build_request_body_and_warnings(&speech("Hello"), "tts-1").unwrap();
    assert_eq!(
        to_serde(&JsonValue::Object(body)),
        serde_json::from_str::<serde_json::Value>(r#"{"model":"tts-1","input":"Hello","voice":"alloy","response_format":"mp3"}"#)
            .unwrap()
    );
    assert!(warnings.is_empty());
}

#[test]
fn speech_body_with_settings_and_warnings() {
    let mut o = speech("Hi");
    o.voice = Some("nova".into());
    o.output_format = Some("ogg".into());
    o.speed = Some(j("1.5"));
    o.instructions = Some("calm".into());
    o.language = Some("de".into());
    let (body, warnings) = build_request_body_and_warnings(&o, "gpt-4o-mini-tts").unwrap();
    assert_eq!(
        to_serde(&JsonValue::Object(body)),
        serde_json::from_str::<serde_json::Value>(
            r#"{"model":"gpt-4o-mini-tts","input":"Hi","voice":"nova","response_format":"mp3","speed":1.5,"instructions":"calm"}"#
        )
        .unwrap()
    );
    let details: Vec<(String, Option<String>)> = warnings
        .iter()
        .map(|w| match w {
            Warning::Unsupported { feature, details } => (feature.clone(), details.clone()),
            Warning::Other { message } => (message.clone(), None),
        })
        .collect();
    assert_eq!(
        details,
        vec![
            ("outputFormat".to_string(), Some("Unsupported output format: ogg. Using mp3 instead.".to_string())),
            (
                "language".to_string(),
                Some("OpenAI speech models do not support language selection. Language parameter \"de\" was ignored.".to_string())
            ),
        ]
    );
    let mut wav = speech("x");
    wav.output_format = Some("wav".into());
    let (body, _) = build_request_body_and_warnings(&wav, "tts-1").unwrap();
    assert_eq!(to_serde(&JsonValue::Object(body)).get("response_format").unwrap(), "wav");
}

#[test]
fn transcription_options_and_fields() {
    let mut po = KeyedVec::new();
    po.insert(
        "openai".to_string(),
        j(r#"{"include":["logprobs",3],"language":"en","prompt":"p","timestampGranularities":["word","segment"]}"#),
    );
    let opts = parse_openai_options(Some(&po));
    assert_eq!(opts.extras.as_deref(), Some(&["logprobs".to_string()][..]));
    assert!(opts.temperature.is_none());
    let fields = transcription_fields("whisper-1", &opts, true, None);
    assert_eq!(
        pairs(&fields),
        vec![
            ("response_format", "verbose_json"),
            ("include[]", "logprobs"),
            ("language", "en"),
            ("prompt", "p"),
            ("timestamp_granularities[]", "word"),
            ("timestamp_granularities[]", "segment"),
            ("temperature", "0"),
        ]
    );
    let none = parse_openai_options(None);
    let fields = transcription_fields("gpt-4o-transcribe", &none, false, None);
    assert_eq!(pairs(&fields), vec![("response_format", "json")]);
    let mut hot = KeyedVec::new();
    hot.insert("openai".to_string(), j(r#"{"temperature":0.7}"#));
    let hot_opts = parse_openai_options(Some(&hot));
    match &hot_opts.temperature {
        Some(JsonValue::Number(n)) => assert_eq!(n, "0.7"),
        other => panic!("unexpected {other:?}"),
    }
    let fields = transcription_fields("gpt-4o-mini-transcribe", &hot_opts, true, Some("0.7".into()));
    assert_eq!(pairs(&fields), vec![("response_format", "json"), ("temperature", "0.7")]);
}

#[test]
fn transcription_form_bytes() {
    let fields = vec![("response_format".to_string(), "json".to_string())];
    let body = build_transcription_form("B", "whisper-1", "audio.mp3", "audio/mpeg", &[1, 2], &fields);
    let mut expected = Vec::new();
    expected.extend_from_slice(b"--B\r\nContent-Disposition: form-data; name=\"model\"\r\n\r\nwhisper-1\r\n");
    expected.extend_from_slice(b"--B\r\nContent-Disposition: form-data; name=\"file\"; filename=\"audio.mp3\"\r\nContent-Type: audio/mpeg\r\n\r\n");
    expected.extend_from_slice(&[1, 2]);
    expected.extend_from_slice(b"\r\n--B\r\nContent-Disposition: form-data; name=\"response_format\"\r\n\r\njson\r\n--B--\r\n");
    assert_eq!(body, expected);
}
