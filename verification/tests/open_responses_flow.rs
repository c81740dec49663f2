use aimux_providers::error::AiMuxError;
use aimux_providers::json::JsonValue;
use aimux_providers::keyed::KeyedVec;
use aimux_providers::open_responses_request::{
    build_request_body, convert_to_open_responses_input, convert_user_content, part_variant_name,
    resolve_tool_result_output,
};
use aimux_providers::open_responses_result::{first_event_error, open_responses_generation};
use aimux_providers::open_responses_stream::{event_usage_consistent, OpenResponsesStreamState};
use aimux_providers::openai::body::CallOptions;
use aimux_providers::openai::generate::GenerateContent;
use aimux_providers::openai::messages::{ContentPart, PromptMessage, Role};
use aimux_providers::openai::request::{ResponseFormat, Warning};
use aimux_providers::openai::stream::StreamPart;
use aimux_providers::openai::tools::{FunctionTool, ProviderTool, Tool, ToolChoice};
use aimux_providers::usage::FinishReasonUnified;

fn from_serde(v: &serde_json::Value) -> JsonValue {
    match v {
        serde_json::Value::Null => JsonValue::Null,
        serde_json::Value::Bool(b) => JsonValue::Bool(*b),
        serde_json::Value::Number(n) => JsonValue::Number(n.to_string()),
        serde_json::Value::String(s) => JsonValue::String(s.clone()),
        serde_json::Value::Array(a) => JsonValue::Array(a.iter().map(from_serde).collect()),
        serde_json::Value::Object(m) => JsonValue::Object(m.iter().map(|(k, v)| (k.clone(), from_serde(v))).collect()),
    }
}

fn to_serde(v: &JsonValue) -> serde_json::Value {
    match v {
        JsonValue::Null => serde_json::Value::Null,
        JsonValue::Bool(b) => serde_json::Value::Bool(*b),
        JsonValue::Number(n) => serde_json::from_str(n).unwrap(),
        JsonValue::String(s) => serde_json::Value::String(s.clone()),
        JsonValue::Array(a) => serde_json::Value::Array(a.iter().map(to_serde).collect()),
        JsonValue::Object(m) => {
            let mut map = serde_json::Map::new();
            for (k, v) in m {
                map.insert(k.clone(), to_serde(v));
            }
            serde_json::Value::Object(map)
        },
    }
}

fn parse(text: &str) -> serde_json::Value {
    serde_json::from_str(text).unwrap()
}

fn j(text: &str) -> JsonValue {
    from_serde(&parse(text))
}

fn text_part(t: &str) -> ContentPart {
    ContentPart::Text { text: t.into(), provider_options: None }
}

fn msg(role: Role, content: Vec<ContentPart>) -> PromptMessage {
    PromptMessage { role, content }
}

fn options(prompt: Vec<PromptMessage>) -> CallOptions {
    CallOptions {
        prompt,
        max_output_tokens: None,
        temperature: None,
        top_p: None,
        top_k: None,
        frequency_penalty: None,
        presence_penalty: None,
        stop_sequences: None,
        seed: None,
        response_format: None,
        reasoning: None,
        provider_options: None,
        tools: None,
        tool_choice: ToolChoice::Auto,
        body_overrides: None,
    }
}

fn texts(ws: &[Warning]) -> Vec<String> {
    ws.iter()
        .map(|w| match w {
            Warning::Unsupported { feature, .. } => feature.clone(),
            Warning::Other { message } => message.clone(),
        })
        .collect()
}

#[test]
fn prompt_becomes_input_and_instructions() {
    let prompt = vec![
        msg(Role::System, vec![text_part("Be brief."), text_part("Be kind.")]),
        msg(Role::User, vec![text_part("Hi"), ContentPart::Image { image: vec![1, 2, 3], media_type: "image/png".into(), provider_options: None }]),
        msg(
            Role::Assistant,
            vec![
                text_part("Calling"),
                ContentPart::ToolCall { tool_call_id: "c1".into(), tool_name: "f".into(), input: j(r#""{\"a\":1}""#), provider_options: None },
                ContentPart::ToolCall { tool_call_id: "c2".into(), tool_name: "g".into(), input: j(r#"{"b":2}"#), provider_options: None },
            ],
        ),
        msg(Role::Tool, vec![ContentPart::ToolResult { tool_call_id: "c1".into(), result: j(r#"{"type":"text","value":"ok"}"#) }]),
    ];
    let (input, instructions, warnings) = convert_to_open_responses_input(&prompt);
    assert_eq!(instructions.as_deref(), Some("Be brief.\nBe kind."));
    assert!(warnings.is_empty());
    assert_eq!(
        to_serde(&input),
        parse(
            r#"[
            {"type":"message","role":"user","content":[{"type":"input_text","text":"Hi"},{"type":"input_image","image_url":"data:image/png;base64,AQID"}]},
            {"type":"message","role":"assistant","content":[{"type":"output_text","text":"Calling"}]},
            {"type":"function_call","call_id":"c1","name":"f","arguments":"{\"a\":1}"},
            {"type":"function_call","call_id":"c2","name":"g","arguments":"{\"b\":2}"},
            {"type":"function_call_output","call_id":"c1","output":"ok"}
        ]"#
        )
    );
}

#[test]
fn no_system_message_means_no_instructions() {
    let (_, instructions, _) = convert_to_open_responses_input(&vec![msg(Role::User, vec![text_part("x")])]);
    assert!(instructions.is_none());
}

#[test]
fn unsupported_user_parts_warn() {
    let content = vec![
        ContentPart::FileReference {
            media_type: "application/pdf".into(),
            reference: j(r#"{"openai":"file-1"}"#),
            filename: None,
            provider_options: None,
        },
        ContentPart::Reasoning { text: "r".into(), provider_options: None },
        ContentPart::FileBase64 { data: "JQ==".into(), media_type: "application/pdf".into(), filename: None, provider_options: None },
        ContentPart::FileUrl { url: "https://x/a.png".into(), media_type: "image/png".into(), provider_options: None },
    ];
    let mut warnings = Vec::new();
    let parts = convert_user_content(&content, &mut warnings);
    assert_eq!(
        to_serde(&parts),
        parse(
            r#"[{"type":"input_file","filename":"data","file_data":"data:application/pdf;base64,JQ=="},
            {"type":"input_image","image_url":"https://x/a.png"}]"#
        )
    );
    assert_eq!(
        texts(&warnings),
        vec![
            "unsupported file part with provider reference".to_string(),
            "unsupported content part type: reasoning".to_string()
        ]
    );
    assert_eq!(part_variant_name(&content[2]), "file-base64");
}

#[test]
fn tool_result_outputs() {
    let mut w = Vec::new();
    assert_eq!(to_serde(&resolve_tool_result_output(&j(r#"{"type":"json","value":{"a":1}}"#), &mut w)), parse(r#""{\"a\":1}""#));
    assert_eq!(
        to_serde(&resolve_tool_result_output(&j(r#"{"type":"execution-denied"}"#), &mut w)),
        parse(r#""Tool call execution denied.""#)
    );
    assert_eq!(
        to_serde(&resolve_tool_result_output(&j(r#"{"type":"execution-denied","reason":"no"}"#), &mut w)),
        parse(r#""no""#)
    );
    assert_eq!(to_serde(&resolve_tool_result_output(&j(r#"{"type":"error-text"}"#), &mut w)), parse("null"));
    assert_eq!(to_serde(&resolve_tool_result_output(&j(r#""plain""#), &mut w)), parse(r#""plain""#));
    assert!(w.is_empty());
    let content = j(
        r#"{"type":"content","value":[
        {"type":"text","text":"see"},
        {"type":"file","mediaType":"image/png","data":{"data":"AQID"}},
        {"type":"file","mediaType":"application/pdf","filename":"a.pdf","data":{"url":"https://x/a.pdf"}},
        {"type":"audio"}
    ]}"#,
    );
    let out = resolve_tool_result_output(&content, &mut w);
    assert_eq!(
        to_serde(&out),
        parse(
            r#"[{"type":"input_text","text":"see"},
            {"type":"input_image","image_url":"data:image/png;base64,AQID"},
            {"type":"input_file","file_url":"https://x/a.pdf"}]"#
        )
    );
    assert_eq!(texts(&w), vec!["unsupported tool content part type: audio".to_string()]);
}

#[test]
fn open_request_body() {
    let mut o = options(vec![msg(Role::System, vec![text_part("S")]), msg(Role::User, vec![text_part("Q")])]);
    o.max_output_tokens = Some(50);
    o.temperature = Some(j("0.3"));
    o.top_k = Some(2);
    o.seed = Some(j("7"));
    o.stop_sequences = Some(vec!["x".into()]);
    o.reasoning = Some("minimal".into());
    let mut opts = KeyedVec::new();
    opts.insert("lmstudio".to_string(), j(r#"{"reasoningSummary":"auto"}"#));
    o.provider_options = Some(opts);
    o.tools = Some(vec![
        Tool::Function(FunctionTool { name: "f".into(), description: None, input_schema: j(r#"{"type":"object"}"#), strict: None }),
        Tool::Provider(ProviderTool { id: "x.y".into() }),
    ]);
    o.tool_choice = ToolChoice::Required;
    o.response_format = Some(ResponseFormat::Json {
        schema: Some(j(r#"{"type":"object"}"#)),
        name: None,
        description: Some("d".into()),
    });
    let (body, warnings) = build_request_body("m1", &o, "lmstudio");
    assert_eq!(
        to_serde(&body),
        parse(
            r#"{"model":"m1","input":[{"type":"message","role":"user","content":[{"type":"input_text","text":"Q"}]}],
            "instructions":"S","max_output_tokens":50,"temperature":0.3,
            "reasoning":{"effort":"low","summary":"auto"},
            "tools":[{"type":"function","name":"f","parameters":{"type":"object"}}],
            "tool_choice":"required",
            "text":{"format":{"type":"json_schema","strict":true,"name":"response","description":"d","schema":{"type":"object"}}}}"#
        )
    );
    assert_eq!(texts(&warnings), vec!["stopSequences".to_string(), "topK".to_string(), "seed".to_string()]);
    let plain = build_request_body("m1", &options(vec![msg(Role::User, vec![text_part("Q")])]), "lmstudio").0;
    assert!(to_serde(&plain).get("tool_choice").is_none());
    assert!(to_serde(&plain).get("reasoning").is_none());
}

fn feed(state: &mut OpenResponsesStreamState, events: &[&str]) -> Vec<StreamPart> {
    let mut out = Vec::new();
    for e in events {
        let v = j(e);
        assert!(event_usage_consistent(&v));
        out.extend(state.on_event(&v));
    }
    out
}

#[test]
fn stream_assembles_function_calls() {
    let mut s = OpenResponsesStreamState::new();
    let parts = feed(
        &mut s,
        &[
            r#"{"type":"response.output_item.added","item":{"type":"reasoning","id":"r1"}}"#,
            r#"{"type":"response.reasoning_text.delta","item_id":"r1","delta":"think"}"#,
            r#"{"type":"response.output_item.added","item":{"type":"function_call","id":"fc1","name":"f","call_id":"c1"}}"#,
            r#"{"type":"response.function_call_arguments.delta","item_id":"fc1","delta":"{\"a\""}"#,
            r#"{"type":"response.function_call_arguments.delta","item_id":"fc1","delta":":1}"}"#,
            r#"{"type":"response.output_item.done","item":{"type":"function_call","id":"fc1"}}"#,
            r#"{"type":"response.output_item.added","item":{"type":"message","id":"m1"}}"#,
            r#"{"type":"response.output_text.delta","item_id":"m1","delta":"Hi"}"#,
            r#"{"type":"response.output_item.done","item":{"type":"message","id":"m1"}}"#,
            r#"{"type":"response.completed","response":{"usage":{"input_tokens":10,"output_tokens":4,"output_tokens_details":{"reasoning_tokens":1}}}}"#,
        ],
    );
    let mut end = s.end();
    assert_eq!(parts.len(), 6);
    match &parts[0] {
        StreamPart::ReasoningStart { id } => assert_eq!(id, "r1"),
        other => panic!("unexpected {other:?}"),
    }
    match &parts[2] {
        StreamPart::ToolCall { tool_call_id, tool_name, arguments } => {
            assert_eq!((tool_call_id.as_str(), tool_name.as_str(), arguments.as_str()), ("c1", "f", r#"{"a":1}"#));
        },
        other => panic!("unexpected {other:?}"),
    }
    assert_eq!(end.len(), 2);
    match &end[0] {
        StreamPart::ReasoningEnd { id } => assert_eq!(id, "reasoning-0"),
        other => panic!("unexpected {other:?}"),
    }
    match end.pop().unwrap() {
        StreamPart::Finish { finish_reason, usage, .. } => {
            assert_eq!(finish_reason.unified, FinishReasonUnified::ToolCalls);
            assert_eq!(usage.input_tokens.total, Some(10));
            assert_eq!(usage.input_tokens.no_cache, Some(10));
            assert_eq!(usage.output_tokens.text, Some(3));
            assert_eq!(usage.output_tokens.reasoning, Some(1));
        },
        other => panic!("unexpected {other:?}"),
    }
}

#[test]
fn stream_failure_sets_error_finish() {
    let mut s = OpenResponsesStreamState::new();
    let parts = feed(
        &mut s,
        &[
            r#"{"type":"response.function_call_arguments.done","item_id":"x","arguments":"{}"}"#,
            r#"{"type":"response.failed","response":{"status":"failed","error":{"code":"server_error"}}}"#,
            r#"{"type":"response.unknown"}"#,
        ],
    );
    assert!(parts.is_empty());
    match s.end().pop().unwrap() {
        StreamPart::Finish { finish_reason, usage, .. } => {
            assert_eq!(finish_reason.unified, FinishReasonUnified::Error);
            assert_eq!(finish_reason.raw.as_deref(), Some("server_error"));
            assert!(usage.raw.is_none());
        },
        other => panic!("unexpected {other:?}"),
    }
    assert!(!event_usage_consistent(&j(
        r#"{"type":"response.completed","response":{"usage":{"input_tokens":1,"input_tokens_details":{"cached_tokens":2}}}}"#
    )));
}

#[test]
fn first_event_errors() {
    let e = first_event_error(&j(r#"{"error":{"message":"bad key","type":"auth"}}"#), 401, "raw").unwrap();
    match e {
        AiMuxError::ApiCall { status_code, provider_code, message, response_body } => {
            assert_eq!(status_code, Some(401));
            assert_eq!(provider_code.as_deref(), Some("auth"));
            assert_eq!(message, "bad key");
            assert_eq!(response_body.as_deref(), Some("raw"));
        },
        other => panic!("unexpected {other:?}"),
    }
    assert!(first_event_error(&j(r#"{"type":"response.created"}"#), 200, "x").is_none());
}

#[test]
fn generation_results() {
    let err = open_responses_generation(&j(r#"{"error":{"message":"nope","code":"e1"}}"#), 400, b"body").unwrap_err();
    match err {
        AiMuxError::ApiCall { status_code, provider_code, message, response_body } => {
            assert_eq!(status_code, Some(400));
            assert_eq!(provider_code.as_deref(), Some("e1"));
            assert_eq!(message, "nope");
            assert_eq!(response_body.as_deref(), Some("body"));
        },
        other => panic!("unexpected {other:?}"),
    }
    match open_responses_generation(&j(r#"{"error":{},"status":"failed","output":null}"#), 200, b"") {
        Err(AiMuxError::InvalidResponseData(m)) => assert_eq!(m, "Responses API returned no output (failed)"),
        other => panic!("unexpected {other:?}"),
    }
    let g = open_responses_generation(
        &j(r#"{"id":"r1","model":"m","created_at":1700000000,
            "output":[{"type":"reasoning","content":[{"text":"hm"}]},
                      {"type":"message","content":[{"type":"output_text","text":"Hello"}]},
                      {"type":"function_call","call_id":"c","name":"f"}],
            "incomplete_details":{"reason":"max_output_tokens"},
            "usage":{"input_tokens":5,"output_tokens":2}}"#),
        200,
        b"",
    )
    .unwrap();
    assert_eq!(g.content.len(), 3);
    match &g.content[1] {
        GenerateContent::Text { text } => assert_eq!(text, "Hello"),
        other => panic!("unexpected {other:?}"),
    }
    match &g.content[2] {
        GenerateContent::ToolCall { tool_call_id, tool_name, arguments } => {
            assert_eq!((tool_call_id.as_str(), tool_name.as_str(), arguments.as_str()), ("c", "f", "{}"));
        },
        other => panic!("unexpected {other:?}"),
    }
    assert_eq!(g.finish_reason.unified, FinishReasonUnified::Length);
    assert_eq!(g.finish_reason.raw.as_deref(), Some("max_output_tokens"));
    assert_eq!(g.usage.input_tokens.total, Some(5));
    assert_eq!(g.response_id.as_deref(), Some("r1"));
    assert_eq!(g.timestamp.as_deref(), Some("1700000000"));
    assert_eq!(g.model_id.as_deref(), Some("m"));
}
