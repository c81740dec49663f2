use aimux_providers::error::AiMuxError;
use aimux_providers::json::JsonValue;
use aimux_providers::json_text::to_json_text;
use aimux_providers::keyed::KeyedVec;
use aimux_providers::openai::body::{build_request_body, build_request_body_with_warnings, CallOptions};
use aimux_providers::openai::convert_common::SystemMessageMode;
use aimux_providers::openai::messages::{
    convert_file_part_to_openai, convert_prompt_to_openai_messages_with_provider, resolve_provider_reference,
    tool_result_to_content, ContentPart, PromptMessage, Role,
};
use aimux_providers::openai::request::{ResponseFormat, Warning};
use aimux_providers::openai::tools::{prepare_tools, prepare_tools_groq, FunctionTool, ProviderTool, Tool, ToolChoice};
use aimux_providers::openai::OpenAICompatProfile;

fn from_serde(v: &serde_json::Value) -> JsonValue {
    match v {
        serde_json::Value::Null => JsonValue::Null,
        serde_json::Value::Bool(b) => JsonValue::Bool(*b),
        serde_json::Value::Number(n) => JsonValue::Number(n.to_string()),
        serde_json::Value::String(s) => JsonValue::String(s.clone()),
        serde_json::Value::Array(a) => JsonValue::Array(a.iter().map(from_serde).collect()),
        serde_json::Value::Object(m) => JsonValue::Object(m.iter().map(|(k, v)| (k.clone(), from_serde(v))).collect()),
    }
}

fn to_serde(v: &JsonValue) -> serde_json::Value {
    match v {
        JsonValue::Null => serde_json::Value::Null,
        JsonValue::Bool(b) => serde_json::Value::Bool(*b),
        JsonValue::Number(n) => serde_json::from_str(n).unwrap(),
        JsonValue::String(s) => serde_json::Value::String(s.clone()),
        JsonValue::Array(a) => serde_json::Value::Array(a.iter().map(to_serde).collect()),
        JsonValue::Object(m) => {
            let mut map = serde_json::Map::new();
            for (k, v) in m {
                map.insert(k.clone(), to_serde(v));
            }
            serde_json::Value::Object(map)
        },
    }
}

fn parse(text: &str) -> serde_json::Value {
    serde_json::from_str(text).unwrap()
}

fn j(text: &str) -> JsonValue {
    from_serde(&parse(text))
}

fn text(role: Role, t: &str) -> PromptMessage {
    PromptMessage { role, content: vec![ContentPart::Text { text: t.into(), provider_options: None }] }
}

fn options(prompt: Vec<PromptMessage>) -> CallOptions {
    CallOptions {
        prompt,
        max_output_tokens: None,
        temperature: None,
        top_p: None,
        top_k: None,
        frequency_penalty: None,
        presence_penalty: None,
        stop_sequences: None,
        seed: None,
        response_format: None,
        reasoning: None,
        provider_options: None,
        tools: None,
        tool_choice: ToolChoice::Auto,
        body_overrides: None,
    }
}

fn provider_opts(ns: &str, text: &str) -> Option<KeyedVec<JsonValue>> {
    let mut m = KeyedVec::new();
    m.insert(ns.to_string(), j(text));
    Some(m)
}

fn features(ws: &[Warning]) -> Vec<String> {
    ws.iter()
        .map(|w| match w {
            Warning::Unsupported { feature, .. } => feature.clone(),
            Warning::Other { message } => message.clone(),
        })
        .collect()
}

#[test]
fn json_text_matches_serde_json() {
    for t in [
        r#"null"#,
        r#"[true,false,1,-2.5,"x"]"#,
        r#"{"b":{"c":[1,2,{"d":null}]},"a":"q\"uote\\back\nline\ttab\u0001\u001f/é😀"}"#,
        r#"{}"#,
        r#"[]"#,
        r#""\b\f\r""#,
    ] {
        let v = parse(t);
        assert_eq!(to_json_text(&from_serde(&v)), serde_json::to_string(&v).unwrap(), "{t}");
    }
}

#[test]
fn plain_chat_body() {
    let o = options(vec![text(Role::System, "You are helpful"), text(Role::User, "Hi")]);
    let body = build_request_body("gpt-4o", &o, true).unwrap();
    assert_eq!(
        to_serde(&body),
        parse(
            r#"{"model":"gpt-4o","messages":[{"role":"system","content":"You are helpful"},{"role":"user","content":"Hi"}],"stream":true,"stream_options":{"include_usage":true}}"#
        )
    );
}

#[test]
fn reasoning_model_drops_sampling_and_uses_developer_role() {
    let mut o = options(vec![text(Role::System, "sys"), text(Role::User, "Hi")]);
    o.temperature = Some(j("0.5"));
    o.top_p = Some(j("0.9"));
    o.presence_penalty = Some(j("1"));
    o.max_output_tokens = Some(100);
    o.seed = Some(j("7"));
    o.stop_sequences = Some(vec!["END".into()]);
    let r = build_request_body_with_warnings("o3-mini", &o, false, "openai", &OpenAICompatProfile::full()).unwrap();
    assert_eq!(
        to_serde(&r.body),
        parse(
            r#"{"model":"o3-mini","messages":[{"role":"developer","content":"sys"},{"role":"user","content":"Hi"}],"max_completion_tokens":100,"stop":["END"],"seed":7}"#
        )
    );
    assert_eq!(features(&r.warnings), vec!["temperature", "topP", "presencePenalty"]);
}

#[test]
fn non_reasoning_model_keeps_sampling() {
    let mut o = options(vec![text(Role::User, "Hi")]);
    o.temperature = Some(j("0.5"));
    o.top_k = Some(4);
    o.max_output_tokens = Some(10);
    let r = build_request_body_with_warnings("gpt-4o", &o, false, "openai", &OpenAICompatProfile::full()).unwrap();
    assert_eq!(
        to_serde(&r.body),
        parse(r#"{"model":"gpt-4o","messages":[{"role":"user","content":"Hi"}],"top_k":4,"max_tokens":10,"temperature":0.5}"#)
    );
    assert!(r.warnings.is_empty());
}

#[test]
fn search_preview_drops_temperature() {
    let mut o = options(vec![text(Role::User, "Hi")]);
    o.temperature = Some(j("0.2"));
    let r = build_request_body_with_warnings("gpt-4o-search-preview", &o, false, "openai", &OpenAICompatProfile::full())
        .unwrap();
    assert!(to_serde(&r.body).get("temperature").is_none());
    match &r.warnings[0] {
        Warning::Unsupported { feature, details } => {
            assert_eq!(feature, "temperature");
            assert_eq!(
                details.as_deref(),
                Some("temperature is not supported for the search preview models and has been removed.")
            );
        },
        Warning::Other { .. } => panic!("expected an unsupported-feature warning"),
    }
}

#[test]
fn groq_profile_shapes_the_body() {
    let mut o = options(vec![text(Role::User, "Hi")]);
    o.top_k = Some(3);
    o.max_output_tokens = Some(50);
    o.provider_options = provider_opts("groq", r#"{"reasoningFormat":"parsed","serviceTier":"on_demand"}"#);
    let r = build_request_body_with_warnings("llama-3.3-70b", &o, true, "groq", &OpenAICompatProfile::groq()).unwrap();
    assert_eq!(
        to_serde(&r.body),
        parse(
            r#"{"model":"llama-3.3-70b","messages":[{"role":"user","content":"Hi"}],"stream":true,"max_completion_tokens":50,"reasoning_format":"parsed","service_tier":"on_demand"}"#
        )
    );
    assert_eq!(features(&r.warnings), vec!["topK"]);
}

#[test]
fn response_format_json_schema() {
    let mut o = options(vec![text(Role::User, "Hi")]);
    o.response_format = Some(ResponseFormat::Json {
        schema: Some(j(r#"{"type":"object"}"#)),
        name: None,
        description: Some("d".into()),
    });
    let body = build_request_body("gpt-4o", &o, false).unwrap();
    assert_eq!(
        to_serde(&body).get("response_format").unwrap(),
        &parse(r#"{"type":"json_schema","json_schema":{"schema":{"type":"object"},"name":"response","description":"d","strict":true}}"#)
    );
}

#[test]
fn groq_without_structured_outputs_falls_back_to_json_object() {
    let mut o = options(vec![text(Role::User, "Hi")]);
    o.response_format = Some(ResponseFormat::Json { schema: Some(j("{}")), name: None, description: None });
    o.provider_options = provider_opts("groq", r#"{"structuredOutputs":false}"#);
    let r = build_request_body_with_warnings("llama", &o, false, "groq", &OpenAICompatProfile::groq()).unwrap();
    assert_eq!(to_serde(&r.body).get("response_format").unwrap(), &parse(r#"{"type":"json_object"}"#));
    assert_eq!(features(&r.warnings), vec!["responseFormat"]);
}

#[test]
fn service_tier_needs_model_support() {
    let mut o = options(vec![text(Role::User, "Hi")]);
    o.provider_options = provider_opts("openai", r#"{"serviceTier":"flex","user":"u1","reasoningEffort":"low"}"#);
    let r = build_request_body_with_warnings("gpt-4o", &o, false, "openai", &OpenAICompatProfile::full()).unwrap();
    let body = to_serde(&r.body);
    assert!(body.get("service_tier").is_none());
    assert_eq!(body.get("user").unwrap(), "u1");
    assert_eq!(body.get("reasoning_effort").unwrap(), "low");
    assert_eq!(features(&r.warnings), vec!["serviceTier"]);
    let r = build_request_body_with_warnings("o3", &o, false, "openai", &OpenAICompatProfile::full()).unwrap();
    assert_eq!(to_serde(&r.body).get("service_tier").unwrap(), "flex");
}

#[test]
fn body_overrides_merge_last() {
    let mut o = options(vec![text(Role::User, "Hi")]);
    o.max_output_tokens = Some(5);
    o.body_overrides = Some(j(r#"{"max_tokens":null,"thinking":{"type":"enabled"}}"#));
    let body = build_request_body("gpt-4o", &o, false).unwrap();
    assert_eq!(
        to_serde(&body),
        parse(r#"{"model":"gpt-4o","messages":[{"role":"user","content":"Hi"}],"thinking":{"type":"enabled"}}"#)
    );
}

fn weather_tool() -> FunctionTool {
    FunctionTool {
        name: "weather".into(),
        description: Some("Get weather".into()),
        input_schema: j(r#"{"type":"object"}"#),
        strict: Some(true),
    }
}

#[test]
fn function_tools_and_choice() {
    let mut o = options(vec![text(Role::User, "Hi")]);
    o.tools = Some(vec![Tool::Function(weather_tool())]);
    o.tool_choice = ToolChoice::Tool { tool_name: "weather".into() };
    let body = to_serde(&build_request_body("gpt-4o", &o, false).unwrap());
    assert_eq!(
        body.get("tools").unwrap(),
        &parse(
            r#"[{"type":"function","function":{"name":"weather","parameters":{"type":"object"},"description":"Get weather","strict":true}}]"#
        )
    );
    assert_eq!(body.get("tool_choice").unwrap(), &parse(r#"{"type":"function","function":{"name":"weather"}}"#));
}

#[test]
fn tools_dropped_without_support() {
    let mut o = options(vec![text(Role::User, "Hi")]);
    o.tools = Some(vec![Tool::Function(weather_tool())]);
    let mut profile = OpenAICompatProfile::full();
    profile.supports_tools = false;
    let r = build_request_body_with_warnings("gpt-4o", &o, false, "openai", &profile).unwrap();
    assert!(to_serde(&r.body).get("tools").is_none());
    assert_eq!(features(&r.warnings), vec!["tools"]);
}

#[test]
fn prepare_tools_without_tools_has_no_choice() {
    let p = prepare_tools(Some(&vec![]), Some(&ToolChoice::Required));
    assert!(p.tools.is_none() && p.tool_choice.is_none() && p.tool_warnings.is_empty());
    let p = prepare_tools(Some(&vec![weather_tool()]), Some(&ToolChoice::Required));
    assert_eq!(to_serde(p.tool_choice.as_ref().unwrap()), parse(r#""required""#));
}

#[test]
fn groq_browser_search_depends_on_model() {
    let all = vec![Tool::Provider(ProviderTool { id: "groq.browser_search".into() })];
    let p = prepare_tools_groq(Some(&vec![]), Some(&all), Some(&ToolChoice::Auto), "openai/gpt-oss-20b");
    assert_eq!(to_serde(&p.tools.unwrap()[0]), parse(r#"{"type":"browser_search"}"#));
    assert!(p.tool_warnings.is_empty());
    let p = prepare_tools_groq(Some(&vec![]), Some(&all), Some(&ToolChoice::Auto), "llama-3.3-70b");
    assert!(p.tools.is_none() && p.tool_choice.is_none());
    assert_eq!(p.tool_warnings[0].feature, "provider-defined tool groq.browser_search");
    assert_eq!(
        p.tool_warnings[0].details.as_deref(),
        Some(
            "Browser search is only supported on the following models: openai/gpt-oss-20b, openai/gpt-oss-120b. Current model: llama-3.3-70b"
        )
    );
    let other = vec![Tool::Provider(ProviderTool { id: "groq.other".into() })];
    let p = prepare_tools_groq(None, Some(&other), None, "m");
    assert_eq!(p.tool_warnings[0].details, None);
}

#[test]
fn assistant_tool_calls_and_tool_results() {
    let prompt = vec![
        PromptMessage {
            role: Role::Assistant,
            content: vec![
                ContentPart::Reasoning { text: "think".into(), provider_options: None },
                ContentPart::ToolCall { tool_call_id: "c1".into(), tool_name: "weather".into(), input: j(r#"{"city":"Paris"}"#), provider_options: None },
                ContentPart::ToolCall { tool_call_id: "c2".into(), tool_name: "noop".into(), input: JsonValue::Null, provider_options: None },
            ],
        },
        PromptMessage {
            role: Role::Tool,
            content: vec![
                ContentPart::ToolResult { tool_call_id: "c1".into(), result: j(r#"{"temp":20}"#) },
                ContentPart::ToolResult { tool_call_id: "c2".into(), result: j(r#""done""#) },
            ],
        },
    ];
    let ms = convert_prompt_to_openai_messages_with_provider(&prompt, SystemMessageMode::System, "openai").unwrap();
    let got: Vec<serde_json::Value> = ms.iter().map(to_serde).collect();
    assert_eq!(
        serde_json::Value::Array(got),
        parse(
            r#"[{"role":"assistant","content":null,"tool_calls":[{"type":"function","id":"c1","function":{"name":"weather","arguments":"{\"city\":\"Paris\"}"}},{"type":"function","id":"c2","function":{"name":"noop","arguments":"{}"}}],"reasoning_content":"think"},{"role":"tool","content":"{\"temp\":20}","tool_call_id":"c1"},{"role":"tool","content":"done","tool_call_id":"c2"}]"#
        )
    );
}

#[test]
fn groq_assistant_keeps_reasoning_field() {
    let prompt = vec![PromptMessage {
        role: Role::Assistant,
        content: vec![
            ContentPart::Text { text: "a".into(), provider_options: None },
            ContentPart::Reasoning { text: "r".into(), provider_options: None },
        ],
    }];
    let ms = convert_prompt_to_openai_messages_with_provider(&prompt, SystemMessageMode::System, "groq").unwrap();
    assert_eq!(to_serde(&ms[0]), parse(r#"{"role":"assistant","content":"a","reasoning":"r"}"#));
}

#[test]
fn removed_system_and_mixed_user_content() {
    let prompt = vec![
        text(Role::System, "gone"),
        PromptMessage {
            role: Role::User,
            content: vec![
                ContentPart::Text { text: "see".into(), provider_options: None },
                ContentPart::FileUrl {
                    url: "https://x.example/a.png".into(),
                    media_type: "image/png".into(),
                    provider_options: Some(j(r#"{"openai":{"imageDetail":"low"}}"#)),
                },
                ContentPart::Image { image: vec![0xff, 0xd8], media_type: "image/*".into(), provider_options: None },
            ],
        },
    ];
    let ms = convert_prompt_to_openai_messages_with_provider(&prompt, SystemMessageMode::Remove, "openai").unwrap();
    assert_eq!(ms.len(), 1);
    assert_eq!(
        to_serde(&ms[0]),
        parse(
            r#"{"role":"user","content":[{"type":"text","text":"see"},{"type":"image_url","image_url":{"url":"https://x.example/a.png","detail":"low"}},{"type":"image_url","image_url":{"url":"data:image/png;base64,/9g="}}]}"#
        )
    );
}

#[test]
fn system_message_with_breakpoint() {
    let prompt = vec![PromptMessage {
        role: Role::System,
        content: vec![ContentPart::Text {
            text: "s".into(),
            provider_options: Some(j(r#"{"openai":{"promptCacheBreakpoint":{"ttl":"1h"}}}"#)),
        }],
    }];
    let ms = convert_prompt_to_openai_messages_with_provider(&prompt, SystemMessageMode::Developer, "openai").unwrap();
    assert_eq!(
        to_serde(&ms[0]),
        parse(r#"{"role":"developer","content":[{"type":"text","text":"s","prompt_cache_breakpoint":{"ttl":"1h"}}]}"#)
    );
}

#[test]
fn file_part_errors_and_pdf() {
    let none = None;
    assert_eq!(
        convert_file_part_to_openai("image/png", None, None, None, None, &none, 0).err().as_deref(),
        Some("image part has no data or url")
    );
    assert_eq!(
        convert_file_part_to_openai("audio/wav", None, Some("u"), None, None, &none, 0).err().as_deref(),
        Some("audio file parts with URLs")
    );
    assert_eq!(
        convert_file_part_to_openai("audio/ogg", Some("AA"), None, None, None, &none, 0).err().as_deref(),
        Some("audio content parts with media type audio/ogg")
    );
    assert_eq!(
        convert_file_part_to_openai("text/csv", Some("AA"), None, None, None, &none, 0).err().as_deref(),
        Some("file part media type text/csv")
    );
    let pdf = convert_file_part_to_openai("application/pdf", Some("JVBE"), None, None, None, &none, 3).unwrap();
    assert_eq!(
        to_serde(&pdf),
        parse(r#"{"type":"file","file":{"filename":"part-3.pdf","file_data":"data:application/pdf;base64,JVBE"}}"#)
    );
    let audio = convert_file_part_to_openai("audio/mpeg", Some("AA"), None, None, None, &none, 0).unwrap();
    assert_eq!(to_serde(&audio), parse(r#"{"type":"input_audio","input_audio":{"data":"AA","format":"mp3"}}"#));
}

#[test]
fn provider_references() {
    let r = j(r#"{"anthropic":"a1","openai":"file-9"}"#);
    assert_eq!(resolve_provider_reference(&r, "openai").unwrap(), "file-9");
    assert_eq!(
        resolve_provider_reference(&r, "mistral").err().unwrap(),
        "No provider reference found for provider 'mistral'. Available providers: anthropic, openai"
    );
    assert_eq!(resolve_provider_reference(&j(r#"{"openai":5}"#), "openai").unwrap(), "5");
    let part = convert_file_part_to_openai("application/pdf", None, None, Some(&r), None, &None, 0).unwrap();
    assert_eq!(to_serde(&part), parse(r#"{"type":"file","file":{"file_id":"file-9"}}"#));
}

#[test]
fn invalid_part_is_invalid_argument() {
    let mut o = options(vec![PromptMessage {
        role: Role::User,
        content: vec![ContentPart::FileUrl { url: "u".into(), media_type: "application/pdf".into(), provider_options: None }],
    }]);
    o.max_output_tokens = Some(1);
    match build_request_body("gpt-4o", &o, false) {
        Err(AiMuxError::InvalidArgument(m)) => assert_eq!(m, "PDF file parts with URLs"),
        other => panic!("unexpected {other:?}"),
    }
}

#[test]
fn tool_results_as_text() {
    assert_eq!(to_serde(&tool_result_to_content(&j(r#""plain""#))), parse(r#""plain""#));
    assert_eq!(to_serde(&tool_result_to_content(&j(r#"[1,{"a":true}]"#))), parse(r#""[1,{\"a\":true}]""#));
}
