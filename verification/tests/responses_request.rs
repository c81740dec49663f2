use aimux_providers::json::JsonValue;
use aimux_providers::keyed::KeyedVec;
use aimux_providers::openai::body::CallOptions;
use aimux_providers::openai::messages::{ContentPart, PromptMessage, Role};
use aimux_providers::openai::request::{ResponseFormat, Warning};
use aimux_providers::openai::responses::ResponsesSystemMessageMode;
use aimux_providers::openai::responses_body::{build_responses_request_body, prepare_responses_tools};
use aimux_providers::openai::responses_input::{convert_to_responses_input, convert_user_part};
use aimux_providers::openai::tools::{FunctionTool, ProviderTool, Tool, ToolChoice};

fn from_serde(v: &serde_json::Value) -> JsonValue {
    match v {
        serde_json::Value::Null => JsonValue::Null,
        serde_json::Value::Bool(b) => JsonValue::Bool(*b),
        serde_json::Value::Number(n) => JsonValue::Number(n.to_string()),
        serde_json::Value::String(s) => JsonValue::String(s.clone()),
        serde_json::Value::Array(a) => JsonValue::Array(a.iter().map(from_serde).collect()),
        serde_json::Value::Object(m) => JsonValue::Object(m.iter().map(|(k, v)| (k.clone(), from_serde(v))).collect()),
    }
}

fn to_serde(v: &JsonValue) -> serde_json::Value {
    match v {
        JsonValue::Null => serde_json::Value::Null,
        JsonValue::Bool(b) => serde_json::Value::Bool(*b),
        JsonValue::Number(n) => serde_json::from_str(n).unwrap(),
        JsonValue::String(s) => serde_json::Value::String(s.clone()),
        JsonValue::Array(a) => serde_json::Value::Array(a.iter().map(to_serde).collect()),
        JsonValue::Object(m) => {
            let mut map = serde_json::Map::new();
            for (k, v) in m {
                map.insert(k.clone(), to_serde(v));
            }
            serde_json::Value::Object(map)
        },
    }
}

fn parse(text: &str) -> serde_json::Value {
    serde_json::from_str(text).unwrap()
}

fn j(text: &str) -> JsonValue {
    from_serde(&parse(text))
}

fn items(v: &[JsonValue]) -> serde_json::Value {
    serde_json::Value::Array(v.iter().map(to_serde).collect())
}

fn text_part(t: &str) -> ContentPart {
    ContentPart::Text { text: t.into(), provider_options: None }
}

fn msg(role: Role, content: Vec<ContentPart>) -> PromptMessage {
    PromptMessage { role, content }
}

fn options(prompt: Vec<PromptMessage>) -> CallOptions {
    CallOptions {
        prompt,
        max_output_tokens: None,
        temperature: None,
        top_p: None,
        top_k: None,
        frequency_penalty: None,
        presence_penalty: None,
        stop_sequences: None,
        seed: None,
        response_format: None,
        reasoning: None,
        provider_options: None,
        tools: None,
        tool_choice: ToolChoice::Auto,
        body_overrides: None,
    }
}

fn openai_opts(text: &str) -> Option<KeyedVec<JsonValue>> {
    let mut m = KeyedVec::new();
    m.insert("openai".to_string(), j(text));
    Some(m)
}

fn texts(ws: &[Warning]) -> Vec<String> {
    ws.iter()
        .map(|w| match w {
            Warning::Unsupported { feature, .. } => feature.clone(),
            Warning::Other { message } => message.clone(),
        })
        .collect()
}

#[test]
fn system_message_follows_the_mode() {
    let prompt = vec![msg(Role::System, vec![text_part("Be "), text_part("brief")])];
    let dev = convert_to_responses_input(&prompt, ResponsesSystemMessageMode::Developer, true, false);
    assert_eq!(items(&dev.input), parse(r#"[{"role":"developer","content":"Be brief"}]"#));
    let sys = convert_to_responses_input(&prompt, ResponsesSystemMessageMode::System, true, false);
    assert_eq!(items(&sys.input), parse(r#"[{"role":"system","content":"Be brief"}]"#));
    let removed = convert_to_responses_input(&prompt, ResponsesSystemMessageMode::Remove, true, false);
    assert!(removed.input.is_empty());
    assert_eq!(texts(&removed.warnings), vec!["system messages are removed for this model".to_string()]);
}

#[test]
fn user_parts_become_input_parts() {
    let image = ContentPart::Image {
        image: vec![1, 2, 3],
        media_type: "image/png".into(),
        provider_options: Some(j(r#"{"openai":{"imageDetail":"low"}}"#)),
    };
    assert_eq!(
        to_serde(&convert_user_part(&image)),
        parse(r#"{"type":"input_image","image_url":"data:image/png;base64,AQID","detail":"low"}"#)
    );
    let file = ContentPart::File { data: vec![0x25], media_type: "application/pdf".into(), filename: None, provider_options: None };
    assert_eq!(
        to_serde(&convert_user_part(&file)),
        parse(r#"{"type":"input_file","filename":"part.pdf","file_data":"data:application/pdf;base64,JQ=="}"#)
    );
    let url_image = ContentPart::FileUrl { url: "https://x/y.png".into(), media_type: "image/png".into(), provider_options: None };
    assert_eq!(to_serde(&convert_user_part(&url_image)), parse(r#"{"type":"input_image","image_url":"https://x/y.png"}"#));
    let url_file = ContentPart::FileUrl { url: "https://x/y.pdf".into(), media_type: "application/pdf".into(), provider_options: None };
    assert_eq!(to_serde(&convert_user_part(&url_file)), parse(r#"{"type":"input_file","file_url":"https://x/y.pdf"}"#));
    let prompt = vec![msg(Role::User, vec![text_part("Hi"), url_file])];
    let r = convert_to_responses_input(&prompt, ResponsesSystemMessageMode::System, true, false);
    assert_eq!(
        items(&r.input),
        parse(r#"[{"role":"user","content":[{"type":"input_text","text":"Hi"},{"type":"input_file","file_url":"https://x/y.pdf"}]}]"#)
    );
}

#[test]
fn assistant_text_with_item_id() {
    let part = || ContentPart::Text {
        text: "Hello".into(),
        provider_options: Some(j(r#"{"openai":{"itemId":"msg_1","phase":"final"}}"#)),
    };
    let stored = convert_to_responses_input(&vec![msg(Role::Assistant, vec![part()])], ResponsesSystemMessageMode::System, true, false);
    assert_eq!(items(&stored.input), parse(r#"[{"type":"item_reference","id":"msg_1"}]"#));
    let unstored =
        convert_to_responses_input(&vec![msg(Role::Assistant, vec![part()])], ResponsesSystemMessageMode::System, false, false);
    assert_eq!(
        items(&unstored.input),
        parse(r#"[{"role":"assistant","content":[{"type":"output_text","text":"Hello"}],"id":"msg_1","phase":"final"}]"#)
    );
    let continued =
        convert_to_responses_input(&vec![msg(Role::Assistant, vec![part()])], ResponsesSystemMessageMode::System, true, true);
    assert!(continued.input.is_empty());
}

#[test]
fn tool_calls_and_results() {
    let prompt = vec![
        msg(
            Role::Assistant,
            vec![
                ContentPart::ToolCall {
                    tool_call_id: "c1".into(),
                    tool_name: "weather".into(),
                    input: j(r#"{"city":"Paris"}"#),
                    provider_options: Some(j(r#"{"openai":{"namespace":"tools"}}"#)),
                },
                ContentPart::ToolCall { tool_call_id: "c2".into(), tool_name: "noop".into(), input: JsonValue::Null, provider_options: None },
            ],
        ),
        msg(
            Role::Tool,
            vec![
                ContentPart::ToolResult { tool_call_id: "c1".into(), result: j(r#"{"t":20}"#) },
                ContentPart::ToolResult { tool_call_id: "c2".into(), result: j(r#""done""#) },
            ],
        ),
    ];
    let r = convert_to_responses_input(&prompt, ResponsesSystemMessageMode::System, true, false);
    assert_eq!(
        items(&r.input),
        parse(
            r#"[
            {"type":"function_call","call_id":"c1","name":"weather","arguments":"{\"city\":\"Paris\"}","namespace":"tools"},
            {"type":"function_call","call_id":"c2","name":"noop","arguments":"{}"},
            {"type":"function_call_output","call_id":"c1","output":"{\"t\":20}"},
            {"type":"function_call_output","call_id":"c2","output":"done"}
        ]"#
        )
    );
    assert!(r.warnings.is_empty());
}

#[test]
fn reasoning_parts() {
    let foreign = ContentPart::Reasoning { text: "hmm".into(), provider_options: None };
    let encrypted = ContentPart::Reasoning {
        text: "why".into(),
        provider_options: Some(j(r#"{"openai":{"reasoningEncryptedContent":"enc"}}"#)),
    };
    let referenced = ContentPart::Reasoning { text: "".into(), provider_options: Some(j(r#"{"openai":{"itemId":"rs_1"}}"#)) };
    let prompt = vec![msg(Role::Assistant, vec![foreign, encrypted, referenced])];
    let stored = convert_to_responses_input(&prompt, ResponsesSystemMessageMode::System, true, false);
    assert_eq!(
        items(&stored.input),
        parse(
            r#"[
            {"type":"reasoning","encrypted_content":"enc","summary":[{"type":"summary_text","text":"why"}]},
            {"type":"item_reference","id":"rs_1"}
        ]"#
        )
    );
    assert_eq!(
        texts(&stored.warnings),
        vec!["Non-OpenAI reasoning parts are not supported. Skipping reasoning part.".to_string()]
    );
    let unstored = convert_to_responses_input(&prompt, ResponsesSystemMessageMode::System, false, false);
    assert_eq!(
        items(&unstored.input),
        parse(r#"[{"type":"reasoning","encrypted_content":"enc","summary":[{"type":"summary_text","text":"why"}]}]"#)
    );
    assert_eq!(
        texts(&unstored.warnings),
        vec![
            "Non-OpenAI reasoning parts are not supported. Skipping reasoning part.".to_string(),
            "Reasoning parts without encrypted content are not supported when store is false. Skipping reasoning parts."
                .to_string(),
        ]
    );
}

#[test]
fn responses_tools_are_prepared() {
    let tools = Some(vec![
        Tool::Function(FunctionTool {
            name: "weather".into(),
            description: Some("Weather".into()),
            input_schema: j(r#"{"type":"object"}"#),
            strict: Some(true),
        }),
        Tool::Provider(ProviderTool { id: "openai.web_search".into() }),
    ]);
    let p = prepare_responses_tools(&tools, Some(&ToolChoice::Tool { tool_name: "weather".into() }));
    assert_eq!(
        items(p.tools.as_ref().unwrap()),
        parse(r#"[{"type":"function","name":"weather","parameters":{"type":"object"},"description":"Weather","strict":true}]"#)
    );
    assert_eq!(to_serde(p.tool_choice.as_ref().unwrap()), parse(r#"{"type":"function","name":"weather"}"#));
    assert_eq!(texts(&p.tool_warnings), vec!["provider-defined tool openai.web_search".to_string()]);
    let only_provider = Some(vec![Tool::Provider(ProviderTool { id: "x".into() })]);
    let q = prepare_responses_tools(&only_provider, Some(&ToolChoice::Auto));
    assert!(q.tools.is_none() && q.tool_choice.is_none());
    assert_eq!(q.tool_warnings.len(), 1);
    let none = prepare_responses_tools(&None, Some(&ToolChoice::Required));
    assert!(none.tools.is_none() && none.tool_choice.is_none() && none.tool_warnings.is_empty());
}

#[test]
fn body_of_a_plain_call() {
    let mut o = options(vec![msg(Role::User, vec![text_part("Hi")])]);
    o.max_output_tokens = Some(100);
    o.temperature = Some(j("0.5"));
    o.top_k = Some(3);
    o.stop_sequences = Some(vec!["x".into()]);
    let r = build_responses_request_body("gpt-4o", &o, true);
    assert_eq!(
        to_serde(&r.body),
        parse(
            r#"{"model":"gpt-4o","input":[{"role":"user","content":[{"type":"input_text","text":"Hi"}]}],
            "stream":true,"max_output_tokens":100,"temperature":0.5}"#
        )
    );
    assert_eq!(texts(&r.warnings), vec!["topK".to_string(), "stopSequences".to_string()]);
}

#[test]
fn reasoning_model_drops_sampling_and_sends_reasoning() {
    let mut o = options(vec![msg(Role::System, vec![text_part("S")]), msg(Role::User, vec![text_part("Q")])]);
    o.temperature = Some(j("0.2"));
    o.top_p = Some(j("0.9"));
    o.reasoning = Some("low".into());
    o.provider_options = openai_opts(r#"{"store":false,"serviceTier":"flex","user":"u1"}"#);
    let r = build_responses_request_body("gpt-5", &o, false);
    assert_eq!(
        to_serde(&r.body),
        parse(
            r#"{"model":"gpt-5","input":[{"role":"developer","content":"S"},{"role":"user","content":[{"type":"input_text","text":"Q"}]}],
            "include":["reasoning.encrypted_content"],"store":false,"user":"u1","service_tier":"flex",
            "reasoning":{"effort":"low","summary":"detailed"}}"#
        )
    );
    assert_eq!(texts(&r.warnings), vec!["temperature".to_string(), "topP".to_string()]);
}

#[test]
fn non_reasoning_model_warns_about_reasoning_options() {
    let mut o = options(vec![msg(Role::User, vec![text_part("Q")])]);
    o.provider_options =
        openai_opts(r#"{"reasoningEffort":"high","reasoningMode":"x","serviceTier":"flex","conversation":"c","previousResponseId":"p"}"#);
    let r = build_responses_request_body("gpt-4o", &o, false);
    assert_eq!(
        texts(&r.warnings),
        vec!["conversation".to_string(), "reasoningEffort".to_string(), "reasoningMode".to_string(), "serviceTier".to_string()]
    );
    let body = to_serde(&r.body);
    assert!(body.get("reasoning").is_none());
    assert!(body.get("service_tier").is_none());
    assert_eq!(body.get("conversation"), Some(&parse(r#""c""#)));
    assert_eq!(body.get("previous_response_id"), Some(&parse(r#""p""#)));
    match &r.warnings[1] {
        Warning::Unsupported { details, .. } => {
            assert_eq!(details.as_deref(), Some("reasoningEffort is not supported for non-reasoning models"))
        },
        Warning::Other { .. } => panic!("expected an unsupported-feature warning"),
    }
}

#[test]
fn response_format_and_verbosity_make_text() {
    let mut o = options(vec![msg(Role::User, vec![text_part("Q")])]);
    o.response_format = Some(ResponseFormat::Json { schema: Some(j(r#"{"type":"object"}"#)), name: None, description: None });
    o.provider_options = openai_opts(r#"{"textVerbosity":"low","strictJsonSchema":false}"#);
    let r = build_responses_request_body("gpt-4o", &o, false);
    assert_eq!(
        to_serde(&r.body).get("text"),
        Some(&parse(
            r#"{"format":{"type":"json_schema","strict":false,"name":"response","description":null,"schema":{"type":"object"}},"verbosity":"low"}"#
        ))
    );
    let mut p = options(vec![msg(Role::User, vec![text_part("Q")])]);
    p.provider_options = openai_opts(r#"{"textVerbosity":"high"}"#);
    let s = build_responses_request_body("gpt-4o", &p, false);
    assert_eq!(to_serde(&s.body).get("text"), Some(&parse(r#"{"verbosity":"high"}"#)));
}

#[test]
fn tools_go_into_the_body() {
    let mut o = options(vec![msg(Role::User, vec![text_part("Q")])]);
    o.tools = Some(vec![Tool::Function(FunctionTool {
        name: "f".into(),
        description: None,
        input_schema: j(r#"{"type":"object"}"#),
        strict: None,
    })]);
    o.tool_choice = ToolChoice::Required;
    let r = build_responses_request_body("gpt-4o", &o, false);
    let body = to_serde(&r.body);
    assert_eq!(body.get("tools"), Some(&parse(r#"[{"type":"function","name":"f","parameters":{"type":"object"}}]"#)));
    assert_eq!(body.get("tool_choice"), Some(&parse(r#""required""#)));
}
