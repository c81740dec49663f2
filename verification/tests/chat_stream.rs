use aimux_providers::error::AiMuxError;
use aimux_providers::json::JsonValue;
use aimux_providers::openai::generate::{response_to_outcome, GenerateContent};
use aimux_providers::openai::stream::{stream_usage_raw, ChatStreamState, StreamPart};
use aimux_providers::openai::types::{
    ChatCompletionResponse, Choice, CompletionTokensDetails, Delta, DeltaFunction, DeltaToolCall, FunctionCallResponse,
    MessageResponse, StreamChoice, StreamChunk, ToolCallResponse, UsageResponse,
};
use aimux_providers::usage::FinishReasonUnified;

fn from_serde(v: &serde_json::Value) -> JsonValue {
    match v {
        serde_json::Value::Null => JsonValue::Null,
        serde_json::Value::Bool(b) => JsonValue::Bool(*b),
        serde_json::Value::Number(n) => JsonValue::Number(n.to_string()),
        serde_json::Value::String(s) => JsonValue::String(s.clone()),
        serde_json::Value::Array(a) => JsonValue::Array(a.iter().map(from_serde).collect()),
        serde_json::Value::Object(m) => JsonValue::Object(m.iter().map(|(k, v)| (k.clone(), from_serde(v))).collect()),
    }
}

fn j(text: &str) -> JsonValue {
    from_serde(&serde_json::from_str(text).unwrap())
}

fn delta() -> Delta {
    Delta { content: None, reasoning: None, reasoning_content: None, tool_calls: None, annotations: None }
}

fn chunk(choices: Vec<StreamChoice>) -> StreamChunk {
    StreamChunk { id: None, model: None, created: None, choices, usage: None, x_groq: None }
}

fn choice(d: Delta, finish: Option<&str>) -> StreamChoice {
    StreamChoice { delta: d, finish_reason: finish.map(|s| s.to_string()), logprobs: None }
}

fn usage(prompt: u32, completion: u32) -> UsageResponse {
    UsageResponse {
        prompt_tokens: Some(prompt),
        completion_tokens: Some(completion),
        total_tokens: None,
        cached_tokens: None,
        prompt_tokens_details: None,
        completion_tokens_details: None,
    }
}

fn describe(p: &StreamPart) -> String {
    match p {
        StreamPart::StreamStart { warnings } => format!("start {}", warnings.len()),
        StreamPart::Raw { .. } => "raw".into(),
        StreamPart::Error { .. } => "error".into(),
        StreamPart::ResponseMetadata { id, timestamp, model_id } => {
            format!("meta {:?} {:?} {:?}", id, timestamp, model_id)
        },
        StreamPart::ReasoningStart { id } => format!("reasoning-start {id}"),
        StreamPart::ReasoningDelta { id, delta } => format!("reasoning {id} {delta}"),
        StreamPart::ReasoningEnd { id } => format!("reasoning-end {id}"),
        StreamPart::TextStart { id } => format!("text-start {id}"),
        StreamPart::TextDelta { id, delta } => format!("text {id} {delta}"),
        StreamPart::TextEnd { id } => format!("text-end {id}"),
        StreamPart::ToolInputStart { id, tool_name } => format!("tool-start {id} {tool_name}"),
        StreamPart::ToolInputDelta { id, delta } => format!("tool-delta {id} {delta}"),
        StreamPart::ToolInputEnd { id } => format!("tool-end {id}"),
        StreamPart::ToolCall { tool_call_id, tool_name, arguments } => format!("call {tool_call_id} {tool_name} {arguments}"),
        StreamPart::Source { id, url, title } => format!("source {id} {:?} {:?}", url, title),
        StreamPart::Finish { finish_reason, .. } => format!("finish {:?}", finish_reason.unified),
    }
}

#[test]
fn stream_of_reasoning_text_and_tool_call() {
    let mut st = ChatStreamState::new();
    let mut all: Vec<String> = Vec::new();

    let mut c1 = chunk(vec![choice(Delta { reasoning_content: Some("hm".into()), ..delta() }, None)]);
    c1.id = Some("c1".into());
    c1.model = Some("gpt-4o".into());
    c1.created = Some(0);
    all.extend(st.on_event(&j("{}"), Some(c1), None, false, None).iter().map(describe));

    let c2 = chunk(vec![choice(Delta { content: Some("Hel".into()), ..delta() }, None)]);
    all.extend(st.on_event(&j("{}"), Some(c2), None, false, None).iter().map(describe));

    let start = DeltaToolCall {
        index: 0,
        id: Some("t1".into()),
        function: Some(DeltaFunction { name: Some("f".into()), arguments: Some("".into()) }),
    };
    let c3 = chunk(vec![choice(Delta { tool_calls: Some(vec![start]), ..delta() }, None)]);
    all.extend(st.on_event(&j("{}"), Some(c3), None, false, None).iter().map(describe));

    let more = DeltaToolCall {
        index: 0,
        id: None,
        function: Some(DeltaFunction { name: None, arguments: Some("{\"a\":1}".into()) }),
    };
    let c4 = chunk(vec![choice(Delta { tool_calls: Some(vec![more]), ..delta() }, None)]);
    all.extend(st.on_event(&j("{}"), Some(c4), None, false, None).iter().map(describe));

    let event = j(r#"{"usage":{"prompt_tokens":3,"completion_tokens":4}}"#);
    assert!(stream_usage_raw(&event, None).is_some());
    let c5 = chunk(vec![choice(delta(), Some("tool_calls"))]);
    all.extend(st.on_event(&event, Some(c5), Some(usage(3, 4)), false, None).iter().map(describe));

    let end = st.end();
    all.extend(end.iter().map(describe));
    assert_eq!(
        all,
        vec![
            "meta Some(\"c1\") Some(\"1970-01-01T00:00:00+00:00\") Some(\"gpt-4o\")",
            "reasoning-start reasoning-0",
            "reasoning reasoning-0 hm",
            "reasoning-end reasoning-0",
            "text-start 0",
            "text 0 Hel",
            "tool-start t1 f",
            "tool-delta t1 {\"a\":1}",
            "text-end 0",
            "tool-end t1",
            "call t1 f {\"a\":1}",
            "finish ToolCalls",
        ]
    );
    match end.last().unwrap() {
        StreamPart::Finish { finish_reason, usage, .. } => {
            assert_eq!(finish_reason.raw.as_deref(), Some("tool_calls"));
            assert_eq!(usage.input_tokens.total, Some(3));
            assert_eq!(usage.output_tokens.total, Some(4));
            assert!(usage.raw.is_some());
        },
        _ => unreachable!(),
    }
}

#[test]
fn stream_error_ends_with_error_finish() {
    let mut st = ChatStreamState::new();
    let c = chunk(vec![choice(Delta { content: Some("a".into()), ..delta() }, None)]);
    st.on_event(&j("{}"), Some(c), Some(usage(1, 1)), false, None);
    let parts = st.on_event(&j(r#"{"error":{"message":"boom"}}"#), None, None, true, None);
    assert_eq!(parts.iter().map(describe).collect::<Vec<_>>(), vec!["raw", "error"]);
    assert!(st.errored());
    assert!(st.on_event(&j("{}"), None, None, true, None).is_empty());
    let end = st.end();
    assert_eq!(end.iter().map(describe).collect::<Vec<_>>(), vec!["text-end 0", "finish Error"]);
    match end.last().unwrap() {
        StreamPart::Finish { usage, .. } => assert_eq!(usage.input_tokens.total, None),
        _ => unreachable!(),
    }
}

#[test]
fn stream_without_finish_reason_stops() {
    let st = ChatStreamState::new();
    let end = st.end();
    assert_eq!(end.iter().map(describe).collect::<Vec<_>>(), vec!["finish Stop"]);
}

#[test]
fn groq_usage_is_read_under_its_key() {
    let event = j(r#"{"x_groq":{"usage":{"prompt_tokens":1}},"usage":{"prompt_tokens":2}}"#);
    match stream_usage_raw(&event, Some("x_groq")) {
        Some(JsonValue::Object(ms)) => assert_eq!(ms[0].0, "prompt_tokens"),
        other => panic!("unexpected {other:?}"),
    }
}

#[test]
fn stream_annotations_become_sources() {
    let mut st = ChatStreamState::new();
    let anns = vec![
        j(r#"{"type":"other"}"#),
        j(r#"{"type":"url_citation","url_citation":{"url":"https://a.example","title":"A"}}"#),
    ];
    let c = chunk(vec![choice(Delta { annotations: Some(anns), ..delta() }, None)]);
    let parts = st.on_event(&j("{}"), Some(c), None, false, None);
    assert_eq!(
        parts.iter().map(describe).collect::<Vec<_>>(),
        vec!["source annotation-1 Some(\"https://a.example\") Some(\"A\")"]
    );
}

#[test]
fn response_becomes_outcome() {
    let data = ChatCompletionResponse {
        id: "r1".into(),
        model: "gpt-4o".into(),
        created: Some(86400),
        choices: vec![Choice {
            message: MessageResponse {
                role: "assistant".into(),
                content: Some("Hi".into()),
                reasoning: Some("ignored".into()),
                reasoning_content: Some("why".into()),
                tool_calls: Some(vec![ToolCallResponse {
                    id: "t".into(),
                    function: FunctionCallResponse { name: "f".into(), arguments: "{}".into() },
                }]),
                annotations: Some(vec![j(r#"{"type":"url_citation","url_citation":{"url":"u"}}"#)]),
            },
            finish_reason: Some("stop".into()),
            logprobs: Some(j(r#"{"content":[1]}"#)),
        }],
        usage: UsageResponse {
            prompt_tokens: Some(5),
            completion_tokens: Some(2),
            total_tokens: Some(7),
            cached_tokens: None,
            prompt_tokens_details: None,
            completion_tokens_details: Some(CompletionTokensDetails {
                reasoning_tokens: None,
                accepted_prediction_tokens: Some(1),
                rejected_prediction_tokens: None,
            }),
        },
    };
    let raw = j(r#"{"usage":{"prompt_tokens":5}}"#);
    let o = response_to_outcome(data, &raw).unwrap();
    let kinds: Vec<String> = o
        .content
        .iter()
        .map(|c| match c {
            GenerateContent::Text { text } => format!("text {text}"),
            GenerateContent::Reasoning { text } => format!("reasoning {text}"),
            GenerateContent::ToolCall { tool_call_id, tool_name, arguments } => {
                format!("call {tool_call_id} {tool_name} {arguments}")
            },
            GenerateContent::Source { id, url, title } => format!("source {id} {:?} {:?}", url, title),
        })
        .collect();
    assert_eq!(kinds, vec!["text Hi", "reasoning why", "call t f {}", "source annotation-0 Some(\"u\") None"]);
    assert_eq!(o.finish_reason.unified, FinishReasonUnified::Stop);
    assert_eq!(o.timestamp.as_deref(), Some("1970-01-02T00:00:00+00:00"));
    assert_eq!(o.usage.input_tokens.total, Some(5));
    assert!(o.usage.raw.is_some());
    match &o.provider_metadata {
        JsonValue::Object(ms) => match &ms[0].1 {
            JsonValue::Object(inner) => {
                assert_eq!(inner[0].0, "logprobs");
                assert_eq!(inner[1].0, "acceptedPredictionTokens");
                assert_eq!(inner.len(), 2);
            },
            other => panic!("unexpected {other:?}"),
        },
        other => panic!("unexpected {other:?}"),
    }
}

#[test]
fn response_without_choices_is_invalid() {
    let data = ChatCompletionResponse {
        id: "r".into(),
        model: "m".into(),
        created: None,
        choices: vec![],
        usage: usage(0, 0),
    };
    match response_to_outcome(data, &JsonValue::Null) {
        Err(AiMuxError::InvalidResponseData(m)) => assert_eq!(m, "no choices in response"),
        other => panic!("unexpected {:?}", other.is_ok()),
    }
}
