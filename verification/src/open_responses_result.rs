//! What an Open Responses answer means: the error a response or the first
//! stream event reports, and the content, finish reason, usage and
//! metadata of a complete response.

use vstd::prelude::*;

use crate::error::AiMuxError;
use crate::json::{json_as_u64, json_get, Json, JsonValue};
use crate::open_responses::usage_document_consistent;
use crate::json_read::{json_parsed, json_parsed_bytes, parse_json, parse_json_bytes};
use crate::open_responses_stream::{nested_str, usage_document_ok, usage_of, usage_view};
use crate::openai::generate::{content_v, contents_v, ContentV, GenerateContent};
use crate::openai::responses::responses_finish_reason_spec;
use crate::openai::stream::{ochars, or_empty, str_of, str_of_value};
use crate::prodia::{lossy_text, utf8_lossy};
use crate::text::{concat, concat3, decimal_digits, u64_to_decimal};
use crate::usage::{FinishReason, FinishReasonUnified, TokenUsage, Usage};

verus! {

broadcast use vstd::std_specs::vec::group_vec_axioms;

// ── Errors ───────────────────────────────────────────────────────────────

/// The provider's error code: the `code` member (when a string), or the
/// `type` member when there is no `code`.
pub open spec fn error_code(err: Json) -> Option<Seq<char>> {
    match json_get(err, "code"@) {
        Some(Json::String(c)) => Some(c),
        Some(_) => None,
        None => str_of(err, "type"@),
    }
}

/// Reads the provider's error code (see [`error_code`]).
fn error_code_of(err: &JsonValue) -> (r: Option<String>)
    ensures
        ochars(r) == error_code(err@),
{
    match err.get("code") {
        Some(JsonValue::String(c)) => Some(c.clone()),
        Some(_) => None,
        None => str_of_value(err, "type"),
    }
}

/// The error of a first stream event that carries an `error` member: its
/// message (`stream error` by default) and code, with the event's data.
pub open spec fn stream_error_spec(event: Json) -> Option<(Seq<char>, Option<Seq<char>>)> {
    match json_get(event, "error"@) {
        Some(err) => Some(
            (
                match str_of(err, "message"@) {
                    Some(m) => m,
                    None => "stream error"@,
                },
                error_code(err),
            ),
        ),
        None => None,
    }
}

/// The error a stream reports in its first event (see
/// [`stream_error_spec`]), as an API-call error with the HTTP status and
/// the event's data; none when the event has no `error` member.
pub fn first_event_error(event: &JsonValue, status: u16, data: &str) -> (r: Option<AiMuxError>)
    ensures
        match stream_error_spec(event@) {
            Some((m, c)) => r matches Some(AiMuxError::ApiCall { status_code, provider_code, message, response_body }) && {
                &&& status_code == Some(status)
                &&& ochars(provider_code) == c
                &&& message@ == m
                &&& ochars(response_body) == Some(data@)
            },
            None => r is None,
        },
{
    match event.get("error") {
        Some(err) => {
            let message = match str_of_value(err, "message") {
                Some(m) => m,
                None => String::from_str("stream error"),
            };
            Some(
                AiMuxError::ApiCall {
                    status_code: Some(status),
                    provider_code: error_code_of(err),
                    message,
                    response_body: Some(String::from_str(data)),
                },
            )
        },
        None => None,
    }
}

/// The members of a response's `error` when it is a non-empty object.
pub open spec fn response_error(raw: Json) -> Option<Json> {
    match json_get(raw, "error"@) {
        Some(Json::Object(ms)) => if ms.len() > 0 {
            Some(Json::Object(ms))
        } else {
            None
        },
        _ => None,
    }
}

/// A response without output: `output` absent or `null`.
pub open spec fn no_output(raw: Json) -> bool {
    match json_get(raw, "output"@) {
        Some(o) => o is Null,
        None => true,
    }
}

/// The message for a response without output, with the incomplete reason
/// (or the status) when there is one.
pub open spec fn no_output_message(raw: Json) -> Seq<char> {
    let detail = match nested_str(raw, "incomplete_details"@, "reason"@) {
        Some(d) => Some(d),
        None => str_of(raw, "status"@),
    };
    match detail {
        Some(d) => "Responses API returned no output ("@ + d + ")"@,
        None => "Responses API returned no output"@,
    }
}

// ── Content ──────────────────────────────────────────────────────────────

/// The texts of the parts of an item's `content` array.
pub open spec fn content_texts(item: Json) -> Seq<Seq<char>> {
    match json_get(item, "content"@) {
        Some(Json::Array(cps)) => texts_of_parts(cps),
        _ => Seq::empty(),
    }
}

/// The `text` members that are strings, in order.
pub open spec fn texts_of_parts(cps: Seq<Json>) -> Seq<Seq<char>>
    decreases cps.len(),
{
    if cps.len() == 0 {
        Seq::empty()
    } else {
        let r = texts_of_parts(cps.drop_last());
        match str_of(cps.last(), "text"@) {
            Some(t) => r.push(t),
            None => r,
        }
    }
}

/// Texts as reasoning or as text content.
pub open spec fn wrapped(ts: Seq<Seq<char>>, reasoning: bool) -> Seq<ContentV> {
    Seq::new(
        ts.len(),
        |i: int|
            if reasoning {
                ContentV::Reasoning(ts[i])
            } else {
                ContentV::Text(ts[i])
            },
    )
}

/// The content of one output item: reasoning and message items give their
/// texts; a function call gives a tool call (empty id and name when
/// missing, `{}` arguments when missing); other items give nothing.
pub open spec fn output_item_content(item: Json) -> Seq<ContentV> {
    let t = or_empty(str_of(item, "type"@));
    if t == "reasoning"@ {
        wrapped(content_texts(item), true)
    } else if t == "message"@ {
        wrapped(content_texts(item), false)
    } else if t == "function_call"@ {
        seq![
            ContentV::ToolCall(
                or_empty(str_of(item, "call_id"@)),
                or_empty(str_of(item, "name"@)),
                match str_of(item, "arguments"@) {
                    Some(a) => a,
                    None => "{}"@,
                },
            ),
        ]
    } else {
        Seq::empty()
    }
}

/// The content of the output items, in order.
pub open spec fn output_content(items: Seq<Json>) -> Seq<ContentV>
    decreases items.len(),
{
    if items.len() == 0 {
        Seq::empty()
    } else {
        output_content(items.drop_last()) + output_item_content(items.last())
    }
}

/// Whether an output item is a function call.
pub open spec fn is_function_call(item: Json) -> bool {
    str_of(item, "type"@) == Some("function_call"@)
}

/// The output items of a response (none when `output` is not an array).
pub open spec fn output_items(raw: Json) -> Seq<Json> {
    match json_get(raw, "output"@) {
        Some(Json::Array(items)) => items,
        _ => Seq::empty(),
    }
}

/// The usage of a response: its `usage` document unless absent or `null`.
pub open spec fn response_usage(raw: Json) -> (TokenUsage, TokenUsage, Option<Json>) {
    match json_get(raw, "usage"@) {
        Some(u) => if u is Null {
            (TokenUsage::empty_spec(), TokenUsage::empty_spec(), None)
        } else {
            usage_of(u)
        },
        None => (TokenUsage::empty_spec(), TokenUsage::empty_spec(), None),
    }
}

/// The usage of a response can be reported: a present usage document keeps
/// its parts within its totals.
pub open spec fn response_usage_ok(raw: Json) -> bool {
    match json_get(raw, "usage"@) {
        Some(u) => u is Null || usage_document_consistent(u),
        None => true,
    }
}

/// A complete Open Responses answer.
#[derive(Debug)]
pub struct OpenResponsesGeneration {
    pub content: Vec<GenerateContent>,
    pub finish_reason: FinishReason,
    pub usage: Usage,
    pub response_id: Option<String>,
    /// `created_at` as decimal text.
    pub timestamp: Option<String>,
    pub model_id: Option<String>,
}

/// Appends a content entry.
fn push_content(content: &mut Vec<GenerateContent>, c: GenerateContent)
    ensures
        contents_v(final(content)@) == contents_v(old(content)@).push(content_v(c)),
{
    let ghost cv = content_v(c);
    let ghost before = contents_v(content@);
    content.push(c);
    assert(contents_v(content@) =~= before.push(cv));
}

/// Appends the texts of an item's content parts, as reasoning or as text.
fn push_texts(item: &JsonValue, reasoning: bool, content: &mut Vec<GenerateContent>)
    ensures
        contents_v(final(content)@) == contents_v(old(content)@) + wrapped(content_texts(item@), reasoning),
{
    let ghost c0 = contents_v(content@);
    assert(c0 + Seq::<ContentV>::empty() =~= c0);
    match item.get("content") {
        Some(JsonValue::Array(cps)) => {
            let ghost cv = crate::openai::messages::values_view(cps@);
            proof {
                crate::json::lemma_items_view(cps@);
                assert(crate::json::items_view(cps@) =~= cv);
            }
            let mut k: usize = 0;
            assert(wrapped(Seq::empty(), reasoning) =~= Seq::<ContentV>::empty());
            while k < cps.len()
                invariant
                    0 <= k <= cps@.len(),
                    cv == crate::openai::messages::values_view(cps@),
                    contents_v(content@) == c0 + wrapped(texts_of_parts(cv.subrange(0, k as int)), reasoning),
                decreases cps@.len() - k,
            {
                let ghost before = texts_of_parts(cv.subrange(0, k as int));
                proof {
                    let sub = cv.subrange(0, k + 1);
                    assert(sub.drop_last() =~= cv.subrange(0, k as int));
                    assert(sub.last() == cv[k as int]);
                }
                match str_of_value(&cps[k], "text") {
                    Some(t) => {
                        let ghost tv = t@;
                        let c = if reasoning {
                            GenerateContent::Reasoning { text: t }
                        } else {
                            GenerateContent::Text { text: t }
                        };
                        let ghost one = content_v(c);
                        push_content(content, c);
                        assert(wrapped(before.push(tv), reasoning) =~= wrapped(before, reasoning).push(one));
                        assert(c0 + wrapped(before, reasoning).push(one) =~= (c0 + wrapped(before, reasoning)).push(one));
                    },
                    None => {},
                }
                k += 1;
            }
            assert(cv.subrange(0, cv.len() as int) =~= cv);
        },
        _ => {
            assert(wrapped(content_texts(item@), reasoning) =~= Seq::<ContentV>::empty());
        },
    }
}

/// Appends the content of one output item (see [`output_item_content`]).
fn push_item_content(item: &JsonValue, content: &mut Vec<GenerateContent>)
    ensures
        contents_v(final(content)@) == contents_v(old(content)@) + output_item_content(item@),
{
    let ghost c0 = contents_v(content@);
    let t = match str_of_value(item, "type") {
        Some(t) => t,
        None => String::new(),
    };
    if crate::text::str_eq(t.as_str(), "reasoning") {
        push_texts(item, true, content);
    } else if crate::text::str_eq(t.as_str(), "message") {
        push_texts(item, false, content);
    } else if crate::text::str_eq(t.as_str(), "function_call") {
        let call_id = match str_of_value(item, "call_id") {
            Some(v) => v,
            None => String::new(),
        };
        let name = match str_of_value(item, "name") {
            Some(v) => v,
            None => String::new(),
        };
        let arguments = match str_of_value(item, "arguments") {
            Some(v) => v,
            None => String::from_str("{}"),
        };
        let ghost cv = ContentV::ToolCall(call_id@, name@, arguments@);
        push_content(content, GenerateContent::ToolCall { tool_call_id: call_id, tool_name: name, arguments });
        assert(contents_v(content@) =~= c0 + seq![cv]);
    } else {
        assert(c0 + Seq::<ContentV>::empty() =~= c0);
    }
}

/// The content of the output items and whether one is a function call.
fn output_content_of(items: &Vec<JsonValue>) -> (r: (Vec<GenerateContent>, bool))
    ensures
        contents_v(r.0@) == output_content(crate::openai::messages::values_view(items@)),
        r.1 == exists|i: int|
            0 <= i < items@.len() && is_function_call(#[trigger] crate::openai::messages::values_view(items@)[i]),
{
    let ghost iv = crate::openai::messages::values_view(items@);
    let mut content: Vec<GenerateContent> = Vec::new();
    assert(contents_v(content@) =~= Seq::<ContentV>::empty());
    let mut calls = false;
    let mut k: usize = 0;
    while k < items.len()
        invariant
            0 <= k <= items@.len(),
            iv == crate::openai::messages::values_view(items@),
            contents_v(content@) == output_content(iv.subrange(0, k as int)),
            calls == exists|i: int| 0 <= i < k && is_function_call(#[trigger] iv[i]),
        decreases items@.len() - k,
    {
        proof {
            let sub = iv.subrange(0, k + 1);
            assert(sub.drop_last() =~= iv.subrange(0, k as int));
            assert(sub.last() == iv[k as int]);
        }
        push_item_content(&items[k], &mut content);
        let is_call = match str_of_value(&items[k], "type") {
            Some(t) => crate::text::str_eq(t.as_str(), "function_call"),
            None => false,
        };
        assert(is_call == is_function_call(iv[k as int]));
        if is_call {
            calls = true;
        }
        assert(calls == exists|i: int| 0 <= i < k + 1 && is_function_call(#[trigger] iv[i])) by {
            if is_call {
                assert(is_function_call(iv[k as int]));
            }
        }
        k += 1;
    }
    assert(iv.subrange(0, iv.len() as int) =~= iv);
    (content, calls)
}

/// The usage of a response (see [`response_usage`]).
fn usage_of_response(raw: &JsonValue) -> (u: Usage)
    requires
        response_usage_ok(raw@),
    ensures
        usage_view(u) == response_usage(raw@),
{
    match raw.get("usage") {
        Some(v) => {
            if v.is_null() {
                Usage::empty()
            } else {
                crate::open_responses_stream::usage_from_document(v)
            }
        },
        None => Usage::empty(),
    }
}

/// What a complete Open Responses answer `raw` means, as the outcome `r`
/// (see [`open_responses_generation`]).
pub open spec fn generation_outcome(
    raw: Json,
    status: u16,
    body: Seq<u8>,
    r: Result<OpenResponsesGeneration, AiMuxError>,
) -> bool {
    match response_error(raw) {
        Some(err) => r matches Err(AiMuxError::ApiCall { status_code, provider_code, message, response_body }) && {
            &&& status_code == Some(status)
            &&& ochars(provider_code) == error_code(err)
            &&& message@ == match str_of(err, "message"@) {
                Some(m) => m,
                None => "unknown error"@,
            }
            &&& ochars(response_body) == Some(lossy_text(body))
        },
        None => if no_output(raw) {
            r matches Err(AiMuxError::InvalidResponseData(m)) && m@ == no_output_message(raw)
        } else {
            r matches Ok(g) && {
                let items = output_items(raw);
                let calls = exists|i: int| 0 <= i < items.len() && is_function_call(#[trigger] items[i]);
                let reason = nested_str(raw, "incomplete_details"@, "reason"@);
                &&& contents_v(g.content@) == output_content(items)
                &&& g.finish_reason.unified == responses_finish_reason_spec(reason, calls)
                &&& ochars(g.finish_reason.raw) == reason
                &&& usage_view(g.usage) == response_usage(raw)
                &&& ochars(g.response_id) == str_of(raw, "id"@)
                &&& ochars(g.timestamp) == match json_get(raw, "created_at"@) {
                    Some(v) => match json_as_u64(v) {
                        Some(t) => Some(decimal_digits(t as nat)),
                        None => None,
                    },
                    None => None,
                }
                &&& ochars(g.model_id) == str_of(raw, "model"@)
            }
        },
    }
}

/// What a complete Open Responses answer means. A non-empty `error` object
/// is an API-call error (its message, `unknown error` by default, its code,
/// the HTTP status and the body as text); a response without output is
/// `InvalidResponseData` (see [`no_output_message`]). Otherwise: the
/// content of the output items, the finish reason from the incomplete
/// reason (tool calls when a function call was made), the usage, and the
/// response's id, creation time and model.
pub fn open_responses_generation(raw: &JsonValue, status: u16, body: &[u8]) -> (r: Result<
    OpenResponsesGeneration,
    AiMuxError,
>)
    requires
        response_error(raw@) is None && !no_output(raw@) ==> response_usage_ok(raw@),
    ensures
        generation_outcome(raw@, status, body@, r),
{
    match raw.get("error") {
        Some(JsonValue::Object(ms)) => {
            if ms.len() > 0 {
                let err = raw.get("error").unwrap();
                let message = match str_of_value(err, "message") {
                    Some(m) => m,
                    None => String::from_str("unknown error"),
                };
                return Err(
                    AiMuxError::ApiCall {
                        status_code: Some(status),
                        provider_code: error_code_of(err),
                        message,
                        response_body: Some(utf8_lossy(body)),
                    },
                );
            }
        },
        _ => {},
    }
    let missing = match raw.get("output") {
        Some(o) => o.is_null(),
        None => true,
    };
    if missing {
        let detail = match raw.get("incomplete_details") {
            Some(d) => match str_of_value(d, "reason") {
                Some(r) => Some(r),
                None => str_of_value(raw, "status"),
            },
            None => str_of_value(raw, "status"),
        };
        let message = match detail {
            Some(d) => {
                let a = concat3("Responses API returned no output (", d.as_str(), ")");
                a
            },
            None => String::from_str("Responses API returned no output"),
        };
        return Err(AiMuxError::InvalidResponseData(message));
    }
    let (content, calls) = match raw.get("output") {
        Some(JsonValue::Array(items)) => {
            proof {
                crate::json::lemma_items_view(items@);
                assert(crate::json::items_view(items@) =~= crate::openai::messages::values_view(items@));
            }
            output_content_of(items)
        },
        _ => {
            let v: Vec<GenerateContent> = Vec::new();
            assert(contents_v(v@) =~= Seq::<ContentV>::empty());
            (v, false)
        },
    };
    proof {
        match json_get(raw@, "output"@) {
            Some(Json::Array(items)) => {
                assert(output_items(raw@) == items);
            },
            _ => {
                assert(output_items(raw@) =~= Seq::<Json>::empty());
                assert(output_content(Seq::<Json>::empty()) =~= Seq::<ContentV>::empty());
            },
        }
    }
    let reason = match raw.get("incomplete_details") {
        Some(d) => str_of_value(d, "reason"),
        None => None,
    };
    let unified = match &reason {
        Some(x) => crate::open_responses::map_open_responses_finish_reason(Some(x.as_str()), calls),
        None => crate::open_responses::map_open_responses_finish_reason(None, calls),
    };
    let usage = usage_of_response(raw);
    let timestamp = match raw.get("created_at") {
        Some(v) => match v.as_u64() {
            Some(t) => Some(u64_to_decimal(t)),
            None => None,
        },
        None => None,
    };
    Ok(
        OpenResponsesGeneration {
            content,
            finish_reason: FinishReason { unified, raw: reason },
            usage,
            response_id: str_of_value(raw, "id"),
            timestamp,
            model_id: str_of_value(raw, "model"),
        },
    )
}

/// Whether the usage of an answer can be reported: it must add up when
/// the answer is neither an error nor without output.
pub fn generation_usage_ok(raw: &JsonValue) -> (b: bool)
    ensures
        b == (response_error(raw@) is None && !no_output(raw@) ==> response_usage_ok(raw@)),
{
    let has_error = match raw.get("error") {
        Some(JsonValue::Object(ms)) => ms.len() > 0,
        _ => false,
    };
    let has_output = match raw.get("output") {
        Some(JsonValue::Null) => false,
        Some(_) => true,
        None => false,
    };
    if has_error || !has_output {
        return true;
    }
    match raw.get("usage") {
        Some(JsonValue::Null) => true,
        Some(u) => usage_document_ok(u),
        None => true,
    }
}

/// A complete Open Responses answer from its status and body bytes: a
/// body that is not JSON is a `JsonParse` error with the parser's message;
/// an answer whose usage counts cannot be added up gives nothing; any
/// other is read as by [`open_responses_generation`].
pub fn open_responses_answer(status: u16, body: &[u8]) -> (r: Option<Result<OpenResponsesGeneration, AiMuxError>>)
    ensures
        match json_parsed_bytes(body@) {
            Err(m) => r matches Some(Err(AiMuxError::JsonParse(t))) && t@ == m,
            Ok(raw) => if response_error(raw) is None && !no_output(raw) && !response_usage_ok(raw) {
                r is None
            } else {
                r matches Some(x) && generation_outcome(raw, status, body@, x)
            },
        },
{
    match parse_json_bytes(body) {
        Err(m) => Some(Err(AiMuxError::JsonParse(m))),
        Ok(raw) => {
            if generation_usage_ok(&raw) {
                Some(open_responses_generation(&raw, status, body))
            } else {
                None
            }
        },
    }
}

/// The error a stream reports in the data of its first event (see
/// [`stream_error_spec`]); none when the data is not JSON or has no
/// `error` member.
pub fn first_data_error(data: &str, status: u16) -> (r: Option<AiMuxError>)
    ensures
        match json_parsed(data@) {
            Ok(event) => match stream_error_spec(event) {
                Some((m, c)) => r matches Some(AiMuxError::ApiCall { status_code, provider_code, message, response_body }) && {
                    &&& status_code == Some(status)
                    &&& ochars(provider_code) == c
                    &&& message@ == m
                    &&& ochars(response_body) == Some(data@)
                },
                None => r is None,
            },
            Err(_) => r is None,
        },
{
    match parse_json(data) {
        Ok(event) => first_event_error(&event, status, data),
        Err(_) => None,
    }
}

} // verus!
