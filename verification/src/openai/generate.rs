//! The result of a (non-streamed) chat-completions call, read from the
//! response.

use vstd::prelude::*;

use crate::error::AiMuxError;
use crate::json::{json_get, members_view, opt_json_ref_view, opt_json_view, Json, JsonValue};
use crate::openai::convert::{chat_finish_reason_spec, parse_finish_reason};
use crate::openai::stream::{ochars, rfc3339_of_secs, str_of};
use crate::openai::types::{ChatCompletionResponse, Choice, CompletionTokensDetails, MessageResponse, ToolCallResponse};
use crate::openai::usage::{convert_usage, input_usage_spec, output_usage_spec};
use crate::search::push_member;
use crate::text::{concat, decimal_digits, str_eq, u64_to_decimal};
use crate::usage::{FinishReason, FinishReasonUnified, TokenUsage, Usage};

verus! {

broadcast use vstd::std_specs::vec::group_vec_axioms;

/// A piece of generated content.
#[derive(Debug)]
pub enum GenerateContent {
    Text { text: String },
    Reasoning { text: String },
    /// A tool call; `arguments` is the argument text as sent, which the
    /// caller reads as JSON (or keeps as text when it is not).
    ToolCall { tool_call_id: String, tool_name: String, arguments: String },
    /// A URL citation.
    Source { id: String, url: Option<String>, title: Option<String> },
}

/// Generated content by its contents.
pub enum ContentV {
    Text(Seq<char>),
    Reasoning(Seq<char>),
    ToolCall(Seq<char>, Seq<char>, Seq<char>),
    Source(Seq<char>, Option<Seq<char>>, Option<Seq<char>>),
}

/// Generated content by its contents.
pub open spec fn content_v(c: GenerateContent) -> ContentV {
    match c {
        GenerateContent::Text { text } => ContentV::Text(text@),
        GenerateContent::Reasoning { text } => ContentV::Reasoning(text@),
        GenerateContent::ToolCall { tool_call_id, tool_name, arguments } => ContentV::ToolCall(
            tool_call_id@,
            tool_name@,
            arguments@,
        ),
        GenerateContent::Source { id, url, title } => ContentV::Source(id@, ochars(url), ochars(title)),
    }
}

/// A list of generated content by its contents.
pub open spec fn contents_v(cs: Seq<GenerateContent>) -> Seq<ContentV> {
    Seq::new(cs.len(), |i: int| content_v(cs[i]))
}

/// What a call produced.
#[derive(Debug)]
pub struct GenerateOutcome {
    pub content: Vec<GenerateContent>,
    pub finish_reason: FinishReason,
    pub usage: Usage,
    pub provider_metadata: JsonValue,
    pub response_id: String,
    /// The creation time as RFC 3339 text.
    pub timestamp: Option<String>,
    pub model_id: String,
}

/// The reasoning text of a message: `reasoning_content` wins over
/// `reasoning`.
pub open spec fn message_reasoning(m: MessageResponse) -> Option<Seq<char>> {
    match m.reasoning_content {
        Some(r) => Some(r@),
        Option::None => ochars(m.reasoning),
    }
}

/// The tool calls of a message as content, in order.
pub open spec fn tool_calls_content(tcs: Seq<ToolCallResponse>) -> Seq<ContentV> {
    Seq::new(tcs.len(), |i: int| ContentV::ToolCall(tcs[i].id@, tcs[i].function.name@, tcs[i].function.arguments@))
}

/// The source of annotation `i`, when it is a URL citation.
pub open spec fn annotation_source(ann: Json, i: nat) -> Seq<ContentV> {
    if str_of(ann, "type"@) == Some("url_citation"@) {
        match json_get(ann, "url_citation"@) {
            Some(uc) => seq![ContentV::Source("annotation-"@ + decimal_digits(i), str_of(uc, "url"@), str_of(uc, "title"@))],
            Option::None => Seq::empty(),
        }
    } else {
        Seq::empty()
    }
}

/// The sources of a list of annotations, in order.
pub open spec fn annotation_sources(anns: Seq<Json>) -> Seq<ContentV>
    decreases anns.len(),
{
    if anns.len() == 0 {
        Seq::empty()
    } else {
        annotation_sources(anns.drop_last()) + annotation_source(anns.last(), (anns.len() - 1) as nat)
    }
}

/// The content of a message: its text and its reasoning when not empty,
/// its tool calls, then the sources of its URL citations.
pub open spec fn message_content(m: MessageResponse) -> Seq<ContentV> {
    let t = match m.content {
        Some(c) => if c@.len() > 0 {
            seq![ContentV::Text(c@)]
        } else {
            Seq::empty()
        },
        Option::None => Seq::empty(),
    };
    let r = match message_reasoning(m) {
        Some(x) => if x.len() > 0 {
            seq![ContentV::Reasoning(x)]
        } else {
            Seq::empty()
        },
        Option::None => Seq::empty(),
    };
    let c = match m.tool_calls {
        Some(v) => tool_calls_content(v@),
        Option::None => Seq::empty(),
    };
    let a = match m.annotations {
        Some(v) => annotation_sources(Seq::new(v@.len(), |i: int| v@[i]@)),
        Option::None => Seq::empty(),
    };
    t + r + c + a
}

/// The provider metadata of a result: the choice's log probabilities and
/// the accepted and rejected prediction tokens.
pub open spec fn generate_metadata(logprobs: Option<Json>, details: Option<CompletionTokensDetails>) -> Json {
    let m1 = match logprobs {
        Some(lp) => match json_get(lp, "content"@) {
            Some(c) => seq![("logprobs"@, c)],
            Option::None => Seq::empty(),
        },
        Option::None => Seq::empty(),
    };
    let m2 = match details {
        Some(d) => match d.accepted_prediction_tokens {
            Some(n) => m1.push(("acceptedPredictionTokens"@, Json::Number(decimal_digits(n as nat)))),
            Option::None => m1,
        },
        Option::None => m1,
    };
    let m3 = match details {
        Some(d) => match d.rejected_prediction_tokens {
            Some(n) => m2.push(("rejectedPredictionTokens"@, Json::Number(decimal_digits(n as nat)))),
            Option::None => m2,
        },
        Option::None => m2,
    };
    Json::Object(seq![("openai"@, Json::Object(m3))])
}

/// Appends a piece of content.
fn push_content(cs: &mut Vec<GenerateContent>, c: GenerateContent)
    ensures
        contents_v(final(cs)@) == contents_v(old(cs)@).push(content_v(c)),
{
    let ghost v = content_v(c);
    cs.push(c);
    assert(contents_v(cs@) =~= contents_v(old(cs)@).push(v));
}

/// The string member `key` of a value, copied.
fn str_member(j: &JsonValue, key: &str) -> (r: Option<String>)
    ensures
        ochars(r) == str_of(j@, key@),
{
    match j.get(key) {
        Some(JsonValue::String(s)) => Some(s.clone()),
        _ => None,
    }
}

/// The content of a message (see [`message_content`]).
pub fn message_to_content(m: &MessageResponse) -> (r: Vec<GenerateContent>)
    ensures
        contents_v(r@) == message_content(*m),
{
    let mut out: Vec<GenerateContent> = Vec::new();
    assert(contents_v(out@) =~= Seq::<ContentV>::empty());
    match &m.content {
        Some(t) => {
            if t.unicode_len() > 0 {
                push_content(&mut out, GenerateContent::Text { text: t.clone() });
            }
        },
        None => {},
    }
    let ghost c1 = contents_v(out@);
    let reasoning = match &m.reasoning_content {
        Some(r) => Some(r.clone()),
        None => match &m.reasoning {
            Some(r) => Some(r.clone()),
            None => None,
        },
    };
    match reasoning {
        Some(r) => {
            if r.unicode_len() > 0 {
                push_content(&mut out, GenerateContent::Reasoning { text: r });
            }
        },
        None => {},
    }
    let ghost c2 = contents_v(out@);
    match &m.tool_calls {
        Some(v) => {
            let mut i: usize = 0;
            while i < v.len()
                invariant
                    0 <= i <= v@.len(),
                    contents_v(out@) == c2 + tool_calls_content(v@).subrange(0, i as int),
                decreases v@.len() - i,
            {
                let tc = &v[i];
                push_content(
                    &mut out,
                    GenerateContent::ToolCall {
                        tool_call_id: tc.id.clone(),
                        tool_name: tc.function.name.clone(),
                        arguments: tc.function.arguments.clone(),
                    },
                );
                assert(tool_calls_content(v@).subrange(0, i + 1) =~= tool_calls_content(v@).subrange(0, i as int).push(
                    tool_calls_content(v@)[i as int],
                ));
                i += 1;
            }
            assert(tool_calls_content(v@).subrange(0, v@.len() as int) =~= tool_calls_content(v@));
        },
        None => {
            assert(c2 + Seq::<ContentV>::empty() =~= c2);
        },
    }
    let ghost c3 = contents_v(out@);
    match &m.annotations {
        Some(v) => {
            let ghost av = Seq::new(v@.len(), |k: int| v@[k]@);
            let mut i: usize = 0;
            assert(c3 + annotation_sources(av.subrange(0, 0)) =~= c3);
            while i < v.len()
                invariant
                    0 <= i <= v@.len(),
                    av == Seq::new(v@.len(), |k: int| v@[k]@),
                    contents_v(out@) == c3 + annotation_sources(av.subrange(0, i as int)),
                decreases v@.len() - i,
            {
                let ann = &v[i];
                let ghost before = contents_v(out@);
                proof {
                    assert(av.subrange(0, i + 1).drop_last() =~= av.subrange(0, i as int));
                    assert(av.subrange(0, i + 1).last() == ann@);
                    reveal_strlit("url_citation");
                }
                let ty = str_member(ann, "type");
                let is_citation = match &ty {
                    Some(t) => str_eq(t.as_str(), "url_citation"),
                    None => false,
                };
                if is_citation {
                    match ann.get("url_citation") {
                        Some(uc) => {
                            let id = concat("annotation-", u64_to_decimal(i as u64).as_str());
                            push_content(
                                &mut out,
                                GenerateContent::Source { id, url: str_member(uc, "url"), title: str_member(uc, "title") },
                            );
                        },
                        None => {},
                    }
                }
                proof {
                    assert(contents_v(out@) =~= before + annotation_source(ann@, i as nat));
                    assert(contents_v(out@) =~= c3 + annotation_sources(av.subrange(0, i + 1)));
                }
                i += 1;
            }
            assert(av.subrange(0, v@.len() as int) =~= av);
        },
        None => {
            assert(c3 + Seq::<ContentV>::empty() =~= c3);
        },
    }
    proof {
        assert(contents_v(out@) =~= message_content(*m));
    }
    out
}

/// The provider metadata of a result (see [`generate_metadata`]).
fn generate_metadata_of(logprobs: &Option<JsonValue>, details: &Option<CompletionTokensDetails>) -> (j: JsonValue)
    ensures
        j@ == generate_metadata(opt_json_view(*logprobs), *details),
{
    let mut m: Vec<(String, JsonValue)> = Vec::new();
    assert(members_view(m@) =~= Seq::<(Seq<char>, Json)>::empty());
    match logprobs {
        Some(lp) => match lp.get("content") {
            Some(c) => push_member(&mut m, "logprobs", c.deep_copy()),
            None => {},
        },
        None => {},
    }
    match details {
        Some(d) => {
            match d.accepted_prediction_tokens {
                Some(n) => push_member(&mut m, "acceptedPredictionTokens", JsonValue::Number(u64_to_decimal(n as u64))),
                None => {},
            }
            match d.rejected_prediction_tokens {
                Some(n) => push_member(&mut m, "rejectedPredictionTokens", JsonValue::Number(u64_to_decimal(n as u64))),
                None => {},
            }
        },
        None => {},
    }
    let ghost mv = members_view(m@);
    let mut o: Vec<(String, JsonValue)> = Vec::new();
    assert(members_view(o@) =~= Seq::<(Seq<char>, Json)>::empty());
    push_member(&mut o, "openai", JsonValue::Object(m));
    assert(members_view(o@) =~= seq![("openai"@, Json::Object(mv))]);
    JsonValue::Object(o)
}

/// Formats a Unix time in seconds as RFC 3339 text.
fn timestamp_of(created: Option<u64>) -> (r: Option<String>)
    ensures
        ochars(r) == match created {
            Some(t) => rfc3339_of_secs(t),
            Option::None => Option::None,
        },
{
    match created {
        Some(t) => crate::openai::stream::rfc3339_from_secs(t),
        None => None,
    }
}

/// The result of a chat-completions response (`response` is the raw body,
/// whose `usage` document is kept): the content of the first choice, its
/// finish reason (`other` when absent), the usage, the provider metadata
/// and the response's id, time and model. A response without choices is
/// `InvalidResponseData`.
pub fn response_to_outcome(data: ChatCompletionResponse, response: &JsonValue) -> (r: Result<GenerateOutcome, AiMuxError>)
    ensures
        if data.choices@.len() == 0 {
            r matches Err(AiMuxError::InvalidResponseData(m)) && m@ == "no choices in response"@
        } else {
            r matches Ok(o) && {
                let choice = data.choices@[0];
                &&& contents_v(o.content@) == message_content(choice.message)
                &&& o.finish_reason.unified == match choice.finish_reason {
                    Some(f) => chat_finish_reason_spec(f@),
                    Option::None => FinishReasonUnified::Other,
                }
                &&& ochars(o.finish_reason.raw) == ochars(choice.finish_reason)
                &&& o.usage.input_tokens == input_usage_spec(data.usage)
                &&& o.usage.output_tokens == output_usage_spec(data.usage)
                &&& opt_json_view(o.usage.raw) == json_get(response@, "usage"@)
                &&& o.provider_metadata@ == generate_metadata(
                    opt_json_view(choice.logprobs),
                    data.usage.completion_tokens_details,
                )
                &&& o.response_id@ == data.id@
                &&& ochars(o.timestamp) == match data.created {
                    Some(t) => rfc3339_of_secs(t),
                    Option::None => Option::None,
                }
                &&& o.model_id@ == data.model@
            }
        },
{
    let ChatCompletionResponse { id, model, created, choices, usage } = data;
    if choices.len() == 0 {
        return Err(AiMuxError::InvalidResponseData(String::from_str("no choices in response")));
    }
    let choice = &choices[0];
    let content = message_to_content(&choice.message);
    let finish_reason = match &choice.finish_reason {
        Some(f) => parse_finish_reason(f.as_str()),
        None => FinishReason { unified: FinishReasonUnified::Other, raw: None },
    };
    let u = convert_usage(&usage, response.get("usage"));
    let provider_metadata = generate_metadata_of(&choice.logprobs, &usage.completion_tokens_details);
    Ok(
        GenerateOutcome {
            content,
            finish_reason,
            usage: u,
            provider_metadata,
            response_id: id,
            timestamp: timestamp_of(created),
            model_id: model,
        },
    )
}

} // verus!
