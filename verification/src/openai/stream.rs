//! The chat-completions stream as a state machine: each server event
//! (already parsed as JSON, and as a chunk where it is one) moves the state
//! and yields stream parts; the end of the stream closes what is open and
//! yields the finish part.

use vstd::prelude::*;

use crate::json::{json_get, members_view, opt_json_view, Json, JsonValue};
use crate::openai::convert::{chat_finish_reason_spec, parse_finish_reason};
use crate::openai::types::{delta_reasoning_spec, DeltaToolCall, StreamChoice, StreamChunk, UsageResponse};
use crate::openai::usage::{convert_usage, input_usage_spec, output_usage_spec};
use crate::openai::request::{jstr, warning_view, warnings_view, Warning, WarningV};
use crate::search::push_member;
use crate::text::{concat, decimal_digits, str_eq, u64_to_decimal};
use crate::usage::{FinishReason, FinishReasonUnified, TokenUsage, Usage};

verus! {

broadcast use vstd::std_specs::vec::group_vec_axioms;

/// What a Unix time in seconds is as RFC 3339 text (none when out of range).
pub uninterp spec fn rfc3339_of_secs(secs: u64) -> Option<Seq<char>>;

/// Formats a Unix time in seconds as RFC 3339 text
/// (`chrono::DateTime::from_timestamp(secs as i64, 0)` then `to_rfc3339`).
#[verifier::external_body]
pub(crate) fn rfc3339_from_secs(secs: u64) -> (r: Option<String>)
    ensures
        match r {
            Some(s) => rfc3339_of_secs(secs) == Some(s@),
            None => rfc3339_of_secs(secs) is None,
        },
{
    chrono::DateTime::from_timestamp(secs as i64, 0).map(|dt| dt.to_rfc3339())
}

/// The id of the reasoning segment.
pub open spec fn reasoning_id() -> Seq<char> {
    "reasoning-0"@
}

/// The id of the text segment.
pub open spec fn text_id() -> Seq<char> {
    "0"@
}

/// A part of the stream a caller receives.
#[derive(Debug)]
#[allow(inconsistent_fields)]
pub enum StreamPart {
    /// The start of the stream, with the warnings of the request.
    StreamStart { warnings: Vec<Warning> },
    /// The provider's event as sent.
    Raw { raw_value: JsonValue },
    /// The provider reported an error mid-stream.
    Error { error: JsonValue },
    ResponseMetadata { id: Option<String>, timestamp: Option<String>, model_id: Option<String> },
    ReasoningStart { id: String },
    ReasoningDelta { id: String, delta: String },
    ReasoningEnd { id: String },
    TextStart { id: String },
    TextDelta { id: String, delta: String },
    TextEnd { id: String },
    ToolInputStart { id: String, tool_name: String },
    ToolInputDelta { id: String, delta: String },
    ToolInputEnd { id: String },
    /// A complete tool call; `arguments` is the accumulated argument text,
    /// which the caller reads as JSON (or keeps as text when it is not).
    ToolCall { tool_call_id: String, tool_name: String, arguments: String },
    /// A URL citation.
    Source { id: String, url: Option<String>, title: Option<String> },
    Finish { finish_reason: FinishReason, usage: Usage, provider_metadata: JsonValue },
}

/// A stream part by its contents.
pub enum PartV {
    StreamStart(Seq<WarningV>),
    Raw(Json),
    Error(Json),
    ResponseMetadata(Option<Seq<char>>, Option<Seq<char>>, Option<Seq<char>>),
    ReasoningStart(Seq<char>),
    ReasoningDelta(Seq<char>, Seq<char>),
    ReasoningEnd(Seq<char>),
    TextStart(Seq<char>),
    TextDelta(Seq<char>, Seq<char>),
    TextEnd(Seq<char>),
    ToolInputStart(Seq<char>, Seq<char>),
    ToolInputDelta(Seq<char>, Seq<char>),
    ToolInputEnd(Seq<char>),
    ToolCall(Seq<char>, Seq<char>, Seq<char>),
    Source(Seq<char>, Option<Seq<char>>, Option<Seq<char>>),
    Finish(FinishReasonUnified, Option<Seq<char>>, TokenUsage, TokenUsage, Option<Json>, Json),
}

/// An optional string by its characters.
pub open spec fn ochars(o: Option<String>) -> Option<Seq<char>> {
    match o {
        Some(s) => Some(s@),
        None => None,
    }
}

/// A stream part by its contents.
pub open spec fn part_v(p: StreamPart) -> PartV {
    match p {
        StreamPart::StreamStart { warnings } => PartV::StreamStart(warnings_view(warnings@)),
        StreamPart::Raw { raw_value } => PartV::Raw(raw_value@),
        StreamPart::Error { error } => PartV::Error(error@),
        StreamPart::ResponseMetadata { id, timestamp, model_id } => PartV::ResponseMetadata(
            ochars(id),
            ochars(timestamp),
            ochars(model_id),
        ),
        StreamPart::ReasoningStart { id } => PartV::ReasoningStart(id@),
        StreamPart::ReasoningDelta { id, delta } => PartV::ReasoningDelta(id@, delta@),
        StreamPart::ReasoningEnd { id } => PartV::ReasoningEnd(id@),
        StreamPart::TextStart { id } => PartV::TextStart(id@),
        StreamPart::TextDelta { id, delta } => PartV::TextDelta(id@, delta@),
        StreamPart::TextEnd { id } => PartV::TextEnd(id@),
        StreamPart::ToolInputStart { id, tool_name } => PartV::ToolInputStart(id@, tool_name@),
        StreamPart::ToolInputDelta { id, delta } => PartV::ToolInputDelta(id@, delta@),
        StreamPart::ToolInputEnd { id } => PartV::ToolInputEnd(id@),
        StreamPart::ToolCall { tool_call_id, tool_name, arguments } => PartV::ToolCall(
            tool_call_id@,
            tool_name@,
            arguments@,
        ),
        StreamPart::Source { id, url, title } => PartV::Source(id@, ochars(url), ochars(title)),
        StreamPart::Finish { finish_reason, usage, provider_metadata } => PartV::Finish(
            finish_reason.unified,
            ochars(finish_reason.raw),
            usage.input_tokens,
            usage.output_tokens,
            opt_json_view(usage.raw),
            provider_metadata@,
        ),
    }
}

/// Stream parts by their contents.
pub open spec fn parts_v(ps: Seq<StreamPart>) -> Seq<PartV> {
    Seq::new(ps.len(), |i: int| part_v(ps[i]))
}

/// The state of a stream by its contents: which segments are open,
/// whether the metadata went out and whether the provider failed, the last
/// log probabilities, the finish reason, the last usage (with its raw
/// document) and the tool calls being assembled `(index, id, name,
/// arguments)` in the order they began.
#[verifier::ext_equal]
pub struct StateV {
    pub text_started: bool,
    pub reasoning_started: bool,
    pub metadata_emitted: bool,
    pub errored: bool,
    pub logprobs: Option<Json>,
    pub finish: Option<(FinishReasonUnified, Option<Seq<char>>)>,
    pub usage: Option<(UsageResponse, Option<Json>)>,
    pub tools: Seq<(usize, Seq<char>, Seq<char>, Seq<char>)>,
}

/// The state at the start of a stream.
pub open spec fn initial_state() -> StateV {
    StateV {
        text_started: false,
        reasoning_started: false,
        metadata_emitted: false,
        errored: false,
        logprobs: None,
        finish: None,
        usage: None,
        tools: Seq::empty(),
    }
}

/// Closes an open reasoning segment.
pub open spec fn close_reasoning(s: StateV) -> (StateV, Seq<PartV>) {
    if s.reasoning_started {
        (StateV { reasoning_started: false, ..s }, seq![PartV::ReasoningEnd(reasoning_id())])
    } else {
        (s, Seq::empty())
    }
}

/// A non-empty reasoning delta opens the reasoning segment if needed and
/// is passed on.
#[verifier::opaque]
pub open spec fn reasoning_step(s: StateV, r: Option<Seq<char>>) -> (StateV, Seq<PartV>) {
    match r {
        Some(t) => if t.len() > 0 {
            if s.reasoning_started {
                (s, seq![PartV::ReasoningDelta(reasoning_id(), t)])
            } else {
                (
                    StateV { reasoning_started: true, ..s },
                    seq![PartV::ReasoningStart(reasoning_id()), PartV::ReasoningDelta(reasoning_id(), t)],
                )
            }
        } else {
            (s, Seq::empty())
        },
        None => (s, Seq::empty()),
    }
}

/// A text delta closes reasoning, opens the text segment if needed and is
/// passed on.
#[verifier::opaque]
pub open spec fn text_step(s: StateV, c: Option<Seq<char>>) -> (StateV, Seq<PartV>) {
    match c {
        Some(t) => {
            let (s1, p1) = close_reasoning(s);
            if s1.text_started {
                (s1, p1.push(PartV::TextDelta(text_id(), t)))
            } else {
                (
                    StateV { text_started: true, ..s1 },
                    p1 + seq![PartV::TextStart(text_id()), PartV::TextDelta(text_id(), t)],
                )
            }
        },
        None => (s, Seq::empty()),
    }
}

/// The position of the tool call with the given index.
pub open spec fn tool_pos(tools: Seq<(usize, Seq<char>, Seq<char>, Seq<char>)>, index: usize) -> Option<int>
    decreases tools.len(),
{
    if tools.len() == 0 {
        None
    } else {
        match tool_pos(tools.drop_last(), index) {
            Some(p) => Some(p),
            None => if tools.last().0 == index {
                Some(tools.len() - 1)
            } else {
                None
            },
        }
    }
}

/// An optional string, empty when absent.
pub open spec fn or_empty(o: Option<Seq<char>>) -> Seq<char> {
    match o {
        Some(s) => s,
        None => Seq::empty(),
    }
}

/// The function name of a tool-call delta.
pub open spec fn delta_name(d: DeltaToolCall) -> Option<Seq<char>> {
    match d.function {
        Some(f) => ochars(f.name),
        None => None,
    }
}

/// The argument text of a tool-call delta.
pub open spec fn delta_args(d: DeltaToolCall) -> Option<Seq<char>> {
    match d.function {
        Some(f) => ochars(f.arguments),
        None => None,
    }
}

/// One tool-call delta: a new index starts a tool call (id and name, empty
/// when absent); argument text is appended and passed on, except an empty
/// text on the delta that starts the call.
pub open spec fn tool_delta_step(s: StateV, d: DeltaToolCall) -> (StateV, Seq<PartV>) {
    let is_new = tool_pos(s.tools, d.index) is None;
    let (s1, p1) = if is_new {
        let id = or_empty(ochars(d.id));
        let name = or_empty(delta_name(d));
        (
            StateV { tools: s.tools.push((d.index, id, name, Seq::empty())), ..s },
            seq![PartV::ToolInputStart(id, name)],
        )
    } else {
        (s, Seq::empty())
    };
    match delta_args(d) {
        Some(a) => if !is_new || a.len() > 0 {
            let p = tool_pos(s1.tools, d.index).unwrap();
            let acc = s1.tools[p];
            (
                StateV { tools: s1.tools.update(p, (acc.0, acc.1, acc.2, acc.3 + a)), ..s1 },
                p1.push(PartV::ToolInputDelta(acc.1, a)),
            )
        } else {
            (s1, p1)
        },
        None => (s1, p1),
    }
}

/// The tool-call deltas of a choice, in order.
pub open spec fn tool_deltas_step(s: StateV, ds: Seq<DeltaToolCall>) -> (StateV, Seq<PartV>)
    decreases ds.len(),
{
    if ds.len() == 0 {
        (s, Seq::empty())
    } else {
        let (s1, p1) = tool_deltas_step(s, ds.drop_last());
        let (s2, p2) = tool_delta_step(s1, ds.last());
        (s2, p1 + p2)
    }
}

/// Tool-call deltas close reasoning first.
#[verifier::opaque]
pub open spec fn tools_step(s: StateV, ds: Option<Seq<DeltaToolCall>>) -> (StateV, Seq<PartV>) {
    match ds {
        Some(d) => {
            let (s1, p1) = close_reasoning(s);
            let (s2, p2) = tool_deltas_step(s1, d);
            (s2, p1 + p2)
        },
        None => (s, Seq::empty()),
    }
}

/// The string member `key` of a value.
pub open spec fn str_of(j: Json, key: Seq<char>) -> Option<Seq<char>> {
    match json_get(j, key) {
        Some(Json::String(s)) => Some(s),
        _ => None,
    }
}

/// The source of annotation `i`, when it is a URL citation.
pub open spec fn annotation_part(ann: Json, i: nat) -> Seq<PartV> {
    if str_of(ann, "type"@) == Some("url_citation"@) {
        match json_get(ann, "url_citation"@) {
            Some(uc) => seq![PartV::Source("annotation-"@ + decimal_digits(i), str_of(uc, "url"@), str_of(uc, "title"@))],
            None => Seq::empty(),
        }
    } else {
        Seq::empty()
    }
}

/// The sources of a list of annotations, in order.
pub open spec fn annotation_parts(anns: Seq<Json>) -> Seq<PartV>
    decreases anns.len(),
{
    if anns.len() == 0 {
        Seq::empty()
    } else {
        annotation_parts(anns.drop_last()) + annotation_part(anns.last(), (anns.len() - 1) as nat)
    }
}

/// The parts that end the tool calls being assembled, in order: the end of
/// the input and the call itself.
pub open spec fn tool_call_parts(tools: Seq<(usize, Seq<char>, Seq<char>, Seq<char>)>) -> Seq<PartV>
    decreases tools.len(),
{
    if tools.len() == 0 {
        Seq::empty()
    } else {
        let t = tools.last();
        tool_call_parts(tools.drop_last()) + seq![PartV::ToolInputEnd(t.1), PartV::ToolCall(t.1, t.2, t.3)]
    }
}

/// Closes the open segments and ends the tool calls.
#[verifier::opaque]
pub open spec fn close_all(s: StateV) -> (StateV, Seq<PartV>) {
    let (s1, p1) = close_reasoning(s);
    let (s2, p2) = if s1.text_started {
        (StateV { text_started: false, ..s1 }, seq![PartV::TextEnd(text_id())])
    } else {
        (s1, Seq::empty())
    };
    (StateV { tools: Seq::empty(), ..s2 }, p1 + p2 + tool_call_parts(s2.tools))
}

/// A finish reason closes everything and is recorded.
#[verifier::opaque]
pub open spec fn finish_step(s: StateV, reason: Option<Seq<char>>) -> (StateV, Seq<PartV>) {
    match reason {
        Some(r) => {
            let (s1, p1) = close_all(s);
            (StateV { finish: Some((chat_finish_reason_spec(r), Some(r))), ..s1 }, p1)
        },
        None => (s, Seq::empty()),
    }
}

/// The JSON of optional annotations.
pub open spec fn annotations_v(o: Option<Vec<JsonValue>>) -> Seq<Json> {
    match o {
        Some(v) => Seq::new(v@.len(), |i: int| v@[i]@),
        None => Seq::empty(),
    }
}

/// One choice of a chunk: log probabilities, reasoning, text, tool calls,
/// citations, finish reason.
#[verifier::opaque]
pub open spec fn choice_step(s: StateV, c: StreamChoice) -> (StateV, Seq<PartV>) {
    let s0 = match c.logprobs {
        Some(lp) => match json_get(lp@, "content"@) {
            Some(content) => StateV { logprobs: Some(content), ..s },
            None => s,
        },
        None => s,
    };
    let (s1, p1) = reasoning_step(s0, ochars(delta_reasoning_spec(c.delta)));
    let (s2, p2) = text_step(s1, ochars(c.delta.content));
    let (s3, p3) = tools_step(
        s2,
        match c.delta.tool_calls {
            Some(v) => Some(v@),
            None => None,
        },
    );
    let p4 = annotation_parts(annotations_v(c.delta.annotations));
    let (s5, p5) = finish_step(s3, ochars(c.finish_reason));
    (s5, p1 + p2 + p3 + p4 + p5)
}

/// The choices of a chunk, in order.
#[verifier::opaque]
pub open spec fn choices_step(s: StateV, cs: Seq<StreamChoice>) -> (StateV, Seq<PartV>)
    decreases cs.len(),
{
    if cs.len() == 0 {
        (s, Seq::empty())
    } else {
        let (s1, p1) = choices_step(s, cs.drop_last());
        let (s2, p2) = choice_step(s1, cs.last());
        (s2, p1 + p2)
    }
}

/// The raw usage document of an event: under the profile's key when it
/// has one, else at the top level.
pub open spec fn usage_raw_spec(event: Json, usage_key: Option<Seq<char>>) -> Option<Json> {
    match usage_key {
        Some(k) => match json_get(event, k) {
            Some(v) => json_get(v, "usage"@),
            None => None,
        },
        None => json_get(event, "usage"@),
    }
}

/// One event of the stream. After a provider error nothing happens. The
/// event is passed on raw when asked; an `error` member ends the stream
/// with an error part. A chunk (absent when the event is not one) yields
/// the response metadata once (from the first chunk with an id or model),
/// records the usage and runs its choices.
#[verifier::opaque]
pub open spec fn event_step(
    s: StateV,
    event: Json,
    chunk: Option<StreamChunk>,
    chunk_usage: Option<UsageResponse>,
    emit_raw: bool,
    usage_key: Option<Seq<char>>,
) -> (StateV, Seq<PartV>) {
    if s.errored {
        (s, Seq::empty())
    } else {
        let p0 = if emit_raw {
            seq![PartV::Raw(event)]
        } else {
            Seq::empty()
        };
        match json_get(event, "error"@) {
            Some(e) => (StateV { errored: true, ..s }, p0.push(PartV::Error(e))),
            None => match chunk {
                None => (s, p0),
                Some(c) => {
                    let (s1, p1) = if !s.metadata_emitted && (c.id is Some || c.model is Some) {
                        (
                            StateV { metadata_emitted: true, ..s },
                            seq![
                                PartV::ResponseMetadata(
                                    ochars(c.id),
                                    match c.created {
                                        Some(t) => rfc3339_of_secs(t),
                                        None => None,
                                    },
                                    ochars(c.model),
                                ),
                            ],
                        )
                    } else {
                        (s, Seq::empty())
                    };
                    let s2 = match chunk_usage {
                        Some(u) => StateV { usage: Some((u, usage_raw_spec(event, usage_key))), ..s1 },
                        None => s1,
                    };
                    let (s3, p3) = choices_step(s2, c.choices@);
                    (s3, p0 + p1 + p3)
                },
            },
        }
    }
}

/// The provider metadata of the finish part: the last log probabilities
/// and the accepted and rejected prediction tokens of the last usage.
pub open spec fn finish_metadata(s: StateV) -> Json {
    let m1 = match s.logprobs {
        Some(lp) => seq![("logprobs"@, lp)],
        Option::None => Seq::empty(),
    };
    let details = match s.usage {
        Some((u, _)) => u.completion_tokens_details,
        Option::None => Option::None,
    };
    let m2 = match details {
        Some(d) => match d.accepted_prediction_tokens {
            Some(n) => m1.push(("acceptedPredictionTokens"@, Json::Number(decimal_digits(n as nat)))),
            Option::None => m1,
        },
        Option::None => m1,
    };
    let m3 = match details {
        Some(d) => match d.rejected_prediction_tokens {
            Some(n) => m2.push(("rejectedPredictionTokens"@, Json::Number(decimal_digits(n as nat)))),
            Option::None => m2,
        },
        Option::None => m2,
    };
    Json::Object(seq![("openai"@, Json::Object(m3))])
}

/// The end of the stream: open segments and tool calls are closed, then
/// the finish part: an error finish with no usage after a provider error,
/// else the recorded finish reason (`stop` by default) and usage.
#[verifier::opaque]
pub open spec fn end_parts(s: StateV) -> Seq<PartV> {
    let (s1, p1) = close_all(s);
    let (unified, raw) = if s.errored {
        (FinishReasonUnified::Error, Option::None)
    } else {
        match s.finish {
            Some((u, r)) => (u, r),
            Option::None => (FinishReasonUnified::Stop, Option::None),
        }
    };
    let empty = TokenUsage::empty_spec();
    let (input, output, raw_usage) = if s.errored {
        (empty, empty, Option::None)
    } else {
        match s.usage {
            Some((u, r)) => (input_usage_spec(u), output_usage_spec(u), r),
            Option::None => (empty, empty, Option::None),
        }
    };
    p1.push(PartV::Finish(unified, raw, input, output, raw_usage, finish_metadata(s)))
}

// ── The machine ──────────────────────────────────────────────────────────

/// A tool call being assembled from deltas.
#[derive(Debug)]
pub struct ToolCallAccumulator {
    pub index: usize,
    pub id: String,
    pub name: String,
    pub arguments: String,
}

/// The state of a chat-completions stream.
#[derive(Debug)]
pub struct ChatStreamState {
    text_started: bool,
    reasoning_started: bool,
    metadata_emitted: bool,
    errored: bool,
    logprobs: Option<JsonValue>,
    finish: Option<FinishReason>,
    usage: Option<(UsageResponse, Option<JsonValue>)>,
    tools: Vec<ToolCallAccumulator>,
}

/// Tool calls by their contents.
pub open spec fn tools_v(t: Seq<ToolCallAccumulator>) -> Seq<(usize, Seq<char>, Seq<char>, Seq<char>)> {
    Seq::new(t.len(), |i: int| (t[i].index, t[i].id@, t[i].name@, t[i].arguments@))
}

impl View for ChatStreamState {
    type V = StateV;

    closed spec fn view(&self) -> StateV {
        StateV {
            text_started: self.text_started,
            reasoning_started: self.reasoning_started,
            metadata_emitted: self.metadata_emitted,
            errored: self.errored,
            logprobs: opt_json_view(self.logprobs),
            finish: match self.finish {
                Some(f) => Some((f.unified, ochars(f.raw))),
                Option::None => Option::None,
            },
            usage: match self.usage {
                Some((u, r)) => Some((u, opt_json_view(r))),
                Option::None => Option::None,
            },
            tools: tools_v(self.tools@),
        }
    }
}

/// Appends a part.
pub(crate) fn push_part(parts: &mut Vec<StreamPart>, p: StreamPart)
    ensures
        parts_v(final(parts)@) == parts_v(old(parts)@).push(part_v(p)),
{
    let ghost pv = part_v(p);
    parts.push(p);
    assert(parts_v(parts@) =~= parts_v(old(parts)@).push(pv));
}

/// The first tool call with the given index is found by scanning forward.
proof fn lemma_tool_pos(t: Seq<(usize, Seq<char>, Seq<char>, Seq<char>)>, index: usize, i: int)
    requires
        0 <= i <= t.len(),
        forall|j: int| 0 <= j < i ==> #[trigger] t[j].0 != index,
        i < t.len() ==> t[i].0 == index,
    ensures
        tool_pos(t, index) == (if i < t.len() {
            Some(i)
        } else {
            Option::None
        }),
    decreases t.len(),
{
    if t.len() > 0 {
        if i == t.len() {
            lemma_tool_pos(t.drop_last(), index, i - 1);
        } else if i < t.len() - 1 {
            lemma_tool_pos(t.drop_last(), index, i);
        } else {
            lemma_tool_pos(t.drop_last(), index, i);
        }
    }
}

impl ChatStreamState {
    /// The state at the start of a stream.
    pub fn new() -> (s: Self)
        ensures
            s@ == initial_state(),
    {
        let s = ChatStreamState {
            text_started: false,
            reasoning_started: false,
            metadata_emitted: false,
            errored: false,
            logprobs: None,
            finish: None,
            usage: None,
            tools: Vec::new(),
        };
        assert(s@ =~= initial_state());
        s
    }

    /// Whether the provider reported an error.
    pub fn errored(&self) -> (b: bool)
        ensures
            b == self@.errored,
    {
        self.errored
    }

    /// Closes an open reasoning segment.
    fn close_reasoning(&mut self, parts: &mut Vec<StreamPart>)
        ensures
            final(self)@ == close_reasoning(old(self)@).0,
            parts_v(final(parts)@) == parts_v(old(parts)@) + close_reasoning(old(self)@).1,
    {
        if self.reasoning_started {
            self.reasoning_started = false;
            push_part(parts, StreamPart::ReasoningEnd { id: String::from_str("reasoning-0") });
            assert(self@ =~= close_reasoning(old(self)@).0);
        } else {
            assert(parts_v(parts@) =~= parts_v(old(parts)@) + close_reasoning(old(self)@).1);
        }
    }

    /// A reasoning delta (see [`reasoning_step`]).
    fn reasoning(&mut self, r: Option<String>, parts: &mut Vec<StreamPart>)
        ensures
            final(self)@ == reasoning_step(old(self)@, ochars(r)).0,
            parts_v(final(parts)@) == parts_v(old(parts)@) + reasoning_step(old(self)@, ochars(r)).1,
    {
        reveal(reasoning_step);
        let ghost p0 = parts_v(parts@);
        match r {
            Some(t) => {
                if t.unicode_len() > 0 {
                    if !self.reasoning_started {
                        self.reasoning_started = true;
                        push_part(parts, StreamPart::ReasoningStart { id: String::from_str("reasoning-0") });
                    }
                    push_part(parts, StreamPart::ReasoningDelta { id: String::from_str("reasoning-0"), delta: t });
                    assert(self@ =~= reasoning_step(old(self)@, ochars(r)).0);
                    assert(parts_v(parts@) =~= p0 + reasoning_step(old(self)@, ochars(r)).1);
                } else {
                    assert(parts_v(parts@) =~= p0 + reasoning_step(old(self)@, ochars(r)).1);
                }
            },
            None => {
                assert(parts_v(parts@) =~= p0 + reasoning_step(old(self)@, ochars(r)).1);
            },
        }
    }

    /// A text delta (see [`text_step`]).
    fn text(&mut self, c: Option<String>, parts: &mut Vec<StreamPart>)
        ensures
            final(self)@ == text_step(old(self)@, ochars(c)).0,
            parts_v(final(parts)@) == parts_v(old(parts)@) + text_step(old(self)@, ochars(c)).1,
    {
        reveal(text_step);
        let ghost p0 = parts_v(parts@);
        match c {
            Some(t) => {
                self.close_reasoning(parts);
                let ghost p1 = parts_v(parts@);
                if !self.text_started {
                    self.text_started = true;
                    push_part(parts, StreamPart::TextStart { id: String::from_str("0") });
                }
                push_part(parts, StreamPart::TextDelta { id: String::from_str("0"), delta: t });
                assert(self@ =~= text_step(old(self)@, ochars(c)).0);
                assert(parts_v(parts@) =~= p0 + text_step(old(self)@, ochars(c)).1);
            },
            None => {
                assert(parts_v(parts@) =~= p0 + text_step(old(self)@, ochars(c)).1);
            },
        }
    }

    /// The position of the tool call with the given index.
    fn find_tool(&self, index: usize) -> (r: Option<usize>)
        ensures
            match r {
                Some(p) => tool_pos(self@.tools, index) == Some(p as int) && p < self.tools@.len(),
                Option::None => tool_pos(self@.tools, index) is None,
            },
    {
        let ghost tv = self@.tools;
        let mut i: usize = 0;
        while i < self.tools.len()
            invariant
                0 <= i <= self.tools@.len(),
                tv == tools_v(self.tools@),
                forall|j: int| 0 <= j < i ==> #[trigger] tv[j].0 != index,
            decreases self.tools@.len() - i,
        {
            if self.tools[i].index == index {
                proof {
                    lemma_tool_pos(tv, index, i as int);
                }
                return Some(i);
            }
            i += 1;
        }
        proof {
            lemma_tool_pos(tv, index, i as int);
        }
        None
    }

    /// One tool-call delta (see [`tool_delta_step`]).
    fn tool_delta(&mut self, d: DeltaToolCall, parts: &mut Vec<StreamPart>)
        ensures
            final(self)@ == tool_delta_step(old(self)@, d).0,
            parts_v(final(parts)@) == parts_v(old(parts)@) + tool_delta_step(old(self)@, d).1,
    {
        let ghost p0 = parts_v(parts@);
        let ghost dv = d;
        let found = self.find_tool(d.index);
        let DeltaToolCall { index, id, function } = d;
        let (fname, fargs) = match function {
            Some(f) => (f.name, f.arguments),
            None => (None, None),
        };
        let is_new = found.is_none();
        if is_new {
            let id = match id {
                Some(s) => s,
                None => String::new(),
            };
            let name = match fname {
                Some(s) => s,
                None => String::new(),
            };
            let ghost tv0 = self@.tools;
            push_part(parts, StreamPart::ToolInputStart { id: id.clone(), tool_name: name.clone() });
            self.tools.push(ToolCallAccumulator { index, id, name, arguments: String::new() });
            proof {
                assert(tools_v(self.tools@) =~= tv0.push((dv.index, or_empty(ochars(dv.id)), or_empty(delta_name(dv)), Seq::empty())));
            }
        }
        let ghost s1 = self@;
        let ghost p1 = parts_v(parts@);
        match fargs {
            Some(a) => {
                if !is_new || a.unicode_len() > 0 {
                    let p = self.find_tool(index);
                    match p {
                        Some(p) => {
                            let mut tools: Vec<ToolCallAccumulator> = Vec::new();
                            std::mem::swap(&mut tools, &mut self.tools);
                            let acc_id = tools[p].id.clone();
                            let acc = ToolCallAccumulator {
                                index: tools[p].index,
                                id: tools[p].id.clone(),
                                name: tools[p].name.clone(),
                                arguments: concat(tools[p].arguments.as_str(), a.as_str()),
                            };
                            let ghost t0 = tools@;
                            tools.set(p, acc);
                            self.tools = tools;
                            push_part(parts, StreamPart::ToolInputDelta { id: acc_id, delta: a });
                            proof {
                                let old_acc = tools_v(t0)[p as int];
                                assert(tools_v(self.tools@) =~= tools_v(t0).update(
                                    p as int,
                                    (old_acc.0, old_acc.1, old_acc.2, old_acc.3 + a@),
                                ));
                            }
                            assert(self@ =~= tool_delta_step(old(self)@, dv).0);
                            assert(parts_v(parts@) =~= p0 + tool_delta_step(old(self)@, dv).1);
                        },
                        None => {
                            assert(false);
                        },
                    }
                } else {
                    assert(self@ =~= tool_delta_step(old(self)@, dv).0);
                    assert(parts_v(parts@) =~= p0 + tool_delta_step(old(self)@, dv).1);
                }
            },
            None => {
                assert(self@ =~= tool_delta_step(old(self)@, dv).0);
                assert(parts_v(parts@) =~= p0 + tool_delta_step(old(self)@, dv).1);
            },
        }
    }
}

impl ChatStreamState {
    /// Tool-call deltas (see [`tools_step`]).
    fn tool_deltas(&mut self, ds: Option<Vec<DeltaToolCall>>, parts: &mut Vec<StreamPart>)
        ensures
            final(self)@ == tools_step(
                old(self)@,
                match ds {
                    Some(v) => Some(v@),
                    Option::None => Option::None,
                },
            ).0,
            parts_v(final(parts)@) == parts_v(old(parts)@) + tools_step(
                old(self)@,
                match ds {
                    Some(v) => Some(v@),
                    Option::None => Option::None,
                },
            ).1,
    {
        reveal(tools_step);
        let ghost p0 = parts_v(parts@);
        match ds {
            Some(v) => {
                self.close_reasoning(parts);
                let ghost s1 = self@;
                let ghost p1 = parts_v(parts@);
                let ghost all = v@;
                let mut rest = v;
                let mut i: usize = 0;
                let n = rest.len();
                proof {
                    assert(all.subrange(0, 0) =~= Seq::<DeltaToolCall>::empty());
                    assert(p1 + Seq::<PartV>::empty() =~= p1);
                }
                while rest.len() > 0
                    invariant
                        all.len() == n,
                        i + rest@.len() == n,
                        rest@ == all.subrange(i as int, n as int),
                        self@ == tool_deltas_step(s1, all.subrange(0, i as int)).0,
                        parts_v(parts@) == p1 + tool_deltas_step(s1, all.subrange(0, i as int)).1,
                    decreases rest@.len(),
                {
                    let d = rest.remove(0);
                    proof {
                        assert(d == all[i as int]);
                        assert(all.subrange(0, i + 1).drop_last() =~= all.subrange(0, i as int));
                        assert(rest@ =~= all.subrange(i + 1, n as int));
                    }
                    let ghost before = parts_v(parts@);
                    self.tool_delta(d, parts);
                    proof {
                        let (_, pa) = tool_deltas_step(s1, all.subrange(0, i as int));
                        let (_, pb) = tool_delta_step(tool_deltas_step(s1, all.subrange(0, i as int)).0, all[i as int]);
                        assert(parts_v(parts@) =~= p1 + (pa + pb));
                    }
                    i += 1;
                }
                proof {
                    assert(all.subrange(0, n as int) =~= all);
                    assert(parts_v(parts@) =~= p0 + tools_step(old(self)@, Some(all)).1);
                }
            },
            None => {
                assert(parts_v(parts@) =~= p0 + Seq::<PartV>::empty());
            },
        }
    }

    /// Closes the open segments and ends the tool calls (see [`close_all`]).
    fn close_all(&mut self, parts: &mut Vec<StreamPart>)
        ensures
            final(self)@ == close_all(old(self)@).0,
            parts_v(final(parts)@) == parts_v(old(parts)@) + close_all(old(self)@).1,
    {
        reveal(close_all);
        let ghost p0 = parts_v(parts@);
        self.close_reasoning(parts);
        if self.text_started {
            self.text_started = false;
            push_part(parts, StreamPart::TextEnd { id: String::from_str("0") });
        }
        let ghost p2 = parts_v(parts@);
        let mut tools: Vec<ToolCallAccumulator> = Vec::new();
        std::mem::swap(&mut tools, &mut self.tools);
        let ghost tv = tools_v(tools@);
        let mut i: usize = 0;
        assert(p2 + tool_call_parts(tv.subrange(0, 0)) =~= p2);
        while i < tools.len()
            invariant
                0 <= i <= tools@.len(),
                tv == tools_v(tools@),
                parts_v(parts@) == p2 + tool_call_parts(tv.subrange(0, i as int)),
            decreases tools@.len() - i,
        {
            let t = &tools[i];
            let ghost before = parts_v(parts@);
            push_part(parts, StreamPart::ToolInputEnd { id: t.id.clone() });
            push_part(
                parts,
                StreamPart::ToolCall { tool_call_id: t.id.clone(), tool_name: t.name.clone(), arguments: t.arguments.clone() },
            );
            proof {
                assert(tv.subrange(0, i + 1).drop_last() =~= tv.subrange(0, i as int));
                assert(parts_v(parts@) =~= p2 + tool_call_parts(tv.subrange(0, i + 1)));
            }
            i += 1;
        }
        proof {
            assert(tv.subrange(0, tools@.len() as int) =~= tv);
        }
        assert(self@ =~= close_all(old(self)@).0);
        assert(parts_v(parts@) =~= p0 + close_all(old(self)@).1);
    }

    /// A finish reason (see [`finish_step`]).
    fn finish_reason(&mut self, reason: Option<String>, parts: &mut Vec<StreamPart>)
        ensures
            final(self)@ == finish_step(old(self)@, ochars(reason)).0,
            parts_v(final(parts)@) == parts_v(old(parts)@) + finish_step(old(self)@, ochars(reason)).1,
    {
        reveal(finish_step);
        match reason {
            Some(r) => {
                self.close_all(parts);
                self.finish = Some(parse_finish_reason(r.as_str()));
                assert(self@ =~= finish_step(old(self)@, ochars(Some(r))).0);
            },
            None => {
                assert(parts_v(parts@) =~= parts_v(old(parts)@) + Seq::<PartV>::empty());
            },
        }
    }
}

/// The string member `key` of a value, copied.
pub(crate) fn str_of_value(j: &JsonValue, key: &str) -> (r: Option<String>)
    ensures
        ochars(r) == str_of(j@, key@),
{
    match j.get(key) {
        Some(JsonValue::String(s)) => Some(s.clone()),
        _ => None,
    }
}

/// The sources of the URL citations among annotations.
fn annotations_to_parts(anns: &Option<Vec<JsonValue>>, parts: &mut Vec<StreamPart>)
    ensures
        parts_v(final(parts)@) == parts_v(old(parts)@) + annotation_parts(annotations_v(*anns)),
{
    let ghost p0 = parts_v(parts@);
    match anns {
        Some(v) => {
            let ghost av = annotations_v(*anns);
            let mut i: usize = 0;
            assert(p0 + annotation_parts(av.subrange(0, 0)) =~= p0);
            while i < v.len()
                invariant
                    0 <= i <= v@.len(),
                    av == Seq::new(v@.len(), |k: int| v@[k]@),
                    parts_v(parts@) == p0 + annotation_parts(av.subrange(0, i as int)),
                decreases v@.len() - i,
            {
                let ann = &v[i];
                let ghost before = parts_v(parts@);
                proof {
                    assert(av.subrange(0, i + 1).drop_last() =~= av.subrange(0, i as int));
                    assert(av.subrange(0, i + 1).last() == ann@);
                }
                let ty = str_of_value(ann, "type");
                let is_citation = match &ty {
                    Some(t) => str_eq(t.as_str(), "url_citation"),
                    None => false,
                };
                proof {
                    reveal_strlit("url_citation");
                }
                if is_citation {
                    match ann.get("url_citation") {
                        Some(uc) => {
                            let id = concat("annotation-", u64_to_decimal(i as u64).as_str());
                            push_part(
                                parts,
                                StreamPart::Source { id, url: str_of_value(uc, "url"), title: str_of_value(uc, "title") },
                            );
                        },
                        None => {},
                    }
                }
                proof {
                    assert(parts_v(parts@) =~= before + annotation_part(ann@, i as nat));
                    assert(parts_v(parts@) =~= p0 + annotation_parts(av.subrange(0, i + 1)));
                }
                i += 1;
            }
            assert(av.subrange(0, v@.len() as int) =~= av);
        },
        None => {
            assert(parts_v(parts@) =~= p0 + annotation_parts(Seq::empty()));
        },
    }
}

impl ChatStreamState {
    /// One choice of a chunk (see [`choice_step`]).
    fn choice(&mut self, c: StreamChoice, parts: &mut Vec<StreamPart>)
        ensures
            final(self)@ == choice_step(old(self)@, c).0,
            parts_v(final(parts)@) == parts_v(old(parts)@) + choice_step(old(self)@, c).1,
    {
        reveal(choice_step);
        let ghost cv = c;
        let ghost p0 = parts_v(parts@);
        match &c.logprobs {
            Some(lp) => match lp.get("content") {
                Some(content) => {
                    self.logprobs = Some(content.deep_copy());
                },
                None => {},
            },
            None => {},
        }
        let reasoning = match c.delta.reasoning_text() {
            Some(r) => Some(r.clone()),
            None => None,
        };
        let StreamChoice { delta, finish_reason, logprobs: _ } = c;
        let ghost s0 = self@;
        assert(s0 =~= choice_step_s0(old(self)@, cv));
        self.reasoning(reasoning, parts);
        let ghost pa = parts_v(parts@);
        let crate::openai::types::Delta { content, reasoning: _, reasoning_content: _, tool_calls, annotations } = delta;
        self.text(content, parts);
        let ghost pb = parts_v(parts@);
        self.tool_deltas(tool_calls, parts);
        let ghost pc = parts_v(parts@);
        annotations_to_parts(&annotations, parts);
        let ghost pd = parts_v(parts@);
        self.finish_reason(finish_reason, parts);
        proof {
            assert(parts_v(parts@) =~= p0 + choice_step(old(self)@, cv).1);
        }
    }
}

/// The state after a choice's log probabilities.
pub open spec fn choice_step_s0(s: StateV, c: StreamChoice) -> StateV {
    match c.logprobs {
        Some(lp) => match json_get(lp@, "content"@) {
            Some(content) => StateV { logprobs: Some(content), ..s },
            Option::None => s,
        },
        Option::None => s,
    }
}

/// The raw usage document of an event (see [`usage_raw_spec`]), copied.
pub fn stream_usage_raw(event: &JsonValue, usage_key: Option<&str>) -> (r: Option<JsonValue>)
    ensures
        opt_json_view(r) == usage_raw_spec(event@, crate::replay::opt_str(usage_key)),
{
    let u = match usage_key {
        Some(k) => match event.get(k) {
            Some(v) => v.get("usage"),
            None => None,
        },
        None => event.get("usage"),
    };
    match u {
        Some(v) => Some(v.deep_copy()),
        None => None,
    }
}

/// The provider metadata of the finish part (see [`finish_metadata`]).
fn finish_metadata_of(logprobs: &Option<JsonValue>, usage: &Option<(UsageResponse, Option<JsonValue>)>) -> (j: JsonValue)
    ensures
        j@ == finish_metadata(
            StateV {
                text_started: false,
                reasoning_started: false,
                metadata_emitted: false,
                errored: false,
                logprobs: opt_json_view(*logprobs),
                finish: Option::None,
                usage: match *usage {
                    Some((u, r)) => Some((u, opt_json_view(r))),
                    Option::None => Option::None,
                },
                tools: Seq::empty(),
            },
        ),
{
    let mut m: Vec<(String, JsonValue)> = Vec::new();
    assert(members_view(m@) =~= Seq::<(Seq<char>, Json)>::empty());
    match logprobs {
        Some(lp) => push_member(&mut m, "logprobs", lp.deep_copy()),
        None => {},
    }
    let ghost m1 = members_view(m@);
    match usage {
        Some((u, _)) => match &u.completion_tokens_details {
            Some(d) => {
                match d.accepted_prediction_tokens {
                    Some(n) => push_member(&mut m, "acceptedPredictionTokens", JsonValue::Number(u64_to_decimal(n as u64))),
                    None => {},
                }
                match d.rejected_prediction_tokens {
                    Some(n) => push_member(&mut m, "rejectedPredictionTokens", JsonValue::Number(u64_to_decimal(n as u64))),
                    None => {},
                }
            },
            None => {},
        },
        None => {},
    }
    let ghost mv = members_view(m@);
    let mut o: Vec<(String, JsonValue)> = Vec::new();
    assert(members_view(o@) =~= Seq::<(Seq<char>, Json)>::empty());
    push_member(&mut o, "openai", JsonValue::Object(m));
    assert(members_view(o@) =~= seq![("openai"@, Json::Object(mv))]);
    JsonValue::Object(o)
}

impl ChatStreamState {
    /// The choices of a chunk, in order (see [`choices_step`]).
    fn choices(&mut self, cs: Vec<StreamChoice>, parts: &mut Vec<StreamPart>)
        ensures
            final(self)@ == choices_step(old(self)@, cs@).0,
            parts_v(final(parts)@) == parts_v(old(parts)@) + choices_step(old(self)@, cs@).1,
    {
        let ghost s0 = self@;
        let ghost p0 = parts_v(parts@);
        let ghost all = cs@;
        let mut rest = cs;
        let n = rest.len();
        let mut i: usize = 0;
        proof {
            reveal(choices_step);
            assert(all.subrange(0, 0) =~= Seq::<StreamChoice>::empty());
            assert(p0 + Seq::<PartV>::empty() =~= p0);
        }
        while rest.len() > 0
            invariant
                all.len() == n,
                i + rest@.len() == n,
                rest@ == all.subrange(i as int, n as int),
                self@ == choices_step(s0, all.subrange(0, i as int)).0,
                parts_v(parts@) == p0 + choices_step(s0, all.subrange(0, i as int)).1,
            decreases rest@.len(),
        {
            let c = rest.remove(0);
            proof {
                reveal(choices_step);
                assert(c == all[i as int]);
                assert(all.subrange(0, i + 1).drop_last() =~= all.subrange(0, i as int));
                assert(rest@ =~= all.subrange(i + 1, n as int));
            }
            self.choice(c, parts);
            proof {
                reveal(choices_step);
                let (_, pa) = choices_step(s0, all.subrange(0, i as int));
                let (_, pb) = choice_step(choices_step(s0, all.subrange(0, i as int)).0, all[i as int]);
                assert(parts_v(parts@) =~= p0 + (pa + pb));
            }
            i += 1;
        }
        proof {
            assert(all.subrange(0, n as int) =~= all);
        }
    }

    /// One event of the stream (see [`event_step`]): the event as JSON, the
    /// chunk it is (none when it is not one), the usage document of the
    /// event read as a usage object (see [`stream_usage_raw`]), whether raw
    /// events are passed on, and the profile's usage key.
    pub fn on_event(
        &mut self,
        event: &JsonValue,
        chunk: Option<StreamChunk>,
        chunk_usage: Option<UsageResponse>,
        emit_raw: bool,
        usage_key: Option<&str>,
    ) -> (parts: Vec<StreamPart>)
        ensures
            final(self)@ == event_step(
                old(self)@,
                event@,
                chunk,
                chunk_usage,
                emit_raw,
                crate::replay::opt_str(usage_key),
            ).0,
            parts_v(parts@) == event_step(
                old(self)@,
                event@,
                chunk,
                chunk_usage,
                emit_raw,
                crate::replay::opt_str(usage_key),
            ).1,
    {
        reveal(event_step);
        let mut parts: Vec<StreamPart> = Vec::new();
        assert(parts_v(parts@) =~= Seq::<PartV>::empty());
        if self.errored {
            return parts;
        }
        if emit_raw {
            push_part(&mut parts, StreamPart::Raw { raw_value: event.deep_copy() });
        }
        let ghost p0 = parts_v(parts@);
        match event.get("error") {
            Some(e) => {
                self.errored = true;
                push_part(&mut parts, StreamPart::Error { error: e.deep_copy() });
                assert(self@ =~= event_step(
                    old(self)@,
                    event@,
                    chunk,
                    chunk_usage,
                    emit_raw,
                    crate::replay::opt_str(usage_key),
                ).0);
                return parts;
            },
            None => {},
        }
        let ghost cv = chunk;
        let c = match chunk {
            Some(c) => c,
            None => {
                return parts;
            },
        };
        let usage_raw = stream_usage_raw(event, usage_key);
        let StreamChunk { id, model, created, choices, usage: _, x_groq: _ } = c;
        if !self.metadata_emitted && (id.is_some() || model.is_some()) {
            self.metadata_emitted = true;
            let timestamp = match created {
                Some(t) => rfc3339_from_secs(t),
                None => None,
            };
            push_part(&mut parts, StreamPart::ResponseMetadata { id, timestamp, model_id: model });
        }
        match chunk_usage {
            Some(u) => {
                self.usage = Some((u, usage_raw));
            },
            None => {},
        }
        let ghost s2 = self@;
        proof {
            let (s1, _) = if !old(self)@.metadata_emitted && (cv.unwrap().id is Some || cv.unwrap().model is Some) {
                (StateV { metadata_emitted: true, ..old(self)@ }, Seq::<PartV>::empty())
            } else {
                (old(self)@, Seq::<PartV>::empty())
            };
            assert(s2 =~= match chunk_usage {
                Some(u) => StateV { usage: Some((u, usage_raw_spec(event@, crate::replay::opt_str(usage_key)))), ..s1 },
                Option::None => s1,
            });
        }
        let ghost pm = parts_v(parts@);
        self.choices(choices, &mut parts);
        proof {
            assert(parts_v(parts@) =~= event_step(
                old(self)@,
                event@,
                cv,
                chunk_usage,
                emit_raw,
                crate::replay::opt_str(usage_key),
            ).1);
        }
        parts
    }

    /// The end of the stream (see [`end_parts`]).
    pub fn end(self) -> (parts: Vec<StreamPart>)
        ensures
            parts_v(parts@) == end_parts(self@),
    {
        reveal(end_parts);
        reveal(close_all);
        let ghost s0 = self@;
        let mut st = self;
        let mut parts: Vec<StreamPart> = Vec::new();
        assert(parts_v(parts@) =~= Seq::<PartV>::empty());
        st.close_all(&mut parts);
        let metadata = finish_metadata_of(&st.logprobs, &st.usage);
        proof {
            assert(finish_metadata(s0) == finish_metadata(
                StateV {
                    text_started: false,
                    reasoning_started: false,
                    metadata_emitted: false,
                    errored: false,
                    logprobs: opt_json_view(st.logprobs),
                    finish: Option::None,
                    usage: match st.usage {
                        Some((u, r)) => Some((u, opt_json_view(r))),
                        Option::None => Option::None,
                    },
                    tools: Seq::empty(),
                },
            ));
        }
        let ChatStreamState { errored, finish, usage, .. } = st;
        let finish_reason = if errored {
            FinishReason { unified: FinishReasonUnified::Error, raw: None }
        } else {
            match finish {
                Some(f) => f,
                None => FinishReason { unified: FinishReasonUnified::Stop, raw: None },
            }
        };
        let usage = if errored {
            Usage::empty()
        } else {
            match usage {
                Some((u, raw)) => convert_usage(&u, raw.as_ref()),
                None => Usage::empty(),
            }
        };
        push_part(&mut parts, StreamPart::Finish { finish_reason, usage, provider_metadata: metadata });
        parts
    }
}

/// The first part of a stream: its start, carrying the request's warnings.
pub fn start_parts(warnings: Vec<Warning>) -> (p: Vec<StreamPart>)
    ensures
        parts_v(p@) == seq![PartV::StreamStart(warnings_view(warnings@))],
{
    let ghost wv = warnings_view(warnings@);
    let mut p: Vec<StreamPart> = Vec::new();
    p.push(StreamPart::StreamStart { warnings });
    assert(parts_v(p@) =~= seq![PartV::StreamStart(wv)]);
    p
}

} // verus!
