//! The decisions of an Open Responses stream: from each parsed event to
//! the stream parts it gives, and the parts that close the stream.

use vstd::prelude::*;

use crate::json::{json_get, opt_json_view, Json, JsonValue};
use crate::open_responses::{
    extract_usage_from_value, map_open_responses_finish_reason, nested_count, or_zero, usage_count,
    usage_document_consistent,
};
use crate::openai::responses::responses_finish_reason_spec;
use crate::openai::stream::{ochars, or_empty, part_v, parts_v, push_part, str_of, str_of_value, PartV, StreamPart};
use crate::json_read::{json_parsed, parse_json};
use crate::text::{concat, str_eq};
use crate::usage::{FinishReason, FinishReasonUnified, TokenUsage, Usage};

verus! {

broadcast use vstd::std_specs::vec::group_vec_axioms;

// ── The model ────────────────────────────────────────────────────────────

/// A function call being assembled: its name, call id and arguments so far.
#[derive(Debug)]
pub struct ToolCallAccum {
    pub tool_name: Option<String>,
    pub tool_call_id: Option<String>,
    pub arguments: Option<String>,
}

/// A function call being assembled, by its texts.
pub struct AccumV {
    pub name: Option<Seq<char>>,
    pub call_id: Option<Seq<char>>,
    pub args: Option<Seq<char>>,
}

/// An accumulator by its texts.
pub open spec fn accum_v(a: ToolCallAccum) -> AccumV {
    AccumV { name: ochars(a.tool_name), call_id: ochars(a.tool_call_id), args: ochars(a.arguments) }
}

/// The state of a stream by its contents: the function calls being
/// assembled, keyed by item id (each key once); whether a function call
/// was completed; whether a reasoning segment is open; the finish reason
/// and the usage (counts and document) so far.
#[verifier::ext_equal]
pub struct OpenStreamV {
    pub tools: Seq<(Seq<char>, AccumV)>,
    pub has_tool_calls: bool,
    pub active_reasoning: bool,
    pub finish: (FinishReasonUnified, Option<Seq<char>>),
    pub usage: (TokenUsage, TokenUsage, Option<Json>),
}

/// The state at the start of a stream: no finish reason but `other`, no
/// usage.
pub open spec fn open_stream_initial() -> OpenStreamV {
    OpenStreamV {
        tools: Seq::empty(),
        has_tool_calls: false,
        active_reasoning: false,
        finish: (FinishReasonUnified::Other, None),
        usage: (TokenUsage::empty_spec(), TokenUsage::empty_spec(), None),
    }
}

/// The position of key `k` among the calls being assembled.
pub open spec fn key_index(tools: Seq<(Seq<char>, AccumV)>, k: Seq<char>) -> Option<int>
    decreases tools.len(),
{
    if tools.len() == 0 {
        None
    } else {
        match key_index(tools.drop_last(), k) {
            Some(i) => Some(i),
            None => if tools.last().0 == k {
                Some(tools.len() - 1)
            } else {
                None
            },
        }
    }
}

/// The calls with the one under key `k` set to `a` (added when absent).
pub open spec fn put(tools: Seq<(Seq<char>, AccumV)>, k: Seq<char>, a: AccumV) -> Seq<(Seq<char>, AccumV)> {
    match key_index(tools, k) {
        Some(i) => tools.update(i, (k, a)),
        None => tools.push((k, a)),
    }
}

/// The usage of a usage document: input and output totals, cache reads
/// and reasoning, no-cache input and text output as the differences; the
/// document itself.
pub open spec fn usage_of(u: Json) -> (TokenUsage, TokenUsage, Option<Json>) {
    (
        TokenUsage {
            total: usage_count(u, "input_tokens"@),
            no_cache: Some(
                (or_zero(usage_count(u, "input_tokens"@)) - or_zero(
                    nested_count(u, "input_tokens_details"@, "cached_tokens"@),
                )) as u32,
            ),
            cache_read: nested_count(u, "input_tokens_details"@, "cached_tokens"@),
            cache_write: None,
            text: None,
            reasoning: None,
        },
        TokenUsage {
            total: usage_count(u, "output_tokens"@),
            no_cache: None,
            cache_read: None,
            cache_write: None,
            text: Some(
                (or_zero(usage_count(u, "output_tokens"@)) - or_zero(
                    nested_count(u, "output_tokens_details"@, "reasoning_tokens"@),
                )) as u32,
            ),
            reasoning: nested_count(u, "output_tokens_details"@, "reasoning_tokens"@),
        },
        Some(u),
    )
}

/// A string member of a nested object (`outer.inner`).
pub open spec fn nested_str(j: Json, outer: Seq<char>, inner: Seq<char>) -> Option<Seq<char>> {
    match json_get(j, outer) {
        Some(o) => str_of(o, inner),
        None => None,
    }
}

/// The usage after a final event's response: its `usage`, when present.
pub open spec fn usage_after(
    s: (TokenUsage, TokenUsage, Option<Json>),
    response: Json,
) -> (TokenUsage, TokenUsage, Option<Json>) {
    match json_get(response, "usage"@) {
        Some(u) => usage_of(u),
        None => s,
    }
}

/// An event's usage documents keep their parts within their totals (a
/// usage that does not cannot be reported).
pub open spec fn event_usage_ok(chunk: Json) -> bool {
    match json_get(chunk, "response"@) {
        Some(r) => match json_get(r, "usage"@) {
            Some(u) => usage_document_consistent(u),
            None => true,
        },
        None => true,
    }
}

/// An item added: a function call opens under its item id, a reasoning
/// item opens a reasoning segment, a message opens a text segment.
pub open spec fn item_added_step(s: OpenStreamV, chunk: Json) -> (OpenStreamV, Seq<PartV>) {
    match json_get(chunk, "item"@) {
        Some(item) => {
            let it = or_empty(str_of(item, "type"@));
            let id = or_empty(str_of(item, "id"@));
            if it == "function_call"@ {
                (
                    OpenStreamV {
                        tools: put(
                            s.tools,
                            id,
                            AccumV {
                                name: str_of(item, "name"@),
                                call_id: str_of(item, "call_id"@),
                                args: str_of(item, "arguments"@),
                            },
                        ),
                        ..s
                    },
                    Seq::empty(),
                )
            } else if it == "reasoning"@ {
                (OpenStreamV { active_reasoning: true, ..s }, seq![PartV::ReasoningStart(id)])
            } else if it == "message"@ {
                (s, seq![PartV::TextStart(id)])
            } else {
                (s, Seq::empty())
            }
        },
        None => (s, Seq::empty()),
    }
}

/// Arguments for the call under `id`: appended to what it has (`extend`)
/// or replacing it; a call not seen yet starts with them.
pub open spec fn args_step(s: OpenStreamV, id: Seq<char>, a: Seq<char>, extend: bool) -> OpenStreamV {
    let tools = match key_index(s.tools, id) {
        Some(i) => s.tools.update(
            i,
            (
                id,
                AccumV {
                    args: Some(
                        if extend {
                            or_empty(s.tools[i].1.args) + a
                        } else {
                            a
                        },
                    ),
                    ..s.tools[i].1
                },
            ),
        ),
        None => s.tools.push((id, AccumV { name: None, call_id: None, args: Some(a) })),
    };
    OpenStreamV { tools, ..s }
}

/// An assembled field, else the item's own, else empty.
pub open spec fn field_or(assembled: Option<Seq<char>>, item: Json, key: Seq<char>) -> Seq<char> {
    match assembled {
        Some(v) => v,
        None => or_empty(str_of(item, key)),
    }
}

/// An item done: a function call completes (what was assembled first, the
/// item's own fields second) and is removed; a reasoning item closes the
/// reasoning segment; a message closes its text segment.
pub open spec fn item_done_step(s: OpenStreamV, chunk: Json) -> (OpenStreamV, Seq<PartV>) {
    match json_get(chunk, "item"@) {
        Some(item) => {
            let it = or_empty(str_of(item, "type"@));
            let id = or_empty(str_of(item, "id"@));
            if it == "function_call"@ {
                let (acc, tools) = match key_index(s.tools, id) {
                    Some(i) => (s.tools[i].1, s.tools.remove(i)),
                    None => (AccumV { name: None, call_id: None, args: None }, s.tools),
                };
                (
                    OpenStreamV { tools, has_tool_calls: true, ..s },
                    seq![
                        PartV::ToolCall(
                            field_or(acc.call_id, item, "call_id"@),
                            field_or(acc.name, item, "name"@),
                            field_or(acc.args, item, "arguments"@),
                        ),
                    ],
                )
            } else if it == "reasoning"@ {
                (OpenStreamV { active_reasoning: false, ..s }, seq![PartV::ReasoningEnd(id)])
            } else if it == "message"@ {
                (s, seq![PartV::TextEnd(id)])
            } else {
                (s, Seq::empty())
            }
        },
        None => (s, Seq::empty()),
    }
}

/// A final event's response: `failed` makes the finish an error with the
/// error code (or the status); otherwise the finish reason follows the
/// incomplete reason. The usage is taken when present.
pub open spec fn final_step(s: OpenStreamV, chunk: Json, failed: bool) -> OpenStreamV {
    match json_get(chunk, "response"@) {
        Some(r) => {
            let finish = if failed {
                (
                    FinishReasonUnified::Error,
                    match nested_str(r, "error"@, "code"@) {
                        Some(c) => Some(c),
                        None => str_of(r, "status"@),
                    },
                )
            } else {
                let reason = nested_str(r, "incomplete_details"@, "reason"@);
                (responses_finish_reason_spec(reason, s.has_tool_calls), reason)
            };
            OpenStreamV { finish, usage: usage_after(s.usage, r), ..s }
        },
        None => s,
    }
}

/// The state and parts after one event, by its `type`: items added and
/// done (see [`item_added_step`], [`item_done_step`]); argument deltas
/// extend a call's arguments and the final arguments replace them (see
/// [`args_step`]); text and reasoning deltas pass on; `completed`,
/// `incomplete` and `failed` settle the finish reason and usage (see
/// [`final_step`]). Other events change nothing.
#[verifier::opaque]
pub open spec fn open_event_step(s: OpenStreamV, chunk: Json) -> (OpenStreamV, Seq<PartV>) {
    let t = or_empty(str_of(chunk, "type"@));
    if t == "response.output_item.added"@ {
        item_added_step(s, chunk)
    } else if t == "response.function_call_arguments.delta"@ {
        (args_step(s, or_empty(str_of(chunk, "item_id"@)), or_empty(str_of(chunk, "delta"@)), true), Seq::empty())
    } else if t == "response.function_call_arguments.done"@ {
        (
            args_step(s, or_empty(str_of(chunk, "item_id"@)), or_empty(str_of(chunk, "arguments"@)), false),
            Seq::empty(),
        )
    } else if t == "response.output_item.done"@ {
        item_done_step(s, chunk)
    } else if t == "response.reasoning_text.delta"@ {
        (
            s,
            seq![PartV::ReasoningDelta(or_empty(str_of(chunk, "item_id"@)), or_empty(str_of(chunk, "delta"@)))],
        )
    } else if t == "response.output_text.delta"@ {
        (s, seq![PartV::TextDelta(or_empty(str_of(chunk, "item_id"@)), or_empty(str_of(chunk, "delta"@)))])
    } else if t == "response.completed"@ || t == "response.incomplete"@ {
        (final_step(s, chunk, false), Seq::empty())
    } else if t == "response.failed"@ {
        (final_step(s, chunk, true), Seq::empty())
    } else {
        (s, Seq::empty())
    }
}

proof fn lemma_event_type_names()
    ensures
        "response.incomplete"@ != "response.output_item.added"@,
        "response.incomplete"@ != "response.function_call_arguments.delta"@,
        "response.incomplete"@ != "response.function_call_arguments.done"@,
        "response.incomplete"@ != "response.output_item.done"@,
        "response.incomplete"@ != "response.reasoning_text.delta"@,
        "response.incomplete"@ != "response.output_text.delta"@,
        "response.completed"@ != "response.output_item.added"@,
        "response.completed"@ != "response.function_call_arguments.delta"@,
        "response.completed"@ != "response.function_call_arguments.done"@,
        "response.completed"@ != "response.output_item.done"@,
        "response.completed"@ != "response.reasoning_text.delta"@,
        "response.completed"@ != "response.output_text.delta"@,
        "response.incomplete"@ != "response.completed"@,
        "max_output_tokens"@ != "content_filter"@,
        "response.failed"@ != "response.output_item.added"@,
        "response.failed"@ != "response.function_call_arguments.delta"@,
        "response.failed"@ != "response.function_call_arguments.done"@,
        "response.failed"@ != "response.output_item.done"@,
        "response.failed"@ != "response.reasoning_text.delta"@,
        "response.failed"@ != "response.output_text.delta"@,
        "response.failed"@ != "response.completed"@,
        "response.failed"@ != "response.incomplete"@,
{
    reveal_strlit("response.failed");
    assert("response.failed"@.len() == 15);
    reveal_strlit("response.incomplete");
    reveal_strlit("response.completed");
    reveal_strlit("response.output_item.added");
    reveal_strlit("response.function_call_arguments.delta");
    reveal_strlit("response.function_call_arguments.done");
    reveal_strlit("response.output_item.done");
    reveal_strlit("response.reasoning_text.delta");
    reveal_strlit("response.output_text.delta");
    reveal_strlit("max_output_tokens");
    reveal_strlit("content_filter");
    assert("response.incomplete"@.len() == 19);
    assert("response.completed"@.len() == 18);
    assert("response.output_item.added"@.len() == 26);
    assert("response.output_text.delta"@.len() == 26);
    assert("response.output_item.done"@.len() == 25);
    assert("response.reasoning_text.delta"@.len() == 29);
    assert("response.function_call_arguments.delta"@.len() == 38);
    assert("response.function_call_arguments.done"@.len() == 37);
    assert("max_output_tokens"@.len() != "content_filter"@.len());
}

/// A `response.incomplete` event settles the stream exactly as a
/// `response.completed` event carrying the same response does.
pub proof fn law_incomplete_settles_like_completed(s: OpenStreamV, incomplete: Json, completed: Json)
    requires
        str_of(incomplete, "type"@) == Some("response.incomplete"@),
        str_of(completed, "type"@) == Some("response.completed"@),
        json_get(incomplete, "response"@) == json_get(completed, "response"@),
    ensures
        open_event_step(s, incomplete) == open_event_step(s, completed),
{
    reveal(open_event_step);
    lemma_event_type_names();
}

/// A response cut off at the output limit (`incomplete_details.reason`
/// `max_output_tokens`) finishes the stream with `length`, keeps that raw
/// reason, emits nothing, and takes the input and output totals of the
/// response's usage, whether it arrives as `response.incomplete` or
/// `response.completed`.
pub proof fn law_truncated_response_finishes_with_length(s: OpenStreamV, chunk: Json, r: Json)
    requires
        str_of(chunk, "type"@) == Some("response.incomplete"@) || str_of(chunk, "type"@) == Some(
            "response.completed"@,
        ),
        json_get(chunk, "response"@) == Some(r),
        nested_str(r, "incomplete_details"@, "reason"@) == Some("max_output_tokens"@),
    ensures
        open_event_step(s, chunk).0.finish == (FinishReasonUnified::Length, Some("max_output_tokens"@)),
        open_event_step(s, chunk).1.len() == 0,
        open_event_step(s, chunk).0.tools == s.tools,
        match json_get(r, "usage"@) {
            Some(u) => open_event_step(s, chunk).0.usage.0.total == usage_count(u, "input_tokens"@)
                && open_event_step(s, chunk).0.usage.1.total == usage_count(u, "output_tokens"@),
            None => open_event_step(s, chunk).0.usage == s.usage,
        },
{
    reveal(open_event_step);
    lemma_event_type_names();
}

/// A finished response settles the finish reason from its incomplete
/// reason: none gives `stop` (`tool-calls` once a function call was
/// made), `content_filter` gives `content-filter`; the raw reason is kept.
pub proof fn law_completed_response_finish(s: OpenStreamV, chunk: Json, r: Json)
    requires
        str_of(chunk, "type"@) == Some("response.completed"@) || str_of(chunk, "type"@) == Some(
            "response.incomplete"@,
        ),
        json_get(chunk, "response"@) == Some(r),
    ensures
        nested_str(r, "incomplete_details"@, "reason"@) is None ==> open_event_step(s, chunk).0.finish == (
            if s.has_tool_calls {
                FinishReasonUnified::ToolCalls
            } else {
                FinishReasonUnified::Stop
            },
            None::<Seq<char>>,
        ),
        nested_str(r, "incomplete_details"@, "reason"@) == Some("content_filter"@) ==> open_event_step(
            s,
            chunk,
        ).0.finish == (FinishReasonUnified::ContentFilter, Some("content_filter"@)),
        open_event_step(s, chunk).0.has_tool_calls == s.has_tool_calls,
        open_event_step(s, chunk).0.active_reasoning == s.active_reasoning,
{
    reveal(open_event_step);
    lemma_event_type_names();
}

/// A failed response finishes the stream with `error`, its error code (or,
/// without one, its status) as the raw reason, and the response's usage
/// when it has one; nothing is emitted.
pub proof fn law_failed_response_finishes_with_error(s: OpenStreamV, chunk: Json, r: Json)
    requires
        str_of(chunk, "type"@) == Some("response.failed"@),
        json_get(chunk, "response"@) == Some(r),
    ensures
        open_event_step(s, chunk).0.finish.0 == FinishReasonUnified::Error,
        open_event_step(s, chunk).0.finish.1 == match nested_str(r, "error"@, "code"@) {
            Some(c) => Some(c),
            None => str_of(r, "status"@),
        },
        open_event_step(s, chunk).1.len() == 0,
        json_get(r, "usage"@) is None ==> open_event_step(s, chunk).0.usage == s.usage,
{
    reveal(open_event_step);
    lemma_event_type_names();
}

/// Text deltas pass through unchanged and leave the state as it was.
pub proof fn law_text_delta_passes_through(s: OpenStreamV, chunk: Json, id: Seq<char>, delta: Seq<char>)
    requires
        str_of(chunk, "type"@) == Some("response.output_text.delta"@),
        str_of(chunk, "item_id"@) == Some(id),
        str_of(chunk, "delta"@) == Some(delta),
    ensures
        open_event_step(s, chunk) == (s, seq![PartV::TextDelta(id, delta)]),
{
    reveal(open_event_step);
    reveal_strlit("response.output_text.delta");
    reveal_strlit("response.output_item.added");
    reveal_strlit("response.function_call_arguments.delta");
    reveal_strlit("response.function_call_arguments.done");
    reveal_strlit("response.output_item.done");
    reveal_strlit("response.reasoning_text.delta");
    assert("response.output_text.delta"@.len() == 26);
    assert("response.output_item.added"@.len() == 26);
    assert("response.output_text.delta"@[16] != "response.output_item.added"@[16]);
    assert("response.output_item.done"@.len() == 25);
    assert("response.reasoning_text.delta"@.len() == 29);
    assert("response.function_call_arguments.delta"@.len() == 38);
    assert("response.function_call_arguments.done"@.len() == 37);
}

/// The parts that close a stream: the end of an open reasoning segment,
/// then the finish with the reason and usage (no provider metadata).
pub open spec fn open_end_parts(s: OpenStreamV) -> Seq<PartV> {
    (if s.active_reasoning {
        seq![PartV::ReasoningEnd("reasoning-0"@)]
    } else {
        Seq::empty()
    }).push(PartV::Finish(s.finish.0, s.finish.1, s.usage.0, s.usage.1, s.usage.2, Json::Null))
}

// ── The state machine ────────────────────────────────────────────────────


/// What the data of one server-sent event did to an Open Responses stream.
#[derive(Debug)]
pub enum DataStep {
    /// The event's parts; the stream goes on.
    Parts(Vec<StreamPart>),
    /// The stream ends here, after these parts.
    Stop(Vec<StreamPart>),
    /// The event reports usage counts that cannot be added up; nothing was done.
    UsageOutOfRange,
}

/// Whether a usage document keeps its parts within its totals.
pub fn usage_document_ok(u: &JsonValue) -> (b: bool)
    ensures
        b == usage_document_consistent(u@),
{
    let it = crate::open_responses::count(u, "input_tokens");
    let ct = crate::open_responses::nested(u, "input_tokens_details", "cached_tokens");
    let ot = crate::open_responses::count(u, "output_tokens");
    let rt = crate::open_responses::nested(u, "output_tokens_details", "reasoning_tokens");
    let z = |o: Option<u32>| -> (r: u32)
        ensures
            r == or_zero(o),
        {
            match o {
                Some(v) => v,
                None => 0,
            }
        };
    z(ct) <= z(it) && z(rt) <= z(ot)
}

/// Whether an event's usage documents can be reported (see
/// [`event_usage_ok`]).
pub fn event_usage_consistent(chunk: &JsonValue) -> (b: bool)
    ensures
        b == event_usage_ok(chunk@),
{
    match chunk.get("response") {
        Some(r) => match r.get("usage") {
            Some(u) => usage_document_ok(u),
            None => true,
        },
        None => true,
    }
}

/// The running state of an Open Responses stream.
pub struct OpenResponsesStreamState {
    tool_calls: Vec<(String, ToolCallAccum)>,
    has_tool_calls: bool,
    is_active_reasoning: bool,
    finish_reason: FinishReason,
    usage: Usage,
}

/// The calls being assembled by their texts.
pub open spec fn tools_view(t: Seq<(String, ToolCallAccum)>) -> Seq<(Seq<char>, AccumV)> {
    Seq::new(t.len(), |i: int| (t[i].0@, accum_v(t[i].1)))
}

/// The usage counts and document.
pub open spec fn usage_view(u: Usage) -> (TokenUsage, TokenUsage, Option<Json>) {
    (u.input_tokens, u.output_tokens, opt_json_view(u.raw))
}

impl View for OpenResponsesStreamState {
    type V = OpenStreamV;

    closed spec fn view(&self) -> OpenStreamV {
        OpenStreamV {
            tools: tools_view(self.tool_calls@),
            has_tool_calls: self.has_tool_calls,
            active_reasoning: self.is_active_reasoning,
            finish: (self.finish_reason.unified, ochars(self.finish_reason.raw)),
            usage: usage_view(self.usage),
        }
    }
}

/// The first position of a key is found by scanning forward.
proof fn lemma_key_index(t: Seq<(Seq<char>, AccumV)>, k: Seq<char>, i: int)
    requires
        0 <= i <= t.len(),
        forall|j: int| 0 <= j < i ==> #[trigger] t[j].0 != k,
        i < t.len() ==> t[i].0 == k,
    ensures
        key_index(t, k) == (if i < t.len() {
            Some(i)
        } else {
            None
        }),
    decreases t.len(),
{
    if t.len() > 0 {
        if i == t.len() {
            lemma_key_index(t.drop_last(), k, i - 1);
        } else {
            lemma_key_index(t.drop_last(), k, i);
        }
    }
}

/// The usage of a usage document (see [`usage_of`]).
pub fn usage_from_document(u: &JsonValue) -> (r: Usage)
    requires
        usage_document_consistent(u@),
    ensures
        usage_view(r) == usage_of(u@),
{
    let r = extract_usage_from_value(u);
    assert(r.input_tokens == usage_of(u@).0);
    assert(r.output_tokens == usage_of(u@).1);
    r
}

impl OpenResponsesStreamState {
    /// The state at the start of a stream (see [`open_stream_initial`]).
    pub fn new() -> (s: Self)
        ensures
            s@ == open_stream_initial(),
    {
        let s = OpenResponsesStreamState {
            tool_calls: Vec::new(),
            has_tool_calls: false,
            is_active_reasoning: false,
            finish_reason: FinishReason { unified: FinishReasonUnified::Other, raw: None },
            usage: Usage::empty(),
        };
        assert(s@ =~= open_stream_initial());
        s
    }

    /// The position of a call by its item id.
    fn find(&self, key: &str) -> (r: Option<usize>)
        ensures
            match r {
                Some(i) => key_index(self@.tools, key@) == Some(i as int) && i < self.tool_calls@.len(),
                None => key_index(self@.tools, key@) is None,
            },
    {
        let ghost t = self@.tools;
        let mut i: usize = 0;
        while i < self.tool_calls.len()
            invariant
                0 <= i <= self.tool_calls@.len(),
                t == tools_view(self.tool_calls@),
                forall|j: int| 0 <= j < i ==> #[trigger] t[j].0 != key@,
            decreases self.tool_calls@.len() - i,
        {
            if str_eq(self.tool_calls[i].0.as_str(), key) {
                proof {
                    lemma_key_index(t, key@, i as int);
                }
                return Some(i);
            }
            i += 1;
        }
        proof {
            lemma_key_index(t, key@, i as int);
        }
        None
    }

    /// Sets the call under `key`, adding it when absent.
    fn put_call(&mut self, key: String, acc: ToolCallAccum)
        ensures
            final(self)@ == (OpenStreamV { tools: put(old(self)@.tools, key@, accum_v(acc)), ..old(self)@ }),
    {
        let ghost v0 = self@;
        let ghost entry = (key@, accum_v(acc));
        match self.find(key.as_str()) {
            Some(i) => {
                self.tool_calls.set(i, (key, acc));
                assert(tools_view(self.tool_calls@) =~= v0.tools.update(i as int, entry));
            },
            None => {
                self.tool_calls.push((key, acc));
                assert(tools_view(self.tool_calls@) =~= v0.tools.push(entry));
            },
        }
        assert(self@ =~= OpenStreamV { tools: put(v0.tools, entry.0, entry.1), ..v0 });
    }

    /// Takes the call under `key` out, when present.
    fn take_call(&mut self, key: &str) -> (r: Option<ToolCallAccum>)
        ensures
            match key_index(old(self)@.tools, key@) {
                Some(i) => r matches Some(a) && accum_v(a) == old(self)@.tools[i].1 && final(self)@ == (OpenStreamV {
                    tools: old(self)@.tools.remove(i),
                    ..old(self)@
                }),
                None => r is None && final(self)@ == old(self)@,
            },
    {
        let ghost v0 = self@;
        match self.find(key) {
            Some(i) => {
                let (_, a) = self.tool_calls.remove(i);
                assert(tools_view(self.tool_calls@) =~= v0.tools.remove(i as int));
                assert(self@ =~= OpenStreamV { tools: v0.tools.remove(i as int), ..v0 });
                Some(a)
            },
            None => None,
        }
    }
}

/// A string member, or empty.
fn str_or_empty(j: &JsonValue, key: &str) -> (r: String)
    ensures
        r@ == or_empty(str_of(j@, key@)),
{
    match str_of_value(j, key) {
        Some(v) => v,
        None => String::new(),
    }
}

impl OpenResponsesStreamState {
    /// An item added (see [`item_added_step`]).
    fn item_added(&mut self, chunk: &JsonValue, parts: &mut Vec<StreamPart>)
        ensures
            final(self)@ == item_added_step(old(self)@, chunk@).0,
            parts_v(final(parts)@) == parts_v(old(parts)@) + item_added_step(old(self)@, chunk@).1,
    {
        let ghost p0 = parts_v(parts@);
        assert(p0 + Seq::<PartV>::empty() =~= p0);
        let item = match chunk.get("item") {
            Some(i) => i,
            None => {
                return;
            },
        };
        let it = str_or_empty(item, "type");
        let id = str_or_empty(item, "id");
        if str_eq(it.as_str(), "function_call") {
            let acc = ToolCallAccum {
                tool_name: str_of_value(item, "name"),
                tool_call_id: str_of_value(item, "call_id"),
                arguments: str_of_value(item, "arguments"),
            };
            self.put_call(id, acc);
        } else if str_eq(it.as_str(), "reasoning") {
            let ghost idv = id@;
            push_part(parts, StreamPart::ReasoningStart { id });
            self.is_active_reasoning = true;
            assert(parts_v(parts@) =~= p0 + seq![PartV::ReasoningStart(idv)]);
        } else if str_eq(it.as_str(), "message") {
            let ghost idv = id@;
            push_part(parts, StreamPart::TextStart { id });
            assert(parts_v(parts@) =~= p0 + seq![PartV::TextStart(idv)]);
        }
    }

    /// Arguments for a call (see [`args_step`]).
    fn args_update(&mut self, id: String, a: String, extend: bool)
        ensures
            final(self)@ == args_step(old(self)@, id@, a@, extend),
    {
        let ghost v0 = self@;
        let ghost idv0 = id@;
        let ghost av0 = a@;
        match self.find(id.as_str()) {
            Some(i) => {
                let ghost before = self.tool_calls@;
                let (_, acc) = self.tool_calls.remove(i);
                let args = if extend {
                    match &acc.arguments {
                        Some(e) => concat(e.as_str(), a.as_str()),
                        None => a,
                    }
                } else {
                    a
                };
                let ghost argv = args@;
                let na = ToolCallAccum { tool_name: acc.tool_name, tool_call_id: acc.tool_call_id, arguments: Some(args) };
                let ghost idv = id@;
                let ghost nav = accum_v(na);
                self.tool_calls.insert(i, (id, na));
                proof {
                    let e = (idv, AccumV { args: Some(argv), ..v0.tools[i as int].1 });
                    assert(nav == e.1);
                    assert(self.tool_calls@ =~= before.remove(i as int).insert(i as int, self.tool_calls@[i as int]));
                    assert(tools_view(self.tool_calls@) =~= v0.tools.update(i as int, e));
                }
            },
            None => {
                let ghost idv = id@;
                let ghost av = a@;
                self.tool_calls.push((id, ToolCallAccum { tool_name: None, tool_call_id: None, arguments: Some(a) }));
                assert(tools_view(self.tool_calls@) =~= v0.tools.push(
                    (idv, AccumV { name: None, call_id: None, args: Some(av) }),
                ));
            },
        }
        assert(self@ =~= args_step(v0, idv0, av0, extend));
    }
}

/// An assembled field, else the item's own, else empty.
fn field_or_item(assembled: Option<String>, item: &JsonValue, key: &str) -> (r: String)
    ensures
        r@ == field_or(ochars(assembled), item@, key@),
{
    match assembled {
        Some(v) => v,
        None => str_or_empty(item, key),
    }
}

impl OpenResponsesStreamState {
    /// An item done (see [`item_done_step`]).
    fn item_done(&mut self, chunk: &JsonValue, parts: &mut Vec<StreamPart>)
        ensures
            final(self)@ == item_done_step(old(self)@, chunk@).0,
            parts_v(final(parts)@) == parts_v(old(parts)@) + item_done_step(old(self)@, chunk@).1,
    {
        let ghost p0 = parts_v(parts@);
        let ghost v0 = self@;
        assert(p0 + Seq::<PartV>::empty() =~= p0);
        let item = match chunk.get("item") {
            Some(i) => i,
            None => {
                return;
            },
        };
        let it = str_or_empty(item, "type");
        let id = str_or_empty(item, "id");
        if str_eq(it.as_str(), "function_call") {
            let acc = match self.take_call(id.as_str()) {
                Some(a) => a,
                None => ToolCallAccum { tool_name: None, tool_call_id: None, arguments: None },
            };
            let ghost accv = accum_v(acc);
            let call_id = field_or_item(acc.tool_call_id, item, "call_id");
            let name = field_or_item(acc.tool_name, item, "name");
            let args = field_or_item(acc.arguments, item, "arguments");
            let ghost pv = PartV::ToolCall(call_id@, name@, args@);
            push_part(parts, StreamPart::ToolCall { tool_call_id: call_id, tool_name: name, arguments: args });
            self.has_tool_calls = true;
            assert(parts_v(parts@) =~= p0 + seq![pv]);
            assert(self@ =~= item_done_step(v0, chunk@).0);
        } else if str_eq(it.as_str(), "reasoning") {
            let ghost idv = id@;
            push_part(parts, StreamPart::ReasoningEnd { id });
            self.is_active_reasoning = false;
            assert(parts_v(parts@) =~= p0 + seq![PartV::ReasoningEnd(idv)]);
        } else if str_eq(it.as_str(), "message") {
            let ghost idv = id@;
            push_part(parts, StreamPart::TextEnd { id });
            assert(parts_v(parts@) =~= p0 + seq![PartV::TextEnd(idv)]);
        }
    }

    /// A final event (see [`final_step`]).
    fn final_event(&mut self, chunk: &JsonValue, failed: bool)
        requires
            event_usage_ok(chunk@),
        ensures
            final(self)@ == final_step(old(self)@, chunk@, failed),
    {
        let ghost v0 = self@;
        let r = match chunk.get("response") {
            Some(r) => r,
            None => {
                return;
            },
        };
        if failed {
            let code = match r.get("error") {
                Some(e) => str_of_value(e, "code"),
                None => None,
            };
            let raw = match code {
                Some(c) => Some(c),
                None => str_of_value(r, "status"),
            };
            self.finish_reason = FinishReason { unified: FinishReasonUnified::Error, raw };
        } else {
            let reason = match r.get("incomplete_details") {
                Some(d) => str_of_value(d, "reason"),
                None => None,
            };
            let unified = match &reason {
                Some(x) => map_open_responses_finish_reason(Some(x.as_str()), self.has_tool_calls),
                None => map_open_responses_finish_reason(None, self.has_tool_calls),
            };
            self.finish_reason = FinishReason { unified, raw: reason };
        }
        match r.get("usage") {
            Some(u) => {
                self.usage = usage_from_document(u);
            },
            None => {},
        }
        assert(self@ =~= final_step(v0, chunk@, failed));
    }

    /// The parts of one parsed event (see [`open_event_step`]); an event's
    /// usage must be reportable (see [`event_usage_consistent`]).
    pub fn on_event(&mut self, chunk: &JsonValue) -> (parts: Vec<StreamPart>)
        requires
            event_usage_ok(chunk@),
        ensures
            final(self)@ == open_event_step(old(self)@, chunk@).0,
            parts_v(parts@) == open_event_step(old(self)@, chunk@).1,
    {
        reveal(open_event_step);
        let ghost v0 = self@;
        let mut parts: Vec<StreamPart> = Vec::new();
        assert(parts_v(parts@) =~= Seq::<PartV>::empty());
        assert(Seq::<PartV>::empty() + item_added_step(v0, chunk@).1 =~= item_added_step(v0, chunk@).1);
        assert(Seq::<PartV>::empty() + item_done_step(v0, chunk@).1 =~= item_done_step(v0, chunk@).1);
        let t = str_or_empty(chunk, "type");
        if str_eq(t.as_str(), "response.output_item.added") {
            self.item_added(chunk, &mut parts);
        } else if str_eq(t.as_str(), "response.function_call_arguments.delta") {
            self.args_update(str_or_empty(chunk, "item_id"), str_or_empty(chunk, "delta"), true);
        } else if str_eq(t.as_str(), "response.function_call_arguments.done") {
            self.args_update(str_or_empty(chunk, "item_id"), str_or_empty(chunk, "arguments"), false);
        } else if str_eq(t.as_str(), "response.output_item.done") {
            self.item_done(chunk, &mut parts);
        } else if str_eq(t.as_str(), "response.reasoning_text.delta") {
            let id = str_or_empty(chunk, "item_id");
            let delta = str_or_empty(chunk, "delta");
            let ghost pv = PartV::ReasoningDelta(id@, delta@);
            push_part(&mut parts, StreamPart::ReasoningDelta { id, delta });
            assert(parts_v(parts@) =~= seq![pv]);
        } else if str_eq(t.as_str(), "response.output_text.delta") {
            let id = str_or_empty(chunk, "item_id");
            let delta = str_or_empty(chunk, "delta");
            let ghost pv = PartV::TextDelta(id@, delta@);
            push_part(&mut parts, StreamPart::TextDelta { id, delta });
            assert(parts_v(parts@) =~= seq![pv]);
        } else if str_eq(t.as_str(), "response.completed") || str_eq(t.as_str(), "response.incomplete") {
            self.final_event(chunk, false);
        } else if str_eq(t.as_str(), "response.failed") {
            self.final_event(chunk, true);
        }
        parts
    }

    /// Feeds the data of one server-sent event: `[DONE]` ends the stream;
    /// data that is not JSON ends it with an error part carrying the
    /// parser's message; an event whose usage counts cannot be added up
    /// is refused and changes nothing; any other event is read as by
    /// [`Self::on_event`].
    pub fn on_data(&mut self, data: &str) -> (r: DataStep)
        ensures
            data@ == "[DONE]"@ ==> (r matches DataStep::Stop(p) && p@.len() == 0 && final(self)@
                == old(self)@),
            data@ != "[DONE]"@ ==> match json_parsed(data@) {
                Err(m) => r matches DataStep::Stop(p) && parts_v(p@) == seq![PartV::Error(Json::String(m))]
                    && final(self)@ == old(self)@,
                Ok(j) => if event_usage_ok(j) {
                    r matches DataStep::Parts(p) && final(self)@ == open_event_step(old(self)@, j).0
                        && parts_v(p@) == open_event_step(old(self)@, j).1
                } else {
                    r is UsageOutOfRange && final(self)@ == old(self)@
                },
            },
    {
        if str_eq(data, "[DONE]") {
            return DataStep::Stop(Vec::new());
        }
        match parse_json(data) {
            Err(m) => {
                let mut parts: Vec<StreamPart> = Vec::new();
                push_part(&mut parts, StreamPart::Error { error: JsonValue::String(m) });
                assert(parts_v(parts@) =~= seq![PartV::Error(Json::String(m@))]);
                DataStep::Stop(parts)
            },
            Ok(event) => {
                if event_usage_consistent(&event) {
                    DataStep::Parts(self.on_event(&event))
                } else {
                    DataStep::UsageOutOfRange
                }
            },
        }
    }

    /// The parts that close the stream (see [`open_end_parts`]).
    pub fn end(self) -> (parts: Vec<StreamPart>)
        ensures
            parts_v(parts@) == open_end_parts(self@),
    {
        let ghost v = self@;
        let mut parts: Vec<StreamPart> = Vec::new();
        assert(parts_v(parts@) =~= Seq::<PartV>::empty());
        if self.is_active_reasoning {
            push_part(&mut parts, StreamPart::ReasoningEnd { id: String::from_str("reasoning-0") });
            assert(parts_v(parts@) =~= seq![PartV::ReasoningEnd("reasoning-0"@)]);
        }
        let ghost p1 = parts_v(parts@);
        push_part(
            &mut parts,
            StreamPart::Finish { finish_reason: self.finish_reason, usage: self.usage, provider_metadata: JsonValue::Null },
        );
        assert(parts_v(parts@) =~= open_end_parts(v));
        parts
    }
}

// ── Laws ─────────────────────────────────────────────────────────────────

/// Each item id names at most one call being assembled.
pub open spec fn keys_distinct(tools: Seq<(Seq<char>, AccumV)>) -> bool {
    forall|i: int, j: int| 0 <= i < j < tools.len() ==> #[trigger] tools[i].0 != #[trigger] tools[j].0
}

/// The position found for a key holds that key; no position is found for a
/// key that is absent.
proof fn lemma_key_index_found(t: Seq<(Seq<char>, AccumV)>, k: Seq<char>)
    ensures
        match key_index(t, k) {
            Some(i) => 0 <= i < t.len() && t[i].0 == k,
            None => forall|i: int| 0 <= i < t.len() ==> #[trigger] t[i].0 != k,
        },
    decreases t.len(),
{
    if t.len() > 0 {
        lemma_key_index_found(t.drop_last(), k);
        match key_index(t.drop_last(), k) {
            Some(i) => {
                assert(t.drop_last()[i] == t[i]);
            },
            None => {
                assert forall|i: int| 0 <= i < t.len() - 1 implies #[trigger] t[i].0 != k by {
                    assert(t.drop_last()[i] == t[i]);
                }
            },
        }
    }
}

/// Setting the call under a key keeps the keys distinct.
proof fn lemma_put_distinct(t: Seq<(Seq<char>, AccumV)>, k: Seq<char>, a: AccumV)
    requires
        keys_distinct(t),
    ensures
        keys_distinct(put(t, k, a)),
        keys_distinct(
            match key_index(t, k) {
                Some(i) => t.update(i, (k, a)),
                None => t.push((k, a)),
            },
        ),
{
    lemma_key_index_found(t, k);
    let r = put(t, k, a);
    assert forall|i: int, j: int| 0 <= i < j < r.len() implies #[trigger] r[i].0 != #[trigger] r[j].0 by {
        match key_index(t, k) {
            Some(x) => {
                if i != x && j != x {
                    assert(r[i] == t[i] && r[j] == t[j]);
                } else if i == x {
                    assert(r[j] == t[j]);
                    assert(t[x].0 != t[j].0);
                } else {
                    assert(r[i] == t[i]);
                    assert(t[i].0 != t[x].0);
                }
            },
            None => {
                if j == t.len() {
                    assert(r[i] == t[i]);
                } else {
                    assert(r[i] == t[i] && r[j] == t[j]);
                }
            },
        }
    }
}

/// Every event keeps the calls being assembled under distinct item ids, as
/// a map keyed by item id does.
pub proof fn law_event_keeps_keys_distinct(s: OpenStreamV, chunk: Json)
    requires
        keys_distinct(s.tools),
    ensures
        keys_distinct(open_event_step(s, chunk).0.tools),
{
    reveal(open_event_step);
    let t = or_empty(str_of(chunk, "type"@));
    if t == "response.output_item.added"@ {
        match json_get(chunk, "item"@) {
            Some(item) => {
                let id = or_empty(str_of(item, "id"@));
                lemma_put_distinct(
                    s.tools,
                    id,
                    AccumV {
                        name: str_of(item, "name"@),
                        call_id: str_of(item, "call_id"@),
                        args: str_of(item, "arguments"@),
                    },
                );
            },
            None => {},
        }
    } else if t == "response.function_call_arguments.delta"@ || t == "response.function_call_arguments.done"@ {
        let id = or_empty(str_of(chunk, "item_id"@));
        lemma_key_index_found(s.tools, id);
        let r = open_event_step(s, chunk).0.tools;
        assert forall|i: int, j: int| 0 <= i < j < r.len() implies #[trigger] r[i].0 != #[trigger] r[j].0 by {
            match key_index(s.tools, id) {
                Some(x) => {
                    assert(r[i].0 == s.tools[i].0 && r[j].0 == s.tools[j].0);
                },
                None => {
                    if j < s.tools.len() {
                        assert(r[i] == s.tools[i] && r[j] == s.tools[j]);
                    } else {
                        assert(r[i] == s.tools[i]);
                    }
                },
            }
        }
    } else if t == "response.output_item.done"@ {
        match json_get(chunk, "item"@) {
            Some(item) => {
                let id = or_empty(str_of(item, "id"@));
                lemma_key_index_found(s.tools, id);
                let r = open_event_step(s, chunk).0.tools;
                assert forall|i: int, j: int| 0 <= i < j < r.len() implies #[trigger] r[i].0 != #[trigger] r[j].0 by {
                    if or_empty(str_of(item, "type"@)) == "function_call"@ {
                        match key_index(s.tools, id) {
                            Some(x) => {
                                let a = if i < x { i } else { i + 1 };
                                let b = if j < x { j } else { j + 1 };
                                assert(r[i] == s.tools[a] && r[j] == s.tools[b]);
                            },
                            None => {},
                        }
                    }
                }
            },
            None => {},
        }
    }
}

/// The stream always ends with exactly one finish part, after the end of
/// any open reasoning segment.
pub proof fn law_end_finishes_once(s: OpenStreamV)
    ensures
        open_end_parts(s).last() is Finish,
        forall|i: int| 0 <= i < open_end_parts(s).len() - 1 ==> !(#[trigger] open_end_parts(s)[i] is Finish),
        s.active_reasoning ==> open_end_parts(s)[0] == PartV::ReasoningEnd("reasoning-0"@),
{
}

} // verus!
