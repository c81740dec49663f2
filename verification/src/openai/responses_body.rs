//! The Responses-API request body of a call: its tools, the `input` items,
//! and the warnings about settings that were dropped.

use vstd::prelude::*;

use crate::json::{members_view, opt_json_view, Json, JsonValue};
use crate::json_text::{json_text, to_json_text};
use crate::keyed::KeyedVec;
use crate::openai::body::{call_opts, model_caps_spec, reasoning_effort_spec, resolve_reasoning_effort, CallOptions};
use crate::openai::convert_common::{get_model_capabilities, ModelCapabilities, SystemMessageMode};
use crate::openai::messages::{array_of, js, object2, object3, opt_chars, values_view};
use crate::openai::request::{
    apply_service_tier, drop_setting, drop_warning, drops_top_p, is_reasoning_spec, jstr, kept, namespace_option,
    number_json, openai_option, opts_map, pass, pass_spec, resolve_is_reasoning_model, resolve_system_message_mode,
    service_tier_spec, set_member, set_member_spec, system_mode_spec, warn, warning_view, warnings_view, ResponseFormat,
    Warning, WarningV,
};
use crate::openai::responses::ResponsesSystemMessageMode;
use crate::openai::responses_input::{convert_to_responses_input, responses_input_spec, ResponsesInputResult};
use crate::openai::tools::{tools_members_spec, FunctionTool, Tool, ToolChoice};
use crate::search::push_member;
use crate::text::{concat, decimal_digits, str_eq};

verus! {

broadcast use vstd::std_specs::vec::group_vec_axioms;

// ── Tools ────────────────────────────────────────────────────────────────

/// `{"type": "function", name, parameters, description?, strict?}`.
pub open spec fn responses_function_tool_json(t: FunctionTool) -> Json {
    let m0 = seq![("type"@, jstr("function"@)), ("name"@, jstr(t.name@)), ("parameters"@, t.input_schema@)];
    let m1 = match t.description {
        Some(d) => m0.push(("description"@, jstr(d@))),
        None => m0,
    };
    let m2 = match t.strict {
        Some(b) => m1.push(("strict"@, Json::Bool(b))),
        None => m1,
    };
    Json::Object(m2)
}

/// The JSON of a tool choice; a named tool is `{"type": "function", name}`.
pub open spec fn responses_tool_choice_json(tc: ToolChoice) -> Json {
    match tc {
        ToolChoice::Auto => jstr("auto"@),
        ToolChoice::NoTool => jstr("none"@),
        ToolChoice::Required => jstr("required"@),
        ToolChoice::Tool { tool_name } => Json::Object(seq![("type"@, jstr("function"@)), ("name"@, jstr(tool_name@))]),
    }
}

/// The function tools as JSON, and one warning per provider-defined tool,
/// in order.
pub open spec fn responses_tools_fold(ts: Seq<Tool>) -> (Seq<Json>, Seq<WarningV>)
    decreases ts.len(),
{
    if ts.len() == 0 {
        (Seq::empty(), Seq::empty())
    } else {
        let (a, w) = responses_tools_fold(ts.drop_last());
        match ts.last() {
            Tool::Function(f) => (a.push(responses_function_tool_json(f)), w),
            Tool::Provider(p) => (a, w.push(WarningV::Unsupported("provider-defined tool "@ + p.id@, None))),
        }
    }
}

/// The prepared tools, tool choice and warnings: no tools for none given;
/// otherwise the function tools (none when there are none) with the tool
/// choice, and a warning for each provider-defined tool.
pub open spec fn prepared_responses_spec(tools: Option<Seq<Tool>>, tool_choice: Option<ToolChoice>) -> (
    Option<Seq<Json>>,
    Option<Json>,
    Seq<WarningV>,
) {
    match tools {
        Some(ts) => if ts.len() == 0 {
            (None, None, Seq::empty())
        } else {
            let (f, w) = responses_tools_fold(ts);
            if f.len() == 0 {
                (None, None, w)
            } else {
                (
                    Some(f),
                    match tool_choice {
                        Some(tc) => Some(responses_tool_choice_json(tc)),
                        None => None,
                    },
                    w,
                )
            }
        },
        None => (None, None, Seq::empty()),
    }
}

/// Tools prepared for a Responses request body.
#[derive(Debug)]
pub struct PreparedResponsesTools {
    pub tools: Option<Vec<JsonValue>>,
    pub tool_choice: Option<JsonValue>,
    pub tool_warnings: Vec<Warning>,
}

/// The JSON of a function tool (see [`responses_function_tool_json`]).
pub fn function_tool_to_json(t: &FunctionTool) -> (j: JsonValue)
    ensures
        j@ == responses_function_tool_json(*t),
{
    let mut m = object3(
        "type",
        js("function"),
        "name",
        JsonValue::String(t.name.clone()),
        "parameters",
        t.input_schema.deep_copy(),
    );
    match &t.description {
        Some(d) => push_member(&mut m, "description", JsonValue::String(d.clone())),
        None => {},
    }
    match t.strict {
        Some(b) => push_member(&mut m, "strict", JsonValue::Bool(b)),
        None => {},
    }
    JsonValue::Object(m)
}

/// The JSON of a tool choice (see [`responses_tool_choice_json`]).
fn tool_choice_to_json(tc: &ToolChoice) -> (j: JsonValue)
    ensures
        j@ == responses_tool_choice_json(*tc),
{
    match tc {
        ToolChoice::Auto => js("auto"),
        ToolChoice::NoTool => js("none"),
        ToolChoice::Required => js("required"),
        ToolChoice::Tool { tool_name } => JsonValue::Object(
            object2("type", js("function"), "name", JsonValue::String(tool_name.clone())),
        ),
    }
}

/// Prepares the tools of a call (see [`prepared_responses_spec`]).
pub fn prepare_responses_tools(tools: &Option<Vec<Tool>>, tool_choice: Option<&ToolChoice>) -> (p: PreparedResponsesTools)
    ensures
        ({
            let (t, c, w) = prepared_responses_spec(
                match tools {
                    Some(ts) => Some(ts@),
                    None => None,
                },
                match tool_choice {
                    Some(tc) => Some(*tc),
                    None => None,
                },
            );
            &&& match p.tools {
                Some(v) => t == Some(values_view(v@)),
                None => t is None,
            }
            &&& match p.tool_choice {
                Some(v) => c == Some(v@),
                None => c is None,
            }
            &&& warnings_view(p.tool_warnings@) == w
        }),
{
    let mut tool_warnings: Vec<Warning> = Vec::new();
    assert(warnings_view(tool_warnings@) =~= Seq::<WarningV>::empty());
    let ts = match tools {
        Some(ts) => ts,
        None => {
            return PreparedResponsesTools { tools: None, tool_choice: None, tool_warnings };
        },
    };
    if ts.len() == 0 {
        return PreparedResponsesTools { tools: None, tool_choice: None, tool_warnings };
    }
    let mut out: Vec<JsonValue> = Vec::new();
    assert(values_view(out@) =~= Seq::<Json>::empty());
    let mut i: usize = 0;
    while i < ts.len()
        invariant
            0 <= i <= ts@.len(),
            (values_view(out@), warnings_view(tool_warnings@)) == responses_tools_fold(ts@.subrange(0, i as int)),
        decreases ts@.len() - i,
    {
        proof {
            let sub = ts@.subrange(0, i + 1);
            assert(sub.drop_last() =~= ts@.subrange(0, i as int));
            assert(sub.last() == ts@[i as int]);
        }
        match &ts[i] {
            Tool::Function(f) => {
                let j = function_tool_to_json(f);
                let ghost jv = j@;
                let ghost before = values_view(out@);
                out.push(j);
                assert(values_view(out@) =~= before.push(jv));
            },
            Tool::Provider(pt) => {
                let w = Warning::Unsupported { feature: concat("provider-defined tool ", pt.id.as_str()), details: None };
                let ghost before = warnings_view(tool_warnings@);
                let ghost wv = warning_view(w);
                tool_warnings.push(w);
                assert(warnings_view(tool_warnings@) =~= before.push(wv));
            },
        }
        i += 1;
    }
    assert(ts@.subrange(0, ts@.len() as int) =~= ts@);
    if out.len() == 0 {
        return PreparedResponsesTools { tools: None, tool_choice: None, tool_warnings };
    }
    let choice = match tool_choice {
        Some(tc) => Some(tool_choice_to_json(tc)),
        None => None,
    };
    PreparedResponsesTools { tools: Some(out), tool_choice: choice, tool_warnings }
}

// ── Request body ─────────────────────────────────────────────────────────

/// `options.openai[key]`.
pub open spec fn oai(opts: Option<Map<Seq<char>, JsonValue>>, key: Seq<char>) -> Option<Json> {
    namespace_option(opts, "openai"@, key)
}

/// A warning for a setting the Responses API does not take, when given.
pub open spec fn given_warning(given: bool, feature: Seq<char>) -> Seq<WarningV> {
    if given {
        seq![WarningV::Unsupported(feature, None)]
    } else {
        Seq::empty()
    }
}

/// The warnings for the call settings the Responses API does not take:
/// top-k, seed, presence and frequency penalties, stop sequences.
pub open spec fn settings_warnings(o: CallOptions) -> Seq<WarningV> {
    given_warning(o.top_k is Some, "topK"@) + given_warning(o.seed is Some, "seed"@) + given_warning(
        o.presence_penalty is Some,
        "presencePenalty"@,
    ) + given_warning(o.frequency_penalty is Some, "frequencyPenalty"@) + given_warning(
        o.stop_sequences is Some,
        "stopSequences"@,
    )
}

/// The warning when both a conversation and a previous response are given.
pub open spec fn conflict_warnings(opts: Option<Map<Seq<char>, JsonValue>>) -> Seq<WarningV> {
    if oai(opts, "conversation"@) is Some && oai(opts, "previousResponseId"@) is Some {
        seq![
            WarningV::Unsupported(
                "conversation"@,
                Some("conversation and previousResponseId cannot be used together"@),
            ),
        ]
    } else {
        Seq::empty()
    }
}

/// An option's text: a string as it is, another value as its JSON text.
pub open spec fn option_text(v: Json) -> Seq<char> {
    match v {
        Json::String(s) => s,
        _ => json_text(v),
    }
}

/// The reasoning summary: the `reasoningSummary` option, else `detailed`
/// when an effort other than `none` is sent.
pub open spec fn reasoning_summary_spec(opts: Option<Map<Seq<char>, JsonValue>>, effort: Option<Seq<char>>) -> Option<
    Seq<char>,
> {
    match oai(opts, "reasoningSummary"@) {
        Some(v) => Some(option_text(v)),
        None => match effort {
            Some(e) => if e != "none"@ {
                Some("detailed"@)
            } else {
                None
            },
            None => None,
        },
    }
}

/// The Responses system-message mode of a chat one.
pub open spec fn responses_mode_of(m: SystemMessageMode) -> ResponsesSystemMessageMode {
    match m {
        SystemMessageMode::System => ResponsesSystemMessageMode::System,
        SystemMessageMode::Developer => ResponsesSystemMessageMode::Developer,
        SystemMessageMode::Remove => ResponsesSystemMessageMode::Remove,
    }
}

/// Whether items are stored: the `store` option when it is a boolean, else
/// `true`.
pub open spec fn store_spec(opts: Option<Map<Seq<char>, JsonValue>>) -> bool {
    match oai(opts, "store"@) {
        Some(Json::Bool(b)) => b,
        _ => true,
    }
}

/// The `store` option when it is a boolean.
pub open spec fn store_explicit(opts: Option<Map<Seq<char>, JsonValue>>) -> Option<bool> {
    match oai(opts, "store"@) {
        Some(Json::Bool(b)) => Some(b),
        _ => None,
    }
}

/// The first members: model and input, streaming, the output-token limit.
pub open spec fn head_spec(model_id: Seq<char>, items: Seq<Json>, stream: bool, max_output_tokens: Option<u32>) -> Seq<
    (Seq<char>, Json),
> {
    let m0 = seq![("model"@, jstr(model_id)), ("input"@, Json::Array(items))];
    let m1 = if stream {
        set_member_spec(m0, "stream"@, Json::Bool(true))
    } else {
        m0
    };
    match max_output_tokens {
        Some(n) => set_member_spec(m1, "max_output_tokens"@, Json::Number(decimal_digits(n as nat))),
        None => m1,
    }
}

/// The warning for a reasoning option given to a non-reasoning model.
pub open spec fn non_reasoning_warning(opts: Option<Map<Seq<char>, JsonValue>>, key: Seq<char>) -> Seq<WarningV> {
    if oai(opts, key) is Some {
        seq![WarningV::Unsupported(key, Some(key + " is not supported for non-reasoning models"@))]
    } else {
        Seq::empty()
    }
}

/// The members and warnings after temperature and top-p. Reasoning models
/// drop both (with a warning each) unless the effort is `none` and the
/// model takes those settings; non-reasoning models warn about each
/// reasoning option given.
#[verifier::opaque]
pub open spec fn responses_sampling_spec(
    ms: Seq<(Seq<char>, Json)>,
    temperature: Option<Json>,
    top_p: Option<Json>,
    opts: Option<Map<Seq<char>, JsonValue>>,
    caps: ModelCapabilities,
    is_reasoning_model: bool,
    effort: Option<Seq<char>>,
) -> (Seq<(Seq<char>, Json)>, Seq<WarningV>) {
    let drop = drops_top_p(caps, is_reasoning_model, effort);
    let w = drop_warning(temperature is Some, drop, "temperature"@, "temperature is not supported for reasoning models"@)
        + drop_warning(top_p is Some, drop, "topP"@, "topP is not supported for reasoning models"@) + if is_reasoning_model {
        Seq::empty()
    } else {
        non_reasoning_warning(opts, "reasoningEffort"@) + non_reasoning_warning(opts, "reasoningSummary"@)
            + non_reasoning_warning(opts, "reasoningMode"@) + non_reasoning_warning(opts, "reasoningContext"@)
    };
    let m1 = match (if drop { None } else { temperature }) {
        Some(v) => set_member_spec(ms, "temperature"@, v),
        None => ms,
    };
    let m2 = match (if drop { None } else { top_p }) {
        Some(v) => set_member_spec(m1, "top_p"@, v),
        None => m1,
    };
    (m2, w)
}

/// Whether a JSON schema format is strict: the `strictJsonSchema` option
/// when it is a boolean, else `true`.
pub open spec fn strict_json_spec(opts: Option<Map<Seq<char>, JsonValue>>) -> bool {
    match oai(opts, "strictJsonSchema"@) {
        Some(Json::Bool(b)) => b,
        _ => true,
    }
}

/// The `text` object of a JSON response format: its `format`, a JSON
/// schema (strict per option, named `response` by default, the
/// description or `null`) or a plain JSON object.
pub open spec fn format_spec(rf: Option<ResponseFormat>, opts: Option<Map<Seq<char>, JsonValue>>) -> Option<
    Seq<(Seq<char>, Json)>,
> {
    match rf {
        Some(ResponseFormat::Json { schema, name, description }) => Some(
            seq![
                (
                    "format"@,
                    match schema {
                        Some(s) => Json::Object(
                            seq![
                                ("type"@, jstr("json_schema"@)),
                                ("strict"@, Json::Bool(strict_json_spec(opts))),
                                (
                                    "name"@,
                                    jstr(
                                        match name {
                                            Some(n) => n@,
                                            None => "response"@,
                                        },
                                    ),
                                ),
                                (
                                    "description"@,
                                    match description {
                                        Some(d) => jstr(d@),
                                        None => Json::Null,
                                    },
                                ),
                                ("schema"@, s@),
                            ],
                        ),
                        None => Json::Object(seq![("type"@, jstr("json_object"@))]),
                    },
                ),
            ],
        ),
        _ => None,
    }
}

/// The `text` member: the response format, with the `textVerbosity`
/// option as `verbosity`.
pub open spec fn text_members_spec(rf: Option<ResponseFormat>, opts: Option<Map<Seq<char>, JsonValue>>) -> Option<
    Seq<(Seq<char>, Json)>,
> {
    match oai(opts, "textVerbosity"@) {
        Some(v) => match format_spec(rf, opts) {
            Some(tm) => Some(set_member_spec(tm, "verbosity"@, v)),
            None => Some(seq![("verbosity"@, v)]),
        },
        None => format_spec(rf, opts),
    }
}

/// The `include` list: the `include` option when it is an array; for a
/// reasoning model whose items are explicitly not stored, with
/// `reasoning.encrypted_content` added when missing.
pub open spec fn include_spec(opts: Option<Map<Seq<char>, JsonValue>>, is_reasoning_model: bool) -> Option<Seq<Json>> {
    let inc = match oai(opts, "include"@) {
        Some(Json::Array(a)) => Some(a),
        _ => None,
    };
    if store_explicit(opts) == Some(false) && is_reasoning_model {
        let key = jstr("reasoning.encrypted_content"@);
        match inc {
            Some(a) => if a.contains(key) {
                Some(a)
            } else {
                Some(a.push(key))
            },
            None => Some(seq![key]),
        }
    } else {
        inc
    }
}

/// The options copied one to one into the body, as `(option, member)`.
pub open spec fn responses_passthrough_pairs() -> Seq<(Seq<char>, Seq<char>)> {
    seq![
        ("conversation"@, "conversation"@),
        ("maxToolCalls"@, "max_tool_calls"@),
        ("metadata"@, "metadata"@),
        ("parallelToolCalls"@, "parallel_tool_calls"@),
        ("previousResponseId"@, "previous_response_id"@),
        ("user"@, "user"@),
        ("instructions"@, "instructions"@),
        ("promptCacheKey"@, "prompt_cache_key"@),
        ("promptCacheOptions"@, "prompt_cache_options"@),
        ("promptCacheRetention"@, "prompt_cache_retention"@),
        ("safetyIdentifier"@, "safety_identifier"@),
        ("truncation"@, "truncation"@),
    ]
}

/// The body after copying the first `n` pass-through options.
pub open spec fn responses_passthrough(ms: Seq<(Seq<char>, Json)>, opts: Option<Map<Seq<char>, JsonValue>>, n: nat) -> Seq<
    (Seq<char>, Json),
>
    decreases n,
{
    if n == 0 {
        ms
    } else {
        let p = responses_passthrough_pairs()[n - 1];
        pass_spec(responses_passthrough(ms, opts, (n - 1) as nat), opts, "openai"@, p.0, p.1)
    }
}

/// A string option.
pub open spec fn string_option(opts: Option<Map<Seq<char>, JsonValue>>, key: Seq<char>) -> Option<Seq<char>> {
    match oai(opts, key) {
        Some(Json::String(s)) => Some(s),
        _ => None,
    }
}

/// The `reasoning` object: effort, summary, mode and context, those given.
pub open spec fn reasoning_block_spec(
    effort: Option<Seq<char>>,
    summary: Option<Seq<char>>,
    mode: Option<Seq<char>>,
    context: Option<Seq<char>>,
) -> Seq<(Seq<char>, Json)> {
    let m1 = match effort {
        Some(e) => seq![("effort"@, jstr(e))],
        None => Seq::empty(),
    };
    let m2 = match summary {
        Some(s) => m1.push(("summary"@, jstr(s))),
        None => m1,
    };
    let m3 = match mode {
        Some(m) => m2.push(("mode"@, jstr(m))),
        None => m2,
    };
    match context {
        Some(c) => m3.push(("context"@, jstr(c))),
        None => m3,
    }
}

/// The tools of a call by their contents.
pub open spec fn tools_of(o: CallOptions) -> Option<Seq<Tool>> {
    match o.tools {
        Some(ts) => Some(ts@),
        None => None,
    }
}

/// The members after the part of the body that follows the input:
/// response format and verbosity (`text`), `include`, `store`, the
/// pass-through options, the service tier, the reasoning object (reasoning
/// models only), and the tools; with the warnings of the service tier and
/// the tools.
#[verifier::opaque]
pub open spec fn tail_spec(
    ms: Seq<(Seq<char>, Json)>,
    o: CallOptions,
    caps: ModelCapabilities,
    is_reasoning_model: bool,
    effort: Option<Seq<char>>,
) -> (Seq<(Seq<char>, Json)>, Seq<WarningV>) {
    let opts = call_opts(o.provider_options);
    let m3 = match text_members_spec(o.response_format, opts) {
        Some(t) => set_member_spec(ms, "text"@, Json::Object(t)),
        None => ms,
    };
    let m4 = match include_spec(opts, is_reasoning_model) {
        Some(a) => set_member_spec(m3, "include"@, Json::Array(a)),
        None => m3,
    };
    let m5 = match store_explicit(opts) {
        Some(b) => set_member_spec(m4, "store"@, Json::Bool(b)),
        None => m4,
    };
    let m6 = responses_passthrough(m5, opts, 12);
    let (m7, w_tier) = service_tier_spec(m6, opts, "openai"@, caps);
    let block = reasoning_block_spec(
        effort,
        reasoning_summary_spec(opts, effort),
        string_option(opts, "reasoningMode"@),
        string_option(opts, "reasoningContext"@),
    );
    let m8 = if is_reasoning_model && block.len() > 0 {
        set_member_spec(m7, "reasoning"@, Json::Object(block))
    } else {
        m7
    };
    let (t, c, w_tools) = prepared_responses_spec(tools_of(o), Some(o.tool_choice));
    (tools_members_spec(m8, t, c), w_tier + w_tools)
}

/// The Responses request body of a call and its warnings: model and input
/// (see [`responses_input_spec`], under the system-message mode the options
/// and model give, stored unless the `store` option is `false`), streaming,
/// the output-token limit, temperature and top-p (see
/// [`responses_sampling_spec`]), then [`tail_spec`]. Warnings come in that
/// order: unsupported settings, the conversation conflict, the input, the
/// sampling settings, the service tier, the tools.
pub open spec fn responses_request_body_spec(model_id: Seq<char>, o: CallOptions, stream: bool) -> (Json, Seq<WarningV>) {
    let caps = model_caps_spec(model_id);
    let opts = call_opts(o.provider_options);
    let effort = reasoning_effort_spec(opts, "openai"@, opt_chars(o.reasoning));
    let reasoning = is_reasoning_spec(opts, "openai"@, caps);
    let has_prev = oai(opts, "previousResponseId"@) is Some;
    let mode = responses_mode_of(system_mode_spec(opts, "openai"@, reasoning, caps));
    let (items, w_input) = responses_input_spec(o.prompt@, mode, store_spec(opts), has_prev);
    let m1 = head_spec(model_id, items, stream, o.max_output_tokens);
    let (m2, w_sampling) = responses_sampling_spec(
        m1,
        opt_json_view(o.temperature),
        opt_json_view(o.top_p),
        opts,
        caps,
        reasoning,
        effort,
    );
    let (m3, w_tail) = tail_spec(m2, o, caps, reasoning, effort);
    (Json::Object(m3), settings_warnings(o) + conflict_warnings(opts) + w_input + w_sampling + w_tail)
}

/// Adds the warning for a setting when it is given.
fn warn_given(warnings: &mut Vec<Warning>, given: bool, feature: &str)
    ensures
        warnings_view(final(warnings)@) == warnings_view(old(warnings)@) + given_warning(given, feature@),
{
    let ghost w0 = warnings_view(warnings@);
    if given {
        warn(warnings, feature, None);
        assert(warnings_view(warnings@) =~= w0 + given_warning(given, feature@));
    } else {
        assert(w0 + Seq::<WarningV>::empty() =~= w0);
    }
}

/// Adds the warning for a reasoning option given to a non-reasoning model.
fn warn_non_reasoning(warnings: &mut Vec<Warning>, opts: Option<&KeyedVec<JsonValue>>, key: &str)
    ensures
        warnings_view(final(warnings)@) == warnings_view(old(warnings)@) + non_reasoning_warning(opts_map(opts), key@),
{
    let ghost w0 = warnings_view(warnings@);
    if openai_option(opts, key).is_some() {
        let details = concat(key, " is not supported for non-reasoning models");
        warn(warnings, key, Some(details.as_str()));
        assert(warnings_view(warnings@) =~= w0 + non_reasoning_warning(opts_map(opts), key@));
    } else {
        assert(w0 + Seq::<WarningV>::empty() =~= w0);
    }
}

/// Writes temperature and top-p (see [`responses_sampling_spec`]).
fn apply_sampling(
    body: &mut Vec<(String, JsonValue)>,
    temperature: Option<JsonValue>,
    top_p: Option<JsonValue>,
    opts: Option<&KeyedVec<JsonValue>>,
    caps: &ModelCapabilities,
    is_reasoning_model: bool,
    effort: &Option<String>,
    warnings: &mut Vec<Warning>,
)
    ensures
        ({
            let (ms, ws) = responses_sampling_spec(
                members_view(old(body)@),
                opt_json_view(temperature),
                opt_json_view(top_p),
                opts_map(opts),
                *caps,
                is_reasoning_model,
                opt_chars(*effort),
            );
            &&& members_view(final(body)@) == ms
            &&& warnings_view(final(warnings)@) == warnings_view(old(warnings)@) + ws
        }),
{
    reveal(responses_sampling_spec);
    let ghost w0 = warnings_view(warnings@);
    let effort_none = match effort {
        Some(e) => str_eq(e.as_str(), "none"),
        None => false,
    };
    let drop = is_reasoning_model && !(effort_none && caps.supports_non_reasoning_parameters);
    let ghost t_given = temperature is Some;
    let ghost p_given = top_p is Some;
    let ghost tv = temperature;
    let ghost pv = top_p;
    let t = drop_setting(temperature, drop, warnings, "temperature", "temperature is not supported for reasoning models");
    let ghost w1 = warnings_view(warnings@);
    let p = drop_setting(top_p, drop, warnings, "topP", "topP is not supported for reasoning models");
    let ghost w2 = warnings_view(warnings@);
    if !is_reasoning_model {
        warn_non_reasoning(warnings, opts, "reasoningEffort");
        warn_non_reasoning(warnings, opts, "reasoningSummary");
        warn_non_reasoning(warnings, opts, "reasoningMode");
        warn_non_reasoning(warnings, opts, "reasoningContext");
    }
    match t {
        Some(v) => set_member(body, "temperature", v),
        None => {},
    }
    match p {
        Some(v) => set_member(body, "top_p", v),
        None => {},
    }
    proof {
        let o = opts_map(opts);
        let d = drop_warning(t_given, drop, "temperature"@, "temperature is not supported for reasoning models"@);
        let e = drop_warning(p_given, drop, "topP"@, "topP is not supported for reasoning models"@);
        let r = if is_reasoning_model {
            Seq::<WarningV>::empty()
        } else {
            non_reasoning_warning(o, "reasoningEffort"@) + non_reasoning_warning(o, "reasoningSummary"@)
                + non_reasoning_warning(o, "reasoningMode"@) + non_reasoning_warning(o, "reasoningContext"@)
        };
        assert(drop == drops_top_p(*caps, is_reasoning_model, opt_chars(*effort)));
        assert(warnings_view(warnings@) =~= w0 + (d + e + r));
    }
}

/// The members of an optional object by their views.
pub open spec fn opt_members(o: Option<Vec<(String, JsonValue)>>) -> Option<Seq<(Seq<char>, Json)>> {
    match o {
        Some(v) => Some(members_view(v@)),
        None => None,
    }
}

/// The `text` object of a call (see [`text_members_spec`]).
fn text_members(rf: &Option<ResponseFormat>, opts: Option<&KeyedVec<JsonValue>>) -> (r: Option<Vec<(String, JsonValue)>>)
    ensures
        opt_members(r) == text_members_spec(*rf, opts_map(opts)),
{
    let format: Option<Vec<(String, JsonValue)>> = match rf {
        Some(ResponseFormat::Json { schema, name, description }) => {
            let f = match schema {
                Some(sc) => {
                    let so = openai_option(opts, "strictJsonSchema");
                    let strict = match so {
                        Some(JsonValue::Bool(b)) => b,
                        _ => true,
                    };
                    assert(strict == strict_json_spec(opts_map(opts)));
                    let n = match name {
                        Some(n) => n.clone(),
                        None => String::from_str("response"),
                    };
                    let d = match description {
                        Some(d) => JsonValue::String(d.clone()),
                        None => JsonValue::Null,
                    };
                    let ghost nv = n@;
                    let ghost dv = d@;
                    assert(nv == match *name { Some(x) => x@, None => "response"@ });
                    assert(dv == match *description { Some(x) => jstr(x@), None => Json::Null });
                    let mut m = object3("type", js("json_schema"), "strict", JsonValue::Bool(strict), "name", JsonValue::String(n));
                    push_member(&mut m, "description", d);
                    push_member(&mut m, "schema", sc.deep_copy());
                    assert(members_view(m@) =~= seq![
                        ("type"@, jstr("json_schema"@)),
                        ("strict"@, Json::Bool(strict)),
                        ("name"@, jstr(nv)),
                        ("description"@, dv),
                        ("schema"@, sc@),
                    ]);
                    let fo = JsonValue::Object(m);
                    proof {
                        let ms = seq![
                            ("type"@, jstr("json_schema"@)),
                            ("strict"@, Json::Bool(strict)),
                            ("name"@, jstr(nv)),
                            ("description"@, dv),
                            ("schema"@, sc@),
                        ];
                        let x = format_spec(*rf, opts_map(opts))->0[0].1;
                        assert(x->Object_0 =~= ms);
                    }
                    assert(fo@ == match format_spec(*rf, opts_map(opts)) { Some(x) => x[0].1, None => Json::Null });
                    fo
                },
                None => {
                    let fo = JsonValue::Object(crate::openai::messages::object1("type", js("json_object")));
                    assert(fo@ == match format_spec(*rf, opts_map(opts)) { Some(x) => x[0].1, None => Json::Null });
                    fo
                },
            };
            let ghost fv = f@;
            let r = crate::openai::messages::object1("format", f);
            assert(Some(members_view(r@)) == format_spec(*rf, opts_map(opts)));
            Some(r)
        },
        _ => None,
    };
    assert(opt_members(format) == format_spec(*rf, opts_map(opts)));
    match openai_option(opts, "textVerbosity") {
        Some(v) => match format {
            Some(mut tm) => {
                set_member(&mut tm, "verbosity", v);
                Some(tm)
            },
            None => Some(crate::openai::messages::object1("verbosity", v)),
        },
        None => format,
    }
}

/// The `include` list of a call (see [`include_spec`]).
fn include_list(opts: Option<&KeyedVec<JsonValue>>, is_reasoning_model: bool) -> (r: Option<Vec<JsonValue>>)
    ensures
        match r {
            Some(v) => include_spec(opts_map(opts), is_reasoning_model) == Some(values_view(v@)),
            None => include_spec(opts_map(opts), is_reasoning_model) is None,
        },
{
    let inc: Option<Vec<JsonValue>> = match openai_option(opts, "include") {
        Some(JsonValue::Array(a)) => {
            proof {
                crate::json::lemma_items_view(a@);
                assert(crate::json::items_view(a@) =~= values_view(a@));
            }
            Some(a)
        },
        _ => None,
    };
    let explicit_false = match openai_option(opts, "store") {
        Some(JsonValue::Bool(b)) => !b,
        _ => false,
    };
    if !(explicit_false && is_reasoning_model) {
        return inc;
    }
    let key = "reasoning.encrypted_content";
    match inc {
        Some(mut a) => {
            let ghost av = values_view(a@);
            let mut found = false;
            let mut i: usize = 0;
            while i < a.len()
                invariant
                    0 <= i <= a@.len(),
                    av == values_view(a@),
                    found <==> exists|j: int| 0 <= j < i && av[j] == jstr(key@),
                decreases a@.len() - i,
            {
                let hit = match &a[i] {
                    JsonValue::String(t) => str_eq(t.as_str(), key),
                    _ => false,
                };
                assert(av[i as int] == a@[i as int]@);
                if hit {
                    found = true;
                }
                i += 1;
            }
            if !found {
                let k = js(key);
                let ghost kv = k@;
                a.push(k);
                assert(values_view(a@) =~= av.push(kv));
            }
            Some(a)
        },
        None => {
            let mut a: Vec<JsonValue> = Vec::new();
            let k = js(key);
            let ghost kv = k@;
            a.push(k);
            assert(values_view(a@) =~= seq![kv]);
            Some(a)
        },
    }
}

/// Copies the pass-through options into the body (see
/// [`responses_passthrough`]).
fn apply_responses_passthrough(body: &mut Vec<(String, JsonValue)>, opts: Option<&KeyedVec<JsonValue>>)
    ensures
        members_view(final(body)@) == responses_passthrough(members_view(old(body)@), opts_map(opts), 12),
{
    let ghost ms = members_view(body@);
    let ghost o = opts_map(opts);
    let keys = [
        ("conversation", "conversation"),
        ("maxToolCalls", "max_tool_calls"),
        ("metadata", "metadata"),
        ("parallelToolCalls", "parallel_tool_calls"),
        ("previousResponseId", "previous_response_id"),
        ("user", "user"),
        ("instructions", "instructions"),
        ("promptCacheKey", "prompt_cache_key"),
        ("promptCacheOptions", "prompt_cache_options"),
        ("promptCacheRetention", "prompt_cache_retention"),
        ("safetyIdentifier", "safety_identifier"),
        ("truncation", "truncation"),
    ];
    proof {
        assert(keys@.len() == 12);
        assert forall|i: int| 0 <= i < 12 implies (#[trigger] keys@[i]).0@ == responses_passthrough_pairs()[i].0
            && keys@[i].1@ == responses_passthrough_pairs()[i].1 by {
            reveal_strlit("conversation");
            reveal_strlit("maxToolCalls");
            reveal_strlit("max_tool_calls");
            reveal_strlit("metadata");
            reveal_strlit("parallelToolCalls");
            reveal_strlit("parallel_tool_calls");
            reveal_strlit("previousResponseId");
            reveal_strlit("previous_response_id");
            reveal_strlit("user");
            reveal_strlit("instructions");
            reveal_strlit("promptCacheKey");
            reveal_strlit("prompt_cache_key");
            reveal_strlit("promptCacheOptions");
            reveal_strlit("prompt_cache_options");
            reveal_strlit("promptCacheRetention");
            reveal_strlit("prompt_cache_retention");
            reveal_strlit("safetyIdentifier");
            reveal_strlit("safety_identifier");
            reveal_strlit("truncation");
        }
    }
    let mut i: usize = 0;
    while i < 12
        invariant
            0 <= i <= 12,
            keys@.len() == 12,
            forall|j: int| 0 <= j < 12 ==> (#[trigger] keys@[j]).0@ == responses_passthrough_pairs()[j].0
                && keys@[j].1@ == responses_passthrough_pairs()[j].1,
            members_view(body@) == responses_passthrough(ms, o, i as nat),
            o == opts_map(opts),
        decreases 12 - i,
    {
        let (k, bk) = keys[i];
        pass(body, opts, "openai", k, bk);
        i += 1;
    }
}

/// Resolves the reasoning summary (see [`reasoning_summary_spec`]).
fn resolve_reasoning_summary(opts: Option<&KeyedVec<JsonValue>>, effort: &Option<String>) -> (r: Option<String>)
    ensures
        opt_chars(r) == reasoning_summary_spec(opts_map(opts), opt_chars(*effort)),
{
    match openai_option(opts, "reasoningSummary") {
        Some(JsonValue::String(s)) => Some(s),
        Some(v) => Some(to_json_text(&v)),
        None => match effort {
            Some(e) => if !str_eq(e.as_str(), "none") {
                Some(String::from_str("detailed"))
            } else {
                None
            },
            None => None,
        },
    }
}

/// A string option (see [`string_option`]).
fn string_option_of(opts: Option<&KeyedVec<JsonValue>>, key: &str) -> (r: Option<String>)
    ensures
        opt_chars(r) == string_option(opts_map(opts), key@),
{
    match openai_option(opts, key) {
        Some(JsonValue::String(s)) => Some(s),
        _ => None,
    }
}

/// Appends a string member when the value is given.
fn push_opt_string(ms: &mut Vec<(String, JsonValue)>, k: &str, v: Option<String>)
    ensures
        members_view(final(ms)@) == match opt_chars(v) {
            Some(s) => members_view(old(ms)@).push((k@, jstr(s))),
            None => members_view(old(ms)@),
        },
{
    match v {
        Some(s) => push_member(ms, k, JsonValue::String(s)),
        None => {},
    }
}

/// The `reasoning` object (see [`reasoning_block_spec`]).
fn reasoning_block(effort: Option<String>, summary: Option<String>, mode: Option<String>, context: Option<String>) -> (r: Vec<
    (String, JsonValue),
>)
    ensures
        members_view(r@) == reasoning_block_spec(opt_chars(effort), opt_chars(summary), opt_chars(mode), opt_chars(context)),
{
    let mut m: Vec<(String, JsonValue)> = Vec::new();
    assert(members_view(m@) =~= Seq::<(Seq<char>, Json)>::empty());
    push_opt_string(&mut m, "effort", effort);
    proof {
        match opt_chars(effort) {
            Some(e) => assert(Seq::<(Seq<char>, Json)>::empty().push(("effort"@, jstr(e))) =~= seq![("effort"@, jstr(e))]),
            None => {},
        }
    }
    push_opt_string(&mut m, "summary", summary);
    push_opt_string(&mut m, "mode", mode);
    push_opt_string(&mut m, "context", context);
    m
}

/// Writes the part of the body that follows temperature and top-p (see
/// [`tail_spec`]).
fn apply_tail(
    body: &mut Vec<(String, JsonValue)>,
    options: &CallOptions,
    caps: &ModelCapabilities,
    is_reasoning_model: bool,
    effort: &Option<String>,
    warnings: &mut Vec<Warning>,
)
    ensures
        ({
            let (ms, ws) = tail_spec(members_view(old(body)@), *options, *caps, is_reasoning_model, opt_chars(*effort));
            &&& members_view(final(body)@) == ms
            &&& warnings_view(final(warnings)@) == warnings_view(old(warnings)@) + ws
        }),
{
    reveal(tail_spec);
    let ghost w0 = warnings_view(warnings@);
    let opts = options.provider_options.as_ref();
    assert(opts_map(opts) == call_opts(options.provider_options));
    match text_members(&options.response_format, opts) {
        Some(t) => set_member(body, "text", JsonValue::Object(t)),
        None => {},
    }
    match include_list(opts, is_reasoning_model) {
        Some(a) => set_member(body, "include", array_of(a)),
        None => {},
    }
    match openai_option(opts, "store") {
        Some(JsonValue::Bool(b)) => set_member(body, "store", JsonValue::Bool(b)),
        _ => {},
    }
    apply_responses_passthrough(body, opts);
    apply_service_tier(body, opts, "openai", caps, warnings);
    let ghost w1 = warnings_view(warnings@);
    if is_reasoning_model {
        let e = match effort {
            Some(e) => Some(e.clone()),
            None => None,
        };
        let block = reasoning_block(
            e,
            resolve_reasoning_summary(opts, effort),
            string_option_of(opts, "reasoningMode"),
            string_option_of(opts, "reasoningContext"),
        );
        if block.len() > 0 {
            set_member(body, "reasoning", JsonValue::Object(block));
        }
    }
    let prepared = prepare_responses_tools(&options.tools, Some(&options.tool_choice));
    let ghost pw = warnings_view(prepared.tool_warnings@);
    let ghost m8 = members_view(body@);
    let PreparedResponsesTools { tools, tool_choice, tool_warnings } = prepared;
    proof {
        reveal(tools_members_spec);
    }
    match tools {
        Some(t) => {
            set_member(body, "tools", array_of(t));
            match tool_choice {
                Some(c) => set_member(body, "tool_choice", c),
                None => {},
            }
        },
        None => {},
    }
    let mut i: usize = 0;
    while i < tool_warnings.len()
        invariant
            0 <= i <= tool_warnings@.len(),
            pw == warnings_view(tool_warnings@),
            warnings_view(warnings@) == w1 + pw.subrange(0, i as int),
        decreases tool_warnings@.len() - i,
    {
        let w = match &tool_warnings[i] {
            Warning::Unsupported { feature, details } => Warning::Unsupported {
                feature: feature.clone(),
                details: match details {
                    Some(d) => Some(d.clone()),
                    None => None,
                },
            },
            Warning::Other { message } => Warning::Other { message: message.clone() },
        };
        let ghost before = warnings_view(warnings@);
        assert(warning_view(w) == pw[i as int]);
        warnings.push(w);
        assert(warnings_view(warnings@) =~= before.push(pw[i as int]));
        assert(pw.subrange(0, i + 1) =~= pw.subrange(0, i as int).push(pw[i as int]));
        i += 1;
    }
    assert(pw.subrange(0, pw.len() as int) =~= pw);
    assert(w0 + (w1.subrange(w0.len() as int, w1.len() as int) + pw) =~= w1 + pw) by {
        assert(w1 =~= w0 + w1.subrange(w0.len() as int, w1.len() as int));
    }
}

/// A Responses request body and its warnings.
#[derive(Debug)]
pub struct ResponsesRequestBodyResult {
    pub body: JsonValue,
    pub warnings: Vec<Warning>,
}

/// The Responses request body of a call with its warnings (see
/// [`responses_request_body_spec`]); `stream` adds `"stream": true`.
pub fn build_responses_request_body(model_id: &str, options: &CallOptions, stream: bool) -> (r: ResponsesRequestBodyResult)
    ensures
        (r.body@, warnings_view(r.warnings@)) == responses_request_body_spec(model_id@, *options, stream),
{
    let mut warnings: Vec<Warning> = Vec::new();
    assert(warnings_view(warnings@) =~= Seq::<WarningV>::empty());
    let caps = get_model_capabilities(model_id);
    assert(caps == model_caps_spec(model_id@));
    let opts = options.provider_options.as_ref();
    assert(opts_map(opts) == call_opts(options.provider_options));
    warn_given(&mut warnings, options.top_k.is_some(), "topK");
    warn_given(&mut warnings, options.seed.is_some(), "seed");
    warn_given(&mut warnings, options.presence_penalty.is_some(), "presencePenalty");
    warn_given(&mut warnings, options.frequency_penalty.is_some(), "frequencyPenalty");
    warn_given(&mut warnings, options.stop_sequences.is_some(), "stopSequences");
    let ghost w1 = warnings_view(warnings@);
    assert(w1 =~= settings_warnings(*options));
    let effort = resolve_reasoning_effort(opts, "openai", &options.reasoning);
    let is_reasoning = resolve_is_reasoning_model(opts, "openai", &caps);
    let has_conversation = openai_option(opts, "conversation").is_some();
    let has_previous_response_id = openai_option(opts, "previousResponseId").is_some();
    if has_conversation && has_previous_response_id {
        warn(&mut warnings, "conversation", Some("conversation and previousResponseId cannot be used together"));
    }
    let ghost w2 = warnings_view(warnings@);
    assert(w2 =~= w1 + conflict_warnings(call_opts(options.provider_options)));
    let mode = match resolve_system_message_mode(opts, "openai", is_reasoning, &caps) {
        SystemMessageMode::System => ResponsesSystemMessageMode::System,
        SystemMessageMode::Developer => ResponsesSystemMessageMode::Developer,
        SystemMessageMode::Remove => ResponsesSystemMessageMode::Remove,
    };
    let store = match openai_option(opts, "store") {
        Some(JsonValue::Bool(b)) => b,
        _ => true,
    };
    let converted = convert_to_responses_input(&options.prompt, mode, store, has_previous_response_id);
    let ResponsesInputResult { input, warnings: input_warnings } = converted;
    let ghost iw = warnings_view(input_warnings@);
    let mut input_warnings = input_warnings;
    let mut k: usize = 0;
    while k < input_warnings.len()
        invariant
            0 <= k <= input_warnings@.len(),
            iw == warnings_view(input_warnings@),
            warnings_view(warnings@) == w2 + iw.subrange(0, k as int),
        decreases input_warnings@.len() - k,
    {
        let w = match &input_warnings[k] {
            Warning::Unsupported { feature, details } => Warning::Unsupported {
                feature: feature.clone(),
                details: match details {
                    Some(d) => Some(d.clone()),
                    None => None,
                },
            },
            Warning::Other { message } => Warning::Other { message: message.clone() },
        };
        let ghost before = warnings_view(warnings@);
        assert(warning_view(w) == iw[k as int]);
        warnings.push(w);
        assert(warnings_view(warnings@) =~= before.push(iw[k as int]));
        assert(iw.subrange(0, k + 1) =~= iw.subrange(0, k as int).push(iw[k as int]));
        k += 1;
    }
    assert(iw.subrange(0, iw.len() as int) =~= iw);
    let ghost w3 = warnings_view(warnings@);
    let ghost items = values_view(input@);
    let mut body = object2("model", JsonValue::String(String::from_str(model_id)), "input", array_of(input));
    if stream {
        set_member(&mut body, "stream", JsonValue::Bool(true));
    }
    match options.max_output_tokens {
        Some(n) => set_member(&mut body, "max_output_tokens", number_json(n as u64)),
        None => {},
    }
    let ghost m1 = members_view(body@);
    assert(m1 == head_spec(model_id@, items, stream, options.max_output_tokens));
    apply_sampling(
        &mut body,
        crate::json::copy_opt_json(&options.temperature),
        crate::json::copy_opt_json(&options.top_p),
        opts,
        &caps,
        is_reasoning,
        &effort,
        &mut warnings,
    );
    apply_tail(&mut body, options, &caps, is_reasoning, &effort, &mut warnings);
    proof {
        let (b, ws) = responses_request_body_spec(model_id@, *options, stream);
        assert(JsonValue::Object(body)@ == b);
        assert(warnings_view(warnings@) =~= ws);
    }
    ResponsesRequestBodyResult { body: JsonValue::Object(body), warnings }
}

} // verus!
