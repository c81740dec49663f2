//! The chat-completions request body of a call, with the warnings about
//! settings that were dropped.

use vstd::prelude::*;

use crate::error::AiMuxError;
use crate::json::{members_view, opt_json_view, Json, JsonValue};
use crate::json_text::{json_text, to_json_text};
use crate::keyed::KeyedVec;
use crate::openai::convert::{deep_merge_json, merge_spec};
use crate::openai::convert_common::{
    get_model_capabilities, is_reasoning_model_spec, supports_flex_processing_spec,
    supports_non_reasoning_parameters_spec, supports_priority_processing_spec, ModelCapabilities,
    SystemMessageMode,
};
use crate::openai::messages::{
    convert_prompt_to_openai_messages_with_provider, prompt_spec, values_view, PromptMessage,
};
use crate::openai::request::{
    apply_max_tokens, apply_provider_option_passthrough, apply_response_format, apply_service_tier,
    insert_sampling_params, is_reasoning_spec, jstr, max_tokens_spec, number_json, opts_map, passthrough_spec,
    provider_option, provider_option_spec, resolve_is_reasoning_model, resolve_system_message_mode,
    response_format_spec, sampling_members_spec, sampling_warnings, service_tier_spec, set_member,
    set_member_spec, strip_sampling_params, system_mode_spec, warnings_view, ResponseFormat, SamplingParams,
    Warning, WarningV,
};
use crate::openai::tools::{apply_tools, opt_seq, prepared_spec, tools_members_spec, tools_unsupported_warning, Tool, ToolChoice};
use crate::openai::OpenAICompatProfile;
use crate::search::push_member;
use crate::text::{decimal_digits, str_eq};

verus! {

broadcast use vstd::std_specs::vec::group_vec_axioms;

/// The settings of a chat call that shape its request body.
#[derive(Debug)]
pub struct CallOptions {
    pub prompt: Vec<PromptMessage>,
    pub max_output_tokens: Option<u32>,
    /// Sampling settings, each as the JSON number it is sent as.
    pub temperature: Option<JsonValue>,
    pub top_p: Option<JsonValue>,
    pub top_k: Option<u32>,
    pub frequency_penalty: Option<JsonValue>,
    pub presence_penalty: Option<JsonValue>,
    pub stop_sequences: Option<Vec<String>>,
    /// The seed, as the JSON number it is sent as.
    pub seed: Option<JsonValue>,
    pub response_format: Option<ResponseFormat>,
    /// The reasoning effort chosen for the call, as its text; absent when
    /// the provider's default applies.
    pub reasoning: Option<String>,
    pub provider_options: Option<KeyedVec<JsonValue>>,
    pub tools: Option<Vec<Tool>>,
    pub tool_choice: ToolChoice,
    /// A JSON patch merged into the finished body.
    pub body_overrides: Option<JsonValue>,
}

/// A request body and its warnings.
#[derive(Debug)]
pub struct RequestBodyResult {
    pub body: JsonValue,
    pub warnings: Vec<Warning>,
}

/// The capabilities of a model by its id.
pub open spec fn model_caps_spec(model_id: Seq<char>) -> ModelCapabilities {
    ModelCapabilities {
        is_reasoning_model: is_reasoning_model_spec(model_id),
        system_message_mode: if is_reasoning_model_spec(model_id) {
            SystemMessageMode::Developer
        } else {
            SystemMessageMode::System
        },
        supports_flex_processing: supports_flex_processing_spec(model_id),
        supports_priority_processing: supports_priority_processing_spec(model_id),
        supports_non_reasoning_parameters: supports_non_reasoning_parameters_spec(model_id),
    }
}

/// The reasoning effort sent: the `reasoningEffort` option (its string, or
/// the JSON text of another value), else the call's own effort.
pub open spec fn reasoning_effort_spec(
    opts: Option<Map<Seq<char>, JsonValue>>,
    provider: Seq<char>,
    reasoning: Option<Seq<char>>,
) -> Option<Seq<char>> {
    match provider_option_spec(opts, provider, "reasoningEffort"@) {
        Some(v) => Some(
            match v {
                Json::String(s) => s,
                _ => json_text(v),
            },
        ),
        None => reasoning,
    }
}

/// Resolves the reasoning effort (see [`reasoning_effort_spec`]).
pub fn resolve_reasoning_effort(opts: Option<&KeyedVec<JsonValue>>, provider: &str, reasoning: &Option<String>) -> (r:
    Option<String>)
    ensures
        crate::openai::messages::opt_chars(r) == reasoning_effort_spec(
            opts_map(opts),
            provider@,
            crate::openai::messages::opt_chars(*reasoning),
        ),
{
    match provider_option(opts, provider, "reasoningEffort") {
        Some(v) => match v {
            JsonValue::String(s) => Some(s),
            _ => Some(to_json_text(&v)),
        },
        None => match reasoning {
            Some(r) => Some(r.clone()),
            None => None,
        },
    }
}

/// The stop sequences by their characters.
pub open spec fn stop_view(o: Option<Vec<String>>) -> Option<Seq<Seq<char>>> {
    match o {
        Some(s) => Some(Seq::new(s@.len(), |i: int| s@[i]@)),
        None => None,
    }
}

/// The borrowed provider options of a call.
pub open spec fn call_opts(o: Option<KeyedVec<JsonValue>>) -> Option<Map<Seq<char>, JsonValue>> {
    match o {
        Some(m) => Some(m@),
        None => None,
    }
}

/// The views of the sampling settings of a call.
pub open spec fn sampling_of(o: CallOptions) -> SamplingParams {
    SamplingParams {
        temperature: o.temperature,
        top_p: o.top_p,
        frequency_penalty: o.frequency_penalty,
        presence_penalty: o.presence_penalty,
    }
}

/// The body members before the messages are known to convert: model and
/// messages, streaming, `top_k`.
#[verifier::opaque]
pub open spec fn head_members(
    model_id: Seq<char>,
    messages: Seq<Json>,
    stream: bool,
    provider: Seq<char>,
    top_k: Option<u32>,
    supports_top_k: bool,
) -> Seq<(Seq<char>, Json)> {
    let m0 = seq![("model"@, jstr(model_id)), ("messages"@, Json::Array(messages))];
    let m1 = if stream {
        let s = set_member_spec(m0, "stream"@, Json::Bool(true));
        if provider != "groq"@ {
            set_member_spec(s, "stream_options"@, Json::Object(seq![("include_usage"@, Json::Bool(true))]))
        } else {
            s
        }
    } else {
        m0
    };
    match top_k {
        Some(k) => if supports_top_k {
            set_member_spec(m1, "top_k"@, Json::Number(decimal_digits(k as nat)))
        } else {
            m1
        },
        None => m1,
    }
}

/// The sampling settings that survive the model's filtering.
pub open spec fn kept_sampling(o: CallOptions, model_id: Seq<char>, provider: Seq<char>) -> (Option<Json>, Option<Json>, Option<Json>, Option<Json>) {
    let caps = model_caps_spec(model_id);
    let opts = call_opts(o.provider_options);
    let reasoning = is_reasoning_spec(opts, provider, caps);
    let effort = reasoning_effort_spec(opts, provider, crate::openai::messages::opt_chars(o.reasoning));
    (
        crate::openai::request::kept(
            o.temperature,
            crate::openai::request::drops_temperature(model_id, caps, reasoning, effort),
        ),
        crate::openai::request::kept(o.top_p, crate::openai::request::drops_top_p(caps, reasoning, effort)),
        crate::openai::request::kept(o.frequency_penalty, reasoning),
        crate::openai::request::kept(o.presence_penalty, reasoning),
    )
}

/// The body members after the sampling settings that survive, the stop
/// sequences and the seed.
#[verifier::opaque]
pub open spec fn sampling_step(
    ms: Seq<(Seq<char>, Json)>,
    kept: (Option<Json>, Option<Json>, Option<Json>, Option<Json>),
    stop: Option<Seq<Seq<char>>>,
    seed: Option<Json>,
) -> Seq<(Seq<char>, Json)> {
    let m1 = match kept.0 {
        Some(v) => set_member_spec(ms, "temperature"@, v),
        None => ms,
    };
    let m2 = match kept.1 {
        Some(v) => set_member_spec(m1, "top_p"@, v),
        None => m1,
    };
    let m3 = match kept.2 {
        Some(v) => set_member_spec(m2, "frequency_penalty"@, v),
        None => m2,
    };
    let m4 = match kept.3 {
        Some(v) => set_member_spec(m3, "presence_penalty"@, v),
        None => m3,
    };
    let m5 = match stop {
        Some(s) => set_member_spec(m4, "stop"@, Json::Array(Seq::new(s.len(), |i: int| Json::String(s[i])))),
        None => m4,
    };
    match seed {
        Some(v) => set_member_spec(m5, "seed"@, v),
        None => m5,
    }
}

/// The request body and warnings of a call once its messages are converted:
/// model and messages, streaming (with usage except for Groq), `top_k` when
/// supported, the token limit, the sampling settings the model takes, stop
/// sequences and seed, the response format, the pass-through options, the
/// reasoning effort, the service tier, the tools, and finally the body
/// overrides merged in. Warnings come in that order: `top_k`, sampling,
/// response format, service tier, tools.
pub open spec fn request_body_spec(
    model_id: Seq<char>,
    o: CallOptions,
    messages: Seq<Json>,
    stream: bool,
    provider: Seq<char>,
    profile: OpenAICompatProfile,
) -> (Json, Seq<WarningV>) {
    let caps = model_caps_spec(model_id);
    let opts = call_opts(o.provider_options);
    let reasoning = is_reasoning_spec(opts, provider, caps);
    let effort = reasoning_effort_spec(opts, provider, crate::openai::messages::opt_chars(o.reasoning));
    let w_top_k = if o.top_k is Some && !profile.supports_top_k {
        seq![WarningV::Unsupported("topK"@, None)]
    } else {
        Seq::empty()
    };
    let m1 = head_members(model_id, messages, stream, provider, o.top_k, profile.supports_top_k);
    let m2 = max_tokens_spec(m1, o.max_output_tokens, opts, provider, profile, reasoning);
    let w_sampling = sampling_warnings(
        (o.temperature is Some, o.top_p is Some, o.frequency_penalty is Some, o.presence_penalty is Some),
        model_id,
        caps,
        reasoning,
        effort,
    );
    let m3 = sampling_step(
        m2,
        kept_sampling(o, model_id, provider),
        stop_view(o.stop_sequences),
        opt_json_view(o.seed),
    );
    let (m4, w_format) = response_format_spec(m3, o.response_format, opts, provider, profile.supports_response_format);
    let m5 = passthrough_spec(m4, opts, provider);
    let m6 = match effort {
        Some(e) => set_member_spec(m5, "reasoning_effort"@, jstr(e)),
        None => m5,
    };
    let (m7, w_tier) = service_tier_spec(m6, opts, provider, caps);
    let (t, c, w_tools) = prepared_spec(
        match o.tools {
            Some(ts) => Some(ts@),
            None => None,
        },
        o.tool_choice,
        provider,
        profile.supports_tools,
        model_id,
    );
    let m8 = tools_members_spec(m7, t, c);
    let w_unsupported_tools = tools_unsupported_warning(
        match o.tools {
            Some(ts) => Some(ts@),
            None => None,
        },
        profile.supports_tools,
    );
    let body = match o.body_overrides {
        Some(p) => merge_spec(Json::Object(m8), p@),
        None => Json::Object(m8),
    };
    (body, w_top_k + w_sampling + w_format + w_tier + w_unsupported_tools + w_tools)
}

/// The request body of a call with its warnings; the messages must convert
/// (a part that cannot be converted is an `InvalidArgument`).
pub fn build_request_body_with_warnings(
    model_id: &str,
    options: &CallOptions,
    stream: bool,
    provider: &str,
    profile: &OpenAICompatProfile,
) -> (r: Result<RequestBodyResult, AiMuxError>)
    ensures
        match prompt_spec(
            options.prompt@,
            system_mode_spec(
                call_opts(options.provider_options),
                provider@,
                is_reasoning_spec(call_opts(options.provider_options), provider@, model_caps_spec(model_id@)),
                model_caps_spec(model_id@),
            ),
            provider@,
        ) {
            Err(m) => r matches Err(AiMuxError::InvalidArgument(e)) && e@ == m,
            Ok(messages) => r matches Ok(res) && {
                let (body, ws) = request_body_spec(model_id@, *options, messages, stream, provider@, *profile);
                &&& res.body@ == body
                &&& warnings_view(res.warnings@) == ws
            },
        },
{
    let mut warnings: Vec<Warning> = Vec::new();
    let caps = get_model_capabilities(model_id);
    proof {
        assert(caps == model_caps_spec(model_id@));
    }
    let opts = options.provider_options.as_ref();
    assert(opts_map(opts) == call_opts(options.provider_options));
    let resolved = resolve_reasoning_effort(opts, provider, &options.reasoning);
    let is_reasoning = resolve_is_reasoning_model(opts, provider, &caps);
    let mode = resolve_system_message_mode(opts, provider, is_reasoning, &caps);
    if options.top_k.is_some() && !profile.supports_top_k {
        warnings.push(Warning::Unsupported { feature: String::from_str("topK"), details: None });
    }
    let ghost w1 = warnings_view(warnings@);
    proof {
        assert(w1 =~= (if options.top_k is Some && !profile.supports_top_k {
            seq![WarningV::Unsupported("topK"@, None)]
        } else {
            Seq::empty()
        }));
    }
    let messages = match convert_prompt_to_openai_messages_with_provider(&options.prompt, mode, provider) {
        Ok(m) => m,
        Err(e) => {
            return Err(e);
        },
    };
    let ghost mv = values_view(messages@);
    let mut body: Vec<(String, JsonValue)> = Vec::new();
    assert(members_view(body@) =~= Seq::<(Seq<char>, Json)>::empty());
    push_member(&mut body, "model", JsonValue::String(String::from_str(model_id)));
    proof {
        crate::json::lemma_items_view(messages@);
        assert(crate::json::items_view(messages@) =~= mv);
    }
    push_member(&mut body, "messages", JsonValue::Array(messages));
    assert(members_view(body@) =~= seq![("model"@, jstr(model_id@)), ("messages"@, Json::Array(mv))]);
    if stream {
        set_member(&mut body, "stream", JsonValue::Bool(true));
        if !str_eq(provider, "groq") {
            let mut so: Vec<(String, JsonValue)> = Vec::new();
            assert(members_view(so@) =~= Seq::<(Seq<char>, Json)>::empty());
            push_member(&mut so, "include_usage", JsonValue::Bool(true));
            assert(members_view(so@) =~= seq![("include_usage"@, Json::Bool(true))]);
            set_member(&mut body, "stream_options", JsonValue::Object(so));
        }
    }
    match options.top_k {
        Some(k) => {
            if profile.supports_top_k {
                set_member(&mut body, "top_k", number_json(k as u64));
            }
        },
        None => {},
    }
    let ghost m1 = members_view(body@);
    assert(m1 == head_members(model_id@, mv, stream, provider@, options.top_k, profile.supports_top_k)) by {
        reveal(head_members);
    }
    apply_max_tokens(&mut body, options.max_output_tokens, opts, provider, profile, is_reasoning);
    let params = SamplingParams {
        temperature: copy_opt(&options.temperature),
        top_p: copy_opt(&options.top_p),
        frequency_penalty: copy_opt(&options.frequency_penalty),
        presence_penalty: copy_opt(&options.presence_penalty),
    };
    let effort_ref = match &resolved {
        Some(e) => Some(e.as_str()),
        None => None,
    };
    let kept = strip_sampling_params(params, model_id, &caps, is_reasoning, effort_ref, &mut warnings);
    let ghost w2 = warnings_view(warnings@);
    let ghost m2 = members_view(body@);
    insert_sampling_params(&mut body, &kept, options.stop_sequences.as_ref(), options.seed.as_ref());
    proof {
        reveal(sampling_step);
        reveal(sampling_members_spec);
        assert(members_view(body@) == sampling_step(
            m2,
            kept_sampling(*options, model_id@, provider@),
            stop_view(options.stop_sequences),
            opt_json_view(options.seed),
        ));
    }
    apply_response_format(&mut body, options.response_format.as_ref(), opts, provider, profile, &mut warnings);
    let ghost w3 = warnings_view(warnings@);
    apply_provider_option_passthrough(&mut body, opts, provider);
    match resolved {
        Some(e) => set_member(&mut body, "reasoning_effort", JsonValue::String(e)),
        None => {},
    }
    apply_service_tier(&mut body, opts, provider, &caps, &mut warnings);
    let ghost w4 = warnings_view(warnings@);
    apply_tools(&mut body, options.tools.as_ref(), &options.tool_choice, provider, profile, model_id, &mut warnings);
    let mut out = JsonValue::Object(body);
    match &options.body_overrides {
        Some(p) => deep_merge_json(&mut out, p),
        None => {},
    }
    proof {
        let (b, ws) = request_body_spec(model_id@, *options, mv, stream, provider@, *profile);
        assert(out@ == b);
        assert(warnings_view(warnings@) =~= ws);
    }
    Ok(RequestBodyResult { body: out, warnings })
}

/// A copy of an optional value.
fn copy_opt(v: &Option<JsonValue>) -> (r: Option<JsonValue>)
    ensures
        opt_json_view(r) == opt_json_view(*v),
{
    match v {
        Some(j) => Some(j.deep_copy()),
        None => None,
    }
}

/// The request body of a call for OpenAI itself (full profile), without
/// the warnings.
pub fn build_request_body(model_id: &str, options: &CallOptions, stream: bool) -> (r: Result<JsonValue, AiMuxError>)
    ensures
        match prompt_spec(
            options.prompt@,
            system_mode_spec(
                call_opts(options.provider_options),
                "openai"@,
                is_reasoning_spec(call_opts(options.provider_options), "openai"@, model_caps_spec(model_id@)),
                model_caps_spec(model_id@),
            ),
            "openai"@,
        ) {
            Err(m) => r matches Err(AiMuxError::InvalidArgument(e)) && e@ == m,
            Ok(messages) => r matches Ok(body) && body@ == request_body_spec(
                model_id@,
                *options,
                messages,
                stream,
                "openai"@,
                OpenAICompatProfile {
                    supports_top_k: true,
                    supports_tools: true,
                    supports_response_format: true,
                    stream_usage_key: None,
                    max_tokens_key: None,
                },
            ).0,
        },
{
    let profile = OpenAICompatProfile::full();
    match build_request_body_with_warnings(model_id, options, stream, "openai", &profile) {
        Ok(r) => Ok(r.body),
        Err(e) => Err(e),
    }
}

} // verus!
