//! Pieces of the chat-completions request body: provider options, token
//! limits, sampling parameters, response format, pass-through options,
//! service tier and tools.
//!
//! The body is held as the members of a JSON object, in insertion order;
//! setting a member replaces the value of the first member of that name or
//! appends a new one.

use vstd::prelude::*;

use crate::json::{json_get, json_view, members_view, opt_json_view, Json, JsonValue};
use crate::keyed::KeyedVec;
use crate::openai::convert::{find_first, first_index};
use crate::openai::convert_common::{ModelCapabilities, SystemMessageMode};
use crate::openai::OpenAICompatProfile;
use crate::text::{decimal_digits, is_prefix, str_eq, str_starts_with, u64_to_decimal};

verus! {

broadcast use vstd::std_specs::vec::group_vec_axioms;

/// A warning about a request setting that was dropped or changed.
#[derive(Debug)]
pub enum Warning {
    /// A feature the model or provider does not support.
    Unsupported { feature: String, details: Option<String> },
    /// Any other warning, by its message.
    Other { message: String },
}

/// A warning by its texts.
pub enum WarningV {
    Unsupported(Seq<char>, Option<Seq<char>>),
    Other(Seq<char>),
}

/// A warning by its texts.
pub open spec fn warning_view(w: Warning) -> WarningV {
    match w {
        Warning::Unsupported { feature, details } => WarningV::Unsupported(
            feature@,
            match details {
                Some(d) => Some(d@),
                None => None,
            },
        ),
        Warning::Other { message } => WarningV::Other(message@),
    }
}

/// Warnings by their texts.
pub open spec fn warnings_view(ws: Seq<Warning>) -> Seq<WarningV> {
    Seq::new(ws.len(), |i: int| warning_view(ws[i]))
}

/// Appends an `Unsupported` warning.
pub(crate) fn warn(warnings: &mut Vec<Warning>, feature: &str, details: Option<&str>)
    ensures
        warnings_view(final(warnings)@) == warnings_view(old(warnings)@).push(
            WarningV::Unsupported(
                feature@,
                match details {
                    Some(d) => Some(d@),
                    None => None,
                },
            ),
        ),
{
    let d = match details {
        Some(s) => Some(String::from_str(s)),
        None => None,
    };
    warnings.push(Warning::Unsupported { feature: String::from_str(feature), details: d });
    assert(warnings_view(warnings@) =~= warnings_view(old(warnings)@).push(
        WarningV::Unsupported(
            feature@,
            match details {
                Some(d) => Some(d@),
                None => None,
            },
        ),
    ));
}

// ── Provider options ──────────────────────────────────────────────────────

/// The provider-options map by its contents.
pub open spec fn opts_map(o: Option<&KeyedVec<JsonValue>>) -> Option<Map<Seq<char>, JsonValue>> {
    match o {
        Some(m) => Some(m@),
        None => None,
    }
}

/// `options[ns][key]`: the member `key` of the options object under the
/// namespace `ns`.
pub open spec fn namespace_option(opts: Option<Map<Seq<char>, JsonValue>>, ns: Seq<char>, key: Seq<char>) -> Option<Json> {
    match opts {
        Some(m) => if m.dom().contains(ns) {
            json_get(json_view(m[ns]), key)
        } else {
            None
        },
        None => None,
    }
}

/// A provider option: Groq reads its own namespace first, then `openai`;
/// every other provider reads `openai`.
pub open spec fn provider_option_spec(opts: Option<Map<Seq<char>, JsonValue>>, provider: Seq<char>, key: Seq<char>) -> Option<Json> {
    if provider == "groq"@ && namespace_option(opts, "groq"@, key) is Some {
        namespace_option(opts, "groq"@, key)
    } else {
        namespace_option(opts, "openai"@, key)
    }
}

/// `options[ns][key]`, copied.
fn namespace_option_of(opts: Option<&KeyedVec<JsonValue>>, ns: &str, key: &str) -> (r: Option<JsonValue>)
    ensures
        opt_json_view(r) == namespace_option(opts_map(opts), ns@, key@),
{
    match opts {
        None => None,
        Some(m) => match m.get(ns) {
            None => None,
            Some(o) => match o.get(key) {
                Some(v) => Some(v.deep_copy()),
                None => None,
            },
        },
    }
}

/// `options.openai[key]`, copied.
pub fn openai_option(opts: Option<&KeyedVec<JsonValue>>, key: &str) -> (r: Option<JsonValue>)
    ensures
        opt_json_view(r) == namespace_option(opts_map(opts), "openai"@, key@),
{
    namespace_option_of(opts, "openai", key)
}

/// A provider option (see [`provider_option_spec`]), copied.
pub fn provider_option(opts: Option<&KeyedVec<JsonValue>>, provider: &str, key: &str) -> (r: Option<JsonValue>)
    ensures
        opt_json_view(r) == provider_option_spec(opts_map(opts), provider@, key@),
{
    if str_eq(provider, "groq") {
        let g = namespace_option_of(opts, "groq", key);
        if g.is_some() {
            return g;
        }
    }
    openai_option(opts, key)
}

/// Whether the model is treated as a reasoning model: the `forceReasoning`
/// option decides when given (a non-boolean counts as `false`), else the
/// model's capabilities.
pub open spec fn is_reasoning_spec(opts: Option<Map<Seq<char>, JsonValue>>, provider: Seq<char>, caps: ModelCapabilities) -> bool {
    match provider_option_spec(opts, provider, "forceReasoning"@) {
        Some(v) => match v {
            Json::Bool(b) => b,
            _ => false,
        },
        None => caps.is_reasoning_model,
    }
}

/// Resolves whether the model is a reasoning model.
pub fn resolve_is_reasoning_model(opts: Option<&KeyedVec<JsonValue>>, provider: &str, caps: &ModelCapabilities) -> (b: bool)
    ensures
        b == is_reasoning_spec(opts_map(opts), provider@, *caps),
{
    match provider_option(opts, provider, "forceReasoning") {
        Some(v) => match v {
            JsonValue::Bool(b) => b,
            _ => false,
        },
        None => caps.is_reasoning_model,
    }
}

/// The system-message mode: the `systemMessageMode` option when it is a
/// string (`developer`, `remove`, anything else `system`); otherwise
/// `developer` for reasoning models and the model's own mode for others.
pub open spec fn system_mode_spec(
    opts: Option<Map<Seq<char>, JsonValue>>,
    provider: Seq<char>,
    is_reasoning_model: bool,
    caps: ModelCapabilities,
) -> SystemMessageMode {
    match provider_option_spec(opts, provider, "systemMessageMode"@) {
        Some(Json::String(s)) => if s == "developer"@ {
            SystemMessageMode::Developer
        } else if s == "remove"@ {
            SystemMessageMode::Remove
        } else {
            SystemMessageMode::System
        },
        _ => if is_reasoning_model {
            SystemMessageMode::Developer
        } else {
            caps.system_message_mode
        },
    }
}

/// Resolves the system-message mode.
pub fn resolve_system_message_mode(
    opts: Option<&KeyedVec<JsonValue>>,
    provider: &str,
    is_reasoning_model: bool,
    caps: &ModelCapabilities,
) -> (m: SystemMessageMode)
    ensures
        m == system_mode_spec(opts_map(opts), provider@, is_reasoning_model, *caps),
{
    match provider_option(opts, provider, "systemMessageMode") {
        Some(JsonValue::String(s)) => {
            if str_eq(s.as_str(), "developer") {
                SystemMessageMode::Developer
            } else if str_eq(s.as_str(), "remove") {
                SystemMessageMode::Remove
            } else {
                SystemMessageMode::System
            }
        },
        _ => {
            if is_reasoning_model {
                SystemMessageMode::Developer
            } else {
                caps.system_message_mode
            }
        },
    }
}

// ── Body members ─────────────────────────────────────────────────────────

/// The members after setting `k` to `v`.
pub open spec fn set_member_spec(ms: Seq<(Seq<char>, Json)>, k: Seq<char>, v: Json) -> Seq<(Seq<char>, Json)> {
    match first_index(ms, k) {
        Some(i) => ms.update(i, (k, v)),
        None => ms.push((k, v)),
    }
}

/// Sets the member `k` of a body to `v`.
pub fn set_member(body: &mut Vec<(String, JsonValue)>, k: &str, v: JsonValue)
    ensures
        members_view(final(body)@) == set_member_spec(members_view(old(body)@), k@, v@),
{
    let ghost before = body@;
    let ghost vv = v@;
    proof {
        crate::json::lemma_members_view(before);
    }
    match find_first(body, k) {
        Some(i) => {
            body.set(i, (String::from_str(k), v));
            proof {
                crate::json::lemma_members_view(body@);
                assert(members_view(body@) =~= members_view(before).update(i as int, (k@, vv)));
            }
        },
        None => {
            body.push((String::from_str(k), v));
            proof {
                crate::json::lemma_members_view(body@);
                assert(members_view(body@) =~= members_view(before).push((k@, vv)));
            }
        },
    }
}

/// A JSON number for an unsigned integer.
pub fn number_json(n: u64) -> (j: JsonValue)
    ensures
        j@ == Json::Number(decimal_digits(n as nat)),
{
    JsonValue::Number(u64_to_decimal(n))
}

// ── Token limit ──────────────────────────────────────────────────────────

/// `n` truncated to 32 bits.
pub open spec fn low32(n: u64) -> u32 {
    (n % 0x1_0000_0000) as u32
}

/// Whether the limit goes under `max_completion_tokens`: as the profile
/// names it, else for reasoning models.
pub open spec fn uses_completion_key(profile: OpenAICompatProfile, is_reasoning_model: bool) -> bool {
    match profile.max_tokens_key {
        Some(k) => if k@ == "max_tokens"@ {
            false
        } else if k@ == "max_completion_tokens"@ {
            true
        } else {
            is_reasoning_model
        },
        None => is_reasoning_model,
    }
}

/// The profile only takes `max_tokens`.
pub open spec fn only_max_tokens(profile: OpenAICompatProfile) -> bool {
    profile.max_tokens_key matches Some(k) && k@ == "max_tokens"@
}

/// The body after the token limit: the output limit under the profile's
/// key, then an explicit `maxCompletionTokens` option (an unsigned integer,
/// truncated to 32 bits) as `max_completion_tokens` unless the profile only
/// takes `max_tokens`.
#[verifier::opaque]
pub open spec fn max_tokens_spec(
    ms: Seq<(Seq<char>, Json)>,
    max_output_tokens: Option<u32>,
    opts: Option<Map<Seq<char>, JsonValue>>,
    provider: Seq<char>,
    profile: OpenAICompatProfile,
    is_reasoning_model: bool,
) -> Seq<(Seq<char>, Json)> {
    let ms1 = match max_output_tokens {
        Some(m) => set_member_spec(
            ms,
            if uses_completion_key(profile, is_reasoning_model) {
                "max_completion_tokens"@
            } else {
                "max_tokens"@
            },
            Json::Number(decimal_digits(m as nat)),
        ),
        None => ms,
    };
    let mct = match provider_option_spec(opts, provider, "maxCompletionTokens"@) {
        Some(v) => match crate::json::json_as_u64(v) {
            Some(n) => Some(low32(n)),
            None => None,
        },
        None => None,
    };
    match mct {
        Some(n) => if only_max_tokens(profile) {
            ms1
        } else {
            set_member_spec(ms1, "max_completion_tokens"@, Json::Number(decimal_digits(n as nat)))
        },
        None => ms1,
    }
}

/// Whether the profile's key is the given text.
fn key_is(profile: &OpenAICompatProfile, k: &str) -> (b: bool)
    ensures
        b == (profile.max_tokens_key matches Some(s) && s@ == k@),
{
    match &profile.max_tokens_key {
        Some(s) => str_eq(s.as_str(), k),
        None => false,
    }
}

/// Writes the token limit into the body (see [`max_tokens_spec`]).
pub fn apply_max_tokens(
    body: &mut Vec<(String, JsonValue)>,
    max_output_tokens: Option<u32>,
    opts: Option<&KeyedVec<JsonValue>>,
    provider: &str,
    profile: &OpenAICompatProfile,
    is_reasoning_model: bool,
)
    ensures
        members_view(final(body)@) == max_tokens_spec(
            members_view(old(body)@),
            max_output_tokens,
            opts_map(opts),
            provider@,
            *profile,
            is_reasoning_model,
        ),
{
    reveal(max_tokens_spec);
    let mct: Option<u32> = match provider_option(opts, provider, "maxCompletionTokens") {
        Some(v) => match v.as_u64() {
            Some(n) => Some((n % 0x1_0000_0000) as u32),
            None => None,
        },
        None => None,
    };
    let use_mct = if key_is(profile, "max_tokens") {
        false
    } else if key_is(profile, "max_completion_tokens") {
        true
    } else {
        is_reasoning_model
    };
    match max_output_tokens {
        Some(m) => {
            let key = if use_mct {
                "max_completion_tokens"
            } else {
                "max_tokens"
            };
            set_member(body, key, number_json(m as u64));
        },
        None => {},
    }
    match mct {
        Some(n) => {
            if !key_is(profile, "max_tokens") {
                set_member(body, "max_completion_tokens", number_json(n as u64));
            }
        },
        None => {},
    }
}

// ── Sampling parameters ──────────────────────────────────────────────────

/// The sampling settings of a call, each as the JSON number it is sent as.
#[derive(Debug)]
pub struct SamplingParams {
    pub temperature: Option<JsonValue>,
    pub top_p: Option<JsonValue>,
    pub frequency_penalty: Option<JsonValue>,
    pub presence_penalty: Option<JsonValue>,
}

/// A search-preview model, which takes no temperature.
pub open spec fn is_search_preview(model_id: Seq<char>) -> bool {
    is_prefix("gpt-4o-search-preview"@, model_id) || is_prefix("gpt-4o-mini-search-preview"@, model_id)
}

/// Reasoning models keep temperature and top-p only with reasoning effort
/// `none` on a model that supports non-reasoning parameters.
pub open spec fn keeps_non_reasoning(caps: ModelCapabilities, effort: Option<Seq<char>>) -> bool {
    effort == Some("none"@) && caps.supports_non_reasoning_parameters
}

/// Temperature is dropped: by reasoning models (unless kept, see
/// [`keeps_non_reasoning`]) and by the search-preview models.
pub open spec fn drops_temperature(model_id: Seq<char>, caps: ModelCapabilities, is_reasoning_model: bool, effort: Option<Seq<char>>) -> bool {
    if is_reasoning_model {
        !keeps_non_reasoning(caps, effort)
    } else {
        is_search_preview(model_id)
    }
}

/// Top-p is dropped by reasoning models (unless kept).
pub open spec fn drops_top_p(caps: ModelCapabilities, is_reasoning_model: bool, effort: Option<Seq<char>>) -> bool {
    is_reasoning_model && !keeps_non_reasoning(caps, effort)
}

/// The warning for each dropped setting that was given, in order:
/// temperature, top-p, frequency penalty, presence penalty.
#[verifier::opaque]
pub open spec fn sampling_warnings(
    has: (bool, bool, bool, bool),
    model_id: Seq<char>,
    caps: ModelCapabilities,
    is_reasoning_model: bool,
    effort: Option<Seq<char>>,
) -> Seq<WarningV> {
    let t = if has.0 && drops_temperature(model_id, caps, is_reasoning_model, effort) {
        if is_reasoning_model {
            seq![WarningV::Unsupported("temperature"@, Some("temperature is not supported for reasoning models"@))]
        } else {
            seq![
                WarningV::Unsupported(
                    "temperature"@,
                    Some("temperature is not supported for the search preview models and has been removed."@),
                ),
            ]
        }
    } else {
        Seq::empty()
    };
    let p = if has.1 && drops_top_p(caps, is_reasoning_model, effort) {
        seq![WarningV::Unsupported("topP"@, Some("topP is not supported for reasoning models"@))]
    } else {
        Seq::empty()
    };
    let f = if has.2 && is_reasoning_model {
        seq![WarningV::Unsupported("frequencyPenalty"@, Some("frequencyPenalty is not supported for reasoning models"@))]
    } else {
        Seq::empty()
    };
    let q = if has.3 && is_reasoning_model {
        seq![WarningV::Unsupported("presencePenalty"@, Some("presencePenalty is not supported for reasoning models"@))]
    } else {
        Seq::empty()
    };
    t + p + f + q
}

/// An optional value kept or dropped.
pub open spec fn kept(v: Option<JsonValue>, drop: bool) -> Option<Json> {
    if drop {
        None
    } else {
        opt_json_view(v)
    }
}

/// The warning added when a given setting is dropped.
pub open spec fn drop_warning(given: bool, drop: bool, feature: Seq<char>, details: Seq<char>) -> Seq<WarningV> {
    if given && drop {
        seq![WarningV::Unsupported(feature, Some(details))]
    } else {
        Seq::empty()
    }
}

/// Keeps or drops one setting, warning when a given one is dropped.
pub(crate) fn drop_setting(v: Option<JsonValue>, drop: bool, warnings: &mut Vec<Warning>, feature: &str, details: &str) -> (r: Option<JsonValue>)
    ensures
        opt_json_view(r) == kept(v, drop),
        warnings_view(final(warnings)@) == warnings_view(old(warnings)@) + drop_warning(v is Some, drop, feature@, details@),
{
    if drop {
        if v.is_some() {
            warn(warnings, feature, Some(details));
        } else {
            assert(warnings_view(warnings@) + Seq::empty() =~= warnings_view(warnings@));
        }
        None
    } else {
        assert(warnings_view(warnings@) + Seq::empty() =~= warnings_view(warnings@));
        v
    }
}

/// Which of temperature and top-p are dropped.
fn sampling_drops(
    model_id: &str,
    caps: &ModelCapabilities,
    is_reasoning_model: bool,
    resolved_reasoning_effort: Option<&str>,
) -> (r: (bool, bool))
    ensures
        r.0 == drops_temperature(model_id@, *caps, is_reasoning_model, crate::replay::opt_str(resolved_reasoning_effort)),
        r.1 == drops_top_p(*caps, is_reasoning_model, crate::replay::opt_str(resolved_reasoning_effort)),
{
    let effort_none = match resolved_reasoning_effort {
        Some(e) => str_eq(e, "none"),
        None => false,
    };
    let allow_non_reasoning = effort_none && caps.supports_non_reasoning_parameters;
    proof {
        assert(allow_non_reasoning == keeps_non_reasoning(*caps, crate::replay::opt_str(resolved_reasoning_effort))) by {
            reveal_strlit("none");
        }
    }
    let drop_t = if is_reasoning_model {
        !allow_non_reasoning
    } else {
        str_starts_with(model_id, "gpt-4o-search-preview") || str_starts_with(model_id, "gpt-4o-mini-search-preview")
    };
    (drop_t, is_reasoning_model && !allow_non_reasoning)
}

/// The sampling warnings are the four single-setting warnings in order.
proof fn lemma_sampling_warnings(
    has: (bool, bool, bool, bool),
    model_id: Seq<char>,
    caps: ModelCapabilities,
    is_reasoning_model: bool,
    effort: Option<Seq<char>>,
    t_details: Seq<char>,
)
    requires
        t_details == (if is_reasoning_model {
            "temperature is not supported for reasoning models"@
        } else {
            "temperature is not supported for the search preview models and has been removed."@
        }),
    ensures
        sampling_warnings(has, model_id, caps, is_reasoning_model, effort) == drop_warning(
            has.0,
            drops_temperature(model_id, caps, is_reasoning_model, effort),
            "temperature"@,
            t_details,
        ) + drop_warning(
            has.1,
            drops_top_p(caps, is_reasoning_model, effort),
            "topP"@,
            "topP is not supported for reasoning models"@,
        ) + drop_warning(
            has.2,
            is_reasoning_model,
            "frequencyPenalty"@,
            "frequencyPenalty is not supported for reasoning models"@,
        ) + drop_warning(has.3, is_reasoning_model, "presencePenalty"@, "presencePenalty is not supported for reasoning models"@),
{
    reveal(sampling_warnings);
}

/// Drops the sampling settings that the model does not take, warning for
/// each one that was given.
pub fn strip_sampling_params(
    params: SamplingParams,
    model_id: &str,
    caps: &ModelCapabilities,
    is_reasoning_model: bool,
    resolved_reasoning_effort: Option<&str>,
    warnings: &mut Vec<Warning>,
) -> (r: SamplingParams)
    ensures
        opt_json_view(r.temperature) == kept(
            params.temperature,
            drops_temperature(model_id@, *caps, is_reasoning_model, crate::replay::opt_str(resolved_reasoning_effort)),
        ),
        opt_json_view(r.top_p) == kept(
            params.top_p,
            drops_top_p(*caps, is_reasoning_model, crate::replay::opt_str(resolved_reasoning_effort)),
        ),
        opt_json_view(r.frequency_penalty) == kept(params.frequency_penalty, is_reasoning_model),
        opt_json_view(r.presence_penalty) == kept(params.presence_penalty, is_reasoning_model),
        warnings_view(final(warnings)@) == warnings_view(old(warnings)@) + sampling_warnings(
            (
                params.temperature is Some,
                params.top_p is Some,
                params.frequency_penalty is Some,
                params.presence_penalty is Some,
            ),
            model_id@,
            *caps,
            is_reasoning_model,
            crate::replay::opt_str(resolved_reasoning_effort),
        ),
{
    reveal(sampling_warnings);
    let ghost w0 = warnings_view(warnings@);
    let ghost effort = crate::replay::opt_str(resolved_reasoning_effort);
    let ghost has = (
        params.temperature is Some,
        params.top_p is Some,
        params.frequency_penalty is Some,
        params.presence_penalty is Some,
    );
    let SamplingParams { temperature, top_p, frequency_penalty, presence_penalty } = params;
    let (drop_t, drop_p) = sampling_drops(model_id, caps, is_reasoning_model, resolved_reasoning_effort);
    let t_details = if is_reasoning_model {
        "temperature is not supported for reasoning models"
    } else {
        "temperature is not supported for the search preview models and has been removed."
    };
    let temperature = drop_setting(temperature, drop_t, warnings, "temperature", t_details);
    let top_p = drop_setting(top_p, drop_p, warnings, "topP", "topP is not supported for reasoning models");
    let frequency_penalty = drop_setting(
        frequency_penalty,
        is_reasoning_model,
        warnings,
        "frequencyPenalty",
        "frequencyPenalty is not supported for reasoning models",
    );
    let presence_penalty = drop_setting(
        presence_penalty,
        is_reasoning_model,
        warnings,
        "presencePenalty",
        "presencePenalty is not supported for reasoning models",
    );
    proof {
        lemma_sampling_warnings(has, model_id@, *caps, is_reasoning_model, effort, t_details@);
    }
    SamplingParams { temperature, top_p, frequency_penalty, presence_penalty }
}

/// The body after the sampling settings, the stop sequences (as an array of
/// strings) and the seed.
#[verifier::opaque]
pub open spec fn sampling_members_spec(
    ms: Seq<(Seq<char>, Json)>,
    params: SamplingParams,
    stop: Option<Seq<Seq<char>>>,
    seed: Option<Json>,
) -> Seq<(Seq<char>, Json)> {
    let m1 = match params.temperature {
        Some(v) => set_member_spec(ms, "temperature"@, v@),
        None => ms,
    };
    let m2 = match params.top_p {
        Some(v) => set_member_spec(m1, "top_p"@, v@),
        None => m1,
    };
    let m3 = match params.frequency_penalty {
        Some(v) => set_member_spec(m2, "frequency_penalty"@, v@),
        None => m2,
    };
    let m4 = match params.presence_penalty {
        Some(v) => set_member_spec(m3, "presence_penalty"@, v@),
        None => m3,
    };
    let m5 = match stop {
        Some(s) => set_member_spec(m4, "stop"@, Json::Array(Seq::new(s.len(), |i: int| Json::String(s[i])))),
        None => m4,
    };
    match seed {
        Some(v) => set_member_spec(m5, "seed"@, v),
        None => m5,
    }
}

/// A list of strings as a JSON array.
pub fn strings_json(s: &Vec<String>) -> (j: JsonValue)
    ensures
        j@ == Json::Array(Seq::new(s@.len(), |i: int| Json::String(s@[i]@))),
{
    let mut items: Vec<JsonValue> = Vec::new();
    let mut i: usize = 0;
    while i < s.len()
        invariant
            0 <= i <= s@.len(),
            items@.len() == i,
            forall|j: int| 0 <= j < i ==> #[trigger] items@[j]@ == Json::String(s@[j]@),
        decreases s@.len() - i,
    {
        items.push(JsonValue::String(s[i].clone()));
        i += 1;
    }
    proof {
        crate::json::lemma_items_view(items@);
        assert forall|j: int| 0 <= j < items@.len() implies #[trigger] crate::json::items_view(items@)[j] == Json::String(
            s@[j]@,
        ) by {
            assert(items@[j]@ == Json::String(s@[j]@));
        }
        assert(crate::json::items_view(items@) =~= Seq::new(s@.len(), |i: int| Json::String(s@[i]@)));
    }
    JsonValue::Array(items)
}

/// Writes the sampling settings, the stop sequences and the seed into the
/// body.
pub fn insert_sampling_params(
    body: &mut Vec<(String, JsonValue)>,
    params: &SamplingParams,
    stop: Option<&Vec<String>>,
    seed: Option<&JsonValue>,
)
    ensures
        members_view(final(body)@) == sampling_members_spec(
            members_view(old(body)@),
            *params,
            match stop {
                Some(s) => Some(Seq::new(s@.len(), |i: int| s@[i]@)),
                None => None,
            },
            crate::json::opt_json_ref_view(seed),
        ),
{
    reveal(sampling_members_spec);
    match &params.temperature {
        Some(v) => set_member(body, "temperature", v.deep_copy()),
        None => {},
    }
    match &params.top_p {
        Some(v) => set_member(body, "top_p", v.deep_copy()),
        None => {},
    }
    match &params.frequency_penalty {
        Some(v) => set_member(body, "frequency_penalty", v.deep_copy()),
        None => {},
    }
    match &params.presence_penalty {
        Some(v) => set_member(body, "presence_penalty", v.deep_copy()),
        None => {},
    }
    match stop {
        Some(s) => {
            let j = strings_json(s);
            proof {
                let sv = Seq::new(s@.len(), |i: int| s@[i]@);
                assert(Seq::new(sv.len(), |i: int| Json::String(sv[i])) =~= Seq::new(
                    s@.len(),
                    |i: int| Json::String(s@[i]@),
                ));
            }
            set_member(body, "stop", j);
        },
        None => {},
    }
    match seed {
        Some(v) => set_member(body, "seed", v.deep_copy()),
        None => {},
    }
}

// ── Response format ──────────────────────────────────────────────────────

/// The output format a call asks for.
#[derive(Debug)]
pub enum ResponseFormat {
    Text,
    Json { schema: Option<JsonValue>, name: Option<String>, description: Option<String> },
}

/// A JSON string.
pub open spec fn jstr(s: Seq<char>) -> Json {
    Json::String(s)
}

/// The `json_schema` object: the schema, the name (`response` by
/// default), the description and the strictness flag.
pub open spec fn json_schema_members(
    schema: Option<Json>,
    name: Option<Seq<char>>,
    description: Option<Seq<char>>,
    strict: bool,
) -> Seq<(Seq<char>, Json)> {
    let m1 = match schema {
        Some(s) => seq![("schema"@, s)],
        None => Seq::empty(),
    };
    let m2 = m1.push(
        (
            "name"@,
            jstr(
                match name {
                    Some(n) => n,
                    None => "response"@,
                },
            ),
        ),
    );
    let m3 = match description {
        Some(d) => m2.push(("description"@, jstr(d))),
        None => m2,
    };
    m3.push(("strict"@, Json::Bool(strict)))
}

/// A boolean provider option, `true` when absent or not a boolean.
pub open spec fn bool_option_or_true(opts: Option<Map<Seq<char>, JsonValue>>, provider: Seq<char>, key: Seq<char>) -> bool {
    match provider_option_spec(opts, provider, key) {
        Some(Json::Bool(b)) => b,
        _ => true,
    }
}

/// An optional string by its characters.
pub open spec fn opt_chars(o: Option<String>) -> Option<Seq<char>> {
    match o {
        Some(s) => Some(s@),
        None => None,
    }
}

/// The body and added warnings after the response format. A profile
/// without response-format support drops it, warning unless it is plain
/// text. A JSON format with a schema becomes `json_schema` (for Groq only
/// while `structuredOutputs` holds, with `strictJsonSchema` as strictness;
/// otherwise `json_object` and a warning); without a schema, `json_object`.
#[verifier::opaque]
pub open spec fn response_format_spec(
    ms: Seq<(Seq<char>, Json)>,
    rf: Option<ResponseFormat>,
    opts: Option<Map<Seq<char>, JsonValue>>,
    provider: Seq<char>,
    supports_response_format: bool,
) -> (Seq<(Seq<char>, Json)>, Seq<WarningV>) {
    if !supports_response_format {
        match rf {
            Some(ResponseFormat::Json { .. }) => (
                ms,
                seq![WarningV::Unsupported("responseFormat"@, Some("response_format is not supported by this provider"@))],
            ),
            _ => (ms, Seq::empty()),
        }
    } else {
        match rf {
            Some(ResponseFormat::Json { schema, name, description }) => {
                let groq = provider == "groq"@;
                let structured = if groq {
                    bool_option_or_true(opts, provider, "structuredOutputs"@)
                } else {
                    true
                };
                let strict = if groq {
                    bool_option_or_true(opts, provider, "strictJsonSchema"@)
                } else {
                    true
                };
                let json_object = Json::Object(seq![("type"@, jstr("json_object"@))]);
                if schema is Some && structured {
                    let schema_obj = Json::Object(
                        json_schema_members(opt_json_view(schema), opt_chars(name), opt_chars(description), strict),
                    );
                    (
                        set_member_spec(
                            ms,
                            "response_format"@,
                            Json::Object(seq![("type"@, jstr("json_schema"@)), ("json_schema"@, schema_obj)]),
                        ),
                        Seq::empty(),
                    )
                } else if schema is Some {
                    (
                        set_member_spec(ms, "response_format"@, json_object),
                        seq![
                            WarningV::Unsupported(
                                "responseFormat"@,
                                Some("JSON response format schema is only supported with structuredOutputs"@),
                            ),
                        ],
                    )
                } else {
                    (set_member_spec(ms, "response_format"@, json_object), Seq::empty())
                }
            },
            _ => (ms, Seq::empty()),
        }
    }
}

/// A boolean provider option, `true` when absent or not a boolean.
fn bool_option_or_true_of(opts: Option<&KeyedVec<JsonValue>>, provider: &str, key: &str) -> (b: bool)
    ensures
        b == bool_option_or_true(opts_map(opts), provider@, key@),
{
    match provider_option(opts, provider, key) {
        Some(JsonValue::Bool(b)) => b,
        _ => true,
    }
}

/// `{"type": t}`.
fn type_object(t: &str) -> (j: JsonValue)
    ensures
        j@ == Json::Object(seq![("type"@, jstr(t@))]),
{
    let mut ms: Vec<(String, JsonValue)> = Vec::new();
    assert(members_view(ms@) =~= Seq::<(Seq<char>, Json)>::empty());
    push_member(&mut ms, "type", JsonValue::String(String::from_str(t)));
    assert(members_view(ms@) =~= seq![("type"@, jstr(t@))]);
    JsonValue::Object(ms)
}

/// Appends a member to a list of members.
fn push_member(ms: &mut Vec<(String, JsonValue)>, k: &str, v: JsonValue)
    ensures
        members_view(final(ms)@) == members_view(old(ms)@).push((k@, v@)),
{
    ms.push((String::from_str(k), v));
    assert(ms@.drop_last() =~= old(ms)@);
}

/// Writes the response format into the body (see [`response_format_spec`]).
pub fn apply_response_format(
    body: &mut Vec<(String, JsonValue)>,
    response_format: Option<&ResponseFormat>,
    opts: Option<&KeyedVec<JsonValue>>,
    provider: &str,
    profile: &OpenAICompatProfile,
    warnings: &mut Vec<Warning>,
)
    ensures
        ({
            let (ms, ws) = response_format_spec(
                members_view(old(body)@),
                match response_format {
                    Some(r) => Some(*r),
                    None => None,
                },
                opts_map(opts),
                provider@,
                profile.supports_response_format,
            );
            &&& members_view(final(body)@) == ms
            &&& warnings_view(final(warnings)@) == warnings_view(old(warnings)@) + ws
        }),
{
    reveal(response_format_spec);
    let ghost w0 = warnings_view(warnings@);
    if !profile.supports_response_format {
        match response_format {
            Some(ResponseFormat::Json { .. }) => {
                warn(warnings, "responseFormat", Some("response_format is not supported by this provider"));
            },
            _ => {
                assert(w0 + Seq::empty() =~= w0);
            },
        }
        return;
    }
    match response_format {
        Some(ResponseFormat::Json { schema, name, description }) => {
            let groq = str_eq(provider, "groq");
            let structured = if groq {
                bool_option_or_true_of(opts, provider, "structuredOutputs")
            } else {
                true
            };
            let strict = if groq {
                bool_option_or_true_of(opts, provider, "strictJsonSchema")
            } else {
                true
            };
            match schema {
                Some(sc) => {
                    if structured {
                        let mut so: Vec<(String, JsonValue)> = Vec::new();
                        assert(members_view(so@) =~= Seq::<(Seq<char>, Json)>::empty());
                        push_member(&mut so, "schema", sc.deep_copy());
                        let n = match name {
                            Some(n) => n.clone(),
                            None => String::from_str("response"),
                        };
                        push_member(&mut so, "name", JsonValue::String(n));
                        match description {
                            Some(d) => push_member(&mut so, "description", JsonValue::String(d.clone())),
                            None => {},
                        }
                        push_member(&mut so, "strict", JsonValue::Bool(strict));
                        proof {
                            assert(members_view(so@) =~= json_schema_members(
                                opt_json_view(*schema),
                                opt_chars(*name),
                                opt_chars(*description),
                                strict,
                            ));
                        }
                        let ghost so_view = members_view(so@);
                        let mut rf: Vec<(String, JsonValue)> = Vec::new();
                        assert(members_view(rf@) =~= Seq::<(Seq<char>, Json)>::empty());
                        push_member(&mut rf, "type", JsonValue::String(String::from_str("json_schema")));
                        push_member(&mut rf, "json_schema", JsonValue::Object(so));
                        proof {
                            assert(members_view(rf@) =~= seq![
                                ("type"@, jstr("json_schema"@)),
                                ("json_schema"@, Json::Object(so_view)),
                            ]);
                        }
                        set_member(body, "response_format", JsonValue::Object(rf));
                        assert(w0 + Seq::empty() =~= w0);
                    } else {
                        set_member(body, "response_format", type_object("json_object"));
                        warn(
                            warnings,
                            "responseFormat",
                            Some("JSON response format schema is only supported with structuredOutputs"),
                        );
                    }
                },
                None => {
                    set_member(body, "response_format", type_object("json_object"));
                    assert(w0 + Seq::empty() =~= w0);
                },
            }
        },
        _ => {
            assert(w0 + Seq::empty() =~= w0);
        },
    }
}

// ── Pass-through options ─────────────────────────────────────────────────

/// Copies a provider option, when given, into a body member.
pub open spec fn pass_spec(
    ms: Seq<(Seq<char>, Json)>,
    opts: Option<Map<Seq<char>, JsonValue>>,
    provider: Seq<char>,
    key: Seq<char>,
    body_key: Seq<char>,
) -> Seq<(Seq<char>, Json)> {
    match provider_option_spec(opts, provider, key) {
        Some(v) => set_member_spec(ms, body_key, v),
        None => ms,
    }
}

/// The options copied one to one into the body, as `(option, member)`.
pub open spec fn passthrough_pairs() -> Seq<(Seq<char>, Seq<char>)> {
    seq![
        ("logitBias"@, "logit_bias"@),
        ("user"@, "user"@),
        ("parallelToolCalls"@, "parallel_tool_calls"@),
        ("textVerbosity"@, "verbosity"@),
        ("store"@, "store"@),
        ("metadata"@, "metadata"@),
        ("prediction"@, "prediction"@),
        ("promptCacheKey"@, "prompt_cache_key"@),
        ("promptCacheRetention"@, "prompt_cache_retention"@),
        ("promptCacheOptions"@, "prompt_cache_options"@),
        ("safetyIdentifier"@, "safety_identifier"@),
        ("logprobs"@, "logprobs"@),
        ("topLogprobs"@, "top_logprobs"@),
    ]
}

/// The body after copying the first `n` pass-through options.
pub open spec fn passthrough_prefix(
    ms: Seq<(Seq<char>, Json)>,
    opts: Option<Map<Seq<char>, JsonValue>>,
    provider: Seq<char>,
    n: nat,
) -> Seq<(Seq<char>, Json)>
    decreases n,
{
    if n == 0 {
        ms
    } else {
        let p = passthrough_pairs()[n - 1];
        pass_spec(passthrough_prefix(ms, opts, provider, (n - 1) as nat), opts, provider, p.0, p.1)
    }
}

/// The body after the pass-through options, then (for Groq) the
/// `reasoningFormat` option as `reasoning_format`.
#[verifier::opaque]
pub open spec fn passthrough_spec(
    ms: Seq<(Seq<char>, Json)>,
    opts: Option<Map<Seq<char>, JsonValue>>,
    provider: Seq<char>,
) -> Seq<(Seq<char>, Json)> {
    let m = passthrough_prefix(ms, opts, provider, 13);
    if provider == "groq"@ {
        pass_spec(m, opts, provider, "reasoningFormat"@, "reasoning_format"@)
    } else {
        m
    }
}

/// Copies one option into the body.
pub(crate) fn pass(
    body: &mut Vec<(String, JsonValue)>,
    opts: Option<&KeyedVec<JsonValue>>,
    provider: &str,
    key: &str,
    body_key: &str,
)
    ensures
        members_view(final(body)@) == pass_spec(members_view(old(body)@), opts_map(opts), provider@, key@, body_key@),
{
    match provider_option(opts, provider, key) {
        Some(v) => set_member(body, body_key, v),
        None => {},
    }
}

/// Copies the pass-through options into the body (see
/// [`passthrough_spec`]).
pub fn apply_provider_option_passthrough(
    body: &mut Vec<(String, JsonValue)>,
    opts: Option<&KeyedVec<JsonValue>>,
    provider: &str,
)
    ensures
        members_view(final(body)@) == passthrough_spec(members_view(old(body)@), opts_map(opts), provider@),
{
    reveal(passthrough_spec);
    let ghost ms = members_view(body@);
    let ghost o = opts_map(opts);
    let ghost pv = provider@;
    let keys = [
        ("logitBias", "logit_bias"),
        ("user", "user"),
        ("parallelToolCalls", "parallel_tool_calls"),
        ("textVerbosity", "verbosity"),
        ("store", "store"),
        ("metadata", "metadata"),
        ("prediction", "prediction"),
        ("promptCacheKey", "prompt_cache_key"),
        ("promptCacheRetention", "prompt_cache_retention"),
        ("promptCacheOptions", "prompt_cache_options"),
        ("safetyIdentifier", "safety_identifier"),
        ("logprobs", "logprobs"),
        ("topLogprobs", "top_logprobs"),
    ];
    proof {
        assert(keys@.len() == 13);
        assert forall|i: int| 0 <= i < 13 implies (#[trigger] keys@[i]).0@ == passthrough_pairs()[i].0
            && keys@[i].1@ == passthrough_pairs()[i].1 by {
            reveal_strlit("logitBias");
            reveal_strlit("logit_bias");
            reveal_strlit("user");
            reveal_strlit("parallelToolCalls");
            reveal_strlit("parallel_tool_calls");
            reveal_strlit("textVerbosity");
            reveal_strlit("verbosity");
            reveal_strlit("store");
            reveal_strlit("metadata");
            reveal_strlit("prediction");
            reveal_strlit("promptCacheKey");
            reveal_strlit("prompt_cache_key");
            reveal_strlit("promptCacheRetention");
            reveal_strlit("prompt_cache_retention");
            reveal_strlit("promptCacheOptions");
            reveal_strlit("prompt_cache_options");
            reveal_strlit("safetyIdentifier");
            reveal_strlit("safety_identifier");
            reveal_strlit("logprobs");
            reveal_strlit("topLogprobs");
            reveal_strlit("top_logprobs");
        }
    }
    let mut i: usize = 0;
    while i < 13
        invariant
            0 <= i <= 13,
            keys@.len() == 13,
            forall|j: int| 0 <= j < 13 ==> (#[trigger] keys@[j]).0@ == passthrough_pairs()[j].0
                && keys@[j].1@ == passthrough_pairs()[j].1,
            members_view(body@) == passthrough_prefix(ms, o, pv, i as nat),
            o == opts_map(opts),
            pv == provider@,
        decreases 13 - i,
    {
        let (k, bk) = keys[i];
        pass(body, opts, provider, k, bk);
        i += 1;
    }
    if str_eq(provider, "groq") {
        pass(body, opts, provider, "reasoningFormat", "reasoning_format");
    }
}

// ── Service tier ─────────────────────────────────────────────────────────

/// The body and added warnings after the service tier. Groq passes the
/// option through as given. Elsewhere a string tier is sent, except `flex`
/// and `priority` on models without that processing, which warn instead.
#[verifier::opaque]
pub open spec fn service_tier_spec(
    ms: Seq<(Seq<char>, Json)>,
    opts: Option<Map<Seq<char>, JsonValue>>,
    provider: Seq<char>,
    caps: ModelCapabilities,
) -> (Seq<(Seq<char>, Json)>, Seq<WarningV>) {
    if provider == "groq"@ {
        (pass_spec(ms, opts, provider, "serviceTier"@, "service_tier"@), Seq::empty())
    } else {
        match provider_option_spec(opts, provider, "serviceTier"@) {
            Some(Json::String(st)) => if st == "flex"@ && !caps.supports_flex_processing {
                (
                    ms,
                    seq![
                        WarningV::Unsupported(
                            "serviceTier"@,
                            Some("flex processing is only available for o3, o4-mini, and gpt-5 models"@),
                        ),
                    ],
                )
            } else if st == "priority"@ && !caps.supports_priority_processing {
                (ms, seq![WarningV::Unsupported("serviceTier"@, Some(priority_tier_message()))])
            } else {
                (set_member_spec(ms, "service_tier"@, jstr(st)), Seq::empty())
            },
            _ => (ms, Seq::empty()),
        }
    }
}

/// The warning text for an unsupported priority tier.
pub open spec fn priority_tier_message() -> Seq<char> {
    "priority processing is only available for supported models (gpt-4, gpt-5, gpt-5-mini, o3, o4-mini) and requires Enterprise access. gpt-5-nano is not supported"@
}

/// Writes the service tier into the body (see [`service_tier_spec`]).
pub fn apply_service_tier(
    body: &mut Vec<(String, JsonValue)>,
    opts: Option<&KeyedVec<JsonValue>>,
    provider: &str,
    caps: &ModelCapabilities,
    warnings: &mut Vec<Warning>,
)
    ensures
        ({
            let (ms, ws) = service_tier_spec(members_view(old(body)@), opts_map(opts), provider@, *caps);
            &&& members_view(final(body)@) == ms
            &&& warnings_view(final(warnings)@) == warnings_view(old(warnings)@) + ws
        }),
{
    reveal(service_tier_spec);
    let ghost w0 = warnings_view(warnings@);
    if str_eq(provider, "groq") {
        pass(body, opts, provider, "serviceTier", "service_tier");
        assert(w0 + Seq::empty() =~= w0);
        return;
    }
    match provider_option(opts, provider, "serviceTier") {
        Some(JsonValue::String(st)) => {
            if str_eq(st.as_str(), "flex") && !caps.supports_flex_processing {
                warn(
                    warnings,
                    "serviceTier",
                    Some("flex processing is only available for o3, o4-mini, and gpt-5 models"),
                );
            } else if str_eq(st.as_str(), "priority") && !caps.supports_priority_processing {
                warn(
                    warnings,
                    "serviceTier",
                    Some(
                        "priority processing is only available for supported models (gpt-4, gpt-5, gpt-5-mini, o3, o4-mini) and requires Enterprise access. gpt-5-nano is not supported",
                    ),
                );
            } else {
                set_member(body, "service_tier", JsonValue::String(st));
                assert(w0 + Seq::empty() =~= w0);
            }
        },
        _ => {
            assert(w0 + Seq::empty() =~= w0);
        },
    }
}

/// Replacing a member under another name leaves a name's value as it was.
proof fn lemma_member_get_update(ms: Seq<(Seq<char>, Json)>, i: int, m: (Seq<char>, Json), k2: Seq<char>)
    requires
        0 <= i < ms.len(),
        ms[i].0 != k2,
        m.0 != k2,
    ensures
        crate::json::member_get(ms.update(i, m), k2) == crate::json::member_get(ms, k2),
    decreases ms.len(),
{
    let u = ms.update(i, m);
    if i == ms.len() - 1 {
        assert(u.drop_last() =~= ms.drop_last());
    } else {
        assert(u.drop_last() =~= ms.drop_last().update(i, m));
        lemma_member_get_update(ms.drop_last(), i, m, k2);
    }
}

/// Setting one member leaves every other member's value as it was.
pub proof fn lemma_set_member_get_other(ms: Seq<(Seq<char>, Json)>, k: Seq<char>, v: Json, k2: Seq<char>)
    requires
        k != k2,
    ensures
        crate::json::member_get(set_member_spec(ms, k, v), k2) == crate::json::member_get(ms, k2),
{
    crate::openai::convert::lemma_first_index_found(ms, k);
    match crate::openai::convert::first_index(ms, k) {
        Some(i) => lemma_member_get_update(ms, i, (k, v), k2),
        None => {
            assert(ms.push((k, v)).drop_last() =~= ms);
        },
    }
}

} // verus!
