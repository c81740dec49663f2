//! Model-capability and version detection shared by the Chat Completions and
//! Responses request builders.

use vstd::prelude::*;

use crate::text::{
    chars_of, chars_start_with, digit_run, digit_run_from, is_digit, is_prefix, lemma_digit_run,
    parse_u32, parse_u32_digits, slice_chars, string_from_chars, trim_dashes_from, trim_leading_dashes,
};

verus! {

/// Parsed GPT version of a model id (e.g. `gpt-5.1-codex` → major 5, minor 1,
/// variant `codex`).
#[derive(Debug)]
pub struct GptVersion {
    pub major: u32,
    pub minor: Option<u32>,
    pub variant: Option<String>,
}

/// The version as plain values: `(major, minor, variant)`.
pub open spec fn gpt_version_view(v: GptVersion) -> (u32, Option<u32>, Option<Seq<char>>) {
    (
        v.major,
        v.minor,
        match v.variant {
            Some(s) => Some(s@),
            None => None,
        },
    )
}

/// The variant named by the rest of a model id: absent when empty, else the
/// rest without its leading dashes.
pub open spec fn variant_of(r: Seq<char>) -> Option<Seq<char>> {
    if r.len() == 0 {
        None
    } else {
        Some(trim_leading_dashes(r))
    }
}

/// `m` starts with `gpt-`.
pub open spec fn has_gpt_prefix(m: Seq<char>) -> bool {
    m.len() >= 4 && m[0] == 'g' && m[1] == 'p' && m[2] == 't' && m[3] == '-'
}

/// The GPT version of a model id: `gpt-` followed by a decimal major
/// version that fits in `u32`; then either `.` and a minor version, or
/// a variant.
pub open spec fn gpt_version_spec(m: Seq<char>) -> Option<(u32, Option<u32>, Option<Seq<char>>)> {
    if !has_gpt_prefix(m) {
        None
    } else {
        let rest = m.skip(4);
        let k = digit_run(rest);
        let remainder = rest.skip(k as int);
        match parse_u32_digits(rest.take(k as int)) {
            None => None,
            Some(major) => if remainder.len() > 0 && remainder[0] == '.' {
                let stripped = remainder.skip(1);
                let j = digit_run(stripped);
                if j == 0 {
                    Some((major, None, variant_of(remainder)))
                } else {
                    Some(
                        (
                            major,
                            parse_u32_digits(stripped.take(j as int)),
                            variant_of(stripped.skip(j as int)),
                        ),
                    )
                }
            } else {
                Some((major, None, variant_of(remainder)))
            },
        }
    }
}

/// The o-series version of a model id: `o` followed by a decimal number
/// that fits in `u32`.
pub open spec fn o_series_version_spec(m: Seq<char>) -> Option<u32> {
    if m.len() > 0 && m[0] == 'o' {
        parse_u32_digits(m.skip(1).take(digit_run(m.skip(1)) as int))
    } else {
        None
    }
}

proof fn lemma_run_digits(s: Seq<char>, from: int, k: int)
    requires
        0 <= from <= s.len(),
        k == digit_run(s.skip(from)),
    ensures
        from + k <= s.len(),
        forall|i: int| 0 <= i < k ==> is_digit(#[trigger] s.subrange(from, from + k)[i]),
        s.subrange(from, from + k) == s.skip(from).take(k),
        s.skip(from).skip(k) == s.skip(from + k),
{
    lemma_digit_run(s.skip(from));
    assert forall|i: int| 0 <= i < k implies is_digit(#[trigger] s.subrange(from, from + k)[i]) by {
        assert(s.subrange(from, from + k)[i] == s.skip(from)[i]);
    }
    assert(s.subrange(from, from + k) =~= s.skip(from).take(k));
    assert(s.skip(from).skip(k) =~= s.skip(from + k));
}

/// Extracts the GPT version from a model id (e.g. `gpt-5.1-codex` →
/// major 5, minor 1, variant `codex`).
pub fn get_gpt_version(model_id: &str) -> (r: Option<GptVersion>)
    ensures
        match r {
            Some(v) => gpt_version_spec(model_id@) == Some(gpt_version_view(v)),
            None => gpt_version_spec(model_id@) is None,
        },
{
    let m = chars_of(model_id);
    let ghost ms = m@;
    if !(m.len() >= 4 && m[0] == 'g' && m[1] == 'p' && m[2] == 't' && m[3] == '-') {
        return None;
    }
    let k = digit_run_from(&m, 4);
    proof {
        lemma_run_digits(ms, 4, k as int);
    }
    let major_str = slice_chars(&m, 4, 4 + k);
    let major = match parse_u32(&major_str) {
        Some(v) => v,
        None => return None,
    };
    let r = 4 + k;
    assert(ms.skip(4).skip(k as int) == ms.skip(r as int));
    if r < m.len() && m[r] == '.' {
        assert(ms.skip(r as int)[0] == ms[r as int]);
        let j = digit_run_from(&m, r + 1);
        proof {
            lemma_run_digits(ms, r + 1, j as int);
            assert(ms.skip(r as int).skip(1) =~= ms.skip(r + 1));
        }
        if j == 0 {
            let variant = if r == m.len() {
                None
            } else {
                Some(string_from_chars(&trim_dashes_from(&m, r)))
            };
            return Some(GptVersion { major, minor: None, variant });
        }
        let minor_str = slice_chars(&m, r + 1, r + 1 + j);
        let minor = parse_u32(&minor_str);
        let a = r + 1 + j;
        let variant = if a == m.len() {
            assert(ms.skip(a as int).len() == 0);
            None
        } else {
            Some(string_from_chars(&trim_dashes_from(&m, a)))
        };
        Some(GptVersion { major, minor, variant })
    } else {
        let variant = if r == m.len() {
            assert(ms.skip(r as int).len() == 0);
            None
        } else {
            Some(string_from_chars(&trim_dashes_from(&m, r)))
        };
        Some(GptVersion { major, minor: None, variant })
    }
}

/// Extracts the o-series version from a model id (e.g. `o3-mini` → 3).
pub fn get_o_series_version(model_id: &str) -> (r: Option<u32>)
    ensures
        r == o_series_version_spec(model_id@),
{
    let m = chars_of(model_id);
    let ghost ms = m@;
    if !(m.len() > 0 && m[0] == 'o') {
        return None;
    }
    let k = digit_run_from(&m, 1);
    proof {
        lemma_run_digits(ms, 1, k as int);
    }
    let digits = slice_chars(&m, 1, 1 + k);
    parse_u32(&digits)
}

/// How system messages are mapped for a model.
#[derive(Debug, Clone, Copy, PartialEq, Eq)]
pub enum SystemMessageMode {
    System,
    Developer,
    Remove,
}

/// Model capabilities relevant to request body construction.
#[derive(Debug)]
pub struct ModelCapabilities {
    pub is_reasoning_model: bool,
    pub system_message_mode: SystemMessageMode,
    pub supports_flex_processing: bool,
    pub supports_priority_processing: bool,
    pub supports_non_reasoning_parameters: bool,
}

/// A GPT chat model: no minor version and a variant starting with `chat`.
pub open spec fn is_gpt_chat_spec(g: Option<(u32, Option<u32>, Option<Seq<char>>)>) -> bool {
    match g {
        Some((_, None, Some(var))) => is_prefix(seq!['c', 'h', 'a', 't'], var),
        _ => false,
    }
}

/// A GPT nano model: a variant starting with `nano`.
pub open spec fn is_gpt_nano_spec(g: Option<(u32, Option<u32>, Option<Seq<char>>)>) -> bool {
    match g {
        Some((_, _, Some(var))) => is_prefix(seq!['n', 'a', 'n', 'o'], var),
        _ => false,
    }
}

/// GPT major version at least 5 and not a chat model.
pub open spec fn is_gpt5_non_chat_spec(g: Option<(u32, Option<u32>, Option<Seq<char>>)>) -> bool {
    match g {
        Some((major, _, _)) => major >= 5 && !is_gpt_chat_spec(g),
        None => false,
    }
}

/// o-series version at least 3.
pub open spec fn is_o3_or_later_spec(o: Option<u32>) -> bool {
    match o {
        Some(v) => v >= 3,
        None => false,
    }
}

pub open spec fn is_reasoning_model_spec(m: Seq<char>) -> bool {
    o_series_version_spec(m) is Some || is_gpt5_non_chat_spec(gpt_version_spec(m))
}

pub open spec fn supports_flex_processing_spec(m: Seq<char>) -> bool {
    is_o3_or_later_spec(o_series_version_spec(m)) || is_gpt5_non_chat_spec(gpt_version_spec(m))
}

pub open spec fn supports_priority_processing_spec(m: Seq<char>) -> bool {
    let g = gpt_version_spec(m);
    ||| is_prefix(seq!['g', 'p', 't', '-', '4'], m)
    ||| (is_gpt5_non_chat_spec(g) && !is_gpt_nano_spec(g))
    ||| is_o3_or_later_spec(o_series_version_spec(m))
}

pub open spec fn supports_non_reasoning_parameters_spec(m: Seq<char>) -> bool {
    match gpt_version_spec(m) {
        Some((major, minor, _)) => major > 5 || (major == 5 && match minor {
            Some(x) => x >= 1,
            None => false,
        }),
        None => false,
    }
}

/// The capabilities of a model, decided by its id.
pub fn get_model_capabilities(model_id: &str) -> (c: ModelCapabilities)
    ensures
        c.is_reasoning_model == is_reasoning_model_spec(model_id@),
        c.system_message_mode == (if is_reasoning_model_spec(model_id@) {
            SystemMessageMode::Developer
        } else {
            SystemMessageMode::System
        }),
        c.supports_flex_processing == supports_flex_processing_spec(model_id@),
        c.supports_priority_processing == supports_priority_processing_spec(model_id@),
        c.supports_non_reasoning_parameters == supports_non_reasoning_parameters_spec(model_id@),
{
    let o_version = get_o_series_version(model_id);
    let gpt_version = get_gpt_version(model_id);
    let ghost g = gpt_version_spec(model_id@);
    let (is_gpt_chat_model, is_gpt_nano_model, gpt_major_5_plus, non_reasoning) = match &gpt_version {
        Some(v) => {
            let (chat, nano) = match &v.variant {
                Some(var) => {
                    let vc = chars_of(var.as_str());
                    (
                        v.minor.is_none() && chars_start_with(&vc, &vec!['c', 'h', 'a', 't']),
                        chars_start_with(&vc, &vec!['n', 'a', 'n', 'o']),
                    )
                },
                None => (false, false),
            };
            let nr = v.major > 5 || (v.major == 5 && match v.minor {
                Some(x) => x >= 1,
                None => false,
            });
            (chat, nano, v.major >= 5, nr)
        },
        None => (false, false, false, false),
    };
    assert(is_gpt_chat_model == is_gpt_chat_spec(g));
    assert(is_gpt_nano_model == is_gpt_nano_spec(g));
    let gpt5_non_chat = gpt_major_5_plus && !is_gpt_chat_model;
    let o3 = match o_version {
        Some(v) => v >= 3,
        None => false,
    };
    let supports_flex_processing = o3 || gpt5_non_chat;
    let m = chars_of(model_id);
    let supports_priority_processing = chars_start_with(&m, &vec!['g', 'p', 't', '-', '4'])
        || (gpt5_non_chat && !is_gpt_nano_model) || o3;
    let is_reasoning_model = o_version.is_some() || gpt5_non_chat;
    let system_message_mode = if is_reasoning_model {
        SystemMessageMode::Developer
    } else {
        SystemMessageMode::System
    };
    ModelCapabilities {
        is_reasoning_model,
        system_message_mode,
        supports_flex_processing,
        supports_priority_processing,
        supports_non_reasoning_parameters: non_reasoning,
    }
}

} // verus!
