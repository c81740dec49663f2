//! The Open Responses request: the prompt as `input` items and
//! `instructions`, and the request body of a call.

use vstd::prelude::*;

use crate::codec::{base64_encode, base64_encoded};
use crate::json::{json_get, members_view, Json, JsonValue};
use crate::json_text::{json_text, to_json_text};
use crate::media::{data_uri, top_level_of, top_level_spec};
use crate::openai::messages::{array_of, js, object1, object2, object3, values_view, ContentPart, PromptMessage, Role};
use crate::keyed::KeyedVec;
use crate::openai::body::{call_opts, CallOptions};
use crate::openai::request::{
    jstr, namespace_option, number_json, opts_map, warning_view, warnings_view, ResponseFormat, Warning, WarningV,
};
use crate::openai::responses_body::{function_tool_to_json, responses_function_tool_json};
use crate::openai::tools::{Tool, ToolChoice};
use crate::text::decimal_digits;
use crate::openai::stream::{ochars, str_of, str_of_value};
use crate::text::{concat, concat3, str_eq};

verus! {

broadcast use vstd::std_specs::vec::group_vec_axioms;

// ── Helpers ──────────────────────────────────────────────────────────────

/// Appends a value to a list.
fn push_value(v: &mut Vec<JsonValue>, x: JsonValue)
    ensures
        values_view(final(v)@) == values_view(old(v)@).push(x@),
{
    let ghost xv = x@;
    let ghost before = values_view(v@);
    v.push(x);
    assert(values_view(v@) =~= before.push(xv));
}

/// Appends an `Other` warning.
fn push_other(warnings: &mut Vec<Warning>, message: String)
    ensures
        warnings_view(final(warnings)@) == warnings_view(old(warnings)@).push(WarningV::Other(message@)),
{
    let w = Warning::Other { message };
    let ghost wv = warning_view(w);
    let ghost before = warnings_view(warnings@);
    warnings.push(w);
    assert(warnings_view(warnings@) =~= before.push(wv));
}

/// `data:{media_type};base64,{b64}`.
fn data_uri_of(media_type: &str, b64: &str) -> (r: String)
    ensures
        r@ == data_uri(media_type@, b64@),
{
    let a = concat3("data:", media_type, ";base64,");
    concat(a.as_str(), b64)
}

/// A file as an input part: an `input_image` for image media types, else
/// an `input_file` with its name (`data` by default).
pub open spec fn file_input_spec(media_type: Seq<char>, b64: Seq<char>, filename: Option<Seq<char>>) -> Json {
    if top_level_spec(media_type) == "image"@ {
        Json::Object(seq![("type"@, jstr("input_image"@)), ("image_url"@, jstr(data_uri(media_type, b64)))])
    } else {
        Json::Object(
            seq![
                ("type"@, jstr("input_file"@)),
                (
                    "filename"@,
                    jstr(
                        match filename {
                            Some(f) => f,
                            None => "data"@,
                        },
                    ),
                ),
                ("file_data"@, jstr(data_uri(media_type, b64))),
            ],
        )
    }
}

/// A file URL as an input part: an `input_image` for image media types,
/// else an `input_file`.
pub open spec fn url_input_spec(media_type: Seq<char>, url: Seq<char>) -> Json {
    if top_level_spec(media_type) == "image"@ {
        Json::Object(seq![("type"@, jstr("input_image"@)), ("image_url"@, jstr(url))])
    } else {
        Json::Object(seq![("type"@, jstr("input_file"@)), ("file_url"@, jstr(url))])
    }
}

/// Builds a file input part (see [`file_input_spec`]).
fn file_input(media_type: &str, b64: &str, filename: Option<&str>) -> (j: JsonValue)
    ensures
        j@ == file_input_spec(
            media_type@,
            b64@,
            match filename {
                Some(f) => Some(f@),
                None => None,
            },
        ),
{
    let top = top_level_of(media_type);
    let uri = data_uri_of(media_type, b64);
    let ghost fname = match filename {
        Some(f) => Some(f@),
        None => None,
    };
    if str_eq(top.as_str(), "image") {
        let r = JsonValue::Object(object2("type", js("input_image"), "image_url", JsonValue::String(uri)));
        r
    } else {
        let name = match filename {
            Some(f) => String::from_str(f),
            None => String::from_str("data"),
        };
        let ghost nv = name@;
        assert(nv == match fname { Some(f) => f, None => "data"@ });
        let ghost uv = uri@;
        let ms = object3("type", js("input_file"), "filename", JsonValue::String(name), "file_data", JsonValue::String(uri));
        assert(members_view(ms@) =~= seq![
            ("type"@, jstr("input_file"@)),
            ("filename"@, jstr(match fname { Some(f) => f, None => "data"@ })),
            ("file_data"@, jstr(uv)),
        ]);
        JsonValue::Object(ms)
    }
}

/// Builds a file-URL input part (see [`url_input_spec`]).
fn url_input(media_type: &str, url: &str) -> (j: JsonValue)
    ensures
        j@ == url_input_spec(media_type@, url@),
{
    let top = top_level_of(media_type);
    if str_eq(top.as_str(), "image") {
        JsonValue::Object(object2("type", js("input_image"), "image_url", JsonValue::String(String::from_str(url))))
    } else {
        JsonValue::Object(object2("type", js("input_file"), "file_url", JsonValue::String(String::from_str(url))))
    }
}

// ── User content ─────────────────────────────────────────────────────────

/// The name of a part's kind, as warnings give it.
pub open spec fn part_kind_name(part: ContentPart) -> Seq<char> {
    match part {
        ContentPart::Text { .. } => "text"@,
        ContentPart::Image { .. } => "image"@,
        ContentPart::File { .. } => "file"@,
        ContentPart::FileBase64 { .. } => "file-base64"@,
        ContentPart::FileUrl { .. } => "file-url"@,
        ContentPart::FileReference { .. } => "file-reference"@,
        ContentPart::Reasoning { .. } => "reasoning"@,
        ContentPart::ToolCall { .. } => "tool-call"@,
        ContentPart::ToolResult { .. } => "tool-result"@,
    }
}

/// The name of a part's kind (see [`part_kind_name`]).
pub fn part_variant_name(part: &ContentPart) -> (r: &'static str)
    ensures
        r@ == part_kind_name(*part),
{
    match part {
        ContentPart::Text { .. } => "text",
        ContentPart::Image { .. } => "image",
        ContentPart::File { .. } => "file",
        ContentPart::FileBase64 { .. } => "file-base64",
        ContentPart::FileUrl { .. } => "file-url",
        ContentPart::FileReference { .. } => "file-reference",
        ContentPart::Reasoning { .. } => "reasoning",
        ContentPart::ToolCall { .. } => "tool-call",
        ContentPart::ToolResult { .. } => "tool-result",
    }
}

/// The input parts and warnings of one user part: text; images and files
/// inline as data URIs; file URLs; a warning for provider references and
/// for other kinds of parts.
pub open spec fn user_part_spec(part: ContentPart) -> (Seq<Json>, Seq<WarningV>) {
    match part {
        ContentPart::Text { text, .. } => (
            seq![Json::Object(seq![("type"@, jstr("input_text"@)), ("text"@, jstr(text@))])],
            Seq::empty(),
        ),
        ContentPart::Image { image, media_type, .. } => (
            seq![
                Json::Object(
                    seq![
                        ("type"@, jstr("input_image"@)),
                        ("image_url"@, jstr(data_uri(media_type@, base64_encoded(image@)))),
                    ],
                ),
            ],
            Seq::empty(),
        ),
        ContentPart::File { data, media_type, filename, .. } => (
            seq![file_input_spec(media_type@, base64_encoded(data@), ochars(filename))],
            Seq::empty(),
        ),
        ContentPart::FileBase64 { data, media_type, filename, .. } => (
            seq![file_input_spec(media_type@, data@, ochars(filename))],
            Seq::empty(),
        ),
        ContentPart::FileUrl { url, media_type, .. } => (seq![url_input_spec(media_type@, url@)], Seq::empty()),
        ContentPart::FileReference { .. } => (
            Seq::empty(),
            seq![WarningV::Other("unsupported file part with provider reference"@)],
        ),
        _ => (Seq::empty(), seq![WarningV::Other("unsupported content part type: "@ + part_kind_name(part))]),
    }
}

/// The input parts and warnings of the user parts, in order.
pub open spec fn user_content_spec(content: Seq<ContentPart>) -> (Seq<Json>, Seq<WarningV>)
    decreases content.len(),
{
    if content.len() == 0 {
        (Seq::empty(), Seq::empty())
    } else {
        let (a, w) = user_content_spec(content.drop_last());
        let (b, v) = user_part_spec(content.last());
        (a + b, w + v)
    }
}

/// An optional borrowed string of an optional owned one.
fn opt_str(o: &Option<String>) -> (r: Option<&str>)
    ensures
        match r {
            Some(s) => ochars(*o) == Some(s@),
            None => o is None,
        },
{
    match o {
        Some(s) => Some(s.as_str()),
        None => None,
    }
}

/// Appends the input parts and warnings of one user part.
fn push_user_part(part: &ContentPart, parts: &mut Vec<JsonValue>, warnings: &mut Vec<Warning>)
    ensures
        values_view(final(parts)@) == values_view(old(parts)@) + user_part_spec(*part).0,
        warnings_view(final(warnings)@) == warnings_view(old(warnings)@) + user_part_spec(*part).1,
{
    let ghost p0 = values_view(parts@);
    let ghost w0 = warnings_view(warnings@);
    assert(p0 + Seq::<Json>::empty() =~= p0);
    assert(w0 + Seq::<WarningV>::empty() =~= w0);
    let item: JsonValue = match part {
        ContentPart::Text { text, .. } => JsonValue::Object(object2("type", js("input_text"), "text", JsonValue::String(text.clone()))),
        ContentPart::Image { image, media_type, .. } => {
            let b64 = base64_encode(image.as_slice());
            JsonValue::Object(
                object2("type", js("input_image"), "image_url", JsonValue::String(data_uri_of(media_type.as_str(), b64.as_str()))),
            )
        },
        ContentPart::File { data, media_type, filename, .. } => {
            let b64 = base64_encode(data.as_slice());
            file_input(media_type.as_str(), b64.as_str(), opt_str(filename))
        },
        ContentPart::FileBase64 { data, media_type, filename, .. } => file_input(
            media_type.as_str(),
            data.as_str(),
            opt_str(filename),
        ),
        ContentPart::FileUrl { url, media_type, .. } => url_input(media_type.as_str(), url.as_str()),
        ContentPart::FileReference { .. } => {
            push_other(warnings, String::from_str("unsupported file part with provider reference"));
            assert(warnings_view(warnings@) =~= w0 + user_part_spec(*part).1);
            return;
        },
        _ => {
            push_other(warnings, concat("unsupported content part type: ", part_variant_name(part)));
            assert(warnings_view(warnings@) =~= w0 + user_part_spec(*part).1);
            return;
        },
    };
    let ghost iv = item@;
    assert(seq![iv] == user_part_spec(*part).0);
    push_value(parts, item);
    assert(values_view(parts@) =~= p0 + seq![iv]);
}

/// Converts the user parts (see [`user_content_spec`]), adding their
/// warnings.
pub fn convert_user_content(content: &Vec<ContentPart>, warnings: &mut Vec<Warning>) -> (j: JsonValue)
    ensures
        j@ == Json::Array(user_content_spec(content@).0),
        warnings_view(final(warnings)@) == warnings_view(old(warnings)@) + user_content_spec(content@).1,
{
    let ghost w0 = warnings_view(warnings@);
    let mut parts: Vec<JsonValue> = Vec::new();
    assert(values_view(parts@) =~= Seq::<Json>::empty());
    assert(w0 + Seq::<WarningV>::empty() =~= w0);
    let mut k: usize = 0;
    while k < content.len()
        invariant
            0 <= k <= content@.len(),
            values_view(parts@) == user_content_spec(content@.subrange(0, k as int)).0,
            warnings_view(warnings@) == w0 + user_content_spec(content@.subrange(0, k as int)).1,
        decreases content@.len() - k,
    {
        let ghost a = user_content_spec(content@.subrange(0, k as int));
        let ghost b = user_part_spec(content@[k as int]);
        proof {
            let sub = content@.subrange(0, k + 1);
            assert(sub.drop_last() =~= content@.subrange(0, k as int));
            assert(sub.last() == content@[k as int]);
        }
        push_user_part(&content[k], &mut parts, warnings);
        assert(w0 + a.1 + b.1 =~= w0 + (a.1 + b.1));
        k += 1;
    }
    assert(content@.subrange(0, content@.len() as int) =~= content@);
    array_of(parts)
}

// ── Tool results ─────────────────────────────────────────────────────────

/// One item of a `content` tool result as input parts, with warnings:
/// text items as `input_text`; file items (with a media type) from inline
/// base64 data or a URL; a warning for other kinds.
pub open spec fn tool_content_item_spec(item: Json) -> (Seq<Json>, Seq<WarningV>) {
    match str_of(item, "type"@) {
        Some(t) => if t == "text"@ {
            match str_of(item, "text"@) {
                Some(text) => (
                    seq![Json::Object(seq![("type"@, jstr("input_text"@)), ("text"@, jstr(text))])],
                    Seq::empty(),
                ),
                None => (Seq::empty(), Seq::empty()),
            }
        } else if t == "file"@ {
            match (str_of(item, "mediaType"@), json_get(item, "data"@)) {
                (Some(mt), Some(data)) => match str_of(data, "data"@) {
                    Some(d) => (seq![file_input_spec(mt, d, str_of(item, "filename"@))], Seq::empty()),
                    None => match str_of(data, "url"@) {
                        Some(u) => (seq![url_input_spec(mt, u)], Seq::empty()),
                        None => (Seq::empty(), Seq::empty()),
                    },
                },
                _ => (Seq::empty(), Seq::empty()),
            }
        } else {
            (Seq::empty(), seq![WarningV::Other("unsupported tool content part type: "@ + t)])
        },
        None => (Seq::empty(), seq![WarningV::Other("unsupported tool content part type: unknown"@)]),
    }
}

/// The input parts and warnings of the items of a `content` tool result.
pub open spec fn tool_content_spec(items: Seq<Json>) -> (Seq<Json>, Seq<WarningV>)
    decreases items.len(),
{
    if items.len() == 0 {
        (Seq::empty(), Seq::empty())
    } else {
        let (a, w) = tool_content_spec(items.drop_last());
        let (b, v) = tool_content_item_spec(items.last());
        (a + b, w + v)
    }
}

/// The `output` of a tool result and its warnings, by the result's `type`:
/// `text`/`error-text` give the `value` (`null` when absent); a denied
/// execution gives its reason or a fixed message; `json`/`error-json` give
/// the value's JSON text; `content` with an array value gives its items as
/// input parts; anything else is sent as it is.
pub open spec fn tool_output_spec(output: Json) -> (Json, Seq<WarningV>) {
    match str_of(output, "type"@) {
        Some(t) => if t == "text"@ || t == "error-text"@ {
            (
                match json_get(output, "value"@) {
                    Some(v) => v,
                    None => Json::Null,
                },
                Seq::empty(),
            )
        } else if t == "execution-denied"@ {
            (
                jstr(
                    match str_of(output, "reason"@) {
                        Some(r) => r,
                        None => "Tool call execution denied."@,
                    },
                ),
                Seq::empty(),
            )
        } else if t == "json"@ || t == "error-json"@ {
            (
                jstr(
                    json_text(
                        match json_get(output, "value"@) {
                            Some(v) => v,
                            None => Json::Null,
                        },
                    ),
                ),
                Seq::empty(),
            )
        } else if t == "content"@ {
            match json_get(output, "value"@) {
                Some(Json::Array(items)) => {
                    let (parts, ws) = tool_content_spec(items);
                    (Json::Array(parts), ws)
                },
                _ => (output, Seq::empty()),
            }
        } else {
            (output, Seq::empty())
        },
        None => (output, Seq::empty()),
    }
}

/// Appends the input parts and warnings of one tool-content item.
fn push_tool_content_item(item: &JsonValue, parts: &mut Vec<JsonValue>, warnings: &mut Vec<Warning>)
    ensures
        values_view(final(parts)@) == values_view(old(parts)@) + tool_content_item_spec(item@).0,
        warnings_view(final(warnings)@) == warnings_view(old(warnings)@) + tool_content_item_spec(item@).1,
{
    let ghost p0 = values_view(parts@);
    let ghost w0 = warnings_view(warnings@);
    assert(p0 + Seq::<Json>::empty() =~= p0);
    assert(w0 + Seq::<WarningV>::empty() =~= w0);
    let t = match str_of_value(item, "type") {
        Some(t) => t,
        None => {
            push_other(warnings, String::from_str("unsupported tool content part type: unknown"));
            assert(warnings_view(warnings@) =~= w0 + tool_content_item_spec(item@).1);
            return;
        },
    };
    if str_eq(t.as_str(), "text") {
        match str_of_value(item, "text") {
            Some(text) => {
                let p = JsonValue::Object(object2("type", js("input_text"), "text", JsonValue::String(text)));
                let ghost pv = p@;
                push_value(parts, p);
                assert(values_view(parts@) =~= p0 + seq![pv]);
            },
            None => {},
        }
    } else if str_eq(t.as_str(), "file") {
        let mt = match str_of_value(item, "mediaType") {
            Some(m) => m,
            None => {
                return;
            },
        };
        let data = match item.get("data") {
            Some(d) => d,
            None => {
                return;
            },
        };
        match str_of_value(data, "data") {
            Some(d) => {
                let fname = str_of_value(item, "filename");
                let fref = match &fname {
                    Some(f) => Some(f.as_str()),
                    None => None,
                };
                let p = file_input(mt.as_str(), d.as_str(), fref);
                let ghost pv = p@;
                push_value(parts, p);
                assert(values_view(parts@) =~= p0 + seq![pv]);
            },
            None => match str_of_value(data, "url") {
                Some(u) => {
                    let p = url_input(mt.as_str(), u.as_str());
                    let ghost pv = p@;
                    push_value(parts, p);
                    assert(values_view(parts@) =~= p0 + seq![pv]);
                },
                None => {},
            },
        }
    } else {
        push_other(warnings, concat("unsupported tool content part type: ", t.as_str()));
        assert(warnings_view(warnings@) =~= w0 + tool_content_item_spec(item@).1);
    }
}

/// Resolves the `output` of a tool result (see [`tool_output_spec`]),
/// adding its warnings.
pub fn resolve_tool_result_output(output: &JsonValue, warnings: &mut Vec<Warning>) -> (r: JsonValue)
    ensures
        r@ == tool_output_spec(output@).0,
        warnings_view(final(warnings)@) == warnings_view(old(warnings)@) + tool_output_spec(output@).1,
{
    let ghost w0 = warnings_view(warnings@);
    assert(w0 + Seq::<WarningV>::empty() =~= w0);
    let t = match str_of_value(output, "type") {
        Some(t) => t,
        None => {
            return output.deep_copy();
        },
    };
    if str_eq(t.as_str(), "text") || str_eq(t.as_str(), "error-text") {
        match output.get("value") {
            Some(v) => v.deep_copy(),
            None => JsonValue::Null,
        }
    } else if str_eq(t.as_str(), "execution-denied") {
        match str_of_value(output, "reason") {
            Some(r) => JsonValue::String(r),
            None => js("Tool call execution denied."),
        }
    } else if str_eq(t.as_str(), "json") || str_eq(t.as_str(), "error-json") {
        match output.get("value") {
            Some(v) => JsonValue::String(to_json_text(v)),
            None => JsonValue::String(to_json_text(&JsonValue::Null)),
        }
    } else if str_eq(t.as_str(), "content") {
        match output.get("value") {
            Some(JsonValue::Array(items)) => {
                let ghost iv = values_view(items@);
                proof {
                    crate::json::lemma_items_view(items@);
                    assert(crate::json::items_view(items@) =~= iv);
                }
                let mut parts: Vec<JsonValue> = Vec::new();
                assert(values_view(parts@) =~= Seq::<Json>::empty());
                let mut k: usize = 0;
                while k < items.len()
                    invariant
                        0 <= k <= items@.len(),
                        iv == values_view(items@),
                        values_view(parts@) == tool_content_spec(iv.subrange(0, k as int)).0,
                        warnings_view(warnings@) == w0 + tool_content_spec(iv.subrange(0, k as int)).1,
                    decreases items@.len() - k,
                {
                    let ghost a = tool_content_spec(iv.subrange(0, k as int));
                    let ghost b = tool_content_item_spec(iv[k as int]);
                    proof {
                        let sub = iv.subrange(0, k + 1);
                        assert(sub.drop_last() =~= iv.subrange(0, k as int));
                        assert(sub.last() == iv[k as int]);
                    }
                    push_tool_content_item(&items[k], &mut parts, warnings);
                    assert(w0 + a.1 + b.1 =~= w0 + (a.1 + b.1));
                    k += 1;
                }
                assert(iv.subrange(0, iv.len() as int) =~= iv);
                array_of(parts)
            },
            _ => output.deep_copy(),
        }
    } else {
        output.deep_copy()
    }
}

// ── The prompt ───────────────────────────────────────────────────────────

/// The lines joined with newlines.
pub open spec fn join_lines(lines: Seq<Seq<char>>) -> Seq<char>
    decreases lines.len(),
{
    if lines.len() == 0 {
        Seq::empty()
    } else if lines.len() == 1 {
        lines[0]
    } else {
        join_lines(lines.drop_last()) + "\n"@ + lines.last()
    }
}

/// The texts of the text parts, in order.
pub open spec fn text_parts(content: Seq<ContentPart>) -> Seq<Seq<char>>
    decreases content.len(),
{
    if content.len() == 0 {
        Seq::empty()
    } else {
        let r = text_parts(content.drop_last());
        match content.last() {
            ContentPart::Text { text, .. } => r.push(text@),
            _ => r,
        }
    }
}

/// The arguments of a tool call: a string as it is, another value as its
/// JSON text.
pub open spec fn call_arguments(input: Json) -> Seq<char> {
    match input {
        Json::String(s) => s,
        _ => json_text(input),
    }
}

/// The function calls of the tool-call parts, in order.
pub open spec fn function_calls(content: Seq<ContentPart>) -> Seq<Json>
    decreases content.len(),
{
    if content.len() == 0 {
        Seq::empty()
    } else {
        let r = function_calls(content.drop_last());
        match content.last() {
            ContentPart::ToolCall { tool_call_id, tool_name, input, .. } => r.push(
                Json::Object(
                    seq![
                        ("type"@, jstr("function_call"@)),
                        ("call_id"@, jstr(tool_call_id@)),
                        ("name"@, jstr(tool_name@)),
                        ("arguments"@, jstr(call_arguments(input@))),
                    ],
                ),
            ),
            _ => r,
        }
    }
}

/// One `output_text` part per text.
pub open spec fn output_texts(texts: Seq<Seq<char>>) -> Seq<Json> {
    Seq::new(texts.len(), |i: int| Json::Object(seq![("type"@, jstr("output_text"@)), ("text"@, jstr(texts[i]))]))
}

/// The `function_call_output` items and warnings of the tool results.
pub open spec fn tool_outputs(content: Seq<ContentPart>) -> (Seq<Json>, Seq<WarningV>)
    decreases content.len(),
{
    if content.len() == 0 {
        (Seq::empty(), Seq::empty())
    } else {
        let (a, w) = tool_outputs(content.drop_last());
        match content.last() {
            ContentPart::ToolResult { tool_call_id, result } => {
                let (o, v) = tool_output_spec(result@);
                (
                    a.push(
                        Json::Object(
                            seq![
                                ("type"@, jstr("function_call_output"@)),
                                ("call_id"@, jstr(tool_call_id@)),
                                ("output"@, o),
                            ],
                        ),
                    ),
                    w + v,
                )
            },
            _ => (a, w),
        }
    }
}

/// The input items, system texts and warnings of one prompt message:
/// system messages give their texts (for the instructions); a user message
/// is a `message` item of its input parts; an assistant message is a
/// `message` item of its texts (when it has any) followed by its function
/// calls; tool messages give one output item per tool result.
pub open spec fn open_message_spec(role: Role, content: Seq<ContentPart>) -> (Seq<Json>, Seq<Seq<char>>, Seq<WarningV>) {
    match role {
        Role::System => (Seq::empty(), text_parts(content), Seq::empty()),
        Role::User => {
            let (parts, ws) = user_content_spec(content);
            (
                seq![
                    Json::Object(
                        seq![("type"@, jstr("message"@)), ("role"@, jstr("user"@)), ("content"@, Json::Array(parts))],
                    ),
                ],
                Seq::empty(),
                ws,
            )
        },
        Role::Assistant => {
            let texts = text_parts(content);
            let message = if texts.len() > 0 {
                seq![
                    Json::Object(
                        seq![
                            ("type"@, jstr("message"@)),
                            ("role"@, jstr("assistant"@)),
                            ("content"@, Json::Array(output_texts(texts))),
                        ],
                    ),
                ]
            } else {
                Seq::empty()
            };
            (message + function_calls(content), Seq::empty(), Seq::empty())
        },
        Role::Tool => {
            let (items, ws) = tool_outputs(content);
            (items, Seq::empty(), ws)
        },
    }
}

/// The input items, system texts and warnings of the prompt's messages.
pub open spec fn open_prompt_spec(prompt: Seq<PromptMessage>) -> (Seq<Json>, Seq<Seq<char>>, Seq<WarningV>)
    decreases prompt.len(),
{
    if prompt.len() == 0 {
        (Seq::empty(), Seq::empty(), Seq::empty())
    } else {
        let (a, s, w) = open_prompt_spec(prompt.drop_last());
        let m = prompt.last();
        let (b, t, v) = open_message_spec(m.role, m.content@);
        (a + b, s + t, w + v)
    }
}

/// The instructions of a prompt: its system texts joined by newlines, none
/// without any.
pub open spec fn instructions_spec(prompt: Seq<PromptMessage>) -> Option<Seq<char>> {
    let sys = open_prompt_spec(prompt).1;
    if sys.len() == 0 {
        None
    } else {
        Some(join_lines(sys))
    }
}

/// Appends the texts of the text parts.
fn push_texts(content: &Vec<ContentPart>, out: &mut Vec<String>)
    ensures
        final(out)@.map_values(|s: String| s@) == old(out)@.map_values(|s: String| s@) + text_parts(content@),
{
    let ghost o0 = out@.map_values(|s: String| s@);
    assert(o0 + Seq::<Seq<char>>::empty() =~= o0);
    let mut k: usize = 0;
    while k < content.len()
        invariant
            0 <= k <= content@.len(),
            out@.map_values(|s: String| s@) == o0 + text_parts(content@.subrange(0, k as int)),
        decreases content@.len() - k,
    {
        let ghost a = text_parts(content@.subrange(0, k as int));
        proof {
            let sub = content@.subrange(0, k + 1);
            assert(sub.drop_last() =~= content@.subrange(0, k as int));
            assert(sub.last() == content@[k as int]);
        }
        match &content[k] {
            ContentPart::Text { text, .. } => {
                let ghost before = out@;
                out.push(text.clone());
                assert(out@.map_values(|s: String| s@) =~= before.map_values(|s: String| s@).push(text@));
                assert(o0 + a.push(text@) =~= (o0 + a).push(text@));
            },
            _ => {},
        }
        k += 1;
    }
    assert(content@.subrange(0, content@.len() as int) =~= content@);
}

/// Appends the function calls of the tool-call parts.
fn push_function_calls(content: &Vec<ContentPart>, input: &mut Vec<JsonValue>)
    ensures
        values_view(final(input)@) == values_view(old(input)@) + function_calls(content@),
{
    let ghost i0 = values_view(input@);
    assert(i0 + Seq::<Json>::empty() =~= i0);
    let mut k: usize = 0;
    while k < content.len()
        invariant
            0 <= k <= content@.len(),
            values_view(input@) == i0 + function_calls(content@.subrange(0, k as int)),
        decreases content@.len() - k,
    {
        let ghost a = function_calls(content@.subrange(0, k as int));
        proof {
            let sub = content@.subrange(0, k + 1);
            assert(sub.drop_last() =~= content@.subrange(0, k as int));
            assert(sub.last() == content@[k as int]);
        }
        match &content[k] {
            ContentPart::ToolCall { tool_call_id, tool_name, input: args, .. } => {
                let arguments = match args {
                    JsonValue::String(s) => s.clone(),
                    _ => to_json_text(args),
                };
                let ghost av = arguments@;
                let mut ms = object3(
                    "type",
                    js("function_call"),
                    "call_id",
                    JsonValue::String(tool_call_id.clone()),
                    "name",
                    JsonValue::String(tool_name.clone()),
                );
                crate::search::push_member(&mut ms, "arguments", JsonValue::String(arguments));
                assert(members_view(ms@) =~= seq![
                    ("type"@, jstr("function_call"@)),
                    ("call_id"@, jstr(tool_call_id@)),
                    ("name"@, jstr(tool_name@)),
                    ("arguments"@, jstr(av)),
                ]);
                let item = JsonValue::Object(ms);
                let ghost iv = item@;
                push_value(input, item);
                assert(i0 + a.push(iv) =~= (i0 + a).push(iv));
            },
            _ => {},
        }
        k += 1;
    }
    assert(content@.subrange(0, content@.len() as int) =~= content@);
}

/// Appends the output items of the tool results, adding their warnings.
fn push_tool_outputs(content: &Vec<ContentPart>, input: &mut Vec<JsonValue>, warnings: &mut Vec<Warning>)
    ensures
        values_view(final(input)@) == values_view(old(input)@) + tool_outputs(content@).0,
        warnings_view(final(warnings)@) == warnings_view(old(warnings)@) + tool_outputs(content@).1,
{
    let ghost i0 = values_view(input@);
    let ghost w0 = warnings_view(warnings@);
    assert(i0 + Seq::<Json>::empty() =~= i0);
    assert(w0 + Seq::<WarningV>::empty() =~= w0);
    let mut k: usize = 0;
    while k < content.len()
        invariant
            0 <= k <= content@.len(),
            values_view(input@) == i0 + tool_outputs(content@.subrange(0, k as int)).0,
            warnings_view(warnings@) == w0 + tool_outputs(content@.subrange(0, k as int)).1,
        decreases content@.len() - k,
    {
        let ghost a = tool_outputs(content@.subrange(0, k as int));
        proof {
            let sub = content@.subrange(0, k + 1);
            assert(sub.drop_last() =~= content@.subrange(0, k as int));
            assert(sub.last() == content@[k as int]);
        }
        match &content[k] {
            ContentPart::ToolResult { tool_call_id, result } => {
                let ghost b = tool_output_spec(result@);
                let o = resolve_tool_result_output(result, warnings);
                let item = JsonValue::Object(
                    object3("type", js("function_call_output"), "call_id", JsonValue::String(tool_call_id.clone()), "output", o),
                );
                let ghost iv = item@;
                push_value(input, item);
                assert(i0 + a.0.push(iv) =~= (i0 + a.0).push(iv));
                assert(w0 + (a.1 + b.1) =~= w0 + a.1 + b.1);
            },
            _ => {},
        }
        k += 1;
    }
    assert(content@.subrange(0, content@.len() as int) =~= content@);
}

/// Appends the input items, system texts and warnings of one message (see
/// [`open_message_spec`]).
fn push_open_message(msg: &PromptMessage, input: &mut Vec<JsonValue>, system: &mut Vec<String>, warnings: &mut Vec<Warning>)
    ensures
        values_view(final(input)@) == values_view(old(input)@) + open_message_spec(msg.role, msg.content@).0,
        final(system)@.map_values(|s: String| s@) == old(system)@.map_values(|s: String| s@) + open_message_spec(
            msg.role,
            msg.content@,
        ).1,
        warnings_view(final(warnings)@) == warnings_view(old(warnings)@) + open_message_spec(msg.role, msg.content@).2,
{
    let ghost i0 = values_view(input@);
    let ghost s0 = system@.map_values(|s: String| s@);
    let ghost w0 = warnings_view(warnings@);
    assert(i0 + Seq::<Json>::empty() =~= i0);
    assert(s0 + Seq::<Seq<char>>::empty() =~= s0);
    assert(w0 + Seq::<WarningV>::empty() =~= w0);
    match msg.role {
        Role::System => {
            push_texts(&msg.content, system);
        },
        Role::User => {
            let content = convert_user_content(&msg.content, warnings);
            let item = JsonValue::Object(object3("type", js("message"), "role", js("user"), "content", content));
            let ghost iv = item@;
            push_value(input, item);
            assert(values_view(input@) =~= i0 + seq![iv]);
        },
        Role::Assistant => {
            let mut texts: Vec<String> = Vec::new();
            assert(texts@.map_values(|s: String| s@) =~= Seq::<Seq<char>>::empty());
            push_texts(&msg.content, &mut texts);
            assert(Seq::<Seq<char>>::empty() + text_parts(msg.content@) =~= text_parts(msg.content@));
            let ghost tv = text_parts(msg.content@);
            if texts.len() > 0 {
                let mut parts: Vec<JsonValue> = Vec::new();
                let mut k: usize = 0;
                while k < texts.len()
                    invariant
                        0 <= k <= texts@.len(),
                        texts@.map_values(|s: String| s@) == tv,
                        values_view(parts@) == output_texts(tv.subrange(0, k as int)),
                    decreases texts@.len() - k,
                {
                    let p = JsonValue::Object(object2("type", js("output_text"), "text", JsonValue::String(texts[k].clone())));
                    push_value(&mut parts, p);
                    assert(values_view(parts@) =~= output_texts(tv.subrange(0, k + 1)));
                    k += 1;
                }
                assert(tv.subrange(0, tv.len() as int) =~= tv);
                let item = JsonValue::Object(object3("type", js("message"), "role", js("assistant"), "content", array_of(parts)));
                let ghost iv = item@;
                push_value(input, item);
                assert(values_view(input@) =~= i0 + seq![iv]);
            }
            let ghost i1 = values_view(input@);
            push_function_calls(&msg.content, input);
            assert(i0 + (i1.subrange(i0.len() as int, i1.len() as int) + function_calls(msg.content@)) =~= i1 + function_calls(
                msg.content@,
            )) by {
                assert(i1 =~= i0 + i1.subrange(i0.len() as int, i1.len() as int));
            }
            assert(i1.subrange(i0.len() as int, i1.len() as int) =~= (if tv.len() > 0 {
                seq![
                    Json::Object(
                        seq![
                            ("type"@, jstr("message"@)),
                            ("role"@, jstr("assistant"@)),
                            ("content"@, Json::Array(output_texts(tv))),
                        ],
                    ),
                ]
            } else {
                Seq::empty()
            }));
        },
        Role::Tool => {
            push_tool_outputs(&msg.content, input, warnings);
        },
    }
}

/// Joins lines with newlines.
fn join_with_newlines(lines: &Vec<String>) -> (r: String)
    ensures
        r@ == join_lines(lines@.map_values(|s: String| s@)),
{
    let ghost lv = lines@.map_values(|s: String| s@);
    let mut r = String::new();
    let mut k: usize = 0;
    while k < lines.len()
        invariant
            0 <= k <= lines@.len(),
            lv == lines@.map_values(|s: String| s@),
            r@ == join_lines(lv.subrange(0, k as int)),
        decreases lines@.len() - k,
    {
        proof {
            let sub = lv.subrange(0, k + 1);
            assert(sub.drop_last() =~= lv.subrange(0, k as int));
            assert(sub.last() == lv[k as int]);
        }
        if k == 0 {
            r = lines[k].clone();
            assert(lv.subrange(0, 1) =~= seq![lv[0]]);
        } else {
            let a = concat(r.as_str(), "\n");
            r = concat(a.as_str(), lines[k].as_str());
        }
        k += 1;
    }
    assert(lv.subrange(0, lv.len() as int) =~= lv);
    r
}

/// Converts a prompt into Open Responses `input` items and `instructions`
/// (see [`open_prompt_spec`] and [`instructions_spec`]), with warnings.
pub fn convert_to_open_responses_input(prompt: &Vec<PromptMessage>) -> (r: (JsonValue, Option<String>, Vec<Warning>))
    ensures
        r.0@ == Json::Array(open_prompt_spec(prompt@).0),
        ochars(r.1) == instructions_spec(prompt@),
        warnings_view(r.2@) == open_prompt_spec(prompt@).2,
{
    let mut input: Vec<JsonValue> = Vec::new();
    let mut system: Vec<String> = Vec::new();
    let mut warnings: Vec<Warning> = Vec::new();
    assert(values_view(input@) =~= Seq::<Json>::empty());
    assert(system@.map_values(|s: String| s@) =~= Seq::<Seq<char>>::empty());
    assert(warnings_view(warnings@) =~= Seq::<WarningV>::empty());
    let mut k: usize = 0;
    while k < prompt.len()
        invariant
            0 <= k <= prompt@.len(),
            (values_view(input@), system@.map_values(|s: String| s@), warnings_view(warnings@)) == open_prompt_spec(
                prompt@.subrange(0, k as int),
            ),
        decreases prompt@.len() - k,
    {
        proof {
            let sub = prompt@.subrange(0, k + 1);
            assert(sub.drop_last() =~= prompt@.subrange(0, k as int));
            assert(sub.last() == prompt@[k as int]);
        }
        push_open_message(&prompt[k], &mut input, &mut system, &mut warnings);
        k += 1;
    }
    assert(prompt@.subrange(0, prompt@.len() as int) =~= prompt@);
    let instructions = if system.len() == 0 {
        None
    } else {
        Some(join_with_newlines(&system))
    };
    (array_of(input), instructions, warnings)
}

// ── The request body ─────────────────────────────────────────────────────

/// A member appended when its value is given.
pub open spec fn push_opt(ms: Seq<(Seq<char>, Json)>, key: Seq<char>, v: Option<Json>) -> Seq<(Seq<char>, Json)> {
    match v {
        Some(x) => ms.push((key, x)),
        None => ms,
    }
}

/// The JSON of the function tools, in order; other tools are left out.
pub open spec fn open_function_tools(ts: Seq<Tool>) -> Seq<Json>
    decreases ts.len(),
{
    if ts.len() == 0 {
        Seq::empty()
    } else {
        let r = open_function_tools(ts.drop_last());
        match ts.last() {
            Tool::Function(f) => r.push(responses_function_tool_json(f)),
            _ => r,
        }
    }
}

/// The tool choice sent: none for `auto`, the default.
pub open spec fn open_tool_choice(tc: ToolChoice) -> Option<Json> {
    match tc {
        ToolChoice::Auto => None,
        ToolChoice::NoTool => Some(jstr("none"@)),
        ToolChoice::Required => Some(jstr("required"@)),
        ToolChoice::Tool { tool_name } => Some(
            Json::Object(seq![("type"@, jstr("function"@)), ("name"@, jstr(tool_name@))]),
        ),
    }
}

/// The text format of a JSON response format: a JSON schema (strict,
/// named `response` by default, with the description when given), or a
/// bare `json_schema` type without a schema.
pub open spec fn open_text_format(rf: Option<ResponseFormat>) -> Option<Json> {
    match rf {
        Some(ResponseFormat::Json { schema, name, description }) => Some(
            match schema {
                Some(s) => {
                    let m0 = seq![
                        ("type"@, jstr("json_schema"@)),
                        ("strict"@, Json::Bool(true)),
                        (
                            "name"@,
                            jstr(
                                match name {
                                    Some(n) => n@,
                                    None => "response"@,
                                },
                            ),
                        ),
                    ];
                    let m1 = match description {
                        Some(d) => m0.push(("description"@, jstr(d@))),
                        None => m0,
                    };
                    Json::Object(m1.push(("schema"@, s@)))
                },
                None => Json::Object(seq![("type"@, jstr("json_schema"@))]),
            },
        ),
        _ => None,
    }
}

/// The reasoning effort sent for the call's effort: `minimal` is sent as
/// `low`, the others as they are.
pub open spec fn open_effort(r: Option<Seq<char>>) -> Option<Seq<char>> {
    match r {
        Some(e) => Some(
            if e == "minimal"@ {
                "low"@
            } else {
                e
            },
        ),
        None => None,
    }
}

/// The `reasoningSummary` option of the provider's namespace, when a
/// string.
pub open spec fn open_summary(opts: Option<Map<Seq<char>, JsonValue>>, ns: Seq<char>) -> Option<Seq<char>> {
    match namespace_option(opts, ns, "reasoningSummary"@) {
        Some(Json::String(s)) => Some(s),
        _ => None,
    }
}

/// The `reasoning` object: effort and summary, when either is given.
pub open spec fn open_reasoning(effort: Option<Seq<char>>, summary: Option<Seq<char>>) -> Option<Json> {
    if effort is Some || summary is Some {
        let m1 = match effort {
            Some(e) => seq![("effort"@, jstr(e))],
            None => Seq::empty(),
        };
        Some(
            Json::Object(
                match summary {
                    Some(s) => m1.push(("summary"@, jstr(s))),
                    None => m1,
                },
            ),
        )
    } else {
        None
    }
}

/// The warnings for settings Open Responses does not take: stop
/// sequences, top-k, seed.
pub open spec fn open_settings_warnings(o: CallOptions) -> Seq<WarningV> {
    (if o.stop_sequences is Some {
        seq![WarningV::Unsupported("stopSequences"@, None)]
    } else {
        Seq::empty()
    }) + (if o.top_k is Some {
        seq![WarningV::Unsupported("topK"@, None)]
    } else {
        Seq::empty()
    }) + (if o.seed is Some {
        seq![WarningV::Unsupported("seed"@, None)]
    } else {
        Seq::empty()
    })
}

/// The Open Responses request body of a call and its warnings: model,
/// input, instructions, output-token limit, sampling settings, reasoning,
/// function tools, tool choice and text format, each only when given; the
/// warnings of unsupported settings, then of the input.
#[verifier::opaque]
pub open spec fn open_request_body_spec(model_id: Seq<char>, o: CallOptions, provider_options_name: Seq<char>) -> (
    Json,
    Seq<WarningV>,
) {
    let (items, _, w_input) = open_prompt_spec(o.prompt@);
    let opts = call_opts(o.provider_options);
    let tools = match o.tools {
        Some(ts) => open_function_tools(ts@),
        None => Seq::empty(),
    };
    let m0 = seq![("model"@, jstr(model_id)), ("input"@, Json::Array(items))];
    let m1 = push_opt(
        m0,
        "instructions"@,
        match instructions_spec(o.prompt@) {
            Some(i) => Some(jstr(i)),
            None => None,
        },
    );
    let m2 = push_opt(
        m1,
        "max_output_tokens"@,
        match o.max_output_tokens {
            Some(n) => Some(Json::Number(decimal_digits(n as nat))),
            None => None,
        },
    );
    let m3 = push_opt(m2, "temperature"@, crate::json::opt_json_view(o.temperature));
    let m4 = push_opt(m3, "top_p"@, crate::json::opt_json_view(o.top_p));
    let m5 = push_opt(m4, "presence_penalty"@, crate::json::opt_json_view(o.presence_penalty));
    let m6 = push_opt(m5, "frequency_penalty"@, crate::json::opt_json_view(o.frequency_penalty));
    let m7 = push_opt(
        m6,
        "reasoning"@,
        open_reasoning(open_effort(ochars(o.reasoning)), open_summary(opts, provider_options_name)),
    );
    let m8 = push_opt(
        m7,
        "tools"@,
        if tools.len() > 0 {
            Some(Json::Array(tools))
        } else {
            None
        },
    );
    let m9 = push_opt(m8, "tool_choice"@, open_tool_choice(o.tool_choice));
    let m10 = push_opt(
        m9,
        "text"@,
        match open_text_format(o.response_format) {
            Some(f) => Some(Json::Object(seq![("format"@, f)])),
            None => None,
        },
    );
    (Json::Object(m10), open_settings_warnings(o) + w_input)
}

/// Appends a member when its value is given.
fn push_opt_member(ms: &mut Vec<(String, JsonValue)>, key: &str, v: Option<JsonValue>)
    ensures
        members_view(final(ms)@) == push_opt(members_view(old(ms)@), key@, crate::json::opt_json_view(v)),
{
    match v {
        Some(x) => crate::search::push_member(ms, key, x),
        None => {},
    }
}

/// The JSON of the function tools of a call.
fn function_tools_json(tools: &Vec<Tool>) -> (r: Vec<JsonValue>)
    ensures
        values_view(r@) == open_function_tools(tools@),
{
    let mut r: Vec<JsonValue> = Vec::new();
    assert(values_view(r@) =~= Seq::<Json>::empty());
    let mut k: usize = 0;
    while k < tools.len()
        invariant
            0 <= k <= tools@.len(),
            values_view(r@) == open_function_tools(tools@.subrange(0, k as int)),
        decreases tools@.len() - k,
    {
        proof {
            let sub = tools@.subrange(0, k + 1);
            assert(sub.drop_last() =~= tools@.subrange(0, k as int));
            assert(sub.last() == tools@[k as int]);
        }
        match &tools[k] {
            Tool::Function(f) => push_value(&mut r, function_tool_to_json(f)),
            _ => {},
        }
        k += 1;
    }
    assert(tools@.subrange(0, tools@.len() as int) =~= tools@);
    r
}

/// The text format of a call (see [`open_text_format`]).
fn text_format(rf: &Option<ResponseFormat>) -> (r: Option<JsonValue>)
    ensures
        crate::json::opt_json_view(r) == open_text_format(*rf),
{
    match rf {
        Some(ResponseFormat::Json { schema, name, description }) => match schema {
            Some(s) => {
                let n = match name {
                    Some(n) => n.clone(),
                    None => String::from_str("response"),
                };
                let ghost nv = n@;
                let mut ms = object3("type", js("json_schema"), "strict", JsonValue::Bool(true), "name", JsonValue::String(n));
                let ghost m0 = members_view(ms@);
                match description {
                    Some(d) => crate::search::push_member(&mut ms, "description", JsonValue::String(d.clone())),
                    None => {},
                }
                crate::search::push_member(&mut ms, "schema", s.deep_copy());
                proof {
                    let name_v = match name {
                        Some(x) => x@,
                        None => "response"@,
                    };
                    assert(m0 =~= seq![
                        ("type"@, jstr("json_schema"@)),
                        ("strict"@, Json::Bool(true)),
                        ("name"@, jstr(name_v)),
                    ]);
                    let expected = match open_text_format(*rf) {
                        Some(Json::Object(m)) => m,
                        _ => Seq::empty(),
                    };
                    assert(members_view(ms@) =~= expected);
                }
                Some(JsonValue::Object(ms))
            },
            None => Some(JsonValue::Object(object1("type", js("json_schema")))),
        },
        _ => None,
    }
}

/// Builds the Open Responses request body of a call (see
/// [`open_request_body_spec`]); the reasoning summary is read from the
/// provider's own options namespace.
pub fn build_request_body(model_id: &str, options: &CallOptions, provider_options_name: &str) -> (r: (JsonValue, Vec<Warning>))
    ensures
        (r.0@, warnings_view(r.1@)) == open_request_body_spec(model_id@, *options, provider_options_name@),
{
    reveal(open_request_body_spec);
    let mut warnings: Vec<Warning> = Vec::new();
    assert(warnings_view(warnings@) =~= Seq::<WarningV>::empty());
    if options.stop_sequences.is_some() {
        crate::openai::request::warn(&mut warnings, "stopSequences", None);
    }
    if options.top_k.is_some() {
        crate::openai::request::warn(&mut warnings, "topK", None);
    }
    if options.seed.is_some() {
        crate::openai::request::warn(&mut warnings, "seed", None);
    }
    let ghost w1 = warnings_view(warnings@);
    assert(w1 =~= open_settings_warnings(*options));
    let (input, instructions, input_warnings) = convert_to_open_responses_input(&options.prompt);
    let ghost iw = warnings_view(input_warnings@);
    let mut k: usize = 0;
    while k < input_warnings.len()
        invariant
            0 <= k <= input_warnings@.len(),
            iw == warnings_view(input_warnings@),
            warnings_view(warnings@) == w1 + iw.subrange(0, k as int),
        decreases input_warnings@.len() - k,
    {
        let w = match &input_warnings[k] {
            Warning::Unsupported { feature, details } => Warning::Unsupported {
                feature: feature.clone(),
                details: match details {
                    Some(d) => Some(d.clone()),
                    None => None,
                },
            },
            Warning::Other { message } => Warning::Other { message: message.clone() },
        };
        let ghost before = warnings_view(warnings@);
        assert(warning_view(w) == iw[k as int]);
        warnings.push(w);
        assert(warnings_view(warnings@) =~= before.push(iw[k as int]));
        assert(iw.subrange(0, k + 1) =~= iw.subrange(0, k as int).push(iw[k as int]));
        k += 1;
    }
    assert(iw.subrange(0, iw.len() as int) =~= iw);
    let opts = options.provider_options.as_ref();
    assert(opts_map(opts) == call_opts(options.provider_options));
    let effort: Option<String> = match &options.reasoning {
        Some(e) => if str_eq(e.as_str(), "minimal") {
            Some(String::from_str("low"))
        } else {
            Some(e.clone())
        },
        None => None,
    };
    let summary: Option<String> = match opts {
        Some(m) => match m.get(provider_options_name) {
            Some(o) => match o.get("reasoningSummary") {
                Some(JsonValue::String(s)) => Some(s.clone()),
                _ => None,
            },
            None => None,
        },
        None => None,
    };
    assert(ochars(summary) == open_summary(opts_map(opts), provider_options_name@));
    let reasoning: Option<JsonValue> = if effort.is_some() || summary.is_some() {
        let mut r: Vec<(String, JsonValue)> = Vec::new();
        assert(members_view(r@) =~= Seq::<(Seq<char>, Json)>::empty());
        let ghost ev = ochars(effort);
        match effort {
            Some(e) => {
                crate::search::push_member(&mut r, "effort", JsonValue::String(e));
            },
            None => {},
        }
        proof {
            match ev {
                Some(e) => assert(Seq::<(Seq<char>, Json)>::empty().push(("effort"@, jstr(e))) =~= seq![("effort"@, jstr(e))]),
                None => {},
            }
        }
        match summary {
            Some(s) => crate::search::push_member(&mut r, "summary", JsonValue::String(s)),
            None => {},
        }
        Some(JsonValue::Object(r))
    } else {
        None
    };
    let tools: Vec<JsonValue> = match &options.tools {
        Some(ts) => function_tools_json(ts),
        None => {
            let v: Vec<JsonValue> = Vec::new();
            assert(values_view(v@) =~= Seq::<Json>::empty());
            v
        },
    };
    let choice: Option<JsonValue> = match &options.tool_choice {
        ToolChoice::Auto => None,
        ToolChoice::NoTool => Some(js("none")),
        ToolChoice::Required => Some(js("required")),
        ToolChoice::Tool { tool_name } => Some(
            JsonValue::Object(object2("type", js("function"), "name", JsonValue::String(tool_name.clone()))),
        ),
    };
    let format = text_format(&options.response_format);
    let mut body = object2("model", JsonValue::String(String::from_str(model_id)), "input", input);
    push_opt_member(
        &mut body,
        "instructions",
        match instructions {
            Some(i) => Some(JsonValue::String(i)),
            None => None,
        },
    );
    push_opt_member(
        &mut body,
        "max_output_tokens",
        match options.max_output_tokens {
            Some(n) => Some(number_json(n as u64)),
            None => None,
        },
    );
    push_opt_member(&mut body, "temperature", crate::json::copy_opt_json(&options.temperature));
    push_opt_member(&mut body, "top_p", crate::json::copy_opt_json(&options.top_p));
    push_opt_member(&mut body, "presence_penalty", crate::json::copy_opt_json(&options.presence_penalty));
    push_opt_member(&mut body, "frequency_penalty", crate::json::copy_opt_json(&options.frequency_penalty));
    push_opt_member(&mut body, "reasoning", reasoning);
    let has_tools = tools.len() > 0;
    push_opt_member(
        &mut body,
        "tools",
        if has_tools {
            Some(array_of(tools))
        } else {
            None
        },
    );
    push_opt_member(&mut body, "tool_choice", choice);
    push_opt_member(
        &mut body,
        "text",
        match format {
            Some(f) => Some(JsonValue::Object(object1("format", f))),
            None => None,
        },
    );
    (JsonValue::Object(body), warnings)
}

/// The body of a streaming call: the request body (see
/// [`open_request_body_spec`]) with `"stream": true` set.
pub open spec fn open_stream_body_spec(body: Json) -> Json {
    match body {
        Json::Object(ms) => Json::Object(crate::openai::request::set_member_spec(ms, "stream"@, Json::Bool(true))),
        _ => body,
    }
}

/// Builds the body of a streaming call with its warnings: the request body
/// of the call with `"stream": true` set (see [`open_stream_body_spec`]).
pub fn build_stream_request_body(model_id: &str, options: &CallOptions, provider_options_name: &str) -> (r: (
    JsonValue,
    Vec<Warning>,
))
    ensures
        r.0@ == open_stream_body_spec(open_request_body_spec(model_id@, *options, provider_options_name@).0),
        warnings_view(r.1@) == open_request_body_spec(model_id@, *options, provider_options_name@).1,
{
    let (body, warnings) = build_request_body(model_id, options, provider_options_name);
    let stream_body = match body {
        JsonValue::Object(mut ms) => {
            crate::openai::request::set_member(&mut ms, "stream", JsonValue::Bool(true));
            JsonValue::Object(ms)
        },
        other => other,
    };
    (stream_body, warnings)
}

} // verus!
