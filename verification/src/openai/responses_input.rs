//! Conversion of a prompt into the Responses-API `input` items.

use vstd::prelude::*;

use crate::codec::{base64_encode, base64_encoded};
use crate::json::{json_get, members_view, Json, JsonValue};
use crate::json_text::{json_text, to_json_text};
use crate::media::data_uri;
use crate::openai::messages::{
    array_of, collect_text, js, object2, object3, opt_chars, opt_view, part_option, part_option_of, texts_of,
    tool_result_content, tool_result_to_content, values_view, ContentPart, PromptMessage, Role,
};
use crate::openai::request::{jstr, set_member, set_member_spec, warning_view, warnings_view, Warning, WarningV};
use crate::openai::responses::ResponsesSystemMessageMode;
use crate::text::{concat, concat3, is_prefix, str_starts_with};

verus! {

broadcast use vstd::std_specs::vec::group_vec_axioms;

// ── Small views and lemmas ───────────────────────────────────────────────

/// `providerOptions.openai[key]` of a part when it is a string.
pub open spec fn part_str(po: Option<Json>, key: Seq<char>) -> Option<Seq<char>> {
    match part_option(po, key) {
        Some(Json::String(s)) => Some(s),
        _ => None,
    }
}

/// Reads `providerOptions.openai[key]` of a part as a string.
fn part_str_of(po: &Option<JsonValue>, key: &str) -> (r: Option<String>)
    ensures
        opt_chars(r) == part_str(opt_view(*po), key@),
{
    match part_option_of(po, key) {
        Some(JsonValue::String(s)) => Some(s),
        _ => None,
    }
}

/// Appending a value appends its view.
proof fn lemma_values_push(v: Seq<JsonValue>, x: JsonValue)
    ensures
        values_view(v.push(x)) == values_view(v).push(x@),
{
    assert(values_view(v.push(x)) =~= values_view(v).push(x@));
}

/// Appending a warning appends its view.
proof fn lemma_warnings_push(w: Seq<Warning>, x: Warning)
    ensures
        warnings_view(w.push(x)) == warnings_view(w).push(warning_view(x)),
{
    assert(warnings_view(w.push(x)) =~= warnings_view(w).push(warning_view(x)));
}

/// Appends a value to the items.
fn push_item(input: &mut Vec<JsonValue>, x: JsonValue)
    ensures
        values_view(final(input)@) == values_view(old(input)@).push(x@),
{
    proof {
        lemma_values_push(input@, x);
    }
    input.push(x);
}

/// Appends an `Other` warning.
fn push_other(warnings: &mut Vec<Warning>, message: &str)
    ensures
        warnings_view(final(warnings)@) == warnings_view(old(warnings)@).push(WarningV::Other(message@)),
{
    let w = Warning::Other { message: String::from_str(message) };
    proof {
        lemma_warnings_push(warnings@, w);
    }
    warnings.push(w);
}

// ── User parts ───────────────────────────────────────────────────────────

/// The file name of a file part, `part.pdf` when it has none.
pub open spec fn file_name_or_default(f: Option<String>) -> Seq<char> {
    match f {
        Some(n) => n@,
        None => "part.pdf"@,
    }
}

/// A user part as a Responses input part: text as `input_text`; inline
/// images as `input_image` data URIs (with the `imageDetail` option as
/// `detail`); inline files as `input_file` data with a file name
/// (`part.pdf` by default); file URLs as `input_image` for image media
/// types, else `input_file`; anything else as empty `input_text`.
pub open spec fn user_part_spec(part: ContentPart) -> Json {
    match part {
        ContentPart::Text { text, .. } => Json::Object(seq![("type"@, jstr("input_text"@)), ("text"@, jstr(text@))]),
        ContentPart::Image { image, media_type, provider_options } => {
            let m = seq![
                ("type"@, jstr("input_image"@)),
                ("image_url"@, jstr(data_uri(media_type@, base64_encoded(image@)))),
            ];
            Json::Object(
                match part_option(opt_view(provider_options), "imageDetail"@) {
                    Some(d) => set_member_spec(m, "detail"@, d),
                    None => m,
                },
            )
        },
        ContentPart::File { data, media_type, filename, .. } => Json::Object(
            seq![
                ("type"@, jstr("input_file"@)),
                ("filename"@, jstr(file_name_or_default(filename))),
                ("file_data"@, jstr(data_uri(media_type@, base64_encoded(data@)))),
            ],
        ),
        ContentPart::FileBase64 { data, media_type, filename, .. } => Json::Object(
            seq![
                ("type"@, jstr("input_file"@)),
                ("filename"@, jstr(file_name_or_default(filename))),
                ("file_data"@, jstr(data_uri(media_type@, data@))),
            ],
        ),
        ContentPart::FileUrl { url, media_type, .. } => if is_prefix("image"@, media_type@) {
            Json::Object(seq![("type"@, jstr("input_image"@)), ("image_url"@, jstr(url@))])
        } else {
            Json::Object(seq![("type"@, jstr("input_file"@)), ("file_url"@, jstr(url@))])
        },
        _ => Json::Object(seq![("type"@, jstr("input_text"@)), ("text"@, jstr(Seq::empty()))]),
    }
}

/// `data:{media_type};base64,{b64}`.
fn data_uri_of(media_type: &str, b64: &str) -> (r: String)
    ensures
        r@ == data_uri(media_type@, b64@),
{
    let a = concat3("data:", media_type, ";base64,");
    concat(a.as_str(), b64)
}

/// An inline file goes as `input_file` under the file name it carries;
/// `part.pdf` stands in only for a file without a name.
pub proof fn law_file_part_keeps_its_name(part: ContentPart)
    requires
        part is File || part is FileBase64,
    ensures
        json_get(user_part_spec(part), "type"@) == Some(jstr("input_file"@)),
        json_get(user_part_spec(part), "filename"@) == Some(
            jstr(
                match part {
                    ContentPart::File { filename: Some(n), .. } => n@,
                    ContentPart::FileBase64 { filename: Some(n), .. } => n@,
                    _ => "part.pdf"@,
                },
            ),
        ),
{
    reveal_strlit("type");
    reveal_strlit("filename");
    reveal_strlit("file_data");
    assert("type"@.len() != "filename"@.len() && "type"@.len() != "file_data"@.len());
    assert("filename"@.len() != "file_data"@.len());
    let name = match part {
        ContentPart::File { filename: Some(n), .. } => n@,
        ContentPart::FileBase64 { filename: Some(n), .. } => n@,
        _ => "part.pdf"@,
    };
    let data = match part {
        ContentPart::File { data, media_type, .. } => data_uri(media_type@, base64_encoded(data@)),
        ContentPart::FileBase64 { data, media_type, .. } => data_uri(media_type@, data@),
        _ => Seq::empty(),
    };
    let t = seq![("type"@, jstr("input_file"@))];
    let tf = t.push(("filename"@, jstr(name)));
    let ms = tf.push(("file_data"@, jstr(data)));
    assert(user_part_spec(part) == Json::Object(ms)) by {
        assert(ms =~= seq![("type"@, jstr("input_file"@)), ("filename"@, jstr(name)), ("file_data"@, jstr(data))]);
    }
    crate::json::lemma_member_get_skip(tf, seq![("file_data"@, jstr(data))], "filename"@);
    assert(tf + seq![("file_data"@, jstr(data))] =~= ms);
    crate::json::lemma_member_get_pushed(t, "filename"@, jstr(name));
    crate::json::lemma_member_get_skip(t, seq![("filename"@, jstr(name)), ("file_data"@, jstr(data))], "type"@);
    assert(t + seq![("filename"@, jstr(name)), ("file_data"@, jstr(data))] =~= ms);
    crate::json::lemma_member_get_pushed(Seq::empty(), "type"@, jstr("input_file"@));
    assert(Seq::<(Seq<char>, Json)>::empty().push(("type"@, jstr("input_file"@))) =~= t);
}

/// A file given by URL goes by that URL: as `input_image` when its media
/// type is an image type, else as `input_file`; and a text part goes as
/// `input_text` carrying its text.
pub proof fn law_url_and_text_parts(part: ContentPart)
    ensures
        part matches ContentPart::FileUrl { url, media_type, .. } ==> {
            &&& is_prefix("image"@, media_type@) ==> json_get(user_part_spec(part), "type"@) == Some(jstr("input_image"@))
                && json_get(user_part_spec(part), "image_url"@) == Some(jstr(url@))
            &&& !is_prefix("image"@, media_type@) ==> json_get(user_part_spec(part), "type"@) == Some(jstr("input_file"@))
                && json_get(user_part_spec(part), "file_url"@) == Some(jstr(url@))
        },
        part matches ContentPart::Text { text, .. } ==> json_get(user_part_spec(part), "type"@) == Some(
            jstr("input_text"@),
        ) && json_get(user_part_spec(part), "text"@) == Some(jstr(text@)),
{
    reveal_strlit("type");
    reveal_strlit("image_url");
    reveal_strlit("file_url");
    reveal_strlit("text");
    assert("type"@.len() != "image_url"@.len() && "type"@.len() != "file_url"@.len());
    assert("type"@[1] != "text"@[1]);
    let (k, v, t) = match part {
        ContentPart::FileUrl { url, media_type, .. } => if is_prefix("image"@, media_type@) {
            ("image_url"@, jstr(url@), "input_image"@)
        } else {
            ("file_url"@, jstr(url@), "input_file"@)
        },
        ContentPart::Text { text, .. } => ("text"@, jstr(text@), "input_text"@),
        _ => ("text"@, jstr(Seq::empty()), "input_text"@),
    };
    if part is FileUrl || part is Text {
        let first = seq![("type"@, jstr(t))];
        assert(user_part_spec(part) == Json::Object(first.push((k, v)))) by {
            assert(first.push((k, v)) =~= seq![("type"@, jstr(t)), (k, v)]);
        }
        crate::json::lemma_member_get_pushed(first, k, v);
        crate::json::lemma_member_get_skip(first, seq![(k, v)], "type"@);
        assert(first + seq![(k, v)] =~= first.push((k, v)));
        crate::json::lemma_member_get_pushed(Seq::empty(), "type"@, jstr(t));
        assert(Seq::<(Seq<char>, Json)>::empty().push(("type"@, jstr(t))) =~= first);
    }
}

/// The file name of a file part, `part.pdf` when it has none.
fn file_name_of(f: &Option<String>) -> (r: String)
    ensures
        r@ == file_name_or_default(*f),
{
    match f {
        Some(n) => n.clone(),
        None => String::from_str("part.pdf"),
    }
}

/// Converts a user part (see [`user_part_spec`]).
pub fn convert_user_part(part: &ContentPart) -> (j: JsonValue)
    ensures
        j@ == user_part_spec(*part),
{
    match part {
        ContentPart::Text { text, .. } => JsonValue::Object(object2("type", js("input_text"), "text", JsonValue::String(text.clone()))),
        ContentPart::Image { image, media_type, provider_options } => {
            let b64 = base64_encode(image.as_slice());
            let url = data_uri_of(media_type.as_str(), b64.as_str());
            let mut m = object2("type", js("input_image"), "image_url", JsonValue::String(url));
            match part_option_of(provider_options, "imageDetail") {
                Some(d) => set_member(&mut m, "detail", d),
                None => {},
            }
            JsonValue::Object(m)
        },
        ContentPart::File { data, media_type, filename, .. } => {
            let b64 = base64_encode(data.as_slice());
            let uri = data_uri_of(media_type.as_str(), b64.as_str());
            JsonValue::Object(
                object3(
                    "type",
                    js("input_file"),
                    "filename",
                    JsonValue::String(file_name_of(filename)),
                    "file_data",
                    JsonValue::String(uri),
                ),
            )
        },
        ContentPart::FileBase64 { data, media_type, filename, .. } => {
            let uri = data_uri_of(media_type.as_str(), data.as_str());
            JsonValue::Object(
                object3(
                    "type",
                    js("input_file"),
                    "filename",
                    JsonValue::String(file_name_of(filename)),
                    "file_data",
                    JsonValue::String(uri),
                ),
            )
        },
        ContentPart::FileUrl { url, media_type, .. } => {
            if str_starts_with(media_type.as_str(), "image") {
                JsonValue::Object(object2("type", js("input_image"), "image_url", JsonValue::String(url.clone())))
            } else {
                JsonValue::Object(object2("type", js("input_file"), "file_url", JsonValue::String(url.clone())))
            }
        },
        _ => JsonValue::Object(object2("type", js("input_text"), "text", JsonValue::String(String::new()))),
    }
}

// ── Assistant parts ──────────────────────────────────────────────────────

/// A reference to an item stored by an earlier response.
pub open spec fn item_reference(id: Json) -> Json {
    Json::Object(seq![("type"@, jstr("item_reference"@)), ("id"@, id)])
}

/// The reasoning summary: one `summary_text` entry for non-empty text.
pub open spec fn summary_spec(text: Seq<char>) -> Json {
    Json::Array(
        if text.len() > 0 {
            seq![Json::Object(seq![("type"@, jstr("summary_text"@)), ("text"@, jstr(text))])]
        } else {
            Seq::empty()
        },
    )
}

/// The arguments text of a function call: `{}` for a null or empty-string
/// input, else the input's JSON text.
pub open spec fn serialized_arguments(input: Json) -> Seq<char> {
    match input {
        Json::Null => "{}"@,
        Json::String(s) => if s.len() == 0 {
            "{}"@
        } else {
            json_text(input)
        },
        _ => json_text(input),
    }
}

/// The warning for a reasoning part that carries nothing OpenAI can use.
pub open spec fn foreign_reasoning_message() -> Seq<char> {
    "Non-OpenAI reasoning parts are not supported. Skipping reasoning part."@
}

/// The items and warnings of one assistant part. Parts that carry an
/// `itemId` are skipped when a previous response is continued. Text with
/// an `itemId` is a reference to it when items are stored; otherwise an
/// assistant message with its `id` and `phase`. Tool calls are
/// `function_call` items with their `namespace`. Reasoning with an
/// `itemId` is a reference when stored, else a `reasoning` item with its
/// summary and encrypted content; reasoning without one needs encrypted
/// content, and is skipped with a warning otherwise. Other parts give
/// nothing.
pub open spec fn assistant_part_spec(part: ContentPart, store: bool, has_previous_response_id: bool) -> (
    Seq<Json>,
    Seq<WarningV>,
) {
    match part {
        ContentPart::Text { text, provider_options } => {
            let po = opt_view(provider_options);
            let id = part_str(po, "itemId"@);
            if has_previous_response_id && id is Some {
                (Seq::empty(), Seq::empty())
            } else if store && id is Some {
                (seq![item_reference(jstr(id->0))], Seq::empty())
            } else {
                let m0 = seq![
                    ("role"@, jstr("assistant"@)),
                    (
                        "content"@,
                        Json::Array(seq![Json::Object(seq![("type"@, jstr("output_text"@)), ("text"@, jstr(text@))])]),
                    ),
                ];
                let m1 = match id {
                    Some(i) => set_member_spec(m0, "id"@, jstr(i)),
                    None => m0,
                };
                let m2 = match part_str(po, "phase"@) {
                    Some(p) => set_member_spec(m1, "phase"@, jstr(p)),
                    None => m1,
                };
                (seq![Json::Object(m2)], Seq::empty())
            }
        },
        ContentPart::ToolCall { tool_call_id, tool_name, input, provider_options } => {
            let po = opt_view(provider_options);
            if has_previous_response_id && part_str(po, "itemId"@) is Some {
                (Seq::empty(), Seq::empty())
            } else {
                let m0 = seq![
                    ("type"@, jstr("function_call"@)),
                    ("call_id"@, jstr(tool_call_id@)),
                    ("name"@, jstr(tool_name@)),
                    ("arguments"@, jstr(serialized_arguments(input@))),
                ];
                let m1 = match part_str(po, "namespace"@) {
                    Some(ns) => set_member_spec(m0, "namespace"@, jstr(ns)),
                    None => m0,
                };
                (seq![Json::Object(m1)], Seq::empty())
            }
        },
        ContentPart::Reasoning { text, provider_options } => {
            let po = opt_view(provider_options);
            let enc = part_option(po, "reasoningEncryptedContent"@);
            match part_option(po, "itemId"@) {
                Some(rid) => if has_previous_response_id {
                    (Seq::empty(), Seq::empty())
                } else if store {
                    (seq![item_reference(rid)], Seq::empty())
                } else {
                    let m0 = seq![("type"@, jstr("reasoning"@)), ("id"@, rid), ("summary"@, summary_spec(text@))];
                    (
                        seq![
                            Json::Object(
                                match enc {
                                    Some(e) => set_member_spec(m0, "encrypted_content"@, e),
                                    None => m0,
                                },
                            ),
                        ],
                        Seq::empty(),
                    )
                },
                None => match enc {
                    Some(e) => (
                        seq![
                            Json::Object(
                                seq![
                                    ("type"@, jstr("reasoning"@)),
                                    ("encrypted_content"@, e),
                                    ("summary"@, summary_spec(text@)),
                                ],
                            ),
                        ],
                        Seq::empty(),
                    ),
                    None => (Seq::empty(), seq![WarningV::Other(foreign_reasoning_message())]),
                },
            }
        },
        _ => (Seq::empty(), Seq::empty()),
    }
}

/// Serializes tool-call arguments (see [`serialized_arguments`]).
fn serialize_arguments(input: &JsonValue) -> (r: String)
    ensures
        r@ == serialized_arguments(input@),
{
    match input {
        JsonValue::Null => String::from_str("{}"),
        JsonValue::String(s) => if s.as_str().unicode_len() == 0 {
            String::from_str("{}")
        } else {
            to_json_text(input)
        },
        _ => to_json_text(input),
    }
}

/// A reference item for the given id.
fn item_reference_of(id: JsonValue) -> (j: JsonValue)
    ensures
        j@ == item_reference(id@),
{
    JsonValue::Object(object2("type", js("item_reference"), "id", id))
}

/// The reasoning summary of a text.
fn summary_of(text: &String) -> (j: JsonValue)
    ensures
        j@ == summary_spec(text@),
{
    let mut v: Vec<JsonValue> = Vec::new();
    if text.as_str().unicode_len() > 0 {
        let e = JsonValue::Object(object2("type", js("summary_text"), "text", JsonValue::String(text.clone())));
        let ghost ev = e@;
        v.push(e);
        assert(values_view(v@) =~= seq![ev]);
    } else {
        assert(values_view(v@) =~= Seq::<Json>::empty());
    }
    array_of(v)
}

/// Appends the items and warnings of one assistant part (see
/// [`assistant_part_spec`]).
fn push_assistant_part(
    part: &ContentPart,
    store: bool,
    has_previous_response_id: bool,
    input: &mut Vec<JsonValue>,
    warnings: &mut Vec<Warning>,
)
    ensures
        values_view(final(input)@) == values_view(old(input)@) + assistant_part_spec(
            *part,
            store,
            has_previous_response_id,
        ).0,
        warnings_view(final(warnings)@) == warnings_view(old(warnings)@) + assistant_part_spec(
            *part,
            store,
            has_previous_response_id,
        ).1,
{
    let ghost i0 = values_view(input@);
    let ghost w0 = warnings_view(warnings@);
    assert(i0 + Seq::<Json>::empty() =~= i0);
    assert(w0 + Seq::<WarningV>::empty() =~= w0);
    match part {
        ContentPart::Text { text, provider_options } => {
            let id = part_str_of(provider_options, "itemId");
            if has_previous_response_id && id.is_some() {
            } else if store && id.is_some() {
                let i = id.unwrap();
                let r = item_reference_of(JsonValue::String(i));
                let ghost rv = r@;
                push_item(input, r);
                assert(values_view(input@) =~= i0 + seq![rv]);
            } else {
                let phase = part_str_of(provider_options, "phase");
                let c = JsonValue::Object(object2("type", js("output_text"), "text", JsonValue::String(text.clone())));
                let ghost cv = c@;
                let mut cs: Vec<JsonValue> = Vec::new();
                cs.push(c);
                assert(values_view(cs@) =~= seq![cv]);
                let mut m = object2("role", js("assistant"), "content", array_of(cs));
                match id {
                    Some(i) => set_member(&mut m, "id", JsonValue::String(i)),
                    None => {},
                }
                match phase {
                    Some(p) => set_member(&mut m, "phase", JsonValue::String(p)),
                    None => {},
                }
                let item = JsonValue::Object(m);
                let ghost iv = item@;
                push_item(input, item);
                assert(values_view(input@) =~= i0 + seq![iv]);
            }
        },
        ContentPart::ToolCall { tool_call_id, tool_name, input: args, provider_options } => {
            let id = part_str_of(provider_options, "itemId");
            if has_previous_response_id && id.is_some() {
                return;
            }
            let namespace = part_str_of(provider_options, "namespace");
            let mut m = object3(
                "type",
                js("function_call"),
                "call_id",
                JsonValue::String(tool_call_id.clone()),
                "name",
                JsonValue::String(tool_name.clone()),
            );
            crate::search::push_member(&mut m, "arguments", JsonValue::String(serialize_arguments(args)));
            let ghost m0 = seq![
                ("type"@, jstr("function_call"@)),
                ("call_id"@, jstr(tool_call_id@)),
                ("name"@, jstr(tool_name@)),
                ("arguments"@, jstr(serialized_arguments(args@))),
            ];
            assert(members_view(m@) =~= m0);
            match namespace {
                Some(ns) => set_member(&mut m, "namespace", JsonValue::String(ns)),
                None => {},
            }
            let item = JsonValue::Object(m);
            let ghost iv = item@;
            assert(iv == Json::Object(members_view(m@)));
            assert(seq![iv] =~= assistant_part_spec(*part, store, has_previous_response_id).0);
            push_item(input, item);
            assert(values_view(input@) =~= i0 + seq![iv]);
        },
        ContentPart::Reasoning { text, provider_options } => {
            let rid = part_option_of(provider_options, "itemId");
            let enc = part_option_of(provider_options, "reasoningEncryptedContent");
            match rid {
                Some(r) => {
                    if has_previous_response_id {
                        return;
                    }
                    if store {
                        let item = item_reference_of(r);
                        let ghost iv = item@;
                        push_item(input, item);
                        assert(values_view(input@) =~= i0 + seq![iv]);
                    } else {
                        let mut m = object3("type", js("reasoning"), "id", r, "summary", summary_of(text));
                        match enc {
                            Some(e) => set_member(&mut m, "encrypted_content", e),
                            None => {},
                        }
                        let item = JsonValue::Object(m);
                        let ghost iv = item@;
                        push_item(input, item);
                        assert(values_view(input@) =~= i0 + seq![iv]);
                    }
                },
                None => match enc {
                    Some(e) => {
                        let item = JsonValue::Object(
                            object3("type", js("reasoning"), "encrypted_content", e, "summary", summary_of(text)),
                        );
                        let ghost iv = item@;
                        push_item(input, item);
                        assert(values_view(input@) =~= i0 + seq![iv]);
                    },
                    None => {
                        push_other(warnings, "Non-OpenAI reasoning parts are not supported. Skipping reasoning part.");
                        assert(warnings_view(warnings@) =~= w0 + seq![WarningV::Other(foreign_reasoning_message())]);
                    },
                },
            }
        },
        _ => {},
    }
}

// ── Messages and the prompt ──────────────────────────────────────────────

/// The items and warnings of the assistant parts, in order.
pub open spec fn assistant_items(content: Seq<ContentPart>, store: bool, has_previous_response_id: bool) -> (
    Seq<Json>,
    Seq<WarningV>,
)
    decreases content.len(),
{
    if content.len() == 0 {
        (Seq::empty(), Seq::empty())
    } else {
        let (a, w) = assistant_items(content.drop_last(), store, has_previous_response_id);
        let (b, v) = assistant_part_spec(content.last(), store, has_previous_response_id);
        (a + b, w + v)
    }
}

/// One `function_call_output` item per tool-result part, in order.
pub open spec fn tool_items(content: Seq<ContentPart>) -> Seq<Json>
    decreases content.len(),
{
    if content.len() == 0 {
        Seq::empty()
    } else {
        let r = tool_items(content.drop_last());
        match content.last() {
            ContentPart::ToolResult { tool_call_id, result } => r.push(
                Json::Object(
                    seq![
                        ("type"@, jstr("function_call_output"@)),
                        ("call_id"@, jstr(tool_call_id@)),
                        ("output"@, tool_result_content(result@)),
                    ],
                ),
            ),
            _ => r,
        }
    }
}

/// The warning when system messages are removed.
pub open spec fn removed_system_message() -> Seq<char> {
    "system messages are removed for this model"@
}

/// The items and warnings of one prompt message: a system message carries
/// its joined text under the mode's role (or is removed with a warning); a
/// user message carries its converted parts; assistant and tool messages
/// give the items of their parts.
pub open spec fn message_items(
    role: Role,
    content: Seq<ContentPart>,
    mode: ResponsesSystemMessageMode,
    store: bool,
    has_previous_response_id: bool,
) -> (Seq<Json>, Seq<WarningV>) {
    match role {
        Role::System => match mode {
            ResponsesSystemMessageMode::System => (
                seq![Json::Object(seq![("role"@, jstr("system"@)), ("content"@, jstr(texts_of(content)))])],
                Seq::empty(),
            ),
            ResponsesSystemMessageMode::Developer => (
                seq![Json::Object(seq![("role"@, jstr("developer"@)), ("content"@, jstr(texts_of(content)))])],
                Seq::empty(),
            ),
            ResponsesSystemMessageMode::Remove => (Seq::empty(), seq![WarningV::Other(removed_system_message())]),
        },
        Role::User => (
            seq![
                Json::Object(
                    seq![
                        ("role"@, jstr("user"@)),
                        ("content"@, Json::Array(Seq::new(content.len(), |i: int| user_part_spec(content[i])))),
                    ],
                ),
            ],
            Seq::empty(),
        ),
        Role::Assistant => assistant_items(content, store, has_previous_response_id),
        Role::Tool => (tool_items(content), Seq::empty()),
    }
}

/// The items and warnings of the prompt's messages, in order.
pub open spec fn prompt_items(
    prompt: Seq<PromptMessage>,
    mode: ResponsesSystemMessageMode,
    store: bool,
    has_previous_response_id: bool,
) -> (Seq<Json>, Seq<WarningV>)
    decreases prompt.len(),
{
    if prompt.len() == 0 {
        (Seq::empty(), Seq::empty())
    } else {
        let (a, w) = prompt_items(prompt.drop_last(), mode, store, has_previous_response_id);
        let m = prompt.last();
        let (b, v) = message_items(m.role, m.content@, mode, store, has_previous_response_id);
        (a + b, w + v)
    }
}

/// A reasoning item without encrypted content.
pub open spec fn is_bare_reasoning(item: Json) -> bool {
    json_get(item, "type"@) == Some(jstr("reasoning"@)) && json_get(item, "encrypted_content"@) is None
}

/// The items other than bare reasoning items, in order.
pub open spec fn without_bare_reasoning(items: Seq<Json>) -> Seq<Json>
    decreases items.len(),
{
    if items.len() == 0 {
        Seq::empty()
    } else {
        let r = without_bare_reasoning(items.drop_last());
        if is_bare_reasoning(items.last()) {
            r
        } else {
            r.push(items.last())
        }
    }
}

/// The warning when bare reasoning items are dropped.
pub open spec fn unstored_reasoning_message() -> Seq<char> {
    "Reasoning parts without encrypted content are not supported when store is false. Skipping reasoning parts."@
}

/// The `input` items and warnings of a prompt: those of its messages; when
/// items are not stored, reasoning items without encrypted content are
/// dropped, with one warning.
pub open spec fn responses_input_spec(
    prompt: Seq<PromptMessage>,
    mode: ResponsesSystemMessageMode,
    store: bool,
    has_previous_response_id: bool,
) -> (Seq<Json>, Seq<WarningV>) {
    let (items, ws) = prompt_items(prompt, mode, store, has_previous_response_id);
    if !store && exists|i: int| 0 <= i < items.len() && is_bare_reasoning(#[trigger] items[i]) {
        (without_bare_reasoning(items), ws.push(WarningV::Other(unstored_reasoning_message())))
    } else {
        (items, ws)
    }
}

/// Appends the items of a message's assistant parts.
fn push_assistant_items(
    content: &Vec<ContentPart>,
    store: bool,
    has_previous_response_id: bool,
    input: &mut Vec<JsonValue>,
    warnings: &mut Vec<Warning>,
)
    ensures
        values_view(final(input)@) == values_view(old(input)@) + assistant_items(content@, store, has_previous_response_id).0,
        warnings_view(final(warnings)@) == warnings_view(old(warnings)@) + assistant_items(
            content@,
            store,
            has_previous_response_id,
        ).1,
{
    let ghost i0 = values_view(input@);
    let ghost w0 = warnings_view(warnings@);
    let mut k: usize = 0;
    assert(i0 + Seq::<Json>::empty() =~= i0);
    assert(w0 + Seq::<WarningV>::empty() =~= w0);
    while k < content.len()
        invariant
            0 <= k <= content@.len(),
            values_view(input@) == i0 + assistant_items(content@.subrange(0, k as int), store, has_previous_response_id).0,
            warnings_view(warnings@) == w0 + assistant_items(content@.subrange(0, k as int), store, has_previous_response_id).1,
        decreases content@.len() - k,
    {
        let ghost a = assistant_items(content@.subrange(0, k as int), store, has_previous_response_id);
        let ghost b = assistant_part_spec(content@[k as int], store, has_previous_response_id);
        proof {
            let sub = content@.subrange(0, k + 1);
            assert(sub.drop_last() =~= content@.subrange(0, k as int));
            assert(sub.last() == content@[k as int]);
        }
        push_assistant_part(&content[k], store, has_previous_response_id, input, warnings);
        assert(i0 + a.0 + b.0 =~= i0 + (a.0 + b.0));
        assert(w0 + a.1 + b.1 =~= w0 + (a.1 + b.1));
        k += 1;
    }
    assert(content@.subrange(0, content@.len() as int) =~= content@);
}

/// Appends one item per tool-result part.
fn push_tool_items(content: &Vec<ContentPart>, input: &mut Vec<JsonValue>)
    ensures
        values_view(final(input)@) == values_view(old(input)@) + tool_items(content@),
{
    let ghost i0 = values_view(input@);
    let mut k: usize = 0;
    assert(i0 + Seq::<Json>::empty() =~= i0);
    while k < content.len()
        invariant
            0 <= k <= content@.len(),
            values_view(input@) == i0 + tool_items(content@.subrange(0, k as int)),
        decreases content@.len() - k,
    {
        let ghost a = tool_items(content@.subrange(0, k as int));
        proof {
            let sub = content@.subrange(0, k + 1);
            assert(sub.drop_last() =~= content@.subrange(0, k as int));
            assert(sub.last() == content@[k as int]);
        }
        match &content[k] {
            ContentPart::ToolResult { tool_call_id, result } => {
                let item = JsonValue::Object(
                    object3(
                        "type",
                        js("function_call_output"),
                        "call_id",
                        JsonValue::String(tool_call_id.clone()),
                        "output",
                        tool_result_to_content(result),
                    ),
                );
                let ghost iv = item@;
                push_item(input, item);
                assert(i0 + a.push(iv) =~= (i0 + a).push(iv));
            },
            _ => {},
        }
        k += 1;
    }
    assert(content@.subrange(0, content@.len() as int) =~= content@);
}

/// The user parts converted, in order.
fn user_content(content: &Vec<ContentPart>) -> (j: JsonValue)
    ensures
        j@ == Json::Array(Seq::new(content@.len(), |i: int| user_part_spec(content@[i]))),
{
    let mut v: Vec<JsonValue> = Vec::new();
    let mut k: usize = 0;
    while k < content.len()
        invariant
            0 <= k <= content@.len(),
            values_view(v@) == Seq::new(k as nat, |i: int| user_part_spec(content@[i])),
        decreases content@.len() - k,
    {
        let p = convert_user_part(&content[k]);
        push_item(&mut v, p);
        assert(values_view(v@) =~= Seq::new((k + 1) as nat, |i: int| user_part_spec(content@[i])));
        k += 1;
    }
    array_of(v)
}

/// Appends the items and warnings of one prompt message (see
/// [`message_items`]).
fn push_message_items(
    msg: &PromptMessage,
    mode: ResponsesSystemMessageMode,
    store: bool,
    has_previous_response_id: bool,
    input: &mut Vec<JsonValue>,
    warnings: &mut Vec<Warning>,
)
    ensures
        values_view(final(input)@) == values_view(old(input)@) + message_items(
            msg.role,
            msg.content@,
            mode,
            store,
            has_previous_response_id,
        ).0,
        warnings_view(final(warnings)@) == warnings_view(old(warnings)@) + message_items(
            msg.role,
            msg.content@,
            mode,
            store,
            has_previous_response_id,
        ).1,
{
    let ghost i0 = values_view(input@);
    let ghost w0 = warnings_view(warnings@);
    assert(i0 + Seq::<Json>::empty() =~= i0);
    assert(w0 + Seq::<WarningV>::empty() =~= w0);
    match msg.role {
        Role::System => match mode {
            ResponsesSystemMessageMode::Remove => {
                push_other(warnings, "system messages are removed for this model");
                assert(warnings_view(warnings@) =~= w0 + seq![WarningV::Other(removed_system_message())]);
            },
            _ => {
                let role = match mode {
                    ResponsesSystemMessageMode::Developer => js("developer"),
                    _ => js("system"),
                };
                let item = JsonValue::Object(object2("role", role, "content", JsonValue::String(collect_text(&msg.content))));
                let ghost iv = item@;
                push_item(input, item);
                assert(values_view(input@) =~= i0 + seq![iv]);
            },
        },
        Role::User => {
            let item = JsonValue::Object(object2("role", js("user"), "content", user_content(&msg.content)));
            let ghost iv = item@;
            push_item(input, item);
            assert(values_view(input@) =~= i0 + seq![iv]);
        },
        Role::Assistant => {
            push_assistant_items(&msg.content, store, has_previous_response_id, input, warnings);
        },
        Role::Tool => {
            push_tool_items(&msg.content, input);
        },
    }
}

/// Whether an item is a reasoning item without encrypted content.
fn bare_reasoning(item: &JsonValue) -> (b: bool)
    ensures
        b == is_bare_reasoning(item@),
{
    let is_reasoning = match item.get("type") {
        Some(JsonValue::String(t)) => crate::text::str_eq(t.as_str(), "reasoning"),
        _ => false,
    };
    is_reasoning && item.get("encrypted_content").is_none()
}

/// The `input` items of a prompt and the warnings of the conversion.
#[derive(Debug)]
pub struct ResponsesInputResult {
    pub input: Vec<JsonValue>,
    pub warnings: Vec<Warning>,
}

/// Converts a prompt into the Responses `input` items (see
/// [`responses_input_spec`]). Items are stored unless `store` is false;
/// with a previous response, parts that carry an `itemId` are left to it.
pub fn convert_to_responses_input(
    prompt: &Vec<PromptMessage>,
    system_message_mode: ResponsesSystemMessageMode,
    store: bool,
    has_previous_response_id: bool,
) -> (r: ResponsesInputResult)
    ensures
        (values_view(r.input@), warnings_view(r.warnings@)) == responses_input_spec(
            prompt@,
            system_message_mode,
            store,
            has_previous_response_id,
        ),
{
    let mut input: Vec<JsonValue> = Vec::new();
    let mut warnings: Vec<Warning> = Vec::new();
    let mut k: usize = 0;
    assert(values_view(input@) =~= Seq::<Json>::empty());
    assert(warnings_view(warnings@) =~= Seq::<WarningV>::empty());
    while k < prompt.len()
        invariant
            0 <= k <= prompt@.len(),
            (values_view(input@), warnings_view(warnings@)) == prompt_items(
                prompt@.subrange(0, k as int),
                system_message_mode,
                store,
                has_previous_response_id,
            ),
        decreases prompt@.len() - k,
    {
        proof {
            let sub = prompt@.subrange(0, k + 1);
            assert(sub.drop_last() =~= prompt@.subrange(0, k as int));
            assert(sub.last() == prompt@[k as int]);
        }
        push_message_items(&prompt[k], system_message_mode, store, has_previous_response_id, &mut input, &mut warnings);
        k += 1;
    }
    assert(prompt@.subrange(0, prompt@.len() as int) =~= prompt@);
    let ghost items = values_view(input@);
    if store {
        return ResponsesInputResult { input, warnings };
    }
    let mut any = false;
    let mut j: usize = 0;
    while j < input.len()
        invariant
            0 <= j <= input@.len(),
            items == values_view(input@),
            any <==> exists|i: int| 0 <= i < j && is_bare_reasoning(#[trigger] items[i]),
        decreases input@.len() - j,
    {
        let b = bare_reasoning(&input[j]);
        assert(items[j as int] == input@[j as int]@);
        if b {
            any = true;
        }
        assert(any <==> exists|i: int| 0 <= i < j + 1 && is_bare_reasoning(#[trigger] items[i])) by {
            if b {
                assert(is_bare_reasoning(items[j as int]));
            }
        }
        j += 1;
    }
    if !any {
        return ResponsesInputResult { input, warnings };
    }
    push_other(
        &mut warnings,
        "Reasoning parts without encrypted content are not supported when store is false. Skipping reasoning parts.",
    );
    let mut kept: Vec<JsonValue> = Vec::new();
    assert(values_view(kept@) =~= Seq::<Json>::empty());
    let mut j: usize = 0;
    while j < input.len()
        invariant
            0 <= j <= input@.len(),
            items == values_view(input@),
            values_view(kept@) == without_bare_reasoning(items.subrange(0, j as int)),
        decreases input@.len() - j,
    {
        proof {
            let sub = items.subrange(0, j + 1);
            assert(sub.drop_last() =~= items.subrange(0, j as int));
            assert(sub.last() == items[j as int]);
        }
        if !bare_reasoning(&input[j]) {
            push_item(&mut kept, input[j].deep_copy());
        }
        j += 1;
    }
    let n = input.len();
    assert(items.subrange(0, n as int) =~= items);
    ResponsesInputResult { input: kept, warnings }
}

// ── Laws ─────────────────────────────────────────────────────────────────

/// An item that refers to a stored item.
pub open spec fn is_item_reference(item: Json) -> bool {
    json_get(item, "type"@) == Some(jstr("item_reference"@))
}

/// No item left by the filter is a bare reasoning item, and the filter
/// adds no reference.
proof fn lemma_without_bare(items: Seq<Json>)
    ensures
        forall|i: int|
            0 <= i < without_bare_reasoning(items).len() ==> !is_bare_reasoning(#[trigger] without_bare_reasoning(items)[i]),
        (forall|i: int| 0 <= i < items.len() ==> !is_item_reference(#[trigger] items[i])) ==> forall|i: int|
            0 <= i < without_bare_reasoning(items).len() ==> !is_item_reference(
                #[trigger] without_bare_reasoning(items)[i],
            ),
    decreases items.len(),
{
    if items.len() > 0 {
        let d = items.drop_last();
        lemma_without_bare(d);
        let r = without_bare_reasoning(d);
        let res = without_bare_reasoning(items);
        assert forall|i: int| 0 <= i < res.len() implies !is_bare_reasoning(#[trigger] res[i]) by {
            if i < r.len() {
                assert(res[i] == r[i]);
            }
        }
        if forall|i: int| 0 <= i < items.len() ==> !is_item_reference(#[trigger] items[i]) {
            assert forall|i: int| 0 <= i < d.len() implies !is_item_reference(#[trigger] d[i]) by {
                assert(d[i] == items[i]);
            }
            assert forall|i: int| 0 <= i < res.len() implies !is_item_reference(#[trigger] res[i]) by {
                if i < r.len() {
                    assert(res[i] == r[i]);
                } else {
                    assert(res[i] == items[items.len() - 1]);
                }
            }
        }
    }
}

/// Without stored items, no reasoning item without encrypted content is
/// sent: the conversion drops them all.
pub proof fn law_unstored_input_has_no_bare_reasoning(
    prompt: Seq<PromptMessage>,
    mode: ResponsesSystemMessageMode,
    has_previous_response_id: bool,
)
    ensures
        forall|i: int|
            0 <= i < responses_input_spec(prompt, mode, false, has_previous_response_id).0.len() ==> !is_bare_reasoning(
                #[trigger] responses_input_spec(prompt, mode, false, has_previous_response_id).0[i],
            ),
{
    let (items, _) = prompt_items(prompt, mode, false, has_previous_response_id);
    lemma_without_bare(items);
}

/// The assistant message of a text part has no `type`.
proof fn lemma_text_untyped(text: Seq<char>, phase: Option<Seq<char>>)
    ensures
        ({
            let m0 = seq![
                ("role"@, jstr("assistant"@)),
                ("content"@, Json::Array(seq![Json::Object(seq![("type"@, jstr("output_text"@)), ("text"@, jstr(text))])])),
            ];
            let m2 = match phase {
                Some(p) => set_member_spec(m0, "phase"@, jstr(p)),
                None => m0,
            };
            !is_item_reference(Json::Object(m2))
        }),
{
    reveal_strlit("type");
    reveal_strlit("role");
    reveal_strlit("content");
    reveal_strlit("phase");
    assert("content"@.len() == 7 && "type"@.len() == 4 && "role"@.len() == 4 && "phase"@.len() == 5);
    assert("role"@[0] == 'r' && "type"@[0] == 't');
    let m0 = seq![
        ("role"@, jstr("assistant"@)),
        ("content"@, Json::Array(seq![Json::Object(seq![("type"@, jstr("output_text"@)), ("text"@, jstr(text))])])),
    ];
    lemma_two_members_untyped(m0[0].0, m0[0].1, m0[1].0, m0[1].1);
    assert(m0 =~= seq![(m0[0].0, m0[0].1), (m0[1].0, m0[1].1)]);
    match phase {
        Some(p) => lemma_set_member_keeps_type(m0, "phase"@, jstr(p)),
        None => {},
    }
}

/// A member list whose first member is `type` with value `v`, followed by
/// members of other names, has type `v`.
proof fn lemma_typed(ms: Seq<(Seq<char>, Json)>, v: Json)
    requires
        ms.len() > 0,
        ms[0] == ("type"@, v),
        forall|i: int| 0 < i < ms.len() ==> #[trigger] ms[i].0 != "type"@,
    ensures
        crate::json::member_get(ms, "type"@) == Some(v),
    decreases ms.len(),
{
    if ms.len() > 1 {
        assert forall|i: int| 0 < i < ms.drop_last().len() implies #[trigger] ms.drop_last()[i].0 != "type"@ by {
            assert(ms.drop_last()[i] == ms[i]);
        }
        lemma_typed(ms.drop_last(), v);
    }
}

/// A function call's item is not a reference.
proof fn lemma_call_untyped(id: Seq<char>, name: Seq<char>, args: Seq<char>, namespace: Option<Seq<char>>)
    ensures
        ({
            let m0 = seq![
                ("type"@, jstr("function_call"@)),
                ("call_id"@, jstr(id)),
                ("name"@, jstr(name)),
                ("arguments"@, jstr(args)),
            ];
            let m1 = match namespace {
                Some(ns) => set_member_spec(m0, "namespace"@, jstr(ns)),
                None => m0,
            };
            !is_item_reference(Json::Object(m1))
        }),
{
    reveal_strlit("type");
    reveal_strlit("call_id");
    reveal_strlit("name");
    reveal_strlit("arguments");
    reveal_strlit("namespace");
    reveal_strlit("function_call");
    reveal_strlit("item_reference");
    assert("arguments"@.len() == 9 && "name"@.len() == 4 && "call_id"@.len() == 7 && "type"@.len() == 4);
    assert("namespace"@.len() == 9 && "name"@[0] == 'n' && "type"@[0] == 't');
    assert("function_call"@.len() == 13 && "item_reference"@.len() == 14);
    let m0 = seq![("type"@, jstr("function_call"@)), ("call_id"@, jstr(id)), ("name"@, jstr(name)), ("arguments"@, jstr(args))];
    lemma_typed(m0, jstr("function_call"@));
    match namespace {
        Some(ns) => lemma_set_member_keeps_type(m0, "namespace"@, jstr(ns)),
        None => {},
    }
}

/// A reasoning item with encrypted content is not a reference.
proof fn lemma_reasoning_untyped(e: Json, summary: Json)
    ensures
        !is_item_reference(
            Json::Object(seq![("type"@, jstr("reasoning"@)), ("encrypted_content"@, e), ("summary"@, summary)]),
        ),
{
    reveal_strlit("type");
    reveal_strlit("encrypted_content");
    reveal_strlit("summary");
    reveal_strlit("reasoning");
    reveal_strlit("item_reference");
    assert("summary"@.len() == 7 && "encrypted_content"@.len() == 17 && "type"@.len() == 4);
    assert("reasoning"@.len() == 9 && "item_reference"@.len() == 14);
    lemma_typed(
        seq![("type"@, jstr("reasoning"@)), ("encrypted_content"@, e), ("summary"@, summary)],
        jstr("reasoning"@),
    );
}

/// The items of one assistant part refer to no stored item when a
/// previous response is continued.
proof fn lemma_part_no_refs(part: ContentPart, store: bool)
    ensures
        no_references(assistant_part_spec(part, store, true).0),
{
    match part {
        ContentPart::Text { text, provider_options } => {
            lemma_text_untyped(text@, part_str(opt_view(provider_options), "phase"@));
        },
        ContentPart::ToolCall { tool_call_id, tool_name, input, provider_options } => {
            lemma_call_untyped(
                tool_call_id@,
                tool_name@,
                serialized_arguments(input@),
                part_str(opt_view(provider_options), "namespace"@),
            );
        },
        ContentPart::Reasoning { text, provider_options } => {
            match part_option(opt_view(provider_options), "reasoningEncryptedContent"@) {
                Some(e) => lemma_reasoning_untyped(e, summary_spec(text@)),
                None => {},
            }
        },
        _ => {},
    }
}

/// Setting a member other than `type` keeps the `type` member.
proof fn lemma_set_member_keeps_type(ms: Seq<(Seq<char>, Json)>, k: Seq<char>, v: Json)
    requires
        k != "type"@,
    ensures
        crate::json::member_get(set_member_spec(ms, k, v), "type"@) == crate::json::member_get(ms, "type"@),
{
    crate::openai::request::lemma_set_member_get_other(ms, k, v, "type"@);
}

/// No item of a list is a reference.
pub open spec fn no_references(items: Seq<Json>) -> bool {
    forall|i: int| 0 <= i < items.len() ==> !is_item_reference(#[trigger] items[i])
}

/// Lists without references concatenate to one.
proof fn lemma_concat_no_refs(a: Seq<Json>, b: Seq<Json>)
    requires
        no_references(a),
        no_references(b),
    ensures
        no_references(a + b),
{
    assert forall|i: int| 0 <= i < (a + b).len() implies !is_item_reference(#[trigger] (a + b)[i]) by {
        if i < a.len() {
            assert((a + b)[i] == a[i]);
        } else {
            assert((a + b)[i] == b[i - a.len()]);
        }
    }
}

/// An object of two members, neither named `type`, has no `type`.
proof fn lemma_two_members_untyped(k1: Seq<char>, v1: Json, k2: Seq<char>, v2: Json)
    requires
        k1 != "type"@,
        k2 != "type"@,
    ensures
        !is_item_reference(Json::Object(seq![(k1, v1), (k2, v2)])),
{
    let m = seq![(k1, v1), (k2, v2)];
    assert(m.drop_last().drop_last() =~= Seq::<(Seq<char>, Json)>::empty());
    assert(m.drop_last().len() == 1);
    assert(m.drop_last().last() == (k1, v1));
    assert(m.last() == (k2, v2));
    assert(crate::json::member_get(m.drop_last().drop_last(), "type"@) is None);
    assert(crate::json::member_get(m.drop_last(), "type"@) is None);
    assert(crate::json::member_get(m, "type"@) is None);
}

/// With a previous response, the assistant items refer to no stored item.
proof fn lemma_assistant_no_refs(content: Seq<ContentPart>, store: bool)
    ensures
        no_references(assistant_items(content, store, true).0),
    decreases content.len(),
{
    if content.len() > 0 {
        lemma_assistant_no_refs(content.drop_last(), store);
        lemma_part_no_refs(content.last(), store);
        lemma_concat_no_refs(
            assistant_items(content.drop_last(), store, true).0,
            assistant_part_spec(content.last(), store, true).0,
        );
    }
}

/// Tool results are never references.
proof fn lemma_tool_no_refs(content: Seq<ContentPart>)
    ensures
        no_references(tool_items(content)),
    decreases content.len(),
{
    reveal_strlit("type");
    reveal_strlit("function_call_output");
    reveal_strlit("item_reference");
    reveal_strlit("output");
    reveal_strlit("call_id");
    if content.len() > 0 {
        lemma_tool_no_refs(content.drop_last());
        let r = tool_items(content.drop_last());
        match content.last() {
            ContentPart::ToolResult { tool_call_id, result } => {
                let m = seq![
                    ("type"@, jstr("function_call_output"@)),
                    ("call_id"@, jstr(tool_call_id@)),
                    ("output"@, tool_result_content(result@)),
                ];
                assert("output"@.len() == 6 && "call_id"@.len() == 7 && "type"@.len() == 4);
                assert("function_call_output"@.len() == 20 && "item_reference"@.len() == 14);
                let d1 = m.drop_last();
                let d2 = d1.drop_last();
                assert(d2 =~= seq![("type"@, jstr("function_call_output"@))]);
                assert(crate::json::member_get(d2, "type"@) == Some(jstr("function_call_output"@)));
                assert(crate::json::member_get(d1, "type"@) == Some(jstr("function_call_output"@)));
                assert(crate::json::member_get(m, "type"@) == Some(jstr("function_call_output"@)));
                assert(!is_item_reference(Json::Object(m)));
                assert forall|i: int| 0 <= i < r.push(Json::Object(m)).len() implies !is_item_reference(
                    #[trigger] r.push(Json::Object(m))[i],
                ) by {
                    if i < r.len() {
                        assert(r.push(Json::Object(m))[i] == r[i]);
                    }
                }
            },
            _ => {},
        }
    }
}

/// With a previous response, the items of a message refer to no stored
/// item.
proof fn lemma_message_no_refs(role: Role, content: Seq<ContentPart>, mode: ResponsesSystemMessageMode, store: bool)
    ensures
        no_references(message_items(role, content, mode, store, true).0),
{
    reveal_strlit("type");
    reveal_strlit("role");
    reveal_strlit("content");
    assert("type"@.len() == 4 && "content"@.len() == 7 && "role"@.len() == 4);
    assert("type"@[0] == 't' && "role"@[0] == 'r');
    match role {
        Role::System => {
            match mode {
                ResponsesSystemMessageMode::System => lemma_two_members_untyped(
                    "role"@,
                    jstr("system"@),
                    "content"@,
                    jstr(texts_of(content)),
                ),
                ResponsesSystemMessageMode::Developer => lemma_two_members_untyped(
                    "role"@,
                    jstr("developer"@),
                    "content"@,
                    jstr(texts_of(content)),
                ),
                ResponsesSystemMessageMode::Remove => {},
            }
        },
        Role::User => lemma_two_members_untyped(
            "role"@,
            jstr("user"@),
            "content"@,
            Json::Array(Seq::new(content.len(), |i: int| user_part_spec(content[i]))),
        ),
        Role::Assistant => lemma_assistant_no_refs(content, store),
        Role::Tool => lemma_tool_no_refs(content),
    }
}

/// With a previous response, the items of a prompt refer to no stored
/// item.
proof fn lemma_prompt_no_refs(prompt: Seq<PromptMessage>, mode: ResponsesSystemMessageMode, store: bool)
    ensures
        no_references(prompt_items(prompt, mode, store, true).0),
    decreases prompt.len(),
{
    if prompt.len() > 0 {
        lemma_prompt_no_refs(prompt.drop_last(), mode, store);
        let m = prompt.last();
        lemma_message_no_refs(m.role, m.content@, mode, store);
        lemma_concat_no_refs(
            prompt_items(prompt.drop_last(), mode, store, true).0,
            message_items(m.role, m.content@, mode, store, true).0,
        );
    }
}

/// When a previous response is continued, the input refers to no stored
/// item: parts that carry an item id are left to that response.
pub proof fn law_continued_input_has_no_references(
    prompt: Seq<PromptMessage>,
    mode: ResponsesSystemMessageMode,
    store: bool,
)
    ensures
        no_references(responses_input_spec(prompt, mode, store, true).0),
{
    lemma_prompt_no_refs(prompt, mode, store);
    lemma_without_bare(prompt_items(prompt, mode, store, true).0);
}

} // verus!
