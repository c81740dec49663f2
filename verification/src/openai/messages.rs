//! Conversion of a prompt into chat-completions `messages`.

use vstd::prelude::*;

use crate::codec::{base64_encode, base64_encoded};
use crate::error::AiMuxError;
use crate::json::{items_view, json_get, json_view, members_view, opt_json_view, Json, JsonValue};
use crate::openai::convert_common::SystemMessageMode;
use crate::json_text::{json_text, to_json_text};
use crate::media::{full_media_type_spec, top_level_spec};
use crate::openai::convert::{get_top_level_media_type, resolve_full_media_type};
use crate::openai::request::{jstr, set_member, set_member_spec};
use crate::search::push_member;
use crate::text::{concat, concat3, decimal_digits, str_eq, u64_to_decimal};

verus! {

broadcast use vstd::std_specs::vec::group_vec_axioms;

/// The optional provider options of a part by their JSON.
pub open spec fn opt_view(o: Option<JsonValue>) -> Option<Json> {
    opt_json_view(o)
}

/// `options.openai[key]` of a part's provider options.
pub open spec fn part_option(po: Option<Json>, key: Seq<char>) -> Option<Json> {
    match po {
        Some(p) => match json_get(p, "openai"@) {
            Some(o) => json_get(o, key),
            None => None,
        },
        None => None,
    }
}

/// `options.openai[key]` of a part's provider options, copied.
pub(crate) fn part_option_of(po: &Option<JsonValue>, key: &str) -> (r: Option<JsonValue>)
    ensures
        opt_json_view(r) == part_option(opt_view(*po), key@),
{
    match po {
        Some(p) => match p.get("openai") {
            Some(o) => match o.get(key) {
                Some(v) => Some(v.deep_copy()),
                None => None,
            },
            None => None,
        },
        None => None,
    }
}

/// The prompt-cache breakpoint of a part.
pub fn get_prompt_cache_breakpoint(provider_options: &Option<JsonValue>) -> (r: Option<JsonValue>)
    ensures
        opt_json_view(r) == part_option(opt_view(*provider_options), "promptCacheBreakpoint"@),
{
    part_option_of(provider_options, "promptCacheBreakpoint")
}

/// The image detail of a part.
pub fn get_image_detail(provider_options: &Option<JsonValue>) -> (r: Option<JsonValue>)
    ensures
        opt_json_view(r) == part_option(opt_view(*provider_options), "imageDetail"@),
{
    part_option_of(provider_options, "imageDetail")
}

// ── Provider references ──────────────────────────────────────────────────

/// The member names of an object, in order (none for other values).
pub open spec fn member_names(j: Json) -> Seq<Seq<char>> {
    match j {
        Json::Object(ms) => Seq::new(ms.len(), |i: int| ms[i].0),
        _ => Seq::empty(),
    }
}

/// Names joined by `", "`.
pub open spec fn join_names(s: Seq<Seq<char>>) -> Seq<char>
    decreases s.len(),
{
    if s.len() == 0 {
        Seq::empty()
    } else if s.len() == 1 {
        s[0]
    } else {
        join_names(s.drop_last()) + ", "@ + s.last()
    }
}

/// The id a reference gives a provider: its string, or the JSON text of
/// another value; an error naming the providers it has otherwise.
pub open spec fn provider_reference_spec(reference: Json, provider: Seq<char>) -> Result<Seq<char>, Seq<char>> {
    match json_get(reference, provider) {
        Some(v) => Ok(
            match v {
                Json::String(s) => s,
                _ => json_text(v),
            },
        ),
        None => Err(
            "No provider reference found for provider '"@ + provider + "'. Available providers: "@ + join_names(
                member_names(reference),
            ),
        ),
    }
}

/// Names of a list of members joined by `", "`.
fn join_member_names(ms: &Vec<(String, JsonValue)>) -> (r: String)
    ensures
        r@ == join_names(Seq::new(ms@.len(), |i: int| ms@[i].0@)),
{
    let ghost names = Seq::new(ms@.len(), |i: int| ms@[i].0@);
    let mut r = String::new();
    let mut i: usize = 0;
    while i < ms.len()
        invariant
            0 <= i <= ms@.len(),
            names == Seq::new(ms@.len(), |i: int| ms@[i].0@),
            r@ == join_names(names.subrange(0, i as int)),
        decreases ms@.len() - i,
    {
        let ghost sub = names.subrange(0, i + 1);
        proof {
            assert(sub.drop_last() =~= names.subrange(0, i as int));
            assert(sub.last() == ms@[i as int].0@);
        }
        if i == 0 {
            r = ms[0].0.clone();
            assert(sub =~= seq![ms@[0].0@]);
        } else {
            r = concat3(r.as_str(), ", ", ms[i].0.as_str());
        }
        i += 1;
    }
    assert(names.subrange(0, ms@.len() as int) =~= names);
    r
}

/// Resolves the id a reference gives a provider (see
/// [`provider_reference_spec`]).
pub fn resolve_provider_reference(reference: &JsonValue, provider: &str) -> (r: Result<String, String>)
    ensures
        match provider_reference_spec(reference@, provider@) {
            Ok(id) => r matches Ok(s) && s@ == id,
            Err(m) => r matches Err(e) && e@ == m,
        },
{
    match reference.get(provider) {
        Some(v) => {
            match v {
                JsonValue::String(s) => Ok(s.clone()),
                _ => Ok(to_json_text(v)),
            }
        },
        None => {
            let names = match reference {
                JsonValue::Object(ms) => join_member_names(ms),
                _ => String::new(),
            };
            proof {
                match reference {
                    JsonValue::Object(ms) => {
                        crate::json::lemma_members_view(ms@);
                        assert(Seq::new(ms@.len(), |i: int| ms@[i].0@) =~= member_names(reference@));
                    },
                    _ => {},
                }
            }
            let a = concat3("No provider reference found for provider '", provider, "'. Available providers: ");
            Err(concat(a.as_str(), names.as_str()))
        },
    }
}

// ── File parts ───────────────────────────────────────────────────────────

/// A part's members with its prompt-cache breakpoint, when it has one.
pub open spec fn with_breakpoint(ms: Seq<(Seq<char>, Json)>, bpt: Option<Json>) -> Seq<(Seq<char>, Json)> {
    match bpt {
        Some(b) => set_member_spec(ms, "prompt_cache_breakpoint"@, b),
        None => ms,
    }
}

/// `{"type": t, key: inner}` with the breakpoint.
pub open spec fn typed_part(t: Seq<char>, key: Seq<char>, inner: Seq<(Seq<char>, Json)>, bpt: Option<Json>) -> Json {
    Json::Object(with_breakpoint(seq![("type"@, jstr(t)), (key, Json::Object(inner))], bpt))
}

/// The audio format of a full audio media type.
pub open spec fn audio_format(full: Seq<char>) -> Option<Seq<char>> {
    if full == "audio/wav"@ {
        Some("wav"@)
    } else if full == "audio/mp3"@ || full == "audio/mpeg"@ {
        Some("mp3"@)
    } else {
        None
    }
}

/// A file part as a chat content part: a provider reference becomes a
/// `file` by id; images an `image_url` (URL or data URI, with the image
/// detail option); audio `input_audio` (WAV or MP3 data only); PDF data a
/// `file` with a name (`part-{index}.pdf` by default); anything else is an
/// error. Every part carries the prompt-cache breakpoint option.
#[verifier::opaque]
pub open spec fn file_part_spec(
    media_type: Seq<char>,
    data: Option<Seq<char>>,
    url: Option<Seq<char>>,
    reference: Option<Json>,
    filename: Option<Seq<char>>,
    po: Option<Json>,
    part_index: nat,
) -> Result<Json, Seq<char>> {
    let bpt = part_option(po, "promptCacheBreakpoint"@);
    match reference {
        Some(r) => match provider_reference_spec(r, "openai"@) {
            Ok(id) => Ok(typed_part("file"@, "file"@, seq![("file_id"@, jstr(id))], bpt)),
            Err(e) => Err(e),
        },
        None => {
            let top = top_level_spec(media_type);
            if top == "image"@ {
                let image_url = match url {
                    Some(u) => Some(seq![("url"@, jstr(u))]),
                    None => match data {
                        Some(b) => Some(
                            seq![("url"@, jstr("data:"@ + full_media_type_spec(media_type, b) + ";base64,"@ + b))],
                        ),
                        None => None,
                    },
                };
                match image_url {
                    None => Err("image part has no data or url"@),
                    Some(iu) => {
                        let iu2 = match part_option(po, "imageDetail"@) {
                            Some(d) => set_member_spec(iu, "detail"@, d),
                            None => iu,
                        };
                        Ok(typed_part("image_url"@, "image_url"@, iu2, bpt))
                    },
                }
            } else if top == "audio"@ {
                if url is Some {
                    Err("audio file parts with URLs"@)
                } else {
                    match data {
                        None => Err("audio part has no data"@),
                        Some(b) => {
                            let full = full_media_type_spec(media_type, b);
                            match audio_format(full) {
                                None => Err("audio content parts with media type "@ + full),
                                Some(f) => Ok(
                                    typed_part(
                                        "input_audio"@,
                                        "input_audio"@,
                                        seq![("data"@, jstr(b)), ("format"@, jstr(f))],
                                        bpt,
                                    ),
                                ),
                            }
                        },
                    }
                }
            } else if media_type == "application"@ {
                Err("media type \"application\".*is not passed as inline bytes.*"@)
            } else if media_type != "application/pdf"@ {
                Err("file part media type "@ + media_type)
            } else if url is Some {
                Err("PDF file parts with URLs"@)
            } else {
                match data {
                    None => Err("PDF part has no data"@),
                    Some(b) => {
                        let fname = match filename {
                            Some(f) => f,
                            None => "part-"@ + decimal_digits(part_index) + ".pdf"@,
                        };
                        Ok(
                            typed_part(
                                "file"@,
                                "file"@,
                                seq![("filename"@, jstr(fname)), ("file_data"@, jstr("data:application/pdf;base64,"@ + b))],
                                bpt,
                            ),
                        )
                    },
                }
            }
        },
    }
}

/// What the two members of a typed part and its breakpoint give: the type
/// under `type`, the inner object under its key.
proof fn lemma_typed_part_members(t: Seq<char>, key: Seq<char>, inner: Seq<(Seq<char>, Json)>, bpt: Option<Json>)
    requires
        key != "type"@,
        key != "prompt_cache_breakpoint"@,
    ensures
        json_get(typed_part(t, key, inner, bpt), "type"@) == Some(jstr(t)),
        json_get(typed_part(t, key, inner, bpt), key) == Some(Json::Object(inner)),
{
    reveal_strlit("type");
    reveal_strlit("prompt_cache_breakpoint");
    assert("type"@.len() != "prompt_cache_breakpoint"@.len());
    let ms = seq![("type"@, jstr(t)), (key, Json::Object(inner))];
    let first = seq![("type"@, jstr(t))];
    crate::json::lemma_member_get_pushed(first, key, Json::Object(inner));
    assert(first.push((key, Json::Object(inner))) =~= ms);
    assert(first + seq![(key, Json::Object(inner))] =~= ms);
    crate::json::lemma_member_get_skip(first, seq![(key, Json::Object(inner))], "type"@);
    crate::json::lemma_member_get_pushed(Seq::empty(), "type"@, jstr(t));
    assert(Seq::<(Seq<char>, Json)>::empty().push(("type"@, jstr(t))) =~= first);
    match bpt {
        Some(b) => {
            crate::openai::request::lemma_set_member_get_other(ms, "prompt_cache_breakpoint"@, b, "type"@);
            crate::openai::request::lemma_set_member_get_other(ms, "prompt_cache_breakpoint"@, b, key);
        },
        None => {},
    }
}

/// Inline audio is sent as `input_audio` carrying its data unchanged and
/// the format its media type names: `wav` for `audio/wav`, `mp3` for
/// `audio/mp3` and `audio/mpeg`, whatever the file name, options and
/// position of the part.
pub proof fn law_audio_part_format(
    media_type: Seq<char>,
    b: Seq<char>,
    filename: Option<Seq<char>>,
    po: Option<Json>,
    part_index: nat,
)
    requires
        media_type == "audio/wav"@ || media_type == "audio/mp3"@ || media_type == "audio/mpeg"@,
    ensures
        file_part_spec(media_type, Some(b), None, None, filename, po, part_index) matches Ok(j) && {
            &&& json_get(j, "type"@) == Some(Json::String("input_audio"@))
            &&& json_get(j, "input_audio"@) == Some(
                Json::Object(
                    seq![
                        ("data"@, Json::String(b)),
                        (
                            "format"@,
                            Json::String(
                                if media_type == "audio/wav"@ {
                                    "wav"@
                                } else {
                                    "mp3"@
                                },
                            ),
                        ),
                    ],
                ),
            )
        },
{
    reveal(file_part_spec);
    reveal_strlit("audio/wav");
    reveal_strlit("audio/mp3");
    reveal_strlit("audio/mpeg");
    reveal_strlit("audio");
    reveal_strlit("image");
    reveal_strlit("input_audio");
    reveal_strlit("type");
    reveal_strlit("prompt_cache_breakpoint");
    assert("audio/wav"@[6] != "audio/mp3"@[6]);
    assert("audio/wav"@.len() != "audio/mpeg"@.len());
    assert(media_type[5] == '/');
    assert(forall|j: int| 0 <= j < 5 ==> media_type[j] != '/');
    crate::media::lemma_top_level_at(media_type, 5);
    assert(media_type.subrange(0, 5) =~= "audio"@);
    assert("audio"@[0] != "image"@[0]);
    assert(top_level_spec(media_type) != "image"@);
    assert(full_media_type_spec(media_type, b) == media_type);
    let f: Seq<char> = if media_type == "audio/wav"@ {
        "wav"@
    } else {
        "mp3"@
    };
    assert(audio_format(media_type) == Some(f));
    assert("input_audio"@.len() != "type"@.len());
    assert("input_audio"@.len() != "prompt_cache_breakpoint"@.len());
    lemma_typed_part_members(
        "input_audio"@,
        "input_audio"@,
        seq![("data"@, jstr(b)), ("format"@, jstr(f))],
        part_option(po, "promptCacheBreakpoint"@),
    );
}

/// Inline PDF data is sent as a `file` holding the data as a PDF data URI
/// under the file name it carries, or `part-{index}.pdf` when it has
/// none.
pub proof fn law_pdf_part(b: Seq<char>, filename: Option<Seq<char>>, po: Option<Json>, part_index: nat)
    ensures
        file_part_spec("application/pdf"@, Some(b), None, None, filename, po, part_index) matches Ok(j) && {
            &&& json_get(j, "type"@) == Some(Json::String("file"@))
            &&& json_get(j, "file"@) == Some(
                Json::Object(
                    seq![
                        (
                            "filename"@,
                            Json::String(
                                match filename {
                                    Some(f) => f,
                                    None => "part-"@ + decimal_digits(part_index) + ".pdf"@,
                                },
                            ),
                        ),
                        ("file_data"@, Json::String("data:application/pdf;base64,"@ + b)),
                    ],
                ),
            )
        },
{
    reveal(file_part_spec);
    let m = "application/pdf"@;
    reveal_strlit("application/pdf");
    reveal_strlit("application");
    reveal_strlit("image");
    reveal_strlit("audio");
    reveal_strlit("file");
    reveal_strlit("type");
    reveal_strlit("prompt_cache_breakpoint");
    assert(m[11] == '/');
    assert(forall|j: int| 0 <= j < 11 ==> m[j] != '/');
    crate::media::lemma_top_level_at(m, 11);
    assert(m.subrange(0, 11) =~= "application"@);
    assert("application"@.len() != "image"@.len() && "application"@.len() != "audio"@.len());
    assert(m.len() != "application"@.len());
    assert("file"@[0] != "type"@[0] && "file"@.len() != "prompt_cache_breakpoint"@.len());
    let name = match filename {
        Some(f) => f,
        None => "part-"@ + decimal_digits(part_index) + ".pdf"@,
    };
    assert(top_level_spec(m) == "application"@);
    assert(top_level_spec(m) != "image"@);
    assert(top_level_spec(m) != "audio"@);
    assert(m != "application"@);
    let inner = seq![("filename"@, jstr(name)), ("file_data"@, jstr("data:application/pdf;base64,"@ + b))];
    let bpt = part_option(po, "promptCacheBreakpoint"@);
    assert(file_part_spec(m, Some(b), None, None, filename, po, part_index) == Ok::<Json, Seq<char>>(
        typed_part("file"@, "file"@, inner, bpt),
    ));
    lemma_typed_part_members("file"@, "file"@, inner, bpt);
    let j = typed_part("file"@, "file"@, inner, bpt);
    assert(json_get(j, "type"@) == Some(Json::String("file"@)));
    assert(json_get(j, "file"@) == Some(Json::Object(inner)));
    assert(inner =~= seq![
        (
            "filename"@,
            Json::String(
                match filename {
                    Some(f) => f,
                    None => "part-"@ + decimal_digits(part_index) + ".pdf"@,
                },
            ),
        ),
        ("file_data"@, Json::String("data:application/pdf;base64,"@ + b)),
    ]);
}

/// Audio given by URL, or in a format other than WAV and MP3, is refused.
pub proof fn law_audio_refusals(media_type: Seq<char>, b: Seq<char>, u: Seq<char>, filename: Option<Seq<char>>, po: Option<Json>, part_index: nat)
    requires
        media_type == "audio/wav"@ || media_type == "audio/mp3"@ || media_type == "audio/mpeg"@ || media_type
            == "audio/ogg"@,
    ensures
        file_part_spec(media_type, Some(b), Some(u), None, filename, po, part_index) == Err::<Json, Seq<char>>(
            "audio file parts with URLs"@,
        ),
        media_type == "audio/ogg"@ ==> file_part_spec(media_type, Some(b), None, None, filename, po, part_index)
            == Err::<Json, Seq<char>>("audio content parts with media type audio/ogg"@),
{
    reveal(file_part_spec);
    reveal_strlit("audio/wav");
    reveal_strlit("audio/mp3");
    reveal_strlit("audio/mpeg");
    reveal_strlit("audio/ogg");
    reveal_strlit("audio");
    reveal_strlit("image");
    reveal_strlit("audio content parts with media type ");
    reveal_strlit("audio content parts with media type audio/ogg");
    assert(media_type[5] == '/');
    assert(forall|j: int| 0 <= j < 5 ==> media_type[j] != '/');
    crate::media::lemma_top_level_at(media_type, 5);
    assert(media_type.subrange(0, 5) =~= "audio"@);
    assert("audio"@[0] != "image"@[0]);
    assert(full_media_type_spec(media_type, b) == media_type);
    if media_type == "audio/ogg"@ {
        assert("audio/ogg"@[6] != "audio/mp3"@[6]);
        assert("audio/ogg"@[6] != "audio/wav"@[6]);
        assert("audio/ogg"@.len() != "audio/mpeg"@.len());
        assert("audio content parts with media type "@ + media_type =~= "audio content parts with media type audio/ogg"@);
    }
}

/// An object of the given members, built in order.
pub(crate) fn object2(k1: &str, v1: JsonValue, k2: &str, v2: JsonValue) -> (j: Vec<(String, JsonValue)>)
    ensures
        members_view(j@) == seq![(k1@, v1@), (k2@, v2@)],
{
    let mut ms: Vec<(String, JsonValue)> = Vec::new();
    assert(members_view(ms@) =~= Seq::<(Seq<char>, Json)>::empty());
    let ghost a = v1@;
    let ghost b = v2@;
    push_member(&mut ms, k1, v1);
    push_member(&mut ms, k2, v2);
    assert(members_view(ms@) =~= seq![(k1@, a), (k2@, b)]);
    ms
}

/// An object of one member.
pub(crate) fn object1(k1: &str, v1: JsonValue) -> (j: Vec<(String, JsonValue)>)
    ensures
        members_view(j@) == seq![(k1@, v1@)],
{
    let mut ms: Vec<(String, JsonValue)> = Vec::new();
    assert(members_view(ms@) =~= Seq::<(Seq<char>, Json)>::empty());
    let ghost a = v1@;
    push_member(&mut ms, k1, v1);
    assert(members_view(ms@) =~= seq![(k1@, a)]);
    ms
}

/// `{"type": t, key: inner}` with the breakpoint.
fn typed_part_of(t: &str, key: &str, inner: Vec<(String, JsonValue)>, bpt: Option<JsonValue>) -> (j: JsonValue)
    ensures
        j@ == typed_part(t@, key@, members_view(inner@), opt_json_view(bpt)),
{
    let ghost iv = members_view(inner@);
    let mut ms = object2("type", JsonValue::String(String::from_str(t)), key, JsonValue::Object(inner));
    match bpt {
        Some(b) => set_member(&mut ms, "prompt_cache_breakpoint", b),
        None => {},
    }
    JsonValue::Object(ms)
}

/// A string JSON value.
pub(crate) fn js(s: &str) -> (j: JsonValue)
    ensures
        j@ == jstr(s@),
{
    JsonValue::String(String::from_str(s))
}

/// Converts a file part (see [`file_part_spec`]).
pub fn convert_file_part_to_openai(
    media_type: &str,
    data_b64: Option<&str>,
    url: Option<&str>,
    reference: Option<&JsonValue>,
    filename: Option<&str>,
    provider_options: &Option<JsonValue>,
    part_index: usize,
) -> (r: Result<JsonValue, String>)
    ensures
        match file_part_spec(
            media_type@,
            crate::replay::opt_str(data_b64),
            crate::replay::opt_str(url),
            crate::json::opt_json_ref_view(reference),
            crate::replay::opt_str(filename),
            opt_view(*provider_options),
            part_index as nat,
        ) {
            Ok(j) => r matches Ok(v) && v@ == j,
            Err(m) => r matches Err(e) && e@ == m,
        },
{
    reveal(file_part_spec);
    let bpt = get_prompt_cache_breakpoint(provider_options);
    match reference {
        Some(rv) => {
            return match resolve_provider_reference(rv, "openai") {
                Ok(id) => Ok(typed_part_of("file", "file", object1("file_id", JsonValue::String(id)), bpt)),
                Err(e) => Err(e),
            };
        },
        None => {},
    }
    let top = get_top_level_media_type(media_type);
    if str_eq(top.as_str(), "image") {
        let iu = match url {
            Some(u) => object1("url", js(u)),
            None => match data_b64 {
                Some(b) => {
                    let full = resolve_full_media_type(media_type, b);
                    let a = concat3("data:", full.as_str(), ";base64,");
                    object1("url", JsonValue::String(concat(a.as_str(), b)))
                },
                None => {
                    return Err(String::from_str("image part has no data or url"));
                },
            },
        };
        let mut iu = iu;
        match get_image_detail(provider_options) {
            Some(d) => set_member(&mut iu, "detail", d),
            None => {},
        }
        return Ok(typed_part_of("image_url", "image_url", iu, bpt));
    }
    if str_eq(top.as_str(), "audio") {
        if url.is_some() {
            return Err(String::from_str("audio file parts with URLs"));
        }
        let b = match data_b64 {
            Some(b) => b,
            None => {
                return Err(String::from_str("audio part has no data"));
            },
        };
        let full = resolve_full_media_type(media_type, b);
        let format = if str_eq(full.as_str(), "audio/wav") {
            "wav"
        } else if str_eq(full.as_str(), "audio/mp3") || str_eq(full.as_str(), "audio/mpeg") {
            "mp3"
        } else {
            return Err(concat("audio content parts with media type ", full.as_str()));
        };
        return Ok(typed_part_of("input_audio", "input_audio", object2("data", js(b), "format", js(format)), bpt));
    }
    if str_eq(media_type, "application") {
        return Err(String::from_str("media type \"application\".*is not passed as inline bytes.*"));
    }
    if !str_eq(media_type, "application/pdf") {
        return Err(concat("file part media type ", media_type));
    }
    if url.is_some() {
        return Err(String::from_str("PDF file parts with URLs"));
    }
    let b = match data_b64 {
        Some(b) => b,
        None => {
            return Err(String::from_str("PDF part has no data"));
        },
    };
    let fname = match filename {
        Some(f) => String::from_str(f),
        None => concat3("part-", u64_to_decimal(part_index as u64).as_str(), ".pdf"),
    };
    let data_uri = concat("data:application/pdf;base64,", b);
    Ok(
        typed_part_of(
            "file",
            "file",
            object2("filename", JsonValue::String(fname), "file_data", JsonValue::String(data_uri)),
            bpt,
        ),
    )
}

// ── Prompt parts ─────────────────────────────────────────────────────────

/// Who a prompt message is from.
#[derive(Debug, Clone, Copy, PartialEq, Eq, Structural)]
pub enum Role {
    System,
    User,
    Assistant,
    Tool,
}

/// A part of a prompt message.
#[derive(Debug)]
#[allow(inconsistent_fields)]
pub enum ContentPart {
    Text { text: String, provider_options: Option<JsonValue> },
    Image { image: Vec<u8>, media_type: String, provider_options: Option<JsonValue> },
    File { data: Vec<u8>, media_type: String, filename: Option<String>, provider_options: Option<JsonValue> },
    FileBase64 { data: String, media_type: String, filename: Option<String>, provider_options: Option<JsonValue> },
    FileUrl { url: String, media_type: String, provider_options: Option<JsonValue> },
    FileReference {
        media_type: String,
        reference: JsonValue,
        filename: Option<String>,
        provider_options: Option<JsonValue>,
    },
    Reasoning { text: String, provider_options: Option<JsonValue> },
    ToolCall { tool_call_id: String, tool_name: String, input: JsonValue, provider_options: Option<JsonValue> },
    ToolResult { tool_call_id: String, result: JsonValue },
}

/// A message of a prompt.
#[derive(Debug)]
pub struct PromptMessage {
    pub role: Role,
    pub content: Vec<ContentPart>,
}

/// An optional string by its characters.
pub open spec fn opt_chars(o: Option<String>) -> Option<Seq<char>> {
    match o {
        Some(s) => Some(s@),
        None => None,
    }
}

/// The arguments text of a tool call: `{}` for a null input, else the
/// input's JSON text.
pub open spec fn arguments_text(input: Json) -> Seq<char> {
    if input is Null {
        "{}"@
    } else {
        json_text(input)
    }
}

/// A content part as a chat content part (see [`file_part_spec`] for
/// files; inline bytes are sent as base64); reasoning becomes `null`; tool
/// calls and results keep a fallback shape.
#[verifier::opaque]
pub open spec fn part_spec(part: ContentPart, index: nat) -> Result<Json, Seq<char>> {
    match part {
        ContentPart::Text { text, provider_options } => Ok(
            Json::Object(
                with_breakpoint(
                    seq![("type"@, jstr("text"@)), ("text"@, jstr(text@))],
                    part_option(opt_view(provider_options), "promptCacheBreakpoint"@),
                ),
            ),
        ),
        ContentPart::Image { image, media_type, provider_options } => file_part_spec(
            media_type@,
            Some(base64_encoded(image@)),
            None,
            None,
            None,
            opt_view(provider_options),
            index,
        ),
        ContentPart::File { data, media_type, filename, provider_options } => file_part_spec(
            media_type@,
            Some(base64_encoded(data@)),
            None,
            None,
            opt_chars(filename),
            opt_view(provider_options),
            index,
        ),
        ContentPart::FileBase64 { data, media_type, filename, provider_options } => file_part_spec(
            media_type@,
            Some(data@),
            None,
            None,
            opt_chars(filename),
            opt_view(provider_options),
            index,
        ),
        ContentPart::FileUrl { url, media_type, provider_options } => file_part_spec(
            media_type@,
            None,
            Some(url@),
            None,
            None,
            opt_view(provider_options),
            index,
        ),
        ContentPart::FileReference { media_type, reference, filename, provider_options } => file_part_spec(
            media_type@,
            None,
            None,
            Some(reference@),
            opt_chars(filename),
            opt_view(provider_options),
            index,
        ),
        ContentPart::Reasoning { .. } => Ok(Json::Null),
        ContentPart::ToolCall { tool_call_id, tool_name, input, .. } => Ok(
            Json::Object(
                seq![
                    ("type"@, jstr("tool_call"@)),
                    ("id"@, jstr(tool_call_id@)),
                    ("function"@, Json::Object(seq![("name"@, jstr(tool_name@)), ("arguments"@, jstr(json_text(input@)))])),
                ],
            ),
        ),
        ContentPart::ToolResult { tool_call_id, result } => Ok(
            Json::Object(
                seq![
                    ("type"@, jstr("tool_result"@)),
                    ("tool_call_id"@, jstr(tool_call_id@)),
                    ("content"@, result@),
                ],
            ),
        ),
    }
}

/// An optional borrowed string of an optional owned one.
fn opt_as_str(o: &Option<String>) -> (r: Option<&str>)
    ensures
        crate::replay::opt_str(r) == opt_chars(*o),
{
    match o {
        Some(s) => Some(s.as_str()),
        None => None,
    }
}

/// An object of three members, built in order.
pub(crate) fn object3(k1: &str, v1: JsonValue, k2: &str, v2: JsonValue, k3: &str, v3: JsonValue) -> (j: Vec<(String, JsonValue)>)
    ensures
        members_view(j@) == seq![(k1@, v1@), (k2@, v2@), (k3@, v3@)],
{
    let ghost c = v3@;
    let mut ms = object2(k1, v1, k2, v2);
    let ghost m = members_view(ms@);
    push_member(&mut ms, k3, v3);
    assert(members_view(ms@) =~= m.push((k3@, c)));
    ms
}

/// Converts a content part (see [`part_spec`]); a file error is an
/// `InvalidArgument`.
pub fn convert_part_to_openai(part: &ContentPart, index: usize) -> (r: Result<JsonValue, AiMuxError>)
    ensures
        match part_spec(*part, index as nat) {
            Ok(j) => r matches Ok(v) && v@ == j,
            Err(m) => r matches Err(AiMuxError::InvalidArgument(e)) && e@ == m,
        },
{
    reveal(part_spec);
    let file = match part {
        ContentPart::Text { text, provider_options } => {
            let mut ms = object2("type", js("text"), "text", JsonValue::String(text.clone()));
            match get_prompt_cache_breakpoint(provider_options) {
                Some(b) => set_member(&mut ms, "prompt_cache_breakpoint", b),
                None => {},
            }
            return Ok(JsonValue::Object(ms));
        },
        ContentPart::Image { image, media_type, provider_options } => {
            let b64 = base64_encode(image.as_slice());
            convert_file_part_to_openai(media_type.as_str(), Some(b64.as_str()), None, None, None, provider_options, index)
        },
        ContentPart::File { data, media_type, filename, provider_options } => {
            let b64 = base64_encode(data.as_slice());
            convert_file_part_to_openai(
                media_type.as_str(),
                Some(b64.as_str()),
                None,
                None,
                opt_as_str(filename),
                provider_options,
                index,
            )
        },
        ContentPart::FileBase64 { data, media_type, filename, provider_options } => convert_file_part_to_openai(
            media_type.as_str(),
            Some(data.as_str()),
            None,
            None,
            opt_as_str(filename),
            provider_options,
            index,
        ),
        ContentPart::FileUrl { url, media_type, provider_options } => convert_file_part_to_openai(
            media_type.as_str(),
            None,
            Some(url.as_str()),
            None,
            None,
            provider_options,
            index,
        ),
        ContentPart::FileReference { media_type, reference, filename, provider_options } => convert_file_part_to_openai(
            media_type.as_str(),
            None,
            None,
            Some(reference),
            opt_as_str(filename),
            provider_options,
            index,
        ),
        ContentPart::Reasoning { .. } => {
            return Ok(JsonValue::Null);
        },
        ContentPart::ToolCall { tool_call_id, tool_name, input, .. } => {
            let f = object2("name", JsonValue::String(tool_name.clone()), "arguments", JsonValue::String(to_json_text(input)));
            let o = object3(
                "type",
                js("tool_call"),
                "id",
                JsonValue::String(tool_call_id.clone()),
                "function",
                JsonValue::Object(f),
            );
            return Ok(JsonValue::Object(o));
        },
        ContentPart::ToolResult { tool_call_id, result } => {
            let o = object3(
                "type",
                js("tool_result"),
                "tool_call_id",
                JsonValue::String(tool_call_id.clone()),
                "content",
                result.deep_copy(),
            );
            return Ok(JsonValue::Object(o));
        },
    };
    match file {
        Ok(j) => Ok(j),
        Err(e) => Err(AiMuxError::InvalidArgument(e)),
    }
}

// ── Messages ─────────────────────────────────────────────────────────────

/// The role's name.
pub open spec fn role_text(r: Role) -> Seq<char> {
    match r {
        Role::System => "system"@,
        Role::User => "user"@,
        Role::Assistant => "assistant"@,
        Role::Tool => "tool"@,
    }
}

/// The texts of the text parts, concatenated.
pub open spec fn texts_of(content: Seq<ContentPart>) -> Seq<char>
    decreases content.len(),
{
    if content.len() == 0 {
        Seq::empty()
    } else {
        texts_of(content.drop_last()) + match content.last() {
            ContentPart::Text { text, .. } => text@,
            _ => Seq::empty(),
        }
    }
}

/// The texts of the reasoning parts, concatenated.
pub open spec fn reasoning_of(content: Seq<ContentPart>) -> Seq<char>
    decreases content.len(),
{
    if content.len() == 0 {
        Seq::empty()
    } else {
        reasoning_of(content.drop_last()) + match content.last() {
            ContentPart::Reasoning { text, .. } => text@,
            _ => Seq::empty(),
        }
    }
}

/// A tool call as an assistant `tool_calls` entry.
pub open spec fn tool_call_json(id: Seq<char>, name: Seq<char>, input: Json) -> Json {
    Json::Object(
        seq![
            ("type"@, jstr("function"@)),
            ("id"@, jstr(id)),
            ("function"@, Json::Object(seq![("name"@, jstr(name)), ("arguments"@, jstr(arguments_text(input)))])),
        ],
    )
}

/// The tool calls of the content, in order.
pub open spec fn tool_calls_of(content: Seq<ContentPart>) -> Seq<Json>
    decreases content.len(),
{
    if content.len() == 0 {
        Seq::empty()
    } else {
        let r = tool_calls_of(content.drop_last());
        match content.last() {
            ContentPart::ToolCall { tool_call_id, tool_name, input, .. } => r.push(
                tool_call_json(tool_call_id@, tool_name@, input@),
            ),
            _ => r,
        }
    }
}

/// A tool result as tool-message content: a string as it is, another value
/// as its JSON text.
pub open spec fn tool_result_content(r: Json) -> Json {
    match r {
        Json::String(s) => Json::String(s),
        _ => Json::String(json_text(r)),
    }
}

/// One tool message per tool-result part, in order.
pub open spec fn tool_messages(content: Seq<ContentPart>) -> Seq<Json>
    decreases content.len(),
{
    if content.len() == 0 {
        Seq::empty()
    } else {
        let r = tool_messages(content.drop_last());
        match content.last() {
            ContentPart::ToolResult { tool_call_id, result } => r.push(
                Json::Object(
                    seq![
                        ("role"@, jstr("tool"@)),
                        ("content"@, tool_result_content(result@)),
                        ("tool_call_id"@, jstr(tool_call_id@)),
                    ],
                ),
            ),
            _ => r,
        }
    }
}

/// The first text part: its text and prompt-cache breakpoint.
pub open spec fn first_text(content: Seq<ContentPart>) -> Option<(Seq<char>, Option<Json>)>
    decreases content.len(),
{
    if content.len() == 0 {
        None
    } else {
        match first_text(content.drop_last()) {
            Some(x) => Some(x),
            None => match content.last() {
                ContentPart::Text { text, provider_options } => Some(
                    (text@, part_option(opt_view(provider_options), "promptCacheBreakpoint"@)),
                ),
                _ => None,
            },
        }
    }
}

/// A system message under the given role: its first text as content (as a
/// text part with the breakpoint when it has one), or empty content.
pub open spec fn system_message_spec(content: Seq<ContentPart>, role: Seq<char>) -> Json {
    match first_text(content) {
        Some((t, None)) => Json::Object(seq![("role"@, jstr(role)), ("content"@, jstr(t))]),
        Some((t, Some(b))) => Json::Object(
            seq![
                ("role"@, jstr(role)),
                (
                    "content"@,
                    Json::Array(
                        seq![
                            Json::Object(
                                seq![("type"@, jstr("text"@)), ("text"@, jstr(t)), ("prompt_cache_breakpoint"@, b)],
                            ),
                        ],
                    ),
                ),
            ],
        ),
        None => Json::Object(seq![("role"@, jstr(role)), ("content"@, jstr(Seq::empty()))]),
    }
}

/// The parts other than reasoning, in order.
pub open spec fn non_reasoning(content: Seq<ContentPart>) -> Seq<ContentPart>
    decreases content.len(),
{
    if content.len() == 0 {
        Seq::empty()
    } else {
        let r = non_reasoning(content.drop_last());
        match content.last() {
            ContentPart::Reasoning { .. } => r,
            p => r.push(p),
        }
    }
}

/// Every part is text without provider options.
pub open spec fn all_plain_text(parts: Seq<ContentPart>) -> bool {
    forall|i: int| 0 <= i < parts.len() ==> (#[trigger] parts[i] matches ContentPart::Text { provider_options: None, .. })
}

/// The parts converted in order, each with its index; the first failure.
pub open spec fn converted_parts(parts: Seq<ContentPart>) -> Result<Seq<Json>, Seq<char>>
    decreases parts.len(),
{
    if parts.len() == 0 {
        Ok(Seq::empty())
    } else {
        match converted_parts(parts.drop_last()) {
            Err(e) => Err(e),
            Ok(r) => match part_spec(parts.last(), (parts.len() - 1) as nat) {
                Ok(j) => Ok(r.push(j)),
                Err(e) => Err(e),
            },
        }
    }
}

/// Whether the content has a tool call.
pub open spec fn has_tool_call(content: Seq<ContentPart>) -> bool {
    exists|i: int| 0 <= i < content.len() && (#[trigger] content[i] matches ContentPart::ToolCall { .. })
}

/// The messages of one prompt message. System messages follow the
/// system-message mode (dropped, or sent as `developer` or `system`). Tool
/// messages give one message per tool result. Groq assistant messages carry
/// the text (possibly empty), the reasoning as `reasoning` and the tool
/// calls. Other assistant messages with tool calls carry the text (`null`
/// when empty), the tool calls and the reasoning as `reasoning_content`.
/// Otherwise the non-reasoning parts are the content: one string when all
/// are plain text, else the converted parts; assistant reasoning goes to
/// `reasoning_content`.
#[verifier::opaque]
pub open spec fn message_spec(
    role: Role,
    content: Seq<ContentPart>,
    mode: SystemMessageMode,
    provider: Seq<char>,
) -> Result<Seq<Json>, Seq<char>> {
    if role == Role::System {
        match mode {
            SystemMessageMode::Remove => Ok(Seq::empty()),
            SystemMessageMode::Developer => Ok(seq![system_message_spec(content, "developer"@)]),
            SystemMessageMode::System => Ok(seq![system_message_spec(content, "system"@)]),
        }
    } else if role == Role::Tool {
        Ok(tool_messages(content))
    } else if role == Role::Assistant && provider == "groq"@ {
        let reasoning = reasoning_of(content);
        let calls = tool_calls_of(content);
        let m0 = seq![("role"@, jstr("assistant"@)), ("content"@, jstr(texts_of(content)))];
        let m1 = if reasoning.len() > 0 {
            set_member_spec(m0, "reasoning"@, jstr(reasoning))
        } else {
            m0
        };
        let m2 = if calls.len() > 0 {
            set_member_spec(m1, "tool_calls"@, Json::Array(calls))
        } else {
            m1
        };
        Ok(seq![Json::Object(m2)])
    } else if role == Role::Assistant && has_tool_call(content) {
        let text = texts_of(content);
        let reasoning = reasoning_of(content);
        let m0 = seq![
            ("role"@, jstr("assistant"@)),
            (
                "content"@,
                if text.len() == 0 {
                    Json::Null
                } else {
                    jstr(text)
                },
            ),
            ("tool_calls"@, Json::Array(tool_calls_of(content))),
        ];
        let m1 = if reasoning.len() > 0 {
            set_member_spec(m0, "reasoning_content"@, jstr(reasoning))
        } else {
            m0
        };
        Ok(seq![Json::Object(m1)])
    } else {
        let reasoning = if role == Role::Assistant {
            reasoning_of(content)
        } else {
            Seq::empty()
        };
        let parts = non_reasoning(content);
        let body = if all_plain_text(parts) {
            Ok(jstr(texts_of(parts)))
        } else {
            match converted_parts(parts) {
                Ok(r) => Ok(Json::Array(r)),
                Err(e) => Err(e),
            }
        };
        match body {
            Err(e) => Err(e),
            Ok(c) => {
                let m0 = seq![("role"@, jstr(role_text(role))), ("content"@, c)];
                Ok(
                    seq![
                        Json::Object(
                            if reasoning.len() > 0 {
                                set_member_spec(m0, "reasoning_content"@, jstr(reasoning))
                            } else {
                                m0
                            },
                        ),
                    ],
                )
            },
        }
    }
}

/// The views of a list of JSON values.
pub open spec fn values_view(v: Seq<JsonValue>) -> Seq<Json> {
    Seq::new(v.len(), |i: int| v[i]@)
}

/// Concatenates the texts of the text parts.
pub(crate) fn collect_text(content: &Vec<ContentPart>) -> (r: String)
    ensures
        r@ == texts_of(content@),
{
    let mut r = String::new();
    let mut i: usize = 0;
    while i < content.len()
        invariant
            0 <= i <= content@.len(),
            r@ == texts_of(content@.subrange(0, i as int)),
        decreases content@.len() - i,
    {
        proof {
            let sub = content@.subrange(0, i + 1);
            assert(sub.drop_last() =~= content@.subrange(0, i as int));
            assert(sub.last() == content@[i as int]);
        }
        match &content[i] {
            ContentPart::Text { text, .. } => {
                r = concat(r.as_str(), text.as_str());
            },
            _ => {
                assert(r@ + Seq::<char>::empty() =~= r@);
            },
        }
        i += 1;
    }
    assert(content@.subrange(0, content@.len() as int) =~= content@);
    r
}

/// Concatenates the texts of the reasoning parts.
pub fn collect_reasoning(content: &Vec<ContentPart>) -> (r: String)
    ensures
        r@ == reasoning_of(content@),
{
    let mut r = String::new();
    let mut i: usize = 0;
    while i < content.len()
        invariant
            0 <= i <= content@.len(),
            r@ == reasoning_of(content@.subrange(0, i as int)),
        decreases content@.len() - i,
    {
        proof {
            let sub = content@.subrange(0, i + 1);
            assert(sub.drop_last() =~= content@.subrange(0, i as int));
            assert(sub.last() == content@[i as int]);
        }
        match &content[i] {
            ContentPart::Reasoning { text, .. } => {
                r = concat(r.as_str(), text.as_str());
            },
            _ => {
                assert(r@ + Seq::<char>::empty() =~= r@);
            },
        }
        i += 1;
    }
    assert(content@.subrange(0, content@.len() as int) =~= content@);
    r
}

/// The arguments text of a tool call.
fn arguments_of(input: &JsonValue) -> (r: String)
    ensures
        r@ == arguments_text(input@),
{
    match input {
        JsonValue::Null => String::from_str("{}"),
        _ => to_json_text(input),
    }
}

/// The tool calls of the content as `tool_calls` entries.
fn tool_calls_json(content: &Vec<ContentPart>) -> (r: Vec<JsonValue>)
    ensures
        values_view(r@) == tool_calls_of(content@),
{
    let mut r: Vec<JsonValue> = Vec::new();
    let mut i: usize = 0;
    while i < content.len()
        invariant
            0 <= i <= content@.len(),
            values_view(r@) == tool_calls_of(content@.subrange(0, i as int)),
        decreases content@.len() - i,
    {
        proof {
            let sub = content@.subrange(0, i + 1);
            assert(sub.drop_last() =~= content@.subrange(0, i as int));
            assert(sub.last() == content@[i as int]);
        }
        let ghost before = values_view(r@);
        match &content[i] {
            ContentPart::ToolCall { tool_call_id, tool_name, input, .. } => {
                let f = object2("name", JsonValue::String(tool_name.clone()), "arguments", JsonValue::String(arguments_of(input)));
                let o = object3("type", js("function"), "id", JsonValue::String(tool_call_id.clone()), "function", JsonValue::Object(f));
                r.push(JsonValue::Object(o));
                assert(values_view(r@) =~= before.push(tool_call_json(tool_call_id@, tool_name@, input@)));
            },
            _ => {},
        }
        i += 1;
    }
    assert(content@.subrange(0, content@.len() as int) =~= content@);
    r
}

/// Tool-message content of a tool result.
pub fn tool_result_to_content(output: &JsonValue) -> (r: JsonValue)
    ensures
        r@ == tool_result_content(output@),
{
    match output {
        JsonValue::String(s) => JsonValue::String(s.clone()),
        _ => JsonValue::String(to_json_text(output)),
    }
}

/// One tool message per tool-result part.
fn tool_messages_of(content: &Vec<ContentPart>) -> (r: Vec<JsonValue>)
    ensures
        values_view(r@) == tool_messages(content@),
{
    let mut r: Vec<JsonValue> = Vec::new();
    let mut i: usize = 0;
    while i < content.len()
        invariant
            0 <= i <= content@.len(),
            values_view(r@) == tool_messages(content@.subrange(0, i as int)),
        decreases content@.len() - i,
    {
        proof {
            let sub = content@.subrange(0, i + 1);
            assert(sub.drop_last() =~= content@.subrange(0, i as int));
            assert(sub.last() == content@[i as int]);
        }
        let ghost before = values_view(r@);
        match &content[i] {
            ContentPart::ToolResult { tool_call_id, result } => {
                let o = object3(
                    "role",
                    js("tool"),
                    "content",
                    tool_result_to_content(result),
                    "tool_call_id",
                    JsonValue::String(tool_call_id.clone()),
                );
                r.push(JsonValue::Object(o));
                assert(values_view(r@) =~= before.push(
                    Json::Object(
                        seq![
                            ("role"@, jstr("tool"@)),
                            ("content"@, tool_result_content(result@)),
                            ("tool_call_id"@, jstr(tool_call_id@)),
                        ],
                    ),
                ));
            },
            _ => {},
        }
        i += 1;
    }
    assert(content@.subrange(0, content@.len() as int) =~= content@);
    r
}

/// Converts a system message under the given role.
pub fn convert_system_message(msg: &PromptMessage, role: &str) -> (r: Vec<JsonValue>)
    ensures
        values_view(r@) == seq![system_message_spec(msg.content@, role@)],
{
    let content = &msg.content;
    let mut found: Option<(String, Option<JsonValue>)> = None;
    let mut i: usize = 0;
    while i < content.len()
        invariant
            0 <= i <= content@.len(),
            content == &msg.content,
            match found {
                Some((t, b)) => first_text(content@.subrange(0, i as int)) == Some((t@, opt_json_view(b))),
                None => first_text(content@.subrange(0, i as int)) is None,
            },
        decreases content@.len() - i,
    {
        proof {
            let sub = content@.subrange(0, i + 1);
            assert(sub.drop_last() =~= content@.subrange(0, i as int));
            assert(sub.last() == content@[i as int]);
        }
        if found.is_none() {
            match &content[i] {
                ContentPart::Text { text, provider_options } => {
                    found = Some((text.clone(), get_prompt_cache_breakpoint(provider_options)));
                },
                _ => {},
            }
        }
        i += 1;
    }
    assert(content@.subrange(0, content@.len() as int) =~= content@);
    let m = match found {
        Some((t, None)) => object2("role", js(role), "content", JsonValue::String(t)),
        Some((t, Some(b))) => {
            let part = object3("type", js("text"), "text", JsonValue::String(t), "prompt_cache_breakpoint", b);
            let mut items: Vec<JsonValue> = Vec::new();
            let ghost pv = members_view(part@);
            items.push(JsonValue::Object(part));
            proof {
                crate::json::lemma_items_view(items@);
                assert(items_view(items@) =~= seq![Json::Object(pv)]);
            }
            object2("role", js(role), "content", JsonValue::Array(items))
        },
        None => object2("role", js(role), "content", JsonValue::String(String::new())),
    };
    let mut r: Vec<JsonValue> = Vec::new();
    r.push(JsonValue::Object(m));
    assert(values_view(r@) =~= seq![system_message_spec(msg.content@, role@)]);
    r
}

/// Reasoning parts carry no text: the text of the non-reasoning parts is
/// the text of all parts.
proof fn lemma_texts_of_non_reasoning(c: Seq<ContentPart>)
    ensures
        texts_of(non_reasoning(c)) == texts_of(c),
    decreases c.len(),
{
    if c.len() > 0 {
        lemma_texts_of_non_reasoning(c.drop_last());
        let r = non_reasoning(c.drop_last());
        match c.last() {
            ContentPart::Reasoning { .. } => {
                assert(texts_of(c) =~= texts_of(c.drop_last()) + Seq::<char>::empty());
            },
            p => {
                assert(r.push(p).drop_last() =~= r);
            },
        }
    }
}

/// One more part keeps all-plain-text exactly when it is plain text.
proof fn lemma_all_plain_push(s: Seq<ContentPart>, p: ContentPart)
    ensures
        all_plain_text(s.push(p)) == (all_plain_text(s) && (p matches ContentPart::Text { provider_options: None, .. })),
{
    let t = s.push(p);
    if all_plain_text(t) {
        assert forall|i: int| 0 <= i < s.len() implies (#[trigger] s[i] matches ContentPart::Text { provider_options: None, .. }) by {
            assert(t[i] == s[i]);
        }
        assert(t[s.len() as int] == p);
    }
    if all_plain_text(s) && (p matches ContentPart::Text { provider_options: None, .. }) {
        assert forall|i: int| 0 <= i < t.len() implies (#[trigger] t[i] matches ContentPart::Text { provider_options: None, .. }) by {
            if i < s.len() {
                assert(t[i] == s[i]);
            }
        }
    }
}

/// Whether the content has a tool call.
fn has_tool_calls(content: &Vec<ContentPart>) -> (b: bool)
    ensures
        b == has_tool_call(content@),
{
    let mut i: usize = 0;
    while i < content.len()
        invariant
            0 <= i <= content@.len(),
            forall|j: int| 0 <= j < i ==> !(#[trigger] content@[j] matches ContentPart::ToolCall { .. }),
        decreases content@.len() - i,
    {
        match &content[i] {
            ContentPart::ToolCall { .. } => {
                return true;
            },
            _ => {},
        }
        i += 1;
    }
    false
}

/// A JSON array of the given values.
pub(crate) fn array_of(v: Vec<JsonValue>) -> (j: JsonValue)
    ensures
        j@ == Json::Array(values_view(v@)),
{
    proof {
        crate::json::lemma_items_view(v@);
        assert(items_view(v@) =~= values_view(v@));
    }
    JsonValue::Array(v)
}

/// The content of a default message: one string when the non-reasoning
/// parts are all plain text, else those parts converted.
fn default_content(content: &Vec<ContentPart>) -> (r: Result<JsonValue, AiMuxError>)
    ensures
        ({
            let parts = non_reasoning(content@);
            if all_plain_text(parts) {
                r matches Ok(j) && j@ == jstr(texts_of(parts))
            } else {
                match converted_parts(parts) {
                    Ok(items) => r matches Ok(j) && j@ == Json::Array(items),
                    Err(m) => r matches Err(AiMuxError::InvalidArgument(e)) && e@ == m,
                }
            }
        }),
{
    let mut plain = true;
    let mut i: usize = 0;
    while i < content.len()
        invariant
            0 <= i <= content@.len(),
            plain == all_plain_text(non_reasoning(content@.subrange(0, i as int))),
        decreases content@.len() - i,
    {
        proof {
            let sub = content@.subrange(0, i + 1);
            assert(sub.drop_last() =~= content@.subrange(0, i as int));
            assert(sub.last() == content@[i as int]);
            lemma_all_plain_push(non_reasoning(content@.subrange(0, i as int)), content@[i as int]);
        }
        match &content[i] {
            ContentPart::Reasoning { .. } => {},
            ContentPart::Text { provider_options: None, .. } => {},
            _ => {
                plain = false;
            },
        }
        i += 1;
    }
    assert(content@.subrange(0, content@.len() as int) =~= content@);
    if plain {
        proof {
            lemma_texts_of_non_reasoning(content@);
        }
        return Ok(JsonValue::String(collect_text(content)));
    }
    let mut out: Vec<JsonValue> = Vec::new();
    let mut k: usize = 0;
    let mut i: usize = 0;
    proof {
        assert(content@.subrange(0, 0) =~= Seq::<ContentPart>::empty());
        assert(values_view(out@) =~= Seq::<Json>::empty());
    }
    while i < content.len()
        invariant
            0 <= i <= content@.len(),
            !all_plain_text(non_reasoning(content@)),
            k <= i,
            non_reasoning(content@.subrange(0, i as int)).len() == k,
            converted_parts(non_reasoning(content@.subrange(0, i as int))) == Ok::<Seq<Json>, Seq<char>>(
                values_view(out@),
            ),
        decreases content@.len() - i,
    {
        let ghost nr = non_reasoning(content@.subrange(0, i as int));
        proof {
            let sub = content@.subrange(0, i + 1);
            assert(sub.drop_last() =~= content@.subrange(0, i as int));
            assert(sub.last() == content@[i as int]);
        }
        match &content[i] {
            ContentPart::Reasoning { .. } => {},
            p => {
                let ghost before = values_view(out@);
                proof {
                    assert(nr.push(*p).drop_last() =~= nr);
                }
                match convert_part_to_openai(p, k) {
                    Ok(j) => {
                        out.push(j);
                        assert(values_view(out@) =~= before.push(out@.last()@));
                    },
                    Err(e) => {
                        proof {
                            lemma_converted_prefix_err(content@, i as int);
                        }
                        return Err(e);
                    },
                }
                k += 1;
            },
        }
        i += 1;
    }
    assert(content@.subrange(0, content@.len() as int) =~= content@);
    Ok(array_of(out))
}

/// A failure in a prefix of the non-reasoning parts is the failure of all.
proof fn lemma_converted_prefix_err(c: Seq<ContentPart>, i: int)
    requires
        0 <= i < c.len(),
        converted_parts(non_reasoning(c.subrange(0, i + 1))) is Err,
    ensures
        converted_parts(non_reasoning(c)) == converted_parts(non_reasoning(c.subrange(0, i + 1))),
    decreases c.len() - i,
{
    if i + 1 < c.len() {
        let sub = c.subrange(0, i + 2);
        assert(sub.drop_last() =~= c.subrange(0, i + 1));
        let nr = non_reasoning(c.subrange(0, i + 1));
        match sub.last() {
            ContentPart::Reasoning { .. } => {},
            p => {
                assert(nr.push(p).drop_last() =~= nr);
            },
        }
        lemma_converted_prefix_err(c, i + 1);
    } else {
        assert(c.subrange(0, i + 1) =~= c);
    }
}

/// Converts one prompt message (see [`message_spec`]); a part that cannot
/// be converted is an `InvalidArgument`.
pub fn convert_message_to_openai(msg: &PromptMessage, system_message_mode: SystemMessageMode, provider: &str) -> (r: Result<
    Vec<JsonValue>,
    AiMuxError,
>)
    ensures
        match message_spec(msg.role, msg.content@, system_message_mode, provider@) {
            Ok(ms) => r matches Ok(v) && values_view(v@) == ms,
            Err(m) => r matches Err(AiMuxError::InvalidArgument(e)) && e@ == m,
        },
{
    reveal(message_spec);
    let content = &msg.content;
    if msg.role == Role::System {
        return match system_message_mode {
            SystemMessageMode::Remove => {
                let v: Vec<JsonValue> = Vec::new();
                assert(values_view(v@) =~= Seq::<Json>::empty());
                Ok(v)
            },
            SystemMessageMode::Developer => Ok(convert_system_message(msg, "developer")),
            SystemMessageMode::System => Ok(convert_system_message(msg, "system")),
        };
    }
    if msg.role == Role::Tool {
        return Ok(tool_messages_of(content));
    }
    let assistant = msg.role == Role::Assistant;
    if assistant && str_eq(provider, "groq") {
        let text = collect_text(content);
        let reasoning = collect_reasoning(content);
        let calls = tool_calls_json(content);
        let mut m = object2("role", js("assistant"), "content", JsonValue::String(text));
        if reasoning.unicode_len() > 0 {
            set_member(&mut m, "reasoning", JsonValue::String(reasoning));
        }
        if calls.len() > 0 {
            set_member(&mut m, "tool_calls", array_of(calls));
        }
        let mut v: Vec<JsonValue> = Vec::new();
        v.push(JsonValue::Object(m));
        assert(values_view(v@) =~= seq![v@[0]@]);
        return Ok(v);
    }
    if assistant && has_tool_calls(content) {
        let text = collect_text(content);
        let reasoning = collect_reasoning(content);
        let calls = tool_calls_json(content);
        let c = if text.unicode_len() == 0 {
            JsonValue::Null
        } else {
            JsonValue::String(text)
        };
        let mut m = object3("role", js("assistant"), "content", c, "tool_calls", array_of(calls));
        if reasoning.unicode_len() > 0 {
            set_member(&mut m, "reasoning_content", JsonValue::String(reasoning));
        }
        let mut v: Vec<JsonValue> = Vec::new();
        v.push(JsonValue::Object(m));
        assert(values_view(v@) =~= seq![v@[0]@]);
        return Ok(v);
    }
    let reasoning = if assistant {
        collect_reasoning(content)
    } else {
        String::new()
    };
    let body = match default_content(content) {
        Ok(b) => b,
        Err(e) => {
            return Err(e);
        },
    };
    let role = match msg.role {
        Role::System => "system",
        Role::User => "user",
        Role::Assistant => "assistant",
        Role::Tool => "tool",
    };
    let mut m = object2("role", js(role), "content", body);
    if reasoning.unicode_len() > 0 {
        set_member(&mut m, "reasoning_content", JsonValue::String(reasoning));
    }
    let mut v: Vec<JsonValue> = Vec::new();
    v.push(JsonValue::Object(m));
    assert(values_view(v@) =~= seq![v@[0]@]);
    Ok(v)
}

/// The messages of a whole prompt, in order; the first failure.
pub open spec fn prompt_spec(prompt: Seq<PromptMessage>, mode: SystemMessageMode, provider: Seq<char>) -> Result<Seq<Json>, Seq<char>>
    decreases prompt.len(),
{
    if prompt.len() == 0 {
        Ok(Seq::empty())
    } else {
        match prompt_spec(prompt.drop_last(), mode, provider) {
            Err(e) => Err(e),
            Ok(r) => match message_spec(prompt.last().role, prompt.last().content@, mode, provider) {
                Ok(ms) => Ok(r + ms),
                Err(e) => Err(e),
            },
        }
    }
}

/// A failure in a prefix of the prompt is the failure of the whole.
proof fn lemma_prompt_prefix_err(p: Seq<PromptMessage>, i: int, mode: SystemMessageMode, provider: Seq<char>)
    requires
        0 <= i < p.len(),
        prompt_spec(p.subrange(0, i + 1), mode, provider) is Err,
    ensures
        prompt_spec(p, mode, provider) == prompt_spec(p.subrange(0, i + 1), mode, provider),
    decreases p.len() - i,
{
    if i + 1 < p.len() {
        assert(p.subrange(0, i + 2).drop_last() =~= p.subrange(0, i + 1));
        lemma_prompt_prefix_err(p, i + 1, mode, provider);
    } else {
        assert(p.subrange(0, i + 1) =~= p);
    }
}

/// Converts a prompt into chat messages for a provider (see
/// [`message_spec`]).
pub fn convert_prompt_to_openai_messages_with_provider(
    prompt: &Vec<PromptMessage>,
    system_message_mode: SystemMessageMode,
    provider: &str,
) -> (r: Result<Vec<JsonValue>, AiMuxError>)
    ensures
        match prompt_spec(prompt@, system_message_mode, provider@) {
            Ok(ms) => r matches Ok(v) && values_view(v@) == ms,
            Err(m) => r matches Err(AiMuxError::InvalidArgument(e)) && e@ == m,
        },
{
    let mut out: Vec<JsonValue> = Vec::new();
    let mut i: usize = 0;
    proof {
        assert(prompt@.subrange(0, 0) =~= Seq::<PromptMessage>::empty());
        assert(values_view(out@) =~= Seq::<Json>::empty());
    }
    while i < prompt.len()
        invariant
            0 <= i <= prompt@.len(),
            prompt_spec(prompt@.subrange(0, i as int), system_message_mode, provider@) == Ok::<Seq<Json>, Seq<char>>(
                values_view(out@),
            ),
        decreases prompt@.len() - i,
    {
        proof {
            assert(prompt@.subrange(0, i + 1).drop_last() =~= prompt@.subrange(0, i as int));
        }
        match convert_message_to_openai(&prompt[i], system_message_mode, provider) {
            Ok(ms) => {
                let ghost before = values_view(out@);
                let mut ms = ms;
                let ghost add = values_view(ms@);
                out.append(&mut ms);
                assert(values_view(out@) =~= before + add);
            },
            Err(e) => {
                proof {
                    lemma_prompt_prefix_err(prompt@, i as int, system_message_mode, provider@);
                }
                return Err(e);
            },
        }
        i += 1;
    }
    assert(prompt@.subrange(0, prompt@.len() as int) =~= prompt@);
    Ok(out)
}

/// Converts a prompt into chat messages for OpenAI.
pub fn convert_prompt_to_openai_messages_with_mode_fallible(
    prompt: &Vec<PromptMessage>,
    system_message_mode: SystemMessageMode,
) -> (r: Result<Vec<JsonValue>, AiMuxError>)
    ensures
        match prompt_spec(prompt@, system_message_mode, "openai"@) {
            Ok(ms) => r matches Ok(v) && values_view(v@) == ms,
            Err(m) => r matches Err(AiMuxError::InvalidArgument(e)) && e@ == m,
        },
{
    convert_prompt_to_openai_messages_with_provider(prompt, system_message_mode, "openai")
}

/// Converts a prompt that is known to convert into chat messages for
/// OpenAI.
pub fn convert_prompt_to_openai_messages_with_mode(prompt: &Vec<PromptMessage>, system_message_mode: SystemMessageMode) -> (r: Vec<
    JsonValue,
>)
    requires
        prompt_spec(prompt@, system_message_mode, "openai"@) is Ok,
    ensures
        prompt_spec(prompt@, system_message_mode, "openai"@) == Ok::<Seq<Json>, Seq<char>>(values_view(r@)),
{
    match convert_prompt_to_openai_messages_with_mode_fallible(prompt, system_message_mode) {
        Ok(v) => v,
        Err(_) => Vec::new(),
    }
}

/// Converts a prompt that is known to convert into chat messages for
/// OpenAI, system messages kept as `system`.
pub fn convert_prompt_to_openai_messages(prompt: &Vec<PromptMessage>) -> (r: Vec<JsonValue>)
    requires
        prompt_spec(prompt@, SystemMessageMode::System, "openai"@) is Ok,
    ensures
        prompt_spec(prompt@, SystemMessageMode::System, "openai"@) == Ok::<Seq<Json>, Seq<char>>(values_view(r@)),
{
    convert_prompt_to_openai_messages_with_mode(prompt, SystemMessageMode::System)
}

} // verus!
