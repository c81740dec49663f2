//! The OpenAI image model: generation (`/images/generations`) and editing
//! (`/images/edits`, multipart).

use vstd::prelude::*;

use crate::headers::{names_unique, pairs_to_map, HeaderMap};
use crate::http::opt_headers_ref;
use crate::openai::model::{endpoint_url, openai_auth_headers, openai_request_headers};
use crate::openai::OpenAIConfig;
use crate::json::{json_as_u64, json_get, lemma_members_view, members_view, opt_json_ref_view, Json, JsonValue};
use crate::text::{decimal_digits, is_prefix, str_eq, str_starts_with, u64_to_decimal};
use crate::json::{items_view, opt_json_view};
use crate::json_text::{json_text, to_json_text};
use crate::keyed::KeyedVec;
use crate::media::{data_bytes, image_file_media_type, image_file_to_bytes, ImageFile};
use crate::multipart::{
    boundary_spec, closing_bytes, content_type_chars, content_type_for, file_disposition, file_part_bytes,
    generate_boundary, text_field_bytes, write_closing, write_file_field, write_text_field,
};
use crate::openai::request::{jstr, namespace_option};
use crate::search::push_member;

verus! {

/// Models whose default response format is base64, so that no
/// `response_format` is sent: ids starting with `chatgpt-image-` or
/// `gpt-image-`.
pub open spec fn has_default_response_format_spec(model_id: Seq<char>) -> bool {
    is_prefix("chatgpt-image-"@, model_id) || is_prefix("gpt-image-"@, model_id)
}

/// Images per call: 1 for `dall-e-3`; 10 for `dall-e-2`, `chatgpt-image-latest`
/// and every id starting with `gpt-image-`; 1 otherwise.
pub open spec fn max_images_per_call_spec(model_id: Seq<char>) -> u32 {
    if model_id == "dall-e-3"@ {
        1
    } else if model_id == "dall-e-2"@ || model_id == "chatgpt-image-latest"@ || is_prefix(
        "gpt-image-"@,
        model_id,
    ) {
        10
    } else {
        1
    }
}

/// Whether the model needs no explicit `response_format`.
pub fn has_default_response_format(model_id: &str) -> (b: bool)
    ensures
        b == has_default_response_format_spec(model_id@),
{
    str_starts_with(model_id, "chatgpt-image-") || str_starts_with(model_id, "gpt-image-")
}

/// The maximum number of images per call for a model.
pub fn get_max_images_per_call(model_id: &str) -> (n: u32)
    ensures
        n == max_images_per_call_spec(model_id@),
{
    proof {
        reveal_strlit("dall-e-3");
        reveal_strlit("dall-e-2");
    }
    if str_eq(model_id, "dall-e-3") {
        1
    } else if str_eq(model_id, "dall-e-2") || str_eq(model_id, "chatgpt-image-latest")
        || str_starts_with(model_id, "gpt-image-") {
        10
    } else {
        1
    }
}

/// The share of `tokens` for image `index` of `total`: an even share, the
/// last image also taking the remainder.
pub open spec fn token_share(tokens: nat, index: nat, total: nat) -> nat {
    if index == total - 1 {
        (tokens - (tokens / total) * (total - 1)) as nat
    } else {
        tokens / total
    }
}

/// The shares of the first `k` images.
pub open spec fn shares_sum(tokens: nat, total: nat, k: nat) -> nat
    decreases k,
{
    if k == 0 {
        0
    } else {
        shares_sum(tokens, total, (k - 1) as nat) + token_share(tokens, (k - 1) as nat, total)
    }
}

/// The even shares before the last image add up to `k` times the share.
proof fn lemma_even_shares(tokens: nat, total: nat, k: nat)
    requires
        total > 0,
        k < total,
    ensures
        shares_sum(tokens, total, k) == k * (tokens / total),
    decreases k,
{
    if k > 0 {
        lemma_even_shares(tokens, total, (k - 1) as nat);
        let q = tokens / total;
        assert(token_share(tokens, (k - 1) as nat, total) == q);
        let km = (k - 1) as nat;
        assert(k * q == km * q + q) by (nonlinear_arith)
            requires
                km == k - 1,
        ;
        assert(shares_sum(tokens, total, k) == shares_sum(tokens, total, km) + token_share(tokens, km, total));
    } else {
        assert(k * (tokens / total) == 0) by (nonlinear_arith)
            requires
                k == 0,
        ;
    }
}

/// Distributing token counts over the images of a response loses nothing:
/// the shares of all images add up to the count.
pub proof fn law_token_shares_sum(tokens: nat, total: nat)
    requires
        total > 0,
    ensures
        shares_sum(tokens, total, total) == tokens,
{
    lemma_even_shares(tokens, total, (total - 1) as nat);
    vstd::arithmetic::div_mod::lemma_fundamental_div_mod(tokens as int, total as int);
    assert((tokens / total) * (total - 1) <= tokens) by (nonlinear_arith)
        requires
            total > 0,
            tokens == total * (tokens / total) + tokens % total,
            tokens % total >= 0,
    ;
    assert((total - 1) * (tokens / total) == (tokens / total) * (total - 1)) by (nonlinear_arith);
}

fn share(tokens: u64, index: usize, total: usize) -> (r: u64)
    requires
        total > 0,
    ensures
        r == token_share(tokens as nat, index as nat, total as nat),
{
    let t = total as u64;
    let base = tokens / t;
    proof {
        vstd::arithmetic::div_mod::lemma_fundamental_div_mod(tokens as int, t as int);
        assert(base * (t - 1) <= tokens) by (nonlinear_arith)
            requires
                t > 0,
                tokens == t * base + tokens % t,
                tokens % t >= 0,
        ;
    }
    if index == total - 1 {
        tokens - base * (t - 1)
    } else {
        base
    }
}

/// The image and text token counts of the input-token details of a
/// response.
pub open spec fn detail_counts(details: Json) -> (Option<u64>, Option<u64>) {
    (
        match json_get(details, "image_tokens"@) {
            Some(v) => json_as_u64(v),
            None => None,
        },
        match json_get(details, "text_tokens"@) {
            Some(v) => json_as_u64(v),
            None => None,
        },
    )
}

/// The members of the distributed details: `imageTokens` and `textTokens`
/// with the share of image `index`, each when its count is given.
pub open spec fn distributed_members(details: Json, index: nat, total: nat) -> Seq<(Seq<char>, Json)> {
    let (image, text) = detail_counts(details);
    let a = match image {
        Some(t) => seq![("imageTokens"@, Json::Number(decimal_digits(token_share(t as nat, index, total))))],
        None => Seq::empty(),
    };
    let b = match text {
        Some(t) => seq![("textTokens"@, Json::Number(decimal_digits(token_share(t as nat, index, total))))],
        None => Seq::empty(),
    };
    a + b
}

fn count_of(details: &JsonValue, key: &str) -> (r: Option<u64>)
    ensures
        r == (match json_get(details@, key@) {
            Some(v) => json_as_u64(v),
            None => None::<u64>,
        }),
{
    match details.get(key) {
        Some(v) => v.as_u64(),
        None => None,
    }
}

/// The token details of image `index` of `total`: each count in the
/// details shared evenly, the last image taking the remainder; none when
/// there are no details or no counts.
pub fn distribute_token_details(details: Option<&JsonValue>, index: usize, total: usize) -> (r: Option<JsonValue>)
    requires
        match details {
            Some(d) => (detail_counts(d@).0 is Some || detail_counts(d@).1 is Some) ==> total > 0,
            None => true,
        },
    ensures
        match details {
            None => r is None,
            Some(d) => {
                let ms = distributed_members(d@, index as nat, total as nat);
                if ms.len() == 0 {
                    r is None
                } else {
                    r matches Some(j) && j@ == Json::Object(ms)
                }
            },
        },
{
    let d = match details {
        Some(d) => d,
        None => {
            return None;
        },
    };
    let mut members: Vec<(String, JsonValue)> = Vec::new();
    match count_of(d, "image_tokens") {
        Some(t) => {
            members.push((String::from_str("imageTokens"), JsonValue::Number(u64_to_decimal(share(t, index, total)))));
        },
        None => {},
    }
    match count_of(d, "text_tokens") {
        Some(t) => {
            members.push((String::from_str("textTokens"), JsonValue::Number(u64_to_decimal(share(t, index, total)))));
        },
        None => {},
    }
    proof {
        lemma_members_view(members@);
        assert(members_view(members@) =~= distributed_members(d@, index as nat, total as nat));
    }
    if members.len() == 0 {
        None
    } else {
        Some(JsonValue::Object(members))
    }
}

/// The headers as a list of `(name, value)` pairs, one per name.
pub fn build_header_list(headers: &HeaderMap) -> (v: Vec<(String, String)>)
    ensures
        names_unique(v@),
        pairs_to_map(v@) == headers@,
{
    headers.to_pairs()
}

/// An OpenAI-compatible image generation and editing model.
#[derive(Debug)]
pub struct OpenAIImageModel {
    model_id: String,
    config: OpenAIConfig,
}

impl OpenAIImageModel {
    pub fn new(model_id: String, config: OpenAIConfig) -> (m: Self)
        ensures
            m.model_id_spec() == model_id@,
            m.config_spec() == config,
    {
        OpenAIImageModel { model_id, config }
    }

    /// The model id.
    pub closed spec fn model_id_spec(&self) -> Seq<char> {
        self.model_id@
    }

    /// The configuration.
    pub closed spec fn config_spec(&self) -> OpenAIConfig {
        self.config
    }

    /// The provider name of the configuration.
    pub fn provider(&self) -> (s: &str)
        ensures
            s@ == self.config_spec().provider@,
    {
        self.config.provider.as_str()
    }

    /// The model id.
    pub fn model_id(&self) -> (s: &str)
        ensures
            s@ == self.model_id_spec(),
    {
        self.model_id.as_str()
    }

    /// The maximum number of images per call.
    pub fn max_images_per_call(&self) -> (n: Option<u32>)
        ensures
            n == Some(max_images_per_call_spec(self.model_id_spec())),
    {
        Some(get_max_images_per_call(self.model_id.as_str()))
    }

    /// Request headers: the configuration's, then the per-call ones.
    pub fn build_headers(&self, extra: Option<&HeaderMap>) -> (h: HeaderMap)
        ensures
            h@ == openai_auth_headers(self.config_spec()).union_prefer_right(opt_headers_ref(extra)),
    {
        openai_request_headers(&self.config, extra)
    }

    /// `{base_url}/images/generations`.
    pub fn generations_endpoint(&self) -> (r: String)
        ensures
            r@ == self.config_spec().base_url@ + "/images/generations"@,
    {
        endpoint_url(self.config.base_url.as_str(), "/images/generations")
    }

    /// `{base_url}/images/edits`.
    pub fn edits_endpoint(&self) -> (r: String)
        ensures
            r@ == self.config_spec().base_url@ + "/images/edits"@,
    {
        endpoint_url(self.config.base_url.as_str(), "/images/edits")
    }
}

// ── Generation and edit requests ─────────────────────────────────────────

/// Image options read from the `openai` provider options for generation.
#[derive(Debug)]
pub struct GenerationOptions {
    pub quality: Option<JsonValue>,
    pub style: Option<JsonValue>,
    pub background: Option<JsonValue>,
    pub moderation: Option<JsonValue>,
    pub output_format: Option<JsonValue>,
    pub output_compression: Option<JsonValue>,
    pub user: Option<JsonValue>,
}

/// Image options read from the `openai` provider options for editing.
#[derive(Debug)]
pub struct EditOptions {
    pub quality: Option<JsonValue>,
    pub background: Option<JsonValue>,
    pub output_format: Option<JsonValue>,
    pub output_compression: Option<JsonValue>,
    pub input_fidelity: Option<JsonValue>,
    pub user: Option<JsonValue>,
}

/// `options.openai[key]`.
pub open spec fn openai_opt(po: Map<Seq<char>, JsonValue>, key: Seq<char>) -> Option<Json> {
    namespace_option(Some(po), "openai"@, key)
}

/// Reads the generation options (`quality`, `style`, `background`,
/// `moderation`, `outputFormat`, `outputCompression`, `user`).
pub fn parse_generation_provider_options(provider_options: &KeyedVec<JsonValue>) -> (o: GenerationOptions)
    ensures
        opt_json_view(o.quality) == openai_opt(provider_options@, "quality"@),
        opt_json_view(o.style) == openai_opt(provider_options@, "style"@),
        opt_json_view(o.background) == openai_opt(provider_options@, "background"@),
        opt_json_view(o.moderation) == openai_opt(provider_options@, "moderation"@),
        opt_json_view(o.output_format) == openai_opt(provider_options@, "outputFormat"@),
        opt_json_view(o.output_compression) == openai_opt(provider_options@, "outputCompression"@),
        opt_json_view(o.user) == openai_opt(provider_options@, "user"@),
{
    let po = Some(provider_options);
    GenerationOptions {
        quality: crate::openai::request::openai_option(po, "quality"),
        style: crate::openai::request::openai_option(po, "style"),
        background: crate::openai::request::openai_option(po, "background"),
        moderation: crate::openai::request::openai_option(po, "moderation"),
        output_format: crate::openai::request::openai_option(po, "outputFormat"),
        output_compression: crate::openai::request::openai_option(po, "outputCompression"),
        user: crate::openai::request::openai_option(po, "user"),
    }
}

/// Reads the edit options (`quality`, `background`, `outputFormat`,
/// `outputCompression`, `inputFidelity`, `user`).
pub fn parse_edit_provider_options(provider_options: &KeyedVec<JsonValue>) -> (o: EditOptions)
    ensures
        opt_json_view(o.quality) == openai_opt(provider_options@, "quality"@),
        opt_json_view(o.background) == openai_opt(provider_options@, "background"@),
        opt_json_view(o.output_format) == openai_opt(provider_options@, "outputFormat"@),
        opt_json_view(o.output_compression) == openai_opt(provider_options@, "outputCompression"@),
        opt_json_view(o.input_fidelity) == openai_opt(provider_options@, "inputFidelity"@),
        opt_json_view(o.user) == openai_opt(provider_options@, "user"@),
{
    let po = Some(provider_options);
    EditOptions {
        quality: crate::openai::request::openai_option(po, "quality"),
        background: crate::openai::request::openai_option(po, "background"),
        output_format: crate::openai::request::openai_option(po, "outputFormat"),
        output_compression: crate::openai::request::openai_option(po, "outputCompression"),
        input_fidelity: crate::openai::request::openai_option(po, "inputFidelity"),
        user: crate::openai::request::openai_option(po, "user"),
    }
}

/// A member when the value is given.
pub open spec fn opt_member(k: Seq<char>, v: Option<JsonValue>) -> Seq<(Seq<char>, Json)> {
    match v {
        Some(j) => seq![(k, j@)],
        None => Seq::empty(),
    }
}

/// The generation body: model, prompt, count, size, the given options and,
/// unless the model answers in base64 by default, `response_format:
/// b64_json`.
pub open spec fn generation_body_spec(
    model_id: Seq<char>,
    prompt: Option<Seq<char>>,
    n: u32,
    size: Option<Seq<char>>,
    o: GenerationOptions,
) -> Seq<(Seq<char>, Json)> {
    seq![("model"@, jstr(model_id))] + match prompt {
        Some(p) => seq![("prompt"@, jstr(p))],
        None => Seq::empty(),
    } + seq![("n"@, Json::Number(decimal_digits(n as nat)))] + match size {
        Some(z) => seq![("size"@, jstr(z))],
        None => Seq::empty(),
    } + opt_member("quality"@, o.quality) + opt_member("style"@, o.style) + opt_member(
        "background"@,
        o.background,
    ) + opt_member("moderation"@, o.moderation) + opt_member("output_format"@, o.output_format)
        + opt_member("output_compression"@, o.output_compression) + opt_member("user"@, o.user) + if has_default_response_format_spec(
        model_id,
    ) {
        Seq::empty()
    } else {
        seq![("response_format"@, jstr("b64_json"@))]
    }
}

/// Appends a member when the value is given.
fn push_opt_member(ms: &mut Vec<(String, JsonValue)>, k: &str, v: &Option<JsonValue>)
    ensures
        members_view(final(ms)@) == members_view(old(ms)@) + opt_member(k@, *v),
{
    match v {
        Some(j) => {
            push_member(ms, k, j.deep_copy());
            assert(members_view(ms@) =~= members_view(old(ms)@) + opt_member(k@, *v));
        },
        None => {
            assert(members_view(ms@) =~= members_view(old(ms)@) + opt_member(k@, *v));
        },
    }
}

/// An optional borrowed string by its characters.
pub open spec fn opt_text(o: Option<&str>) -> Option<Seq<char>> {
    match o {
        Some(s) => Some(s@),
        None => None,
    }
}

/// Builds the generation body (see [`generation_body_spec`]); the size is
/// given as its text (`1024x1024`).
pub fn build_generation_body(
    model_id: &str,
    prompt: Option<&str>,
    n: u32,
    size: Option<&str>,
    openai: &GenerationOptions,
) -> (b: Vec<(String, JsonValue)>)
    ensures
        members_view(b@) == generation_body_spec(model_id@, opt_text(prompt), n, opt_text(size), *openai),
{
    let mut b: Vec<(String, JsonValue)> = Vec::new();
    let ghost e = Seq::<(Seq<char>, Json)>::empty();
    assert(members_view(b@) =~= e);
    push_member(&mut b, "model", JsonValue::String(String::from_str(model_id)));
    let ghost m1 = members_view(b@);
    match prompt {
        Some(p) => push_member(&mut b, "prompt", JsonValue::String(String::from_str(p))),
        None => {},
    }
    let ghost m2 = members_view(b@);
    push_member(&mut b, "n", JsonValue::Number(u64_to_decimal(n as u64)));
    let ghost m3 = members_view(b@);
    match size {
        Some(z) => push_member(&mut b, "size", JsonValue::String(String::from_str(z))),
        None => {},
    }
    let ghost m4 = members_view(b@);
    push_opt_member(&mut b, "quality", &openai.quality);
    push_opt_member(&mut b, "style", &openai.style);
    push_opt_member(&mut b, "background", &openai.background);
    push_opt_member(&mut b, "moderation", &openai.moderation);
    push_opt_member(&mut b, "output_format", &openai.output_format);
    push_opt_member(&mut b, "output_compression", &openai.output_compression);
    push_opt_member(&mut b, "user", &openai.user);
    let ghost m5 = members_view(b@);
    if !has_default_response_format(model_id) {
        push_member(&mut b, "response_format", JsonValue::String(String::from_str("b64_json")));
    }
    proof {
        assert(m1 =~= seq![("model"@, jstr(model_id@))]);
        assert(m2 =~= m1 + match opt_text(prompt) {
            Some(p) => seq![("prompt"@, jstr(p))],
            None => Seq::empty(),
        });
        assert(m3 =~= m2 + seq![("n"@, Json::Number(decimal_digits(n as nat)))]);
        assert(m4 =~= m3 + match opt_text(size) {
            Some(z) => seq![("size"@, jstr(z))],
            None => Seq::empty(),
        });
        assert(members_view(b@) =~= m5 + if has_default_response_format_spec(model_id@) {
            Seq::empty()
        } else {
            seq![("response_format"@, jstr("b64_json"@))]
        });
        assert(members_view(b@) =~= generation_body_spec(model_id@, opt_text(prompt), n, opt_text(size), *openai));
    }
    b
}

/// A text field from a string option (other values are skipped).
pub open spec fn str_field(name: Seq<char>, v: Option<JsonValue>) -> Seq<(Seq<char>, Seq<char>)> {
    match v {
        Some(j) => match j@ {
            Json::String(s) => seq![(name, s)],
            _ => Seq::empty(),
        },
        None => Seq::empty(),
    }
}

/// The text fields of an edit: model, prompt, count, size, then the string
/// options and the compression as its JSON text.
pub open spec fn edit_fields(
    model_id: Seq<char>,
    prompt: Option<Seq<char>>,
    n: u32,
    size: Option<Seq<char>>,
    o: EditOptions,
) -> Seq<(Seq<char>, Seq<char>)> {
    seq![("model"@, model_id)] + match prompt {
        Some(p) => seq![("prompt"@, p)],
        None => Seq::empty(),
    } + seq![("n"@, decimal_digits(n as nat))] + match size {
        Some(z) => seq![("size"@, z)],
        None => Seq::empty(),
    } + str_field("quality"@, o.quality) + str_field("background"@, o.background) + str_field(
        "output_format"@,
        o.output_format,
    ) + match o.output_compression {
        Some(j) => seq![("output_compression"@, json_text(j@))],
        None => Seq::empty(),
    } + str_field("input_fidelity"@, o.input_fidelity) + str_field("user"@, o.user)
}

/// The bytes of text fields, in order.
pub open spec fn fields_bytes(boundary: Seq<char>, fs: Seq<(Seq<char>, Seq<char>)>) -> Seq<u8>
    decreases fs.len(),
{
    if fs.len() == 0 {
        Seq::empty()
    } else {
        fields_bytes(boundary, fs.drop_last()) + text_field_bytes(boundary, fs.last().0, fs.last().1)
    }
}

/// The bytes of an image to upload; nothing when it cannot be read.
pub open spec fn upload_bytes(f: ImageFile) -> Seq<u8> {
    match f {
        ImageFile::File { data, .. } => match data_bytes(data) {
            Ok(b) => b,
            Err(_) => Seq::empty(),
        },
        ImageFile::Url { .. } => Seq::empty(),
    }
}

/// The media type an image is uploaded with.
pub open spec fn upload_media_type(f: ImageFile) -> Seq<char> {
    match f {
        ImageFile::File { media_type, .. } => media_type@,
        ImageFile::Url { .. } => "application/octet-stream"@,
    }
}

/// The file part of an image under a field name.
pub open spec fn image_part(boundary: Seq<char>, name: Seq<char>, filename: Seq<char>, f: ImageFile) -> Seq<u8> {
    file_part_bytes(boundary, file_disposition(name, filename), upload_media_type(f), upload_bytes(f))
}

/// The parts of several images, each under `image[]`.
pub open spec fn image_parts(boundary: Seq<char>, fs: Seq<ImageFile>) -> Seq<u8>
    decreases fs.len(),
{
    if fs.len() == 0 {
        Seq::empty()
    } else {
        image_parts(boundary, fs.drop_last()) + image_part(boundary, "image[]"@, "image"@, fs.last())
    }
}

/// The edit form: the text fields, the image (one under `image`, several
/// under `image[]`), the optional mask, then the closing delimiter.
pub open spec fn edit_form_bytes(
    boundary: Seq<char>,
    fields: Seq<(Seq<char>, Seq<char>)>,
    files: Seq<ImageFile>,
    mask: Option<ImageFile>,
) -> Seq<u8> {
    fields_bytes(boundary, fields) + (if files.len() == 1 {
        image_part(boundary, "image"@, "image"@, files[0])
    } else {
        image_parts(boundary, files)
    }) + match mask {
        Some(m) => image_part(boundary, "mask"@, "mask"@, m),
        None => Seq::empty(),
    } + closing_bytes(boundary)
}

/// Appends a text field and records it.
fn add_field(body: &mut Vec<u8>, boundary: &str, name: &str, value: &str, Ghost(fs): Ghost<Seq<(Seq<char>, Seq<char>)>>) -> (r: Ghost<Seq<(Seq<char>, Seq<char>)>>)
    requires
        old(body)@ == fields_bytes(boundary@, fs),
    ensures
        r@ == fs.push((name@, value@)),
        final(body)@ == fields_bytes(boundary@, r@),
{
    write_text_field(body, boundary, name, value);
    proof {
        assert(fs.push((name@, value@)).drop_last() =~= fs);
    }
    Ghost(fs.push((name@, value@)))
}

/// Appends a text field for a string option.
fn add_str_field(
    body: &mut Vec<u8>,
    boundary: &str,
    name: &str,
    v: &Option<JsonValue>,
    Ghost(fs): Ghost<Seq<(Seq<char>, Seq<char>)>>,
) -> (r: Ghost<Seq<(Seq<char>, Seq<char>)>>)
    requires
        old(body)@ == fields_bytes(boundary@, fs),
    ensures
        r@ == fs + str_field(name@, *v),
        final(body)@ == fields_bytes(boundary@, r@),
{
    match v {
        Some(JsonValue::String(s)) => {
            let r = add_field(body, boundary, name, s.as_str(), Ghost(fs));
            assert(r@ =~= fs + str_field(name@, *v));
            r
        },
        _ => {
            assert(fs =~= fs + str_field(name@, *v));
            Ghost(fs)
        },
    }
}

/// The bytes of an image to upload; nothing when it cannot be read.
fn upload_bytes_of(f: &ImageFile) -> (r: Vec<u8>)
    ensures
        r@ == upload_bytes(*f),
{
    match image_file_to_bytes(f) {
        Ok(b) => b,
        Err(_) => Vec::new(),
    }
}

/// Builds the edit form with the given boundary; returns the body and its
/// content type.
pub fn build_edit_multipart_with_boundary(
    boundary: &str,
    model_id: &str,
    prompt: Option<&str>,
    n: u32,
    size: Option<&str>,
    openai: &EditOptions,
    files: &Vec<ImageFile>,
    mask: Option<&ImageFile>,
) -> (r: (Vec<u8>, String))
    ensures
        r.0@ == edit_form_bytes(
            boundary@,
            edit_fields(model_id@, opt_text(prompt), n, opt_text(size), *openai),
            files@,
            match mask {
                Some(m) => Some(*m),
                None => None,
            },
        ),
        r.1@ == content_type_chars(boundary@),
{
    let mut body: Vec<u8> = Vec::new();
    let ghost e = Seq::<(Seq<char>, Seq<char>)>::empty();
    let Ghost(fs) = add_field(&mut body, boundary, "model", model_id, Ghost(e));
    let ghost f1 = fs;
    let Ghost(fs) = match prompt {
        Some(p) => add_field(&mut body, boundary, "prompt", p, Ghost(fs)),
        None => Ghost(fs),
    };
    let ghost f2 = fs;
    let nt = u64_to_decimal(n as u64);
    let Ghost(fs) = add_field(&mut body, boundary, "n", nt.as_str(), Ghost(fs));
    let ghost f3 = fs;
    let Ghost(fs) = match size {
        Some(z) => add_field(&mut body, boundary, "size", z, Ghost(fs)),
        None => Ghost(fs),
    };
    let ghost f4 = fs;
    let Ghost(fs) = add_str_field(&mut body, boundary, "quality", &openai.quality, Ghost(fs));
    let Ghost(fs) = add_str_field(&mut body, boundary, "background", &openai.background, Ghost(fs));
    let Ghost(fs) = add_str_field(&mut body, boundary, "output_format", &openai.output_format, Ghost(fs));
    let ghost f5 = fs;
    let Ghost(fs) = match &openai.output_compression {
        Some(j) => {
            let t = to_json_text(j);
            add_field(&mut body, boundary, "output_compression", t.as_str(), Ghost(fs))
        },
        None => Ghost(fs),
    };
    let ghost f6 = fs;
    let Ghost(fs) = add_str_field(&mut body, boundary, "input_fidelity", &openai.input_fidelity, Ghost(fs));
    let Ghost(fs) = add_str_field(&mut body, boundary, "user", &openai.user, Ghost(fs));
    proof {
        let want = edit_fields(model_id@, opt_text(prompt), n, opt_text(size), *openai);
        assert(f1 =~= seq![("model"@, model_id@)]);
        assert(f2 =~= f1 + match opt_text(prompt) {
            Some(p) => seq![("prompt"@, p)],
            None => Seq::empty(),
        });
        assert(f3 =~= f2 + seq![("n"@, decimal_digits(n as nat))]);
        assert(f4 =~= f3 + match opt_text(size) {
            Some(z) => seq![("size"@, z)],
            None => Seq::empty(),
        });
        assert(f6 =~= f5 + match openai.output_compression {
            Some(j) => seq![("output_compression"@, json_text(j@))],
            None => Seq::empty(),
        });
        assert(fs =~= want);
    }
    let ghost after_fields = body@;
    if files.len() == 1 {
        let f = &files[0];
        let bytes = upload_bytes_of(f);
        write_file_field(&mut body, boundary, "image", "image", image_file_media_type(f), bytes.as_slice());
    } else {
        let mut i: usize = 0;
        while i < files.len()
            invariant
                0 <= i <= files@.len(),
                files@.len() != 1,
                body@ == after_fields + image_parts(boundary@, files@.subrange(0, i as int)),
            decreases files@.len() - i,
        {
            let f = &files[i];
            let bytes = upload_bytes_of(f);
            write_file_field(&mut body, boundary, "image[]", "image", image_file_media_type(f), bytes.as_slice());
            proof {
                assert(files@.subrange(0, i + 1).drop_last() =~= files@.subrange(0, i as int));
            }
            i += 1;
        }
        assert(files@.subrange(0, files@.len() as int) =~= files@);
    }
    let ghost after_files = body@;
    match mask {
        Some(m) => {
            let bytes = upload_bytes_of(m);
            write_file_field(&mut body, boundary, "mask", "mask", image_file_media_type(m), bytes.as_slice());
        },
        None => {},
    }
    let ghost after_mask = body@;
    write_closing(&mut body, boundary);
    proof {
        assert(after_mask =~= after_files + match mask {
            Some(m) => image_part(boundary@, "mask"@, "mask"@, *m),
            None => Seq::empty(),
        });
    }
    (body, content_type_for(boundary))
}

/// Builds the edit form with a fresh boundary; returns the body and its
/// content type.
pub fn build_edit_multipart(
    model_id: &str,
    prompt: Option<&str>,
    n: u32,
    size: Option<&str>,
    openai: &EditOptions,
    files: &Vec<ImageFile>,
    mask: Option<&ImageFile>,
) -> (r: (Vec<u8>, String))
    ensures
        exists|k: nat|
            r.0@ == edit_form_bytes(
                #[trigger] boundary_spec(k),
                edit_fields(model_id@, opt_text(prompt), n, opt_text(size), *openai),
                files@,
                match mask {
                    Some(m) => Some(*m),
                    None => None,
                },
            ) && r.1@ == content_type_chars(boundary_spec(k)),
{
    let boundary = generate_boundary();
    build_edit_multipart_with_boundary(boundary.as_str(), model_id, prompt, n, size, openai, files, mask)
}

// ── Reading a response ───────────────────────────────────────────────────

/// The string member `key` of a value.
pub open spec fn str_member(j: Json, key: Seq<char>) -> Option<Seq<char>> {
    match json_get(j, key) {
        Some(Json::String(s)) => Some(s),
        _ => None,
    }
}

/// The base64 images of the items of `data`, skipping items without one.
pub open spec fn b64_images(items: Seq<Json>) -> Seq<Seq<char>>
    decreases items.len(),
{
    if items.len() == 0 {
        Seq::empty()
    } else {
        let r = b64_images(items.drop_last());
        match str_member(items.last(), "b64_json"@) {
            Some(s) => r.push(s),
            None => r,
        }
    }
}

/// The items of a response's `data` array (none when it is not an array).
pub open spec fn data_items(response: Json) -> Seq<Json> {
    match json_get(response, "data"@) {
        Some(Json::Array(items)) => items,
        _ => Seq::empty(),
    }
}

/// The views of a list of strings.
pub open spec fn texts_view(v: Seq<String>) -> Seq<Seq<char>> {
    Seq::new(v.len(), |i: int| v[i]@)
}

/// The string member `key` of a value, copied.
fn str_member_of(j: &JsonValue, key: &str) -> (r: Option<String>)
    ensures
        match r {
            Some(s) => str_member(j@, key@) == Some(s@),
            None => str_member(j@, key@) is None,
        },
{
    match j.get(key) {
        Some(JsonValue::String(s)) => Some(s.clone()),
        _ => None,
    }
}

/// The base64 images of a response (items of `data` with a `b64_json`
/// string).
pub fn extract_images(response: &JsonValue) -> (r: Vec<String>)
    ensures
        texts_view(r@) == b64_images(data_items(response@)),
{
    let mut out: Vec<String> = Vec::new();
    match response.get("data") {
        Some(JsonValue::Array(items)) => {
            proof {
                crate::json::lemma_items_view(items@);
            }
            let mut i: usize = 0;
            assert(texts_view(out@) =~= b64_images(items_view(items@).subrange(0, 0)));
            while i < items.len()
                invariant
                    0 <= i <= items@.len(),
                    items_view(items@).len() == items@.len(),
                    forall|j: int| 0 <= j < items@.len() ==> #[trigger] items_view(items@)[j] == items@[j]@,
                    texts_view(out@) == b64_images(items_view(items@).subrange(0, i as int)),
                decreases items@.len() - i,
            {
                let ghost before = out@;
                proof {
                    let sub = items_view(items@).subrange(0, i + 1);
                    assert(sub.drop_last() =~= items_view(items@).subrange(0, i as int));
                    assert(sub.last() == items@[i as int]@);
                }
                match str_member_of(&items[i], "b64_json") {
                    Some(s) => {
                        out.push(s);
                        assert(texts_view(out@) =~= texts_view(before).push(out@.last()@));
                    },
                    None => {},
                }
                i += 1;
            }
            assert(items_view(items@).subrange(0, items@.len() as int) =~= items_view(items@));
        },
        _ => {
            assert(texts_view(out@) =~= Seq::<Seq<char>>::empty());
        },
    }
    out
}

/// Token usage of an image response.
#[derive(Debug)]
pub struct ImageUsage {
    pub input_tokens: Option<u32>,
    pub output_tokens: Option<u32>,
    pub total_tokens: Option<u32>,
}

/// A count member read as an unsigned integer and truncated to 32 bits.
pub open spec fn count32(j: Json, key: Seq<char>) -> Option<u32> {
    match json_get(j, key) {
        Some(v) => match json_as_u64(v) {
            Some(n) => Some((n % 0x1_0000_0000) as u32),
            None => None,
        },
        None => None,
    }
}

/// The count member `key`, truncated to 32 bits.
fn count32_of(j: &JsonValue, key: &str) -> (r: Option<u32>)
    ensures
        r == count32(j@, key@),
{
    match count_of(j, key) {
        Some(n) => Some((n % 0x1_0000_0000) as u32),
        None => None,
    }
}

/// The usage of an image response: none without a `usage` member, else
/// its input, output and total token counts.
pub fn extract_usage(response: &JsonValue) -> (r: Option<ImageUsage>)
    ensures
        match json_get(response@, "usage"@) {
            None => r is None,
            Some(u) => r matches Some(x) && x.input_tokens == count32(u, "input_tokens"@) && x.output_tokens
                == count32(u, "output_tokens"@) && x.total_tokens == count32(u, "total_tokens"@),
        },
{
    match response.get("usage") {
        None => None,
        Some(u) => Some(
            ImageUsage {
                input_tokens: count32_of(u, "input_tokens"),
                output_tokens: count32_of(u, "output_tokens"),
                total_tokens: count32_of(u, "total_tokens"),
            },
        ),
    }
}

/// A string member when given.
pub open spec fn opt_str_member(k: Seq<char>, v: Option<Seq<char>>) -> Seq<(Seq<char>, Json)> {
    match v {
        Some(s) => seq![(k, jstr(s))],
        None => Seq::empty(),
    }
}

/// The input-token details of a response's usage.
pub open spec fn input_details(response: Json) -> Option<Json> {
    match json_get(response, "usage"@) {
        Some(u) => json_get(u, "input_tokens_details"@),
        None => None,
    }
}

/// The metadata entry of image `index` of `total`: the revised prompt of
/// the item, the response's creation time, size, quality, background and
/// output format, then the image's share of the input-token details.
pub open spec fn image_entry(response: Json, item: Json, index: nat, total: nat) -> Seq<(Seq<char>, Json)> {
    entry_head(response, item) + match input_details(response) {
        Some(d) => distributed_members(d, index, total),
        None => Seq::empty(),
    }
}

/// The metadata entries of all images.
pub open spec fn image_entries(response: Json) -> Seq<Json> {
    let items = data_items(response);
    Seq::new(items.len(), |i: int| Json::Object(image_entry(response, items[i], i as nat, items.len())))
}

/// Appends a string member when given.
fn push_opt_str(ms: &mut Vec<(String, JsonValue)>, k: &str, v: Option<String>)
    ensures
        members_view(final(ms)@) == members_view(old(ms)@) + opt_str_member(
            k@,
            match v {
                Some(s) => Some(s@),
                None => None,
            },
        ),
{
    let ghost o = members_view(ms@);
    match v {
        Some(s) => push_member(ms, k, JsonValue::String(s)),
        None => {},
    }
    assert(members_view(ms@) =~= o + opt_str_member(
        k@,
        match v {
            Some(s) => Some(s@),
            None => None,
        },
    ));
}

/// The members of an entry before the token details.
pub open spec fn entry_head(response: Json, item: Json) -> Seq<(Seq<char>, Json)> {
    let created = match json_get(response, "created"@) {
        Some(v) => json_as_u64(v),
        None => None,
    };
    opt_str_member("revisedPrompt"@, str_member(item, "revised_prompt"@)) + match created {
        Some(c) => seq![("created"@, Json::Number(decimal_digits(c as nat)))],
        None => Seq::empty(),
    } + opt_str_member("size"@, str_member(response, "size"@)) + opt_str_member(
        "quality"@,
        str_member(response, "quality"@),
    ) + opt_str_member("background"@, str_member(response, "background"@)) + opt_str_member(
        "outputFormat"@,
        str_member(response, "output_format"@),
    )
}

/// The members of an entry before the token details.
fn entry_head_of(response: &JsonValue, item: &JsonValue) -> (ms: Vec<(String, JsonValue)>)
    ensures
        members_view(ms@) == entry_head(response@, item@),
{
    let mut ms: Vec<(String, JsonValue)> = Vec::new();
    assert(members_view(ms@) =~= Seq::<(Seq<char>, Json)>::empty());
    push_opt_str(&mut ms, "revisedPrompt", str_member_of(item, "revised_prompt"));
    let ghost m1 = members_view(ms@);
    match count_of(response, "created") {
        Some(c) => push_member(&mut ms, "created", JsonValue::Number(u64_to_decimal(c))),
        None => {},
    }
    let ghost m2 = members_view(ms@);
    push_opt_str(&mut ms, "size", str_member_of(response, "size"));
    let ghost m3 = members_view(ms@);
    push_opt_str(&mut ms, "quality", str_member_of(response, "quality"));
    let ghost m4 = members_view(ms@);
    push_opt_str(&mut ms, "background", str_member_of(response, "background"));
    let ghost m5 = members_view(ms@);
    push_opt_str(&mut ms, "outputFormat", str_member_of(response, "output_format"));
    proof {
        let created = match json_get(response@, "created"@) {
            Some(v) => json_as_u64(v),
            None => None,
        };
        assert(m1 =~= opt_str_member("revisedPrompt"@, str_member(item@, "revised_prompt"@)));
        assert(m2 =~= m1 + match created {
            Some(c) => seq![("created"@, Json::Number(decimal_digits(c as nat)))],
            None => Seq::empty(),
        });
        assert(members_view(ms@) =~= entry_head(response@, item@));
    }
    ms
}

/// The metadata entry of one image (see [`image_entry`]).
fn image_entry_of(response: &JsonValue, item: &JsonValue, index: usize, total: usize) -> (e: JsonValue)
    requires
        index < total,
    ensures
        e@ == Json::Object(image_entry(response@, item@, index as nat, total as nat)),
{
    let mut ms = entry_head_of(response, item);
    let ghost m3 = members_view(ms@);
    let details = match response.get("usage") {
        Some(u) => u.get("input_tokens_details"),
        None => None,
    };
    match distribute_token_details(details, index, total) {
        Some(JsonValue::Object(td)) => {
            let mut k: usize = 0;
            let ghost tdv = members_view(td@);
            proof {
                lemma_members_view(td@);
            }
            while k < td.len()
                invariant
                    0 <= k <= td@.len(),
                    tdv == members_view(td@),
                    tdv.len() == td@.len(),
                    forall|j: int| 0 <= j < td@.len() ==> #[trigger] tdv[j] == (td@[j].0@, td@[j].1@),
                    members_view(ms@) == m3 + tdv.subrange(0, k as int),
                decreases td@.len() - k,
            {
                push_member(&mut ms, td[k].0.as_str(), td[k].1.deep_copy());
                assert(tdv.subrange(0, k + 1) =~= tdv.subrange(0, k as int).push(tdv[k as int]));
                k += 1;
            }
            assert(tdv.subrange(0, td@.len() as int) =~= tdv);
        },
        _ => {
            assert(m3 + Seq::<(Seq<char>, Json)>::empty() =~= m3);
        },
    }
    proof {
        assert(image_entry(response@, item@, index as nat, total as nat) =~= entry_head(response@, item@) + match input_details(
            response@,
        ) {
            Some(d) => distributed_members(d, index as nat, total as nat),
            None => Seq::empty(),
        });
    }
    JsonValue::Object(ms)
}

/// The provider metadata of an image response: under `openai`, the
/// `images` array of per-image entries (see [`image_entry`]).
pub fn extract_provider_metadata(response: &JsonValue) -> (m: KeyedVec<JsonValue>)
    ensures
        m@.dom() =~= set!["openai"@],
        m@["openai"@]@ == Json::Object(seq![("images"@, Json::Array(image_entries(response@)))]),
{
    let mut entries: Vec<JsonValue> = Vec::new();
    match response.get("data") {
        Some(JsonValue::Array(items)) => {
            let total = items.len();
            proof {
                crate::json::lemma_items_view(items@);
                assert(data_items(response@) == items_view(items@));
            }
            let mut i: usize = 0;
            while i < total
                invariant
                    0 <= i <= total,
                    total == items@.len(),
                    data_items(response@) == items_view(items@),
                    items_view(items@).len() == items@.len(),
                    forall|j: int| 0 <= j < items@.len() ==> #[trigger] items_view(items@)[j] == items@[j]@,
                    entries@.len() == i,
                    forall|j: int| 0 <= j < i ==> #[trigger] entries@[j]@ == image_entries(response@)[j],
                decreases total - i,
            {
                entries.push(image_entry_of(response, &items[i], i, total));
                i += 1;
            }
            proof {
                crate::json::lemma_items_view(entries@);
                assert forall|j: int| 0 <= j < entries@.len() implies #[trigger] items_view(entries@)[j]
                    == image_entries(response@)[j] by {
                    assert(entries@[j]@ == image_entries(response@)[j]);
                }
                assert(items_view(entries@) =~= image_entries(response@));
            }
        },
        _ => {
            proof {
                assert(data_items(response@).len() == 0);
                assert(items_view(entries@) =~= image_entries(response@));
            }
        },
    }
    let mut meta: Vec<(String, JsonValue)> = Vec::new();
    assert(members_view(meta@) =~= Seq::<(Seq<char>, Json)>::empty());
    push_member(&mut meta, "images", JsonValue::Array(entries));
    assert(members_view(meta@) =~= seq![("images"@, Json::Array(image_entries(response@)))]);
    let mut m: KeyedVec<JsonValue> = KeyedVec::new();
    m.insert(String::from_str("openai"), JsonValue::Object(meta));
    m
}

} // verus!
