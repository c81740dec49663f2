//! Replicate image and video provider.

use vstd::prelude::*;

use crate::env::{load_api_key, missing_key_message, Environment};
use crate::error::AiMuxError;
use crate::headers::HeaderMap;
use crate::http::{bearer, bearer_value, layer_headers, opt_headers, opt_headers_ref, single_header};
use crate::openai::copy_opt_headers;
use crate::json::{items_view, json_get, json_view, members_view, opt_json_ref_view, Json, JsonValue};
use crate::media::{data_base64, data_uri, file_to_data_uri, ImageFile};
use crate::openai::image::opt_text;
use crate::openai::request::{set_member, set_member_spec, warnings_view, Warning, WarningV};
use crate::search::push_member;
use crate::text::{
    chars_of, concat, concat3, decimal_digits, is_prefix, slice_chars, str_eq, str_starts_with, string_from_chars,
    u64_to_decimal, without_trailing_slash, without_trailing_slash_spec,
};

verus! {

/// Replicate's FLUX.2 models, which take up to 8 input images.
pub open spec fn is_flux2_spec(model_id: Seq<char>) -> bool {
    is_prefix("black-forest-labs/flux-2-"@, model_id)
}

/// The model path of a model id: the part before the first `:` (which
/// starts the version), or the whole id.
pub open spec fn model_path_spec(model_id: Seq<char>) -> Seq<char> {
    crate::media::before_first(model_id, ':')
}

/// Configuration of the Replicate provider.
#[derive(Debug)]
pub struct ReplicateConfig {
    pub api_key: String,
    pub base_url: String,
    /// Extra headers sent with every request.
    pub headers: Option<HeaderMap>,
}

impl ReplicateConfig {
    /// A configuration with the default base URL.
    pub fn new(api_key: String) -> (c: Self)
        ensures
            c.api_key == api_key,
            c.base_url@ == "https://api.replicate.com/v1"@,
            c.headers is None,
    {
        ReplicateConfig {
            api_key,
            base_url: String::from_str("https://api.replicate.com/v1"),
            headers: None,
        }
    }

    /// Uses a custom base URL (one trailing `/` removed).
    pub fn with_base_url(self, url: &str) -> (c: Self)
        ensures
            c.base_url@ == without_trailing_slash_spec(url@),
            c == (ReplicateConfig { base_url: c.base_url, ..self }),
    {
        ReplicateConfig { base_url: without_trailing_slash(url), ..self }
    }

    /// Sets extra headers sent with every request.
    pub fn with_headers(self, headers: HeaderMap) -> (c: Self)
        ensures
            c == (ReplicateConfig { headers: Some(headers), ..self }),
    {
        ReplicateConfig { headers: Some(headers), ..self }
    }

    /// A configuration with the key from `REPLICATE_API_TOKEN`.
    pub fn from_env(env: &Environment) -> (r: Result<Self, AiMuxError>)
        ensures
            match r {
                Ok(c) => env@.dom().contains("REPLICATE_API_TOKEN"@) && {
                    &&& c.api_key@ == env@["REPLICATE_API_TOKEN"@]
                    &&& c.base_url@ == "https://api.replicate.com/v1"@
                    &&& c.headers is None
                },
                Err(e) => !env@.dom().contains("REPLICATE_API_TOKEN"@) && (e matches AiMuxError::InvalidArgument(m)
                    && m@ == missing_key_message("REPLICATE_API_TOKEN"@, "Replicate"@)),
            },
    {
        match load_api_key(None, "REPLICATE_API_TOKEN", "Replicate", env) {
            Ok(k) => Ok(Self::new(k)),
            Err(e) => Err(e),
        }
    }
}

/// Two configurations that agree field by field (header maps by value).
pub open spec fn config_copy(a: ReplicateConfig, b: ReplicateConfig) -> bool {
    a.api_key == b.api_key
        && a.base_url == b.base_url
        && opt_headers(a.headers) == opt_headers(b.headers)
        && (a.headers is Some <==> b.headers is Some)
}

impl ReplicateConfig {
    /// A copy of the configuration.
    pub fn copy(&self) -> (c: Self)
        ensures
            config_copy(c, *self),
    {
        ReplicateConfig {
            api_key: self.api_key.clone(),
            base_url: self.base_url.clone(),
            headers: copy_opt_headers(&self.headers),
        }
    }
}

/// The provider: creates models that share one configuration.
#[derive(Debug)]
pub struct ReplicateProvider {
    config: ReplicateConfig,
}

impl ReplicateProvider {
    pub fn new(config: ReplicateConfig) -> (p: Self)
        ensures
            p.config() == config,
    {
        ReplicateProvider { config }
    }

    /// The configuration.
    pub closed spec fn config(&self) -> ReplicateConfig {
        self.config
    }

    /// The provider name.
    pub fn name(&self) -> (s: &str)
        ensures
            s@ == "replicate"@,
    {
        "replicate"
    }

    /// An image generation model.
    pub fn image(&self, model_id: &str) -> (m: ReplicateImageModel)
        ensures
            m.model_id_spec() == model_id@,
            config_copy(m.config_spec(), self.config()),
    {
        ReplicateImageModel::new(String::from_str(model_id), self.config.copy())
    }

    /// A video generation model.
    pub fn video(&self, model_id: &str) -> (m: ReplicateVideoModel)
        ensures
            m.model_id_spec() == model_id@,
            config_copy(m.config_spec(), self.config()),
    {
        ReplicateVideoModel::new(String::from_str(model_id), self.config.copy())
    }
}

/// A Replicate image generation model.
#[derive(Debug)]
pub struct ReplicateImageModel {
    model_id: String,
    config: ReplicateConfig,
}

impl ReplicateImageModel {
    pub fn new(model_id: String, config: ReplicateConfig) -> (m: Self)
        ensures
            m.model_id_spec() == model_id@,
            m.config_spec() == config,
    {
        ReplicateImageModel { model_id, config }
    }

    /// The model id.
    pub closed spec fn model_id_spec(&self) -> Seq<char> {
        self.model_id@
    }

    /// The configuration.
    pub closed spec fn config_spec(&self) -> ReplicateConfig {
        self.config
    }

    /// The provider name.
    pub fn provider(&self) -> (s: &str)
        ensures
            s@ == "replicate"@,
    {
        "replicate"
    }

    /// The model id.
    pub fn model_id(&self) -> (s: &str)
        ensures
            s@ == self.model_id_spec(),
    {
        self.model_id.as_str()
    }

    /// Request headers: `Authorization: Bearer <key>`, the configured headers, then the per-call ones.
    pub fn build_headers(&self, extra: Option<&HeaderMap>) -> (h: HeaderMap)
        ensures
            h@ == Map::<Seq<char>, Seq<char>>::empty().insert("Authorization"@, "Bearer "@ + self.config_spec().api_key@).union_prefer_right(opt_headers(self.config_spec().headers)).union_prefer_right(opt_headers_ref(extra)),
    {
        let base = single_header("Authorization", concat("Bearer ", self.config.api_key.as_str()));
        layer_headers(base, &self.config.headers, extra)
    }

    /// Whether the model is a FLUX.2 model.
    pub fn is_flux2(&self) -> (b: bool)
        ensures
            b == is_flux2_spec(self.model_id_spec()),
    {
        str_starts_with(self.model_id.as_str(), "black-forest-labs/flux-2-")
    }

    /// 8 images per call for FLUX.2 models, 1 otherwise.
    pub fn max_images_per_call(&self) -> (n: Option<u32>)
        ensures
            n == Some(if is_flux2_spec(self.model_id_spec()) { 8u32 } else { 1u32 }),
    {
        if self.is_flux2() {
            Some(8)
        } else {
            Some(1)
        }
    }

    /// `{base_url}/models/{model path}/predictions`; a `:version` suffix of
    /// the id is left out.
    pub fn endpoint(&self) -> (r: String)
        ensures
            r@ == self.config_spec().base_url@ + "/models/"@ + model_path_spec(self.model_id_spec())
                + "/predictions"@,
    {
        let path = crate::media::split_before(self.model_id.as_str(), ':');
        let a = concat3(self.config.base_url.as_str(), "/models/", path.as_str());
        concat(a.as_str(), "/predictions")
    }
}

/// A Replicate video generation model.
#[derive(Debug)]
pub struct ReplicateVideoModel {
    model_id: String,
    config: ReplicateConfig,
}

impl ReplicateVideoModel {
    pub fn new(model_id: String, config: ReplicateConfig) -> (m: Self)
        ensures
            m.model_id_spec() == model_id@,
            m.config_spec() == config,
    {
        ReplicateVideoModel { model_id, config }
    }

    /// The model id.
    pub closed spec fn model_id_spec(&self) -> Seq<char> {
        self.model_id@
    }

    /// The configuration.
    pub closed spec fn config_spec(&self) -> ReplicateConfig {
        self.config
    }

    /// The provider name.
    pub fn provider(&self) -> (s: &str)
        ensures
            s@ == "replicate"@,
    {
        "replicate"
    }

    /// The model id.
    pub fn model_id(&self) -> (s: &str)
        ensures
            s@ == self.model_id_spec(),
    {
        self.model_id.as_str()
    }

    /// At most 1 per call.
    pub fn max_videos_per_call(&self) -> (n: Option<u32>)
        ensures
            n == Some(1u32),
    {
        Some(1)
    }

    /// Request headers: `Authorization: Token <key>`, the configured headers, then the per-call ones.
    pub fn build_headers(&self, extra: Option<&HeaderMap>) -> (h: HeaderMap)
        ensures
            h@ == Map::<Seq<char>, Seq<char>>::empty().insert("Authorization"@, "Token "@ + self.config_spec().api_key@).union_prefer_right(opt_headers(self.config_spec().headers)).union_prefer_right(opt_headers_ref(extra)),
    {
        let base = single_header("Authorization", concat("Token ", self.config.api_key.as_str()));
        layer_headers(base, &self.config.headers, extra)
    }

    /// `{base_url}/predictions`.
    pub fn predictions_url(&self) -> (r: String)
        ensures
            r@ == self.config_spec().base_url@ + "/predictions"@,
    {
        concat(self.config.base_url.as_str(), "/predictions")
    }

    /// `{base_url}/predictions/{id}`.
    pub fn prediction_url(&self, prediction_id: &str) -> (r: String)
        ensures
            r@ == self.config_spec().base_url@ + "/predictions/"@ + prediction_id@,
    {
        concat3(self.config.base_url.as_str(), "/predictions/", prediction_id)
    }
}

// ── Image requests ───────────────────────────────────────────────────────

/// The part of `s` after the first `c` (empty when there is none).
pub open spec fn after_first(s: Seq<char>, c: char) -> Seq<char>
    decreases s.len(),
{
    if s.len() == 0 {
        Seq::empty()
    } else if s[0] == c {
        s.skip(1)
    } else {
        after_first(s.skip(1), c)
    }
}

/// The part of `s` after the first `c` (see [`after_first`]).
pub fn split_after(s: &str, c: char) -> (r: String)
    ensures
        r@ == after_first(s@, c),
{
    let v = chars_of(s);
    let mut i: usize = 0;
    assert(v@.skip(0) =~= v@);
    while i < v.len()
        invariant
            0 <= i <= v@.len(),
            v@ == s@,
            after_first(s@, c) == after_first(v@.skip(i as int), c),
        decreases v@.len() - i,
    {
        if v[i] == c {
            let rest = slice_chars(&v, i + 1, v.len());
            assert(v@.skip(i as int).skip(1) =~= v@.subrange(i + 1, v@.len() as int));
            return string_from_chars(&rest);
        }
        assert(v@.skip(i as int).skip(1) =~= v@.skip(i + 1));
        i += 1;
    }
    assert(v@.skip(i as int).len() == 0);
    String::new()
}

/// The URL an image is sent by: its own URL, or a base64 data URI.
pub open spec fn file_uri(f: ImageFile) -> Seq<char> {
    match f {
        ImageFile::Url { url } => url@,
        ImageFile::File { media_type, data } => data_uri(media_type@, data_base64(data)),
    }
}

/// The URL an image is sent by (see [`file_uri`]).
fn image_uri(f: &ImageFile) -> (r: String)
    ensures
        r@ == file_uri(*f),
{
    match file_to_data_uri(f) {
        Ok(u) => u,
        Err(_) => String::new(),
    }
}

/// The input key of the `i`-th image of a FLUX.2 request: `input_image`,
/// then `input_image_2`, `input_image_3`, ...
pub open spec fn input_image_key(i: nat) -> Seq<char> {
    if i == 0 {
        "input_image"@
    } else {
        "input_image_"@ + decimal_digits(i + 1)
    }
}

/// The first `k` images of a FLUX.2 request, by their keys.
pub open spec fn flux_inputs(files: Seq<ImageFile>, k: nat) -> Seq<(Seq<char>, Json)>
    decreases k,
{
    if k == 0 {
        Seq::empty()
    } else {
        flux_inputs(files, (k - 1) as nat).push(
            (input_image_key((k - 1) as nat), Json::String(file_uri(files[k - 1]))),
        )
    }
}

/// The image inputs: up to 8 under `input_image*` for FLUX.2, else the
/// first image under `image`.
pub open spec fn image_inputs_spec(flux2: bool, files: Seq<ImageFile>) -> Seq<(Seq<char>, Json)> {
    if files.len() == 0 {
        Seq::empty()
    } else if flux2 {
        flux_inputs(files, if files.len() < 8 { files.len() } else { 8 })
    } else {
        seq![("image"@, Json::String(file_uri(files[0])))]
    }
}

/// The images of a call (none when it has none).
pub open spec fn opt_files(files: Option<&Vec<ImageFile>>) -> Seq<ImageFile> {
    match files {
        Some(v) => v@,
        None => Seq::empty(),
    }
}

/// The warnings of an image request: images beyond what the model takes
/// are ignored, and FLUX.2 models ignore the mask.
pub open spec fn image_warnings_spec(flux2: bool, files: Seq<ImageFile>, has_mask: bool) -> Seq<WarningV> {
    (if flux2 && files.len() > 8 {
        seq![WarningV::Other("Flux-2 models support up to 8 input images. Additional images are ignored."@)]
    } else if !flux2 && files.len() > 1 {
        seq![WarningV::Other("This Replicate model only supports a single input image. Additional images are ignored."@)]
    } else {
        Seq::empty()
    }) + (if flux2 && has_mask {
        seq![WarningV::Other("Flux-2 models do not support mask input. The mask will be ignored."@)]
    } else {
        Seq::empty()
    })
}

/// A string member when the text is given.
pub open spec fn opt_str_member(k: Seq<char>, v: Option<Seq<char>>) -> Seq<(Seq<char>, Json)> {
    match v {
        Some(t) => seq![(k, Json::String(t))],
        None => Seq::empty(),
    }
}

/// The members of the prediction input that the call itself gives: the
/// prompt, aspect ratio, size, seed, `num_outputs`, the images and (but
/// for FLUX.2) the mask.
pub open spec fn input_fixed(
    flux2: bool,
    prompt: Option<Seq<char>>,
    aspect_ratio: Option<Seq<char>>,
    size: Option<Seq<char>>,
    seed: Option<Json>,
    n: u32,
    files: Seq<ImageFile>,
    mask: Option<ImageFile>,
) -> Seq<(Seq<char>, Json)> {
    opt_str_member("prompt"@, prompt) + opt_str_member("aspect_ratio"@, aspect_ratio) + opt_str_member(
        "size"@,
        size,
    ) + match seed {
        Some(j) => seq![("seed"@, j)],
        None => Seq::empty(),
    } + seq![("num_outputs"@, Json::Number(decimal_digits(n as nat)))] + image_inputs_spec(flux2, files)
        + match mask {
        Some(m) => if flux2 {
            Seq::empty()
        } else {
            seq![("mask"@, Json::String(file_uri(m)))]
        },
        None => Seq::empty(),
    }
}

/// The members of the `replicate` provider options.
pub open spec fn option_members(opts: Option<Json>) -> Seq<(Seq<char>, Json)> {
    match opts {
        Some(Json::Object(ms)) => ms,
        _ => Seq::empty(),
    }
}

/// `ms` with each option set in turn, but `maxWaitTimeInSeconds`.
pub open spec fn set_forwarded(ms: Seq<(Seq<char>, Json)>, add: Seq<(Seq<char>, Json)>) -> Seq<(Seq<char>, Json)>
    decreases add.len(),
{
    if add.len() == 0 {
        ms
    } else {
        let r = set_forwarded(ms, add.drop_last());
        if add.last().0 == "maxWaitTimeInSeconds"@ {
            r
        } else {
            set_member_spec(r, add.last().0, add.last().1)
        }
    }
}

/// The prediction input: the call's members, then the provider options
/// but `maxWaitTimeInSeconds`, each replacing a member of its name.
pub open spec fn prediction_input(
    model_id: Seq<char>,
    prompt: Option<Seq<char>>,
    aspect_ratio: Option<Seq<char>>,
    size: Option<Seq<char>>,
    seed: Option<Json>,
    n: u32,
    files: Seq<ImageFile>,
    mask: Option<ImageFile>,
    opts: Option<Json>,
) -> Seq<(Seq<char>, Json)> {
    set_forwarded(
        input_fixed(is_flux2_spec(model_id), prompt, aspect_ratio, size, seed, n, files, mask),
        option_members(opts),
    )
}

/// The prediction body: `input` (the call's members, then the provider
/// options but `maxWaitTimeInSeconds`, each replacing a member of its
/// name) and the model version when the id has one.
pub open spec fn replicate_body_spec(
    model_id: Seq<char>,
    prompt: Option<Seq<char>>,
    aspect_ratio: Option<Seq<char>>,
    size: Option<Seq<char>>,
    seed: Option<Json>,
    n: u32,
    files: Seq<ImageFile>,
    mask: Option<ImageFile>,
    opts: Option<Json>,
) -> Json {
    let input = prediction_input(model_id, prompt, aspect_ratio, size, seed, n, files, mask, opts);
    let version = after_first(model_id, ':');
    Json::Object(
        seq![("input"@, Json::Object(input))] + if version.len() > 0 {
            seq![("version"@, Json::String(version))]
        } else {
            Seq::empty()
        },
    )
}

/// The `prefer` header: `wait={n}` when the options give a whole number
/// of seconds under `maxWaitTimeInSeconds`, else `wait`.
pub open spec fn prefer_spec(opts: Option<Json>) -> Seq<char> {
    match opts {
        Some(o) => match json_get(o, "maxWaitTimeInSeconds"@) {
            Some(v) => match crate::json::json_as_u64(v) {
                Some(w) => "wait="@ + decimal_digits(w as nat),
                None => "wait"@,
            },
            None => "wait"@,
        },
        None => "wait"@,
    }
}

/// Appends the image inputs (see [`image_inputs_spec`]).
fn push_image_inputs(input: &mut Vec<(String, JsonValue)>, flux2: bool, files: &Vec<ImageFile>)
    ensures
        members_view(final(input)@) == members_view(old(input)@) + image_inputs_spec(flux2, files@),
{
    let ghost before = members_view(input@);
    if files.len() == 0 {
        assert(members_view(input@) =~= before + image_inputs_spec(flux2, files@));
        return;
    }
    if flux2 {
        let k: usize = if files.len() < 8 { files.len() } else { 8 };
        let mut i: usize = 0;
        while i < k
            invariant
                0 <= i <= k,
                k <= files@.len(),
                k == (if files@.len() < 8 { files@.len() } else { 8 }),
                members_view(input@) == before + flux_inputs(files@, i as nat),
            decreases k - i,
        {
            let key = if i == 0 {
                String::from_str("input_image")
            } else {
                let d = u64_to_decimal((i + 1) as u64);
                concat("input_image_", d.as_str())
            };
            proof {
                reveal_strlit("input_image");
            }
            let uri = image_uri(&files[i]);
            push_member(input, key.as_str(), JsonValue::String(uri));
            assert(members_view(input@) =~= before + flux_inputs(files@, (i + 1) as nat));
            i += 1;
        }
        assert(members_view(input@) =~= before + image_inputs_spec(flux2, files@));
    } else {
        let uri = image_uri(&files[0]);
        push_member(input, "image", JsonValue::String(uri));
        assert(members_view(input@) =~= before + image_inputs_spec(flux2, files@));
    }
}

/// Sets each option but `maxWaitTimeInSeconds` (see [`set_forwarded`]).
fn forward_options(input: &mut Vec<(String, JsonValue)>, opts: &Vec<(String, JsonValue)>)
    ensures
        members_view(final(input)@) == set_forwarded(members_view(old(input)@), members_view(opts@)),
{
    let ghost start = members_view(input@);
    let mut i: usize = 0;
    assert(opts@.subrange(0, 0) =~= Seq::<(String, JsonValue)>::empty());
    while i < opts.len()
        invariant
            0 <= i <= opts@.len(),
            members_view(input@) == set_forwarded(start, members_view(opts@.subrange(0, i as int))),
        decreases opts@.len() - i,
    {
        let ghost prefix = members_view(opts@.subrange(0, i as int));
        let ghost next = members_view(opts@.subrange(0, i + 1));
        proof {
            reveal_strlit("maxWaitTimeInSeconds");
            assert(opts@.subrange(0, i + 1).drop_last() =~= opts@.subrange(0, i as int));
            assert(next == prefix.push((opts@[i as int].0@, json_view(opts@[i as int].1))));
            assert(next.drop_last() =~= prefix);
        }
        let k = &opts[i].0;
        let v = &opts[i].1;
        if !str_eq(k.as_str(), "maxWaitTimeInSeconds") {
            set_member(input, k.as_str(), v.deep_copy());
        }
        i += 1;
    }
    assert(opts@.subrange(0, i as int) =~= opts@);
}

/// The prefer header (see [`prefer_spec`]).
fn prefer_header(opts: Option<&JsonValue>) -> (r: String)
    ensures
        r@ == prefer_spec(opt_json_ref_view(opts)),
{
    let wait = match opts {
        Some(o) => match o.get("maxWaitTimeInSeconds") {
            Some(v) => v.as_u64(),
            None => None,
        },
        None => None,
    };
    match wait {
        Some(w) => {
            let d = u64_to_decimal(w);
            concat("wait=", d.as_str())
        },
        None => String::from_str("wait"),
    }
}

/// The image warnings (see [`image_warnings_spec`]).
fn image_warnings(flux2: bool, n_files: usize, has_mask: bool) -> (r: Vec<Warning>)
    ensures
        forall|fs: Seq<ImageFile>| fs.len() == n_files ==> warnings_view(r@) == image_warnings_spec(
            flux2,
            fs,
            has_mask,
        ),
{
    let mut w: Vec<Warning> = Vec::new();
    if flux2 && n_files > 8 {
        w.push(
            Warning::Other {
                message: String::from_str(
                    "Flux-2 models support up to 8 input images. Additional images are ignored.",
                ),
            },
        );
    } else if !flux2 && n_files > 1 {
        w.push(
            Warning::Other {
                message: String::from_str(
                    "This Replicate model only supports a single input image. Additional images are ignored.",
                ),
            },
        );
    }
    if flux2 && has_mask {
        w.push(
            Warning::Other {
                message: String::from_str("Flux-2 models do not support mask input. The mask will be ignored."),
            },
        );
    }
    assert forall|fs: Seq<ImageFile>| fs.len() == n_files implies warnings_view(w@) == image_warnings_spec(
        flux2,
        fs,
        has_mask,
    ) by {
        assert(warnings_view(w@) =~= image_warnings_spec(flux2, fs, has_mask));
    }
    w
}

/// The request of an image generation: the prediction body (see
/// [`replicate_body_spec`]), the warnings (see [`image_warnings_spec`])
/// and the `prefer` header (see [`prefer_spec`]). The aspect ratio and
/// size are given as their texts (`16:9`, `1024x1024`), the seed as the
/// JSON number it is sent as, the options as the `replicate` entry of
/// the provider options.
pub fn replicate_image_request(
    model_id: &str,
    prompt: Option<&str>,
    aspect_ratio: Option<&str>,
    size: Option<&str>,
    seed: Option<&JsonValue>,
    n: u32,
    files: Option<&Vec<ImageFile>>,
    mask: Option<&ImageFile>,
    replicate_options: Option<&JsonValue>,
) -> (r: (JsonValue, Vec<Warning>, String))
    ensures
        r.0@ == replicate_body_spec(
            model_id@,
            opt_text(prompt),
            opt_text(aspect_ratio),
            opt_text(size),
            opt_json_ref_view(seed),
            n,
            opt_files(files),
            match mask {
                Some(m) => Some(*m),
                None => None,
            },
            opt_json_ref_view(replicate_options),
        ),
        warnings_view(r.1@) == image_warnings_spec(
            is_flux2_spec(model_id@),
            opt_files(files),
            mask is Some,
        ),
        r.2@ == prefer_spec(opt_json_ref_view(replicate_options)),
{
    let flux2 = str_starts_with(model_id, "black-forest-labs/flux-2-");
    let mut input: Vec<(String, JsonValue)> = Vec::new();
    let ghost m0 = members_view(input@);
    assert(m0 =~= Seq::<(Seq<char>, Json)>::empty());
    match prompt {
        Some(p) => push_member(&mut input, "prompt", JsonValue::String(String::from_str(p))),
        None => {},
    }
    let ghost m1 = members_view(input@);
    match aspect_ratio {
        Some(a) => push_member(&mut input, "aspect_ratio", JsonValue::String(String::from_str(a))),
        None => {},
    }
    let ghost m2 = members_view(input@);
    match size {
        Some(z) => push_member(&mut input, "size", JsonValue::String(String::from_str(z))),
        None => {},
    }
    let ghost m3 = members_view(input@);
    match seed {
        Some(s) => push_member(&mut input, "seed", s.deep_copy()),
        None => {},
    }
    let ghost m4 = members_view(input@);
    push_member(&mut input, "num_outputs", JsonValue::Number(u64_to_decimal(n as u64)));
    let ghost m5 = members_view(input@);
    let n_files: usize = match files {
        Some(fs) => {
            push_image_inputs(&mut input, flux2, fs);
            fs.len()
        },
        None => 0,
    };
    let ghost m6 = members_view(input@);
    match mask {
        Some(m) => {
            if !flux2 {
                let uri = image_uri(m);
                push_member(&mut input, "mask", JsonValue::String(uri));
            }
        },
        None => {},
    }
    let ghost m7 = members_view(input@);
    let ghost mask_v: Option<ImageFile> = match mask {
        Some(m) => Some(*m),
        None => None,
    };
    proof {
        assert(m1 =~= m0 + opt_str_member("prompt"@, opt_text(prompt)));
        assert(m2 =~= m1 + opt_str_member("aspect_ratio"@, opt_text(aspect_ratio)));
        assert(m3 =~= m2 + opt_str_member("size"@, opt_text(size)));
        assert(m4 =~= m3 + match opt_json_ref_view(seed) {
            Some(j) => seq![("seed"@, j)],
            None => Seq::<(Seq<char>, Json)>::empty(),
        });
        assert(m5 =~= m4 + seq![("num_outputs"@, Json::Number(decimal_digits(n as nat)))]);
        assert(m6 =~= m5 + image_inputs_spec(flux2, opt_files(files)));
        assert(m7 =~= m6 + match mask_v {
            Some(m) => if flux2 {
                Seq::<(Seq<char>, Json)>::empty()
            } else {
                seq![("mask"@, Json::String(file_uri(m)))]
            },
            None => Seq::empty(),
        });
        assert(m7 =~= input_fixed(
            flux2,
            opt_text(prompt),
            opt_text(aspect_ratio),
            opt_text(size),
            opt_json_ref_view(seed),
            n,
            opt_files(files),
            mask_v,
        ));
    }
    match replicate_options {
        Some(JsonValue::Object(ms)) => forward_options(&mut input, ms),
        _ => {},
    }
    assert(members_view(input@) == set_forwarded(m7, option_members(opt_json_ref_view(replicate_options))));
    let version = split_after(model_id, ':');
    let mut body: Vec<(String, JsonValue)> = Vec::new();
    let ghost input_v = members_view(input@);
    push_member(&mut body, "input", JsonValue::Object(input));
    let ghost b1 = members_view(body@);
    if version.as_str().unicode_len() > 0 {
        push_member(&mut body, "version", JsonValue::String(version));
    }
    proof {
        assert(b1 =~= seq![("input"@, Json::Object(input_v))]);
        assert(members_view(body@) =~= seq![("input"@, Json::Object(input_v))] + if after_first(model_id@, ':').len() > 0 {
            seq![("version"@, Json::String(after_first(model_id@, ':')))]
        } else {
            Seq::empty()
        });
    }
    let warnings = image_warnings(flux2, n_files, mask.is_some());
    proof {
        assert(opt_files(files).len() == n_files);
    }
    let prefer = prefer_header(replicate_options);
    (JsonValue::Object(body), warnings, prefer)
}

/// No member of `ms` is named `k`.
pub open spec fn lacks_key(ms: Seq<(Seq<char>, Json)>, k: Seq<char>) -> bool {
    forall|i: int| 0 <= i < ms.len() ==> #[trigger] ms[i].0 != k
}

/// Setting a member of another name keeps a name absent.
proof fn lemma_set_member_lacks(ms: Seq<(Seq<char>, Json)>, k: Seq<char>, v: Json, w: Seq<char>)
    requires
        lacks_key(ms, w),
        k != w,
    ensures
        lacks_key(set_member_spec(ms, k, v), w),
{
    crate::openai::convert::lemma_first_index_found(ms, k);
}

/// Forwarding options keeps `maxWaitTimeInSeconds` absent.
proof fn lemma_forwarded_lacks(ms: Seq<(Seq<char>, Json)>, add: Seq<(Seq<char>, Json)>)
    requires
        lacks_key(ms, "maxWaitTimeInSeconds"@),
    ensures
        lacks_key(set_forwarded(ms, add), "maxWaitTimeInSeconds"@),
    decreases add.len(),
{
    if add.len() > 0 {
        lemma_forwarded_lacks(ms, add.drop_last());
        if add.last().0 != "maxWaitTimeInSeconds"@ {
            lemma_set_member_lacks(
                set_forwarded(ms, add.drop_last()),
                add.last().0,
                add.last().1,
                "maxWaitTimeInSeconds"@,
            );
        }
    }
}

/// The FLUX.2 image keys all start with `i`.
proof fn lemma_flux_keys(files: Seq<ImageFile>, k: nat)
    ensures
        forall|i: int| 0 <= i < flux_inputs(files, k).len() ==> #[trigger] flux_inputs(files, k)[i].0.len() > 0
            && flux_inputs(files, k)[i].0[0] == 'i',
    decreases k,
{
    reveal_strlit("input_image");
    reveal_strlit("input_image_");
    if k > 0 {
        lemma_flux_keys(files, (k - 1) as nat);
        let prev = flux_inputs(files, (k - 1) as nat);
        let key = input_image_key((k - 1) as nat);
        assert(key.len() > 0 && key[0] == 'i') by {
            if k - 1 != 0 {
                assert(("input_image_"@ + decimal_digits(k as nat))[0] == "input_image_"@[0]);
            }
        }
        assert forall|i: int| 0 <= i < flux_inputs(files, k).len() implies #[trigger] flux_inputs(files, k)[i].0.len()
            > 0 && flux_inputs(files, k)[i].0[0] == 'i' by {
            if i < prev.len() {
                assert(flux_inputs(files, k)[i] == prev[i]);
            }
        }
    }
}

/// Two member lists without a name make one.
proof fn lemma_lacks_concat(a: Seq<(Seq<char>, Json)>, b: Seq<(Seq<char>, Json)>, w: Seq<char>)
    requires
        lacks_key(a, w),
        lacks_key(b, w),
    ensures
        lacks_key(a + b, w),
{
    assert forall|i: int| 0 <= i < (a + b).len() implies #[trigger] (a + b)[i].0 != w by {
        if i < a.len() {
            assert((a + b)[i] == a[i]);
        } else {
            assert((a + b)[i] == b[i - a.len()]);
        }
    }
}

/// The wait limit of the provider options is never sent as part of the
/// prediction input, whatever the options hold.
pub proof fn law_wait_option_stays_out_of_input(
    model_id: Seq<char>,
    prompt: Option<Seq<char>>,
    aspect_ratio: Option<Seq<char>>,
    size: Option<Seq<char>>,
    seed: Option<Json>,
    n: u32,
    files: Seq<ImageFile>,
    mask: Option<ImageFile>,
    opts: Option<Json>,
)
    ensures
        lacks_key(
            prediction_input(model_id, prompt, aspect_ratio, size, seed, n, files, mask, opts),
            "maxWaitTimeInSeconds"@,
        ),
{
    let w = "maxWaitTimeInSeconds"@;
    reveal_strlit("maxWaitTimeInSeconds");
    reveal_strlit("prompt");
    reveal_strlit("aspect_ratio");
    reveal_strlit("size");
    reveal_strlit("seed");
    reveal_strlit("num_outputs");
    reveal_strlit("image");
    reveal_strlit("mask");
    let flux2 = is_flux2_spec(model_id);
    let k: nat = if files.len() < 8 { files.len() } else { 8 };
    lemma_flux_keys(files, k);
    let p1 = opt_str_member("prompt"@, prompt);
    let p2 = opt_str_member("aspect_ratio"@, aspect_ratio);
    let p3 = opt_str_member("size"@, size);
    let p4 = match seed {
        Some(j) => seq![("seed"@, j)],
        None => Seq::<(Seq<char>, Json)>::empty(),
    };
    let p5 = seq![("num_outputs"@, Json::Number(decimal_digits(n as nat)))];
    let p6 = image_inputs_spec(flux2, files);
    let p7 = match mask {
        Some(m) => if flux2 {
            Seq::<(Seq<char>, Json)>::empty()
        } else {
            seq![("mask"@, Json::String(file_uri(m)))]
        },
        None => Seq::empty(),
    };
    assert(w.len() == 20 && w[0] == 'm');
    assert("prompt"@.len() != w.len());
    assert("aspect_ratio"@.len() != w.len());
    assert("size"@.len() != w.len());
    assert("seed"@.len() != w.len());
    assert("num_outputs"@.len() != w.len());
    assert("image"@.len() != w.len());
    assert("mask"@.len() != w.len());
    assert(lacks_key(p6, w)) by {
        if files.len() > 0 && flux2 {
            assert(p6 == flux_inputs(files, k));
            assert forall|i: int| 0 <= i < p6.len() implies #[trigger] p6[i].0 != w by {
                assert(flux_inputs(files, k)[i].0.len() > 0 && flux_inputs(files, k)[i].0[0] == 'i');
            }
        }
    }
    lemma_lacks_concat(p1, p2, w);
    lemma_lacks_concat(p1 + p2, p3, w);
    lemma_lacks_concat(p1 + p2 + p3, p4, w);
    lemma_lacks_concat(p1 + p2 + p3 + p4, p5, w);
    lemma_lacks_concat(p1 + p2 + p3 + p4 + p5, p6, w);
    lemma_lacks_concat(p1 + p2 + p3 + p4 + p5 + p6, p7, w);
    let fixed = input_fixed(flux2, prompt, aspect_ratio, size, seed, n, files, mask);
    assert(fixed == p1 + p2 + p3 + p4 + p5 + p6 + p7);
    lemma_forwarded_lacks(fixed, option_members(opts));
}

/// The strings among JSON values, in order.
pub open spec fn string_items(items: Seq<Json>) -> Seq<Seq<char>>
    decreases items.len(),
{
    if items.len() == 0 {
        Seq::empty()
    } else {
        let r = string_items(items.drop_last());
        match items.last() {
            Json::String(s) => r.push(s),
            _ => r,
        }
    }
}

/// The output URLs of a prediction: the strings of an `output` array, or
/// an `output` string; none otherwise.
pub open spec fn output_urls_spec(body: Json) -> Seq<Seq<char>> {
    match json_get(body, "output"@) {
        Some(Json::Array(items)) => string_items(items),
        Some(Json::String(s)) => seq![s],
        _ => Seq::empty(),
    }
}

/// The output URLs of a prediction (see [`output_urls_spec`]).
pub fn replicate_output_urls(body: &JsonValue) -> (r: Vec<String>)
    ensures
        r@.map_values(|s: String| s@) == output_urls_spec(body@),
{
    let mut urls: Vec<String> = Vec::new();
    match body.get("output") {
        Some(JsonValue::Array(items)) => {
            let mut i: usize = 0;
            assert(items@.subrange(0, 0) =~= Seq::<JsonValue>::empty());
            assert(urls@.map_values(|s: String| s@) =~= Seq::<Seq<char>>::empty());
            while i < items.len()
                invariant
                    0 <= i <= items@.len(),
                    urls@.map_values(|s: String| s@) == string_items(items_view(items@.subrange(0, i as int))),
                decreases items@.len() - i,
            {
                let ghost prefix = items_view(items@.subrange(0, i as int));
                proof {
                    assert(items@.subrange(0, i + 1).drop_last() =~= items@.subrange(0, i as int));
                    assert(items_view(items@.subrange(0, i + 1)) == prefix.push(json_view(items@[i as int])));
                    assert(prefix.push(json_view(items@[i as int])).drop_last() =~= prefix);
                }
                match &items[i] {
                    JsonValue::String(s) => {
                        let ghost before = urls@;
                        urls.push(s.clone());
                        assert(urls@.map_values(|s: String| s@) =~= before.map_values(|s: String| s@).push(s@));
                    },
                    _ => {},
                }
                i += 1;
            }
            assert(items@.subrange(0, i as int) =~= items@);
        },
        Some(JsonValue::String(s)) => {
            urls.push(s.clone());
            assert(urls@.map_values(|s: String| s@) =~= seq![s@]);
        },
        _ => {
            assert(urls@.map_values(|s: String| s@) =~= Seq::<Seq<char>>::empty());
        },
    }
    urls
}

} // verus!
