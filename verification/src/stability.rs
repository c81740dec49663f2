//! Stability AI image provider.

use vstd::prelude::*;

use crate::env::{load_api_key, missing_key_message, Environment};
use crate::error::AiMuxError;
use crate::headers::HeaderMap;
use crate::http::{bearer, bearer_value, layer_headers, opt_headers, opt_headers_ref, single_header};
use crate::openai::copy_opt_headers;
use crate::text::{concat, without_trailing_slash, without_trailing_slash_spec};

verus! {

/// The endpoint path of a model id: `ultra` for `stable-image-ultra`,
/// `core` for `stable-image-core`, the id itself otherwise.
pub open spec fn model_subpath_spec(model_id: Seq<char>) -> Seq<char> {
    if model_id == "stable-image-ultra"@ {
        "ultra"@
    } else if model_id == "stable-image-core"@ {
        "core"@
    } else if model_id == "sd3"@ {
        "sd3"@
    } else {
        model_id
    }
}

/// The endpoint path of a model id.
pub fn model_id_to_subpath(model_id: &str) -> (r: &str)
    ensures
        r@ == model_subpath_spec(model_id@),
{
    if crate::text::str_eq(model_id, "stable-image-ultra") {
        "ultra"
    } else if crate::text::str_eq(model_id, "stable-image-core") {
        "core"
    } else if crate::text::str_eq(model_id, "sd3") {
        "sd3"
    } else {
        model_id
    }
}

/// The greatest common divisor (Euclid).
pub open spec fn gcd_spec(a: nat, b: nat) -> nat
    decreases b,
{
    if b == 0 {
        a
    } else {
        gcd_spec(b, a % b)
    }
}

/// The greatest common divisor of two numbers.
pub fn gcd(a: u32, b: u32) -> (g: u32)
    ensures
        g == gcd_spec(a as nat, b as nat),
    decreases b,
{
    if b == 0 {
        a
    } else {
        gcd(b, a % b)
    }
}

/// The gcd divides both numbers.
pub proof fn lemma_gcd_divides(a: nat, b: nat)
    requires
        a > 0 || b > 0,
    ensures
        gcd_spec(a, b) > 0,
        a % gcd_spec(a, b) == 0,
        b % gcd_spec(a, b) == 0,
    decreases b,
{
    if b > 0 {
        lemma_gcd_divides(b, a % b);
        let g = gcd_spec(b, a % b);
        assert(gcd_spec(a, b) == g);
        vstd::arithmetic::div_mod::lemma_fundamental_div_mod(a as int, b as int);
        let q = a / b;
        vstd::arithmetic::div_mod::lemma_fundamental_div_mod(b as int, g as int);
        vstd::arithmetic::div_mod::lemma_fundamental_div_mod((a % b) as int, g as int);
        let qb = b / g;
        let qr = (a % b) / g;
        assert(b == g * qb);
        assert(a % b == g * qr);
        assert(a == b * q + a % b);
        assert(a == g * (qb * q + qr)) by (nonlinear_arith)
            requires
                a == b * q + a % b,
                b == g * qb,
                a % b == g * qr,
        ;
        vstd::arithmetic::div_mod::lemma_mod_multiples_basic((qb * q + qr) as int, g as int);
    }
}

/// `{w/g}:{h/g}` with `g` the gcd: the reduced width-to-height ratio of a
/// size, none when either side is 0.
pub open spec fn aspect_ratio_spec(w: u32, h: u32) -> Option<Seq<char>> {
    if w == 0 || h == 0 {
        None
    } else {
        let g = gcd_spec(w as nat, h as nat);
        Some(crate::text::decimal_digits(w as nat / g) + ":"@ + crate::text::decimal_digits(h as nat / g))
    }
}

/// The aspect ratio of a size, in lowest terms.
pub fn convert_size_to_aspect_ratio(width: u32, height: u32) -> (r: Option<String>)
    ensures
        match r {
            Some(s) => aspect_ratio_spec(width, height) == Some(s@),
            None => aspect_ratio_spec(width, height) is None,
        },
{
    if width == 0 || height == 0 {
        return None;
    }
    let g = gcd(width, height);
    proof {
        lemma_gcd_divides(width as nat, height as nat);
    }
    let a = crate::text::u64_to_decimal((width / g) as u64);
    let b = crate::text::u64_to_decimal((height / g) as u64);
    Some(crate::text::concat3(a.as_str(), ":", b.as_str()))
}

/// Configuration of the Stability provider.
#[derive(Debug)]
pub struct StabilityConfig {
    pub api_key: String,
    pub base_url: String,
    /// Extra headers sent with every request.
    pub headers: Option<HeaderMap>,
}

impl StabilityConfig {
    /// A configuration with the default base URL.
    pub fn new(api_key: String) -> (c: Self)
        ensures
            c.api_key == api_key,
            c.base_url@ == "https://api.stability.ai"@,
            c.headers is None,
    {
        StabilityConfig {
            api_key,
            base_url: String::from_str("https://api.stability.ai"),
            headers: None,
        }
    }

    /// Uses a custom base URL (one trailing `/` removed).
    pub fn with_base_url(self, url: &str) -> (c: Self)
        ensures
            c.base_url@ == without_trailing_slash_spec(url@),
            c == (StabilityConfig { base_url: c.base_url, ..self }),
    {
        StabilityConfig { base_url: without_trailing_slash(url), ..self }
    }

    /// Sets extra headers sent with every request.
    pub fn with_headers(self, headers: HeaderMap) -> (c: Self)
        ensures
            c == (StabilityConfig { headers: Some(headers), ..self }),
    {
        StabilityConfig { headers: Some(headers), ..self }
    }

    /// A configuration with the key from `STABILITY_API_KEY`.
    pub fn from_env(env: &Environment) -> (r: Result<Self, AiMuxError>)
        ensures
            match r {
                Ok(c) => env@.dom().contains("STABILITY_API_KEY"@) && {
                    &&& c.api_key@ == env@["STABILITY_API_KEY"@]
                    &&& c.base_url@ == "https://api.stability.ai"@
                    &&& c.headers is None
                },
                Err(e) => !env@.dom().contains("STABILITY_API_KEY"@) && (e matches AiMuxError::InvalidArgument(m)
                    && m@ == missing_key_message("STABILITY_API_KEY"@, "Stability"@)),
            },
    {
        match load_api_key(None, "STABILITY_API_KEY", "Stability", env) {
            Ok(k) => Ok(Self::new(k)),
            Err(e) => Err(e),
        }
    }
}

/// Two configurations that agree field by field (header maps by value).
pub open spec fn config_copy(a: StabilityConfig, b: StabilityConfig) -> bool {
    a.api_key == b.api_key
        && a.base_url == b.base_url
        && opt_headers(a.headers) == opt_headers(b.headers)
        && (a.headers is Some <==> b.headers is Some)
}

impl StabilityConfig {
    /// A copy of the configuration.
    pub fn copy(&self) -> (c: Self)
        ensures
            config_copy(c, *self),
    {
        StabilityConfig {
            api_key: self.api_key.clone(),
            base_url: self.base_url.clone(),
            headers: copy_opt_headers(&self.headers),
        }
    }
}

/// The provider: creates models that share one configuration.
#[derive(Debug)]
pub struct StabilityProvider {
    config: StabilityConfig,
}

impl StabilityProvider {
    pub fn new(config: StabilityConfig) -> (p: Self)
        ensures
            p.config() == config,
    {
        StabilityProvider { config }
    }

    /// The configuration.
    pub closed spec fn config(&self) -> StabilityConfig {
        self.config
    }

    /// The provider name.
    pub fn name(&self) -> (s: &str)
        ensures
            s@ == "stability"@,
    {
        "stability"
    }

    /// An image generation model.
    pub fn image(&self, model_id: &str) -> (m: StabilityImageModel)
        ensures
            m.model_id_spec() == model_id@,
            config_copy(m.config_spec(), self.config()),
    {
        StabilityImageModel::new(String::from_str(model_id), self.config.copy())
    }
}

/// A Stability image generation model.
#[derive(Debug)]
pub struct StabilityImageModel {
    model_id: String,
    config: StabilityConfig,
}

impl StabilityImageModel {
    pub fn new(model_id: String, config: StabilityConfig) -> (m: Self)
        ensures
            m.model_id_spec() == model_id@,
            m.config_spec() == config,
    {
        StabilityImageModel { model_id, config }
    }

    /// The model id.
    pub closed spec fn model_id_spec(&self) -> Seq<char> {
        self.model_id@
    }

    /// The configuration.
    pub closed spec fn config_spec(&self) -> StabilityConfig {
        self.config
    }

    /// The provider name.
    pub fn provider(&self) -> (s: &str)
        ensures
            s@ == "stability"@,
    {
        "stability"
    }

    /// The model id.
    pub fn model_id(&self) -> (s: &str)
        ensures
            s@ == self.model_id_spec(),
    {
        self.model_id.as_str()
    }

    /// At most 1 per call.
    pub fn max_images_per_call(&self) -> (n: Option<u32>)
        ensures
            n == Some(1u32),
    {
        Some(1)
    }

    /// Request headers: `Authorization: Bearer <key>`, `Accept: image/*`, the configured headers, then the per-call ones.
    pub fn build_headers(&self, extra: Option<&HeaderMap>) -> (h: HeaderMap)
        ensures
            h@ == Map::<Seq<char>, Seq<char>>::empty().insert("Authorization"@, "Bearer "@ + self.config_spec().api_key@).insert("Accept"@, "image/*"@).union_prefer_right(opt_headers(self.config_spec().headers)).union_prefer_right(opt_headers_ref(extra)),
    {
        let mut base = single_header("Authorization", concat("Bearer ", self.config.api_key.as_str()));
        base.insert(String::from_str("Accept"), String::from_str("image/*"));
        layer_headers(base, &self.config.headers, extra)
    }

    /// `{base_url}/v2beta/stable-image/generate/{subpath}`.
    pub fn endpoint(&self) -> (r: String)
        ensures
            r@ == self.config_spec().base_url@ + "/v2beta/stable-image/generate/"@ + model_subpath_spec(self.model_id_spec()),
    {
        crate::text::concat3(
            self.config.base_url.as_str(),
            "/v2beta/stable-image/generate/",
            model_id_to_subpath(self.model_id.as_str()),
        )
    }
}

} // verus!
