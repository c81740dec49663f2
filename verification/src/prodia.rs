//! Prodia image and video provider.

use vstd::prelude::*;

use crate::env::{load_api_key, missing_key_message, Environment};
use crate::error::AiMuxError;
use crate::headers::HeaderMap;
use crate::http::{bearer, bearer_value, layer_headers, opt_headers, opt_headers_ref, single_header};
use crate::openai::copy_opt_headers;
use crate::text::{str_starts_with, ascii_lower_spec, occurs_at, trim_spec, concat, concat3, without_trailing_slash, without_trailing_slash_spec};

verus! {

/// Configuration of the Prodia provider.
#[derive(Debug)]
pub struct ProdiaConfig {
    pub api_key: String,
    pub base_url: String,
    /// Extra headers sent with every request.
    pub headers: Option<HeaderMap>,
}

impl ProdiaConfig {
    /// A configuration with the default base URL.
    pub fn new(api_key: String) -> (c: Self)
        ensures
            c.api_key == api_key,
            c.base_url@ == "https://prodia.com/api"@,
            c.headers is None,
    {
        ProdiaConfig {
            api_key,
            base_url: String::from_str("https://prodia.com/api"),
            headers: None,
        }
    }

    /// Uses a custom base URL (one trailing `/` removed).
    pub fn with_base_url(self, url: &str) -> (c: Self)
        ensures
            c.base_url@ == without_trailing_slash_spec(url@),
            c == (ProdiaConfig { base_url: c.base_url, ..self }),
    {
        ProdiaConfig { base_url: without_trailing_slash(url), ..self }
    }

    /// Sets extra headers sent with every request.
    pub fn with_headers(self, headers: HeaderMap) -> (c: Self)
        ensures
            c == (ProdiaConfig { headers: Some(headers), ..self }),
    {
        ProdiaConfig { headers: Some(headers), ..self }
    }

    /// A configuration with the key from `PRODIA_API_KEY`.
    pub fn from_env(env: &Environment) -> (r: Result<Self, AiMuxError>)
        ensures
            match r {
                Ok(c) => env@.dom().contains("PRODIA_API_KEY"@) && {
                    &&& c.api_key@ == env@["PRODIA_API_KEY"@]
                    &&& c.base_url@ == "https://prodia.com/api"@
                    &&& c.headers is None
                },
                Err(e) => !env@.dom().contains("PRODIA_API_KEY"@) && (e matches AiMuxError::InvalidArgument(m)
                    && m@ == missing_key_message("PRODIA_API_KEY"@, "Prodia"@)),
            },
    {
        match load_api_key(None, "PRODIA_API_KEY", "Prodia", env) {
            Ok(k) => Ok(Self::new(k)),
            Err(e) => Err(e),
        }
    }
}

/// Two configurations that agree field by field (header maps by value).
pub open spec fn config_copy(a: ProdiaConfig, b: ProdiaConfig) -> bool {
    a.api_key == b.api_key
        && a.base_url == b.base_url
        && opt_headers(a.headers) == opt_headers(b.headers)
        && (a.headers is Some <==> b.headers is Some)
}

impl ProdiaConfig {
    /// A copy of the configuration.
    pub fn copy(&self) -> (c: Self)
        ensures
            config_copy(c, *self),
    {
        ProdiaConfig {
            api_key: self.api_key.clone(),
            base_url: self.base_url.clone(),
            headers: copy_opt_headers(&self.headers),
        }
    }
}

/// The provider: creates models that share one configuration.
#[derive(Debug)]
pub struct ProdiaProvider {
    config: ProdiaConfig,
}

impl ProdiaProvider {
    pub fn new(config: ProdiaConfig) -> (p: Self)
        ensures
            p.config() == config,
    {
        ProdiaProvider { config }
    }

    /// The configuration.
    pub closed spec fn config(&self) -> ProdiaConfig {
        self.config
    }

    /// The provider name.
    pub fn name(&self) -> (s: &str)
        ensures
            s@ == "prodia"@,
    {
        "prodia"
    }

    /// An image generation model.
    pub fn image(&self, model_id: &str) -> (m: ProdiaImageModel)
        ensures
            m.model_id_spec() == model_id@,
            config_copy(m.config_spec(), self.config()),
    {
        ProdiaImageModel::new(String::from_str(model_id), self.config.copy())
    }

    /// A video generation model.
    pub fn video(&self, model_id: &str) -> (m: ProdiaVideoModel)
        ensures
            m.model_id_spec() == model_id@,
            config_copy(m.config_spec(), self.config()),
    {
        ProdiaVideoModel::new(String::from_str(model_id), self.config.copy())
    }
}

/// A Prodia image generation model.
#[derive(Debug)]
pub struct ProdiaImageModel {
    model_id: String,
    config: ProdiaConfig,
}

impl ProdiaImageModel {
    pub fn new(model_id: String, config: ProdiaConfig) -> (m: Self)
        ensures
            m.model_id_spec() == model_id@,
            m.config_spec() == config,
    {
        ProdiaImageModel { model_id, config }
    }

    /// The model id.
    pub closed spec fn model_id_spec(&self) -> Seq<char> {
        self.model_id@
    }

    /// The configuration.
    pub closed spec fn config_spec(&self) -> ProdiaConfig {
        self.config
    }

    /// The provider name.
    pub fn provider(&self) -> (s: &str)
        ensures
            s@ == "prodia"@,
    {
        "prodia"
    }

    /// The model id.
    pub fn model_id(&self) -> (s: &str)
        ensures
            s@ == self.model_id_spec(),
    {
        self.model_id.as_str()
    }

    /// At most 1 per call.
    pub fn max_images_per_call(&self) -> (n: Option<u32>)
        ensures
            n == Some(1u32),
    {
        Some(1)
    }

    /// Request headers: `X-Prodia-Key: <key>`, `Accept: multipart/form-data; image/png`, the configured headers, then the per-call ones.
    pub fn build_headers(&self, extra: Option<&HeaderMap>) -> (h: HeaderMap)
        ensures
            h@ == Map::<Seq<char>, Seq<char>>::empty().insert("X-Prodia-Key"@, self.config_spec().api_key@).insert("Accept"@, "multipart/form-data; image/png"@).union_prefer_right(opt_headers(self.config_spec().headers)).union_prefer_right(opt_headers_ref(extra)),
    {
        let mut base = single_header("X-Prodia-Key", self.config.api_key.clone());
        base.insert(String::from_str("Accept"), String::from_str("multipart/form-data; image/png"));
        layer_headers(base, &self.config.headers, extra)
    }

    /// `{base_url}/job?price=true`.
    pub fn endpoint(&self) -> (r: String)
        ensures
            r@ == self.config_spec().base_url@ + "/job?price=true"@,
    {
        concat(self.config.base_url.as_str(), "/job?price=true")
    }
}

/// A Prodia video generation model.
#[derive(Debug)]
pub struct ProdiaVideoModel {
    model_id: String,
    config: ProdiaConfig,
}

impl ProdiaVideoModel {
    pub fn new(model_id: String, config: ProdiaConfig) -> (m: Self)
        ensures
            m.model_id_spec() == model_id@,
            m.config_spec() == config,
    {
        ProdiaVideoModel { model_id, config }
    }

    /// The model id.
    pub closed spec fn model_id_spec(&self) -> Seq<char> {
        self.model_id@
    }

    /// The configuration.
    pub closed spec fn config_spec(&self) -> ProdiaConfig {
        self.config
    }

    /// The provider name.
    pub fn provider(&self) -> (s: &str)
        ensures
            s@ == "prodia"@,
    {
        "prodia"
    }

    /// The model id.
    pub fn model_id(&self) -> (s: &str)
        ensures
            s@ == self.model_id_spec(),
    {
        self.model_id.as_str()
    }

    /// At most 1 per call.
    pub fn max_videos_per_call(&self) -> (n: Option<u32>)
        ensures
            n == Some(1u32),
    {
        Some(1)
    }

    /// Request headers: `X-Prodia-Key: <key>`, the configured headers, then the per-call ones.
    pub fn build_headers(&self, extra: Option<&HeaderMap>) -> (h: HeaderMap)
        ensures
            h@ == Map::<Seq<char>, Seq<char>>::empty().insert("X-Prodia-Key"@, self.config_spec().api_key@).union_prefer_right(opt_headers(self.config_spec().headers)).union_prefer_right(opt_headers_ref(extra)),
    {
        let base = single_header("X-Prodia-Key", self.config.api_key.clone());
        layer_headers(base, &self.config.headers, extra)
    }

    /// `{base_url}/job`.
    pub fn submit_url(&self) -> (r: String)
        ensures
            r@ == self.config_spec().base_url@ + "/job"@,
    {
        concat(self.config.base_url.as_str(), "/job")
    }

    /// `{base_url}/job/{job_id}`.
    pub fn job_url(&self, job_id: &str) -> (r: String)
        ensures
            r@ == self.config_spec().base_url@ + "/job/"@ + job_id@,
    {
        concat3(self.config.base_url.as_str(), "/job/", job_id)
    }
}

/// `n` occurs in `h` at `i`.
pub open spec fn bytes_at(h: Seq<u8>, n: Seq<u8>, i: int) -> bool {
    0 <= i && i + n.len() <= h.len() && h.subrange(i, i + n.len()) == n
}

/// The first position at or after `from` where `n` occurs in `h`.
pub open spec fn find_bytes_spec(h: Seq<u8>, n: Seq<u8>, from: int) -> Option<int>
    decreases h.len() + 1 - from,
{
    if from < 0 || from + n.len() > h.len() {
        None
    } else if bytes_at(h, n, from) {
        Some(from)
    } else {
        find_bytes_spec(h, n, from + 1)
    }
}

/// Where `n` first occurs in `h` at or after `from`.
pub fn find_bytes(h: &[u8], n: &[u8], from: usize) -> (r: Option<usize>)
    ensures
        match r {
            Some(i) => find_bytes_spec(h@, n@, from as int) == Some(i as int),
            None => find_bytes_spec(h@, n@, from as int) is None,
        },
{
    if n.len() > h.len() || from > h.len() - n.len() {
        return None;
    }
    let last = h.len() - n.len();
    let mut i = from;
    while i <= last
        invariant
            from <= i <= last + 1,
            last + n@.len() == h@.len(),
            find_bytes_spec(h@, n@, from as int) == find_bytes_spec(h@, n@, i as int),
        decreases last + 1 - i,
    {
        let mut k: usize = 0;
        let mut ok = true;
        while k < n.len()
            invariant
                0 <= k <= n@.len(),
                i <= last,
                last + n@.len() == h@.len(),
                last == h.len() - n.len(),
                n.len() <= h.len(),
                ok ==> forall|j: int| 0 <= j < k ==> h@[i + j] == n@[j],
                !ok ==> !bytes_at(h@, n@, i as int),
            decreases n@.len() - k,
        {
            if h[i + k] != n[k] {
                assert(h@.subrange(i as int, i + n@.len())[k as int] != n@[k as int]);
                ok = false;
            }
            k += 1;
        }
        if ok {
            assert(h@.subrange(i as int, i + n@.len()) =~= n@);
            return Some(i);
        }
        assert(find_bytes_spec(h@, n@, i as int) == find_bytes_spec(h@, n@, i + 1));
        if i == last {
            assert(find_bytes_spec(h@, n@, i + 1) is None);
            return None;
        }
        i += 1;
    }
    None
}

/// `s` without one trailing `'\r'`.
pub open spec fn strip_cr(s: Seq<char>) -> Seq<char> {
    if s.len() > 0 && s.last() == '\r' {
        s.drop_last()
    } else {
        s
    }
}

/// The first `'\n'` of `s`.
pub open spec fn first_newline(s: Seq<char>) -> Option<int> {
    if exists|i: int| 0 <= i < s.len() && s[i] == '\n' {
        Some(choose|i: int| 0 <= i < s.len() && s[i] == '\n' && forall|j: int| 0 <= j < i ==> s[j] != '\n')
    } else {
        None
    }
}

/// The lines of `s` as `str::lines` gives them: split after each `'\n'`,
/// which is dropped with a `'\r'` before it; a last line without `'\n'` is
/// kept as it is; no line after a final `'\n'`.
#[verifier::opaque]
pub open spec fn lines_spec(s: Seq<char>) -> Seq<Seq<char>>
    decreases s.len(),
{
    if s.len() == 0 {
        Seq::empty()
    } else {
        match first_newline(s) {
            Some(i) => if 0 <= i < s.len() {
                seq![strip_cr(s.subrange(0, i))] + lines_spec(s.subrange(i + 1, s.len() as int))
            } else {
                Seq::empty()
            },
            None => seq![s],
        }
    }
}

/// What one header line does to the name and content type found so far: a
/// `Content-Disposition` line (any case) with `name="..."` sets the name; a
/// `Content-Type` line sets the trimmed type.
#[verifier::opaque]
pub open spec fn header_step(acc: (Seq<char>, Seq<char>), line: Seq<char>) -> (Seq<char>, Seq<char>) {
    let lower = ascii_lower_spec(line);
    let name = if crate::text::is_prefix("content-disposition:"@, lower) {
        match quoted_name(line) {
            Some(n) => n,
            None => acc.0,
        }
    } else {
        acc.0
    };
    let ct = if crate::text::is_prefix("content-type:"@, lower) {
        trim_spec(line.skip(13))
    } else {
        acc.1
    };
    (name, ct)
}

/// The name and content type that the header lines of a part give, line by
/// line (see [`header_step`]); later lines win.
#[verifier::opaque]
pub open spec fn header_fields(lines: Seq<Seq<char>>) -> (Seq<char>, Seq<char>)
    decreases lines.len(),
{
    if lines.len() == 0 {
        (Seq::empty(), Seq::empty())
    } else {
        header_step(header_fields(lines.drop_last()), lines.last())
    }
}

/// The first occurrence of `p` in `s`.
pub open spec fn first_occurrence(s: Seq<char>, p: Seq<char>) -> Option<int> {
    if exists|i: int| occurs_at(s, p, i) {
        Some(choose|i: int| occurs_at(s, p, i) && forall|j: int| 0 <= j < i ==> !occurs_at(s, p, j))
    } else {
        None
    }
}

/// The text between the first `name="` of a line and the next `"`.
pub open spec fn quoted_name(line: Seq<char>) -> Option<Seq<char>> {
    match first_occurrence(line, "name=\""@) {
        Some(n) => match first_occurrence(line.skip(n + 6), "\""@) {
            Some(e) => Some(line.subrange(n + 6, n + 6 + e)),
            None => None,
        },
        None => None,
    }
}

/// The text of header bytes (`String::from_utf8_lossy`).
pub uninterp spec fn lossy_text(bytes: Seq<u8>) -> Seq<char>;

/// Decodes bytes as UTF-8, invalid sequences replaced
/// (`String::from_utf8_lossy`); valid UTF-8 decodes exactly.
#[verifier::external_body]
pub(crate) fn utf8_lossy(bytes: &[u8]) -> (s: String)
    ensures
        s@ == lossy_text(bytes@),
        vstd::utf8::valid_utf8(bytes@) ==> s@ == vstd::utf8::decode_utf8(bytes@),
{
    String::from_utf8_lossy(bytes).into_owned()
}

/// A part: its name, content type and content.
pub open spec fn part_view(part: Seq<u8>) -> (Seq<char>, Seq<char>, Seq<u8>) {
    let header_end = match find_bytes_spec(part, crlf2(), 0) {
        Some(e) => e,
        None => part.len() as int,
    };
    let header = lossy_text(part.subrange(0, header_end));
    let body_start = if header_end + 4 <= part.len() {
        header_end + 4
    } else {
        part.len() as int
    };
    let (name, ct) = header_fields(lines_spec(header));
    (name, ct, part.subrange(body_start, part.len() as int))
}

/// `\r\n`.
pub open spec fn crlf() -> Seq<u8> {
    seq![13u8, 10u8]
}

/// `\r\n\r\n`.
pub open spec fn crlf2() -> Seq<u8> {
    seq![13u8, 10u8, 13u8, 10u8]
}

/// `--`.
pub open spec fn dashes() -> Seq<u8> {
    seq![45u8, 45u8]
}

/// Where the part after the first delimiter found from `idx` lies
/// (`(content start, end)`): the delimiter `--{boundary}` is followed by an
/// optional `\r\n`, and the part ends at the next `\r\n` plus delimiter or
/// at the end of the body. `None` when no delimiter is found, nothing
/// follows it, or it is the closing delimiter (followed by `--`).
pub open spec fn next_part(body: Seq<u8>, delim: Seq<u8>, idx: int) -> Option<(int, int)> {
    if delim.len() == 0 || idx < 0 || idx > body.len() {
        None
    } else {
        match find_bytes_spec(body, delim, idx) {
            None => None,
            Some(start) => {
                let abs = start + delim.len();
                if abs >= body.len() || bytes_at(body, dashes(), abs) {
                    None
                } else {
                    let cs = if bytes_at(body, crlf(), abs) {
                        abs + 2
                    } else {
                        abs
                    };
                    let end = match find_bytes_spec(body, crlf() + delim, cs) {
                        Some(e) => e,
                        None => body.len() as int,
                    };
                    Some((cs, end))
                }
            },
        }
    }
}

/// The parts found from `idx` on, each split by [`part_view`].
#[verifier::opaque]
pub open spec fn parse_parts_spec(body: Seq<u8>, delim: Seq<u8>, idx: int) -> Seq<(Seq<char>, Seq<char>, Seq<u8>)>
    decreases body.len() - idx,
{
    match next_part(body, delim, idx) {
        Some((cs, end)) => if idx < end <= body.len() && 0 <= cs <= end {
            seq![part_view(body.subrange(cs, end))] + parse_parts_spec(body, delim, end)
        } else {
            Seq::empty()
        },
        None => Seq::empty(),
    }
}

/// The parts of a multipart body: `(name, content type, content)`.
pub open spec fn multipart_parts(body: Seq<u8>, boundary: Seq<char>) -> Seq<(Seq<char>, Seq<char>, Seq<u8>)> {
    parse_parts_spec(body, vstd::utf8::encode_utf8("--"@ + boundary), 0)
}

/// The first newline is at `i` when `s[i]` is the first `'\n'`.
proof fn lemma_first_newline(s: Seq<char>, i: int)
    requires
        0 <= i < s.len(),
        s[i] == '\n',
        forall|j: int| 0 <= j < i ==> s[j] != '\n',
    ensures
        first_newline(s) == Some(i),
{
    let k = choose|k: int| 0 <= k < s.len() && s[k] == '\n' && forall|j: int| 0 <= j < k ==> s[j] != '\n';
    if k < i {
    } else if k > i {
    }
}

/// One step of splitting into lines.
proof fn lemma_lines_step(rest: Seq<char>, k: int)
    requires
        0 <= k < rest.len(),
        rest[k] == '\n',
        forall|j: int| 0 <= j < k ==> rest[j] != '\n',
    ensures
        lines_spec(rest) == seq![strip_cr(rest.subrange(0, k))] + lines_spec(rest.subrange(k + 1, rest.len() as int)),
{
    lemma_first_newline(rest, k);
    reveal(lines_spec);
}

/// A non-empty text without newline is one line.
proof fn lemma_lines_last(rest: Seq<char>)
    requires
        rest.len() > 0,
        forall|j: int| 0 <= j < rest.len() ==> rest[j] != '\n',
    ensures
        lines_spec(rest) == seq![rest],
{
    reveal(lines_spec);
}

/// Empty text has no lines.
proof fn lemma_lines_empty(rest: Seq<char>)
    requires
        rest.len() == 0,
    ensures
        lines_spec(rest) == Seq::<Seq<char>>::empty(),
{
    reveal(lines_spec);
}

/// Views of a list of strings.
pub open spec fn strings_view(v: Seq<String>) -> Seq<Seq<char>> {
    Seq::new(v.len(), |i: int| v[i]@)
}

/// The lines of `s` (see [`lines_spec`]).
pub fn lines_of(s: &str) -> (r: Vec<String>)
    ensures
        strings_view(r@) == lines_spec(s@),
{
    let c = crate::text::chars_of(s);
    let n = c.len();
    let mut out: Vec<String> = Vec::new();
    let mut start: usize = 0;
    let mut i: usize = 0;
    assert(c@.subrange(0, n as int) =~= c@);
    while i < n
        invariant
            0 <= start <= i <= n,
            n == c@.len(),
            c@ == s@,
            forall|j: int| start <= j < i ==> c@[j] != '\n',
            lines_spec(s@) == strings_view(out@) + lines_spec(c@.subrange(start as int, n as int)),
        decreases n - i,
    {
        if c[i] == '\n' {
            let ghost rest = c@.subrange(start as int, n as int);
            proof {
                assert forall|j: int| 0 <= j < i - start implies rest[j] != '\n' by {
                    assert(rest[j] == c@[start + j]);
                }
                lemma_lines_step(rest, i - start);
                assert(rest.subrange(0, i - start) =~= c@.subrange(start as int, i as int));
                assert(rest.subrange(i - start + 1, rest.len() as int) =~= c@.subrange(i + 1, n as int));
            }
            let piece = crate::text::slice_chars(&c, start, i);
            let line = if piece.len() > 0 && piece[piece.len() - 1] == '\r' {
                crate::text::slice_chars(&piece, 0, piece.len() - 1)
            } else {
                piece
            };
            let ghost before = out@;
            out.push(crate::text::string_from_chars(&line));
            proof {
                assert(strings_view(out@) =~= strings_view(before).push(strip_cr(c@.subrange(start as int, i as int))));
                assert(strings_view(before) + lines_spec(rest) =~= strings_view(out@) + lines_spec(
                    c@.subrange(i + 1, n as int),
                ));
            }
            start = i + 1;
        }
        i += 1;
    }
    if start < n {
        let ghost rest = c@.subrange(start as int, n as int);
        proof {
            assert forall|j: int| 0 <= j < rest.len() implies rest[j] != '\n' by {
                assert(rest[j] == c@[start + j]);
            }
            lemma_lines_last(rest);
        }
        let piece = crate::text::slice_chars(&c, start, n);
        let ghost before = out@;
        out.push(crate::text::string_from_chars(&piece));
        proof {
            assert(strings_view(out@) =~= strings_view(before).push(rest));
            assert(strings_view(before) + seq![rest] =~= strings_view(out@));
        }
    } else {
        proof {
            lemma_lines_empty(c@.subrange(start as int, n as int));
            assert(strings_view(out@) + Seq::<Seq<char>>::empty() =~= strings_view(out@));
        }
    }
    out
}

/// The first occurrence found from the start is the first occurrence.
proof fn lemma_first_occurrence(s: Seq<char>, p: Seq<char>, r: Option<usize>)
    requires
        match r {
            Some(i) => 0 <= i && occurs_at(s, p, i as int) && forall|j: int| 0 <= j < i ==> !#[trigger] occurs_at(s, p, j),
            None => forall|j: int| 0 <= j ==> !#[trigger] occurs_at(s, p, j),
        },
    ensures
        first_occurrence(s, p) == match r {
            Some(i) => Some(i as int),
            None => None::<int>,
        },
{
    match r {
        Some(i) => {
            let k = choose|k: int| occurs_at(s, p, k) && forall|j: int| 0 <= j < k ==> !occurs_at(s, p, j);
            assert(occurs_at(s, p, i as int));
            if k < i {
                assert(!occurs_at(s, p, k));
            } else if k > i {
                assert(!occurs_at(s, p, i as int));
            }
        },
        None => {
            assert forall|j: int| !occurs_at(s, p, j) by {
                if j >= 0 {
                    assert(!occurs_at(s, p, j));
                }
            }
        },
    }
}

/// The text between the first `name="` of a line and the next `"`.
pub fn quoted_name_of(line: &str) -> (r: Option<String>)
    ensures
        match quoted_name(line@) {
            Some(n) => r matches Some(t) && t@ == n,
            None => r is None,
        },
{
    proof {
        reveal_strlit("name=\"");
        reveal_strlit("\"");
    }
    let c = crate::text::chars_of(line);
    let pat = crate::text::chars_of("name=\"");
    let found = crate::text::find_from(&c, &pat, 0);
    proof {
        lemma_first_occurrence(line@, "name=\""@, found);
    }
    match found {
        None => None,
        Some(n) => {
            let clen = c.len();
            assert(pat@.len() == 6);
            let rest = crate::text::slice_chars(&c, n + 6, clen);
            let q = crate::text::chars_of("\"");
            let e = crate::text::find_from(&rest, &q, 0);
            proof {
                assert(rest@ =~= line@.skip(n + 6));
                lemma_first_occurrence(line@.skip(n + 6), "\""@, e);
            }
            match e {
                None => None,
                Some(e) => {
                    let v = crate::text::slice_chars(&c, n + 6, n + 6 + e);
                    Some(crate::text::string_from_chars(&v))
                },
            }
        },
    }
}

/// What one header line does to the name and content type found so far.
fn apply_header_line(name: String, ct: String, line: &str) -> (r: (String, String))
    ensures
        (r.0@, r.1@) == header_step((name@, ct@), line@),
{
    proof {
        reveal(header_step);
    }
    let lower = crate::text::ascii_lower(line);
    let mut name = name;
    let mut ct = ct;
    if str_starts_with(lower.as_str(), "content-disposition:") {
        match quoted_name_of(line) {
            Some(n) => {
                name = n;
            },
            None => {},
        }
    }
    if str_starts_with(lower.as_str(), "content-type:") {
        proof {
            reveal_strlit("content-type:");
        }
        let rest = crate::text::str_skip(line, 13);
        ct = crate::text::str_trim(rest.as_str());
    }
    (name, ct)
}

/// Header lines are read one at a time.
proof fn lemma_header_fields_step(lines: Seq<Seq<char>>)
    ensures
        lines.len() == 0 ==> header_fields(lines) == (Seq::<char>::empty(), Seq::<char>::empty()),
        lines.len() > 0 ==> header_fields(lines) == header_step(header_fields(lines.drop_last()), lines.last()),
{
    reveal(header_fields);
}

/// The name and content type given by header lines.
pub fn header_fields_of(lines: &Vec<String>) -> (r: (String, String))
    ensures
        (r.0@, r.1@) == header_fields(strings_view(lines@)),
{
    let mut acc = (String::new(), String::new());
    let mut i: usize = 0;
    proof {
        assert(strings_view(lines@).subrange(0, 0) =~= Seq::<Seq<char>>::empty());
        lemma_header_fields_step(strings_view(lines@).subrange(0, 0));
    }
    while i < lines.len()
        invariant
            0 <= i <= lines@.len(),
            (acc.0@, acc.1@) == header_fields(strings_view(lines@).subrange(0, i as int)),
        decreases lines@.len() - i,
    {
        proof {
            let sub = strings_view(lines@).subrange(0, i + 1);
            assert(sub.drop_last() =~= strings_view(lines@).subrange(0, i as int));
            assert(sub.last() == lines@[i as int]@);
            lemma_header_fields_step(sub);
        }
        acc = apply_header_line(acc.0, acc.1, lines[i].as_str());
        i += 1;
    }
    assert(strings_view(lines@).subrange(0, lines@.len() as int) =~= strings_view(lines@));
    acc
}

/// `h[from..to]` as a vector.
pub fn bytes_range(h: &[u8], from: usize, to: usize) -> (r: Vec<u8>)
    requires
        from <= to <= h@.len(),
    ensures
        r@ == h@.subrange(from as int, to as int),
{
    let mut r: Vec<u8> = Vec::new();
    let mut j = from;
    while j < to
        invariant
            from <= j <= to <= h@.len(),
            r@ == h@.subrange(from as int, j as int),
        decreases to - j,
    {
        r.push(h[j]);
        assert(h@.subrange(from as int, j + 1) =~= h@.subrange(from as int, j as int).push(h@[j as int]));
        j += 1;
    }
    r
}

/// Splits one part into its name, content type and content.
pub fn parse_part(part: &[u8]) -> (r: (String, String, Vec<u8>))
    ensures
        (r.0@, r.1@, r.2@) == part_view(part@),
{
    let sep: Vec<u8> = vec![13u8, 10u8, 13u8, 10u8];
    assert(sep@ =~= crlf2());
    let header_end = match find_bytes(part, sep.as_slice(), 0) {
        Some(e) => e,
        None => part.len(),
    };
    proof {
        match find_bytes_spec(part@, crlf2(), 0) {
            Some(e) => {
                lemma_find_bytes_found(part@, crlf2(), 0);
            },
            None => {},
        }
    }
    let head = bytes_range(part, 0, header_end);
    let header = utf8_lossy(head.as_slice());
    let body_start = if header_end <= part.len() && part.len() - header_end >= 4 {
        header_end + 4
    } else {
        part.len()
    };
    let lines = lines_of(header.as_str());
    let (name, ct) = header_fields_of(&lines);
    let content = bytes_range(part, body_start, part.len());
    (name, ct, content)
}

/// A found position is a real occurrence at or after the start.
proof fn lemma_find_bytes_found(h: Seq<u8>, n: Seq<u8>, from: int)
    ensures
        find_bytes_spec(h, n, from) matches Some(i) ==> from <= i && bytes_at(h, n, i),
    decreases h.len() + 1 - from,
{
    if !(from < 0 || from + n.len() > h.len()) && !bytes_at(h, n, from) {
        lemma_find_bytes_found(h, n, from + 1);
    }
}

/// Views of parsed parts.
pub open spec fn parts_view(v: Seq<(String, String, Vec<u8>)>) -> Seq<(Seq<char>, Seq<char>, Seq<u8>)> {
    Seq::new(v.len(), |i: int| (v[i].0@, v[i].1@, v[i].2@))
}

/// Locates the part after the first delimiter found from `idx` (see
/// [`next_part`]).
fn locate_part(body: &[u8], delim: &[u8], next: &[u8], idx: usize) -> (r: Option<(usize, usize)>)
    requires
        delim@.len() > 0,
        next@ == crlf() + delim@,
        idx <= body@.len(),
    ensures
        match r {
            Some((cs, end)) => next_part(body@, delim@, idx as int) == Some((cs as int, end as int))
                && idx < end <= body@.len() && cs <= end,
            None => next_part(body@, delim@, idx as int) is None,
        },
{
    let blen = body.len();
    let start = match find_bytes(body, delim, idx) {
        Some(s) => s,
        None => {
            return None;
        },
    };
    proof {
        lemma_find_bytes_found(body@, delim@, idx as int);
        assert(bytes_at(body@, delim@, start as int));
    }
    let abs = start + delim.len();
    if abs >= blen {
        return None;
    }
    let closing = body.len() - abs >= 2 && body[abs] == 45u8 && body[abs + 1] == 45u8;
    proof {
        if closing {
            assert(body@.subrange(abs as int, abs + 2) =~= dashes());
        } else if abs + 2 <= body@.len() {
            if body@.subrange(abs as int, abs + 2) == dashes() {
                assert(body@.subrange(abs as int, abs + 2)[0] == body@[abs as int]);
                assert(body@.subrange(abs as int, abs + 2)[1] == body@[abs + 1]);
            }
        }
    }
    if closing {
        return None;
    }
    let has_crlf = body.len() - abs >= 2 && body[abs] == 13u8 && body[abs + 1] == 10u8;
    proof {
        if has_crlf {
            assert(body@.subrange(abs as int, abs + 2) =~= crlf());
        } else if abs + 2 <= body@.len() {
            if body@.subrange(abs as int, abs + 2) == crlf() {
                assert(body@.subrange(abs as int, abs + 2)[0] == body@[abs as int]);
                assert(body@.subrange(abs as int, abs + 2)[1] == body@[abs + 1]);
            }
        }
    }
    let cs = if has_crlf { abs + 2 } else { abs };
    let end = match find_bytes(body, next, cs) {
        Some(e) => e,
        None => body.len(),
    };
    proof {
        lemma_find_bytes_found(body@, crlf() + delim@, cs as int);
    }
    Some((cs, end))
}

/// One step of [`parse_parts_spec`].
proof fn lemma_parse_parts_step(body: Seq<u8>, delim: Seq<u8>, idx: int, cs: int, end: int)
    requires
        next_part(body, delim, idx) == Some((cs, end)),
        idx < end <= body.len(),
        0 <= cs <= end,
    ensures
        parse_parts_spec(body, delim, idx) == seq![part_view(body.subrange(cs, end))] + parse_parts_spec(
            body,
            delim,
            end,
        ),
{
    reveal(parse_parts_spec);
}

/// Where no part follows, [`parse_parts_spec`] ends.
proof fn lemma_parse_parts_done(body: Seq<u8>, delim: Seq<u8>, idx: int)
    requires
        next_part(body, delim, idx) is None,
    ensures
        parse_parts_spec(body, delim, idx) == Seq::<(Seq<char>, Seq<char>, Seq<u8>)>::empty(),
{
    reveal(parse_parts_spec);
}

/// Parses a multipart body into its parts `(name, content type, content)`.
pub fn parse_multipart(body: &[u8], boundary: &str) -> (r: Vec<(String, String, Vec<u8>)>)
    ensures
        parts_view(r@) == multipart_parts(body@, boundary@),
{
    let d = concat("--", boundary);
    let delim = d.as_str().as_bytes();
    let mut next: Vec<u8> = vec![13u8, 10u8];
    let mut k: usize = 0;
    while k < delim.len()
        invariant
            0 <= k <= delim@.len(),
            next@ == crlf() + delim@.subrange(0, k as int),
        decreases delim@.len() - k,
    {
        next.push(delim[k]);
        assert(delim@.subrange(0, k + 1) =~= delim@.subrange(0, k as int).push(delim@[k as int]));
        assert(next@ =~= crlf() + delim@.subrange(0, k + 1));
        k += 1;
    }
    assert(delim@.subrange(0, delim@.len() as int) =~= delim@);
    let ghost dv = delim@;
    proof {
        reveal_strlit("--");
        assert(d@.len() >= 2);
        assert(dv == vstd::utf8::encode_utf8("--"@ + boundary@));
        assert(dv.len() > 0) by {
            reveal_with_fuel(vstd::utf8::encode_utf8, 1);
        }
    }
    let mut out: Vec<(String, String, Vec<u8>)> = Vec::new();
    let mut idx: usize = 0;
    assert(parts_view(out@) + parse_parts_spec(body@, dv, 0) =~= parse_parts_spec(body@, dv, 0));
    loop
        invariant
            idx <= body@.len(),
            dv.len() > 0,
            dv == vstd::utf8::encode_utf8("--"@ + boundary@),
            delim@ == dv,
            next@ == crlf() + dv,
            parse_parts_spec(body@, dv, 0) == parts_view(out@) + parse_parts_spec(body@, dv, idx as int),
        decreases body@.len() - idx,
    {
        match locate_part(body, delim, next.as_slice(), idx) {
            None => {
                proof {
                    lemma_parse_parts_done(body@, dv, idx as int);
                    assert(parts_view(out@) + Seq::empty() =~= parts_view(out@));
                }
                return out;
            },
            Some((cs, end)) => {
                let part = bytes_range(body, cs, end);
                let pv = parse_part(part.as_slice());
                let ghost before = parts_view(out@);
                let ghost pv_view = part_view(body@.subrange(cs as int, end as int));
                out.push(pv);
                proof {
                    lemma_parse_parts_step(body@, dv, idx as int, cs as int, end as int);
                    assert(parts_view(out@) =~= before.push(pv_view));
                    assert(before + (seq![pv_view] + parse_parts_spec(body@, dv, end as int))
                        =~= parts_view(out@) + parse_parts_spec(body@, dv, end as int));
                }
                idx = end;
            },
        }
    }
}

/// Whether `n` occurs at `from` shows in the search from `from`.
proof fn lemma_find_bytes_first(h: Seq<u8>, n: Seq<u8>, from: int)
    requires
        from >= 0,
    ensures
        (find_bytes_spec(h, n, from) == Some(from)) == bytes_at(h, n, from),
{
    lemma_find_bytes_found(h, n, from);
    if bytes_at(h, n, from) {
    } else if !(from < 0 || from + n.len() > h.len()) {
        lemma_find_bytes_found(h, n, from + 1);
    }
}

} // verus!
