//! `multipart/form-data` framing.
//!
//! A body is a sequence of parts, each introduced by `--{boundary}\r\n`, a
//! `Content-Disposition` header (and, for files, a `Content-Type` header), a
//! blank line and the content followed by `\r\n`; the body ends with
//! `--{boundary}--\r\n`. Text is written as its UTF-8 encoding.

use vstd::prelude::*;
use vstd::utf8::encode_utf8;

use crate::text::{concat, push_char};

verus! {

/// The characters of a text field.
pub open spec fn text_field_chars(boundary: Seq<char>, name: Seq<char>, value: Seq<char>) -> Seq<char> {
    "--"@ + boundary + "\r\n"@ + "Content-Disposition: form-data; name=\""@ + name + "\"\r\n\r\n"@
        + value + "\r\n"@
}

/// The bytes of a text field.
pub open spec fn text_field_bytes(boundary: Seq<char>, name: Seq<char>, value: Seq<char>) -> Seq<u8> {
    encode_utf8(text_field_chars(boundary, name, value))
}

/// The header lines of a file part whose `Content-Disposition` value is given.
pub open spec fn file_head_chars(boundary: Seq<char>, disposition: Seq<char>, media_type: Seq<char>) -> Seq<char> {
    "--"@ + boundary + "\r\n"@ + "Content-Disposition: "@ + disposition + "\r\n"@ + "Content-Type: "@
        + media_type + "\r\n\r\n"@
}

/// The bytes of a file part.
pub open spec fn file_part_bytes(
    boundary: Seq<char>,
    disposition: Seq<char>,
    media_type: Seq<char>,
    content: Seq<u8>,
) -> Seq<u8> {
    encode_utf8(file_head_chars(boundary, disposition, media_type)) + content + encode_utf8("\r\n"@)
}

/// `form-data; name="{name}"; filename="{filename}"`.
pub open spec fn file_disposition(name: Seq<char>, filename: Seq<char>) -> Seq<char> {
    "form-data; name=\""@ + name + "\"; filename=\""@ + filename + "\""@
}

/// The closing delimiter `--{boundary}--\r\n`.
pub open spec fn closing_bytes(boundary: Seq<char>) -> Seq<u8> {
    encode_utf8("--"@ + boundary + "--\r\n"@)
}

/// `multipart/form-data; boundary={boundary}`.
pub open spec fn content_type_chars(boundary: Seq<char>) -> Seq<char> {
    "multipart/form-data; boundary="@ + boundary
}

/// Appends `bytes` to `body`.
pub fn append_bytes(body: &mut Vec<u8>, bytes: &[u8])
    ensures
        final(body)@ == old(body)@ + bytes@,
{
    let ghost start = body@;
    let mut i: usize = 0;
    while i < bytes.len()
        invariant
            0 <= i <= bytes@.len(),
            body@ == start + bytes@.subrange(0, i as int),
        decreases bytes@.len() - i,
    {
        body.push(bytes[i]);
        assert(bytes@.subrange(0, i + 1) =~= bytes@.subrange(0, i as int).push(bytes@[i as int]));
        i += 1;
    }
    assert(bytes@.subrange(0, i as int) =~= bytes@);
}

/// Appends the UTF-8 encoding of `s` to `body`.
pub fn append_str(body: &mut Vec<u8>, s: &str)
    ensures
        final(body)@ == old(body)@ + encode_utf8(s@),
{
    append_bytes(body, s.as_bytes());
}

/// Appends a text field.
pub fn write_text_field(body: &mut Vec<u8>, boundary: &str, name: &str, value: &str)
    ensures
        final(body)@ == old(body)@ + text_field_bytes(boundary@, name@, value@),
{
    let a = concat("--", boundary);
    let a = concat(a.as_str(), "\r\n");
    let a = concat(a.as_str(), "Content-Disposition: form-data; name=\"");
    let a = concat(a.as_str(), name);
    let a = concat(a.as_str(), "\"\r\n\r\n");
    let a = concat(a.as_str(), value);
    let a = concat(a.as_str(), "\r\n");
    append_str(body, a.as_str());
}

/// Appends a file part whose `Content-Disposition` value is given.
pub fn write_file_part(body: &mut Vec<u8>, boundary: &str, disposition: &str, media_type: &str, bytes: &[u8])
    ensures
        final(body)@ == old(body)@ + file_part_bytes(boundary@, disposition@, media_type@, bytes@),
{
    let a = concat("--", boundary);
    let a = concat(a.as_str(), "\r\n");
    let a = concat(a.as_str(), "Content-Disposition: ");
    let a = concat(a.as_str(), disposition);
    let a = concat(a.as_str(), "\r\n");
    let a = concat(a.as_str(), "Content-Type: ");
    let a = concat(a.as_str(), media_type);
    let a = concat(a.as_str(), "\r\n\r\n");
    let ghost start = body@;
    append_str(body, a.as_str());
    append_bytes(body, bytes);
    append_str(body, "\r\n");
    assert(body@ =~= start + file_part_bytes(boundary@, disposition@, media_type@, bytes@));
}

/// Appends a file field named `name` with file name `filename`.
pub fn write_file_field(
    body: &mut Vec<u8>,
    boundary: &str,
    name: &str,
    filename: &str,
    media_type: &str,
    bytes: &[u8],
)
    ensures
        final(body)@ == old(body)@ + file_part_bytes(
            boundary@,
            file_disposition(name@, filename@),
            media_type@,
            bytes@,
        ),
{
    let d = concat("form-data; name=\"", name);
    let d = concat(d.as_str(), "\"; filename=\"");
    let d = concat(d.as_str(), filename);
    let d = concat(d.as_str(), "\"");
    write_file_part(body, boundary, d.as_str(), media_type, bytes);
}

/// Appends the closing delimiter.
pub fn write_closing(body: &mut Vec<u8>, boundary: &str)
    ensures
        final(body)@ == old(body)@ + closing_bytes(boundary@),
{
    let a = concat("--", boundary);
    let a = concat(a.as_str(), "--\r\n");
    append_str(body, a.as_str());
}

/// The content type of a form with the given boundary.
pub fn content_type_for(boundary: &str) -> (r: String)
    ensures
        r@ == content_type_chars(boundary@),
{
    concat("multipart/form-data; boundary=", boundary)
}

/// A lower-case hexadecimal digit.
pub open spec fn hex_digit(d: nat) -> char {
    if d < 10 {
        (48 + d) as char
    } else {
        (87 + d) as char
    }
}

/// The lower-case hexadecimal digits of `n`, without leading zeros (`"0"`
/// for zero).
pub open spec fn hex_digits(n: nat) -> Seq<char>
    decreases n,
{
    if n < 16 {
        seq![hex_digit(n)]
    } else {
        hex_digits(n / 16).push(hex_digit(n % 16))
    }
}

/// `s` left-padded with `'0'` to at least `width` characters.
pub open spec fn zero_pad(s: Seq<char>, width: nat) -> Seq<char> {
    if s.len() >= width {
        s
    } else {
        Seq::new((width - s.len()) as nat, |i: int| '0') + s
    }
}

/// The boundary made from a nanosecond timestamp: `----WebKitFormBoundary`
/// followed by the timestamp in lower-case hexadecimal, zero-padded to 25
/// digits.
pub open spec fn boundary_spec(nanos: nat) -> Seq<char> {
    "----WebKitFormBoundary"@ + zero_pad(hex_digits(nanos), 25)
}

fn hex_char(d: u8) -> (c: char)
    requires
        d < 16,
    ensures
        c == hex_digit(d as nat),
{
    if d < 10 {
        (48u8 + d) as char
    } else {
        (87u8 + d) as char
    }
}

/// The hexadecimal digits of `n`.
pub fn hex_of(n: u128) -> (r: Vec<char>)
    ensures
        r@ == hex_digits(n as nat),
    decreases n,
{
    if n < 16 {
        let mut r: Vec<char> = Vec::new();
        r.push(hex_char(n as u8));
        r
    } else {
        let mut r = hex_of(n / 16);
        r.push(hex_char((n % 16) as u8));
        r
    }
}

/// The boundary for a nanosecond timestamp (see [`boundary_spec`]).
pub fn boundary_from_nanos(nanos: u128) -> (r: String)
    ensures
        r@ == boundary_spec(nanos as nat),
{
    let digits = hex_of(nanos);
    let mut r = String::from_str("----WebKitFormBoundary");
    let ghost prefix = r@;
    let mut pad: usize = 0;
    let need: usize = if digits.len() >= 25 { 0 } else { 25 - digits.len() };
    while pad < need
        invariant
            pad <= need,
            need == (if digits@.len() >= 25 { 0 } else { 25 - digits@.len() }),
            r@ == prefix + Seq::new(pad as nat, |i: int| '0'),
        decreases need - pad,
    {
        push_char(&mut r, '0');
        assert(Seq::new((pad + 1) as nat, |i: int| '0') =~= Seq::new(pad as nat, |i: int| '0').push('0'));
        pad += 1;
    }
    let ghost padded = r@;
    let mut i: usize = 0;
    while i < digits.len()
        invariant
            0 <= i <= digits@.len(),
            r@ == padded + digits@.subrange(0, i as int),
        decreases digits@.len() - i,
    {
        push_char(&mut r, digits[i]);
        assert(digits@.subrange(0, i + 1) =~= digits@.subrange(0, i as int).push(digits@[i as int]));
        i += 1;
    }
    proof {
        assert(digits@.subrange(0, i as int) =~= digits@);
        if digits@.len() >= 25 {
            assert(Seq::new(0nat, |i: int| '0') =~= Seq::<char>::empty());
            assert(r@ =~= boundary_spec(nanos as nat));
        } else {
            assert(r@ =~= boundary_spec(nanos as nat));
        }
    }
    r
}

/// Nanoseconds since the Unix epoch (`SystemTime::now().duration_since(UNIX_EPOCH)`),
/// or 0 when the clock is before the epoch. Nothing is stated of the value:
/// it depends on the machine's clock.
#[verifier::external_body]
fn nanos_since_epoch() -> (n: u128) {
    std::time::SystemTime::now().duration_since(std::time::UNIX_EPOCH).map(|d| d.as_nanos()).unwrap_or(0)
}

/// A fresh boundary made from the current time.
pub fn generate_boundary() -> (r: String)
    ensures
        exists|n: nat| r@ == boundary_spec(n),
{
    let n = nanos_since_epoch();
    boundary_from_nanos(n)
}

/// A hexadecimal digit string is never empty and holds only `0-9a-f`.
proof fn lemma_hex_digits(n: nat)
    ensures
        hex_digits(n).len() >= 1,
        forall|i: int| 0 <= i < hex_digits(n).len() ==> ('0' <= #[trigger] hex_digits(n)[i] <= '9') || ('a'
            <= hex_digits(n)[i] <= 'f'),
    decreases n,
{
    if n >= 16 {
        lemma_hex_digits(n / 16);
    }
}

/// Every generated boundary is `----WebKitFormBoundary` followed by at least
/// 25 lower-case hexadecimal digits, so it holds no line break and no
/// quote.
pub proof fn law_boundary_shape(n: nat)
    ensures
        is_prefix_of_boundary(boundary_spec(n)),
        boundary_spec(n).len() >= 47,
        forall|i: int| 22 <= i < boundary_spec(n).len() ==> ('0' <= #[trigger] boundary_spec(n)[i] <= '9') || ('a'
            <= boundary_spec(n)[i] <= 'f'),
{
    lemma_hex_digits(n);
    let d = hex_digits(n);
    let p = zero_pad(d, 25);
    assert("----WebKitFormBoundary"@.len() == 22) by {
        reveal_strlit("----WebKitFormBoundary");
    }
    assert forall|i: int| 0 <= i < p.len() implies ('0' <= #[trigger] p[i] <= '9') || ('a' <= p[i] <= 'f') by {
        if d.len() < 25 && i < 25 - d.len() {
        } else if d.len() < 25 {
            assert(p[i] == d[i - (25 - d.len())]);
        }
    }
    assert forall|i: int| 22 <= i < boundary_spec(n).len() implies ('0' <= #[trigger] boundary_spec(n)[i] <= '9')
        || ('a' <= boundary_spec(n)[i] <= 'f') by {
        assert(boundary_spec(n)[i] == p[i - 22]);
    }
    assert(boundary_spec(n).subrange(0, 22) =~= "----WebKitFormBoundary"@);
}

/// The boundary starts with `----WebKitFormBoundary`.
pub open spec fn is_prefix_of_boundary(b: Seq<char>) -> bool {
    crate::text::is_prefix("----WebKitFormBoundary"@, b)
}

} // verus!
