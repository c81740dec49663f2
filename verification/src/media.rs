//! Media types and inline file data.

use vstd::prelude::*;

use crate::codec::{decodes_to, base64_decode, base64_decoded, base64_encode, base64_encoded, decode_error_message, decode_error_text, Base64DecodeError};
use crate::error::AiMuxError;
use crate::text::{chars_of, concat, concat3, is_prefix, is_suffix, slice_chars, str_eq, str_starts_with, string_from_chars};

verus! {

/// The part of `s` before the first `c` (all of it when there is none).
pub open spec fn before_first(s: Seq<char>, c: char) -> Seq<char> {
    if exists|i: int| 0 <= i < s.len() && s[i] == c {
        let i = choose|i: int| 0 <= i < s.len() && s[i] == c && forall|j: int| 0 <= j < i ==> s[j] != c;
        s.subrange(0, i)
    } else {
        s
    }
}

/// The part of `s` before the first `c`.
pub fn split_before(s: &str, c: char) -> (r: String)
    ensures
        r@ == before_first(s@, c),
{
    let v = chars_of(s);
    let mut i: usize = 0;
    while i < v.len()
        invariant
            0 <= i <= v@.len(),
            v@ == s@,
            forall|j: int| 0 <= j < i ==> v@[j] != c,
        decreases v@.len() - i,
    {
        if v[i] == c {
            let r = string_from_chars(&slice_chars(&v, 0, i));
            proof {
                let k = choose|k: int| 0 <= k < s@.len() && s@[k] == c && forall|j: int| 0 <= j < k ==> s@[j] != c;
                if k > i {
                    assert(s@[i as int] == c);
                }
                assert(k == i);
            }
            return r;
        }
        i += 1;
    }
    String::from_str(s)
}

/// The part of a media type before the first `/` (all of it when there is
/// none).
pub open spec fn top_level_spec(media_type: Seq<char>) -> Seq<char> {
    before_first(media_type, '/')
}

/// The top-level type of a media type whose first `/` is at `k`.
pub proof fn lemma_top_level_at(media_type: Seq<char>, k: int)
    requires
        0 <= k < media_type.len(),
        media_type[k] == '/',
        forall|j: int| 0 <= j < k ==> media_type[j] != '/',
    ensures
        top_level_spec(media_type) == media_type.subrange(0, k),
{
    let i = choose|i: int|
        0 <= i < media_type.len() && media_type[i] == '/' && forall|j: int| 0 <= j < i ==> media_type[j] != '/';
    assert(i == k);
}

/// The top-level media type (`image` of `image/png`).
pub fn top_level_of(media_type: &str) -> (r: String)
    ensures
        r@ == top_level_spec(media_type@),
{
    split_before(media_type, '/')
}

/// A media type given only by its top level or with a wildcard subtype
/// (`image`, `image/*`) is completed from the leading bytes of the base64
/// data: PNG, JPEG, GIF, WebP, else PNG. Full image types and other types
/// stay as they are.
pub open spec fn full_media_type_spec(media_type: Seq<char>, b64: Seq<char>) -> Seq<char> {
    let top = top_level_spec(media_type);
    if top == "image"@ && media_type != "image"@ && !is_suffix("/*"@, media_type) {
        media_type
    } else if top == "image"@ {
        if is_prefix("iVBORw0KGgo"@, b64) {
            "image/png"@
        } else if is_prefix("/9j/"@, b64) {
            "image/jpeg"@
        } else if is_prefix("R0lGOD"@, b64) {
            "image/gif"@
        } else if is_prefix("UklGR"@, b64) {
            "image/webp"@
        } else {
            "image/png"@
        }
    } else {
        media_type
    }
}

/// Whether `s` ends with `p`.
pub fn str_ends_with(s: &str, p: &str) -> (b: bool)
    ensures
        b == is_suffix(p@, s@),
{
    let sc = chars_of(s);
    let pc = chars_of(p);
    if pc.len() > sc.len() {
        return false;
    }
    let start = sc.len() - pc.len();
    let mut i: usize = 0;
    while i < pc.len()
        invariant
            0 <= i <= pc@.len(),
            start + pc@.len() == sc@.len(),
            start <= sc.len(),
            pc.len() == sc.len() - start,
            sc@ == s@,
            pc@ == p@,
            forall|j: int| 0 <= j < i ==> sc@[start + j] == pc@[j],
        decreases pc@.len() - i,
    {
        if sc[start + i] != pc[i] {
            assert(s@.subrange(start as int, s@.len() as int)[i as int] != p@[i as int]);
            return false;
        }
        i += 1;
    }
    assert(s@.subrange(start as int, s@.len() as int) =~= p@);
    true
}

/// Completes a top-level or wildcard image media type from base64 data.
pub fn complete_media_type(media_type: &str, b64_data: &str) -> (r: String)
    ensures
        r@ == full_media_type_spec(media_type@, b64_data@),
{
    let top = top_level_of(media_type);
    let is_image = str_eq(top.as_str(), "image");
    if is_image && !str_eq(media_type, "image") && !str_ends_with(media_type, "/*") {
        return String::from_str(media_type);
    }
    if is_image {
        if str_starts_with(b64_data, "iVBORw0KGgo") {
            return String::from_str("image/png");
        }
        if str_starts_with(b64_data, "/9j/") {
            return String::from_str("image/jpeg");
        }
        if str_starts_with(b64_data, "R0lGOD") {
            return String::from_str("image/gif");
        }
        if str_starts_with(b64_data, "UklGR") {
            return String::from_str("image/webp");
        }
        return String::from_str("image/png");
    }
    String::from_str(media_type)
}

/// Inline file data.
#[derive(Debug)]
pub enum ImageFileData {
    Base64(String),
    Binary(Vec<u8>),
}

/// An image given inline or by URL.
#[derive(Debug)]
pub enum ImageFile {
    File { media_type: String, data: ImageFileData },
    Url { url: String },
}

/// Audio given as bytes or base64 text.
#[derive(Debug)]
pub enum AudioInput {
    Binary(Vec<u8>),
    Base64(String),
}

/// The bytes of inline data, or the decoding failure of its base64 text.
pub open spec fn data_bytes(d: ImageFileData) -> Result<Seq<u8>, Base64DecodeError> {
    match d {
        ImageFileData::Binary(b) => Ok(b@),
        ImageFileData::Base64(s) => base64_decoded(s@),
    }
}

/// `invalid base64: {error}`.
pub open spec fn invalid_base64_text(e: Base64DecodeError) -> Seq<char> {
    "invalid base64: "@ + decode_error_text(e)
}

/// Decodes base64 text; a failure is an `InvalidArgument` error.
pub fn decode_base64_argument(b64: &str) -> (r: Result<Vec<u8>, AiMuxError>)
    ensures
        match base64_decoded(b64@) {
            Ok(b) => r matches Ok(v) && v@ == b,
            Err(e) => r matches Err(AiMuxError::InvalidArgument(m)) && m@ == invalid_base64_text(e),
        },
{
    match base64_decode(b64) {
        Ok(v) => Ok(v),
        Err(e) => Err(AiMuxError::InvalidArgument(concat("invalid base64: ", decode_error_message(e).as_str()))),
    }
}

/// The bytes of an image to upload: inline data is decoded; a URL is refused.
pub fn image_file_to_bytes(file: &ImageFile) -> (r: Result<Vec<u8>, AiMuxError>)
    ensures
        match file {
            ImageFile::Url { .. } => r matches Err(AiMuxError::InvalidArgument(m))
                && m@ == "OpenAI image edit does not support URL files in this implementation"@,
            ImageFile::File { data, .. } => match data_bytes(*data) {
                Ok(b) => r matches Ok(v) && v@ == b,
                Err(e) => r matches Err(AiMuxError::InvalidArgument(m)) && m@ == invalid_base64_text(e),
            },
        },
{
    match file {
        ImageFile::File { data, .. } => match data {
            ImageFileData::Binary(bytes) => Ok(bytes.clone()),
            ImageFileData::Base64(b64) => decode_base64_argument(b64.as_str()),
        },
        ImageFile::Url { .. } => Err(
            AiMuxError::InvalidArgument(
                String::from_str("OpenAI image edit does not support URL files in this implementation"),
            ),
        ),
    }
}

/// The media type of an image; a URL counts as `application/octet-stream`.
pub fn image_file_media_type(file: &ImageFile) -> (s: &str)
    ensures
        match file {
            ImageFile::File { media_type, .. } => s@ == media_type@,
            ImageFile::Url { .. } => s@ == "application/octet-stream"@,
        },
{
    match file {
        ImageFile::File { media_type, .. } => media_type.as_str(),
        ImageFile::Url { .. } => "application/octet-stream",
    }
}

/// The bytes of audio input; base64 text is decoded.
pub fn audio_input_to_bytes(audio: &AudioInput) -> (r: Result<Vec<u8>, AiMuxError>)
    ensures
        match audio {
            AudioInput::Binary(b) => r matches Ok(v) && v@ == b@,
            AudioInput::Base64(s) => match base64_decoded(s@) {
                Ok(b) => r matches Ok(v) && v@ == b,
                Err(e) => r matches Err(AiMuxError::InvalidArgument(m)) && m@ == invalid_base64_text(e),
            },
        },
{
    match audio {
        AudioInput::Binary(bytes) => Ok(bytes.clone()),
        AudioInput::Base64(b64) => decode_base64_argument(b64.as_str()),
    }
}

/// The base64 text of audio input (binary audio is encoded).
pub fn audio_input_to_base64(audio: &AudioInput) -> (r: String)
    ensures
        match audio {
            AudioInput::Binary(b) => r@ == base64_encoded(b@) && decodes_to(r@, b@),
            AudioInput::Base64(s) => r@ == s@,
        },
{
    match audio {
        AudioInput::Base64(s) => s.clone(),
        AudioInput::Binary(bytes) => base64_encode(bytes.as_slice()),
    }
}

/// The base64 text of inline data (binary data is encoded).
pub open spec fn data_base64(d: ImageFileData) -> Seq<char> {
    match d {
        ImageFileData::Base64(s) => s@,
        ImageFileData::Binary(b) => base64_encoded(b@),
    }
}

/// `data:{media_type};base64,{text}`.
pub open spec fn data_uri(media_type: Seq<char>, b64: Seq<char>) -> Seq<char> {
    "data:"@ + media_type + ";base64,"@ + b64
}

/// The URL of an image: its own URL, or a base64 data URI of inline data.
pub fn file_to_data_uri(file: &ImageFile) -> (r: Result<String, AiMuxError>)
    ensures
        match file {
            ImageFile::Url { url } => r matches Ok(s) && s@ == url@,
            ImageFile::File { media_type, data } => r matches Ok(s) && s@ == data_uri(
                media_type@,
                data_base64(*data),
            ),
        },
{
    match file {
        ImageFile::Url { url } => Ok(url.clone()),
        ImageFile::File { media_type, data } => {
            let b64 = match data {
                ImageFileData::Base64(s) => s.clone(),
                ImageFileData::Binary(b) => base64_encode(b.as_slice()),
            };
            let a = concat3("data:", media_type.as_str(), ";base64,");
            Ok(concat(a.as_str(), b64.as_str()))
        },
    }
}

/// Binary data survives the trip into a data URI: the text after the
/// `;base64,` marker decodes to the original bytes.
pub proof fn law_data_uri_roundtrip(media_type: Seq<char>, bytes: Seq<u8>)
    requires
        decodes_to(base64_encoded(bytes), bytes),
    ensures
        ({
            let uri = data_uri(media_type, base64_encoded(bytes));
            let k = ("data:"@ + media_type + ";base64,"@).len();
            decodes_to(uri.skip(k as int), bytes)
        }),
{
    let uri = data_uri(media_type, base64_encoded(bytes));
    let k = ("data:"@ + media_type + ";base64,"@).len();
    assert(uri.skip(k as int) =~= base64_encoded(bytes));
}

} // verus!
