//! The OpenAI Files interface (`/files`) and its upload form.

use vstd::prelude::*;
use vstd::utf8::encode_utf8;

use crate::headers::HeaderMap;
use crate::multipart::{
    closing_bytes, content_type_chars, content_type_for, file_part_bytes, generate_boundary,
    boundary_spec, text_field_bytes, write_closing, write_file_part, write_text_field,
};
use crate::openai::model::{build_auth_headers, endpoint_url, openai_auth_headers};
use crate::openai::OpenAIConfig;

verus! {

/// The bytes of a list of text fields, in order.
pub open spec fn text_fields_bytes(boundary: Seq<char>, fields: Seq<(String, String)>) -> Seq<u8>
    decreases fields.len(),
{
    if fields.len() == 0 {
        Seq::empty()
    } else {
        text_fields_bytes(boundary, fields.drop_last()) + text_field_bytes(
            boundary,
            fields.last().0@,
            fields.last().1@,
        )
    }
}

/// The upload form: the text fields, the optional extra text field, the file
/// part, then the closing delimiter.
pub open spec fn upload_form_bytes(
    boundary: Seq<char>,
    disposition: Seq<char>,
    media_type: Seq<char>,
    content: Seq<u8>,
    fields: Seq<(String, String)>,
    extra: Option<(String, String)>,
) -> Seq<u8> {
    let extra_bytes = match extra {
        Some(f) => text_field_bytes(boundary, f.0@, f.1@),
        None => Seq::empty(),
    };
    text_fields_bytes(boundary, fields) + extra_bytes + file_part_bytes(boundary, disposition, media_type, content)
        + closing_bytes(boundary)
}

/// Builds the upload form with the given boundary; returns the body and its
/// content type.
pub fn build_multipart_form_with_boundary(
    boundary: &str,
    file_content_disposition: &str,
    file_media_type: &str,
    file_bytes: &[u8],
    text_fields: &[(String, String)],
    extra_text_field: Option<(String, String)>,
) -> (r: (Vec<u8>, String))
    ensures
        r.0@ == upload_form_bytes(
            boundary@,
            file_content_disposition@,
            file_media_type@,
            file_bytes@,
            text_fields@,
            extra_text_field,
        ),
        r.1@ == content_type_chars(boundary@),
{
    let mut body: Vec<u8> = Vec::new();
    let mut i: usize = 0;
    while i < text_fields.len()
        invariant
            0 <= i <= text_fields@.len(),
            body@ == text_fields_bytes(boundary@, text_fields@.subrange(0, i as int)),
        decreases text_fields@.len() - i,
    {
        write_text_field(&mut body, boundary, text_fields[i].0.as_str(), text_fields[i].1.as_str());
        assert(text_fields@.subrange(0, i + 1).drop_last() =~= text_fields@.subrange(0, i as int));
        i += 1;
    }
    assert(text_fields@.subrange(0, i as int) =~= text_fields@);
    let ghost after_fields = body@;
    match &extra_text_field {
        Some(f) => write_text_field(&mut body, boundary, f.0.as_str(), f.1.as_str()),
        None => {
            assert(after_fields + Seq::<u8>::empty() =~= after_fields);
        },
    }
    write_file_part(&mut body, boundary, file_content_disposition, file_media_type, file_bytes);
    write_closing(&mut body, boundary);
    (body, content_type_for(boundary))
}

/// Builds the upload form with a fresh boundary; returns the body and its
/// content type.
pub fn build_multipart_form(
    file_content_disposition: &str,
    file_media_type: &str,
    file_bytes: &[u8],
    text_fields: &[(String, String)],
    extra_text_field: Option<(String, String)>,
) -> (r: (Vec<u8>, String))
    ensures
        exists|n: nat|
            r.0@ == upload_form_bytes(
                #[trigger] boundary_spec(n),
                file_content_disposition@,
                file_media_type@,
                file_bytes@,
                text_fields@,
                extra_text_field,
            ) && r.1@ == content_type_chars(boundary_spec(n)),
{
    let boundary = generate_boundary();
    build_multipart_form_with_boundary(
        boundary.as_str(),
        file_content_disposition,
        file_media_type,
        file_bytes,
        text_fields,
        extra_text_field,
    )
}

/// The OpenAI Files interface.
#[derive(Debug)]
pub struct OpenAIFiles {
    config: OpenAIConfig,
}

impl OpenAIFiles {
    pub fn new(config: OpenAIConfig) -> (f: Self)
        ensures
            f.config_spec() == config,
    {
        OpenAIFiles { config }
    }

    /// The configuration.
    pub closed spec fn config_spec(&self) -> OpenAIConfig {
        self.config
    }

    /// The provider name of the configuration.
    pub fn provider(&self) -> (s: &str)
        ensures
            s@ == self.config_spec().provider@,
    {
        self.config.provider.as_str()
    }

    /// The configuration's headers.
    pub fn build_headers(&self) -> (h: HeaderMap)
        ensures
            h@ == openai_auth_headers(self.config_spec()),
    {
        build_auth_headers(&self.config)
    }

    /// `{base_url}/files`.
    pub fn endpoint(&self) -> (r: String)
        ensures
            r@ == self.config_spec().base_url@ + "/files"@,
    {
        endpoint_url(self.config.base_url.as_str(), "/files")
    }
}

} // verus!
