//! The OpenAI embedding model (`/embeddings`).

use vstd::prelude::*;

use crate::headers::HeaderMap;
use crate::http::opt_headers_ref;
use crate::openai::model::{endpoint_url, openai_auth_headers, openai_request_headers};
use crate::openai::OpenAIConfig;
use crate::codec::{base64_decode, base64_decoded};

verus! {

/// An OpenAI-compatible embedding model.
#[derive(Debug)]
pub struct OpenAIEmbeddingModel {
    model_id: String,
    config: OpenAIConfig,
}

impl OpenAIEmbeddingModel {
    pub fn new(model_id: String, config: OpenAIConfig) -> (m: Self)
        ensures
            m.model_id_spec() == model_id@,
            m.config_spec() == config,
    {
        OpenAIEmbeddingModel { model_id, config }
    }

    /// The model id.
    pub closed spec fn model_id_spec(&self) -> Seq<char> {
        self.model_id@
    }

    /// The configuration.
    pub closed spec fn config_spec(&self) -> OpenAIConfig {
        self.config
    }

    /// The provider name of the configuration.
    pub fn provider(&self) -> (s: &str)
        ensures
            s@ == self.config_spec().provider@,
    {
        self.config.provider.as_str()
    }

    /// The model id.
    pub fn model_id(&self) -> (s: &str)
        ensures
            s@ == self.model_id_spec(),
    {
        self.model_id.as_str()
    }

    /// Request headers: the configuration's, then the per-call ones.
    pub fn build_headers(&self, extra: Option<&HeaderMap>) -> (h: HeaderMap)
        ensures
            h@ == openai_auth_headers(self.config_spec()).union_prefer_right(opt_headers_ref(extra)),
    {
        openai_request_headers(&self.config, extra)
    }

    /// `{base_url}/embeddings`.
    pub fn endpoint(&self) -> (r: String)
        ensures
            r@ == self.config_spec().base_url@ + "/embeddings"@,
    {
        endpoint_url(self.config.base_url.as_str(), "/embeddings")
    }

    /// At most 2048 values per call.
    pub fn max_embeddings_per_call(&self) -> (n: Option<u32>)
        ensures
            n == Some(2048u32),
    {
        Some(2048)
    }

    /// Calls may run in parallel.
    pub fn supports_parallel_calls(&self) -> (b: bool)
        ensures
            b,
    {
        true
    }
}

/// The little-endian 32-bit word at index `i` of `b`.
pub open spec fn le_word(b: Seq<u8>, i: int) -> u32 {
    (b[4 * i] as int + 256 * (b[4 * i + 1] as int) + 65536 * (b[4 * i + 2] as int) + 16777216 * (b[4 * i
        + 3] as int)) as u32
}

/// The words of a base64 embedding: the decoded bytes read as little-endian
/// 32-bit words; none when the text does not decode or the byte count is
/// not a multiple of four.
pub open spec fn embedding_words(text: Seq<char>) -> Option<Seq<u32>> {
    match base64_decoded(text) {
        Ok(b) => if b.len() % 4 == 0 {
            Some(Seq::new(b.len() / 4, |i: int| le_word(b, i)))
        } else {
            None
        },
        Err(_) => None,
    }
}

/// Decodes a base64 embedding into the bit patterns of its little-endian
/// 32-bit floats (see [`embedding_words`]); the caller reads each pattern
/// as an `f32`.
pub fn decode_base64_embedding(s: &str) -> (r: Option<Vec<u32>>)
    ensures
        match embedding_words(s@) {
            Some(w) => r matches Some(v) && v@ == w,
            None => r is None,
        },
{
    let bytes = match base64_decode(s) {
        Ok(b) => b,
        Err(_) => {
            return None;
        },
    };
    if bytes.len() % 4 != 0 {
        return None;
    }
    let blen = bytes.len();
    let n = blen / 4;
    let mut out: Vec<u32> = Vec::new();
    let mut i: usize = 0;
    while i < n
        invariant
            0 <= i <= n,
            n == bytes@.len() / 4,
            blen == bytes@.len(),
            bytes@.len() % 4 == 0,
            out@.len() == i,
            forall|j: int| 0 <= j < i ==> #[trigger] out@[j] == le_word(bytes@, j),
        decreases n - i,
    {
        let k = 4 * i;
        let w: u32 = bytes[k] as u32 + 256 * (bytes[k + 1] as u32) + 65536 * (bytes[k + 2] as u32) + 16777216 * (
        bytes[k + 3] as u32);
        out.push(w);
        i += 1;
    }
    assert(out@ =~= Seq::new(bytes@.len() / 4, |j: int| le_word(bytes@, j)));
    Some(out)
}

} // verus!
