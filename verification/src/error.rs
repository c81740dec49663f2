//! The library's error type.

use vstd::prelude::*;

use crate::text::concat;

verus! {

/// Errors reported by provider construction and request preparation.
#[derive(Debug)]
pub enum AiMuxError {
    /// An argument or a configuration entry is invalid.
    InvalidArgument(String),
    /// No provider of the requested name is known.
    NoSuchProvider { provider_id: String },
    /// A JSON document could not be parsed.
    JsonParse(String),
    /// The provider does not offer the requested modality.
    Unsupported(String),
    /// The requested functionality is not available.
    UnsupportedFunctionality(String),
    /// The provider reported a failure.
    Provider(String),
    /// A response could not be interpreted.
    InvalidResponseData(String),
    /// The provider answered a call with an error: the HTTP status, the
    /// provider's error code, its message and the response body.
    ApiCall {
        status_code: Option<u16>,
        provider_code: Option<String>,
        message: String,
        response_body: Option<String>,
    },
}

impl AiMuxError {
    /// The human-readable text of the error.
    pub open spec fn message_spec(&self) -> Seq<char> {
        match self {
            AiMuxError::NoSuchProvider { provider_id } => "No such provider: "@ + provider_id@,
            AiMuxError::InvalidArgument(m) => m@,
            AiMuxError::JsonParse(m) => m@,
            AiMuxError::Unsupported(m) => m@,
            AiMuxError::UnsupportedFunctionality(m) => m@,
            AiMuxError::Provider(m) => m@,
            AiMuxError::InvalidResponseData(m) => m@,
            AiMuxError::ApiCall { message, .. } => message@,
        }
    }

    /// The human-readable text of the error.
    pub fn message(&self) -> (s: String)
        ensures
            s@ == self.message_spec(),
    {
        match self {
            AiMuxError::NoSuchProvider { provider_id } => concat(
                "No such provider: ",
                provider_id.as_str(),
            ),
            AiMuxError::InvalidArgument(m) => m.clone(),
            AiMuxError::JsonParse(m) => m.clone(),
            AiMuxError::Unsupported(m) => m.clone(),
            AiMuxError::UnsupportedFunctionality(m) => m.clone(),
            AiMuxError::Provider(m) => m.clone(),
            AiMuxError::InvalidResponseData(m) => m.clone(),
            AiMuxError::ApiCall { message, .. } => message.clone(),
        }
    }
}

} // verus!
