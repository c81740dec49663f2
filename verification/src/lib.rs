//! Verified provider-side building blocks of a unified LLM access layer:
//! provider configuration, request headers, registry lookup, model
//! capability detection, multipart framing and usage accounting.

pub mod codec;
pub mod compat;
pub mod env;
pub mod error;
pub mod headers;
pub mod http;
pub mod json;
pub mod json_read;
pub mod json_text;
pub mod keyed;
pub mod media;
pub mod multipart;
pub mod open_responses;
pub mod open_responses_request;
pub mod open_responses_stream;
pub mod open_responses_result;
pub mod openai;
pub mod parallel_ai;
pub mod prodia;
pub mod provider;
pub mod recraft;
pub mod registry_data;
pub mod replay;
pub mod replicate;
pub mod retry;
pub mod revai;
pub mod runwayml;
pub mod search;
pub mod searxng;
pub mod serper;
pub mod stability;
pub mod tavily;
pub mod text;
pub mod tinyfish;
pub mod usage;
pub mod vertex;
