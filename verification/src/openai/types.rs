//! Wire types of the chat-completions API that the library reads.

use vstd::prelude::*;

use crate::json::JsonValue;

verus! {

/// A tool call of a response message.
#[derive(Debug)]
pub struct ToolCallResponse {
    pub id: String,
    pub function: FunctionCallResponse,
}

/// The function of a tool call.
#[derive(Debug)]
pub struct FunctionCallResponse {
    pub name: String,
    pub arguments: String,
}

/// The `usage` object of a response.
#[derive(Debug)]
pub struct UsageResponse {
    pub prompt_tokens: Option<u32>,
    pub completion_tokens: Option<u32>,
    pub total_tokens: Option<u32>,
    /// Top-level cached tokens, reported by some compatible vendors in place
    /// of `prompt_tokens_details.cached_tokens`; it wins when present.
    pub cached_tokens: Option<u32>,
    pub prompt_tokens_details: Option<PromptTokensDetails>,
    pub completion_tokens_details: Option<CompletionTokensDetails>,
}

/// Details of the prompt tokens.
#[derive(Debug)]
pub struct PromptTokensDetails {
    pub cached_tokens: Option<u32>,
    /// Cache-write tokens (also reported as `cache_creation_input_tokens`).
    pub cache_write_tokens: Option<u32>,
}

/// Details of the completion tokens.
#[derive(Debug)]
pub struct CompletionTokensDetails {
    pub reasoning_tokens: Option<u32>,
    pub accepted_prediction_tokens: Option<u32>,
    pub rejected_prediction_tokens: Option<u32>,
}

/// Groq's streaming extension, which carries the usage.
#[derive(Debug)]
pub struct XGroq {
    pub usage: Option<UsageResponse>,
}

/// A streamed message delta.
#[derive(Debug)]
pub struct Delta {
    pub content: Option<String>,
    pub reasoning: Option<String>,
    /// Reasoning text of vendors that use `reasoning_content`; it wins over
    /// `reasoning`.
    pub reasoning_content: Option<String>,
    pub tool_calls: Option<Vec<DeltaToolCall>>,
    /// URL citations and other annotations, as sent.
    pub annotations: Option<Vec<JsonValue>>,
}

/// A streamed tool-call fragment.
#[derive(Debug)]
pub struct DeltaToolCall {
    pub index: usize,
    pub id: Option<String>,
    pub function: Option<DeltaFunction>,
}

/// A streamed function fragment.
#[derive(Debug)]
pub struct DeltaFunction {
    pub name: Option<String>,
    pub arguments: Option<String>,
}

/// The reasoning text of a delta: `reasoning_content` when present, else
/// `reasoning`.
pub open spec fn delta_reasoning_spec(d: Delta) -> Option<String> {
    match d.reasoning_content {
        Some(r) => Some(r),
        None => d.reasoning,
    }
}

impl Delta {
    /// The reasoning text of the delta (`reasoning_content` wins).
    pub fn reasoning_text(&self) -> (r: Option<&String>)
        ensures
            match r {
                Some(s) => delta_reasoning_spec(*self) == Some(*s),
                None => delta_reasoning_spec(*self) is None,
            },
    {
        match &self.reasoning_content {
            Some(r) => Some(r),
            None => match &self.reasoning {
                Some(r) => Some(r),
                None => None,
            },
        }
    }
}

/// A (non-streamed) chat-completions response.
#[derive(Debug)]
pub struct ChatCompletionResponse {
    pub id: String,
    pub model: String,
    /// Creation time in seconds since the Unix epoch.
    pub created: Option<u64>,
    pub choices: Vec<Choice>,
    pub usage: UsageResponse,
}

/// A choice of a response.
#[derive(Debug)]
pub struct Choice {
    pub message: MessageResponse,
    pub finish_reason: Option<String>,
    /// Log probabilities, when they were asked for.
    pub logprobs: Option<JsonValue>,
}

/// The message of a response choice.
#[derive(Debug)]
pub struct MessageResponse {
    pub role: String,
    pub content: Option<String>,
    pub reasoning: Option<String>,
    /// Reasoning text of vendors that use `reasoning_content`; it wins over
    /// `reasoning`.
    pub reasoning_content: Option<String>,
    pub tool_calls: Option<Vec<ToolCallResponse>>,
    /// URL citations and other annotations, as sent.
    pub annotations: Option<Vec<JsonValue>>,
}

/// A streamed chunk.
#[derive(Debug)]
pub struct StreamChunk {
    pub id: Option<String>,
    pub model: Option<String>,
    pub created: Option<u64>,
    pub choices: Vec<StreamChoice>,
    pub usage: Option<UsageResponse>,
    /// Groq's extension, which carries the streamed usage.
    pub x_groq: Option<XGroq>,
}

/// A choice of a streamed chunk.
#[derive(Debug)]
pub struct StreamChoice {
    pub delta: Delta,
    pub finish_reason: Option<String>,
    pub logprobs: Option<JsonValue>,
}

} // verus!
