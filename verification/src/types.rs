//! Plain data carried through the pipeline: configuration, the client-facing
//! request/response pair, and the shapes exchanged with the inference
//! backend. Serialization happens outside the library; these types hold the
//! values the verified logic speaks about.

use vstd::prelude::*;

verus! {

/// Prompt-template family of the configured model. `Unknown` is a degraded
/// mode (prefix-only prompts), not an error.
#[derive(Clone, Copy, PartialEq, Eq, Structural, Debug)]
pub enum ModelType {
    Qwen,
    Unknown,
}

/// Immutable process configuration, resolved once at startup.
#[derive(Debug)]
pub struct Config {
    pub model_path: String,
    pub llama_binary: String,
    pub server_port: u16,
    pub llama_port: u16,
    pub max_context: usize,
    pub max_predict: i8,
    pub threads: u8,
    pub gpu_layers: i32,
}

/// One client completion request: the text before and after the cursor.
pub struct CompletionRequest {
    pub prefix: String,
    pub suffix: String,
}

/// What the client gets back: the completion, the exact prompt that was
/// sent to the backend, and the wall-clock latency of the whole request.
pub struct CompletionResponse {
    pub completion: String,
    pub prompt: String,
    pub latency_ms: u64,
}

/// Body of a completion call to the backend. The wire form also carries a
/// sampling temperature; it is fixed at zero and added at the transport
/// layer, so the library does not hold it.
pub struct LlamaRequest {
    pub prompt: String,
    pub n_predict: i8,
    pub stop: Vec<String>,
    pub seed: u32,
}

/// Decoded body of a successful backend completion reply.
pub struct LlamaResponse {
    pub content: String,
    pub prompt: String,
}

/// Error body returned to the client on a failed request.
pub struct ErrorResponse {
    pub error: String,
}

/// Body of a tokenize call: the text to split into tokens.
pub struct TokenizeRequest {
    pub content: String,
}

/// Decoded body of a tokenize reply: the token identifiers, in text order.
pub struct TokenizeResponse {
    pub tokens: Vec<u32>,
}

/// Body of a detokenize call: the tokens to render back to text.
pub struct DetokenizeRequest {
    pub tokens: Vec<u32>,
}

/// Decoded body of a detokenize reply.
pub struct DetokenizeResponse {
    pub content: String,
}

} // verus!
