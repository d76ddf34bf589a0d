//! Unified request and response types.

use vstd::prelude::*;
use crate::Provider;

verus! {

/// Unified prompt request
#[derive(Debug, Clone)]
pub struct PromptRequest {
    /// The prompt text
    pub prompt: String,
    /// Provider to use
    pub provider: Provider,
    /// Model name
    pub model: String,
    /// Optional system message
    pub system_message: Option<String>,
    /// Max tokens to generate
    pub max_tokens: Option<usize>,
    /// Temperature for sampling, in hundredths
    pub temperature_percent: Option<u32>,
}

/// Unified prompt response
#[derive(Debug, Clone)]
pub struct PromptResponse {
    /// Generated text
    pub text: String,
    /// Provider that generated it
    pub provider: Provider,
    /// Model that generated it
    pub model: String,
    /// Tokens used
    pub tokens_used: Option<usize>,
}

/// Unified error response
#[derive(Debug, Clone)]
pub struct ErrorResponse {
    /// Error code
    pub code: String,
    /// Error message
    pub message: String,
    /// Provider that errored
    pub provider: Provider,
}

} // verus!
