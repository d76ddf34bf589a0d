//! LLM provider adapters.

pub mod mistral;
