//! One request shape over many large-language-model providers, with the
//! dispatch and failover decisions of the backend stated and proved.

use vstd::prelude::*;

pub mod error;
pub mod failover;
pub mod keys;
pub mod config;
pub mod request;
pub mod providers;
pub mod client;

verus! {

/// The providers that a request can be routed to.
#[derive(Debug, Clone, Copy, PartialEq, Eq, Structural, Hash)]
pub enum Provider {
    /// Mistral AI (Le Chat, Mistral models)
    MistralAi,
    /// OpenAI (ChatGPT, GPT-4, etc.)
    OpenAI,
    /// Anthropic
    Anthropic,
    /// Google (AI Studio: Gemma, Gemini)
    Google,
    /// Meta (Llama, etc., typically self-hosted)
    Meta,
    /// Perplexity AI (Perplexity models and API)
    PerplexityAi,
    /// xAI (Grok model)
    Xai,
    /// AI21 Studio (Jamba, Jurassic models)
    Ai21Studio,
    /// Alibaba Cloud (Qwen, Tongyi Qianwen models)
    Alibaba,
    /// Hugging Face Inference API
    HuggingFaceInterface,
    /// Groq (hosts Llama 3, Gemma, DeepSeek)
    Groq,
    /// Cloudflare Workers AI (serverless inference)
    CloudflareAi,
    /// Together AI (hosts Llama, DeepSeek, Mixtral)
    TogetherAi,
    /// Cerebras (high-performance inference)
    Cerebras,
    /// OpenRouter (unified API over many providers)
    OpenRouter,
    /// Fireworks AI (hosts Llama, Mixtral)
    FireworksAi,
    /// Replicate (hosts open-source models)
    Replicate,
    /// Local/self-hosted models (Ollama, LM Studio, vLLM)
    Local,
}

/// A key for one provider: a model-specific key where `model` is not empty,
/// else the provider's master key.
pub struct ApiKeySpec {
    pub provider: Provider,
    pub model: String,
    pub key: String,
}

impl ApiKeySpec {
    /// The provider, the model the key is for (none for a master key, whose
    /// model name is empty) and the key.
    pub fn into_adapter_key(self) -> (r: (Provider, Option<String>, String))
        ensures
            r.0 == self.provider,
            r.2 == self.key,
            self.model@.len() == 0 ==> r.1 is None,
            self.model@.len() > 0 ==> r.1 == Some(self.model),
    {
        let model = if self.model.as_str().is_empty() {
            None
        } else {
            Some(self.model)
        };
        (self.provider, model, self.key)
    }

    /// An equal copy of this specification.
    pub fn duplicate(&self) -> (r: ApiKeySpec)
        ensures
            r == *self,
    {
        ApiKeySpec { provider: self.provider, model: self.model.clone(), key: self.key.clone() }
    }
}

/// The identifier of a provider, as it appears in messages.
pub open spec fn provider_name(p: Provider) -> Seq<char> {
    match p {
        Provider::MistralAi => "MistralAi"@,
        Provider::OpenAI => "OpenAI"@,
        Provider::Anthropic => "Anthropic"@,
        Provider::Google => "Google"@,
        Provider::Meta => "Meta"@,
        Provider::PerplexityAi => "PerplexityAi"@,
        Provider::Xai => "Xai"@,
        Provider::Ai21Studio => "Ai21Studio"@,
        Provider::Alibaba => "Alibaba"@,
        Provider::HuggingFaceInterface => "HuggingFaceInterface"@,
        Provider::Groq => "Groq"@,
        Provider::CloudflareAi => "CloudflareAi"@,
        Provider::TogetherAi => "TogetherAi"@,
        Provider::Cerebras => "Cerebras"@,
        Provider::OpenRouter => "OpenRouter"@,
        Provider::FireworksAi => "FireworksAi"@,
        Provider::Replicate => "Replicate"@,
        Provider::Local => "Local"@,
    }
}

impl Provider {
    /// The identifier of this provider.
    pub fn name(&self) -> (r: &'static str)
        ensures
            r@ == provider_name(*self),
    {
        match self {
            Provider::MistralAi => "MistralAi",
            Provider::OpenAI => "OpenAI",
            Provider::Anthropic => "Anthropic",
            Provider::Google => "Google",
            Provider::Meta => "Meta",
            Provider::PerplexityAi => "PerplexityAi",
            Provider::Xai => "Xai",
            Provider::Ai21Studio => "Ai21Studio",
            Provider::Alibaba => "Alibaba",
            Provider::HuggingFaceInterface => "HuggingFaceInterface",
            Provider::Groq => "Groq",
            Provider::CloudflareAi => "CloudflareAi",
            Provider::TogetherAi => "TogetherAi",
            Provider::Cerebras => "Cerebras",
            Provider::OpenRouter => "OpenRouter",
            Provider::FireworksAi => "FireworksAi",
            Provider::Replicate => "Replicate",
            Provider::Local => "Local",
        }
    }
}

/// Information about a model's capabilities and limits.
#[derive(Debug, Clone, PartialEq)]
pub struct ModelInfo {
    /// Human-readable name (e.g., "mistral-tiny", "gpt-4")
    pub name: String,
    /// Maximum context window (in tokens)
    pub max_context_tokens: usize,
    /// Maximum tokens the model can generate in response
    pub max_response_tokens: usize,
    /// Whether the model supports saving context between calls
    pub can_save_context: bool,
    /// Input modalities supported by the model
    pub input_modalities: ModelModalities,
    /// Whether the model supports streaming responses
    pub supports_streaming: bool,
    /// Whether the model supports function/tool calling
    pub supports_tools: bool,
    /// Provider of the model
    pub provider: Provider,
    /// Default system prompt or behavior instructions
    pub default_system_prompt: Option<String>,
    /// List of file extensions supported for file input
    pub supported_file_extensions: Option<Vec<String>>,
    /// Cost per 1M input tokens, in millionths of a US dollar
    pub cost_per_million_input_tokens: Option<u64>,
    /// Cost per 1M output tokens, in millionths of a US dollar
    pub cost_per_million_output_tokens: Option<u64>,
    /// Whether the model is currently available
    pub is_available: bool,
}

/// Represents a single input modality
#[derive(Debug, Clone, PartialEq)]
pub enum BaseModality {
    Text,
    Image,
    Video,
    File,
}

/// Represents a combination of modalities (e.g., Text + Image)
#[derive(Debug, Clone, PartialEq)]
pub struct CombinedModality {
    pub modalities: Vec<BaseModality>,
}

/// Represents a single or combined input modality
#[derive(Debug, Clone, PartialEq)]
pub enum InputModality {
    Single(BaseModality),
    Combined(CombinedModality),
}

/// All possible input modalities a model supports
#[derive(Debug, Clone, PartialEq)]
pub struct ModelModalities {
    pub supported: Vec<InputModality>,
}

} // verus!
