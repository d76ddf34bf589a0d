//! The Mistral adapter: its keys, the calls it makes and how their answers
//! become results.

use vstd::prelude::*;
use vstd::string::StringExecFns;
use crate::error::Error;
use crate::keys::SecretMap;
use crate::{BaseModality, InputModality, ModelInfo, ModelModalities, Provider};

verus! {

/// Where the Mistral API is served.
pub const MISTRAL_API_BASE: &'static str = "https://api.mistral.ai/v1";

/// Largest answer asked for, in tokens.
pub const CHAT_MAX_TOKENS: usize = 1024;

/// Sampling temperature asked for, in hundredths.
pub const CHAT_TEMPERATURE_PERCENT: u32 = 70;

/// One message of a chat.
#[derive(Debug, Clone)]
pub struct ChatMessage {
    pub role: String,
    pub content: String,
}

/// The body of a chat-completion request.
#[derive(Debug, Clone)]
pub struct MistralChatRequest {
    pub model: String,
    pub messages: Vec<ChatMessage>,
    pub max_tokens: Option<usize>,
    /// Sampling temperature, in hundredths.
    pub temperature_percent: Option<u32>,
    pub stream: Option<bool>,
}

/// The decoded body of a chat-completion answer.
#[derive(Debug, Clone)]
pub struct MistralChatResponse {
    pub choices: Vec<Choice>,
}

/// One answer of a chat completion.
#[derive(Debug, Clone)]
pub struct Choice {
    pub message: ChatMessage,
    pub finish_reason: Option<String>,
}

/// The decoded body of the model catalog.
#[derive(Debug, Clone)]
pub struct MistralModelsResponse {
    pub data: Vec<ModelData>,
}

/// One model of the catalog.
#[derive(Debug, Clone)]
pub struct ModelData {
    pub id: String,
    pub owned_by: Option<String>,
}

/// What became of an HTTP request, as the network layer reports it.
pub enum HttpReply<T> {
    /// No answer came: the transport's message.
    Transport(String),
    /// The server answered with a failure status: the body, where it could be read.
    Rejected(Option<String>),
    /// The server answered with a success status: the decoded body, or the
    /// decoder's message.
    Received(Result<T, String>),
}

/// A chat-completion call, ready to be sent.
pub struct ChatCall {
    pub url: String,
    /// The value of the `Authorization` header.
    pub authorization: String,
    pub body: MistralChatRequest,
}

/// A model-catalog call, ready to be sent.
pub struct ModelsCall {
    pub url: String,
    /// The value of the `Authorization` header.
    pub authorization: String,
}

/// The name under which a missing key for `model` is reported.
pub open spec fn missing_key_name(model: Seq<char>) -> Seq<char> {
    "Mistral:"@ + model
}

/// The key used for `model`: its own, else the master key.
pub open spec fn adapter_key(
    master: Option<String>,
    models: Map<Seq<char>, Seq<char>>,
    model: Seq<char>,
) -> Option<Seq<char>> {
    if models.contains_key(model) {
        Some(models[model])
    } else if master is Some {
        Some(master->0@)
    } else {
        None
    }
}

/// The key state of the Mistral adapter: a master key and model-specific
/// overrides.
pub struct MistralClientState {
    master_key: Option<String>,
    model_keys: SecretMap,
}

fn concat(a: &str, b: &str) -> (r: String)
    ensures
        r@ == a@ + b@,
{
    let mut s = String::from_str(a);
    s.append(b);
    s
}

impl MistralClientState {
    pub closed spec fn wf(&self) -> bool {
        self.model_keys.wf()
    }

    /// The master key.
    pub closed spec fn master(&self) -> Option<String> {
        self.master_key
    }

    /// The model-specific keys.
    pub closed spec fn model_keys(&self) -> Map<Seq<char>, Seq<char>> {
        self.model_keys@
    }

    /// A state with `master_key` and no model-specific key.
    pub fn new(master_key: Option<String>) -> (r: Self)
        ensures
            r.wf(),
            r.master() == master_key,
            r.model_keys() == Map::<Seq<char>, Seq<char>>::empty(),
    {
        MistralClientState { master_key, model_keys: SecretMap::new() }
    }

    /// The key for `model`: its own where set, else the master key, else a
    /// `MissingApiKey` error naming the provider and the model.
    pub fn get_api_key(&self, model: &String) -> (r: Result<String, Error>)
        requires
            self.wf(),
        ensures
            adapter_key(self.master(), self.model_keys(), model@) matches Some(k) ==> (r matches Ok(
                v,
            ) && v@ == k),
            adapter_key(self.master(), self.model_keys(), model@) is None ==> (r matches Err(
                Error::MissingApiKey(n),
            ) && n@ == missing_key_name(model@)),
    {
        if let Some(key) = self.model_keys.get(model) {
            return Ok(key.clone());
        }
        if let Some(key) = &self.master_key {
            return Ok(key.clone());
        }
        Err(Error::MissingApiKey(concat("Mistral:", model.as_str())))
    }

    fn set_master_key(&mut self, key: String)
        requires
            old(self).wf(),
        ensures
            final(self).wf(),
            final(self).master() == Some(key),
            final(self).model_keys() == old(self).model_keys(),
    {
        self.master_key = Some(key);
    }

    fn set_model_key(&mut self, model: String, key: String)
        requires
            old(self).wf(),
        ensures
            final(self).wf(),
            final(self).master() == old(self).master(),
            final(self).model_keys() == old(self).model_keys().insert(model@, key@),
    {
        self.model_keys.insert(model, key);
    }

    /// Stores `key` as the master key, or as the key of the model given;
    /// always succeeds.
    pub fn handle_set_api_key(&mut self, model_opt: Option<String>, key: String) -> (r: Result<
        (),
        Error,
    >)
        requires
            old(self).wf(),
        ensures
            final(self).wf(),
            r is Ok,
            model_opt is None ==> final(self).master() == Some(key) && final(self).model_keys()
                == old(self).model_keys(),
            model_opt matches Some(m) ==> final(self).master() == old(self).master()
                && final(self).model_keys() == old(self).model_keys().insert(m@, key@),
    {
        match model_opt {
            Some(model) => self.set_model_key(model, key),
            None => self.set_master_key(key),
        }
        Ok(())
    }

    /// The chat-completion call for `prompt` on `model`: one user message,
    /// 1024 tokens at most, temperature 0.7, no streaming, authorized with the
    /// model's key. Without a key, the `MissingApiKey` error of
    /// [`Self::get_api_key`].
    pub fn prepare_send_prompt(&self, prompt: String, model: String) -> (r: Result<ChatCall, Error>)
        requires
            self.wf(),
        ensures
            adapter_key(self.master(), self.model_keys(), model@) matches Some(k) ==> (r matches Ok(
                c,
            ) && {
                &&& c.url@ == MISTRAL_API_BASE@ + "/chat/completions"@
                &&& c.authorization@ == "Bearer "@ + k
                &&& c.body.model@ == model@
                &&& c.body.messages@.len() == 1
                &&& c.body.messages@[0].role@ == "user"@
                &&& c.body.messages@[0].content@ == prompt@
                &&& c.body.max_tokens == Some(CHAT_MAX_TOKENS)
                &&& c.body.temperature_percent == Some(CHAT_TEMPERATURE_PERCENT)
                &&& c.body.stream == Some(false)
            }),
            adapter_key(self.master(), self.model_keys(), model@) is None ==> (r matches Err(
                Error::MissingApiKey(n),
            ) && n@ == missing_key_name(model@)),
    {
        let api_key = match self.get_api_key(&model) {
            Ok(k) => k,
            Err(e) => return Err(e),
        };
        let message = ChatMessage { role: String::from_str("user"), content: prompt };
        let mut messages: Vec<ChatMessage> = Vec::new();
        messages.push(message);
        let body = MistralChatRequest {
            model,
            messages,
            max_tokens: Some(CHAT_MAX_TOKENS),
            temperature_percent: Some(CHAT_TEMPERATURE_PERCENT),
            stream: Some(false),
        };
        Ok(
            ChatCall {
                url: concat(MISTRAL_API_BASE, "/chat/completions"),
                authorization: concat("Bearer ", api_key.as_str()),
                body,
            },
        )
    }

    /// The model-catalog call, authorized with the master key; a model-specific
    /// key does not serve. Without a master key, `MissingApiKey`.
    pub fn prepare_get_models(&self) -> (r: Result<ModelsCall, Error>)
        requires
            self.wf(),
        ensures
            self.master() matches Some(k) ==> (r matches Ok(c) && {
                &&& c.url@ == MISTRAL_API_BASE@ + "/models"@
                &&& c.authorization@ == "Bearer "@ + k@
            }),
            self.master() is None ==> (r matches Err(Error::MissingApiKey(n)) && n@
                == "Mistral (master)"@),
    {
        match &self.master_key {
            Some(k) => Ok(
                ModelsCall {
                    url: concat(MISTRAL_API_BASE, "/models"),
                    authorization: concat("Bearer ", k.as_str()),
                },
            ),
            None => Err(Error::MissingApiKey(String::from_str("Mistral (master)"))),
        }
    }
}

/// What a chat-completion request yields: a transport failure is an
/// `HttpError`, a failure status an `ApiError` with the body, an undecodable
/// body a `ParseError`, an answer without choices `NoChoicesInResponse`;
/// otherwise the text of the first choice.
pub fn send_prompt_outcome(reply: HttpReply<MistralChatResponse>) -> (r: Result<String, Error>)
    ensures
        reply matches HttpReply::Transport(m) ==> (r matches Err(Error::HttpError(x)) && x@ == m@),
        reply matches HttpReply::Rejected(body) ==> (r matches Err(Error::ApiError(x)) && x@
            == "Mistral error: "@ + (match body {
            Some(b) => b@,
            None => "Unknown error"@,
        })),
        reply matches HttpReply::Received(Err(m)) ==> (r matches Err(Error::ParseError(x)) && x@
            == m@),
        reply matches HttpReply::Received(Ok(resp)) ==> (if resp.choices@.len() == 0 {
            r matches Err(Error::NoChoicesInResponse)
        } else {
            r matches Ok(t) && t@ == resp.choices@[0].message.content@
        }),
{
    match reply {
        HttpReply::Transport(m) => Err(Error::HttpError(m)),
        HttpReply::Rejected(body) => {
            let text = match body {
                Some(b) => b,
                None => String::from_str("Unknown error"),
            };
            Err(Error::ApiError(concat("Mistral error: ", text.as_str())))
        },
        HttpReply::Received(Err(m)) => Err(Error::ParseError(m)),
        HttpReply::Received(Ok(resp)) => {
            if resp.choices.len() == 0 {
                Err(Error::NoChoicesInResponse)
            } else {
                Ok(resp.choices[0].message.content.clone())
            }
        },
    }
}

/// What a model-catalog request yields: failures as for
/// [`send_prompt_outcome`] (a failure status gives the bare body), otherwise
/// the identifiers of the catalog, in order.
pub fn get_models_outcome(reply: HttpReply<MistralModelsResponse>) -> (r: Result<Vec<String>, Error>)
    ensures
        reply matches HttpReply::Transport(m) ==> (r matches Err(Error::HttpError(x)) && x@ == m@),
        reply matches HttpReply::Rejected(body) ==> (r matches Err(Error::ApiError(x)) && x@
            == (match body {
            Some(b) => b@,
            None => "Unknown error"@,
        })),
        reply matches HttpReply::Received(Err(m)) ==> (r matches Err(Error::ParseError(x)) && x@
            == m@),
        reply matches HttpReply::Received(Ok(resp)) ==> (r matches Ok(names) && names@.len()
            == resp.data@.len() && forall|i: int|
            0 <= i < names@.len() ==> #[trigger] names@[i]@ == resp.data@[i].id@),
{
    match reply {
        HttpReply::Transport(m) => Err(Error::HttpError(m)),
        HttpReply::Rejected(body) => {
            let text = match body {
                Some(b) => b,
                None => String::from_str("Unknown error"),
            };
            Err(Error::ApiError(text))
        },
        HttpReply::Received(Err(m)) => Err(Error::ParseError(m)),
        HttpReply::Received(Ok(resp)) => {
            let mut names: Vec<String> = Vec::new();
            let mut i: usize = 0;
            while i < resp.data.len()
                invariant
                    i <= resp.data.len(),
                    names@.len() == i,
                    forall|j: int| 0 <= j < i ==> #[trigger] names@[j]@ == resp.data@[j].id@,
                decreases resp.data.len() - i,
            {
                names.push(resp.data[i].id.clone());
                i = i + 1;
            }
            Ok(names)
        },
    }
}

/// The description of Mistral's default model: "mistral-small-latest",
/// 32000 context tokens, 8000 response tokens, text input only, streaming and
/// tools, $0.14 and $0.42 per million input and output tokens, available.
pub open spec fn is_default_model_info(r: ModelInfo) -> bool {
    &&& r.name@ == "mistral-small-latest"@
    &&& r.max_context_tokens == 32000
    &&& r.max_response_tokens == 8000
    &&& !r.can_save_context
    &&& r.input_modalities.supported@.len() == 1
    &&& r.input_modalities.supported@[0] matches InputModality::Single(BaseModality::Text)
    &&& r.supports_streaming
    &&& r.supports_tools
    &&& r.provider == Provider::MistralAi
    &&& r.default_system_prompt is None
    &&& r.supported_file_extensions is None
    &&& r.cost_per_million_input_tokens == Some(140_000u64)
    &&& r.cost_per_million_output_tokens == Some(420_000u64)
    &&& r.is_available
}

/// Default model info for Mistral.
pub fn default_model_info() -> (r: ModelInfo)
    ensures
        is_default_model_info(r),
{
    let mut supported: Vec<InputModality> = Vec::new();
    supported.push(InputModality::Single(BaseModality::Text));
    ModelInfo {
        name: String::from_str("mistral-small-latest"),
        max_context_tokens: 32000,
        max_response_tokens: 8000,
        can_save_context: false,
        input_modalities: ModelModalities { supported },
        supports_streaming: true,
        supports_tools: true,
        provider: Provider::MistralAi,
        default_system_prompt: None,
        supported_file_extensions: None,
        cost_per_million_input_tokens: Some(140_000),
        cost_per_million_output_tokens: Some(420_000),
        is_available: true,
    }
}

} // verus!
