use allm::client::{merge_model_lists, AllmBackendState, BackendAction, HandlerCommand};
use allm::error::Error;
use allm::{ApiKeySpec, Provider};

fn send(state: &mut AllmBackendState, model: &str, reply_id: usize) -> BackendAction {
    state.handle(HandlerCommand::SendPrompt {
        prompt: "What is 2+2?".to_string(),
        model: model.to_string(),
        reply_id,
    })
}

fn expect_forward(act: BackendAction) -> (Provider, String, String, usize, u64) {
    match act {
        BackendAction::Forward { provider, prompt, model, reply_id, delay_ms } => {
            (provider, prompt, model, reply_id, delay_ms)
        }
        _ => panic!("expected a forward"),
    }
}

fn expect_reply(act: BackendAction) -> (usize, Result<String, Error>) {
    match act {
        BackendAction::ReplyPrompt { reply_id, result } => (reply_id, result),
        _ => panic!("expected a reply"),
    }
}

#[test]
fn backend_state_defaults() {
    let state = AllmBackendState::new(None);
    assert_eq!(state.current_model.0, Provider::MistralAi);
    assert_eq!(state.current_model.1.name, "mistral-small-latest");
    assert_eq!(state.adapters, vec![Provider::MistralAi]);
    assert!(state.running);
    assert_eq!(state.fallback_preferences.providers.len(), 0);
    assert!(!state.api_keys.has_credential(Provider::MistralAi));
    assert_eq!(state.current_model.1.max_context_tokens, 32000);
    let keyed = AllmBackendState::new(Some("k".to_string()));
    assert!(!keyed.api_keys.has_credential(Provider::MistralAi));
}

#[test]
fn unregistered_provider_is_not_implemented() {
    let mut state = AllmBackendState::new(Some("k".to_string()));
    state.current_model.0 = Provider::OpenAI;
    let (id, result) = expect_reply(send(&mut state, "gpt-4", 3));
    assert_eq!(id, 3);
    assert_eq!(result, Err(Error::ProviderNotImplemented("OpenAI".to_string())));
}

#[test]
fn prompt_without_key_goes_to_the_adapter() {
    let mut state = AllmBackendState::new(None);
    let (provider, _, model, id, _) = expect_forward(send(&mut state, "mistral-small", 1));
    assert_eq!(provider, Provider::MistralAi);
    assert_eq!(model, "mistral-small");
    assert_eq!(id, 1);
    let missing = Error::MissingApiKey("Mistral:mistral-small".to_string());
    let (id, result) = expect_reply(state.prompt_result(1, Err(missing.clone())));
    assert_eq!(id, 1);
    assert_eq!(result, Err(missing));
}

#[test]
fn prompt_is_forwarded_and_answered() {
    let mut state = AllmBackendState::new(Some("k".to_string()));
    let (provider, prompt, model, id, delay) = expect_forward(send(&mut state, "mistral-small", 9));
    assert_eq!(provider, Provider::MistralAi);
    assert_eq!(prompt, "What is 2+2?");
    assert_eq!(model, "mistral-small");
    assert_eq!(id, 9);
    assert_eq!(delay, 0);
    let (id, result) = expect_reply(state.prompt_result(9, Ok("4".to_string())));
    assert_eq!(id, 9);
    assert_eq!(result, Ok("4".to_string()));
    assert!(matches!(state.prompt_result(9, Ok("again".to_string())), BackendAction::Discard));
}

#[test]
fn set_api_keys_stores_and_passes_keys_on() {
    let mut state = AllmBackendState::new(None);
    let keys = vec![
        ApiKeySpec { provider: Provider::MistralAi, model: "mistral-small".to_string(), key: "a".to_string() },
        ApiKeySpec { provider: Provider::MistralAi, model: "mistral-small".to_string(), key: "b".to_string() },
    ];
    match state.handle(HandlerCommand::SetApiKeys(keys)) {
        BackendAction::StoreKeys(v) => assert_eq!(v.len(), 2),
        _ => panic!("expected the keys back"),
    }
    assert_eq!(
        state.api_keys.resolve(Provider::MistralAi, &"mistral-small".to_string()),
        Some("b".to_string())
    );
    assert!(matches!(expect_forward(send(&mut state, "mistral-small", 2)).0, Provider::MistralAi));
}

#[test]
fn model_lists_do_not_wait_for_a_prompt_in_flight() {
    let mut state = AllmBackendState::new(Some("k".to_string()));
    expect_forward(send(&mut state, "mistral-small", 1));
    for _ in 0..2 {
        match state.handle(HandlerCommand::GetModelLists) {
            BackendAction::CollectModels(v) => assert_eq!(v, vec![Provider::MistralAi]),
            _ => panic!("expected a model listing"),
        }
    }
    let (id, result) = expect_reply(state.prompt_result(1, Ok("done".to_string())));
    assert_eq!(id, 1);
    assert_eq!(result, Ok("done".to_string()));
}

#[test]
fn model_lists_ask_every_adapter() {
    let mut state = AllmBackendState::new(None);
    state.register_adapter(Provider::Groq);
    match state.handle(HandlerCommand::GetModelLists) {
        BackendAction::CollectModels(v) => assert_eq!(v, vec![Provider::MistralAi, Provider::Groq]),
        _ => panic!("expected a model listing"),
    }
}

#[test]
fn retryable_failure_fails_over_to_the_next_preference() {
    let mut state = AllmBackendState::new(None);
    state.register_adapter(Provider::OpenAI);
    let keys = vec![
        ApiKeySpec { provider: Provider::MistralAi, model: String::new(), key: "a".to_string() },
        ApiKeySpec { provider: Provider::OpenAI, model: String::new(), key: "b".to_string() },
    ];
    state.handle(HandlerCommand::SetApiKeys(keys));
    let prefs = vec![(Provider::MistralAi, "m1".to_string()), (Provider::OpenAI, "m2".to_string())];
    assert!(matches!(
        state.handle(HandlerCommand::SetModelFallbackPreference(prefs)),
        BackendAction::Acknowledge
    ));
    let (provider, _, model, _, _) = expect_forward(send(&mut state, "m1", 5));
    assert_eq!((provider, model.as_str()), (Provider::MistralAi, "m1"));
    let (provider, prompt, model, id, delay) =
        expect_forward(state.prompt_result(5, Err(Error::RateLimitExceeded)));
    assert_eq!(provider, Provider::OpenAI);
    assert_eq!(model, "m2");
    assert_eq!(prompt, "What is 2+2?");
    assert_eq!(id, 5);
    assert_eq!(delay, 100);
    let (id, result) = expect_reply(state.prompt_result(5, Ok("4".to_string())));
    assert_eq!(id, 5);
    assert_eq!(result, Ok("4".to_string()));
}

#[test]
fn failure_on_the_last_preference_reaches_the_caller() {
    let mut state = AllmBackendState::new(Some("a".to_string()));
    state.register_adapter(Provider::OpenAI);
    state.handle(HandlerCommand::SetApiKeys(vec![ApiKeySpec {
        provider: Provider::OpenAI,
        model: String::new(),
        key: "b".to_string(),
    }]));
    let prefs = vec![(Provider::MistralAi, "m1".to_string()), (Provider::OpenAI, "m2".to_string())];
    state.handle(HandlerCommand::SetModelFallbackPreference(prefs));
    expect_forward(send(&mut state, "m1", 5));
    expect_forward(state.prompt_result(5, Err(Error::Timeout)));
    let (id, result) = expect_reply(state.prompt_result(5, Err(Error::HttpError("down".to_string()))));
    assert_eq!(id, 5);
    assert_eq!(result, Err(Error::HttpError("down".to_string())));
    // the next call starts again from the first candidate
    expect_forward(send(&mut state, "m1", 6));
    let (provider, ..) = expect_forward(state.prompt_result(6, Err(Error::Timeout)));
    assert_eq!(provider, Provider::OpenAI);
}

#[test]
fn non_retryable_failure_reaches_the_caller_at_once() {
    let mut state = AllmBackendState::new(Some("a".to_string()));
    state.register_adapter(Provider::OpenAI);
    let prefs = vec![(Provider::MistralAi, "m1".to_string()), (Provider::OpenAI, "m2".to_string())];
    state.handle(HandlerCommand::SetModelFallbackPreference(prefs));
    expect_forward(send(&mut state, "m1", 5));
    let (_, result) = expect_reply(state.prompt_result(5, Err(Error::ParseError("x".to_string()))));
    assert_eq!(result, Err(Error::ParseError("x".to_string())));
}

#[test]
fn failover_to_a_candidate_without_adapter() {
    let mut state = AllmBackendState::new(Some("a".to_string()));
    let prefs = vec![(Provider::MistralAi, "m1".to_string()), (Provider::Groq, "g".to_string())];
    state.handle(HandlerCommand::SetModelFallbackPreference(prefs));
    expect_forward(send(&mut state, "m1", 1));
    let (_, result) = expect_reply(state.prompt_result(1, Err(Error::RateLimitExceeded)));
    assert_eq!(result, Err(Error::ProviderNotImplemented("Groq".to_string())));

    state.register_adapter(Provider::Groq);
    expect_forward(send(&mut state, "m1", 2));
    let (provider, _, model, _, _) = expect_forward(state.prompt_result(2, Err(Error::RateLimitExceeded)));
    assert_eq!((provider, model.as_str()), (Provider::Groq, "g"));
}

#[test]
fn commands_after_shutdown_are_discarded() {
    let mut state = AllmBackendState::new(Some("k".to_string()));
    assert!(matches!(state.handle(HandlerCommand::Shutdown), BackendAction::Stop));
    assert!(!state.running);
    assert!(matches!(send(&mut state, "mistral-small", 1), BackendAction::Discard));
    assert!(matches!(state.handle(HandlerCommand::GetModelLists), BackendAction::Discard));
    assert!(matches!(state.prompt_result(1, Ok("x".to_string())), BackendAction::Discard));
}

#[test]
fn prompt_in_flight_at_shutdown_is_discarded() {
    let mut state = AllmBackendState::new(Some("k".to_string()));
    expect_forward(send(&mut state, "mistral-small", 1));
    state.handle(HandlerCommand::Shutdown);
    assert!(matches!(state.prompt_result(1, Ok("x".to_string())), BackendAction::Discard));
}

#[test]
fn merged_model_lists() {
    let merged = merge_model_lists(vec![
        (Provider::MistralAi, Ok(vec!["a".to_string(), "b".to_string()])),
        (Provider::OpenAI, Err(Error::MissingApiKey("OpenAI".to_string()))),
        (Provider::Groq, Ok(vec!["c".to_string()])),
    ]);
    assert_eq!(
        merged,
        Ok(vec![
            (Provider::MistralAi, "a".to_string()),
            (Provider::MistralAi, "b".to_string()),
            (Provider::Groq, "c".to_string()),
        ])
    );
    let failed = merge_model_lists(vec![
        (Provider::MistralAi, Ok(vec!["a".to_string()])),
        (Provider::OpenAI, Err(Error::Timeout)),
        (Provider::Groq, Err(Error::HttpError("x".to_string()))),
    ]);
    assert_eq!(failed, Err(Error::Timeout));
    assert_eq!(merge_model_lists(vec![]), Ok(vec![]));
}

#[test]
fn keys_across_several_calls() {
    let mut state = AllmBackendState::new(None);
    let key = |model: &str, key: &str| ApiKeySpec {
        provider: Provider::MistralAi,
        model: model.to_string(),
        key: key.to_string(),
    };
    state.handle(HandlerCommand::SetApiKeys(vec![key("", "master1"), key("m", "model1")]));
    state.handle(HandlerCommand::SetApiKeys(vec![key("m", "model2")]));
    state.handle(HandlerCommand::SetApiKeys(vec![key("", "master2")]));
    assert_eq!(state.api_keys.get(Provider::MistralAi, &"m".to_string()), Some(&"model2".to_string()));
    assert_eq!(state.api_keys.get(Provider::MistralAi, &String::new()), Some(&"master2".to_string()));
    assert_eq!(state.api_keys.resolve(Provider::MistralAi, &"m".to_string()), Some("model2".to_string()));
    assert_eq!(state.api_keys.resolve(Provider::MistralAi, &"x".to_string()), Some("master2".to_string()));
}
