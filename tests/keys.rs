use allm::keys::{KeyStore, SecretMap};
use allm::{ApiKeySpec, Provider};

fn spec(provider: Provider, model: &str, key: &str) -> ApiKeySpec {
    ApiKeySpec { provider, model: model.to_string(), key: key.to_string() }
}

#[test]
fn latest_key_wins() {
    let mut store = KeyStore::new();
    store.insert(spec(Provider::MistralAi, "m", "k1"));
    store.insert(spec(Provider::MistralAi, "m", "k2"));
    assert_eq!(store.get(Provider::MistralAi, &"m".to_string()), Some(&"k2".to_string()));
    store.insert(spec(Provider::MistralAi, "m", "k3"));
    assert_eq!(store.get(Provider::MistralAi, &"m".to_string()), Some(&"k3".to_string()));
}

#[test]
fn model_key_and_master_key_are_separate() {
    let mut store = KeyStore::new();
    store.insert(spec(Provider::MistralAi, "", "master"));
    store.insert(spec(Provider::MistralAi, "m", "model"));
    assert_eq!(store.get(Provider::MistralAi, &String::new()), Some(&"master".to_string()));
    store.insert(spec(Provider::MistralAi, "", "master2"));
    assert_eq!(store.get(Provider::MistralAi, &"m".to_string()), Some(&"model".to_string()));
    assert_eq!(store.get(Provider::MistralAi, &String::new()), Some(&"master2".to_string()));
}

#[test]
fn keys_of_other_providers_are_separate() {
    let mut store = KeyStore::new();
    store.insert(spec(Provider::MistralAi, "m", "a"));
    store.insert(spec(Provider::OpenAI, "m", "b"));
    assert_eq!(store.get(Provider::MistralAi, &"m".to_string()), Some(&"a".to_string()));
    assert_eq!(store.get(Provider::OpenAI, &"m".to_string()), Some(&"b".to_string()));
    assert_eq!(store.get(Provider::Google, &"m".to_string()), None);
}

#[test]
fn model_key_shadows_master_key() {
    let mut store = KeyStore::new();
    assert_eq!(store.resolve(Provider::MistralAi, &"m".to_string()), None);
    store.insert(spec(Provider::MistralAi, "", "master"));
    assert_eq!(store.resolve(Provider::MistralAi, &"m".to_string()), Some("master".to_string()));
    store.insert(spec(Provider::MistralAi, "m", "model"));
    assert_eq!(store.resolve(Provider::MistralAi, &"m".to_string()), Some("model".to_string()));
    assert_eq!(store.resolve(Provider::MistralAi, &"other".to_string()), Some("master".to_string()));
}

#[test]
fn credential_of_a_provider() {
    let mut store = KeyStore::new();
    assert!(!store.has_credential(Provider::MistralAi));
    store.insert(spec(Provider::MistralAi, "m", "model"));
    assert!(store.has_credential(Provider::MistralAi));
    assert!(!store.has_credential(Provider::OpenAI));
}

#[test]
fn secret_map_replaces_and_keeps() {
    let mut map = SecretMap::new();
    assert_eq!(map.get(&"a".to_string()), None);
    map.insert("a".to_string(), "1".to_string());
    map.insert("b".to_string(), "2".to_string());
    map.insert("a".to_string(), "3".to_string());
    assert_eq!(map.get(&"a".to_string()), Some(&"3".to_string()));
    assert_eq!(map.get(&"b".to_string()), Some(&"2".to_string()));
}
