use sovereign_cli::model_config::{loopback_url, provider_ids, ModelConfig, OllamaConfig};

fn ollama(enabled: bool, base_url: &str, model: &str) -> ModelConfig {
    ModelConfig { ollama: Some(OllamaConfig { enabled, base_url: base_url.to_string(), model: model.to_string() }) }
}

#[test]
fn no_configuration_routes_through_the_stand_ins_only() {
    assert_eq!(provider_ids(&ModelConfig::default()), vec!["local-drafter", "local-drafter-backup"]);
}

#[test]
fn an_enabled_ollama_entry_goes_first_under_its_trimmed_model_name() {
    let ids = provider_ids(&ollama(true, "http://127.0.0.1:1", " qwen2.5:7b "));
    assert_eq!(ids, vec!["ollama:qwen2.5:7b", "local-drafter", "local-drafter-backup"]);
    assert_eq!(provider_ids(&ollama(false, "http://127.0.0.1:1", "x")).len(), 2);
}

#[test]
fn only_loopback_addresses_are_routable() {
    assert!(loopback_url("http://127.0.0.1:11434"));
    assert!(loopback_url("http://127.0.0.1:1"));
    assert!(loopback_url("http://localhost:11434/"));
    assert!(loopback_url("http://[::1]:11434"));
    assert!(!loopback_url("http://10.0.0.9:11434"));
    assert!(!loopback_url("http://127.0.0.10:11434"));
    assert!(!loopback_url("http://localhost.example.com:11434"));
    assert!(!loopback_url("https://example.com"));
}
