use rust_core::agent::providers::{deepseek_config, ProviderConfig, ProviderRegistry, RegistryError};
use rust_core::env::EnvVars;

#[test]
fn builtin_providers_configured() {
    let registry = ProviderRegistry::with_builtins();

    let deepseek = registry.get("deepseek").unwrap();
    assert_eq!(deepseek.name, "deepseek");
    assert_eq!(deepseek.api_base, "https://api.deepseek.com/v1");
    assert_eq!(deepseek.api_key_env, "DEEPSEEK_API_KEY");
    assert_eq!(deepseek.default_model, "deepseek-chat");

    let glm = registry.get("glm").unwrap();
    assert_eq!(glm.name, "glm");
    assert_eq!(glm.api_base, "https://open.bigmodel.cn/api/paas/v4");
    assert_eq!(glm.api_key_env, "GLM_API_KEY");
    assert_eq!(glm.default_model, "glm-4-flash");

    assert_eq!(registry.len(), 2);
}

#[test]
fn custom_provider_registration() {
    let mut registry = ProviderRegistry::new();
    registry.register(ProviderConfig::new(
        "my-llm",
        "https://my-llm.example.com/v1",
        "MY_LLM_KEY",
        "my-model-v1",
    ));

    assert_eq!(registry.len(), 1);
    assert!(registry.get("my-llm").is_some());
    assert_eq!(registry.active_provider_name(), Some("my-llm"));
}

#[test]
fn provider_resolution_and_switching() {
    let mut registry = ProviderRegistry::with_builtins();

    assert_eq!(registry.active_provider_name(), Some("deepseek"));

    registry.set_active("glm").unwrap();
    assert_eq!(registry.active_provider_name(), Some("glm"));

    let provider = registry.resolve(Some("deepseek")).unwrap();
    assert_eq!(provider.name, "deepseek");

    let provider = registry.resolve(None).unwrap();
    assert_eq!(provider.name, "glm");

    assert!(registry.get("unknown").is_none());
    assert!(registry.set_active("unknown").is_err());
}

#[test]
fn api_key_detection() {
    let config = ProviderConfig::new("test", "https://test.com", "TEST_KEY", "test-model");
    let mut env = EnvVars::empty();
    assert!(!config.is_configured(&env));

    env.set("TEST_KEY", "sk-test-123");
    assert!(config.is_configured(&env));
    assert_eq!(config.api_key(&env), Some("sk-test-123".to_string()));
}

#[test]
fn unregister_provider_falls_back() {
    let mut registry = ProviderRegistry::with_builtins();
    assert_eq!(registry.active_provider_name(), Some("deepseek"));

    let removed = registry.unregister("deepseek");
    assert!(removed.is_some());
    assert_eq!(registry.active_provider_name(), Some("glm"));
    assert_eq!(registry.len(), 1);
}

#[test]
fn unregister_last_provider_leaves_none_active() {
    let mut registry = ProviderRegistry::with_builtins();
    assert!(registry.unregister("glm").is_some());
    assert_eq!(registry.active_provider_name(), Some("deepseek"));
    assert!(registry.unregister("deepseek").is_some());
    assert_eq!(registry.active_provider_name(), None);
    assert!(registry.is_empty());
    assert!(registry.unregister("deepseek").is_none());
}

#[test]
fn list_is_ordered_by_name() {
    let mut registry = ProviderRegistry::with_builtins();
    registry.add_custom("anthropic", "https://a.example/v1", "A_KEY", "a-model");
    registry.add_custom("zeta", "https://z.example/v1", "Z_KEY", "z-model");
    assert_eq!(registry.list_names(), vec!["anthropic", "deepseek", "glm", "zeta"]);
    let names: Vec<&str> = registry.list().iter().map(|p| p.name.as_str()).collect();
    assert_eq!(names, vec!["anthropic", "deepseek", "glm", "zeta"]);
    assert_eq!(registry.active_provider_name(), Some("deepseek"));
}

#[test]
fn register_replaces_same_name() {
    let mut registry = ProviderRegistry::with_builtins();
    registry.register(ProviderConfig::new("glm", "https://other/v1", "OTHER", "m"));
    assert_eq!(registry.len(), 2);
    assert_eq!(registry.get("glm").unwrap().api_base, "https://other/v1");
}

#[test]
fn set_active_error_message() {
    let mut registry = ProviderRegistry::with_builtins();
    let err = registry.set_active("nope").unwrap_err();
    let RegistryError::ProviderNotFound(name) = &err;
    assert_eq!(name, "nope");
    assert_eq!(err.message(), "Provider 'nope' not found in registry");
    assert_eq!(registry.active_provider_name(), Some("deepseek"));
}

#[test]
fn registry_is_configured_reads_env() {
    let registry = ProviderRegistry::with_builtins();
    let mut env = EnvVars::empty();
    assert!(!registry.is_configured("deepseek", &env));
    env.set("DEEPSEEK_API_KEY", "k");
    assert!(registry.is_configured("deepseek", &env));
    assert!(!registry.is_configured("missing", &env));
    assert_eq!(deepseek_config().description, "DeepSeek API — code generation and reasoning model");
}

#[test]
fn resolving_an_unknown_name_falls_back_to_the_active_provider() {
    let mut registry = ProviderRegistry::with_builtins();
    registry.set_active("glm").unwrap();
    assert_eq!(registry.resolve(Some("unknown")).unwrap().name, "glm");
    let empty = ProviderRegistry::new();
    assert!(empty.resolve(Some("deepseek")).is_none());
    assert!(empty.resolve(None).is_none());
}
