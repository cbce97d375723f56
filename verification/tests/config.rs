use rust_core::config::{
    builtin_providers, generate_default_toml, DbPathFacts, PathFacts, PiConfig, ProviderConfig,
    ProviderTable,
};
use rust_core::env::EnvVars;

fn config_with_defaults() -> PiConfig {
    let mut cfg = PiConfig::defaults(&EnvVars::empty(), false);
    let mut providers = ProviderTable::new();
    providers.insert(
        "deepseek".to_string(),
        ProviderConfig::new("DeepSeek", "https://api.deepseek.com/v1", Some("none"), "deepseek-chat"),
    );
    providers.insert(
        "glm".to_string(),
        ProviderConfig::new("GLM", "https://open.bigmodel.cn/api/paas/v4", Some("none"), "glm-4-flash"),
    );
    cfg.providers = providers;
    cfg
}

fn no_facts() -> DbPathFacts {
    DbPathFacts { parent: None, grandparent: None }
}

#[test]
fn default_config_has_builtin_providers() {
    let cfg = PiConfig::defaults(&EnvVars::empty(), false);
    assert_eq!(cfg.provider, "deepseek");
    assert!(cfg.providers.contains_key("deepseek"));
    assert!(cfg.providers.contains_key("glm"));
    assert!(cfg.providers.contains_key("ollama"));
    assert_eq!(cfg.agent.max_turns, 50);
    assert_eq!(cfg.agent.default_model, "deepseek-chat");
}

#[test]
fn builtin_providers_have_correct_entries() {
    let providers = builtin_providers();
    let ds = providers.get("deepseek").unwrap();
    assert_eq!(ds.name, "DeepSeek");
    assert_eq!(ds.api_base, "https://api.deepseek.com/v1");
    assert_eq!(ds.api_key_env.as_deref(), Some("PI_DEEPSEEK_API_KEY"));

    let glm = providers.get("glm").unwrap();
    assert_eq!(glm.name, "GLM (ZhipuAI)");
    assert_eq!(glm.default_model, "glm-4-flash");

    let ollama = providers.get("ollama").unwrap();
    assert_eq!(ollama.api_key_env.as_deref(), Some("none"));
    assert_eq!(ollama.default_model, "qwen2.5-coder:7b");
}

#[test]
fn no_warnings_when_bridge_is_none() {
    let mut cfg = config_with_defaults();
    cfg.bridge.ts_bridge_path = "none".to_string();
    let warnings = cfg.warnings(false);
    assert!(warnings.is_empty());
}

#[test]
fn no_warnings_when_bridge_is_empty() {
    let cfg = config_with_defaults();
    let warnings = cfg.warnings(false);
    assert!(warnings.is_empty());
}

#[test]
fn warnings_for_missing_bridge_path() {
    let mut cfg = config_with_defaults();
    cfg.bridge.ts_bridge_path = "/nonexistent/bridge".to_string();
    let warnings = cfg.warnings(false);
    assert!(!warnings.is_empty());
    assert!(warnings[0].contains("/nonexistent/bridge"));
}

#[test]
fn validate_rejects_unknown_provider() {
    let mut cfg = config_with_defaults();
    cfg.provider = "nonexistent".to_string();
    let result = cfg.validate(&EnvVars::empty(), &no_facts());
    assert!(result.is_err());
    let err = result.unwrap_err().message();
    assert!(err.contains("nonexistent"));
}

#[test]
fn validate_accepts_known_provider() {
    let cfg = config_with_defaults();
    assert!(cfg.validate(&EnvVars::empty(), &no_facts()).is_ok());
}

#[test]
fn validate_empty_provider_is_ok() {
    let mut cfg = config_with_defaults();
    cfg.provider = String::new();
    assert!(cfg.validate(&EnvVars::empty(), &no_facts()).is_ok());
}

#[test]
fn validate_rejects_provider_with_unset_env_var() {
    let mut cfg = config_with_defaults();
    cfg.providers.insert(
        "deepseek".to_string(),
        ProviderConfig::new("DeepSeek", "https://x", Some("PI_UNSET_VAR_XYZ"), "m"),
    );
    let err = cfg.validate(&EnvVars::empty(), &no_facts()).unwrap_err();
    assert_eq!(
        err.errors,
        vec!["provider 'deepseek': api_key_env 'PI_UNSET_VAR_XYZ' is not set in environment".to_string()]
    );
    let mut env = EnvVars::empty();
    env.set("PI_UNSET_VAR_XYZ", "v");
    assert!(cfg.validate(&env, &no_facts()).is_ok());
}

#[test]
fn validate_rejects_max_turns_bounds() {
    let mut cfg = config_with_defaults();
    cfg.agent.max_turns = 0;
    let err = cfg.validate(&EnvVars::empty(), &no_facts()).unwrap_err();
    assert_eq!(err.errors, vec!["agent.max_turns must be > 0".to_string()]);
    cfg.agent.max_turns = 501;
    let err = cfg.validate(&EnvVars::empty(), &no_facts()).unwrap_err();
    assert_eq!(err.errors, vec!["agent.max_turns is 501 but must be <= 500".to_string()]);
    cfg.agent.max_turns = 500;
    assert!(cfg.validate(&EnvVars::empty(), &no_facts()).is_ok());
}

#[test]
fn validate_collects_all_errors() {
    let mut cfg = config_with_defaults();
    cfg.provider = "nope".to_string();
    cfg.agent.max_turns = 0;
    cfg.agent.default_model = String::new();
    cfg.providers.insert("x".to_string(), ProviderConfig::new("X", "b", None, "m"));
    let err = cfg.validate(&EnvVars::empty(), &no_facts()).unwrap_err();
    assert_eq!(err.errors.len(), 4);
    assert_eq!(
        err.message(),
        "Configuration validation failed:\n  - provider 'nope' is not defined in [providers]\n  - provider 'x': api_key_env is not set\n  - agent.max_turns must be > 0\n  - agent.default_model must not be empty"
    );
}

#[test]
fn validate_db_parent_facts() {
    let cfg = config_with_defaults();
    let facts = DbPathFacts {
        parent: Some(PathFacts {
            display: "/tmp/file".to_string(),
            exists: true,
            is_dir: false,
            readonly: Ok(false),
        }),
        grandparent: None,
    };
    let err = cfg.validate(&EnvVars::empty(), &facts).unwrap_err();
    assert_eq!(err.errors, vec!["session.db_path parent '/tmp/file' is not a directory".to_string()]);
}

#[test]
fn env_overrides_apply() {
    let mut cfg = PiConfig::defaults(&EnvVars::empty(), true);
    assert_eq!(cfg.logging.level, "debug");
    let mut env = EnvVars::empty();
    env.set("PI_PROVIDER", "glm");
    env.set("PI_MAX_TURNS", "42");
    env.set("PI_LOG_LEVEL", "warn");
    env.set("PI_SESSION_DB", "/tmp/s.db");
    env.set("PI_DEEPSEEK_API_KEY", "sk-1");
    env.set("OLLAMA_HOST", "10.0.0.1:11434");
    cfg.apply_env_overrides(&env);
    assert_eq!(cfg.provider, "glm");
    assert_eq!(cfg.agent.max_turns, 42);
    assert_eq!(cfg.logging.level, "warn");
    assert_eq!(cfg.session.db_path, "/tmp/s.db");
    assert_eq!(cfg.providers.get("deepseek").unwrap().api_key(&env), Some("sk-1".to_string()));
    assert_eq!(cfg.providers.get("ollama").unwrap().api_base, "http://10.0.0.1:11434/v1");
    let mut bad = EnvVars::empty();
    bad.set("PI_MAX_TURNS", "many");
    cfg.apply_env_overrides(&bad);
    assert_eq!(cfg.agent.max_turns, 42);
}

#[test]
fn defaults_use_home_and_agent_config() {
    let mut env = EnvVars::empty();
    env.set("HOME", "/home/u");
    let cfg = PiConfig::defaults(&env, false);
    assert_eq!(cfg.session.db_path, "/home/u/.pi-hybrid/sessions.db");
    assert_eq!(cfg.logging.level, "info");
    env.set("PI_BRIDGE_COMMAND", "node bridge.js");
    let ac = cfg.to_agent_config(&env);
    assert_eq!(ac.bridge_command, "node bridge.js");
    assert_eq!(ac.context_window_tokens, 200_000);
    assert_eq!(ac.max_subagents, 8);
    assert!(generate_default_toml().contains("[providers.ollama]"));
}

#[test]
fn merge_file_overrides_defaults() {
    let mut cfg = PiConfig::defaults(&EnvVars::empty(), false);
    let mut file = PiConfig::defaults(&EnvVars::empty(), false);
    file.provider = "glm".to_string();
    file.agent.max_turns = 0;
    file.agent.default_model = "custom".to_string();
    let mut fp = ProviderTable::new();
    fp.insert("custom".to_string(), ProviderConfig::new("C", "http://c", Some("none"), "cm"));
    file.providers = fp;
    cfg.merge_file(file);
    assert_eq!(cfg.provider, "glm");
    assert_eq!(cfg.agent.max_turns, 50);
    assert_eq!(cfg.agent.default_model, "custom");
    assert!(cfg.providers.contains_key("custom"));
    assert!(cfg.providers.contains_key("deepseek"));
    assert_eq!(cfg.providers.len(), 4);
}

#[test]
fn provider_config_api_key_resolution() {
    let mut env = EnvVars::empty();
    env.set("PI_TEST_FROM_ENV", "env-key");
    let mut provider = ProviderConfig::new("Test", "http://localhost", Some("PI_TEST_FROM_ENV"), "test");
    assert_eq!(provider.api_key_resolved(&env), Some("env-key".to_string()));
    provider.set_api_key("override-key".to_string());
    assert_eq!(provider.api_key_resolved(&env), Some("override-key".to_string()));
    let p2 = ProviderConfig::new("Test", "http://localhost", Some("PI_NONEXISTENT_VAR_AAAA"), "test");
    assert_eq!(p2.api_key_resolved(&EnvVars::empty()), None);
}
