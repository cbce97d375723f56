use rust_core::config::{DbPathFacts, PathFacts, PiConfig, ProviderConfig, ProviderTable};
use rust_core::env::EnvVars;

fn config_with_defaults() -> PiConfig {
    let mut cfg = PiConfig::defaults(&EnvVars::empty(), false);
    let mut providers = ProviderTable::new();
    providers.insert(
        "deepseek".to_string(),
        ProviderConfig::new("DeepSeek", "https://api.deepseek.com/v1", Some("none"), "deepseek-chat"),
    );
    providers.insert(
        "glm".to_string(),
        ProviderConfig::new("GLM", "https://open.bigmodel.cn/api/paas/v4", Some("none"), "glm-4-flash"),
    );
    cfg.providers = providers;
    cfg
}

fn none() -> DbPathFacts {
    DbPathFacts { parent: None, grandparent: None }
}

fn dir_facts(display: &str) -> PathFacts {
    PathFacts { display: display.to_string(), exists: true, is_dir: true, readonly: Ok(false) }
}

fn check(cfg: &PiConfig) -> Result<(), String> {
    cfg.validate(&EnvVars::empty(), &none()).map_err(|e| e.message())
}

#[test]
fn validate_rejects_provider_missing_api_key_env() {
    let mut cfg = config_with_defaults();
    let mut providers = ProviderTable::new();
    providers.insert("test".to_string(), ProviderConfig::new("Test", "http://localhost", None, "test-model"));
    cfg.providers = providers;
    let err = check(&cfg).unwrap_err();
    assert!(err.contains("test") && err.contains("api_key_env"));
}

#[test]
fn validate_accepts_provider_with_none_key() {
    let mut cfg = config_with_defaults();
    cfg.provider = "local".to_string();
    let mut providers = ProviderTable::new();
    providers.insert("local".to_string(), ProviderConfig::new("Local", "http://localhost:8080", Some("none"), "llama3"));
    cfg.providers = providers;
    assert!(check(&cfg).is_ok());
}

#[test]
fn validate_accepts_provider_with_set_env_var() {
    let mut env = EnvVars::empty();
    env.set("PI_TEST_KEY_TMP", "test-value");
    let mut cfg = config_with_defaults();
    cfg.provider = "test".to_string();
    let mut providers = ProviderTable::new();
    providers.insert("test".to_string(), ProviderConfig::new("Test", "http://localhost", Some("PI_TEST_KEY_TMP"), "test-model"));
    cfg.providers = providers;
    assert!(cfg.validate(&env, &none()).is_ok());
}

#[test]
fn validate_session_db_path_writable_parent() {
    let mut cfg = config_with_defaults();
    cfg.session.db_path = "/tmp/dir/sessions.db".to_string();
    let facts = DbPathFacts { parent: Some(dir_facts("/tmp/dir")), grandparent: None };
    assert!(cfg.validate(&EnvVars::empty(), &facts).is_ok());
}

#[test]
fn validate_session_db_path_parent_not_directory() {
    let mut cfg = config_with_defaults();
    cfg.session.db_path = "/tmp/somefile.txt/sessions.db".to_string();
    let facts = DbPathFacts {
        parent: Some(PathFacts {
            display: "/tmp/somefile.txt".to_string(),
            exists: true,
            is_dir: false,
            readonly: Ok(false),
        }),
        grandparent: None,
    };
    let err = cfg.validate(&EnvVars::empty(), &facts).unwrap_err().message();
    assert!(err.contains("not a directory"));
}

#[test]
fn validate_session_db_path_empty_is_ok() {
    let mut cfg = config_with_defaults();
    cfg.session.db_path = String::new();
    assert!(check(&cfg).is_ok());
}

#[test]
fn validate_rejects_max_turns_zero() {
    let mut cfg = config_with_defaults();
    cfg.agent.max_turns = 0;
    assert!(check(&cfg).unwrap_err().contains("max_turns"));
}

#[test]
fn validate_rejects_max_turns_over_500() {
    let mut cfg = config_with_defaults();
    cfg.agent.max_turns = 501;
    assert!(check(&cfg).unwrap_err().contains("500"));
}

#[test]
fn validate_accepts_max_turns_500() {
    let mut cfg = config_with_defaults();
    cfg.agent.max_turns = 500;
    assert!(check(&cfg).is_ok());
}

#[test]
fn validate_accepts_max_turns_1() {
    let mut cfg = config_with_defaults();
    cfg.agent.max_turns = 1;
    assert!(check(&cfg).is_ok());
}

#[test]
fn validate_rejects_empty_default_model() {
    let mut cfg = config_with_defaults();
    cfg.agent.default_model = String::new();
    assert!(check(&cfg).unwrap_err().contains("default_model"));
}

#[test]
fn validate_accepts_non_empty_default_model() {
    let mut cfg = config_with_defaults();
    cfg.agent.default_model = "gpt-4".to_string();
    assert!(check(&cfg).is_ok());
}

fn overridden(name: &str, value: &str) -> PiConfig {
    let mut env = EnvVars::empty();
    env.set(name, value);
    let mut cfg = config_with_defaults();
    cfg.apply_env_overrides(&env);
    cfg
}

#[test]
fn env_override_provider() {
    assert_eq!(overridden("PI_PROVIDER", "glm").provider, "glm");
}

#[test]
fn env_override_max_turns() {
    assert_eq!(overridden("PI_MAX_TURNS", "42").agent.max_turns, 42);
}

#[test]
fn env_override_max_turns_invalid_ignored() {
    assert_eq!(overridden("PI_MAX_TURNS", "not-a-number").agent.max_turns, 50);
}

#[test]
fn env_override_log_level() {
    assert_eq!(overridden("PI_LOG_LEVEL", "trace").logging.level, "trace");
}

#[test]
fn env_override_session_db() {
    assert_eq!(overridden("PI_SESSION_DB", "/tmp/test-sessions.db").session.db_path, "/tmp/test-sessions.db");
}

#[test]
fn env_override_deepseek_key() {
    let cfg = overridden("PI_DEEPSEEK_API_KEY", "sk-test-123");
    let ds = cfg.providers.get("deepseek").unwrap();
    assert_eq!(ds.api_key_resolved(&EnvVars::empty()), Some("sk-test-123".to_string()));
}

#[test]
fn env_override_glm_key() {
    let cfg = overridden("PI_GLM_API_KEY", "glm-test-456");
    let glm = cfg.providers.get("glm").unwrap();
    assert_eq!(glm.api_key_resolved(&EnvVars::empty()), Some("glm-test-456".to_string()));
}

#[test]
fn to_agent_config_derives_correctly() {
    let mut cfg = config_with_defaults();
    cfg.agent.default_model = "test-model".to_string();
    cfg.agent.max_turns = 30;
    cfg.session.db_path = "/tmp/test.db".to_string();
    let agent_cfg = cfg.to_agent_config(&EnvVars::empty());
    assert_eq!(agent_cfg.model, "test-model");
    assert_eq!(agent_cfg.max_turns, 30);
    assert_eq!(agent_cfg.db_path, "/tmp/test.db");
    assert_eq!(agent_cfg.context_window_tokens, 200_000);
    assert_eq!(agent_cfg.max_subagents, 8);
}

#[test]
fn provider_config_api_key_resolved_from_env() {
    let mut env = EnvVars::empty();
    env.set("PI_TEST_FROM_ENV", "env-key");
    let provider = ProviderConfig::new("Test", "http://localhost", Some("PI_TEST_FROM_ENV"), "test");
    assert_eq!(provider.api_key_resolved(&env), Some("env-key".to_string()));
}

#[test]
fn provider_config_api_key_resolved_from_override() {
    let mut provider = ProviderConfig::new("Test", "http://localhost", Some("PI_NONEXISTENT_OVERRIDE"), "test");
    provider.set_api_key("override-key".to_string());
    assert_eq!(provider.api_key_resolved(&EnvVars::empty()), Some("override-key".to_string()));
}

#[test]
fn provider_config_api_key_none_when_not_set() {
    let provider = ProviderConfig::new("Test", "http://localhost", Some("PI_NONEXISTENT_VAR_AAAA"), "test");
    assert_eq!(provider.api_key_resolved(&EnvVars::empty()), None);
}
