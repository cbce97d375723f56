use std::time::Duration;

use rust_core::agent::bridge_client::{
    default_system_prompt, stream_chunks, user_message, BridgeClient, CompactContextResponse,
    TokenUsage, DEFAULT_TIMEOUT_SECS,
};
use rust_core::agent::providers::ProviderConfig;

#[test]
fn default_system_prompt_is_not_empty() {
    let prompt = default_system_prompt();
    assert!(!prompt.is_empty());
    assert!(prompt.contains("Pi Hybrid TUI"));
}

#[test]
fn reconnect_attempts_tracking() {
    let mut client = BridgeClient::connected(None);
    assert_eq!(client.reconnect_attempts(), 0);
    for expected in 1..=3 {
        assert!(client.begin_reconnect().is_ok());
        assert_eq!(client.reconnect_attempts(), expected);
    }
    let err = client.begin_reconnect().unwrap_err();
    assert_eq!(err, "Max reconnection attempts (3) reached");
    assert_eq!(client.reconnect_attempts(), 3);
    client.reset_reconnect_attempts();
    assert_eq!(client.reconnect_attempts(), 0);
}

#[test]
fn compact_context_response_struct() {
    let resp = CompactContextResponse {
        summary: "summary text".into(),
        original_tokens: 1000,
        summary_tokens: 200,
    };
    assert_eq!(resp.original_tokens, 1000);
}

#[test]
fn default_timeout_is_30_seconds() {
    assert_eq!(Duration::from_secs(DEFAULT_TIMEOUT_SECS), Duration::from_secs(30));
}

#[test]
fn token_usage_struct() {
    let usage = TokenUsage { prompt_tokens: 100, completion_tokens: 50, total_tokens: 150 };
    assert_eq!(usage.total_tokens, 150);
}

#[test]
fn calls_refused_when_cancelled_or_disconnected() {
    let mut client = BridgeClient::connected(None);
    assert!(client.check_call().is_ok());
    client.disconnected();
    assert_eq!(client.check_call().unwrap_err(), "Bridge is not connected");
    assert_eq!(client.check_listing().unwrap_err(), "Bridge is not connected");
    client.reconnected();
    client.cancel_requested();
    assert_eq!(client.check_call().unwrap_err(), "Operation cancelled");
    assert!(client.check_listing().is_ok());
}

#[test]
fn provider_prompt_uses_provider_model() {
    let client = BridgeClient::connected(None);
    let p = client.provider_prompt("hi");
    assert_eq!(p.model, "default");
    assert_eq!(p.messages.len(), 1);
    assert_eq!(p.messages[0].role, "user");
    assert_eq!(p.messages[0].content, "hi");
    assert_eq!(p.system.as_deref(), Some(default_system_prompt().as_str()));

    let mut client = BridgeClient::connected(None);
    client.set_provider(ProviderConfig::new("x", "http://x", "X_KEY", "x-model"));
    assert_eq!(client.provider_prompt("hi").model, "x-model");
    assert_eq!(client.provider().unwrap().name, "x");
}

#[test]
fn stream_chunks_end_with_done() {
    let c = stream_chunks(Some("abc".to_string()));
    assert_eq!(c.len(), 2);
    assert_eq!(c[0].text, "abc");
    assert!(!c[0].done);
    assert!(c[1].done);
    assert!(c[1].text.is_empty());
    let c = stream_chunks(None);
    assert_eq!(c.len(), 1);
    assert!(c[0].done);
    let m = user_message("q");
    assert_eq!(m.role, "user");
    assert!(m.tool_calls.is_none());
}
