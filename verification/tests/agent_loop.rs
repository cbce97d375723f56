use rust_core::agent::agent_loop::{
    tool_call_candidates, AgentLoop, Conversation, ToolResult, TurnResult,
};

#[test]
fn new_conversation_starts_empty() {
    let conv = Conversation::new(Some("You are helpful.".to_string()), 10);
    assert_eq!(conv.system_prompt.as_deref(), Some("You are helpful."));
    assert!(conv.messages.is_empty());
    assert_eq!(conv.turn_count(), 0);
}

#[test]
fn turn_count_increments_with_user_messages() {
    let mut conv = Conversation::new(None, 10);
    conv.add_user_message("hello".to_string());
    assert_eq!(conv.turn_count(), 1);
    conv.add_assistant_message("hi".to_string(), None);
    assert_eq!(conv.turn_count(), 1);
    conv.add_user_message("how are you".to_string());
    assert_eq!(conv.turn_count(), 2);
}

#[test]
fn max_turns_detected() {
    let mut conv = Conversation::new(None, 2);
    conv.add_user_message("turn 1".to_string());
    assert!(!conv.at_max_turns());
    conv.add_user_message("turn 2".to_string());
    assert!(conv.at_max_turns());
}

#[test]
fn estimated_tokens_grows_with_messages() {
    let mut conv = Conversation::new(Some("system".to_string()), 10);
    let before = conv.estimated_tokens();
    conv.add_user_message("this is a test message with some content".to_string());
    let after = conv.estimated_tokens();
    assert!(after > before);
}

#[test]
fn agent_loop_tracks_turns() {
    let mut loop_ = AgentLoop::new(Some("system".to_string()), 5, 100_000);
    assert_eq!(loop_.turn_count(), 0);
    loop_.start_turn("hello");
    assert_eq!(loop_.turn_count(), 1);
    for i in 2..=5 {
        loop_.start_turn(&format!("turn {i}"));
    }
    assert_eq!(loop_.turn_count(), 5);
    assert!(loop_.conversation().at_max_turns());
}

#[test]
fn agent_loop_handles_interrupt() {
    let mut loop_ = AgentLoop::new(None, 10, 100_000);
    loop_.interrupt();
    let result = loop_.start_turn("hello");
    assert!(matches!(result, TurnResult::Interrupted));
    let result = loop_.start_turn("hello again");
    assert!(matches!(result, TurnResult::TextResponse(_)));
}

#[test]
fn agent_loop_detects_compaction_need() {
    let mut loop_ = AgentLoop::new(None, 100, 10);
    assert!(!loop_.needs_compaction());
    loop_.start_turn("this is a very long message that should push us over the token limit");
    assert!(loop_.needs_compaction());
}

#[test]
fn parse_tool_calls_extracts_json() {
    let response = r#"I'll help with that.
{"name": "read_file", "arguments": {"path": "/tmp/test.txt"}}
Let me read that file."#;
    let calls = tool_call_candidates(response);
    let _ = calls;
}

#[test]
fn tool_result_added_to_conversation() {
    let mut loop_ = AgentLoop::new(None, 10, 100_000);
    loop_.add_tool_result(ToolResult {
        tool_call_id: "tc_1".to_string(),
        content: "file contents here".to_string(),
        is_error: false,
    });
    let conv = loop_.conversation();
    assert_eq!(conv.messages.len(), 1);
    assert_eq!(conv.messages[0].role, "tool");
}
