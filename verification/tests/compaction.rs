use rust_core::agent::agent_loop::Message;
use rust_core::agent::compaction::{CompactedSegment, CompactionManager};

fn make_messages(count: usize, base_len: usize) -> Vec<Message> {
    (0..count)
        .map(|i| Message {
            role: if i % 2 == 0 { "user" } else { "assistant" }.to_string(),
            content: "x".repeat(base_len),
            tool_calls: None,
        })
        .collect()
}

#[test]
fn estimate_tokens_simple() {
    assert_eq!(CompactionManager::estimate_tokens("hello"), 1);
    assert_eq!(CompactionManager::estimate_tokens("hello world"), 2);
    assert_eq!(CompactionManager::estimate_tokens(""), 1);
}

#[test]
fn estimate_total_tokens() {
    let msgs = vec![
        Message { role: "user".to_string(), content: "hello world".to_string(), tool_calls: None },
        Message { role: "assistant".to_string(), content: "hi there".to_string(), tool_calls: None },
    ];
    let tokens = CompactionManager::estimate_total_tokens(&msgs);
    assert!(tokens > 4);
}

#[test]
fn needs_compaction_when_over_limit() {
    let mgr = CompactionManager::new(100);
    let msgs = make_messages(50, 100);
    assert!(mgr.needs_compaction(&msgs));
}

#[test]
fn no_compaction_when_under_limit() {
    let mgr = CompactionManager::new(1_000_000);
    let msgs = make_messages(5, 10);
    assert!(!mgr.needs_compaction(&msgs));
}

#[test]
fn find_compact_segment_identifies_range() {
    let mgr = CompactionManager::with_recent(50, 3);
    let msgs = make_messages(20, 100);
    let segment = mgr.find_compact_segment(&msgs);
    assert!(segment.is_some());
    let (start, end) = segment.unwrap();
    assert_eq!(start, 0);
    assert!(end <= 17);
}

#[test]
fn no_compact_when_few_messages() {
    let mgr = CompactionManager::with_recent(100, 5);
    let msgs = make_messages(3, 10);
    assert!(mgr.find_compact_segment(&msgs).is_none());
}

#[test]
fn compact_replaces_old_messages() {
    let mut mgr = CompactionManager::with_recent(30, 2);
    let msgs = make_messages(10, 100);
    let compacted = mgr.compact(&msgs, Some("Summary of old messages".to_string()));
    assert!(compacted.len() < msgs.len());
    assert_eq!(compacted[0].role, "system");
    assert!(compacted[0].content.contains("Summary"));
}

#[test]
fn compact_keeps_recent_messages_unchanged() {
    let mut mgr = CompactionManager::with_recent(30, 2);
    let mut msgs = make_messages(10, 100);
    msgs[8].content = "second to last".into();
    msgs[9].content = "last".into();
    let compacted = mgr.compact(&msgs, Some("s".to_string()));
    assert_eq!(compacted.len(), 3);
    assert_eq!(compacted[1].content, "second to last");
    assert_eq!(compacted[2].content, "last");
}

#[test]
fn compact_fallback_summary() {
    let mut mgr = CompactionManager::with_recent(30, 2);
    let msgs = make_messages(10, 100);
    let compacted = mgr.compact(&msgs, None);
    assert!(compacted[0].content.contains("compacted"));
}

#[test]
fn tokens_saved_tracks_savings() {
    let mut mgr = CompactionManager::with_recent(30, 2);
    let msgs = make_messages(10, 100);
    mgr.compact(&msgs, Some("short summary".to_string()));
    assert!(mgr.tokens_saved() > 0);
}

#[test]
fn reset_clears_segments() {
    let mut mgr = CompactionManager::with_recent(30, 2);
    let msgs = make_messages(10, 100);
    mgr.compact(&msgs, Some("summary".to_string()));
    assert!(!mgr.segments().is_empty());
    mgr.reset();
    assert!(mgr.segments().is_empty());
}

#[test]
fn summary_message_format() {
    let segment = CompactedSegment {
        original_range: (0, 10),
        summary: "test summary".to_string(),
        summary_tokens: 3,
        original_tokens: 100,
    };
    let msg = CompactionManager::create_summary_message(&segment);
    assert_eq!(msg.role, "system");
    assert!(msg.content.contains("test summary"));
    assert!(msg.content.contains("100 tokens"));
    assert_eq!(msg.content, "[Context Summary — messages 0-10 — 100 tokens → 3 tokens]: test summary");
}

#[test]
fn build_summarization_prompt_formats_messages() {
    let msgs = vec![
        Message { role: "user".to_string(), content: "hello".to_string(), tool_calls: None },
        Message { role: "assistant".to_string(), content: "hi".to_string(), tool_calls: None },
    ];
    let prompt = CompactionManager::build_summarization_prompt(&msgs);
    assert!(prompt.contains("[user]: hello"));
    assert!(prompt.contains("[assistant]: hi"));
    assert!(prompt.contains("summarize"));
}
