//! The records a session store keeps: sessions, their messages and plans.
use vstd::prelude::*;

verus! {

/// A stored session.
#[derive(Debug, Clone)]
pub struct Session {
    pub id: i64,
    pub created_at: String,
    pub model: String,
    pub status: String,
}

/// A stored message; `tool_calls` is a JSON text when present.
#[derive(Debug, Clone)]
pub struct StoredMessage {
    pub id: i64,
    pub session_id: i64,
    pub role: String,
    pub content: String,
    pub tool_calls: Option<String>,
    pub timestamp: String,
}

/// A stored plan; `steps_json` is the JSON text of its steps.
#[derive(Debug, Clone)]
pub struct StoredPlan {
    pub id: i64,
    pub session_id: i64,
    pub steps_json: String,
    pub status: String,
}

/// What a session listing reports of a saved conversation.
#[derive(Debug, Clone, PartialEq, Eq)]
pub struct SessionInfo {
    pub id: String,
    pub created_at: String,
    pub updated_at: String,
    pub message_count: i64,
}

} // verus!
