use rust_core::headless::{decode_method, HeadlessServer, Reply, RpcParams};

fn params() -> RpcParams {
    RpcParams::empty()
}

fn prompt(p: &str) -> RpcParams {
    RpcParams { prompt: Some(p.to_string()), ..RpcParams::empty() }
}

fn session(id: &str) -> RpcParams {
    RpcParams { session_id: Some(id.to_string()), ..RpcParams::empty() }
}

fn call(server: &mut HeadlessServer, id: Option<u64>, method: &str, p: RpcParams) -> Reply {
    server.handle_request(id, decode_method(method, p))
}

#[test]
fn handle_run_with_provider() {
    let mut server = HeadlessServer::new();
    let p = RpcParams {
        prompt: Some("test".into()),
        provider: Some("deepseek".into()),
        model: Some("deepseek-chat".into()),
        ..RpcParams::empty()
    };
    match call(&mut server, Some(2), "run", p) {
        Reply::Started { provider, model, .. } => {
            assert_eq!(provider.as_deref(), Some("deepseek"));
            assert_eq!(model.as_deref(), Some("deepseek-chat"));
        }
        other => panic!("unexpected {other:?}"),
    }
    assert_eq!(server.session("session-1").unwrap().model, "deepseek-chat");
}

#[test]
fn handle_status_no_session() {
    let mut server = HeadlessServer::new();
    match call(&mut server, Some(3), "status", params()) {
        Reply::Status { status, session_id, .. } => {
            assert!(status.is_none());
            assert!(session_id.is_none());
        }
        other => panic!("unexpected {other:?}"),
    }
}

#[test]
fn handle_status_with_session() {
    let mut server = HeadlessServer::new();
    call(&mut server, Some(1), "run", prompt("hello"));
    match call(&mut server, Some(2), "status", params()) {
        Reply::Status { status, .. } => assert_eq!(status.unwrap().session_id, "session-1"),
        other => panic!("unexpected {other:?}"),
    }
}

#[test]
fn handle_list_sessions() {
    let mut server = HeadlessServer::new();
    for i in 1..=3 {
        call(&mut server, Some(i), "run", prompt(&format!("task {i}")));
    }
    match call(&mut server, Some(4), "list_sessions", params()) {
        Reply::Sessions { sessions, active_session_id, .. } => {
            let ids: Vec<String> = sessions.into_iter().map(|s| s.session_id).collect();
            assert!(ids.contains(&"session-1".to_string()));
            assert!(ids.contains(&"session-2".to_string()));
            assert!(ids.contains(&"session-3".to_string()));
            assert_eq!(active_session_id.as_deref(), Some("session-3"));
        }
        other => panic!("unexpected {other:?}"),
    }
}

#[test]
fn handle_cancel() {
    let mut server = HeadlessServer::new();
    call(&mut server, Some(1), "run", prompt("long task"));
    match call(&mut server, Some(2), "cancel", params()) {
        Reply::Cancelled { session_id, .. } => assert_eq!(session_id.as_deref(), Some("session-1")),
        other => panic!("unexpected {other:?}"),
    }
    let s = server.session("session-1").unwrap();
    assert!(!s.running);
    assert_eq!(s.message.as_deref(), Some("Cancelled"));
}

#[test]
fn handle_resume() {
    let mut server = HeadlessServer::new();
    call(&mut server, Some(1), "run", prompt("first"));
    call(&mut server, Some(2), "run", prompt("second"));
    match call(&mut server, Some(3), "resume", session("session-1")) {
        Reply::Resumed { session_id, .. } => assert_eq!(session_id, "session-1"),
        other => panic!("unexpected {other:?}"),
    }
    assert_eq!(server.active_session_id(), Some("session-1"));
}

#[test]
fn handle_unknown_method() {
    let mut server = HeadlessServer::new();
    match call(&mut server, Some(99), "nonexistent", params()) {
        Reply::MethodNotFound { id, method } => {
            assert_eq!(id, 99);
            assert_eq!(method, "nonexistent");
        }
        other => panic!("unexpected {other:?}"),
    }
}

#[test]
fn handle_shutdown() {
    let mut server = HeadlessServer::new();
    server.start();
    match call(&mut server, Some(1), "shutdown", params()) {
        Reply::ShutdownAck { id } => assert_eq!(id, 1),
        other => panic!("unexpected {other:?}"),
    }
    assert!(!server.is_running());
}

#[test]
fn handle_run_with_max_turns() {
    let mut server = HeadlessServer::new();
    let p = RpcParams { prompt: Some("limited task".into()), max_turns: Some(10), ..RpcParams::empty() };
    call(&mut server, Some(5), "run", p);
    assert_eq!(server.session_count(), 1);
    assert_eq!(server.session("session-1").unwrap().max_turns, 10);
}

#[test]
fn handle_run_with_empty_prompt() {
    let mut server = HeadlessServer::new();
    match call(&mut server, Some(6), "run", params()) {
        Reply::Started { session_id, prompt, .. } => {
            assert_eq!(session_id, "session-1");
            assert_eq!(prompt, "");
        }
        other => panic!("unexpected {other:?}"),
    }
    assert_eq!(server.session("session-1").unwrap().max_turns, 50);
}

#[test]
fn handle_run_without_id() {
    let mut server = HeadlessServer::new();
    match call(&mut server, None, "run", prompt("no id")) {
        Reply::Started { id, .. } => assert_eq!(id, 1),
        other => panic!("unexpected {other:?}"),
    }
    match call(&mut server, None, "status", params()) {
        Reply::Status { id, .. } => assert_eq!(id, 2),
        other => panic!("unexpected {other:?}"),
    }
}

#[test]
fn handle_status_with_specific_session_id() {
    let mut server = HeadlessServer::new();
    call(&mut server, Some(1), "run", prompt("first"));
    call(&mut server, Some(2), "run", prompt("second"));
    match call(&mut server, Some(3), "status", session("session-1")) {
        Reply::Status { status, .. } => assert_eq!(status.unwrap().session_id, "session-1"),
        other => panic!("unexpected {other:?}"),
    }
}

#[test]
fn handle_cancel_nonexistent_session() {
    let mut server = HeadlessServer::new();
    match call(&mut server, Some(1), "cancel", session("nonexistent")) {
        Reply::Cancelled { session_id, .. } => assert_eq!(session_id.as_deref(), Some("nonexistent")),
        other => panic!("unexpected {other:?}"),
    }
    assert_eq!(server.session_count(), 0);
}

#[test]
fn handle_resume_nonexistent_session() {
    let mut server = HeadlessServer::new();
    match call(&mut server, Some(1), "resume", session("nonexistent")) {
        Reply::NotFound { session_id, .. } => assert_eq!(session_id.as_deref(), Some("nonexistent")),
        other => panic!("unexpected {other:?}"),
    }
}

#[test]
fn handle_resume_without_session_id() {
    let mut server = HeadlessServer::new();
    match call(&mut server, Some(1), "resume", params()) {
        Reply::NotFound { session_id, .. } => assert!(session_id.is_none()),
        other => panic!("unexpected {other:?}"),
    }
}

#[test]
fn handle_cancel_specific_session_id() {
    let mut server = HeadlessServer::new();
    call(&mut server, Some(1), "run", prompt("first"));
    call(&mut server, Some(2), "run", prompt("second"));
    match call(&mut server, Some(3), "cancel", session("session-1")) {
        Reply::Cancelled { session_id, .. } => assert_eq!(session_id.as_deref(), Some("session-1")),
        other => panic!("unexpected {other:?}"),
    }
    assert!(!server.session("session-1").unwrap().running);
    assert!(server.session("session-2").unwrap().running);
}

#[test]
fn list_sessions_empty() {
    let mut server = HeadlessServer::new();
    match call(&mut server, Some(1), "list_sessions", params()) {
        Reply::Sessions { sessions, active_session_id, .. } => {
            assert!(sessions.is_empty());
            assert!(active_session_id.is_none());
        }
        other => panic!("unexpected {other:?}"),
    }
}
