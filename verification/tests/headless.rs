use rust_core::headless::{HeadlessServer, Method, Reply};

fn run(prompt: &str) -> Method {
    Method::Run { prompt: prompt.to_string(), provider: None, model: None, max_turns: 50 }
}

#[test]
fn server_creation() {
    let server = HeadlessServer::new();
    assert!(!server.is_running());
    assert_eq!(server.session_count(), 0);
    assert!(server.active_session_id().is_none());
}

#[test]
fn run_headless_returns_ok() {
    let server = HeadlessServer::new();
    assert!(!server.is_running());
}

#[test]
fn default_server_empty() {
    let server = HeadlessServer::default();
    assert!(!server.is_running());
    assert_eq!(server.session_count(), 0);
}

#[test]
fn handle_run_creates_session() {
    let mut server = HeadlessServer::new();
    let reply = server.handle_request(Some(1), run("build the project"));
    match reply {
        Reply::Started { id, session_id, message, .. } => {
            assert_eq!(id, 1);
            assert_eq!(session_id, "session-1");
            assert_eq!(message, "Agent processing: 'build the project'");
        }
        other => panic!("unexpected reply {other:?}"),
    }
    assert_eq!(server.active_session_id(), Some("session-1"));
    let s = server.session("session-1").unwrap();
    assert!(s.running);
    assert_eq!(s.model, "default");
    assert_eq!(s.message.as_deref(), Some("Running: build the project"));
}

#[test]
fn handle_run_increments_session_counter() {
    let mut server = HeadlessServer::new();
    for _ in 0..5 {
        server.handle_request(Some(1), run("test"));
    }
    assert_eq!(server.session_count(), 5);
    assert!(server.session("session-1").is_some());
    assert!(server.session("session-5").is_some());
    assert!(server.sessions_are_distinct());
}

#[test]
fn handle_cancel_and_status() {
    let mut server = HeadlessServer::new();
    server.handle_request(Some(1), run("first"));
    server.handle_request(Some(2), run("second"));
    let reply = server.handle_request(Some(3), Method::Cancel { session_id: Some("session-1".to_string()) });
    assert!(matches!(reply, Reply::Cancelled { id: 3, .. }));
    let s1 = server.session("session-1").unwrap();
    assert!(!s1.running);
    assert_eq!(s1.message.as_deref(), Some("Cancelled"));
    assert!(server.session("session-2").unwrap().running);
    match server.handle_request(None, Method::Status { session_id: None }) {
        Reply::Status { id, status, session_id } => {
            assert_eq!(id, 1);
            assert_eq!(session_id.as_deref(), Some("session-2"));
            assert!(status.unwrap().running);
        }
        other => panic!("unexpected reply {other:?}"),
    }
}

#[test]
fn handle_resume_and_unknown() {
    let mut server = HeadlessServer::new();
    server.handle_request(Some(1), run("first"));
    server.handle_request(Some(2), run("second"));
    let reply = server.handle_request(Some(3), Method::Resume { session_id: Some("session-1".to_string()) });
    assert!(matches!(reply, Reply::Resumed { id: 3, .. }));
    assert_eq!(server.active_session_id(), Some("session-1"));
    let reply = server.handle_request(Some(4), Method::Resume { session_id: Some("nope".to_string()) });
    assert!(matches!(reply, Reply::NotFound { id: 4, .. }));
    assert_eq!(server.active_session_id(), Some("session-1"));
    let reply = server.handle_request(None, Method::Unknown("bogus".to_string()));
    assert!(matches!(reply, Reply::MethodNotFound { id: 0, .. }));
    match server.handle_request(Some(9), Method::ListSessions) {
        Reply::Sessions { sessions, active_session_id, .. } => {
            assert_eq!(sessions.len(), 2);
            assert_eq!(active_session_id.as_deref(), Some("session-1"));
        }
        other => panic!("unexpected reply {other:?}"),
    }
    server.start();
    assert!(server.is_running());
    assert!(matches!(server.handle_request(Some(5), Method::Shutdown), Reply::ShutdownAck { id: 5 }));
    assert!(!server.is_running());
}
