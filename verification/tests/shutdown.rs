use rust_core::shutdown::{CancelToken, ShutdownHandler, SHUTDOWN_TIMEOUT_SECS};
use std::sync::atomic::{AtomicBool, Ordering};
use std::sync::Arc;

#[test]
fn cancel_token_new_is_not_cancelled() {
    let token = CancelToken::new();
    assert!(!token.is_cancelled());
}

#[test]
fn cancel_token_cancel_sets_flag() {
    let token = CancelToken::new();
    token.cancel();
    assert!(token.is_cancelled());
}

#[test]
fn cancel_token_cancel_is_idempotent() {
    let token = CancelToken::new();
    token.cancel();
    token.cancel();
    token.cancel();
    assert!(token.is_cancelled());
}

#[test]
fn child_token_shares_flag() {
    let parent = CancelToken::new();
    let child = parent.child_token();

    assert!(!parent.is_cancelled());
    assert!(!child.is_cancelled());

    parent.cancel();
    assert!(parent.is_cancelled());
    assert!(child.is_cancelled());
}

#[test]
fn child_token_cancel_propagates_to_parent() {
    let parent = CancelToken::new();
    let child = parent.child_token();

    child.cancel();
    assert!(parent.is_cancelled());
    assert!(child.is_cancelled());
}

#[test]
fn multiple_children_all_share_same_flag() {
    let parent = CancelToken::new();
    let child1 = parent.child_token();
    let child2 = parent.child_token();
    let child3 = child1.child_token();

    parent.cancel();
    assert!(child1.is_cancelled());
    assert!(child2.is_cancelled());
    assert!(child3.is_cancelled());
}

#[test]
fn shutdown_handler_creates_with_fresh_token() {
    let handler = ShutdownHandler::new();
    assert!(!handler.token.is_cancelled());
    assert!(!handler.is_force_shutdown());
}

#[test]
fn shutdown_timeout_is_five_seconds() {
    assert_eq!(SHUTDOWN_TIMEOUT_SECS, 5);
}

#[test]
fn cancel_token_default_is_not_cancelled() {
    let token = CancelToken::default();
    assert!(!token.is_cancelled());
}

#[test]
fn cancel_token_clone_shares_state() {
    let token1 = CancelToken::new();
    let token2 = token1.clone();

    token1.cancel();
    assert!(token2.is_cancelled());
}

#[test]
fn double_signal_pattern() {
    let token = CancelToken::new();
    let force = Arc::new(AtomicBool::new(false));
    let initiated = Arc::new(AtomicBool::new(false));

    assert!(!initiated.load(Ordering::SeqCst));
    initiated.store(true, Ordering::SeqCst);
    token.cancel();
    assert!(token.is_cancelled());
    assert!(!force.load(Ordering::SeqCst));

    force.store(true, Ordering::SeqCst);
    assert!(force.load(Ordering::SeqCst));
}

#[test]
fn shutdown_handler_default() {
    let handler = ShutdownHandler::default();
    assert!(!handler.token.is_cancelled());
}

#[test]
fn shutdown_handler_force_flag_independent() {
    let handler = ShutdownHandler::new();
    assert!(!handler.is_force_shutdown());
    handler.token.cancel();
    assert!(!handler.is_force_shutdown());
    assert!(handler.token.is_cancelled());
}

#[test]
fn cancel_token_debug_format() {
    let token = CancelToken::new();
    let debug_str = format!("{token:?}");
    assert!(debug_str.contains("CancelToken"));
}

#[test]
fn cancel_token_multiple_clones_independent() {
    let t1 = CancelToken::new();
    let t2 = t1.clone();
    let t3 = t2.clone();

    assert!(!t1.is_cancelled());
    assert!(!t2.is_cancelled());
    assert!(!t3.is_cancelled());

    t3.cancel();
    assert!(t1.is_cancelled());
    assert!(t2.is_cancelled());
    assert!(t3.is_cancelled());
}

#[test]
fn shutdown_handler_debug_format() {
    let handler = ShutdownHandler::new();
    let debug_str = format!("{handler:?}");
    assert!(!debug_str.is_empty());
}

#[test]
fn shutdown_flags_are_shared_with_the_handler() {
    let handler = ShutdownHandler::new();
    handler.force_flag().store(true, Ordering::SeqCst);
    assert!(handler.is_force_shutdown());
    assert!(!handler.initiated_flag().load(Ordering::SeqCst));
}
