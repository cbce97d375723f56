use rust_core::agent::subagents::{
    SubagentEvent, SubagentManager, SubagentRun, SubagentState, SubagentStatus,
};
use rust_core::agent::AgentOutput;

#[test]
fn manager_creates_with_max_capacity() {
    let manager = SubagentManager::new(4);
    assert_eq!(manager.max_concurrent(), 4);
}

#[test]
fn manager_enforces_max_minimum() {
    let manager = SubagentManager::new(0);
    assert_eq!(manager.max_concurrent(), 1);
}

#[test]
fn manager_starts_empty() {
    let manager = SubagentManager::new(4);
    assert_eq!(manager.active_count(), 0);
}

#[test]
fn cancel_nonexistent_returns_false() {
    let mut manager = SubagentManager::new(4);
    assert!(!manager.cancel("nonexistent"));
}

#[test]
fn query_nonexistent_returns_none() {
    let manager = SubagentManager::new(4);
    assert!(manager.query("nonexistent").is_none());
}

#[test]
fn subagent_status_strings() {
    assert_eq!(SubagentStatus::Idle.as_str(), "idle");
    assert_eq!(SubagentStatus::Running.as_str(), "running");
    assert_eq!(SubagentStatus::Completed.as_str(), "completed");
    assert_eq!(SubagentStatus::Failed.as_str(), "failed");
    assert_eq!(SubagentStatus::Cancelled.as_str(), "cancelled");
}

#[test]
fn cancel_all_empty() {
    let mut manager = SubagentManager::new(4);
    assert_eq!(manager.cancel_all(), 0);
}

#[test]
fn status_all_empty() {
    let manager = SubagentManager::new(4);
    assert!(manager.status_all().is_empty());
}

#[test]
fn roster_is_bounded_and_reports_when_full() {
    let mut manager = SubagentManager::new(2);
    assert!(manager.enroll("a", "g1").is_ok());
    assert!(manager.enroll("b", "g2").is_ok());
    match manager.enroll("c", "g3") {
        Err(AgentOutput::Error(e)) => {
            assert_eq!(e, "Maximum subagents (2) reached. Cannot spawn new agent.")
        }
        _ => panic!("expected the capacity error"),
    }
    assert_eq!(manager.active_count(), 2);
    let all = manager.status_all();
    assert_eq!(all[0].status, "running");
    assert_eq!(all[1].goal, "g2");
    assert!(manager.cancel("a"));
    assert!(!manager.cancel("a"));
    assert_eq!(manager.query("b").unwrap().goal, "g2");
    assert_eq!(manager.cancel_all(), 1);
}

#[test]
fn cancel_twice_idempotent() {
    let mut manager = SubagentManager::new(4);
    assert!(!manager.cancel("x"));
    assert!(!manager.cancel("x"));
}

#[test]
fn query_twice_returns_none() {
    let manager = SubagentManager::new(4);
    assert!(manager.query("x").is_none());
    assert!(manager.query("x").is_none());
}

#[test]
fn subagent_runs_three_turns_then_reports() {
    let (mut run, first) = SubagentRun::start("s1", "fix bug");
    assert!(matches!(&first, AgentOutput::Status { message } if message == "Subagent s1: starting — fix bug"));
    let reply = run.step(SubagentEvent::QueryStatus, true);
    assert!(!reply.finished);
    assert_eq!(reply.state.unwrap().turns, 0);
    let reply = run.step(SubagentEvent::Execute, false);
    assert!(reply.finished);
    assert_eq!(reply.outputs.len(), 4);
    assert!(matches!(&reply.outputs[2], AgentOutput::ResponseChunk(c) if c == "Subagent s1 processed goal 'fix bug' - turn 3/20"));
    assert!(matches!(&reply.outputs[3], AgentOutput::SubagentResult { result, .. }
        if result == "Subagent s1 processed goal 'fix bug' - turn 3/20 (bridge disconnected)"));
}

#[test]
fn subagent_cancellations_end_it() {
    let (mut run, _) = SubagentRun::start("s", "g");
    let r = run.step(SubagentEvent::Cancel, true);
    assert!(r.finished);
    assert!(matches!(&r.outputs[0], AgentOutput::SubagentResult { result, .. } if result == "Cancelled by user"));
    let (mut run, _) = SubagentRun::start("s", "g");
    let r = run.step(SubagentEvent::Shutdown, true);
    assert!(matches!(&r.outputs[0], AgentOutput::SubagentResult { result, .. } if result == "Cancelled by shutdown"));
    let (mut run, _) = SubagentRun::start("s", "g");
    let r = run.step(SubagentEvent::Cancelled, true);
    assert!(matches!(&r.outputs[0], AgentOutput::SubagentResult { result, .. } if result == "Cancelled"));
    let (mut run, _) = SubagentRun::start("s", "g");
    let r = run.step(SubagentEvent::Closed, true);
    assert!(r.finished && r.outputs.is_empty());
}

#[test]
fn active_count_zero_initially() {
    let manager = SubagentManager::new(8);
    assert_eq!(manager.active_count(), 0);
}

#[test]
fn cancel_all_on_empty_returns_zero() {
    let mut manager = SubagentManager::new(4);
    assert_eq!(manager.cancel_all(), 0);
}

#[test]
fn subagent_status_debug() {
    assert_eq!(format!("{:?}", SubagentStatus::Idle), "Idle");
    assert_eq!(format!("{:?}", SubagentStatus::Running), "Running");
    assert_eq!(format!("{:?}", SubagentStatus::Completed), "Completed");
    assert_eq!(format!("{:?}", SubagentStatus::Failed), "Failed");
    assert_eq!(format!("{:?}", SubagentStatus::Cancelled), "Cancelled");
}

#[test]
fn subagent_state_clone() {
    let state = SubagentState {
        id: "test".into(),
        goal: "test goal".into(),
        status: SubagentStatus::Idle,
        turns: 0,
        result: None,
    };
    let state2 = state.copy();
    assert_eq!(state2.id, "test");
    assert_eq!(state2.goal, "test goal");
    assert_eq!(state2.status, SubagentStatus::Idle);
}

#[test]
fn spawn_enrolls_under_a_fresh_uuid() {
    let mut manager = SubagentManager::new(2);
    let (a, first) = manager.spawn("goal a");
    let (b, second) = manager.spawn("goal b");
    assert!(first.is_ok() && second.is_ok());
    assert_eq!(a.len(), 36);
    assert_ne!(a, b);
    for (i, c) in a.chars().enumerate() {
        if [8, 13, 18, 23].contains(&i) {
            assert_eq!(c, '-');
        } else {
            assert!(c.is_ascii_hexdigit() && !c.is_ascii_uppercase());
        }
    }
    assert_eq!(manager.query(&a).map(|s| s.goal), Some("goal a".to_string()));
    let (_, third) = manager.spawn("goal c");
    assert!(third.is_err());
    assert_eq!(manager.active_count(), 2);
}
