use rust_core::agent::plan::{PlanManager, PlanStatus, Step, StepStatus};
use rust_core::agent::{
    approve_plan, finish_prompt, reject_plan, spawned_status, Agent, AgentConfig, AgentInput,
    AgentOutput, AgentStatus, AgentStep,
};
use rust_core::env::EnvVars;

fn steps() -> Vec<Step> {
    vec![Step::new("a", "read_file", "{}"), Step::new("b", "write_file", "{}")]
}

#[test]
fn mod_agent_config_defaults() {
    let config = AgentConfig::defaults(&EnvVars::empty(), "m");
    assert_eq!(config.max_turns, 50);
    assert_eq!(config.max_subagents, 8);
    assert_eq!(config.db_path, ".pi-hybrid/sessions.db");
    let mut env = EnvVars::empty();
    env.set("HOME", "/home/u");
    env.set("PI_BRIDGE_COMMAND", "node b.js");
    let config = AgentConfig::defaults(&env, "m");
    assert_eq!(config.db_path, "/home/u/.pi-hybrid/sessions.db");
    assert_eq!(config.bridge_command, "node b.js");
}

#[test]
fn agent_status_reflects_config() {
    let status = AgentStatus { running: true, model: "test-model".to_string(), max_turns: 10 };
    assert_eq!(status.model, "test-model");
    assert!(status.running);
}

#[test]
fn approving_executes_every_approved_step() {
    let mut mgr = PlanManager::new();
    mgr.create_plan("p", "t", steps());
    mgr.submit_for_approval();
    let out = approve_plan(&mut mgr);
    assert_eq!(out.len(), 6);
    assert!(matches!(out[0], AgentOutput::PlanApproved));
    assert!(matches!(&out[1], AgentOutput::Status { message } if message == "Plan approved. Executing steps..."));
    assert!(matches!(out[2], AgentOutput::StepExecuted { index: 0, status: StepStatus::Executing }));
    assert!(matches!(out[3], AgentOutput::StepExecuted { index: 0, status: StepStatus::Completed }));
    assert!(matches!(out[5], AgentOutput::StepExecuted { index: 1, status: StepStatus::Completed }));
    let plan = mgr.current_plan().unwrap();
    assert_eq!(plan.status, PlanStatus::Approved);
    assert_eq!(plan.count_by_status(StepStatus::Completed), 2);
}

#[test]
fn plan_decisions_need_a_plan_under_review() {
    let mut mgr = PlanManager::new();
    let out = approve_plan(&mut mgr);
    assert!(matches!(&out[0], AgentOutput::Status { message } if message == "No plan pending approval"));
    mgr.create_plan("p", "t", steps());
    let out = reject_plan(&mut mgr);
    assert_eq!(out.len(), 1);
    assert!(matches!(&out[0], AgentOutput::Status { .. }));
    assert!(mgr.current_plan().is_some());
    mgr.submit_for_approval();
    let out = reject_plan(&mut mgr);
    assert!(matches!(out[0], AgentOutput::PlanRejected));
    assert!(mgr.current_plan().is_none());
    assert_eq!(mgr.history()[0].status, PlanStatus::Rejected);
}

#[test]
fn agent_loop_dispatches_inputs() {
    let mut agent = Agent::new(AgentConfig::defaults(&EnvVars::empty(), "m"));
    assert!(!agent.is_running());
    assert!(matches!(agent.start(), AgentOutput::Status { message } if message == "Agent started"));
    assert!(matches!(agent.handle_input(Some(AgentInput::UserPrompt("hi".into()))), AgentStep::Prompt(p) if p == "hi"));
    assert!(matches!(agent.handle_input(Some(AgentInput::QuerySubagents)), AgentStep::Query));
    match agent.handle_input(Some(AgentInput::EditPlan)) {
        AgentStep::Report(o) => assert!(matches!(&o[0], AgentOutput::Status { message } if message == "Plan editing mode activated")),
        _ => panic!("expected a report"),
    }
    agent.propose_plan("p", "t", steps());
    match agent.handle_input(Some(AgentInput::ApprovePlan)) {
        AgentStep::Report(o) => assert!(matches!(o[0], AgentOutput::PlanApproved)),
        _ => panic!("expected a report"),
    }
    assert!(agent.get_status().running);
    assert!(matches!(agent.handle_input(None), AgentStep::Report(o) if o.is_empty()));
    assert!(!agent.is_running());
    assert!(matches!(agent.stop(), AgentOutput::Status { message } if message == "Agent stopped"));
}

#[test]
fn prompt_round_trip() {
    let agent = Agent::new(AgentConfig::defaults(&EnvVars::empty(), "model-x"));
    let (outs, params) = agent.begin_prompt("hello from test");
    assert_eq!(outs.len(), 1);
    assert!(matches!(outs[0], AgentOutput::Thinking));
    assert_eq!(params.model, "model-x");
    assert_eq!(params.messages[0].content, "hello from test");
    let outs = finish_prompt(Ok("Bridge response text".into()));
    assert!(matches!(&outs[0], AgentOutput::ResponseChunk(c) if c == "Bridge response text"));
    assert!(matches!(outs[1], AgentOutput::Idle));
    let outs = finish_prompt(Err("down".into()));
    assert!(matches!(&outs[0], AgentOutput::Error(e) if e == "down"));
    let mut small = AgentConfig::defaults(&EnvVars::empty(), "m");
    small.context_window_tokens = 1;
    let (outs, _) = Agent::new(small).begin_prompt("a long enough prompt to overflow");
    assert_eq!(outs.len(), 2);
    assert!(matches!(&outs[1], AgentOutput::Status { message } if message == "Compacting context..."));
    assert!(matches!(spawned_status("id1", "goal"), AgentOutput::Status { message } if message == "Subagent spawned: id1 — goal"));
}
