use rust_core::agent::agent_loop::ToolCall;
use rust_core::agent::plan_exec::{ExecutionPlan, PlanStatus, PlanStep};

#[test]
fn approval_gates_execution() {
    let call = ToolCall { id: "call-1".to_string(), name: "echo".to_string(), arguments: r#"{"text":"hi"}"#.to_string() };
    let mut plan = ExecutionPlan::draft(vec![PlanStep::new("say hi", vec![call])]).submit();
    assert!(plan.execute().is_empty());
    plan.approve();
    let results = plan.execute();
    assert_eq!(plan.status, PlanStatus::Done);
    assert_eq!(results.len(), 1);
    assert_eq!(results[0].call_id, "call-1");
    assert_eq!(results[0].output, r#"tool echo executed with {"text":"hi"}"#);
    assert_eq!(plan.steps[0].status, PlanStatus::Done);
}

#[test]
fn rejected_plan_never_runs() {
    let call = ToolCall { id: "c".to_string(), name: "rm".to_string(), arguments: "{}".to_string() };
    let mut plan = ExecutionPlan::draft(vec![PlanStep::new("remove", vec![call])]).submit();
    plan.reject();
    assert_eq!(plan.status, PlanStatus::Rejected);
    plan.approve();
    assert_eq!(plan.status, PlanStatus::Rejected);
    assert!(plan.execute().is_empty());
    assert!(plan.start_execution().is_none());
}
