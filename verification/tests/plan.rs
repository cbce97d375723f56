use rust_core::agent::plan::{PlanManager, PlanStatus, Step, StepStatus};

fn sample_steps() -> Vec<Step> {
    vec![
        Step::new("Read the config file", "read_file", r#"{"path":"/tmp/config.toml"}"#),
        Step::new(
            "Update the database URL",
            "write_file",
            r#"{"content":"[db]\nurl = 'localhost'","path":"/tmp/config.toml"}"#,
        ),
        Step::new("Run the tests", "run_shell", r#"{"command":"cargo test"}"#),
    ]
}

#[test]
fn plan_lifecycle() {
    let mut mgr = PlanManager::new();
    mgr.create_plan("plan-1", "Test Plan", sample_steps());
    mgr.submit_for_approval();
    let plan = mgr.current_plan().unwrap();
    assert_eq!(plan.status, PlanStatus::PendingApproval);
    assert_eq!(plan.steps.len(), 3);
    assert_eq!(plan.count_by_status(StepStatus::Pending), 3);
}

#[test]
fn approve_and_execute() {
    let mut mgr = PlanManager::new();
    mgr.create_plan("plan-1", "Test Plan", sample_steps());
    mgr.submit_for_approval();
    mgr.approve();
    let plan = mgr.current_plan().unwrap();
    assert_eq!(plan.status, PlanStatus::Approved);
    assert_eq!(plan.count_by_status(StepStatus::Approved), 3);
    mgr.start_step(0);
    mgr.complete_step(0, Some("config read successfully".to_string()));
    let plan = mgr.current_plan().unwrap();
    assert_eq!(plan.steps[0].status, StepStatus::Completed);
}

#[test]
fn reject_plan() {
    let mut mgr = PlanManager::new();
    mgr.create_plan("plan-1", "Test Plan", sample_steps());
    mgr.submit_for_approval();
    mgr.reject();
    assert!(mgr.current_plan().is_none());
    assert_eq!(mgr.history().len(), 1);
    assert_eq!(mgr.history()[0].status, PlanStatus::Rejected);
}

#[test]
fn step_display_line() {
    let step = Step::new("Read file", "read_file", r#"{"path":"/tmp/test"}"#);
    let line = step.display_line();
    assert!(line.contains("Read file"));
    assert!(line.contains("read_file"));
    assert!(line.contains("pending"));
    assert_eq!(line, "○ Read file — read_file [pending]");
}

#[test]
fn file_edit_detection() {
    let read_step = Step::new("Read", "read_file", "{}");
    let write_step = Step::new("Write", "write_file", "{}");
    let patch_step = Step::new("Patch", "patch", "{}");
    assert!(!read_step.is_file_edit());
    assert!(write_step.is_file_edit());
    assert!(patch_step.is_file_edit());
}

#[test]
fn diff_generation_for_file_edits() {
    let step = Step::new("Update config", "write_file", r#"{"path":"/tmp/cfg"}"#);
    let diff = step.diff_summary();
    assert!(diff.is_some());
    assert!(diff.unwrap().contains("write_file"));
}

#[test]
fn format_for_display_shows_steps() {
    let mut mgr = PlanManager::new();
    mgr.create_plan("plan-1", "Display Test", sample_steps());
    mgr.submit_for_approval();
    mgr.approve();
    let lines = mgr.format_for_display();
    assert!(lines.len() > 3);
    assert!(lines[0].contains("Display Test"));
}

#[test]
fn approve_single_step() {
    let mut mgr = PlanManager::new();
    mgr.create_plan("plan-1", "Test", sample_steps());
    mgr.submit_for_approval();
    mgr.approve_step(1);
    let plan = mgr.current_plan().unwrap();
    assert_eq!(plan.steps[0].status, StepStatus::Pending);
    assert_eq!(plan.steps[1].status, StepStatus::Approved);
    assert_eq!(plan.steps[2].status, StepStatus::Pending);
}

#[test]
fn step_status_icons() {
    assert_eq!(StepStatus::Pending.icon(), "○");
    assert_eq!(StepStatus::Approved.icon(), "✓");
    assert_eq!(StepStatus::Rejected.icon(), "✗");
    assert_eq!(StepStatus::Executing.icon(), "⟳");
    assert_eq!(StepStatus::Completed.icon(), "●");
    assert_eq!(StepStatus::Failed.icon(), "✕");
}

#[test]
fn complete_approved_steps_completes_only_approved() {
    let mut mgr = PlanManager::new();
    mgr.create_plan("p", "T", sample_steps());
    mgr.submit_for_approval();
    mgr.approve_step(0);
    mgr.approve_step(2);
    let done = mgr.complete_approved_steps();
    assert_eq!(done, vec![0, 2]);
    let plan = mgr.current_plan().unwrap();
    assert_eq!(plan.steps[0].status, StepStatus::Completed);
    assert_eq!(plan.steps[1].status, StepStatus::Pending);
    assert_eq!(plan.steps[2].status, StepStatus::Completed);
    assert_eq!(plan.status, PlanStatus::PendingApproval);
}

#[test]
fn params_that_are_not_json_show_as_nothing() {
    let step = Step::new("Update config", "write_file", "not json");
    assert_eq!(step.diff_summary(), Some("File edit: write_file with params ".to_string()));
}
