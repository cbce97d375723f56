use rust_core::agent::git::{AutoCommitResult, GitManager};
use rust_core::agent::plan::{Step, StepStatus};
use rust_core::agent::providers::ProviderRegistry;
use rust_core::agent::{AgentInput, AgentOutput, SubagentInfo};
use rust_core::keybindings::Action;
use rust_core::tui::command_palette::Command;
use rust_core::tui::file_tree::{entry_for, FileTree};
use rust_core::tui::plan_pane::PlanDecision;
use rust_core::tui::toggles::Toggles;
use rust_core::tui::Pane;
use rust_core::workbench::{layout_for, sample_plugins, Effect, Rect, ScreenLayout, Workbench};

fn app_with(git: bool, bridge: &str) -> Workbench {
    Workbench::new(
        bridge.to_string(),
        FileTree::from_entries(".", vec![entry_for("src/main.rs"), entry_for("README.md")]),
        sample_plugins(),
        ProviderRegistry::with_builtins(),
        GitManager::open(".", git),
        None,
    )
}

fn app() -> Workbench {
    app_with(false, "echo bridge")
}

#[test]
fn mouse_coordinates_focus_matching_pane() {
    let mut app = app();
    let layout = ScreenLayout {
        files: Rect::new(0, 1, 10, 10),
        editor: Rect::new(10, 1, 20, 10),
        agents: Rect::new(30, 1, 10, 10),
        plan: Rect::new(0, 11, 40, 5),
    };
    app.focus_at(35, 5, &layout);
    assert_eq!(app.active_pane, Pane::Agents);
}

#[test]
fn layout_expands_editor_when_side_panes_are_hidden() {
    let area = Rect::new(0, 0, 100, 40);
    let default_layout = layout_for(area, &Toggles::default());
    let collapsed_layout = layout_for(
        area,
        &Toggles { show_file_tree: false, show_agent_pane: false, dark_mode: true },
    );
    assert!(collapsed_layout.files.width < default_layout.files.width);
    assert!(collapsed_layout.agents.width < default_layout.agents.width);
    assert!(collapsed_layout.editor.width > default_layout.editor.width);
}

#[test]
fn app_toggles_panes_and_palette_filters_commands() {
    let mut app = app();
    assert!(app.toggles.show_file_tree);
    let layout = layout_for(Rect::new(0, 0, 100, 40), &app.toggles);
    app.handle_action(Action::ToggleFileTree, &layout, 0);
    assert!(!app.toggles.show_file_tree);
    let layout = layout_for(Rect::new(0, 0, 100, 40), &app.toggles);
    app.handle_action(Action::OpenCommandPalette, &layout, 0);
    assert!(app.command_palette.is_open());
    app.command_palette.push_str("bridge");
    assert_eq!(app.command_palette.visible_commands()[0].name, "Run Bridge Test");
}

#[test]
fn hidden_pane_is_not_focused_by_clicks() {
    let mut app = app();
    app.handle_action(Action::ToggleFileTree, &ScreenLayout::empty(), 0);
    let layout = ScreenLayout {
        files: Rect::new(0, 1, 10, 10),
        editor: Rect::new(10, 1, 20, 10),
        agents: Rect::new(30, 1, 10, 10),
        plan: Rect::new(0, 11, 40, 5),
    };
    app.active_pane = Pane::PlanApproval;
    app.handle_action(Action::MouseFocus { column: 2, row: 2 }, &layout, 0);
    assert_eq!(app.active_pane, Pane::PlanApproval);
    app.handle_action(Action::MouseFocus { column: 12, row: 2 }, &layout, 0);
    assert_eq!(app.active_pane, Pane::Editor);
}

#[test]
fn hiding_focused_pane_moves_focus_to_editor() {
    let mut app = app();
    app.handle_action(Action::FocusPane(Pane::Agents), &ScreenLayout::empty(), 0);
    app.handle_action(Action::ToggleAgentPane, &ScreenLayout::empty(), 0);
    assert_eq!(app.active_pane, Pane::Editor);
    assert!(!app.toggles.show_agent_pane);
}

#[test]
fn select_in_file_tree_opens_file() {
    let mut app = app();
    app.active_pane = Pane::Files;
    app.handle_action(Action::MoveDown, &ScreenLayout::empty(), 0);
    let effects = app.handle_action(Action::Select, &ScreenLayout::empty(), 0);
    assert_eq!(app.active_pane, Pane::Editor);
    assert_eq!(effects.len(), 1);
    match &effects[0] {
        Effect::OpenFile { path, report_errors } => {
            assert_eq!(path, "./README.md");
            assert!(!report_errors);
        }
        _ => panic!("expected an open-file effect"),
    }
    app.file_opened("./README.md", "# Title\nbody");
    assert_eq!(app.editor.lines().len(), 2);
}

#[test]
fn plan_actions_send_to_agent_and_commit_when_git_is_there() {
    let mut app = app_with(true, "x");
    let effects = app.handle_action(Action::ApprovePlan, &ScreenLayout::empty(), 0);
    assert_eq!(app.plan.decision(), PlanDecision::Approved);
    assert_eq!(effects.len(), 2);
    assert!(matches!(effects[0], Effect::SendAgent(AgentInput::ApprovePlan)));
    assert!(matches!(effects[1], Effect::AutoCommit));
    let effects = app.handle_action(Action::RejectPlan, &ScreenLayout::empty(), 0);
    assert!(matches!(effects[0], Effect::SendAgent(AgentInput::RejectPlan)));
    assert_eq!(app.plan.decision(), PlanDecision::Rejected);
    let mut no_git = app_with(false, "x");
    assert_eq!(no_git.handle_action(Action::ApprovePlan, &ScreenLayout::empty(), 0).len(), 1);
    app.auto_committed(
        &AutoCommitResult {
            committed: true,
            commit_oid: Some("abc".into()),
            message: "feat: x".into(),
            files_changed: vec![],
            stats: None,
        },
        5,
    );
    assert_eq!(app.active_notification(5), Some("Auto-committed: abc (feat: x)"));
}

#[test]
fn spawn_subagent_sends_goal_then_query() {
    let mut app = app();
    let effects = app.handle_action(Action::SpawnSubagent, &ScreenLayout::empty(), 0);
    assert_eq!(effects.len(), 2);
    match &effects[0] {
        Effect::SendAgent(AgentInput::SpawnSubagent { goal }) => assert_eq!(goal, "TUI requested subagent"),
        _ => panic!("expected a spawn"),
    }
    assert!(matches!(effects[1], Effect::SendAgent(AgentInput::QuerySubagents)));
    let effects = app.execute_command(Command::SpawnSubagent(None), 0);
    match &effects[0] {
        Effect::SendAgent(AgentInput::SpawnSubagent { goal }) => assert_eq!(goal, "Command palette subagent"),
        _ => panic!("expected a spawn"),
    }
}

#[test]
fn select_provider_command_switches_or_reports() {
    let mut app = app();
    app.execute_command(Command::SelectProvider(Some("glm".into())), 10);
    assert_eq!(app.provider_registry.active_provider_name(), Some("glm"));
    assert_eq!(app.active_notification(10), Some("Provider switched to: glm"));
    app.execute_command(Command::SelectProvider(Some("nope".into())), 20);
    assert_eq!(app.active_error(20), Some("Provider not found: nope"));
    assert_eq!(app.active_error(3019), Some("Provider not found: nope"));
    assert_eq!(app.active_error(3020), None);
    assert_eq!(app.provider_registry.active_provider_name(), Some("glm"));
}

#[test]
fn bridge_test_checks_command() {
    let mut app = app_with(false, "   ");
    app.execute_command(Command::RunBridgeTest, 1);
    assert!(!app.bridge_connected);
    assert_eq!(app.active_error(1), Some("Bridge test failed: bridge command is empty"));
    let mut ok = app_with(false, "node bridge.js");
    ok.execute_command(Command::RunBridgeTest, 1);
    assert!(ok.bridge_connected);
    assert_eq!(ok.active_error(1), None);
}

#[test]
fn agent_outputs_update_panes() {
    let mut app = app();
    app.apply_agent_output(AgentOutput::Status { message: "hello".into() }, 0);
    assert_eq!(app.agents.last_notification_text(), Some("hello"));
    app.apply_agent_output(AgentOutput::StepExecuted { index: 0, status: StepStatus::Completed }, 0);
    assert_eq!(app.agents.last_notification_text(), Some("Step 1: Completed"));
    app.apply_agent_output(
        AgentOutput::PlanReady { steps: vec![Step::new("Read", "read_file", "{}")] },
        0,
    );
    assert_eq!(app.plan.text(), "○ Read — read_file [pending]");
    app.apply_agent_output(AgentOutput::DiffPreview { step_index: 1, diff: "+x".into() }, 0);
    assert_eq!(app.plan.text(), "Diff for step 2\n+x");
    app.apply_agent_output(
        AgentOutput::SubagentStatus {
            agents: vec![
                SubagentInfo { id: "a".into(), goal: "g".into(), status: "running".into(), turns: 1 },
                SubagentInfo { id: "b".into(), goal: "h".into(), status: "completed".into(), turns: 3 },
                SubagentInfo { id: "c".into(), goal: "i".into(), status: "running".into(), turns: 0 },
            ],
        },
        0,
    );
    assert_eq!(app.agent_counts, (2, 1));
    app.apply_agent_output(
        AgentOutput::SubagentResult { id: "z".into(), goal: "goal".into(), result: "done".into() },
        7,
    );
    assert_eq!(app.agents.agents().len(), 1);
    assert_eq!(app.agent_counts, (0, 1));
    assert_eq!(app.active_error(7), Some("done"));
    app.apply_agent_output(AgentOutput::ResponseChunk("```mermaid\ngraph TD\nA-->B\n```".into()), 8);
    let n = app.agents.last_notification_text().unwrap().to_string();
    assert!(n.starts_with("```mermaid"));
}

#[test]
fn render_mermaid_from_palette_reports_counts() {
    let mut app = app();
    app.execute_command(Command::RenderMermaid, 0);
    assert!(!app.show_mermaid_render);
    assert_eq!(app.active_error(0), Some("No Mermaid diagrams found in agent output"));
    app.apply_agent_output(AgentOutput::Status { message: "```mermaid\ngraph TD\nA-->B\n```".into() }, 0);
    app.execute_command(Command::RenderMermaid, 1);
    assert!(app.show_mermaid_render);
    assert_eq!(app.mermaid_widget.as_ref().map(|w| w.diagram_count()), Some(1));
    assert_eq!(app.active_notification(1), Some("1 Mermaid diagram(s) detected"));
    app.handle_action(Action::RenderMermaid, &ScreenLayout::empty(), 2);
    assert!(!app.show_mermaid_render);
    assert!(app.mermaid_widget.is_none());
}

#[test]
fn plugins_and_git_toggles_notify() {
    let mut app = app();
    app.handle_action(Action::TogglePlugins, &ScreenLayout::empty(), 0);
    assert!(app.agents.show_plugins());
    assert_eq!(app.agents.plugins().len(), 3);
    assert_eq!(app.agents.plugins()[1].backend, "TypeScript");
    assert_eq!(app.active_notification(0), Some("Loaded 3 plugins (Native/TS/Python)"));
    app.handle_action(Action::TogglePlugins, &ScreenLayout::empty(), 0);
    assert_eq!(app.active_notification(0), Some("Plugins hidden"));
    app.handle_action(Action::ToggleGitStatus, &ScreenLayout::empty(), 0);
    assert!(!app.git_manager.status_visible());
    assert_eq!(app.active_notification(0), Some("Git status: hidden"));
    assert_eq!(app.active_notification(4000), None);
}

#[test]
fn palette_confirm_runs_selected_command() {
    let mut app = app();
    app.handle_action(Action::OpenCommandPalette, &ScreenLayout::empty(), 0);
    for c in "quit".chars() {
        app.handle_palette_action(Action::PaletteInput(c), 0);
    }
    app.handle_palette_action(Action::PaletteConfirm, 0);
    assert!(!app.command_palette.is_open());
    assert!(app.should_quit);
}

#[test]
fn shutdown_request_stops_and_tells_agent() {
    let mut app = app();
    let effects = app.shutdown_requested(3);
    assert!(app.should_quit);
    assert!(matches!(effects[0], Effect::SendAgent(AgentInput::Shutdown)));
    assert_eq!(app.active_notification(3), Some("Shutting down..."));
    app.agent_unavailable(4);
    assert_eq!(app.active_error(4), Some("Agent loop is not available"));
    app.file_open_failed("denied", true, 5);
    assert_eq!(app.active_error(5), Some("Open failed: denied"));
}

#[test]
fn the_largest_step_index_is_numbered_without_overflow() {
    let mut app = app();
    app.apply_agent_output(AgentOutput::StepExecuted { index: usize::MAX, status: StepStatus::Failed }, 0);
    let expected = format!("Step {}: Failed", (usize::MAX as u128) + 1);
    assert_eq!(app.agents.last_notification_text(), Some(expected.as_str()));
}
