use rust_core::agent::git::GitStatus;
use rust_core::tui::status_bar::{status_line, StatusFacts, APP_TITLE};
use rust_core::tui::Pane;

#[test]
fn status_line_lists_the_state_in_order() {
    let facts = StatusFacts {
        pane: Pane::Editor,
        branch: Some("main".to_string()),
        git: Some(GitStatus {
            branch: "main".to_string(),
            is_clean: false,
            modified: 2,
            staged: 1,
            untracked: 3,
            changed_files: vec![],
            detached: false,
        }),
        bridge_connected: true,
        provider: Some("glm".to_string()),
        agents: (1, 4),
        dark_mode: false,
        notification: Some("Saved".to_string()),
    };
    assert_eq!(
        status_line(&facts),
        "  Mode: Editor  |  Branch: main  |  Git: +1 ~2 ?3  |  Bridge: connected  |  Provider: glm  |  Agents: 1 running, 4 done  |  Light  |  Saved  |  Ctrl+P commands  F1 help  q quit"
    );
    assert_eq!(APP_TITLE, "Pi Hybrid v0.1.0");
}

#[test]
fn status_line_leaves_out_missing_facts() {
    let facts = StatusFacts {
        pane: Pane::Files,
        branch: None,
        git: None,
        bridge_connected: false,
        provider: None,
        agents: (0, 0),
        dark_mode: true,
        notification: None,
    };
    assert_eq!(
        status_line(&facts),
        "  Mode: Files  |  Bridge: disconnected  |  Agents: 0 running, 0 done  |  Dark  |  Ctrl+P commands  F1 help  q quit"
    );
}
