use rust_core::tui::command_palette::{fuzzy_match, Command, CommandPalette};

#[test]
fn fuzzy_matching_allows_sparse_queries() {
    assert!(fuzzy_match("Run Bridge Test", "rbt"));
    assert!(fuzzy_match("Toggle: Agent Pane Visible/Hidden", "tag"));
    assert!(!fuzzy_match("Quit", "bridge"));
}

#[test]
fn fuzzy_match_empty_query_matches_all() {
    assert!(fuzzy_match("anything", ""));
    assert!(fuzzy_match("anything", "  "));
}

#[test]
fn fuzzy_match_exact() {
    assert!(fuzzy_match("Quit", "Quit"));
    assert!(fuzzy_match("Quit", "quit"));
    assert!(!fuzzy_match("Quit", "quitz"));
}

#[test]
fn fuzzy_match_case_insensitive() {
    assert!(fuzzy_match("Open File...", "open"));
    assert!(fuzzy_match("OPEN FILE...", "file"));
    assert!(fuzzy_match("Toggle Dark Mode", "DARK"));
}

#[test]
fn fuzzy_match_sparse_ordering_matters() {
    assert!(!fuzzy_match("Run Bridge Test", "sbt"));
    assert!(fuzzy_match("Run Bridge Test", "rbt"));
}

#[test]
fn palette_opens_and_closes() {
    let mut palette = CommandPalette::new(vec![]);
    assert!(!palette.is_open());
    palette.open();
    assert!(palette.is_open());
    palette.close();
    assert!(!palette.is_open());
}

#[test]
fn palette_query_clears_on_open() {
    let mut palette = CommandPalette::new(vec![]);
    palette.open();
    palette.push_char('a');
    palette.push_char('b');
    assert!(!palette.visible_commands().is_empty());
    palette.open();
    assert!(palette.visible_commands().len() > 5);
}

#[test]
fn palette_backspace() {
    let mut palette = CommandPalette::new(vec![]);
    palette.open();
    palette.push_char('q');
    palette.push_char('u');
    palette.push_char('i');
    palette.backspace();
    let visible = palette.visible_commands();
    assert!(!visible.is_empty());
    assert!(visible.iter().any(|c| c.name == "Quit"));
}

#[test]
fn palette_move_up_down() {
    let mut palette = CommandPalette::new(vec![]);
    palette.open();
    let visible_count = palette.visible_commands().len();
    assert!(visible_count > 0);
    palette.move_down();
    palette.move_down();
    palette.move_down();
    palette.move_up();
    assert_eq!(palette.selected_index(), 2);
}

#[test]
fn palette_move_up_saturates() {
    let mut palette = CommandPalette::new(vec![]);
    palette.open();
    palette.move_up();
    palette.move_up();
    assert_eq!(palette.selected_index(), 0);
}

#[test]
fn palette_move_down_clamps_to_visible() {
    let mut palette = CommandPalette::new(vec![]);
    palette.open();
    let visible_count = palette.visible_commands().len();
    for _ in 0..visible_count + 10 {
        palette.move_down();
    }
    assert_eq!(palette.selected_index(), visible_count - 1);
}

#[test]
fn palette_selected_command_quit() {
    let mut palette = CommandPalette::new(vec![]);
    palette.open();
    let visible = palette.visible_commands();
    let quit_idx = visible.iter().position(|c| c.name == "Quit").unwrap();
    for _ in 0..quit_idx {
        palette.move_down();
    }
    let selected = palette.selected_command();
    assert_eq!(selected, Some(Command::Quit));
}

#[test]
fn palette_files_in_visible_commands() {
    let files = vec!["src/main.rs".to_string(), "src/lib.rs".to_string()];
    let mut palette = CommandPalette::new(files);
    palette.open();
    let visible = palette.visible_commands();
    let file_commands: Vec<_> = visible
        .iter()
        .filter(|c| c.name.starts_with("Open File:"))
        .collect();
    assert_eq!(file_commands.len(), 2);
}

#[test]
fn palette_set_files_updates() {
    let mut palette = CommandPalette::new(vec![]);
    palette.open();
    let visible_before = palette.visible_commands().len();
    palette.set_files(vec!["test.rs".to_string()]);
    let visible_after = palette.visible_commands().len();
    assert!(visible_after > visible_before);
}

#[test]
fn palette_push_str() {
    let mut palette = CommandPalette::new(vec![]);
    palette.open();
    palette.push_str("Qui");
    let visible = palette.visible_commands();
    assert!(visible.iter().any(|c| c.name == "Quit"));
}

#[test]
fn all_base_commands_have_non_empty_names() {
    let mut palette = CommandPalette::new(vec![]);
    palette.open();
    for cmd in palette.visible_commands() {
        assert!(!cmd.name.is_empty());
    }
}

#[test]
fn palette_selected_command_with_subagent_goal() {
    let mut palette = CommandPalette::new(vec![]);
    palette.open();
    palette.push_str("spawn");
    let visible = palette.visible_commands();
    let idx = visible
        .iter()
        .position(|c| c.name == "Spawn Subagent...")
        .unwrap();
    for _ in 0..idx {
        palette.move_down();
    }
    palette.open();
    palette.push_str("build the project");
    let visible2 = palette.visible_commands();
    assert!(!visible2.iter().any(|c| c.name == "Spawn Subagent..."));
}

#[test]
fn palette_filters_to_bridge_test() {
    let mut palette = CommandPalette::new(vec![]);
    palette.open();
    palette.push_str("bridge");
    assert_eq!(palette.visible_commands()[0].name, "Run Bridge Test");
}
