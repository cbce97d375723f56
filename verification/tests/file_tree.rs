use rust_core::tui::editor_pane::EditorPane;
use rust_core::tui::file_tree::{entry_for, join_path_str, FileEntry, FileTree};

#[test]
fn tree_navigation_clamps_to_bounds() {
    let mut tree = FileTree::from_entries(
        ".",
        vec![
            FileEntry { path: "a".into(), display: "a".into() },
            FileEntry { path: "b".into(), display: "b".into() },
        ],
    );
    tree.move_up();
    assert_eq!(tree.selected(), 0);
    tree.move_down();
    tree.move_down();
    assert_eq!(tree.selected(), 1);
    tree.go_top();
    assert_eq!(tree.selected(), 0);
}

#[test]
fn selected_path_joins_root() {
    let mut tree = FileTree::from_entries("/ws", vec![entry_for("src/main.rs"), entry_for("README.md")]);
    assert_eq!(tree.selected_path().as_deref(), Some("/ws/src/main.rs"));
    tree.go_bottom();
    assert_eq!(tree.selected_path().as_deref(), Some("/ws/README.md"));
    let empty = FileTree::from_entries(".", Vec::new());
    assert!(empty.selected_path().is_none());
    assert_eq!(join_path_str(".", "a"), "./a");
    assert_eq!(join_path_str("", "a"), "a");
    assert_eq!(join_path_str("/x/", "a"), "/x/a");
    assert_eq!(join_path_str("/x", "/abs"), "/abs");
}

#[test]
fn entries_are_indented_by_depth() {
    let e = entry_for("src/agent/plan.rs");
    assert_eq!(e.path, "src/agent/plan.rs");
    assert_eq!(e.display, "    plan.rs");
    assert_eq!(entry_for("Cargo.toml").display, "Cargo.toml");
}

#[test]
fn paging_stays_in_bounds() {
    let entries: Vec<FileEntry> = (0..25).map(|i| entry_for(&format!("f{i}"))).collect();
    let mut tree = FileTree::from_entries(".", entries);
    tree.page_down();
    assert_eq!(tree.selected(), 10);
    tree.page_down();
    tree.page_down();
    assert_eq!(tree.selected(), 24);
    tree.page_up();
    assert_eq!(tree.selected(), 14);
    assert_eq!(tree.relative_paths().len(), 25);
}

#[test]
fn editor_scrolls_within_lines() {
    let mut editor = EditorPane::default();
    editor.scroll_down();
    assert_eq!(editor.scroll(), 0);
    editor.load("f.txt", "a\nb\nc\r\nd");
    assert_eq!(editor.current_file(), Some("f.txt"));
    assert_eq!(editor.lines(), &vec!["a".to_string(), "b".into(), "c".into(), "d".into()]);
    editor.page_down();
    assert_eq!(editor.scroll(), 3);
    editor.scroll_up();
    assert_eq!(editor.scroll(), 2);
    editor.go_top();
    assert_eq!(editor.scroll(), 0);
    editor.go_bottom();
    assert_eq!(editor.scroll(), 3);
}
