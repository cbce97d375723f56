use rust_core::keybindings::{
    Action, KeyBindings, KeyCode, KeyEvent, KeyModifiers, MouseEvent, MouseEventKind,
};
use rust_core::tui::Pane;

fn key(code: KeyCode) -> KeyEvent {
    KeyEvent::new(code, KeyModifiers::empty())
}

#[test]
fn maps_global_keys_and_function_panes() {
    let mut bindings = KeyBindings::default();
    assert_eq!(bindings.handle_key(key(KeyCode::Char('q')), Pane::Editor), Some(Action::Quit));
    assert_eq!(bindings.handle_key(key(KeyCode::Tab), Pane::Editor), Some(Action::CyclePane));
    assert_eq!(bindings.handle_key(key(KeyCode::F(1)), Pane::Editor), Some(Action::OpenHelp));
}

#[test]
fn maps_vim_navigation_sequences() {
    let mut bindings = KeyBindings::default();
    assert_eq!(bindings.handle_key(key(KeyCode::Char('j')), Pane::Files), Some(Action::MoveDown));
    assert_eq!(bindings.handle_key(key(KeyCode::Char('g')), Pane::Files), None);
    assert_eq!(bindings.handle_key(key(KeyCode::Char('g')), Pane::Files), Some(Action::GoTop));
    assert_eq!(
        bindings.handle_key(KeyEvent::new(KeyCode::Char('d'), KeyModifiers::control_only()), Pane::Editor),
        Some(Action::PageDown)
    );
}

#[test]
fn plan_actions_are_pane_scoped() {
    let mut bindings = KeyBindings::default();
    assert_eq!(bindings.handle_key(key(KeyCode::Char('a')), Pane::Editor), None);
    assert_eq!(bindings.handle_key(key(KeyCode::Char('a')), Pane::PlanApproval), Some(Action::ApprovePlan));
}

#[test]
fn ctrl_p_while_palette_open_closes_it_instead_of_typing() {
    let mut bindings = KeyBindings::default();
    assert_eq!(
        bindings.handle_palette_key(KeyEvent::new(KeyCode::Char('p'), KeyModifiers::control_only())),
        Some(Action::CloseOverlay)
    );
}

#[test]
fn ctrl_modified_chars_are_not_typed_into_palette_input() {
    let mut bindings = KeyBindings::default();
    assert_eq!(
        bindings.handle_palette_key(KeyEvent::new(KeyCode::Char('c'), KeyModifiers::control_only())),
        None
    );
}

#[test]
fn maps_phase_1b_overlays_and_toggles() {
    let mut bindings = KeyBindings::default();
    assert_eq!(
        bindings.handle_key(KeyEvent::new(KeyCode::Char('p'), KeyModifiers::control_only()), Pane::Editor),
        Some(Action::OpenCommandPalette)
    );
    assert_eq!(bindings.handle_key(key(KeyCode::Char('?')), Pane::Editor), Some(Action::OpenHelp));
    assert_eq!(bindings.handle_key(key(KeyCode::F(5)), Pane::Editor), Some(Action::ToggleFileTree));
    assert_eq!(bindings.handle_key(key(KeyCode::F(6)), Pane::Editor), Some(Action::ToggleAgentPane));
    assert_eq!(bindings.handle_key(key(KeyCode::F(7)), Pane::Editor), Some(Action::ToggleDarkMode));
    assert_eq!(bindings.handle_key(key(KeyCode::F(8)), Pane::Editor), Some(Action::SpawnSubagent));
    assert_eq!(bindings.handle_key(key(KeyCode::F(9)), Pane::Editor), Some(Action::TogglePlugins));
}

#[test]
fn pending_g_is_cleared_by_other_keys() {
    let mut bindings = KeyBindings::default();
    assert_eq!(bindings.handle_key(key(KeyCode::Char('g')), Pane::Files), None);
    assert!(bindings.pending_g());
    assert_eq!(bindings.handle_key(key(KeyCode::Char('j')), Pane::Files), Some(Action::MoveDown));
    assert!(!bindings.pending_g());
    assert_eq!(bindings.handle_key(key(KeyCode::Char('g')), Pane::Files), None);
}

#[test]
fn modified_quit_and_git_toggle() {
    let mut bindings = KeyBindings::default();
    assert_eq!(bindings.handle_key(KeyEvent::new(KeyCode::Char('q'), KeyModifiers::control_only()), Pane::Editor), None);
    assert_eq!(bindings.handle_key(key(KeyCode::F(10)), Pane::Editor), Some(Action::ToggleGitStatus));
    assert_eq!(
        bindings.handle_key(KeyEvent::new(KeyCode::Char('g'), KeyModifiers::control_only()), Pane::Files),
        Some(Action::ToggleGitStatus)
    );
    assert!(!bindings.pending_g());
    assert_eq!(
        bindings.handle_key(KeyEvent::new(KeyCode::F(10), KeyModifiers::control_only()), Pane::Editor),
        Some(Action::ToggleGitStatus)
    );
    assert_eq!(
        bindings.handle_key(KeyEvent::new(KeyCode::Char('p'), KeyModifiers::super_only()), Pane::Editor),
        Some(Action::OpenCommandPalette)
    );
    assert_eq!(
        bindings.handle_palette_key(KeyEvent::new(KeyCode::Char('X'), KeyModifiers::shift_only())),
        Some(Action::PaletteInput('X'))
    );
}

#[test]
fn mouse_press_focuses() {
    let bindings = KeyBindings::default();
    let down = MouseEvent { kind: MouseEventKind::Down, column: 3, row: 4 };
    assert_eq!(bindings.handle_mouse(down), Some(Action::MouseFocus { column: 3, row: 4 }));
    let other = MouseEvent { kind: MouseEventKind::Other, column: 3, row: 4 };
    assert_eq!(bindings.handle_mouse(other), None);
}
