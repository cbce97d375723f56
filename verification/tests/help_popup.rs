use rust_core::tui::help_popup::{HelpPopup, HELP_TITLE};
use rust_core::workbench::{centered_rect, Rect};

fn render_popup(open: bool) -> String {
    let mut popup = HelpPopup::default();
    if open {
        popup.open();
    }
    let lines = popup.lines();
    if lines.is_empty() {
        return String::new();
    }
    let mut text = HELP_TITLE.to_string();
    for l in lines {
        text.push_str(&l.text);
        text.push('\n');
    }
    text
}

#[test]
fn closed_popup_renders_nothing() {
    let output = render_popup(false);
    assert!(!output.contains("Help"));
}

#[test]
fn open_popup_shows_content() {
    let output = render_popup(true);
    assert!(output.contains("Help"));
    assert!(output.contains("Navigation"));
    assert!(output.contains("j/k"));
}

#[test]
fn open_popup_has_all_sections() {
    let output = render_popup(true);
    assert!(output.contains("Navigation"));
    assert!(output.contains("Panes"));
    assert!(output.contains("Actions"));
    assert!(output.contains("Toggles"));
}

#[test]
fn centered_rect_computes_correct_area() {
    let rect = centered_rect(50, 50, Rect::new(0, 0, 100, 100));
    assert_eq!(rect.x, 25);
    assert_eq!(rect.y, 25);
    assert_eq!(rect.width, 50);
    assert_eq!(rect.height, 50);
}

#[test]
fn centered_rect_with_different_percents() {
    let rect = centered_rect(60, 30, Rect::new(0, 0, 80, 40));
    assert_eq!(rect.x, 16);
    assert_eq!(rect.width, 48);
    assert_eq!(rect.y, 14);
    assert_eq!(rect.height, 12);
}

#[test]
fn open_popup_has_quit_key() {
    assert!(render_popup(true).contains("quit"));
}

#[test]
fn open_popup_has_escape_key() {
    assert!(render_popup(true).contains("Esc"));
}

#[test]
fn open_popup_has_specific_toggle_keys() {
    let output = render_popup(true);
    assert!(output.contains("F5"));
    assert!(output.contains("F6"));
    assert!(output.contains("F7"));
}

#[test]
fn open_popup_has_command_palette_hint() {
    assert!(render_popup(true).contains("Ctrl+P"));
}

#[test]
fn open_popup_has_pane_shortcuts() {
    let output = render_popup(true);
    assert!(output.contains("F2-F4"));
    assert!(output.contains("Tab"));
}

#[test]
fn open_popup_has_approve_reject_edit() {
    assert!(render_popup(true).contains("a/r/e"));
}

#[test]
fn centered_rect_full_area() {
    let rect = centered_rect(100, 100, Rect::new(0, 0, 100, 100));
    assert_eq!(rect.x, 0);
    assert_eq!(rect.y, 0);
    assert_eq!(rect.width, 100);
    assert_eq!(rect.height, 100);
}

#[test]
fn centered_rect_minimal() {
    let rect = centered_rect(10, 10, Rect::new(10, 10, 80, 40));
    assert!(rect.width > 0);
    assert!(rect.height > 0);
}

#[test]
fn help_popup_debug_format() {
    let popup = HelpPopup::default();
    let debug = format!("{:?}", popup);
    assert!(debug.contains("HelpPopup"));
}

#[test]
fn help_sections_are_headings() {
    let mut popup = HelpPopup::default();
    popup.open();
    let lines = popup.lines();
    assert_eq!(lines.len(), 21);
    assert!(lines[0].heading && lines[0].text == "Navigation");
    assert!(!lines[1].heading);
}
