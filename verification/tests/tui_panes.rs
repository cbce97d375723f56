use rust_core::tui::help_popup::HelpPopup;
use rust_core::tui::plan_pane::{PlanDecision, PlanPane};
use rust_core::tui::status_bar;
use rust_core::tui::Pane;

#[test]
fn required_pane_titles_are_present() {
    let titles: Vec<&str> = Pane::all().iter().map(|pane| pane.title()).collect();

    assert_eq!(titles, vec!["Files", "Editor", "Agents", "Plan/Approval"]);
    assert_eq!(status_bar::APP_TITLE, "Pi Hybrid v0.1.0");
}

#[test]
fn tab_cycles_through_all_panes_and_wraps() {
    let mut pane = Pane::Editor;
    pane = pane.next();
    assert_eq!(pane, Pane::Agents);
    pane = pane.next();
    assert_eq!(pane, Pane::PlanApproval);
    pane = pane.next();
    assert_eq!(pane, Pane::Files);
    pane = pane.next();
    assert_eq!(pane, Pane::Editor);
}

#[test]
fn open_then_close() {
    let mut popup = HelpPopup::default();
    assert!(!popup.is_open());
    popup.open();
    assert!(popup.is_open());
    popup.close();
    assert!(!popup.is_open());
}

#[test]
fn default_popup_is_closed() {
    let popup = HelpPopup::default();
    assert!(!popup.is_open());
}

#[test]
fn plan_pane_records_decisions() {
    let mut pane = PlanPane::default();
    assert_eq!(pane.decision(), PlanDecision::Pending);
    pane.approve();
    assert_eq!(pane.decision(), PlanDecision::Approved);
    pane.reject();
    assert_eq!(pane.decision(), PlanDecision::Rejected);
    pane.edit();
    assert_eq!(pane.decision(), PlanDecision::Editing);
}
