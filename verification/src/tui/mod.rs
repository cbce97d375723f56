//! State of the terminal interface: panes, toggles and overlays.
use crate::tui::mermaid::Tone;
use vstd::prelude::*;

pub mod agent_pane;
pub mod command_palette;
pub mod editor_pane;
pub mod file_tree;
pub mod help_popup;
pub mod mermaid;
pub mod plan_pane;
pub mod semantic_diff;
pub mod status_bar;
pub mod toggles;

verus! {

/// A pane of the main screen.
#[derive(Debug, Clone, Copy, PartialEq, Eq, Structural)]
pub enum Pane {
    Files,
    Editor,
    Agents,
    PlanApproval,
}

/// The position of a pane in the cycling order.
pub open spec fn pane_index(p: Pane) -> int {
    match p {
        Pane::Files => 0,
        Pane::Editor => 1,
        Pane::Agents => 2,
        Pane::PlanApproval => 3,
    }
}

/// The pane at a position of the cycling order.
pub open spec fn pane_at(i: int) -> Pane {
    if i == 0 {
        Pane::Files
    } else if i == 1 {
        Pane::Editor
    } else if i == 2 {
        Pane::Agents
    } else {
        Pane::PlanApproval
    }
}

/// The title of a pane.
pub open spec fn pane_title(p: Pane) -> Seq<char> {
    match p {
        Pane::Files => "Files"@,
        Pane::Editor => "Editor"@,
        Pane::Agents => "Agents"@,
        Pane::PlanApproval => "Plan/Approval"@,
    }
}

impl Pane {
    /// All panes in cycling order.
    pub fn all() -> (r: [Pane; 4])
        ensures
            r@ == seq![Pane::Files, Pane::Editor, Pane::Agents, Pane::PlanApproval],
    {
        [Pane::Files, Pane::Editor, Pane::Agents, Pane::PlanApproval]
    }

    /// The title shown for the pane.
    pub fn title(self) -> (r: &'static str)
        ensures
            r@ == pane_title(self),
    {
        match self {
            Pane::Files => "Files",
            Pane::Editor => "Editor",
            Pane::Agents => "Agents",
            Pane::PlanApproval => "Plan/Approval",
        }
    }

    /// The pane after this one, wrapping from the last to the first.
    pub fn next(self) -> (r: Pane)
        ensures
            r == pane_at((pane_index(self) + 1) % 4),
    {
        match self {
            Pane::Files => Pane::Editor,
            Pane::Editor => Pane::Agents,
            Pane::Agents => Pane::PlanApproval,
            Pane::PlanApproval => Pane::Files,
        }
    }
}

/// How a pane's border is drawn: its colour, and whether it is bold.
#[derive(Debug, Clone, Copy, PartialEq, Eq, Structural)]
pub struct BorderStyle {
    pub tone: Tone,
    pub bold: bool,
}

/// The border of the active pane is bold cyan; the others are dark grey.
pub fn active_border_style(is_active: bool) -> (r: BorderStyle)
    ensures
        is_active ==> r == (BorderStyle { tone: Tone::Cyan, bold: true }),
        !is_active ==> r == (BorderStyle { tone: Tone::DarkGray, bold: false }),
{
    if is_active {
        BorderStyle { tone: Tone::Cyan, bold: true }
    } else {
        BorderStyle { tone: Tone::DarkGray, bold: false }
    }
}

/// Cycling through the panes visits every pane once and comes back after four steps.
pub proof fn lemma_pane_cycle(p: Pane)
    ensures
        pane_at(pane_index(p)) == p,
        pane_at((pane_index(pane_at((pane_index(pane_at((pane_index(pane_at((pane_index(p)
            + 1) % 4)) + 1) % 4)) + 1) % 4)) + 1) % 4) == p,
{
}

} // verus!
