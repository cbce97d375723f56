//! Visibility and theme switches of the interface.
use vstd::prelude::*;

verus! {

/// Which side panes are shown, and whether the dark theme is on.
#[derive(Debug, Clone, Copy, PartialEq, Eq, Structural)]
pub struct Toggles {
    pub show_file_tree: bool,
    pub show_agent_pane: bool,
    pub dark_mode: bool,
}

impl Default for Toggles {
    fn default() -> (r: Self)
        ensures
            r == (Toggles { show_file_tree: true, show_agent_pane: true, dark_mode: true }),
    {
        Toggles { show_file_tree: true, show_agent_pane: true, dark_mode: true }
    }
}

impl Toggles {
    /// Shows the file tree if hidden, hides it if shown.
    pub fn toggle_file_tree(&mut self)
        ensures
            *final(self) == (Toggles { show_file_tree: !old(self).show_file_tree, ..*old(self) }),
    {
        self.show_file_tree = !self.show_file_tree;
    }

    /// Shows the agent pane if hidden, hides it if shown.
    pub fn toggle_agent_pane(&mut self)
        ensures
            *final(self) == (Toggles { show_agent_pane: !old(self).show_agent_pane, ..*old(self) }),
    {
        self.show_agent_pane = !self.show_agent_pane;
    }

    /// Switches between the dark and the light theme.
    pub fn toggle_dark_mode(&mut self)
        ensures
            *final(self) == (Toggles { dark_mode: !old(self).dark_mode, ..*old(self) }),
    {
        self.dark_mode = !self.dark_mode;
    }
}

/// Toggling a switch twice restores every switch, and each toggle leaves the others alone.
pub proof fn lemma_toggle_twice(t: Toggles)
    ensures
        (Toggles { show_file_tree: !(Toggles { show_file_tree: !t.show_file_tree, ..t }).show_file_tree, ..t }) == t,
        (Toggles { show_agent_pane: !(Toggles { show_agent_pane: !t.show_agent_pane, ..t }).show_agent_pane, ..t }) == t,
        (Toggles { dark_mode: !(Toggles { dark_mode: !t.dark_mode, ..t }).dark_mode, ..t }) == t,
{
}

} // verus!
