//! The help overlay.
use vstd::prelude::*;

verus! {

/// The help overlay, open or closed.
#[derive(Debug)]
pub struct HelpPopup {
    open: bool,
}

impl HelpPopup {
    /// Whether the overlay is open.
    pub closed spec fn spec_is_open(&self) -> bool {
        self.open
    }

    /// Opens the overlay.
    pub fn open(&mut self)
        ensures
            final(self).spec_is_open(),
    {
        self.open = true;
    }

    /// Closes the overlay.
    pub fn close(&mut self)
        ensures
            !final(self).spec_is_open(),
    {
        self.open = false;
    }

    /// Whether the overlay is open.
    pub fn is_open(&self) -> (r: bool)
        ensures
            r == self.spec_is_open(),
    {
        self.open
    }
}

impl Default for HelpPopup {
    fn default() -> (r: Self)
        ensures
            !r.spec_is_open(),
    {
        HelpPopup { open: false }
    }
}

/// One line of the help text, and whether it heads a section.
#[derive(Debug, Clone)]
pub struct HelpLine {
    pub text: String,
    pub heading: bool,
}

/// The title of the overlay.
pub const HELP_TITLE: &'static str = " Help ";

/// The help text: four sections of key bindings.
pub open spec fn help_text() -> Seq<(Seq<char>, bool)> {
    seq![
        ("Navigation"@, true),
        ("  j/k, arrows: move selection or scroll"@, false),
        ("  gg / G: top / bottom"@, false),
        ("  Ctrl+d / Ctrl+u: page down / page up"@, false),
        (""@, false),
        ("Panes"@, true),
        ("  Tab: cycle panes"@, false),
        ("  Tab: reach Files, Editor, Agents, Plan"@, false),
        ("  F2-F4: focus Editor, Agents, Plan"@, false),
        (""@, false),
        ("Actions"@, true),
        ("  Ctrl+P / Cmd+P: command palette"@, false),
        ("  Enter: open selected file"@, false),
        ("  a/r/e: approve, reject, edit plan"@, false),
        ("  q: quit"@, false),
        (""@, false),
        ("Toggles"@, true),
        ("  F5: file tree"@, false),
        ("  F6: agent pane"@, false),
        ("  F7: dark/light mode"@, false),
        ("  Esc: close popup"@, false)
    ]
}

impl HelpPopup {
    /// The lines the overlay shows: the help text while open, nothing while closed.
    pub fn lines(&self) -> (r: Vec<HelpLine>)
        ensures
            !self.spec_is_open() ==> r@.len() == 0,
            self.spec_is_open() ==> r@.map_values(|l: HelpLine| (l.text@, l.heading)) == help_text(),
    {
        let mut r: Vec<HelpLine> = Vec::new();
        if !self.open {
            return r;
        }
        r.push(HelpLine { text: "Navigation".to_owned(), heading: true });
        r.push(HelpLine { text: "  j/k, arrows: move selection or scroll".to_owned(), heading: false });
        r.push(HelpLine { text: "  gg / G: top / bottom".to_owned(), heading: false });
        r.push(HelpLine { text: "  Ctrl+d / Ctrl+u: page down / page up".to_owned(), heading: false });
        r.push(HelpLine { text: "".to_owned(), heading: false });
        r.push(HelpLine { text: "Panes".to_owned(), heading: true });
        r.push(HelpLine { text: "  Tab: cycle panes".to_owned(), heading: false });
        r.push(HelpLine { text: "  Tab: reach Files, Editor, Agents, Plan".to_owned(), heading: false });
        r.push(HelpLine { text: "  F2-F4: focus Editor, Agents, Plan".to_owned(), heading: false });
        r.push(HelpLine { text: "".to_owned(), heading: false });
        r.push(HelpLine { text: "Actions".to_owned(), heading: true });
        r.push(HelpLine { text: "  Ctrl+P / Cmd+P: command palette".to_owned(), heading: false });
        r.push(HelpLine { text: "  Enter: open selected file".to_owned(), heading: false });
        r.push(HelpLine { text: "  a/r/e: approve, reject, edit plan".to_owned(), heading: false });
        r.push(HelpLine { text: "  q: quit".to_owned(), heading: false });
        r.push(HelpLine { text: "".to_owned(), heading: false });
        r.push(HelpLine { text: "Toggles".to_owned(), heading: true });
        r.push(HelpLine { text: "  F5: file tree".to_owned(), heading: false });
        r.push(HelpLine { text: "  F6: agent pane".to_owned(), heading: false });
        r.push(HelpLine { text: "  F7: dark/light mode".to_owned(), heading: false });
        r.push(HelpLine { text: "  Esc: close popup".to_owned(), heading: false });
        assert(r@.map_values(|l: HelpLine| (l.text@, l.heading)) =~= help_text());
        r
    }
}

} // verus!
