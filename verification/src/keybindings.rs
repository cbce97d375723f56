//! Mapping of key presses and mouse clicks to actions of the workbench.
use vstd::prelude::*;

use crate::tui::Pane;

verus! {

/// A key of the keyboard, as far as the bindings tell keys apart.
#[derive(Debug, Clone, Copy, PartialEq, Eq, Structural)]
pub enum KeyCode {
    Char(char),
    F(u8),
    Esc,
    Tab,
    Enter,
    Backspace,
    Up,
    Down,
    /// Any key that no binding names.
    Other,
}

/// The modifier keys held down with a key.
#[derive(Debug, Clone, Copy, PartialEq, Eq, Structural)]
pub struct KeyModifiers {
    pub shift: bool,
    pub control: bool,
    pub alt: bool,
    pub super_key: bool,
    pub hyper: bool,
    pub meta: bool,
}

impl KeyModifiers {
    /// No modifier held.
    pub fn empty() -> (r: KeyModifiers)
        ensures
            r.is_none(),
    {
        KeyModifiers {
            shift: false,
            control: false,
            alt: false,
            super_key: false,
            hyper: false,
            meta: false,
        }
    }

    /// Only Shift held.
    pub fn shift_only() -> (r: KeyModifiers)
        ensures
            r.shift && !r.control && !r.alt && !r.super_key && !r.hyper && !r.meta,
    {
        KeyModifiers { shift: true, ..KeyModifiers::empty() }
    }

    /// Only Control held.
    pub fn control_only() -> (r: KeyModifiers)
        ensures
            r.control && !r.shift && !r.alt && !r.super_key && !r.hyper && !r.meta,
    {
        KeyModifiers { control: true, ..KeyModifiers::empty() }
    }

    /// Only the Super (command) key held.
    pub fn super_only() -> (r: KeyModifiers)
        ensures
            r.super_key && !r.shift && !r.control && !r.alt && !r.hyper && !r.meta,
    {
        KeyModifiers { super_key: true, ..KeyModifiers::empty() }
    }

    /// Whether no modifier is held.
    pub open spec fn is_none(self) -> bool {
        !self.shift && !self.control && !self.alt && !self.super_key && !self.hyper && !self.meta
    }

    /// Whether exactly Shift is held.
    pub open spec fn is_shift_only(self) -> bool {
        self.shift && !self.control && !self.alt && !self.super_key && !self.hyper && !self.meta
    }

    /// Whether no modifier is held.
    pub fn is_empty(&self) -> (r: bool)
        ensures
            r == self.is_none(),
    {
        !self.shift && !self.control && !self.alt && !self.super_key && !self.hyper && !self.meta
    }
}

/// A key press: the key and the modifiers held with it.
#[derive(Debug, Clone, Copy, PartialEq, Eq, Structural)]
pub struct KeyEvent {
    pub code: KeyCode,
    pub modifiers: KeyModifiers,
}

impl KeyEvent {
    /// A key press with the given modifiers.
    pub fn new(code: KeyCode, modifiers: KeyModifiers) -> (r: KeyEvent)
        ensures
            r.code == code,
            r.modifiers == modifiers,
    {
        KeyEvent { code, modifiers }
    }
}

/// What the mouse did.
#[derive(Debug, Clone, Copy, PartialEq, Eq, Structural)]
pub enum MouseEventKind {
    /// A button went down.
    Down,
    /// Anything else: release, drag, move, scroll.
    Other,
}

/// A mouse event at a cell of the screen.
#[derive(Debug, Clone, Copy, PartialEq, Eq, Structural)]
pub struct MouseEvent {
    pub kind: MouseEventKind,
    pub column: u16,
    pub row: u16,
}

/// What the workbench is asked to do.
#[derive(Debug, Clone, Copy, PartialEq, Eq, Structural)]
pub enum Action {
    Quit,
    CyclePane,
    CommandMode,
    MoveDown,
    MoveUp,
    GoTop,
    GoBottom,
    PageDown,
    PageUp,
    Select,
    ApprovePlan,
    RejectPlan,
    EditPlan,
    FocusPane(Pane),
    OpenCommandPalette,
    OpenHelp,
    CloseOverlay,
    ToggleFileTree,
    ToggleAgentPane,
    ToggleDarkMode,
    SpawnSubagent,
    TogglePlugins,
    ToggleGitStatus,
    RenderMermaid,
    PaletteConfirm,
    PaletteBackspace,
    PaletteInput(char),
    MouseFocus { column: u16, row: u16 },
}

/// The action a key press maps to while no overlay takes the keys, and whether
/// a first `g` of `gg` is pending afterwards.
pub open spec fn key_action(pending_g: bool, key: KeyEvent, pane: Pane) -> (Option<Action>, bool) {
    let m = key.modifiers;
    if key.code == KeyCode::Char('p') && (m.control || m.super_key) {
        (Some(Action::OpenCommandPalette), pending_g)
    } else {
        let pending = pending_g && key.code == KeyCode::Char('g');
        match key.code {
            KeyCode::Esc => (Some(Action::CloseOverlay), pending),
            KeyCode::Tab => (Some(Action::CyclePane), pending),
            KeyCode::Enter => (Some(Action::Select), pending),
            KeyCode::Down => (Some(Action::MoveDown), pending),
            KeyCode::Up => (Some(Action::MoveUp), pending),
            KeyCode::F(n) => (function_key_action(n, m), pending),
            KeyCode::Char(c) => char_key_action(c, m, pending, pane),
            _ => (None, pending),
        }
    }
}

/// The action of a function key.
pub open spec fn function_key_action(n: u8, m: KeyModifiers) -> Option<Action> {
    if n == 1 {
        Some(Action::OpenHelp)
    } else if n == 2 {
        Some(Action::FocusPane(Pane::Editor))
    } else if n == 3 {
        Some(Action::FocusPane(Pane::Agents))
    } else if n == 4 {
        Some(Action::FocusPane(Pane::PlanApproval))
    } else if n == 5 {
        Some(Action::ToggleFileTree)
    } else if n == 6 {
        Some(Action::ToggleAgentPane)
    } else if n == 7 {
        Some(Action::ToggleDarkMode)
    } else if n == 8 {
        Some(Action::SpawnSubagent)
    } else if n == 9 {
        Some(Action::TogglePlugins)
    } else if n == 10 {
        Some(Action::ToggleGitStatus)
    } else {
        None
    }
}

/// The action of a character key, and the pending `g` afterwards; `pending`
/// is the pending state once any key other than `g` has cleared it.
pub open spec fn char_key_action(c: char, m: KeyModifiers, pending: bool, pane: Pane) -> (
    Option<Action>,
    bool,
) {
    if c == 'q' && m.is_none() {
        (Some(Action::Quit), pending)
    } else if c == ':' && m.is_none() {
        (Some(Action::CommandMode), pending)
    } else if c == '?' && m.is_none() {
        (Some(Action::OpenHelp), pending)
    } else if c == 'j' {
        (Some(Action::MoveDown), pending)
    } else if c == 'k' {
        (Some(Action::MoveUp), pending)
    } else if c == 'G' {
        (Some(Action::GoBottom), pending)
    } else if c == 'g' && m.control {
        (Some(Action::ToggleGitStatus), false)
    } else if c == 'g' {
        if pending {
            (Some(Action::GoTop), false)
        } else {
            (None, true)
        }
    } else if c == 'd' && m.control {
        (Some(Action::PageDown), pending)
    } else if c == 'u' && m.control {
        (Some(Action::PageUp), pending)
    } else if c == 'a' && pane == Pane::PlanApproval {
        (Some(Action::ApprovePlan), pending)
    } else if c == 'r' && pane == Pane::PlanApproval {
        (Some(Action::RejectPlan), pending)
    } else if c == 'e' && pane == Pane::PlanApproval {
        (Some(Action::EditPlan), pending)
    } else {
        (None, pending)
    }
}

/// The action a key press maps to while the command palette is open.
pub open spec fn palette_key_action(key: KeyEvent) -> Option<Action> {
    let m = key.modifiers;
    if key.code == KeyCode::Char('p') && m.control {
        Some(Action::CloseOverlay)
    } else {
        match key.code {
            KeyCode::Esc => Some(Action::CloseOverlay),
            KeyCode::Enter => Some(Action::PaletteConfirm),
            KeyCode::Backspace => Some(Action::PaletteBackspace),
            KeyCode::Down => Some(Action::MoveDown),
            KeyCode::Up => Some(Action::MoveUp),
            KeyCode::Char(c) => if c == 'j' {
                Some(Action::MoveDown)
            } else if c == 'k' {
                Some(Action::MoveUp)
            } else if m.is_none() || m.is_shift_only() {
                Some(Action::PaletteInput(c))
            } else {
                None
            },
            _ => None,
        }
    }
}

/// The key bindings, with the memory of a first `g` of `gg`.
#[derive(Debug)]
pub struct KeyBindings {
    pending_g: bool,
}

impl Default for KeyBindings {
    fn default() -> (r: Self)
        ensures
            !r.spec_pending_g(),
    {
        KeyBindings { pending_g: false }
    }
}

impl KeyBindings {
    /// Whether a first `g` is waiting for a second one.
    pub closed spec fn spec_pending_g(&self) -> bool {
        self.pending_g
    }

    /// Whether a first `g` is waiting for a second one.
    pub fn pending_g(&self) -> (r: bool)
        ensures
            r == self.spec_pending_g(),
    {
        self.pending_g
    }

    /// Maps a key press to an action while no overlay takes the keys.
    pub fn handle_key(&mut self, key: KeyEvent, active_pane: Pane) -> (r: Option<Action>)
        ensures
            (r, final(self).spec_pending_g()) == key_action(
                old(self).spec_pending_g(),
                key,
                active_pane,
            ),
    {
        let m = key.modifiers;
        if m.control && key.code == KeyCode::Char('p') {
            return Some(Action::OpenCommandPalette);
        }
        if m.super_key && key.code == KeyCode::Char('p') {
            return Some(Action::OpenCommandPalette);
        }
        if key.code != KeyCode::Char('g') {
            self.pending_g = false;
        }
        match key.code {
            KeyCode::Esc => Some(Action::CloseOverlay),
            KeyCode::Tab => Some(Action::CyclePane),
            KeyCode::Enter => Some(Action::Select),
            KeyCode::Down => Some(Action::MoveDown),
            KeyCode::Up => Some(Action::MoveUp),
            KeyCode::F(n) => {
                if n == 1 {
                    Some(Action::OpenHelp)
                } else if n == 2 {
                    Some(Action::FocusPane(Pane::Editor))
                } else if n == 3 {
                    Some(Action::FocusPane(Pane::Agents))
                } else if n == 4 {
                    Some(Action::FocusPane(Pane::PlanApproval))
                } else if n == 5 {
                    Some(Action::ToggleFileTree)
                } else if n == 6 {
                    Some(Action::ToggleAgentPane)
                } else if n == 7 {
                    Some(Action::ToggleDarkMode)
                } else if n == 8 {
                    Some(Action::SpawnSubagent)
                } else if n == 9 {
                    Some(Action::TogglePlugins)
                } else if n == 10 {
                    Some(Action::ToggleGitStatus)
                } else {
                    None
                }
            },
            KeyCode::Char(c) => self.handle_char(c, m, active_pane),
            _ => None,
        }
    }

    /// The part of `handle_key` for character keys.
    fn handle_char(&mut self, c: char, m: KeyModifiers, pane: Pane) -> (r: Option<Action>)
        ensures
            (r, final(self).spec_pending_g()) == char_key_action(
                c,
                m,
                old(self).spec_pending_g(),
                pane,
            ),
    {
        let none = m.is_empty();
        if c == 'q' && none {
            Some(Action::Quit)
        } else if c == ':' && none {
            Some(Action::CommandMode)
        } else if c == '?' && none {
            Some(Action::OpenHelp)
        } else if c == 'j' {
            Some(Action::MoveDown)
        } else if c == 'k' {
            Some(Action::MoveUp)
        } else if c == 'G' {
            Some(Action::GoBottom)
        } else if c == 'g' && m.control {
            self.pending_g = false;
            Some(Action::ToggleGitStatus)
        } else if c == 'g' {
            if self.pending_g {
                self.pending_g = false;
                Some(Action::GoTop)
            } else {
                self.pending_g = true;
                None
            }
        } else if c == 'd' && m.control {
            Some(Action::PageDown)
        } else if c == 'u' && m.control {
            Some(Action::PageUp)
        } else if c == 'a' && pane == Pane::PlanApproval {
            Some(Action::ApprovePlan)
        } else if c == 'r' && pane == Pane::PlanApproval {
            Some(Action::RejectPlan)
        } else if c == 'e' && pane == Pane::PlanApproval {
            Some(Action::EditPlan)
        } else {
            None
        }
    }

    /// Maps a key press to an action while the command palette is open.
    pub fn handle_palette_key(&mut self, key: KeyEvent) -> (r: Option<Action>)
        ensures
            r == palette_key_action(key),
            final(self).spec_pending_g() == old(self).spec_pending_g(),
    {
        let m = key.modifiers;
        if m.control && key.code == KeyCode::Char('p') {
            return Some(Action::CloseOverlay);
        }
        match key.code {
            KeyCode::Esc => Some(Action::CloseOverlay),
            KeyCode::Enter => Some(Action::PaletteConfirm),
            KeyCode::Backspace => Some(Action::PaletteBackspace),
            KeyCode::Down => Some(Action::MoveDown),
            KeyCode::Up => Some(Action::MoveUp),
            KeyCode::Char(c) => {
                if c == 'j' {
                    Some(Action::MoveDown)
                } else if c == 'k' {
                    Some(Action::MoveUp)
                } else if m.is_empty() || (m.shift && !m.control && !m.alt && !m.super_key
                    && !m.hyper && !m.meta) {
                    Some(Action::PaletteInput(c))
                } else {
                    None
                }
            },
            _ => None,
        }
    }

    /// Maps a mouse event to an action: a button press focuses the pane under it.
    pub fn handle_mouse(&self, mouse: MouseEvent) -> (r: Option<Action>)
        ensures
            r == (match mouse.kind {
                MouseEventKind::Down => Some(Action::MouseFocus { column: mouse.column, row: mouse.row }),
                MouseEventKind::Other => None,
            }),
    {
        match mouse.kind {
            MouseEventKind::Down => Some(Action::MouseFocus { column: mouse.column, row: mouse.row }),
            MouseEventKind::Other => None,
        }
    }
}

/// Two `g` presses in a row, with no modifier, go to the top in any pane:
/// the first only arms the sequence, the second fires it and disarms it;
/// any other key in between disarms it.
pub proof fn lemma_gg_sequence(pane: Pane, other: KeyEvent)
    requires
        other.code != KeyCode::Char('g'),
        !(other.code == KeyCode::Char('p') && (other.modifiers.control || other.modifiers.super_key)),
    ensures
        ({
            let g = KeyEvent { code: KeyCode::Char('g'), modifiers: KeyModifiers { shift: false, control: false, alt: false, super_key: false, hyper: false, meta: false } };
            &&& key_action(false, g, pane) == (None::<Action>, true)
            &&& key_action(true, g, pane) == (Some(Action::GoTop), false)
            &&& key_action(true, other, pane).1 == false
        }),
{
}

/// In the plan pane `a` approves, `r` rejects and `e` edits the plan,
/// whatever modifiers are held and whether a `g` was pending; in every other
/// pane these letters do nothing.
pub proof fn lemma_plan_keys(pending: bool, m: KeyModifiers, pane: Pane)
    ensures
        pane == Pane::PlanApproval ==> {
            &&& key_action(pending, KeyEvent { code: KeyCode::Char('a'), modifiers: m }, pane).0 == Some(Action::ApprovePlan)
            &&& key_action(pending, KeyEvent { code: KeyCode::Char('r'), modifiers: m }, pane).0 == Some(Action::RejectPlan)
            &&& key_action(pending, KeyEvent { code: KeyCode::Char('e'), modifiers: m }, pane).0 == Some(Action::EditPlan)
        },
        pane != Pane::PlanApproval ==> {
            &&& key_action(pending, KeyEvent { code: KeyCode::Char('a'), modifiers: m }, pane).0 is None
            &&& key_action(pending, KeyEvent { code: KeyCode::Char('r'), modifiers: m }, pane).0 is None
            &&& key_action(pending, KeyEvent { code: KeyCode::Char('e'), modifiers: m }, pane).0 is None
        },
{
}

/// The main screen's bindings, in any pane, whatever was pending: Ctrl+P or
/// Super+P opens the palette; Esc closes an overlay; Tab cycles panes; Enter
/// selects; `j`/Down and `k`/Up move, `G` goes to the bottom, Ctrl+D and
/// Ctrl+U page; a bare `q`, `:` and `?` quit, enter command mode and open
/// help; F1 opens help, F2 to F4 focus the editor, agents and plan panes, F5
/// to F9 toggle the file tree, the agents pane, dark mode, spawn a subagent
/// and toggle plugins, F10 and Ctrl+G toggle the git status; Backspace and
/// other keys do nothing.
pub proof fn lemma_key_table(pending: bool, m: KeyModifiers, pane: Pane)
    ensures
        (m.control || m.super_key) ==> key_action(pending, KeyEvent { code: KeyCode::Char('p'), modifiers: m }, pane).0 == Some(Action::OpenCommandPalette),
        key_action(pending, KeyEvent { code: KeyCode::Esc, modifiers: m }, pane).0 == Some(Action::CloseOverlay),
        key_action(pending, KeyEvent { code: KeyCode::Tab, modifiers: m }, pane).0 == Some(Action::CyclePane),
        key_action(pending, KeyEvent { code: KeyCode::Enter, modifiers: m }, pane).0 == Some(Action::Select),
        key_action(pending, KeyEvent { code: KeyCode::Down, modifiers: m }, pane).0 == Some(Action::MoveDown),
        key_action(pending, KeyEvent { code: KeyCode::Char('j'), modifiers: m }, pane).0 == Some(Action::MoveDown),
        key_action(pending, KeyEvent { code: KeyCode::Up, modifiers: m }, pane).0 == Some(Action::MoveUp),
        key_action(pending, KeyEvent { code: KeyCode::Char('k'), modifiers: m }, pane).0 == Some(Action::MoveUp),
        key_action(pending, KeyEvent { code: KeyCode::Char('G'), modifiers: m }, pane).0 == Some(Action::GoBottom),
        m.control ==> key_action(pending, KeyEvent { code: KeyCode::Char('d'), modifiers: m }, pane).0 == Some(Action::PageDown),
        m.control ==> key_action(pending, KeyEvent { code: KeyCode::Char('u'), modifiers: m }, pane).0 == Some(Action::PageUp),
        m.control ==> key_action(pending, KeyEvent { code: KeyCode::Char('g'), modifiers: m }, pane).0 == Some(Action::ToggleGitStatus),
        m.is_none() ==> key_action(pending, KeyEvent { code: KeyCode::Char('q'), modifiers: m }, pane).0 == Some(Action::Quit),
        !m.is_none() ==> key_action(pending, KeyEvent { code: KeyCode::Char('q'), modifiers: m }, pane).0 is None,
        m.is_none() ==> key_action(pending, KeyEvent { code: KeyCode::Char(':'), modifiers: m }, pane).0 == Some(Action::CommandMode),
        m.is_none() ==> key_action(pending, KeyEvent { code: KeyCode::Char('?'), modifiers: m }, pane).0 == Some(Action::OpenHelp),
        key_action(pending, KeyEvent { code: KeyCode::F(1), modifiers: m }, pane).0 == Some(Action::OpenHelp),
        key_action(pending, KeyEvent { code: KeyCode::F(2), modifiers: m }, pane).0 == Some(Action::FocusPane(Pane::Editor)),
        key_action(pending, KeyEvent { code: KeyCode::F(3), modifiers: m }, pane).0 == Some(Action::FocusPane(Pane::Agents)),
        key_action(pending, KeyEvent { code: KeyCode::F(4), modifiers: m }, pane).0 == Some(Action::FocusPane(Pane::PlanApproval)),
        key_action(pending, KeyEvent { code: KeyCode::F(5), modifiers: m }, pane).0 == Some(Action::ToggleFileTree),
        key_action(pending, KeyEvent { code: KeyCode::F(6), modifiers: m }, pane).0 == Some(Action::ToggleAgentPane),
        key_action(pending, KeyEvent { code: KeyCode::F(7), modifiers: m }, pane).0 == Some(Action::ToggleDarkMode),
        key_action(pending, KeyEvent { code: KeyCode::F(8), modifiers: m }, pane).0 == Some(Action::SpawnSubagent),
        key_action(pending, KeyEvent { code: KeyCode::F(9), modifiers: m }, pane).0 == Some(Action::TogglePlugins),
        key_action(pending, KeyEvent { code: KeyCode::F(10), modifiers: m }, pane).0 == Some(Action::ToggleGitStatus),
        key_action(pending, KeyEvent { code: KeyCode::Backspace, modifiers: m }, pane).0 is None,
        key_action(pending, KeyEvent { code: KeyCode::Other, modifiers: m }, pane).0 is None,
{
}

/// While the palette is open: Ctrl+P and Esc close it, Enter confirms,
/// Backspace deletes, `j`/Down and `k`/Up move; any other character typed
/// bare or with Shift alone goes into the query, with other modifiers it
/// does nothing; function keys do nothing.
pub proof fn lemma_palette_keys(c: char, m: KeyModifiers, n: u8)
    ensures
        m.control ==> palette_key_action(KeyEvent { code: KeyCode::Char('p'), modifiers: m }) == Some(Action::CloseOverlay),
        palette_key_action(KeyEvent { code: KeyCode::Esc, modifiers: m }) == Some(Action::CloseOverlay),
        palette_key_action(KeyEvent { code: KeyCode::Enter, modifiers: m }) == Some(Action::PaletteConfirm),
        palette_key_action(KeyEvent { code: KeyCode::Backspace, modifiers: m }) == Some(Action::PaletteBackspace),
        palette_key_action(KeyEvent { code: KeyCode::Down, modifiers: m }) == Some(Action::MoveDown),
        palette_key_action(KeyEvent { code: KeyCode::Up, modifiers: m }) == Some(Action::MoveUp),
        palette_key_action(KeyEvent { code: KeyCode::Char('j'), modifiers: m }) == Some(Action::MoveDown),
        palette_key_action(KeyEvent { code: KeyCode::Char('k'), modifiers: m }) == Some(Action::MoveUp),
        c != 'j' && c != 'k' && !(c == 'p' && m.control) && (m.is_none() || m.is_shift_only())
            ==> palette_key_action(KeyEvent { code: KeyCode::Char(c), modifiers: m }) == Some(Action::PaletteInput(c)),
        c != 'j' && c != 'k' && !(m.is_none() || m.is_shift_only())
            ==> palette_key_action(KeyEvent { code: KeyCode::Char(c), modifiers: m }) != Some(Action::PaletteInput(c)),
        palette_key_action(KeyEvent { code: KeyCode::F(n), modifiers: m }) is None,
{
}

} // verus!
