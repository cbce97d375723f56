//! The status bar: the application's title and the line of state after it.
use crate::agent::git::GitStatus;
use crate::text::{decimal, decimal_chars, join, join_chars, push_all, push_str, string_of};
use crate::tui::{pane_title, Pane};
use vstd::prelude::*;

verus! {

/// The application's title, shown at the left of the status bar.
pub const APP_TITLE: &'static str = "Pi Hybrid v0.1.0";

/// What the status bar shows besides the title.
pub struct StatusFacts {
    /// The focused pane.
    pub pane: Pane,
    /// The checked-out branch, if known.
    pub branch: Option<String>,
    /// The repository's status, when its display is on and it could be read.
    pub git: Option<GitStatus>,
    /// Whether the bridge is connected.
    pub bridge_connected: bool,
    /// The active provider, if any.
    pub provider: Option<String>,
    /// Subagents running and done.
    pub agents: (usize, usize),
    /// Whether the dark theme is on.
    pub dark_mode: bool,
    /// The notification still on show, if any.
    pub notification: Option<String>,
}

/// How the repository's state reads: `clean`, or the staged, modified and
/// untracked counts.
pub open spec fn git_state_spec(g: GitStatus) -> Seq<char> {
    if g.is_clean {
        "clean"@
    } else {
        "+"@ + decimal(g.staged as nat) + " ~"@ + decimal(g.modified as nat) + " ?"@ + decimal(
            g.untracked as nat,
        )
    }
}

/// The parts of the status line, in order; each optional part only when its
/// fact is there.
pub open spec fn status_parts(f: StatusFacts) -> Seq<Seq<char>> {
    let p0 = seq!["Mode: "@ + pane_title(f.pane)];
    let p1 = match f.branch {
        Some(b) => p0.push("Branch: "@ + b@),
        None => p0,
    };
    let p2 = match f.git {
        Some(g) => p1.push("Git: "@ + git_state_spec(g)),
        None => p1,
    };
    let p3 = p2.push("Bridge: "@ + if f.bridge_connected {
        "connected"@
    } else {
        "disconnected"@
    });
    let p4 = match f.provider {
        Some(n) => p3.push("Provider: "@ + n@),
        None => p3,
    };
    let p5 = p4.push(
        "Agents: "@ + decimal(f.agents.0 as nat) + " running, "@ + decimal(f.agents.1 as nat) + " done"@,
    );
    let p6 = p5.push(if f.dark_mode {
        "Dark"@
    } else {
        "Light"@
    });
    match f.notification {
        Some(n) => p6.push(n@),
        None => p6,
    }
}

/// The text after the title: the parts, separated by bars, and the key hints.
pub open spec fn status_line_spec(f: StatusFacts) -> Seq<char> {
    "  "@ + join(status_parts(f), "  |  "@) + "  |  Ctrl+P commands  F1 help  q quit"@
}

fn text_of(a: &str, b: &[char]) -> (r: Vec<char>)
    ensures
        r@ == a@ + b@,
{
    let mut r: Vec<char> = Vec::new();
    push_str(&mut r, a);
    push_all(&mut r, b);
    r
}

fn git_state(g: &GitStatus) -> (r: Vec<char>)
    ensures
        r@ == git_state_spec(*g),
{
    if g.is_clean {
        let mut r: Vec<char> = Vec::new();
        push_str(&mut r, "clean");
        r
    } else {
        let mut r: Vec<char> = Vec::new();
        push_str(&mut r, "+");
        let s = decimal_chars(g.staged);
        push_all(&mut r, s.as_slice());
        push_str(&mut r, " ~");
        let m = decimal_chars(g.modified);
        push_all(&mut r, m.as_slice());
        push_str(&mut r, " ?");
        let u = decimal_chars(g.untracked);
        push_all(&mut r, u.as_slice());
        r
    }
}

/// The text of the status bar after the title.
pub fn status_line(f: &StatusFacts) -> (r: String)
    ensures
        r@ == status_line_spec(*f),
{
    let mut parts: Vec<Vec<char>> = Vec::new();
    let title = crate::text::chars_of(f.pane.title());
    parts.push(text_of("Mode: ", title.as_slice()));
    if let Some(b) = &f.branch {
        let bv = crate::text::chars_of(b.as_str());
        parts.push(text_of("Branch: ", bv.as_slice()));
    }
    if let Some(g) = &f.git {
        let gs = git_state(g);
        parts.push(text_of("Git: ", gs.as_slice()));
    }
    let conn = crate::text::chars_of(if f.bridge_connected {
        "connected"
    } else {
        "disconnected"
    });
    parts.push(text_of("Bridge: ", conn.as_slice()));
    if let Some(n) = &f.provider {
        let nv = crate::text::chars_of(n.as_str());
        parts.push(text_of("Provider: ", nv.as_slice()));
    }
    let mut a: Vec<char> = Vec::new();
    push_str(&mut a, "Agents: ");
    let running = decimal_chars(f.agents.0);
    push_all(&mut a, running.as_slice());
    push_str(&mut a, " running, ");
    let done = decimal_chars(f.agents.1);
    push_all(&mut a, done.as_slice());
    push_str(&mut a, " done");
    parts.push(a);
    let theme = crate::text::chars_of(if f.dark_mode {
        "Dark"
    } else {
        "Light"
    });
    parts.push(theme);
    if let Some(n) = &f.notification {
        let nv = crate::text::chars_of(n.as_str());
        parts.push(nv);
    }
    assert(parts@.map_values(|v: Vec<char>| v@) =~= status_parts(*f));
    let sep = crate::text::chars_of("  |  ");
    let body = join_chars(&parts, sep.as_slice());
    let mut r: Vec<char> = Vec::new();
    push_str(&mut r, "  ");
    push_all(&mut r, body.as_slice());
    push_str(&mut r, "  |  Ctrl+P commands  F1 help  q quit");
    string_of(r.as_slice())
}

} // verus!
