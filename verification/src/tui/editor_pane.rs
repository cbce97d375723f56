//! The editor pane: the open file's lines and a scroll position that stays in bounds.
use vstd::prelude::*;

use crate::text::{chars_of, lines, lines_chars, string_of};
use crate::tui::file_tree::at_most;

verus! {

/// The last line index of a text of `n` lines, or 0 when it has none.
pub open spec fn last_line(n: nat) -> int {
    if n > 0 {
        n - 1
    } else {
        0
    }
}

/// The editor pane: the file shown, its lines, and the first line in view.
#[derive(Debug)]
pub struct EditorPane {
    current_file: Option<String>,
    lines: Vec<String>,
    scroll: usize,
}

impl Default for EditorPane {
    fn default() -> (r: Self)
        ensures
            r.spec_current_file() is None,
            r.spec_lines().len() == 0,
            r.spec_scroll() == 0,
    {
        EditorPane { current_file: None, lines: Vec::new(), scroll: 0 }
    }
}

impl EditorPane {
    /// The file shown, as displayed.
    pub closed spec fn spec_current_file(&self) -> Option<Seq<char>> {
        match self.current_file {
            Some(f) => Some(f@),
            None => None,
        }
    }

    /// The lines of the file shown.
    pub closed spec fn spec_lines(&self) -> Seq<Seq<char>> {
        self.lines@.map_values(|l: String| l@)
    }

    /// The index of the first line in view.
    pub closed spec fn spec_scroll(&self) -> nat {
        self.scroll as nat
    }

    /// Shows a file: `path` is how it is displayed, `content` what it holds.
    pub fn load(&mut self, path: &str, content: &str)
        ensures
            final(self).spec_current_file() == Some(path@),
            final(self).spec_lines() == lines(content@),
            final(self).spec_scroll() == 0,
    {
        let c = chars_of(content);
        let ls = lines_chars(c.as_slice());
        let mut out: Vec<String> = Vec::new();
        let mut i: usize = 0;
        while i < ls.len()
            invariant
                i <= ls@.len(),
                ls@.len() == lines(content@).len(),
                c@ == content@,
                forall|k: int| 0 <= k < ls@.len() ==> #[trigger] ls@[k]@ == lines(c@)[k],
                out@.len() == i,
                forall|k: int| 0 <= k < i ==> #[trigger] out@[k]@ == lines(c@)[k],
            decreases ls@.len() - i,
        {
            out.push(string_of(ls[i].as_slice()));
            i = i + 1;
        }
        assert(out@.map_values(|l: String| l@) =~= lines(content@));
        self.current_file = Some(path.to_owned());
        self.lines = out;
        self.scroll = 0;
    }

    /// The file shown, as displayed.
    pub fn current_file(&self) -> (r: Option<&str>)
        ensures
            match r {
                Some(f) => self.spec_current_file() == Some(f@),
                None => self.spec_current_file() is None,
            },
    {
        match &self.current_file {
            Some(f) => Some(f.as_str()),
            None => None,
        }
    }

    /// The lines of the file shown.
    pub fn lines(&self) -> (r: &Vec<String>)
        ensures
            r@.map_values(|l: String| l@) == self.spec_lines(),
    {
        &self.lines
    }

    /// The index of the first line in view.
    pub fn scroll(&self) -> (r: usize)
        ensures
            r == self.spec_scroll(),
    {
        self.scroll
    }

    /// The last line index, or 0 when there is no line.
    fn last(&self) -> (r: usize)
        ensures
            r == last_line(self.spec_lines().len()),
    {
        if self.lines.len() > 0 {
            self.lines.len() - 1
        } else {
            0
        }
    }

    /// Scrolls one line down, not past the last line.
    pub fn scroll_down(&mut self)
        ensures
            final(self).spec_current_file() == old(self).spec_current_file(),
            final(self).spec_lines() == old(self).spec_lines(),
            final(self).spec_scroll() == at_most(
                (old(self).spec_scroll() + 1) as int,
                last_line(old(self).spec_lines().len()),
            ),
    {
        let last = self.last();
        self.scroll = if self.scroll < last {
            self.scroll + 1
        } else {
            last
        };
    }

    /// Scrolls one line up, not above the first.
    pub fn scroll_up(&mut self)
        ensures
            final(self).spec_current_file() == old(self).spec_current_file(),
            final(self).spec_lines() == old(self).spec_lines(),
            final(self).spec_scroll() == if old(self).spec_scroll() > 0 {
                old(self).spec_scroll() - 1
            } else {
                0
            },
    {
        self.scroll = if self.scroll > 0 {
            self.scroll - 1
        } else {
            0
        };
    }

    /// Scrolls to the first line.
    pub fn go_top(&mut self)
        ensures
            final(self).spec_current_file() == old(self).spec_current_file(),
            final(self).spec_lines() == old(self).spec_lines(),
            final(self).spec_scroll() == 0,
    {
        self.scroll = 0;
    }

    /// Scrolls to the last line.
    pub fn go_bottom(&mut self)
        ensures
            final(self).spec_current_file() == old(self).spec_current_file(),
            final(self).spec_lines() == old(self).spec_lines(),
            final(self).spec_scroll() == last_line(old(self).spec_lines().len()),
    {
        self.scroll = self.last();
    }

    /// Scrolls ten lines down, not past the last line.
    pub fn page_down(&mut self)
        ensures
            final(self).spec_current_file() == old(self).spec_current_file(),
            final(self).spec_lines() == old(self).spec_lines(),
            final(self).spec_scroll() == at_most(
                (old(self).spec_scroll() + 10) as int,
                last_line(old(self).spec_lines().len()),
            ),
    {
        let last = self.last();
        self.scroll = if self.scroll < last && last - self.scroll > 10 {
            self.scroll + 10
        } else {
            last
        };
    }

    /// Scrolls ten lines up, not above the first.
    pub fn page_up(&mut self)
        ensures
            final(self).spec_current_file() == old(self).spec_current_file(),
            final(self).spec_lines() == old(self).spec_lines(),
            final(self).spec_scroll() == if old(self).spec_scroll() > 10 {
                old(self).spec_scroll() - 10
            } else {
                0
            },
    {
        self.scroll = if self.scroll > 10 {
            self.scroll - 10
        } else {
            0
        };
    }
}

} // verus!
