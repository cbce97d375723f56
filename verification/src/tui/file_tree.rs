//! The file tree pane: the workspace's files and a selection that stays in bounds.
use vstd::prelude::*;

use crate::text::{
    chars_of, lemma_rfind_char, push_all, rfind_char, rfind_char_chars, slice_range, string_of,
};

verus! {

/// A file of the workspace: its path relative to the root and the text shown for it.
#[derive(Debug, Clone, PartialEq, Eq)]
pub struct FileEntry {
    pub path: String,
    pub display: String,
}

/// The number of `/` separators in a relative path.
pub open spec fn depth(s: Seq<char>) -> nat
    decreases s.len(),
{
    if s.len() == 0 {
        0
    } else {
        depth(s.drop_last()) + if s.last() == '/' {
            1nat
        } else {
            0nat
        }
    }
}

/// `n` copies of two spaces.
pub open spec fn indent(n: nat) -> Seq<char>
    decreases n,
{
    if n == 0 {
        seq![]
    } else {
        indent((n - 1) as nat) + seq![' ', ' ']
    }
}

/// The last component of a relative path: what follows its last `/`.
pub open spec fn file_name(s: Seq<char>) -> Seq<char> {
    match rfind_char(s, '/') {
        Some(i) => s.skip(i + 1),
        None => s,
    }
}

/// The text shown for a file: its name, indented by two spaces per directory level.
pub open spec fn display_of(rel: Seq<char>) -> Seq<char> {
    indent(depth(rel)) + file_name(rel)
}

/// `v`, or `hi` where `v` exceeds it.
pub open spec fn at_most(v: int, hi: int) -> int {
    if v < hi {
        v
    } else {
        hi
    }
}

/// A path joined onto a root, as `Path::join` does for a relative or absolute path.
pub open spec fn join_path(root: Seq<char>, rel: Seq<char>) -> Seq<char> {
    if rel.len() > 0 && rel[0] == '/' {
        rel
    } else if root.len() == 0 || root.last() == '/' {
        root + rel
    } else {
        root + seq!['/'] + rel
    }
}

/// The entry for a file at a path relative to the workspace root, with `/`
/// between its components.
pub fn entry_for(rel: &str) -> (r: FileEntry)
    ensures
        r.path@ == rel@,
        r.display@ == display_of(rel@),
{
    let c = chars_of(rel);
    let n = c.len();
    let mut d: usize = 0;
    let mut out: Vec<char> = Vec::new();
    let mut i: usize = 0;
    while i < n
        invariant
            n == c@.len(),
            c@ == rel@,
            i <= n,
            d == depth(c@.take(i as int)),
            d <= i,
            out@ == indent(d as nat),
        decreases n - i,
    {
        assert(c@.take(i + 1).drop_last() =~= c@.take(i as int));
        if c[i] == '/' {
            out.push(' ');
            out.push(' ');
            d = d + 1;
        }
        i = i + 1;
    }
    assert(c@.take(n as int) =~= c@);
    proof {
        lemma_rfind_char(c@, '/');
    }
    let name = match rfind_char_chars(c.as_slice(), '/') {
        Some(k) => slice_range(c.as_slice(), k + 1, n),
        None => c.clone(),
    };
    assert(name@ == file_name(rel@)) by {
        match rfind_char(rel@, '/') {
            Some(k) => {
                assert(c@.subrange(k + 1, n as int) =~= rel@.skip(k + 1));
            },
            None => {},
        }
    }
    push_all(&mut out, name.as_slice());
    FileEntry { path: rel.to_owned(), display: string_of(out.as_slice()) }
}

/// `root` joined with the relative path `rel`.
pub fn join_path_str(root: &str, rel: &str) -> (r: String)
    ensures
        r@ == join_path(root@, rel@),
{
    let rc = chars_of(root);
    let pc = chars_of(rel);
    if pc.len() > 0 && pc[0] == '/' {
        return rel.to_owned();
    }
    let mut out = rc.clone();
    if !(rc.len() == 0 || rc[rc.len() - 1] == '/') {
        out.push('/');
    }
    push_all(&mut out, pc.as_slice());
    string_of(out.as_slice())
}

/// The file tree: a root, its files, and the index of the selected one.
#[derive(Debug)]
pub struct FileTree {
    root: String,
    entries: Vec<FileEntry>,
    selected: usize,
}

impl FileTree {
    /// The selection is on a file, or at the start of an empty tree.
    #[verifier::type_invariant]
    spec fn selection_ok(self) -> bool {
        if self.entries@.len() == 0 {
            self.selected == 0
        } else {
            self.selected < self.entries@.len()
        }
    }

    /// The root directory.
    pub closed spec fn spec_root(&self) -> Seq<char> {
        self.root@
    }

    /// The files, in the order listed.
    pub closed spec fn spec_entries(&self) -> Seq<FileEntry> {
        self.entries@
    }

    /// The index of the selected file.
    pub closed spec fn spec_selected(&self) -> nat {
        self.selected as nat
    }

    /// A tree over the files listed under `root`, with the first selected.
    pub fn from_entries(root: &str, entries: Vec<FileEntry>) -> (r: FileTree)
        ensures
            r.spec_root() == root@,
            r.spec_entries() == entries@,
            r.spec_selected() == 0,
    {
        FileTree { root: root.to_owned(), entries, selected: 0 }
    }

    /// The files, in the order listed.
    pub fn entries(&self) -> (r: &Vec<FileEntry>)
        ensures
            r@ == self.spec_entries(),
    {
        &self.entries
    }

    /// The index of the selected file.
    pub fn selected(&self) -> (r: usize)
        ensures
            r == self.spec_selected(),
            self.spec_entries().len() == 0 ==> r == 0,
            self.spec_entries().len() > 0 ==> r < self.spec_entries().len(),
    {
        proof {
            use_type_invariant(self);
        }
        self.selected
    }

    /// The paths of the files relative to the root, in order.
    pub fn relative_paths(&self) -> (r: Vec<String>)
        ensures
            r@.len() == self.spec_entries().len(),
            forall|i: int| 0 <= i < r@.len() ==> r@[i]@ == self.spec_entries()[i].path@,
    {
        let mut r: Vec<String> = Vec::new();
        let mut i: usize = 0;
        while i < self.entries.len()
            invariant
                i <= self.entries@.len(),
                r@.len() == i,
                forall|k: int| 0 <= k < i ==> r@[k]@ == self.entries@[k].path@,
            decreases self.entries@.len() - i,
        {
            r.push(self.entries[i].path.clone());
            i = i + 1;
        }
        r
    }

    /// The selected file's path joined onto the root, if a file is selected.
    pub fn selected_path(&self) -> (r: Option<String>)
        ensures
            self.spec_selected() < self.spec_entries().len() ==> (r matches Some(p) && p@
                == join_path(self.spec_root(), self.spec_entries()[self.spec_selected() as int].path@)),
            self.spec_selected() >= self.spec_entries().len() ==> r is None,
            r is None <==> self.spec_entries().len() == 0,
    {
        proof {
            use_type_invariant(self);
        }
        if self.selected < self.entries.len() {
            Some(join_path_str(self.root.as_str(), self.entries[self.selected].path.as_str()))
        } else {
            None
        }
    }

    /// Selects the next file, staying on the last one.
    pub fn move_down(&mut self)
        ensures
            final(self).spec_root() == old(self).spec_root(),
            final(self).spec_entries() == old(self).spec_entries(),
            final(self).spec_selected() == if old(self).spec_entries().len() == 0 {
                old(self).spec_selected() as int
            } else {
                at_most((old(self).spec_selected() + 1) as int, old(self).spec_entries().len() - 1)
            },
    {
        proof {
            use_type_invariant(&*self);
        }
        let n = self.entries.len();
        if n > 0 {
            self.selected = if self.selected < n - 1 {
                self.selected + 1
            } else {
                n - 1
            };
        }
    }

    /// Selects the previous file, staying on the first one.
    pub fn move_up(&mut self)
        ensures
            final(self).spec_root() == old(self).spec_root(),
            final(self).spec_entries() == old(self).spec_entries(),
            final(self).spec_selected() == if old(self).spec_selected() > 0 {
                old(self).spec_selected() - 1
            } else {
                0
            },
    {
        proof {
            use_type_invariant(&*self);
        }
        self.selected = if self.selected > 0 {
            self.selected - 1
        } else {
            0
        };
    }

    /// Selects the first file.
    pub fn go_top(&mut self)
        ensures
            final(self).spec_root() == old(self).spec_root(),
            final(self).spec_entries() == old(self).spec_entries(),
            final(self).spec_selected() == 0,
    {
        proof {
            use_type_invariant(&*self);
        }
        self.selected = 0;
    }

    /// Selects the last file, if there is one.
    pub fn go_bottom(&mut self)
        ensures
            final(self).spec_root() == old(self).spec_root(),
            final(self).spec_entries() == old(self).spec_entries(),
            final(self).spec_selected() == if old(self).spec_entries().len() == 0 {
                old(self).spec_selected() as int
            } else {
                old(self).spec_entries().len() - 1
            },
    {
        proof {
            use_type_invariant(&*self);
        }
        if self.entries.len() > 0 {
            self.selected = self.entries.len() - 1;
        }
    }

    /// Moves the selection ten files down, staying on the last one.
    pub fn page_down(&mut self)
        ensures
            final(self).spec_root() == old(self).spec_root(),
            final(self).spec_entries() == old(self).spec_entries(),
            final(self).spec_selected() == if old(self).spec_entries().len() == 0 {
                old(self).spec_selected() as int
            } else {
                at_most((old(self).spec_selected() + 10) as int, old(self).spec_entries().len() - 1)
            },
    {
        proof {
            use_type_invariant(&*self);
        }
        let n = self.entries.len();
        if n > 0 {
            self.selected = if self.selected < n - 1 && n - 1 - self.selected > 10 {
                self.selected + 10
            } else {
                n - 1
            };
        }
    }

    /// Moves the selection ten files up, staying on the first one.
    pub fn page_up(&mut self)
        ensures
            final(self).spec_root() == old(self).spec_root(),
            final(self).spec_entries() == old(self).spec_entries(),
            final(self).spec_selected() == if old(self).spec_selected() > 10 {
                old(self).spec_selected() - 10
            } else {
                0
            },
    {
        proof {
            use_type_invariant(&*self);
        }
        self.selected = if self.selected > 10 {
            self.selected - 10
        } else {
            0
        };
    }
}

/// Navigating the file tree keeps the selection on a file: from a selection
/// inside a list of `n` files, moving down, up, ten down, ten up, to the top
/// or to the bottom (the selections `move_down`, `move_up`, `page_down`,
/// `page_up`, `go_top` and `go_bottom` state) all land inside the list.
pub proof fn lemma_selection_in_range(sel: int, n: int)
    requires
        0 <= sel < n,
    ensures
        0 <= at_most(sel + 1, n - 1) < n,
        0 <= (if sel > 0 { sel - 1 } else { 0 }) < n,
        0 <= at_most(sel + 10, n - 1) < n,
        0 <= (if sel > 10 { sel - 10 } else { 0 }) < n,
        0 <= n - 1 < n,
        0 < n,
{
}

} // verus!
