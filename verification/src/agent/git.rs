//! Version-control decisions: conventional commit messages, the tally of a
//! working tree's status, and what an automatic commit after plan approval does.
//! The repository itself is read and written by the caller.
use crate::text::{
    append_str, chars_of, contains, contains_chars, decimal, decimal_chars, find, find_chars, join,
    lemma_find_from, lemma_rfind_char, push_all, push_str, rfind_char, rfind_char_chars, slice_range,
    str_eq, string_of, trim, trim_chars, trim_end_char, trim_end_char_chars,
};
use vstd::prelude::*;

verus! {

/// A file's state before a tool wrote to it.
#[derive(Debug, Clone)]
pub struct FileSnapshot {
    pub path: String,
    pub hash: String,
    pub size: u64,
}

/// The view of a snapshot: path, content hash, size.
pub type SnapshotView = (Seq<char>, Seq<char>, u64);

impl View for FileSnapshot {
    type V = SnapshotView;

    open spec fn view(&self) -> SnapshotView {
        (self.path@, self.hash@, self.size)
    }
}

/// What an automatic commit did.
#[derive(Debug, Clone)]
pub struct AutoCommitResult {
    pub committed: bool,
    pub commit_oid: Option<String>,
    pub message: String,
    pub files_changed: Vec<String>,
    pub stats: Option<(usize, usize)>,
}

/// The working tree's status, for display.
#[derive(Debug, Clone)]
pub struct GitStatus {
    pub branch: String,
    pub is_clean: bool,
    pub modified: usize,
    pub staged: usize,
    pub untracked: usize,
    pub changed_files: Vec<String>,
    pub detached: bool,
}

/// The status flags of one path.
#[derive(Debug, Clone, Copy, PartialEq, Eq, Structural)]
pub struct StatusFlags {
    pub index_new: bool,
    pub index_modified: bool,
    pub index_deleted: bool,
    pub wt_new: bool,
    pub wt_modified: bool,
    pub wt_deleted: bool,
}

/// The views of a sequence of strings.
pub open spec fn views(s: Seq<String>) -> Seq<Seq<char>> {
    s.map_values(|x: String| x@)
}

/// The second tab-separated field of a line, or the whole line when it has no tab.
pub open spec fn second_field(f: Seq<char>) -> Seq<char> {
    match find(f, seq!['\t']) {
        Some(i) => {
            let rest = f.skip(i + 1);
            match find(rest, seq!['\t']) {
                Some(j) => rest.take(j),
                None => rest,
            }
        },
        None => f,
    }
}

/// Whether some file's line mentions `p`.
pub open spec fn any_contains(files: Seq<Seq<char>>, p: Seq<char>) -> bool {
    exists|i: int| 0 <= i < files.len() && contains(#[trigger] files[i], p)
}

/// The conventional-commit type of a change: `test` when a path mentions
/// tests or specs, `feat` for Rust sources, `chore` for manifests, lock files
/// and JSON, `docs` for Markdown and text, `feat` otherwise.
pub open spec fn commit_type(files: Seq<Seq<char>>) -> Seq<char> {
    if any_contains(files, "test"@) || any_contains(files, "spec"@) {
        "test"@
    } else if any_contains(files, ".rs"@) {
        "feat"@
    } else if any_contains(files, ".toml"@) || any_contains(files, ".lock"@) || any_contains(files, ".json"@) {
        "chore"@
    } else if any_contains(files, ".md"@) || any_contains(files, ".txt"@) {
        "docs"@
    } else {
        "feat"@
    }
}

/// The commit message for the changed files (each line `status<TAB>path`):
/// its type, then up to three paths, and how many more of the first five there are.
pub open spec fn commit_message_spec(files: Seq<Seq<char>>) -> Seq<char> {
    if files.len() == 0 {
        "chore: empty commit"@
    } else {
        let n = if files.len() < 5 {
            files.len() as int
        } else {
            5
        };
        let shown = files.take(n).map_values(|f: Seq<char>| second_field(f));
        let desc = if shown.len() <= 3 {
            join(shown, ", "@)
        } else {
            join(shown.take(3), ", "@) + " and "@ + decimal((shown.len() - 3) as nat) + " more"@
        };
        commit_type(files) + ": update "@ + desc
    }
}

fn second_field_of(f: &[char]) -> (r: Vec<char>)
    ensures
        r@ == second_field(f@),
{
    let tab = vec!['\t'];
    assert(tab@ =~= seq!['\t']);
    let n = f.len();
    match find_chars(f, tab.as_slice()) {
        Some(i) => {
            proof {
                lemma_find_from(f@, tab@, 0);
            }
            let rest = slice_range(f, i + 1, n);
            assert(rest@ =~= f@.skip(i + 1));
            let m = rest.len();
            match find_chars(rest.as_slice(), tab.as_slice()) {
                Some(j) => {
                    proof {
                        lemma_find_from(rest@, tab@, 0);
                    }
                    let r = slice_range(rest.as_slice(), 0, j);
                    assert(r@ =~= rest@.take(j as int));
                    r
                },
                None => rest,
            }
        },
        None => slice_range(f, 0, n),
    }
}

fn any_contains_exec(files: &[String], p: &str) -> (r: bool)
    ensures
        r == any_contains(views(files@), p@),
{
    let pv = chars_of(p);
    let mut i: usize = 0;
    while i < files.len()
        invariant
            pv@ == p@,
            i <= files@.len(),
            forall|j: int| 0 <= j < i ==> !contains(#[trigger] views(files@)[j], p@),
        decreases files@.len() - i,
    {
        let fv = chars_of(files[i].as_str());
        assert(views(files@)[i as int] == fv@);
        if contains_chars(fv.as_slice(), pv.as_slice()) {
            return true;
        }
        i = i + 1;
    }
    false
}

/// A conventional commit message for the changed files.
pub fn generate_commit_message(files: &[String]) -> (r: String)
    ensures
        r@ == commit_message_spec(views(files@)),
{
    let ghost fs = views(files@);
    if files.len() == 0 {
        return "chore: empty commit".to_owned();
    }
    let kind = if any_contains_exec(files, "test") || any_contains_exec(files, "spec") {
        "test"
    } else if any_contains_exec(files, ".rs") {
        "feat"
    } else if any_contains_exec(files, ".toml") || any_contains_exec(files, ".lock")
        || any_contains_exec(files, ".json") {
        "chore"
    } else if any_contains_exec(files, ".md") || any_contains_exec(files, ".txt") {
        "docs"
    } else {
        "feat"
    };
    let n: usize = if files.len() < 5 {
        files.len()
    } else {
        5
    };
    let ghost shown = fs.take(n as int).map_values(|f: Seq<char>| second_field(f));
    let mut shown_v: Vec<Vec<char>> = Vec::new();
    let mut i: usize = 0;
    while i < n
        invariant
            n <= files@.len(),
            fs == views(files@),
            shown == fs.take(n as int).map_values(|f: Seq<char>| second_field(f)),
            i <= n,
            shown_v@.len() == i,
            forall|k: int| 0 <= k < i ==> #[trigger] shown_v@[k]@ == shown[k],
        decreases n - i,
    {
        let fv = chars_of(files[i].as_str());
        assert(fs[i as int] == fv@);
        shown_v.push(second_field_of(fv.as_slice()));
        i = i + 1;
    }
    let sep = chars_of(", ");
    let mut desc: Vec<char> = Vec::new();
    if n <= 3 {
        let j = crate::text::join_chars(&shown_v, sep.as_slice());
        assert(shown_v@.map_values(|v: Vec<char>| v@) =~= shown);
        desc = j;
    } else {
        let mut first3: Vec<Vec<char>> = Vec::new();
        let mut k: usize = 0;
        while k < 3
            invariant
                3 < n,
                shown_v@.len() == n,
                k <= 3,
                first3@.len() == k,
                forall|q: int| 0 <= q < k ==> #[trigger] first3@[q]@ == shown_v@[q]@,
            decreases 3 - k,
        {
            let c = slice_range(shown_v[k].as_slice(), 0, shown_v[k].len());
            assert(c@ =~= shown_v@[k as int]@);
            first3.push(c);
            k = k + 1;
        }
        let j = crate::text::join_chars(&first3, sep.as_slice());
        assert(first3@.map_values(|v: Vec<char>| v@) =~= shown.take(3));
        push_all(&mut desc, j.as_slice());
        push_str(&mut desc, " and ");
        let d = decimal_chars(n - 3);
        push_all(&mut desc, d.as_slice());
        push_str(&mut desc, " more");
    }
    let mut m = kind.to_owned();
    append_str(&mut m, ": update ");
    append_str(&mut m, string_of(desc.as_slice()).as_str());
    m
}

/// Whether the change to a path is staged.
pub open spec fn is_staged(f: StatusFlags) -> bool {
    f.index_new || f.index_modified || f.index_deleted
}

/// Whether a path is modified in the working tree.
pub open spec fn is_modified(f: StatusFlags) -> bool {
    f.wt_modified || f.wt_deleted
}

/// The lines that one path adds to the list of changed files.
pub open spec fn entry_lines(path: Seq<char>, f: StatusFlags) -> Seq<Seq<char>> {
    (if is_staged(f) {
        seq!["[staged] "@ + path]
    } else {
        seq![]
    }) + (if is_modified(f) {
        seq!["[modified] "@ + path]
    } else {
        seq![]
    }) + (if f.wt_new {
        seq!["[untracked] "@ + path]
    } else {
        seq![]
    })
}

/// The tally of the first `n` paths: modified, staged, untracked, changed lines.
pub open spec fn tally(es: Seq<(Seq<char>, StatusFlags)>, n: int) -> (int, int, int, Seq<Seq<char>>)
    decreases n,
{
    if n <= 0 {
        (0, 0, 0, seq![])
    } else {
        let t = tally(es, n - 1);
        let e = es[n - 1];
        (
            t.0 + if is_modified(e.1) { 1int } else { 0int },
            t.1 + if is_staged(e.1) { 1int } else { 0int },
            t.2 + if e.1.wt_new { 1int } else { 0int },
            t.3 + entry_lines(e.0, e.1),
        )
    }
}

proof fn lemma_tally_bounds(es: Seq<(Seq<char>, StatusFlags)>, n: int)
    requires
        0 <= n,
    ensures
        0 <= tally(es, n).0 <= n,
        0 <= tally(es, n).1 <= n,
        0 <= tally(es, n).2 <= n,
    decreases n,
{
    if n > 0 {
        lemma_tally_bounds(es, n - 1);
    }
}

/// The status of a working tree: the branch (or `HEAD (detached)` when HEAD
/// is no branch), and per path the staged, modified and untracked changes.
pub fn status_from_entries(head_is_branch: bool, shorthand: Option<String>, entries: &Vec<(String, StatusFlags)>) -> (r: GitStatus)
    ensures
        r.branch@ == if head_is_branch {
            match shorthand {
                Some(s) => s@,
                None => "HEAD"@,
            }
        } else {
            "HEAD (detached)"@
        },
        r.detached == !head_is_branch,
        ({
            let es = entries@.map_values(|e: (String, StatusFlags)| (e.0@, e.1));
            let t = tally(es, es.len() as int);
            &&& r.modified == t.0
            &&& r.staged == t.1
            &&& r.untracked == t.2
            &&& views(r.changed_files@) == t.3
            &&& r.is_clean == (t.0 == 0 && t.1 == 0 && t.2 == 0)
        }),
{
    let branch = if head_is_branch {
        match shorthand {
            Some(s) => s,
            None => "HEAD".to_owned(),
        }
    } else {
        "HEAD (detached)".to_owned()
    };
    let ghost es = entries@.map_values(|e: (String, StatusFlags)| (e.0@, e.1));
    let mut modified: usize = 0;
    let mut staged: usize = 0;
    let mut untracked: usize = 0;
    let mut changed: Vec<String> = Vec::new();
    let mut i: usize = 0;
    assert(views(changed@) =~= seq![]);
    while i < entries.len()
        invariant
            es == entries@.map_values(|e: (String, StatusFlags)| (e.0@, e.1)),
            i <= entries@.len(),
            modified == tally(es, i as int).0,
            staged == tally(es, i as int).1,
            untracked == tally(es, i as int).2,
            views(changed@) == tally(es, i as int).3,
        decreases entries@.len() - i,
    {
        proof {
            lemma_tally_bounds(es, i as int);
        }
        let path = &entries[i].0;
        let f = entries[i].1;
        assert(es[i as int] == (path@, f));
        let ghost before = views(changed@);
        if f.index_new || f.index_modified || f.index_deleted {
            staged = staged + 1;
            let mut l = "[staged] ".to_owned();
            append_str(&mut l, path.as_str());
            changed.push(l);
        }
        let ghost mid1 = views(changed@);
        if f.wt_modified || f.wt_deleted {
            modified = modified + 1;
            let mut l = "[modified] ".to_owned();
            append_str(&mut l, path.as_str());
            changed.push(l);
        }
        let ghost mid2 = views(changed@);
        if f.wt_new {
            untracked = untracked + 1;
            let mut l = "[untracked] ".to_owned();
            append_str(&mut l, path.as_str());
            changed.push(l);
        }
        proof {
            assert(mid1 =~= before + if is_staged(f) { seq!["[staged] "@ + path@] } else { seq![] });
            assert(mid2 =~= mid1 + if is_modified(f) { seq!["[modified] "@ + path@] } else { seq![] });
            assert(views(changed@) =~= mid2 + if f.wt_new { seq!["[untracked] "@ + path@] } else { seq![] });
            assert(views(changed@) =~= before + entry_lines(path@, f));
        }
        i = i + 1;
    }
    let is_clean = modified == 0 && staged == 0 && untracked == 0;
    GitStatus { branch, is_clean, modified, staged, untracked, changed_files: changed, detached: !head_is_branch }
}

/// What an automatic commit is to do.
#[derive(Debug, Clone)]
pub enum CommitDecision {
    /// There is no repository.
    NoRepository,
    /// Nothing is committed; this is the result.
    Skip(AutoCommitResult),
    /// Commit these files with this message.
    Commit { message: String, files_changed: Vec<String> },
}

/// The error text when there is no repository.
pub open spec fn no_repository_text() -> Seq<char> {
    "No git repository available"@
}

/// The changed files of a diff's name listing: each non-blank path, trimmed, as `M<TAB>path`.
pub open spec fn changed_lines(names: Seq<Seq<char>>, n: int) -> Seq<Seq<char>>
    decreases n,
{
    if n <= 0 {
        seq![]
    } else {
        changed_lines(names, n - 1) + if trim(names[n - 1]).len() > 0 {
            seq!["M\t"@ + trim(names[n - 1])]
        } else {
            seq![]
        }
    }
}

/// What an automatic commit does: nothing without a repository (an error),
/// nothing when disabled, nothing when no file changed ("No changes to
/// commit"), and otherwise commits the changed files with the message given,
/// or a generated one.
pub fn decide_auto_commit(has_repo: bool, enabled: bool, names: &Vec<String>, message: Option<&str>) -> (r: CommitDecision)
    ensures
        !has_repo ==> r is NoRepository,
        has_repo && !enabled ==> (r matches CommitDecision::Skip(res) && !res.committed && res.commit_oid is None
            && res.message@.len() == 0 && res.files_changed@.len() == 0 && res.stats is None),
        has_repo && enabled && changed_lines(views(names@), names@.len() as int).len() == 0 ==> (r matches CommitDecision::Skip(res)
            && !res.committed && res.commit_oid is None && res.message@ == "No changes to commit"@
            && res.files_changed@.len() == 0 && res.stats is None),
        has_repo && enabled && changed_lines(views(names@), names@.len() as int).len() > 0 ==> (r matches CommitDecision::Commit { message: m, files_changed }
            && views(files_changed@) == changed_lines(views(names@), names@.len() as int)
            && m@ == match message {
                Some(g) => g@,
                None => commit_message_spec(changed_lines(views(names@), names@.len() as int)),
            }),
{
    if !has_repo {
        return CommitDecision::NoRepository;
    }
    if !enabled {
        return CommitDecision::Skip(
            AutoCommitResult {
                committed: false,
                commit_oid: None,
                message: String::new(),
                files_changed: Vec::new(),
                stats: None,
            },
        );
    }
    let ghost ns = views(names@);
    let mut files: Vec<String> = Vec::new();
    let mut i: usize = 0;
    assert(views(files@) =~= seq![]);
    while i < names.len()
        invariant
            ns == views(names@),
            i <= names@.len(),
            views(files@) == changed_lines(ns, i as int),
        decreases names@.len() - i,
    {
        let v = chars_of(names[i].as_str());
        assert(ns[i as int] == v@);
        let t = trim_chars(v.as_slice());
        if t.len() > 0 {
            let mut l = "M\t".to_owned();
            append_str(&mut l, string_of(t.as_slice()).as_str());
            let ghost before = views(files@);
            files.push(l);
            assert(views(files@) =~= before.push(l@));
        } else {
            assert(changed_lines(ns, i + 1) =~= changed_lines(ns, i as int));
        }
        i = i + 1;
    }
    if files.len() == 0 {
        return CommitDecision::Skip(
            AutoCommitResult {
                committed: false,
                commit_oid: None,
                message: "No changes to commit".to_owned(),
                files_changed: Vec::new(),
                stats: None,
            },
        );
    }
    let m = match message {
        Some(g) => g.to_owned(),
        None => generate_commit_message(files.as_slice()),
    };
    CommitDecision::Commit { message: m, files_changed: files }
}

/// Where a subagent works.
#[derive(Debug, Clone)]
pub enum WorktreePlan {
    /// In the main working tree, at this path.
    MainWorktree(String),
    /// On its own branch, in a worktree at this path.
    Isolated { branch: String, path: String },
}

/// The branch of a subagent.
pub open spec fn subagent_branch(id: Seq<char>) -> Seq<char> {
    "subagent/"@ + id
}

/// The directory that holds `p`: all before its last `/` (the root itself for
/// a path directly under it); empty for a path with no `/`.
pub open spec fn parent_dir(p: Seq<char>) -> Seq<char> {
    match rfind_char(p, '/') {
        Some(i) => if i == 0 {
            seq!['/']
        } else {
            p.take(i)
        },
        None => seq![],
    }
}

/// The worktree directory of a subagent, beside the repository.
pub open spec fn worktree_path(repo: Seq<char>, id: Seq<char>) -> Seq<char> {
    let parent = parent_dir(repo);
    let rel = ".pi-worktrees/"@ + id;
    if parent.len() == 0 || parent.last() == '/' {
        parent + rel
    } else {
        parent + seq!['/'] + rel
    }
}

/// The version-control settings of a workspace: its root, whether a
/// repository is there, the snapshots taken before tools wrote files, and the
/// automatic commit, branch isolation and status display switches.
#[derive(Debug)]
pub struct GitManager {
    repo_path: String,
    available: bool,
    snapshots: Vec<FileSnapshot>,
    auto_commit_enabled: bool,
    branch_isolation_enabled: bool,
    show_status: bool,
}

/// The view of a manager: root, repository present, snapshots, auto commit,
/// branch isolation, status shown.
pub type GitView = (Seq<char>, bool, Seq<SnapshotView>, bool, bool, bool);

impl View for GitManager {
    type V = GitView;

    closed spec fn view(&self) -> GitView {
        (
            self.repo_path@,
            self.available,
            self.snapshots@.map_values(|s: FileSnapshot| s@),
            self.auto_commit_enabled,
            self.branch_isolation_enabled,
            self.show_status,
        )
    }
}

/// The position of the first snapshot of `path`.
pub open spec fn snapshot_index(s: Seq<SnapshotView>, path: Seq<char>) -> Option<int>
    decreases s.len(),
{
    if s.len() == 0 {
        None
    } else {
        match snapshot_index(s.drop_last(), path) {
            Some(i) => Some(i),
            None => if s.last().0 == path {
                Some(s.len() - 1)
            } else {
                None
            },
        }
    }
}

/// `snapshot_index` gives the first position holding `path`.
pub proof fn lemma_snapshot_index(s: Seq<SnapshotView>, path: Seq<char>)
    ensures
        snapshot_index(s, path) matches Some(i) ==> 0 <= i < s.len() && s[i].0 == path && forall|j: int| 0 <= j < i ==> s[j].0 != path,
        snapshot_index(s, path) is None ==> forall|j: int| 0 <= j < s.len() ==> s[j].0 != path,
    decreases s.len(),
{
    if s.len() > 0 {
        lemma_snapshot_index(s.drop_last(), path);
        assert forall|j: int| 0 <= j < s.len() - 1 implies s[j] == s.drop_last()[j] by {}
    }
}

impl GitManager {
    /// The manager of the workspace at `repo_path`; `has_repository` says
    /// whether a repository could be opened there.  Automatic commits are
    /// off, branch isolation on, the status shown, no snapshot taken.
    pub fn open(repo_path: &str, has_repository: bool) -> (r: GitManager)
        ensures
            r@ == (repo_path@, has_repository, Seq::<SnapshotView>::empty(), false, true, true),
    {
        let r = GitManager {
            repo_path: repo_path.to_owned(),
            available: has_repository,
            snapshots: Vec::new(),
            auto_commit_enabled: false,
            branch_isolation_enabled: true,
            show_status: true,
        };
        assert(r.snapshots@.map_values(|s: FileSnapshot| s@) =~= Seq::<SnapshotView>::empty());
        r
    }

    /// Whether a repository is there.
    pub fn is_available(&self) -> (r: bool)
        ensures
            r == self@.1,
    {
        self.available
    }

    /// The workspace root.
    pub fn repo_path(&self) -> (r: &str)
        ensures
            r@ == self@.0,
    {
        self.repo_path.as_str()
    }

    /// Turns automatic commits on or off.
    pub fn set_auto_commit(&mut self, enabled: bool)
        ensures
            final(self)@ == (old(self)@.0, old(self)@.1, old(self)@.2, enabled, old(self)@.4, old(self)@.5),
    {
        self.auto_commit_enabled = enabled;
    }

    /// Whether automatic commits are on.
    pub fn auto_commit_enabled(&self) -> (r: bool)
        ensures
            r == self@.3,
    {
        self.auto_commit_enabled
    }

    /// Turns branch isolation for subagents on or off.
    pub fn set_branch_isolation(&mut self, enabled: bool)
        ensures
            final(self)@ == (old(self)@.0, old(self)@.1, old(self)@.2, old(self)@.3, enabled, old(self)@.5),
    {
        self.branch_isolation_enabled = enabled;
    }

    /// Whether branch isolation is on.
    pub fn branch_isolation_enabled(&self) -> (r: bool)
        ensures
            r == self@.4,
    {
        self.branch_isolation_enabled
    }

    /// Shows the status if hidden, hides it if shown.
    pub fn toggle_status_display(&mut self)
        ensures
            final(self)@ == (old(self)@.0, old(self)@.1, old(self)@.2, old(self)@.3, old(self)@.4, !old(self)@.5),
    {
        self.show_status = !self.show_status;
    }

    /// Whether the status is shown.
    pub fn status_visible(&self) -> (r: bool)
        ensures
            r == self@.5,
    {
        self.show_status
    }

    /// Records the snapshot taken of a file before a tool writes it.
    pub fn record_snapshot(&mut self, snapshot: FileSnapshot)
        ensures
            final(self)@ == (old(self)@.0, old(self)@.1, old(self)@.2.push(snapshot@), old(self)@.3, old(self)@.4, old(self)@.5),
    {
        let ghost before = self@.2;
        self.snapshots.push(snapshot);
        assert(self@.2 =~= before.push(snapshot@));
    }

    /// Removes the first snapshot of `path` and gives it back, as it was
    /// recorded, if there was one.
    pub fn take_snapshot(&mut self, path: &str) -> (r: Option<FileSnapshot>)
        ensures
            match snapshot_index(old(self)@.2, path@) {
                Some(i) => (r matches Some(s) && s@ == old(self)@.2[i]) && final(self)@ == (old(self)@.0, old(self)@.1, old(self)@.2.remove(i), old(self)@.3, old(self)@.4, old(self)@.5),
                None => r is None && final(self)@ == old(self)@,
            },
    {
        let ghost ps = self@.2;
        proof {
            lemma_snapshot_index(ps, path@);
        }
        let mut i: usize = 0;
        while i < self.snapshots.len()
            invariant
                ps == self@.2,
                *self == *old(self),
                i <= ps.len(),
                forall|j: int| 0 <= j < i ==> ps[j].0 != path@,
            decreases ps.len() - i,
        {
            if str_eq(self.snapshots[i].path.as_str(), path) {
                proof {
                    lemma_snapshot_index(ps, path@);
                    assert(ps[i as int].0 == path@);
                    if let Some(k) = snapshot_index(ps, path@) {
                        assert(k == i);
                    }
                }
                let s = self.snapshots.remove(i);
                assert(self@.2 =~= ps.remove(i as int));
                return Some(s);
            }
            i = i + 1;
        }
        proof {
            lemma_snapshot_index(ps, path@);
        }
        None
    }

    /// Forgets every snapshot.
    pub fn clear_snapshots(&mut self)
        ensures
            final(self)@ == (old(self)@.0, old(self)@.1, Seq::<SnapshotView>::empty(), old(self)@.3, old(self)@.4, old(self)@.5),
    {
        self.snapshots.clear();
        assert(self@.2 =~= Seq::<SnapshotView>::empty());
    }

    /// The number of snapshots held.
    pub fn snapshot_count(&self) -> (r: usize)
        ensures
            r == self@.2.len(),
    {
        self.snapshots.len()
    }

    /// What an automatic commit of the changed files listed in `names` does
    /// under this manager's settings.
    pub fn auto_commit(&self, names: &Vec<String>, message: Option<&str>) -> (r: CommitDecision)
        ensures
            !self@.1 ==> r is NoRepository,
            self@.1 && !self@.3 ==> (r matches CommitDecision::Skip(res) && !res.committed && res.commit_oid is None
                && res.message@.len() == 0 && res.files_changed@.len() == 0 && res.stats is None),
            self@.1 && self@.3 && changed_lines(views(names@), names@.len() as int).len() == 0 ==> (r matches CommitDecision::Skip(res)
                && !res.committed && res.commit_oid is None && res.message@ == "No changes to commit"@
                && res.files_changed@.len() == 0 && res.stats is None),
            self@.1 && self@.3 && changed_lines(views(names@), names@.len() as int).len() > 0 ==> (r matches CommitDecision::Commit { message: m, files_changed }
                && views(files_changed@) == changed_lines(views(names@), names@.len() as int)
                && m@ == match message {
                    Some(g) => g@,
                    None => commit_message_spec(changed_lines(views(names@), names@.len() as int)),
                }),
    {
        decide_auto_commit(self.available, self.auto_commit_enabled, names, message)
    }

    /// Where a subagent works: an error without a repository, the main
    /// working tree when branch isolation is off, else its own branch and a
    /// worktree beside the repository.
    pub fn create_subagent_worktree(&self, subagent_id: &str) -> (r: Result<WorktreePlan, String>)
        ensures
            !self@.1 ==> (r matches Err(e) && e@ == no_repository_text()),
            self@.1 && !self@.4 ==> (r matches Ok(WorktreePlan::MainWorktree(p)) && p@ == self@.0),
            self@.1 && self@.4 ==> (r matches Ok(WorktreePlan::Isolated { branch, path }) && branch@
                == subagent_branch(subagent_id@) && path@ == worktree_path(self@.0, subagent_id@)),
    {
        if !self.available {
            return Err("No git repository available".to_owned());
        }
        if !self.branch_isolation_enabled {
            return Ok(WorktreePlan::MainWorktree(self.repo_path.clone()));
        }
        let mut branch = "subagent/".to_owned();
        append_str(&mut branch, subagent_id);
        let path = worktree_path_str(self.repo_path.as_str(), subagent_id);
        Ok(WorktreePlan::Isolated { branch, path })
    }
}

/// The worktree directory of a subagent, beside the repository at `repo`.
pub fn worktree_path_str(repo: &str, id: &str) -> (r: String)
    ensures
        r@ == worktree_path(repo@, id@),
{
    let c = chars_of(repo);
    proof {
        lemma_rfind_char(c@, '/');
    }
    let parent: Vec<char> = match rfind_char_chars(c.as_slice(), '/') {
        Some(i) => if i == 0 {
            vec!['/']
        } else {
            slice_range(c.as_slice(), 0, i)
        },
        None => Vec::new(),
    };
    proof {
        match rfind_char(c@, '/') {
            Some(i) => {
                if i != 0 {
                    assert(c@.subrange(0, i) =~= c@.take(i));
                }
            },
            None => {},
        }
        assert(parent@ == parent_dir(repo@));
    }
    let mut out = parent.clone();
    if !(parent.len() == 0 || parent[parent.len() - 1] == '/') {
        out.push('/');
    }
    push_str(&mut out, ".pi-worktrees/");
    push_str(&mut out, id);
    assert(out@ =~= worktree_path(repo@, id@));
    string_of(out.as_slice())
}

/// What trimming trailing `c` leaves: a prefix of `s` that does not end with `c`.
pub proof fn lemma_trim_end_char(s: Seq<char>, c: char)
    ensures
        trim_end_char(s, c).len() <= s.len(),
        trim_end_char(s, c) == s.take(trim_end_char(s, c).len() as int),
        trim_end_char(s, c).len() > 0 ==> trim_end_char(s, c).last() != c,
    decreases s.len(),
{
    if s.len() > 0 && s.last() == c {
        lemma_trim_end_char(s.drop_last(), c);
        assert(s.drop_last().take(trim_end_char(s, c).len() as int) =~= s.take(trim_end_char(s, c).len() as int));
    } else {
        assert(s.take(s.len() as int) =~= s);
    }
}

/// The directory that holds `p`, as `Path::parent` gives it for a path
/// whose components are separated by single or repeated `/`: none for an
/// empty path or the root, an empty path for a bare name.
pub open spec fn parent_path(p: Seq<char>) -> Option<Seq<char>> {
    let q = trim_end_char(p, '/');
    if q.len() == 0 {
        None
    } else {
        match rfind_char(q, '/') {
            None => Some(seq![]),
            Some(i) => {
                let r = trim_end_char(q.take(i), '/');
                if r.len() == 0 {
                    Some(seq!['/'])
                } else {
                    Some(r)
                }
            },
        }
    }
}

/// The `k`-th directory up from `p`, if there are that many.
pub open spec fn ancestor(p: Seq<char>, k: nat) -> Option<Seq<char>>
    decreases k,
{
    if k == 0 {
        Some(p)
    } else {
        match ancestor(p, (k - 1) as nat) {
            Some(a) => parent_path(a),
            None => None,
        }
    }
}

/// The directory that holds `p`.
pub fn parent_path_str(p: &str) -> (r: Option<String>)
    ensures
        match r {
            Some(x) => parent_path(p@) == Some(x@) && x@.len() < p@.len(),
            None => parent_path(p@) is None,
        },
{
    let c = chars_of(p);
    let q = trim_end_char_chars(c.as_slice(), '/');
    proof {
        lemma_trim_end_char(c@, '/');
        lemma_rfind_char(q@, '/');
    }
    if q.len() == 0 {
        return None;
    }
    match rfind_char_chars(q.as_slice(), '/') {
        None => Some(String::new()),
        Some(i) => {
            let head = slice_range(q.as_slice(), 0, i);
            assert(head@ =~= q@.take(i as int));
            let r = trim_end_char_chars(head.as_slice(), '/');
            proof {
                lemma_trim_end_char(head@, '/');
                assert(q@[q@.len() - 1] != '/');
            }
            if r.len() == 0 {
                assert(q@.len() >= 2);
                let root = vec!['/'];
                assert(root@ =~= seq!['/']);
                Some(string_of(root.as_slice()))
            } else {
                Some(string_of(r.as_slice()))
            }
        },
    }
}

/// Whether something exists at `path`, by `Path::exists`.  The answer
/// depends on the file system at the time of the call; nothing is stated of it.
#[verifier::external_body]
fn path_exists(path: &str) -> (r: bool) {
    std::path::Path::new(path).exists()
}

/// The directory the walk up from `start` settles on, given the answers
/// `found` for the directories it looked at, in order from `start` up
/// (`found[k]` says whether the `k`-th directory up holds a `.git` entry):
/// the first one with a yes, or none.
pub open spec fn nearest_root(start: Seq<char>, found: Seq<bool>, k: nat) -> Option<Seq<char>>
    decreases found.len() - k,
{
    if k >= found.len() {
        None
    } else {
        match ancestor(start, k) {
            None => None,
            Some(a) => if found[k as int] {
                Some(a)
            } else {
                nearest_root(start, found, k + 1)
            },
        }
    }
}

proof fn lemma_nearest_last(start: Seq<char>, found: Seq<bool>, k: nat)
    requires
        found.len() > 0,
        k < found.len(),
        found.last(),
        forall|j: int| 0 <= j < found.len() - 1 ==> !found[j],
        forall|j: int| 0 <= j < found.len() ==> (#[trigger] ancestor(start, j as nat)) is Some,
    ensures
        nearest_root(start, found, k) == ancestor(start, (found.len() - 1) as nat),
    decreases found.len() - k,
{
    let kk: int = k as int;
    assert(ancestor(start, kk as nat) is Some);
    if k + 1 < found.len() {
        lemma_nearest_last(start, found, k + 1);
    }
}

/// The entry looked for in a directory: `dir` joined with `.git`.
pub fn repo_probe_path(dir: &str) -> (r: String)
    ensures
        r@ == crate::tui::file_tree::join_path(dir@, ".git"@),
{
    crate::tui::file_tree::join_path_str(dir, ".git")
}

/// The nearest directory, from `start_dir` up, for which `found` says yes:
/// `found[k]` is the answer for the `k`-th directory up.
pub fn nearest_repo_root(start_dir: &str, found: &Vec<bool>) -> (r: Option<String>)
    ensures
        match r {
            Some(d) => nearest_root(start_dir@, found@, 0) == Some(d@),
            None => nearest_root(start_dir@, found@, 0) is None,
        },
{
    let mut current = start_dir.to_owned();
    let mut k: usize = 0;
    while k < found.len()
        invariant
            k <= found@.len(),
            ancestor(start_dir@, k as nat) == Some(current@),
            nearest_root(start_dir@, found@, 0) == nearest_root(start_dir@, found@, k as nat),
        decreases found@.len() - k,
    {
        if found[k] {
            return Some(current);
        }
        match parent_path_str(current.as_str()) {
            None => {
                assert(ancestor(start_dir@, (k + 1) as nat) is None);
                assert(nearest_root(start_dir@, found@, (k + 1) as nat) is None);
                return None;
            },
            Some(up) => {
                current = up;
                k = k + 1;
            },
        }
    }
    None
}

/// The nearest directory, starting at `start_dir` and going up, that holds
/// a `.git` entry.  It asks the file system, with `Path::exists`, about
/// `repo_probe_path` of each directory in turn, from `start_dir` up, until
/// one is there or there is no directory above; `nearest_repo_root` then
/// settles on the answer.  The answers depend on the file system: what is
/// promised is that some sequence of answers, one per directory looked at,
/// gives the result, and that no result means every directory up to the top
/// was looked at.
pub fn find_repo_root(start_dir: &str) -> (r: Option<String>)
    ensures
        exists|found: Seq<bool>| #![trigger nearest_root(start_dir@, found, 0)]
            (match r {
                Some(d) => nearest_root(start_dir@, found, 0) == Some(d@),
                None => nearest_root(start_dir@, found, 0) is None && ancestor(start_dir@, found.len()) is None,
            }),
{
    let mut current = start_dir.to_owned();
    let mut found: Vec<bool> = Vec::new();
    loop
        invariant
            ancestor(start_dir@, found@.len()) == Some(current@),
            forall|j: int| 0 <= j < found@.len() ==> !found@[j],
            forall|j: int| 0 <= j <= found@.len() ==> (#[trigger] ancestor(start_dir@, j as nat)) is Some,
        decreases current@.len(),
    {
        let probe = repo_probe_path(current.as_str());
        let there = path_exists(probe.as_str());
        found.push(there);
        if there {
            proof {
                lemma_nearest_last(start_dir@, found@, 0);
            }
            return nearest_repo_root(start_dir, &found);
        }
        match parent_path_str(current.as_str()) {
            None => {
                assert(ancestor(start_dir@, found@.len()) is None);
                return nearest_repo_root(start_dir, &found);
            },
            Some(up) => {
                assert(ancestor(start_dir@, found@.len()) == Some(up@));
                current = up;
            },
        }
    }
}

} // verus!
