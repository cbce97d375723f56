//! Line diffs annotated with the syntactic context of each changed line.
//!
//! The line-level diff itself comes from `diffy`; this module numbers the
//! lines of each hunk, counts additions and deletions, recognises the
//! function, type or module that a line opens, and renders the result.
use crate::text::{
    append_str, chars_of, decimal, decimal_chars, find, find_chars, lemma_find_from, lines,
    lines_chars, parse_usize, parse_usize_spec, push_all, push_str, slice_range, starts_with,
    starts_with_chars, str_eq, string_of, trim, trim_chars, trim_start_str, trim_start_str_chars,
    words, words_chars,
};
use crate::tui::mermaid::Tone;
use vstd::prelude::*;

verus! {

/// What happened to a line.
#[derive(Debug, Clone, Copy, PartialEq, Eq, Structural)]
pub enum DiffKind {
    Added,
    Removed,
    Context,
}

/// One line of a hunk, numbered in the old and the new text where it occurs.
#[derive(Debug, Clone)]
pub struct DiffLine {
    pub text: String,
    pub kind: DiffKind,
    pub old_line: Option<usize>,
    pub new_line: Option<usize>,
    pub syntax_context: Option<String>,
}

/// One hunk of a diff.
#[derive(Debug, Clone)]
pub struct DiffHunk {
    pub lines: Vec<DiffLine>,
    pub context_before: usize,
    pub context_after: usize,
    pub syntax_context: Option<String>,
}

/// The language whose syntax is recognised.
#[derive(Debug, Clone, Copy, PartialEq, Eq, Structural)]
pub enum SyntaxLanguage {
    Rust,
    TypeScript,
    Python,
    Unknown,
}

/// The language of a file extension.
pub open spec fn language_of_ext(ext: Seq<char>) -> SyntaxLanguage {
    if ext == "rs"@ {
        SyntaxLanguage::Rust
    } else if ext == "ts"@ || ext == "tsx"@ {
        SyntaxLanguage::TypeScript
    } else if ext == "py"@ {
        SyntaxLanguage::Python
    } else {
        SyntaxLanguage::Unknown
    }
}

/// The display name of a language.
pub open spec fn language_name(l: SyntaxLanguage) -> Seq<char> {
    match l {
        SyntaxLanguage::Rust => "Rust"@,
        SyntaxLanguage::TypeScript => "TypeScript"@,
        SyntaxLanguage::Python => "Python"@,
        SyntaxLanguage::Unknown => "Unknown"@,
    }
}

fn same(a: &str, b: &str) -> (r: bool)
    ensures
        r == (a@ == b@),
{
    a.to_owned() == b.to_owned()
}

impl SyntaxLanguage {
    /// The language of a file extension.
    pub fn from_extension(ext: &str) -> (r: SyntaxLanguage)
        ensures
            r == language_of_ext(ext@),
    {
        if same(ext, "rs") {
            SyntaxLanguage::Rust
        } else if same(ext, "ts") || same(ext, "tsx") {
            SyntaxLanguage::TypeScript
        } else if same(ext, "py") {
            SyntaxLanguage::Python
        } else {
            SyntaxLanguage::Unknown
        }
    }

    /// The display name of this language.
    pub fn name(&self) -> (r: &'static str)
        ensures
            r@ == language_name(*self),
    {
        match self {
            SyntaxLanguage::Rust => "Rust",
            SyntaxLanguage::TypeScript => "TypeScript",
            SyntaxLanguage::Python => "Python",
            SyntaxLanguage::Unknown => "Unknown",
        }
    }
}

/// The index of the first character of `s` that is one of `stops`, or the length.
pub open spec fn first_stop(s: Seq<char>, stops: Seq<char>) -> int
    decreases s.len(),
{
    if s.len() == 0 || stops.contains(s[0]) {
        0
    } else {
        1 + first_stop(s.drop_first(), stops)
    }
}

/// The text of `s` before the first of `stops`, as `split(..).next()` gives it.
pub open spec fn word_before(s: Seq<char>, stops: Seq<char>) -> Seq<char> {
    s.take(first_stop(s, stops))
}

/// `s` after the prefix `p`.
pub open spec fn after(s: Seq<char>, p: Seq<char>) -> Seq<char> {
    s.skip(p.len() as int)
}

/// The syntactic context that a line opens, by simple heuristics per language:
/// a Rust `fn`, `impl`, `struct` or `mod`; a TypeScript function, class or
/// interface; a Python `def` or class.
pub open spec fn detect_spec(line: Seq<char>, language: SyntaxLanguage) -> Option<Seq<char>> {
    let t = trim(line);
    match language {
        SyntaxLanguage::Rust => if starts_with(t, "fn "@) {
            Some("fn "@ + word_before(after(t, "fn "@), seq!['(', '<', '{', ' ']))
        } else if starts_with(t, "impl "@) {
            Some("impl "@ + word_before(after(t, "impl "@), seq!['<', '{', ' ', '\n']))
        } else if starts_with(t, "struct "@) {
            Some("struct "@ + after(t, "struct "@))
        } else if starts_with(t, "mod "@) {
            Some("mod "@ + after(t, "mod "@))
        } else {
            None
        },
        SyntaxLanguage::TypeScript => if starts_with(t, "function "@) || starts_with(
            t,
            "async function "@,
        ) {
            Some(
                "function "@ + word_before(
                    trim_start_str(trim_start_str(t, "async "@), "function "@),
                    seq!['(', '<', '{', ' '],
                ),
            )
        } else if starts_with(t, "class "@) {
            Some("class "@ + after(t, "class "@))
        } else if starts_with(t, "interface "@) {
            Some("interface "@ + after(t, "interface "@))
        } else {
            None
        },
        SyntaxLanguage::Python => if starts_with(t, "def "@) {
            Some("def "@ + word_before(after(t, "def "@), seq!['(', ':', ' ']))
        } else if starts_with(t, "class "@) {
            Some("class "@ + after(t, "class "@))
        } else {
            None
        },
        SyntaxLanguage::Unknown => None,
    }
}

fn is_stop(c: char, stops: &[char]) -> (r: bool)
    ensures
        r == stops@.contains(c),
{
    let mut k: usize = 0;
    while k < stops.len()
        invariant
            k <= stops@.len(),
            forall|j: int| 0 <= j < k ==> stops@[j] != c,
        decreases stops@.len() - k,
    {
        if stops[k] == c {
            assert(stops@[k as int] == c);
            return true;
        }
        k = k + 1;
    }
    false
}

fn word_before_chars(s: &[char], stops: &[char]) -> (r: Vec<char>)
    ensures
        r@ == word_before(s@, stops@),
{
    let mut i: usize = 0;
    proof {
        assert(s@.skip(0) =~= s@);
    }
    while i < s.len() && !is_stop(s[i], stops)
        invariant
            i <= s@.len(),
            first_stop(s@, stops@) == i + first_stop(s@.skip(i as int), stops@),
        decreases s@.len() - i,
    {
        proof {
            assert(s@.skip(i as int)[0] == s@[i as int]);
            assert(s@.skip(i as int).drop_first() =~= s@.skip(i + 1));
        }
        i = i + 1;
    }
    proof {
        if i < s@.len() {
            assert(s@.skip(i as int)[0] == s@[i as int]);
        }
    }
    slice_range(s, 0, i)
}

fn after_chars(t: &[char], p: &str) -> (r: Vec<char>)
    requires
        starts_with(t@, p@),
    ensures
        r@ == after(t@, p@),
{
    let pv = chars_of(p);
    let n = t.len();
    let r = slice_range(t, pv.len(), n);
    assert(r@ =~= t@.skip(p@.len() as int));
    r
}

fn starts(t: &[char], p: &str) -> (r: bool)
    ensures
        r == starts_with(t@, p@),
{
    let pv = chars_of(p);
    starts_with_chars(t, pv.as_slice())
}

fn prefixed(p: &str, rest: &[char]) -> (r: Option<String>)
    ensures
        r matches Some(s) && s@ == p@ + rest@,
{
    let mut s = p.to_owned();
    let tail = string_of(rest);
    append_str(&mut s, tail.as_str());
    Some(s)
}

/// The syntactic context that a line opens, if any.
pub fn detect_syntax_context(line: &str, language: SyntaxLanguage) -> (r: Option<String>)
    ensures
        match r {
            Some(s) => detect_spec(line@, language) == Some(s@),
            None => detect_spec(line@, language) is None,
        },
{
    let lv = chars_of(line);
    let t = trim_chars(lv.as_slice());
    let t = t.as_slice();
    match language {
        SyntaxLanguage::Rust => {
            if starts(t, "fn ") {
                let stops = vec!['(', '<', '{', ' '];
                assert(stops@ =~= seq!['(', '<', '{', ' ']);
                let w = word_before_chars(after_chars(t, "fn ").as_slice(), stops.as_slice());
                prefixed("fn ", w.as_slice())
            } else if starts(t, "impl ") {
                let stops = vec!['<', '{', ' ', '\n'];
                assert(stops@ =~= seq!['<', '{', ' ', '\n']);
                let w = word_before_chars(after_chars(t, "impl ").as_slice(), stops.as_slice());
                prefixed("impl ", w.as_slice())
            } else if starts(t, "struct ") {
                prefixed("struct ", after_chars(t, "struct ").as_slice())
            } else if starts(t, "mod ") {
                prefixed("mod ", after_chars(t, "mod ").as_slice())
            } else {
                None
            }
        },
        SyntaxLanguage::TypeScript => {
            if starts(t, "function ") || starts(t, "async function ") {
                let a = chars_of("async ");
                let f = chars_of("function ");
                let u = trim_start_str_chars(t, a.as_slice());
                let v = trim_start_str_chars(u.as_slice(), f.as_slice());
                let stops = vec!['(', '<', '{', ' '];
                assert(stops@ =~= seq!['(', '<', '{', ' ']);
                let w = word_before_chars(v.as_slice(), stops.as_slice());
                prefixed("function ", w.as_slice())
            } else if starts(t, "class ") {
                prefixed("class ", after_chars(t, "class ").as_slice())
            } else if starts(t, "interface ") {
                prefixed("interface ", after_chars(t, "interface ").as_slice())
            } else {
                None
            }
        },
        SyntaxLanguage::Python => {
            if starts(t, "def ") {
                let stops = vec!['(', ':', ' '];
                assert(stops@ =~= seq!['(', ':', ' ']);
                let w = word_before_chars(after_chars(t, "def ").as_slice(), stops.as_slice());
                prefixed("def ", w.as_slice())
            } else if starts(t, "class ") {
                prefixed("class ", after_chars(t, "class ").as_slice())
            } else {
                None
            }
        },
        SyntaxLanguage::Unknown => None,
    }
}

/// One line of a hunk as `diffy` gives it: its kind and its text, line ending included.
#[derive(Debug, Clone)]
pub struct PatchLine {
    pub kind: DiffKind,
    pub text: String,
}

/// One hunk as `diffy` gives it: where its old and new ranges start, and its lines.
#[derive(Debug, Clone)]
pub struct PatchHunk {
    pub old_start: usize,
    pub new_start: usize,
    pub lines: Vec<PatchLine>,
}

/// The view of a patch line: kind and text.
pub type PatchLineView = (DiffKind, Seq<char>);

/// The view of a patch hunk: old start, new start, lines.
pub type PatchHunkView = (usize, usize, Seq<PatchLineView>);

impl View for PatchLine {
    type V = PatchLineView;

    open spec fn view(&self) -> PatchLineView {
        (self.kind, self.text@)
    }
}

impl View for PatchHunk {
    type V = PatchHunkView;

    open spec fn view(&self) -> PatchHunkView {
        (self.old_start, self.new_start, self.lines@.map_values(|l: PatchLine| l@))
    }
}

/// The views of a sequence of patch hunks.
pub open spec fn patch_views(s: Seq<PatchHunk>) -> Seq<PatchHunkView> {
    s.map_values(|h: PatchHunk| h@)
}

/// What `diffy::create_patch` gives for two texts: its hunks, and the patch
/// in unified format as its `Display` writes it.
pub uninterp spec fn diffy_patch(old: Seq<char>, new: Seq<char>) -> (Seq<PatchHunkView>, Seq<char>);

/// `diffy::create_patch`, with each hunk and line copied into plain values.
/// The contract names the result, and states two facts of it: there is no
/// hunk exactly when the texts are equal (diffy builds hunks around the
/// changed lines, and two texts that differ differ in some line), every
/// hunk holds at least one line, and every line of either text that diffy
/// does not match up appears once, removed or added; diffy splits a text
/// into lines after each `\n`, as many as `lines` counts, so the added lines
/// outnumber the removed ones by the difference of the line counts.
#[verifier::external_body]
fn create_patch_plain(old: &str, new: &str) -> (r: (Vec<PatchHunk>, String))
    ensures
        (patch_views(r.0@), r.1@) == diffy_patch(old@, new@),
        (old@ == new@) <==> r.0@.len() == 0,
        forall|i: int| 0 <= i < r.0@.len() ==> (#[trigger] r.0@[i]).lines@.len() > 0,
        total_is(patch_views(r.0@), DiffKind::Added) - total_is(patch_views(r.0@), DiffKind::Removed)
            == lines(new@).len() - lines(old@).len(),
{
    let p = diffy::create_patch(old, new);
    let hunks = p.hunks().iter().map(|h| PatchHunk {
        old_start: h.old_range().start(),
        new_start: h.new_range().start(),
        lines: h.lines().iter().map(|l| match l {
            diffy::Line::Context(t) => PatchLine { kind: DiffKind::Context, text: t.to_string() },
            diffy::Line::Delete(t) => PatchLine { kind: DiffKind::Removed, text: t.to_string() },
            diffy::Line::Insert(t) => PatchLine { kind: DiffKind::Added, text: t.to_string() },
        }).collect(),
    }).collect();
    (hunks, p.to_string())
}

/// `x`, capped at the largest `usize`.
pub open spec fn sat(x: int) -> int {
    if x > usize::MAX {
        usize::MAX as int
    } else {
        x
    }
}

/// How many of the first `n` lines are not of kind `k`.
pub open spec fn count_not(ls: Seq<PatchLineView>, n: int, k: DiffKind) -> int
    decreases n,
{
    if n <= 0 {
        0
    } else {
        count_not(ls, n - 1, k) + if ls[n - 1].0 != k {
            1int
        } else {
            0int
        }
    }
}

/// How many of the first `n` lines are of kind `k`.
pub open spec fn count_is(ls: Seq<PatchLineView>, n: int, k: DiffKind) -> int
    decreases n,
{
    if n <= 0 {
        0
    } else {
        count_is(ls, n - 1, k) + if ls[n - 1].0 == k {
            1int
        } else {
            0int
        }
    }
}

/// How many lines of all the hunks are of kind `k`.
pub open spec fn total_is(hs: Seq<PatchHunkView>, k: DiffKind) -> int
    decreases hs.len(),
{
    if hs.len() == 0 {
        0
    } else {
        total_is(hs.drop_last(), k) + count_is(hs.last().2, hs.last().2.len() as int, k)
    }
}

/// The view of a diff line: text, kind, old number, new number, context.
pub type DiffLineView = (Seq<char>, DiffKind, Option<usize>, Option<usize>, Option<Seq<char>>);

/// The view of a diff hunk: lines, context before, context after, context.
pub type DiffHunkView = (Seq<DiffLineView>, usize, usize, Option<Seq<char>>);

/// The characters of an optional string.
pub open spec fn opt_chars(o: Option<String>) -> Option<Seq<char>> {
    match o {
        Some(s) => Some(s@),
        None => None,
    }
}

impl View for DiffLine {
    type V = DiffLineView;

    open spec fn view(&self) -> DiffLineView {
        (self.text@, self.kind, self.old_line, self.new_line, opt_chars(self.syntax_context))
    }
}

impl View for DiffHunk {
    type V = DiffHunkView;

    open spec fn view(&self) -> DiffHunkView {
        (
            self.lines@.map_values(|l: DiffLine| l@),
            self.context_before,
            self.context_after,
            opt_chars(self.syntax_context),
        )
    }
}

/// Line `j` of hunk `h`.  The hunk's first line in each text is numbered with
/// the hunk's start there (diffy's starts count from one), and numbering
/// advances in the old text for every line not added, in the new text for
/// every line not removed: a line gets its own number in each text it is in.
/// (The counting stops at the largest `usize`.)
pub open spec fn diff_line_spec(h: PatchHunkView, j: int, language: SyntaxLanguage) -> DiffLineView {
    let kind = h.2[j].0;
    let text = h.2[j].1;
    let o = sat(h.0 + count_not(h.2, j + 1, DiffKind::Added)) - 1;
    let n = sat(h.1 + count_not(h.2, j + 1, DiffKind::Removed)) - 1;
    (
        text,
        kind,
        if kind == DiffKind::Added {
            None
        } else {
            Some(o as usize)
        },
        if kind == DiffKind::Removed {
            None
        } else {
            Some(n as usize)
        },
        detect_spec(text, language),
    )
}

/// The lines of hunk `h`.
pub open spec fn hunk_lines_spec(h: PatchHunkView, language: SyntaxLanguage) -> Seq<DiffLineView> {
    Seq::new(h.2.len(), |j: int| diff_line_spec(h, j, language))
}

/// The first syntactic context among the lines.
pub open spec fn first_context(ls: Seq<DiffLineView>) -> Option<Seq<char>>
    decreases ls.len(),
{
    if ls.len() == 0 {
        None
    } else if ls[0].4 is Some {
        ls[0].4
    } else {
        first_context(ls.drop_first())
    }
}

/// The hunks of a diff: one per non-empty patch hunk.
pub open spec fn hunks_spec(hs: Seq<PatchHunkView>, context: usize, language: SyntaxLanguage) -> Seq<
    DiffHunkView,
>
    decreases hs.len(),
{
    if hs.len() == 0 {
        seq![]
    } else {
        let rest = hunks_spec(hs.drop_last(), context, language);
        let h = hs.last();
        if h.2.len() > 0 {
            let ls = hunk_lines_spec(h, language);
            rest.push((ls, context, context, first_context(ls)))
        } else {
            rest
        }
    }
}

/// The view of a semantic diff: unified text, hunks, language, whether the
/// texts were equal, added and removed line counts.
pub type SemanticView = (Seq<char>, Seq<DiffHunkView>, SyntaxLanguage, bool, usize, usize);

/// The semantic diff made of a patch.
pub open spec fn semantic_spec(
    patch: (Seq<PatchHunkView>, Seq<char>),
    unchanged: bool,
    context: usize,
    language: SyntaxLanguage,
) -> SemanticView {
    (
        patch.1,
        hunks_spec(patch.0, context, language),
        language,
        unchanged,
        sat(total_is(patch.0, DiffKind::Added)) as usize,
        sat(total_is(patch.0, DiffKind::Removed)) as usize,
    )
}

/// A line diff of two texts with syntactic annotations.
#[derive(Debug, Clone)]
pub struct SemanticDiff {
    raw_diff: String,
    hunks: Vec<DiffHunk>,
    language: SyntaxLanguage,
    is_empty: bool,
    added_lines: usize,
    removed_lines: usize,
}

impl View for SemanticDiff {
    type V = SemanticView;

    closed spec fn view(&self) -> SemanticView {
        (
            self.raw_diff@,
            self.hunks@.map_values(|h: DiffHunk| h@),
            self.language,
            self.is_empty,
            self.added_lines,
            self.removed_lines,
        )
    }
}

proof fn lemma_total_nonneg(hs: Seq<PatchHunkView>, k: DiffKind)
    ensures
        total_is(hs, k) >= 0,
    decreases hs.len(),
{
    if hs.len() > 0 {
        lemma_total_nonneg(hs.drop_last(), k);
        lemma_count_nonneg(hs.last().2, hs.last().2.len() as int, k);
    }
}

proof fn lemma_count_nonneg(ls: Seq<PatchLineView>, n: int, k: DiffKind)
    ensures
        count_not(ls, n, k) >= 0,
        count_is(ls, n, k) >= 0,
    decreases n,
{
    if n > 0 {
        lemma_count_nonneg(ls, n - 1, k);
    }
}

proof fn lemma_first_context_push(ls: Seq<DiffLineView>, x: DiffLineView)
    ensures
        first_context(ls.push(x)) == if first_context(ls) is Some {
            first_context(ls)
        } else {
            x.4
        },
    decreases ls.len(),
{
    if ls.len() > 0 {
        assert(ls.push(x)[0] == ls[0]);
        assert(ls.push(x).drop_first() =~= ls.drop_first().push(x));
        lemma_first_context_push(ls.drop_first(), x);
    } else {
        assert(ls.push(x)[0] == x);
        assert(ls.push(x).drop_first() =~= seq![]);
        assert(first_context(ls.push(x).drop_first()) is None);
    }
}

proof fn lemma_sat_step(a: int, b: int)
    requires
        0 <= a,
        0 <= b <= 1,
    ensures
        sat(sat(a) + b) == sat(a + b),
{
}

fn diff_line_of(h: &PatchHunk, j: usize, old_num: usize, new_num: usize, language: SyntaxLanguage) -> (r: DiffLine)
    requires
        j < h.lines@.len(),
        old_num == sat(h.old_start + count_not(h@.2, j + 1, DiffKind::Added)),
        new_num == sat(h.new_start + count_not(h@.2, j + 1, DiffKind::Removed)),
    ensures
        r@ == diff_line_spec(h@, j as int, language),
{
    let line = &h.lines[j];
    let ghost hv = h@;
    proof {
        lemma_count_nonneg(hv.2, j + 1, DiffKind::Added);
        lemma_count_nonneg(hv.2, j + 1, DiffKind::Removed);
    }
    assert(hv.2[j as int] == line@);
    assert(count_not(hv.2, j + 1, DiffKind::Added) == count_not(hv.2, j as int, DiffKind::Added)
        + if hv.2[j as int].0 != DiffKind::Added { 1int } else { 0int });
    assert(count_not(hv.2, j + 1, DiffKind::Removed) == count_not(hv.2, j as int, DiffKind::Removed)
        + if hv.2[j as int].0 != DiffKind::Removed { 1int } else { 0int });
    proof {
        lemma_count_nonneg(hv.2, j as int, DiffKind::Added);
        lemma_count_nonneg(hv.2, j as int, DiffKind::Removed);
    }
    let ctx = detect_syntax_context(line.text.as_str(), language);
    let old_line = if line.kind == DiffKind::Added {
        None
    } else {
        Some(old_num - 1)
    };
    let new_line = if line.kind == DiffKind::Removed {
        None
    } else {
        Some(new_num - 1)
    };
    let r = DiffLine { text: line.text.clone(), kind: line.kind, old_line, new_line, syntax_context: ctx };
    assert(opt_chars(r.syntax_context) == detect_spec(line.text@, language));
    r
}

impl SemanticDiff {
    /// The semantic diff made of a `diffy` patch: its hunks, its unified
    /// text, and whether the two texts were equal.
    pub fn from_patch(
        hunks: &Vec<PatchHunk>,
        raw_diff: String,
        unchanged: bool,
        context_lines: usize,
        language: SyntaxLanguage,
    ) -> (r: SemanticDiff)
        ensures
            r@ == semantic_spec(
                (patch_views(hunks@), raw_diff@),
                unchanged,
                context_lines,
                language,
            ),
    {
        let ghost hs = patch_views(hunks@);
        let mut out: Vec<DiffHunk> = Vec::new();
        let mut added: usize = 0;
        let mut removed: usize = 0;
        let mut i: usize = 0;
        proof {
            assert(hs.take(0) =~= seq![]);
            assert(out@.map_values(|h: DiffHunk| h@) =~= seq![]);
        }
        while i < hunks.len()
            invariant
                hs == patch_views(hunks@),
                i <= hunks@.len(),
                out@.map_values(|h: DiffHunk| h@) == hunks_spec(hs.take(i as int), context_lines, language),
                added == sat(total_is(hs.take(i as int), DiffKind::Added)),
                removed == sat(total_is(hs.take(i as int), DiffKind::Removed)),
            decreases hunks@.len() - i,
        {
            let h = &hunks[i];
            let ghost hv = h@;
            assert(hv == hs[i as int]);
            let mut lines: Vec<DiffLine> = Vec::new();
            let mut old_num: usize = h.old_start;
            let mut new_num: usize = h.new_start;
            let mut a: usize = added;
            let mut d: usize = removed;
            let mut first: Option<String> = None;
            let mut j: usize = 0;
            let ghost base_a = total_is(hs.take(i as int), DiffKind::Added);
            let ghost base_d = total_is(hs.take(i as int), DiffKind::Removed);
            while j < h.lines.len()
                invariant
                    hv == h@,
                    j <= h.lines@.len(),
                    h.lines@.len() == hv.2.len(),
                    old_num == sat(h.old_start + count_not(hv.2, j as int, DiffKind::Added)),
                    new_num == sat(h.new_start + count_not(hv.2, j as int, DiffKind::Removed)),
                    0 <= base_a,
                    0 <= base_d,
                    a == sat(base_a + count_is(hv.2, j as int, DiffKind::Added)),
                    d == sat(base_d + count_is(hv.2, j as int, DiffKind::Removed)),
                    lines@.len() == j,
                    forall|k: int| 0 <= k < j ==> #[trigger] lines@[k]@ == diff_line_spec(hv, k, language),
                    opt_chars(first) == first_context(lines@.map_values(|l: DiffLine| l@)),
                decreases h.lines@.len() - j,
            {
                let kind = h.lines[j].kind;
                assert(hv.2[j as int].0 == kind);
                proof {
                    lemma_count_nonneg(hv.2, j as int, DiffKind::Added);
                    lemma_count_nonneg(hv.2, j as int, DiffKind::Removed);
                }
                if kind != DiffKind::Added {
                    proof { lemma_sat_step(h.old_start + count_not(hv.2, j as int, DiffKind::Added), 1); }
                    old_num = old_num.saturating_add(1);
                } else {
                    proof { lemma_sat_step(h.old_start + count_not(hv.2, j as int, DiffKind::Added), 0); }
                }
                if kind != DiffKind::Removed {
                    proof { lemma_sat_step(h.new_start + count_not(hv.2, j as int, DiffKind::Removed), 1); }
                    new_num = new_num.saturating_add(1);
                } else {
                    proof { lemma_sat_step(h.new_start + count_not(hv.2, j as int, DiffKind::Removed), 0); }
                }
                if kind == DiffKind::Added {
                    proof { lemma_sat_step(base_a + count_is(hv.2, j as int, DiffKind::Added), 1); }
                    a = a.saturating_add(1);
                } else {
                    proof { lemma_sat_step(base_a + count_is(hv.2, j as int, DiffKind::Added), 0); }
                }
                if kind == DiffKind::Removed {
                    proof { lemma_sat_step(base_d + count_is(hv.2, j as int, DiffKind::Removed), 1); }
                    d = d.saturating_add(1);
                } else {
                    proof { lemma_sat_step(base_d + count_is(hv.2, j as int, DiffKind::Removed), 0); }
                }
                let dl = diff_line_of(h, j, old_num, new_num, language);
                let ghost before = lines@.map_values(|l: DiffLine| l@);
                if first.is_none() {
                    first = match &dl.syntax_context {
                        Some(c) => Some(c.clone()),
                        None => None,
                    };
                }
                lines.push(dl);
                proof {
                    assert(lines@.map_values(|l: DiffLine| l@) =~= before.push(dl@));
                    lemma_first_context_push(before, dl@);
                }
                j = j + 1;
            }
            proof {
                assert(lines@.map_values(|l: DiffLine| l@) =~= hunk_lines_spec(hv, language));
                assert(hs.take(i + 1).drop_last() =~= hs.take(i as int));
                assert(hs.take(i + 1).last() == hv);
                assert(count_is(hv.2, hv.2.len() as int, DiffKind::Added) == count_is(hv.2, j as int, DiffKind::Added));
            }
            added = a;
            removed = d;
            if lines.len() > 0 {
                let ghost before = out@.map_values(|h: DiffHunk| h@);
                let dh = DiffHunk {
                    lines,
                    context_before: context_lines,
                    context_after: context_lines,
                    syntax_context: first,
                };
                out.push(dh);
                proof {
                    assert(out@.map_values(|h: DiffHunk| h@) =~= before.push(dh@));
                }
            }
            i = i + 1;
        }
        proof {
            assert(hs.take(hunks@.len() as int) =~= hs);
        }
        SemanticDiff {
            raw_diff,
            hunks: out,
            language,
            is_empty: unchanged,
            added_lines: added,
            removed_lines: removed,
        }
    }
}

/// Whether a diff shows no change: the texts were equal or no hunk remains.
pub open spec fn diff_empty(v: SemanticView) -> bool {
    v.3 || v.1.len() == 0
}

/// The one-line summary of a diff.
pub open spec fn summary_spec(v: SemanticView) -> Seq<char> {
    if diff_empty(v) {
        "No changes."@
    } else {
        decimal(v.4 as nat) + " additions, "@ + decimal(v.5 as nat) + " deletions across "@
            + decimal(v.1.len()) + " hunk(s)"@
    }
}

/// The marker of a line kind in plain rendering.
pub open spec fn kind_marker(k: DiffKind) -> char {
    match k {
        DiffKind::Added => '+',
        DiffKind::Removed => '-',
        DiffKind::Context => ' ',
    }
}

/// The plain rendering of the first `n` lines.
pub open spec fn lines_text(ls: Seq<DiffLineView>, n: int) -> Seq<char>
    decreases n,
{
    if n <= 0 {
        seq![]
    } else {
        lines_text(ls, n - 1) + seq![kind_marker(ls[n - 1].1), ' '] + ls[n - 1].0 + seq!['\n']
    }
}

/// The plain rendering of a hunk: a header naming its context, then its lines.
pub open spec fn hunk_text(h: DiffHunkView) -> Seq<char> {
    (match h.3 {
        Some(c) => "  @@ "@ + c + " @@\n"@,
        None => seq![],
    }) + lines_text(h.0, h.0.len() as int)
}

/// The plain rendering of the first `n` hunks.
pub open spec fn hunks_text(hs: Seq<DiffHunkView>, n: int) -> Seq<char>
    decreases n,
{
    if n <= 0 {
        seq![]
    } else {
        hunks_text(hs, n - 1) + hunk_text(hs[n - 1])
    }
}

/// The plain rendering of a diff: a summary line, then each hunk.
pub open spec fn plain_spec(v: SemanticView) -> Seq<char> {
    "── Semantic Diff — "@ + summary_spec(v) + "\n"@ + hunks_text(v.1, v.1.len() as int)
}

/// The colour of a line of each kind.
pub open spec fn kind_tone(k: DiffKind) -> Tone {
    match k {
        DiffKind::Added => Tone::Green,
        DiffKind::Removed => Tone::Red,
        DiffKind::Context => Tone::DarkGray,
    }
}

/// A line as the diff pane shows it: its marker, its text and the syntactic
/// context it opens, in the colour of its kind.
pub open spec fn styled_line(l: DiffLineView) -> (Seq<char>, Tone) {
    (
        seq![kind_marker(l.1), ' '] + l.0 + match l.4 {
            Some(c) => "  // "@ + c,
            None => seq![],
        },
        kind_tone(l.1),
    )
}

/// A hunk as the diff pane shows it: a header naming its context, then its lines.
pub open spec fn styled_hunk(h: DiffHunkView) -> Seq<(Seq<char>, Tone)> {
    (match h.3 {
        Some(c) => seq![("  @@ "@ + c + " @@"@, Tone::Yellow)],
        None => seq![],
    }) + h.0.map_values(|l: DiffLineView| styled_line(l))
}

/// The first `n` hunks as the diff pane shows them.
pub open spec fn styled_hunks(hs: Seq<DiffHunkView>, n: int) -> Seq<(Seq<char>, Tone)>
    decreases n,
{
    if n <= 0 {
        seq![]
    } else {
        styled_hunks(hs, n - 1) + styled_hunk(hs[n - 1])
    }
}

/// The diff as the diff pane shows it: a summary line, then each hunk.
pub open spec fn styled_spec(v: SemanticView) -> Seq<(Seq<char>, Tone)> {
    seq![("── Semantic Diff ── ["@ + summary_spec(v) + "]"@, Tone::Cyan)] + styled_hunks(v.1, v.1.len() as int)
}

/// The view of coloured lines.
pub open spec fn styled_view(r: Seq<(String, Tone)>) -> Seq<(Seq<char>, Tone)> {
    r.map_values(|p: (String, Tone)| (p.0@, p.1))
}

impl SemanticDiff {
    /// The diff of two texts, with three lines of context and no language.
    pub fn compute(old_text: &str, new_text: &str) -> (r: SemanticDiff)
        ensures
            r@ == semantic_spec(
                diffy_patch(old_text@, new_text@),
                old_text@ == new_text@,
                3,
                SyntaxLanguage::Unknown,
            ),
            old_text@ == new_text@ ==> r@.1.len() == 0 && r@.4 == 0 && r@.5 == 0,
            old_text@ != new_text@ ==> r@.1.len() > 0,
            r@.4 < usize::MAX && r@.5 < usize::MAX ==> r@.4 - r@.5 == lines(new_text@).len() - lines(old_text@).len(),
    {
        SemanticDiff::compute_with_context(old_text, new_text, 3, SyntaxLanguage::Unknown)
    }

    /// The diff of two texts, with the given context and language.
    pub fn compute_with_context(
        old_text: &str,
        new_text: &str,
        context_lines: usize,
        language: SyntaxLanguage,
    ) -> (r: SemanticDiff)
        ensures
            r@ == semantic_spec(
                diffy_patch(old_text@, new_text@),
                old_text@ == new_text@,
                context_lines,
                language,
            ),
            old_text@ == new_text@ ==> r@.1.len() == 0 && r@.4 == 0 && r@.5 == 0,
            old_text@ != new_text@ ==> r@.1.len() > 0,
            r@.4 < usize::MAX && r@.5 < usize::MAX ==> r@.4 - r@.5 == lines(new_text@).len() - lines(old_text@).len(),
    {
        let (hunks, raw) = create_patch_plain(old_text, new_text);
        proof {
            if old_text@ == new_text@ {
                assert(patch_views(hunks@) =~= Seq::<PatchHunkView>::empty());
            } else {
                let hs = patch_views(hunks@);
                assert(hs.last() == hunks@[hunks@.len() - 1]@);
                assert(hs.last().2.len() > 0);
            }
            lemma_total_nonneg(patch_views(hunks@), DiffKind::Added);
            lemma_total_nonneg(patch_views(hunks@), DiffKind::Removed);
        }
        let unchanged = str_eq(old_text, new_text);
        SemanticDiff::from_patch(&hunks, raw, unchanged, context_lines, language)
    }

    /// Whether the diff shows no change.
    pub fn is_empty(&self) -> (r: bool)
        ensures
            r == diff_empty(self@),
    {
        self.is_empty || self.hunks.len() == 0
    }

    /// The hunks.
    pub fn hunks(&self) -> (r: &[DiffHunk])
        ensures
            r@.map_values(|h: DiffHunk| h@) == self@.1,
    {
        self.hunks.as_slice()
    }

    /// The unified diff text.
    pub fn raw_diff(&self) -> (r: &str)
        ensures
            r@ == self@.0,
    {
        self.raw_diff.as_str()
    }

    /// The language.
    pub fn language(&self) -> (r: SyntaxLanguage)
        ensures
            r == self@.2,
    {
        self.language
    }

    /// The number of added lines.
    pub fn added_lines(&self) -> (r: usize)
        ensures
            r == self@.4,
    {
        self.added_lines
    }

    /// The number of removed lines.
    pub fn removed_lines(&self) -> (r: usize)
        ensures
            r == self@.5,
    {
        self.removed_lines
    }

    /// A one-line summary of the changes.
    pub fn summary(&self) -> (r: String)
        ensures
            r@ == summary_spec(self@),
    {
        if self.is_empty() {
            return "No changes.".to_owned();
        }
        let mut v: Vec<char> = Vec::new();
        let a = decimal_chars(self.added_lines);
        push_all(&mut v, a.as_slice());
        push_str(&mut v, " additions, ");
        let d = decimal_chars(self.removed_lines);
        push_all(&mut v, d.as_slice());
        push_str(&mut v, " deletions across ");
        let n = decimal_chars(self.hunks.len());
        push_all(&mut v, n.as_slice());
        push_str(&mut v, " hunk(s)");
        proof {
            assert(self@.1.len() == self.hunks@.len());
        }
        string_of(v.as_slice())
    }

    /// The diff as coloured lines: the summary, then each hunk's context
    /// header and its lines, each marked and annotated with the context it
    /// opens.
    pub fn render_lines(&self) -> (r: Vec<(String, Tone)>)
        ensures
            styled_view(r@) == styled_spec(self@),
    {
        let ghost hs = self@.1;
        let mut r: Vec<(String, Tone)> = Vec::new();
        let mut head = "── Semantic Diff ── [".to_owned();
        append_str(&mut head, self.summary().as_str());
        append_str(&mut head, "]");
        r.push((head, Tone::Cyan));
        let mut i: usize = 0;
        proof {
            assert(styled_view(r@) =~= seq![("── Semantic Diff ── ["@ + summary_spec(self@) + "]"@, Tone::Cyan)] + styled_hunks(hs, 0));
        }
        while i < self.hunks.len()
            invariant
                hs == self@.1,
                hs.len() == self.hunks@.len(),
                i <= self.hunks@.len(),
                styled_view(r@) == seq![("── Semantic Diff ── ["@ + summary_spec(self@) + "]"@, Tone::Cyan)] + styled_hunks(hs, i as int),
            decreases self.hunks@.len() - i,
        {
            let h = &self.hunks[i];
            assert(h@ == hs[i as int]);
            let ghost start = styled_view(r@);
            match &h.syntax_context {
                Some(c) => {
                    let mut t = "  @@ ".to_owned();
                    append_str(&mut t, c.as_str());
                    append_str(&mut t, " @@");
                    r.push((t, Tone::Yellow));
                },
                None => {},
            }
            let ghost mid = styled_view(r@);
            proof {
                assert(mid =~= start + match hs[i as int].3 {
                    Some(c) => seq![("  @@ "@ + c + " @@"@, Tone::Yellow)],
                    None => Seq::<(Seq<char>, Tone)>::empty(),
                });
            }
            let ghost ls = h@.0;
            let mut j: usize = 0;
            while j < h.lines.len()
                invariant
                    ls == h@.0,
                    ls.len() == h.lines@.len(),
                    j <= h.lines@.len(),
                    styled_view(r@) == mid + ls.take(j as int).map_values(|l: DiffLineView| styled_line(l)),
                decreases h.lines@.len() - j,
            {
                let l = &h.lines[j];
                assert(l@ == ls[j as int]);
                let mut t = String::new();
                match l.kind {
                    DiffKind::Added => append_str(&mut t, "+ "),
                    DiffKind::Removed => append_str(&mut t, "- "),
                    DiffKind::Context => append_str(&mut t, "  "),
                }
                proof {
                    reveal_strlit("+ ");
                    reveal_strlit("- ");
                    reveal_strlit("  ");
                    assert(t@ =~= seq![kind_marker(l.kind), ' ']);
                }
                append_str(&mut t, l.text.as_str());
                let ghost body = t@;
                match &l.syntax_context {
                    Some(c) => {
                        append_str(&mut t, "  // ");
                        append_str(&mut t, c.as_str());
                        assert(t@ =~= body + ("  // "@ + c@));
                    },
                    None => {
                        assert(t@ =~= body + Seq::<char>::empty());
                    },
                }
                assert(t@ == styled_line(ls[j as int]).0);
                let tone = match l.kind {
                    DiffKind::Added => Tone::Green,
                    DiffKind::Removed => Tone::Red,
                    DiffKind::Context => Tone::DarkGray,
                };
                let ghost before = styled_view(r@);
                r.push((t, tone));
                proof {
                    assert(styled_view(r@) =~= before.push(styled_line(ls[j as int])));
                    assert(ls.take(j + 1).map_values(|l: DiffLineView| styled_line(l)) =~= ls.take(j as int).map_values(
                        |l: DiffLineView| styled_line(l),
                    ).push(styled_line(ls[j as int])));
                }
                j = j + 1;
            }
            proof {
                assert(ls.take(ls.len() as int) =~= ls);
                assert(styled_view(r@) =~= start + styled_hunk(hs[i as int]));
                assert(styled_hunks(hs, i + 1) == styled_hunks(hs, i as int) + styled_hunk(hs[i as int]));
            }
            i = i + 1;
        }
        r
    }

    /// The diff as plain text: a summary line, then each hunk's context
    /// header and its lines, each marked `+`, `-` or a space.
    pub fn render_plain(&self) -> (r: String)
        ensures
            r@ == plain_spec(self@),
    {
        let ghost hs = self@.1;
        let mut v: Vec<char> = Vec::new();
        push_str(&mut v, "── Semantic Diff — ");
        let sm = self.summary();
        push_str(&mut v, sm.as_str());
        push_str(&mut v, "\n");
        let mut i: usize = 0;
        while i < self.hunks.len()
            invariant
                hs == self@.1,
                hs.len() == self.hunks@.len(),
                i <= self.hunks@.len(),
                v@ == "── Semantic Diff — "@ + summary_spec(self@) + "\n"@ + hunks_text(hs, i as int),
            decreases self.hunks@.len() - i,
        {
            let h = &self.hunks[i];
            assert(h@ == hs[i as int]);
            let ghost start = v@;
            match &h.syntax_context {
                Some(c) => {
                    push_str(&mut v, "  @@ ");
                    push_str(&mut v, c.as_str());
                    push_str(&mut v, " @@\n");
                },
                None => {},
            }
            let ghost mid = v@;
            let ghost ls = h@.0;
            let mut j: usize = 0;
            while j < h.lines.len()
                invariant
                    ls == h@.0,
                    ls.len() == h.lines@.len(),
                    j <= h.lines@.len(),
                    v@ == mid + lines_text(ls, j as int),
                decreases h.lines@.len() - j,
            {
                let l = &h.lines[j];
                assert(l@ == ls[j as int]);
                let m = match l.kind {
                    DiffKind::Added => '+',
                    DiffKind::Removed => '-',
                    DiffKind::Context => ' ',
                };
                v.push(m);
                v.push(' ');
                push_str(&mut v, l.text.as_str());
                v.push('\n');
                proof {
                    assert(v@ =~= mid + lines_text(ls, j + 1));
                }
                j = j + 1;
            }
            proof {
                assert(v@ =~= start + hunk_text(hs[i as int]));
                assert(v@ =~= "── Semantic Diff — "@ + summary_spec(self@) + "\n"@ + hunks_text(hs, i + 1));
            }
            i = i + 1;
        }
        string_of(v.as_slice())
    }
}


/// A hunk of a unified diff as its text gives it: the line where it starts in
/// the old file and in the new one, and the lines that follow its header.
pub struct RawHunk {
    pub old_start: usize,
    pub new_start: usize,
    pub lines: Vec<String>,
}

/// What a `RawHunk` holds, as values.
pub struct RawHunkView {
    pub old_start: usize,
    pub new_start: usize,
    pub lines: Seq<Seq<char>>,
}

impl View for RawHunk {
    type V = RawHunkView;

    open spec fn view(&self) -> RawHunkView {
        RawHunkView {
            old_start: self.old_start,
            new_start: self.new_start,
            lines: self.lines@.map_values(|l: String| l@),
        }
    }
}

/// The text of `s` before its first comma, as `split(',').next()` gives it.
pub open spec fn before_comma(s: Seq<char>) -> Seq<char> {
    match find(s, seq![',']) {
        Some(i) => s.take(i),
        None => s,
    }
}

/// The word at index `i` of `ws`, if there is one.
pub open spec fn word_at(ws: Seq<Seq<char>>, i: int) -> Option<Seq<char>> {
    if 0 <= i < ws.len() {
        Some(ws[i])
    } else {
        None
    }
}

/// The start line that a header word gives: the number after its leading
/// `sign` and before any comma, or 1 where the word is missing, has another
/// first character, or holds no number that fits in a `usize`.
pub open spec fn header_start(w: Option<Seq<char>>, sign: char) -> usize {
    match w {
        Some(t) => if t.len() > 0 && t[0] == sign {
            match parse_usize_spec(before_comma(t.drop_first())) {
                Some(n) => n,
                None => 1,
            }
        } else {
            1
        },
        None => 1,
    }
}

/// The empty hunk that a header line `@@ -a,b +c,d @@` opens.
pub open spec fn header_hunk(line: Seq<char>) -> RawHunkView {
    let ws = words(line);
    RawHunkView {
        old_start: header_start(word_at(ws, 1), '-'),
        new_start: header_start(word_at(ws, 2), '+'),
        lines: seq![],
    }
}

/// The finished hunks once the open one, if it holds a line, is added.
pub open spec fn flush_hunk(done: Seq<RawHunkView>, cur: Option<RawHunkView>) -> Seq<RawHunkView> {
    match cur {
        Some(h) => if h.lines.len() > 0 {
            done.push(h)
        } else {
            done
        },
        None => done,
    }
}

/// The finished hunks and the open one after reading the lines `ls`: a line
/// that starts with `@@` closes the open hunk and opens another; any other
/// line joins the open hunk, and is dropped when none is open.
pub open spec fn scan_hunks(ls: Seq<Seq<char>>) -> (Seq<RawHunkView>, Option<RawHunkView>)
    decreases ls.len(),
{
    if ls.len() == 0 {
        (seq![], None)
    } else {
        let (done, cur) = scan_hunks(ls.drop_last());
        let line = ls.last();
        if starts_with(line, "@@"@) {
            (flush_hunk(done, cur), Some(header_hunk(line)))
        } else {
            match cur {
                Some(h) => (
                    done,
                    Some(
                        RawHunkView {
                            old_start: h.old_start,
                            new_start: h.new_start,
                            lines: h.lines.push(line),
                        },
                    ),
                ),
                None => (done, None),
            }
        }
    }
}

/// The hunks of a unified diff, each with at least one line.
pub open spec fn raw_hunks(diff: Seq<char>) -> Seq<RawHunkView> {
    let (done, cur) = scan_hunks(lines(diff));
    flush_hunk(done, cur)
}

/// What an optional hunk holds.
pub open spec fn opt_hunk(h: Option<RawHunk>) -> Option<RawHunkView> {
    match h {
        Some(x) => Some(x@),
        None => None,
    }
}

fn header_start_of(w: Option<&Vec<char>>, sign: char) -> (n: usize)
    ensures
        n == header_start(
            match w {
                Some(t) => Some(t@),
                None => None,
            },
            sign,
        ),
{
    match w {
        Some(t) => {
            if t.len() > 0 && t[0] == sign {
                let rest = slice_range(t.as_slice(), 1, t.len());
                assert(rest@ =~= t@.drop_first());
                let comma: Vec<char> = vec![','];
                assert(comma@ =~= seq![',']);
                let field = match find_chars(rest.as_slice(), comma.as_slice()) {
                    Some(i) => {
                        proof {
                            lemma_find_from(rest@, seq![','], 0);
                        }
                        let f = slice_range(rest.as_slice(), 0, i);
                        assert(f@ =~= rest@.take(i as int));
                        f
                    },
                    None => rest,
                };
                let text = string_of(field.as_slice());
                match parse_usize(text.as_str()) {
                    Some(n) => n,
                    None => 1,
                }
            } else {
                1
            }
        },
        None => 1,
    }
}

fn header_of(line: &[char]) -> (h: RawHunk)
    ensures
        h@ == header_hunk(line@),
{
    let ws = words_chars(line);
    let ghost wv = ws@.map_values(|v: Vec<char>| v@);
    let old_start = if ws.len() > 1 {
        assert(wv[1] == ws@[1]@);
        header_start_of(Some(&ws[1]), '-')
    } else {
        header_start_of(None, '-')
    };
    let new_start = if ws.len() > 2 {
        assert(wv[2] == ws@[2]@);
        header_start_of(Some(&ws[2]), '+')
    } else {
        header_start_of(None, '+')
    };
    let h = RawHunk { old_start, new_start, lines: Vec::new() };
    assert(h@.lines =~= seq![]);
    h
}

/// The hunks of the unified diff `diff`: each header line `@@ -a,b +c,d @@`
/// opens a hunk starting at old line `a` and new line `c`, the lines after it
/// belong to it, and a hunk without lines is left out.
pub fn parse_unified_diff_hunks(diff: &str) -> (r: Vec<RawHunk>)
    ensures
        r@.map_values(|h: RawHunk| h@) == raw_hunks(diff@),
{
    let text = chars_of(diff);
    let ls = lines_chars(text.as_slice());
    let ghost all = lines(diff@);
    let mut hunks: Vec<RawHunk> = Vec::new();
    let mut current: Option<RawHunk> = None;
    let mut i: usize = 0;
    assert(all.take(0) =~= seq![]);
    assert(hunks@.map_values(|h: RawHunk| h@) =~= seq![]);
    while i < ls.len()
        invariant
            all == lines(diff@),
            ls@.len() == all.len(),
            forall|k: int| 0 <= k < ls@.len() ==> #[trigger] ls@[k]@ == all[k],
            i <= ls@.len(),
            (hunks@.map_values(|h: RawHunk| h@), opt_hunk(current)) == scan_hunks(all.take(i as int)),
        decreases ls@.len() - i,
    {
        proof {
            assert(all.take(i + 1).drop_last() =~= all.take(i as int));
            assert(all.take(i + 1).last() == ls@[i as int]@);
        }
        let ghost before = hunks@.map_values(|h: RawHunk| h@);
        let line = &ls[i];
        if starts(line.as_slice(), "@@") {
            match current {
                Some(h) => {
                    if h.lines.len() > 0 {
                        let ghost hv = h@;
                        hunks.push(h);
                        assert(hunks@.map_values(|h: RawHunk| h@) =~= before.push(hv));
                    }
                },
                None => {},
            }
            current = Some(header_of(line.as_slice()));
        } else {
            current = match current {
                Some(h) => {
                    let mut h = h;
                    let ghost old_lines = h@.lines;
                    h.lines.push(string_of(line.as_slice()));
                    assert(h@.lines =~= old_lines.push(line@));
                    Some(h)
                },
                None => None,
            };
        }
        i = i + 1;
    }
    assert(all.take(ls@.len() as int) =~= all);
    let ghost before = hunks@.map_values(|h: RawHunk| h@);
    match current {
        Some(h) => {
            if h.lines.len() > 0 {
                let ghost hv = h@;
                hunks.push(h);
                assert(hunks@.map_values(|h: RawHunk| h@) =~= before.push(hv));
            }
        },
        None => {},
    }
    hunks
}

/// A line that opens a declaration of its language always has a context,
/// which names the declaration's keyword: for a Rust `fn`, `impl`, `struct`
/// or `mod`, a TypeScript `function`, `async function`, `class` or
/// `interface`, a Python `def` or `class`.  A class, interface, struct or
/// module keeps the rest of the trimmed line after its keyword.
pub proof fn lemma_declarations_have_context(line: Seq<char>)
    ensures
        starts_with(trim(line), "fn "@) ==> (detect_spec(line, SyntaxLanguage::Rust) matches Some(c) && starts_with(c, "fn "@)),
        starts_with(trim(line), "impl "@) ==> (detect_spec(line, SyntaxLanguage::Rust) matches Some(c) && starts_with(c, "impl "@)),
        starts_with(trim(line), "struct "@) ==> detect_spec(line, SyntaxLanguage::Rust) == Some("struct "@ + trim(line).skip(7)),
        starts_with(trim(line), "mod "@) ==> detect_spec(line, SyntaxLanguage::Rust) == Some("mod "@ + trim(line).skip(4)),
        (starts_with(trim(line), "function "@) || starts_with(trim(line), "async function "@))
            ==> (detect_spec(line, SyntaxLanguage::TypeScript) matches Some(c) && starts_with(c, "function "@)),
        starts_with(trim(line), "class "@) ==> detect_spec(line, SyntaxLanguage::TypeScript) == Some("class "@ + trim(line).skip(6)),
        starts_with(trim(line), "interface "@) ==> detect_spec(line, SyntaxLanguage::TypeScript) == Some("interface "@ + trim(line).skip(10)),
        starts_with(trim(line), "def "@) ==> (detect_spec(line, SyntaxLanguage::Python) matches Some(c) && starts_with(c, "def "@)),
        starts_with(trim(line), "class "@) ==> detect_spec(line, SyntaxLanguage::Python) == Some("class "@ + trim(line).skip(6)),
        detect_spec(line, SyntaxLanguage::Unknown) is None,
{
    reveal_strlit("fn ");
    reveal_strlit("impl ");
    reveal_strlit("struct ");
    reveal_strlit("mod ");
    reveal_strlit("function ");
    reveal_strlit("async function ");
    reveal_strlit("class ");
    reveal_strlit("interface ");
    reveal_strlit("def ");
    let t = trim(line);
    assert(("fn "@ + word_before(after(t, "fn "@), seq!['(', '<', '{', ' '])).take(3) =~= "fn "@);
    assert(("impl "@ + word_before(after(t, "impl "@), seq!['<', '{', ' ', '\n'])).take(5) =~= "impl "@);
    assert(("def "@ + word_before(after(t, "def "@), seq!['(', ':', ' '])).take(4) =~= "def "@);
    assert(("function "@ + word_before(
        trim_start_str(trim_start_str(t, "async "@), "function "@),
        seq!['(', '<', '{', ' '],
    )).take(9) =~= "function "@);
    if starts_with(t, "class "@) {
        assert(t.take(6)[0] == t[0]);
        assert(t[0] == 'c');
    }
    if starts_with(t, "interface "@) {
        assert(t.take(10)[0] == t[0]);
        assert(t[0] == 'i');
    }
    if starts_with(t, "impl "@) {
        assert(t.take(5)[0] == t[0]);
        assert(t[0] == 'i');
    }
    if starts_with(t, "struct "@) {
        assert(t.take(7)[0] == t[0]);
        assert(t[0] == 's');
    }
    if starts_with(t, "mod "@) {
        assert(t.take(4)[0] == t[0]);
        assert(t[0] == 'm');
    }
}

/// Line numbering in a hunk: a line has an old number exactly when it is not
/// added and a new number exactly when it is not removed; the hunk's first
/// line, unless added, carries the hunk's old start, and unless removed its
/// new start; and two lines in a row that are both in the old text (or both
/// in the new text) are numbered one after the other there (below the
/// largest `usize`).
pub proof fn lemma_hunk_numbering(h: PatchHunkView, j: int, language: SyntaxLanguage)
    requires
        0 <= j < h.2.len(),
        h.0 + h.2.len() < usize::MAX,
        h.1 + h.2.len() < usize::MAX,
    ensures
        diff_line_spec(h, j, language).2 is Some <==> h.2[j].0 != DiffKind::Added,
        diff_line_spec(h, j, language).3 is Some <==> h.2[j].0 != DiffKind::Removed,
        j == 0 && h.2[0].0 != DiffKind::Added ==> diff_line_spec(h, 0, language).2 == Some(h.0),
        j == 0 && h.2[0].0 != DiffKind::Removed ==> diff_line_spec(h, 0, language).3 == Some(h.1),
        j + 1 < h.2.len() && h.2[j].0 != DiffKind::Added && h.2[j + 1].0 != DiffKind::Added ==> (
            diff_line_spec(h, j + 1, language).2 matches Some(b) && diff_line_spec(h, j, language).2 matches Some(a) && b == a + 1),
        j + 1 < h.2.len() && h.2[j].0 != DiffKind::Removed && h.2[j + 1].0 != DiffKind::Removed ==> (
            diff_line_spec(h, j + 1, language).3 matches Some(b) && diff_line_spec(h, j, language).3 matches Some(a) && b == a + 1),
{
    lemma_count_nonneg(h.2, j, DiffKind::Added);
    lemma_count_nonneg(h.2, j, DiffKind::Removed);
    lemma_count_not_at_most(h.2, j + 2, DiffKind::Added);
    lemma_count_not_at_most(h.2, j + 2, DiffKind::Removed);
    if j == 0 {
        assert(count_not(h.2, 0, DiffKind::Added) == 0);
        assert(count_not(h.2, 0, DiffKind::Removed) == 0);
    }
}

proof fn lemma_count_not_at_most(ls: Seq<PatchLineView>, n: int, k: DiffKind)
    requires
        0 <= n,
    ensures
        count_not(ls, n, k) <= n,
    decreases n,
{
    if n > 0 {
        lemma_count_not_at_most(ls, n - 1, k);
    }
}

} // verus!
