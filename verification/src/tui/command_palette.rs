//! The command palette: a query, fuzzy filtering of commands and files,
//! and a selection among the commands that match.
use vstd::prelude::*;

use crate::text::{
    chars_of, contains, contains_chars, char_lowercase, is_whitespace, is_ws, lower_char,
    lower_str, push_str, str_lowercase, string_of, trim, trim_chars, trim_end, trim_start,
    all_ascii, ascii_lower_all,
};
use crate::tui::Pane;

verus! {

/// An action the palette can trigger.
#[derive(Debug, Clone, PartialEq, Eq)]
pub enum Command {
    OpenFile(Option<String>),
    SwitchPane(Pane),
    ToggleDarkMode,
    ToggleFileTree,
    ToggleAgentPane,
    SpawnSubagent(Option<String>),
    RunBridgeTest,
    ShowPlugins,
    SelectProvider(Option<String>),
    ToggleGitStatus,
    RenderMermaid,
    Quit,
}

/// A copy of an optional string.
fn copy_opt_string(s: &Option<String>) -> (r: Option<String>)
    ensures
        r == *s,
{
    match s {
        Some(x) => Some(x.clone()),
        None => None,
    }
}

impl Command {
    /// A copy of this command.
    pub fn copy(&self) -> (r: Command)
        ensures
            r == *self,
    {
        match self {
            Command::OpenFile(p) => Command::OpenFile(copy_opt_string(p)),
            Command::SwitchPane(p) => Command::SwitchPane(*p),
            Command::ToggleDarkMode => Command::ToggleDarkMode,
            Command::ToggleFileTree => Command::ToggleFileTree,
            Command::ToggleAgentPane => Command::ToggleAgentPane,
            Command::SpawnSubagent(g) => Command::SpawnSubagent(copy_opt_string(g)),
            Command::RunBridgeTest => Command::RunBridgeTest,
            Command::ShowPlugins => Command::ShowPlugins,
            Command::SelectProvider(n) => Command::SelectProvider(copy_opt_string(n)),
            Command::ToggleGitStatus => Command::ToggleGitStatus,
            Command::RenderMermaid => Command::RenderMermaid,
            Command::Quit => Command::Quit,
        }
    }
}

/// A named entry of the palette.
#[derive(Debug, Clone, PartialEq, Eq)]
pub struct PaletteCommand {
    pub name: String,
    pub command: Command,
}

impl PaletteCommand {
    /// A copy of this entry.
    pub fn copy(&self) -> (r: PaletteCommand)
        ensures
            r == *self,
    {
        PaletteCommand { name: self.name.clone(), command: self.command.copy() }
    }
}

/// The characters of `s` that are not whitespace.
pub open spec fn non_ws(s: Seq<char>) -> Seq<char>
    decreases s.len(),
{
    if s.len() == 0 {
        seq![]
    } else if is_ws(s.last()) {
        non_ws(s.drop_last())
    } else {
        non_ws(s.drop_last()).push(s.last())
    }
}

/// The lowercase mapping of a character: for ASCII, the ASCII lower-casing;
/// beyond ASCII, what `char::to_lowercase` yields.
pub open spec fn lower_of(c: char) -> Seq<char> {
    if 'A' <= c <= 'Z' {
        seq![((c as u32) + 32) as char]
    } else if (c as u32) < 128 {
        seq![c]
    } else {
        char_lowercase(c)
    }
}

/// The lowercase form of a text: for ASCII, the ASCII lower-casing; beyond
/// ASCII, what `str::to_lowercase` gives.
pub open spec fn lower_text(s: Seq<char>) -> Seq<char> {
    if all_ascii(s) {
        ascii_lower_all(s)
    } else {
        str_lowercase(s)
    }
}

/// The lowercase mappings of the characters of `s`, one after another.
pub open spec fn lower_all(s: Seq<char>) -> Seq<char>
    decreases s.len(),
{
    if s.len() == 0 {
        seq![]
    } else {
        lower_all(s.drop_last()) + lower_of(s.last())
    }
}

/// Whether the characters of `n` occur in `h` in order, matched greedily.
pub open spec fn subsequence(n: Seq<char>, h: Seq<char>) -> bool
    decreases h.len(),
{
    if n.len() == 0 {
        true
    } else if h.len() == 0 {
        false
    } else if h[0] == n[0] {
        subsequence(n.drop_first(), h.drop_first())
    } else {
        subsequence(n, h.drop_first())
    }
}

/// Whether `candidate` matches `query`: a blank query matches everything; otherwise the
/// lowercased non-blank characters of the query occur, in order, in the lowercased candidate.
pub open spec fn fuzzy(candidate: Seq<char>, query: Seq<char>) -> bool {
    trim(query).len() == 0 || {
        let n = lower_all(non_ws(query));
        n.len() > 0 && subsequence(n, lower_all(candidate))
    }
}

/// The entries of `entries` whose names match `query`, in order.
pub open spec fn visible(entries: Seq<PaletteCommand>, query: Seq<char>) -> Seq<PaletteCommand>
    decreases entries.len(),
{
    if entries.len() == 0 {
        seq![]
    } else if fuzzy(entries.last().name@, query) {
        visible(entries.drop_last(), query).push(entries.last())
    } else {
        visible(entries.drop_last(), query)
    }
}

proof fn lemma_take_last<A>(s: Seq<A>, i: int)
    requires
        0 <= i < s.len(),
    ensures
        s.take(i + 1).drop_last() == s.take(i),
        s.take(i + 1).last() == s[i],
{
    assert(s.take(i + 1).drop_last() =~= s.take(i));
}

proof fn lemma_skip_first<A>(s: Seq<A>, i: int)
    requires
        0 <= i < s.len(),
    ensures
        s.skip(i).drop_first() == s.skip(i + 1),
        s.skip(i)[0] == s[i],
{
    assert(s.skip(i).drop_first() =~= s.skip(i + 1));
}

/// The lowercased characters of `s`, skipping whitespace when `skip_ws` holds.
fn lowered(s: &[char], skip_ws: bool) -> (r: Vec<char>)
    ensures
        skip_ws ==> r@ == lower_all(non_ws(s@)),
        !skip_ws ==> r@ == lower_all(s@),
{
    let mut r: Vec<char> = Vec::new();
    let mut kept: Vec<char> = Vec::new();
    let mut i: usize = 0;
    while i < s.len()
        invariant
            i <= s@.len(),
            skip_ws ==> kept@ == non_ws(s@.take(i as int)),
            !skip_ws ==> kept@ == s@.take(i as int),
            r@ == lower_all(kept@),
        decreases s@.len() - i,
    {
        let c = s[i];
        proof {
            lemma_take_last(s@, i as int);
        }
        if !skip_ws || !is_whitespace(c) {
            let l = lower_char(c);
            assert(l@ == lower_of(c));
            crate::text::push_all(&mut r, l.as_slice());
            let ghost k0 = kept@;
            kept.push(c);
            proof {
                assert(kept@.drop_last() =~= k0);
            }
        }
        i = i + 1;
    }
    assert(s@.take(s@.len() as int) =~= s@);
    r
}

/// Whether `candidate` matches the fuzzy `query`.
pub fn fuzzy_match(candidate: &str, query: &str) -> (r: bool)
    ensures
        r == fuzzy(candidate@, query@),
{
    let q = chars_of(query);
    let t = trim_chars(q.as_slice());
    if t.len() == 0 {
        return true;
    }
    let n = lowered(q.as_slice(), true);
    let c = chars_of(candidate);
    let h = lowered(c.as_slice(), false);
    if n.len() == 0 {
        return false;
    }
    let mut k: usize = 0;
    let mut j: usize = 0;
    assert(n@.skip(0) =~= n@);
    assert(h@.skip(0) =~= h@);
    while j < h.len()
        invariant
            k < n.len(),
            j <= h.len(),
            n@ == lower_all(non_ws(query@)),
            h@ == lower_all(candidate@),
            trim(query@).len() != 0,
            subsequence(n@, h@) == subsequence(n@.skip(k as int), h@.skip(j as int)),
        decreases h@.len() - j,
    {
        proof {
            lemma_skip_first(n@, k as int);
            lemma_skip_first(h@, j as int);
        }
        if h[j] == n[k] {
            k = k + 1;
            if k == n.len() {
                assert(n@.skip(k as int).len() == 0);
                assert(subsequence(n@.skip(k as int), h@.skip(j + 1)));
                assert(subsequence(n@.skip(k - 1), h@.skip(j as int)));
                return true;
            }
        }
        j = j + 1;
    }
    false
}

/// The commands the palette always offers, in order: each name with its command.
pub open spec fn base_commands_ok(r: Seq<PaletteCommand>) -> bool {
    &&& (r.len() == 16)
    &&& (r[0].name@ == "Open File..."@ && r[0].command == Command::OpenFile(None))
    &&& (r[1].name@ == "Switch Pane: Files"@ && r[1].command == Command::SwitchPane(Pane::Files))
    &&& (r[2].name@ == "Switch Pane: Editor"@ && r[2].command == Command::SwitchPane(Pane::Editor))
    &&& (r[3].name@ == "Switch Pane: Agents"@ && r[3].command == Command::SwitchPane(Pane::Agents))
    &&& (r[4].name@ == "Switch Pane: Plan"@ && r[4].command == Command::SwitchPane(
            Pane::PlanApproval,
        ))
    &&& (r[5].name@ == "Toggle: Dark/Light Mode"@ && r[5].command == Command::ToggleDarkMode)
    &&& (r[6].name@ == "Toggle: File Tree Visible/Hidden"@ && r[6].command
            == Command::ToggleFileTree)
    &&& (r[7].name@ == "Toggle: Agent Pane Visible/Hidden"@ && r[7].command
            == Command::ToggleAgentPane)
    &&& (r[8].name@ == "Spawn Subagent..."@ && r[8].command == Command::SpawnSubagent(None))
    &&& (r[9].name@ == "Run Bridge Test"@ && r[9].command == Command::RunBridgeTest)
    &&& (r[10].name@ == "Show Plugins"@ && r[10].command == Command::ShowPlugins)
    &&& (r[11].name@ == "Select Provider: DeepSeek"@)
    &&& (r[11].command matches Command::SelectProvider(Some(n)) && n@ == "deepseek"@)
    &&& (r[12].name@ == "Select Provider: GLM"@)
    &&& (r[12].command matches Command::SelectProvider(Some(n)) && n@ == "glm"@)
    &&& (r[13].name@ == "Toggle Git Status Display"@ && r[13].command == Command::ToggleGitStatus)
    &&& (r[14].name@ == "Render Mermaid Diagrams"@ && r[14].command == Command::RenderMermaid)
    &&& (r[15].name@ == "Quit"@ && r[15].command == Command::Quit)
}

/// The commands the palette always offers, in order.
pub fn base_commands() -> (r: Vec<PaletteCommand>)
    ensures
        base_commands_ok(r@),
{
    let mut r: Vec<PaletteCommand> = Vec::new();
    r.push(PaletteCommand { name: "Open File...".to_owned(), command: Command::OpenFile(None) });
    r.push(
        PaletteCommand {
            name: "Switch Pane: Files".to_owned(),
            command: Command::SwitchPane(Pane::Files),
        },
    );
    r.push(
        PaletteCommand {
            name: "Switch Pane: Editor".to_owned(),
            command: Command::SwitchPane(Pane::Editor),
        },
    );
    r.push(
        PaletteCommand {
            name: "Switch Pane: Agents".to_owned(),
            command: Command::SwitchPane(Pane::Agents),
        },
    );
    r.push(
        PaletteCommand {
            name: "Switch Pane: Plan".to_owned(),
            command: Command::SwitchPane(Pane::PlanApproval),
        },
    );
    r.push(
        PaletteCommand {
            name: "Toggle: Dark/Light Mode".to_owned(),
            command: Command::ToggleDarkMode,
        },
    );
    r.push(
        PaletteCommand {
            name: "Toggle: File Tree Visible/Hidden".to_owned(),
            command: Command::ToggleFileTree,
        },
    );
    r.push(
        PaletteCommand {
            name: "Toggle: Agent Pane Visible/Hidden".to_owned(),
            command: Command::ToggleAgentPane,
        },
    );
    r.push(
        PaletteCommand {
            name: "Spawn Subagent...".to_owned(),
            command: Command::SpawnSubagent(None),
        },
    );
    r.push(PaletteCommand { name: "Run Bridge Test".to_owned(), command: Command::RunBridgeTest });
    r.push(PaletteCommand { name: "Show Plugins".to_owned(), command: Command::ShowPlugins });
    r.push(
        PaletteCommand {
            name: "Select Provider: DeepSeek".to_owned(),
            command: Command::SelectProvider(Some("deepseek".to_owned())),
        },
    );
    r.push(
        PaletteCommand {
            name: "Select Provider: GLM".to_owned(),
            command: Command::SelectProvider(Some("glm".to_owned())),
        },
    );
    r.push(
        PaletteCommand {
            name: "Toggle Git Status Display".to_owned(),
            command: Command::ToggleGitStatus,
        },
    );
    r.push(
        PaletteCommand {
            name: "Render Mermaid Diagrams".to_owned(),
            command: Command::RenderMermaid,
        },
    );
    r.push(PaletteCommand { name: "Quit".to_owned(), command: Command::Quit });
    r
}

/// The entry that opens a file.
pub open spec fn file_entry_ok(e: PaletteCommand, path: Seq<char>) -> bool {
    &&& e.name@ == "Open File: "@ + path
    &&& e.command matches Command::OpenFile(Some(p)) && p@ == path
}

/// The command palette.
#[derive(Debug)]
pub struct CommandPalette {
    open: bool,
    query: String,
    selected: usize,
    commands: Vec<PaletteCommand>,
    files: Vec<PaletteCommand>,
}

impl CommandPalette {
    #[verifier::type_invariant]
    spec fn inv(self) -> bool {
        &&& self.selected < usize::MAX
        &&& base_commands_ok(self.commands@)
    }

    /// Whether the palette is open.
    pub closed spec fn spec_open(&self) -> bool {
        self.open
    }

    /// The query typed so far.
    pub closed spec fn spec_query(&self) -> Seq<char> {
        self.query@
    }

    /// The index of the selected entry among the visible ones.
    pub closed spec fn spec_selected(&self) -> nat {
        self.selected as nat
    }

    /// The fixed commands.
    pub closed spec fn spec_commands(&self) -> Seq<PaletteCommand> {
        self.commands@
    }

    /// The file entries.
    pub closed spec fn spec_files(&self) -> Seq<PaletteCommand> {
        self.files@
    }

    /// All entries, commands first, then files.
    pub open spec fn spec_entries(&self) -> Seq<PaletteCommand> {
        self.spec_commands() + self.spec_files()
    }

    /// The entries that match the query.
    pub open spec fn spec_visible(&self) -> Seq<PaletteCommand> {
        visible(self.spec_entries(), self.spec_query())
    }

    /// A closed palette with the base commands and one entry per file.
    pub fn new(files: Vec<String>) -> (r: Self)
        ensures
            !r.spec_open(),
            r.spec_query().len() == 0,
            r.spec_selected() == 0,
            base_commands_ok(r.spec_commands()),
            r.spec_files().len() == files@.len(),
            forall|i: int| 0 <= i < files@.len() ==> file_entry_ok(r.spec_files()[i], files@[i]@),
    {
        let mut palette = CommandPalette {
            open: false,
            query: String::new(),
            selected: 0,
            commands: base_commands(),
            files: Vec::new(),
        };
        palette.set_files(files);
        palette
    }

    /// Replaces the file entries, one per path, in order.
    pub fn set_files(&mut self, files: Vec<String>)
        ensures
            final(self).spec_open() == old(self).spec_open(),
            final(self).spec_query() == old(self).spec_query(),
            final(self).spec_selected() == old(self).spec_selected(),
            final(self).spec_commands() == old(self).spec_commands(),
            final(self).spec_files().len() == files@.len(),
            forall|i: int|
                0 <= i < files@.len() ==> file_entry_ok(final(self).spec_files()[i], files@[i]@),
    {
        proof {
            use_type_invariant(&*self);
        }
        let mut entries: Vec<PaletteCommand> = Vec::new();
        let mut i: usize = 0;
        while i < files.len()
            invariant
                i <= files@.len(),
                entries@.len() == i,
                forall|k: int| 0 <= k < i ==> file_entry_ok(entries@[k], files@[k]@),
            decreases files@.len() - i,
        {
            let path = files[i].clone();
            let mut name: Vec<char> = Vec::new();
            push_str(&mut name, "Open File: ");
            push_str(&mut name, path.as_str());
            entries.push(
                PaletteCommand { name: string_of(name.as_slice()), command: Command::OpenFile(Some(path)) },
            );
            i = i + 1;
        }
        self.files = entries;
    }

    /// Opens the palette with an empty query and the first entry selected.
    pub fn open(&mut self)
        ensures
            final(self).spec_open(),
            final(self).spec_query().len() == 0,
            final(self).spec_selected() == 0,
            final(self).spec_commands() == old(self).spec_commands(),
            final(self).spec_files() == old(self).spec_files(),
            final(self).spec_visible() == final(self).spec_entries(),
            final(self).selects(Command::OpenFile(None)),
    {
        proof {
            use_type_invariant(&*self);
        }
        self.open = true;
        self.query = String::new();
        self.selected = 0;
        proof {
            assert(self.query@ =~= Seq::<char>::empty());
            assert(trim(self.spec_query()).len() == 0) by {
                reveal_with_fuel(crate::text::trim_start, 2);
                reveal_with_fuel(crate::text::trim_end, 2);
            }
            lemma_blank_query_shows_all(self.spec_entries(), self.spec_query());
            assert(self.spec_entries()[0] == self.spec_commands()[0]);
        }
    }

    /// Closes the palette; the query and selection stay.
    pub fn close(&mut self)
        ensures
            !final(self).spec_open(),
            final(self).spec_query() == old(self).spec_query(),
            final(self).spec_selected() == old(self).spec_selected(),
            final(self).spec_commands() == old(self).spec_commands(),
            final(self).spec_files() == old(self).spec_files(),
            final(self).spec_visible() == old(self).spec_visible(),
            forall|c: Command| #[trigger] final(self).selects(c) == old(self).selects(c),
    {
        proof {
            use_type_invariant(&*self);
        }
        self.open = false;
    }

    /// Whether the palette is open.
    pub fn is_open(&self) -> (r: bool)
        ensures
            r == self.spec_open(),
            base_commands_ok(self.spec_commands()),
    {
        proof {
            use_type_invariant(self);
        }
        self.open
    }

    /// The query typed so far.
    pub fn query(&self) -> (r: &str)
        ensures
            r@ == self.spec_query(),
    {
        self.query.as_str()
    }

    /// The index of the selected entry among the visible ones.
    pub fn selected_index(&self) -> (r: usize)
        ensures
            r == self.spec_selected(),
    {
        self.selected
    }

    /// Appends text to the query and selects the first entry.
    pub fn push_str(&mut self, text: &str)
        ensures
            final(self).spec_query() == old(self).spec_query() + text@,
            final(self).spec_selected() == 0,
            final(self).spec_open() == old(self).spec_open(),
            final(self).spec_commands() == old(self).spec_commands(),
            final(self).spec_files() == old(self).spec_files(),
    {
        proof {
            use_type_invariant(&*self);
        }
        let mut q = chars_of(self.query.as_str());
        push_str(&mut q, text);
        self.query = string_of(q.as_slice());
        self.selected = 0;
    }

    /// Appends a character to the query and selects the first entry.
    pub fn push_char(&mut self, character: char)
        ensures
            final(self).spec_query() == old(self).spec_query().push(character),
            final(self).spec_selected() == 0,
            final(self).spec_open() == old(self).spec_open(),
            final(self).spec_commands() == old(self).spec_commands(),
            final(self).spec_files() == old(self).spec_files(),
    {
        proof {
            use_type_invariant(&*self);
        }
        let mut q = chars_of(self.query.as_str());
        q.push(character);
        self.query = string_of(q.as_slice());
        self.selected = 0;
    }

    /// Removes the last character of the query, if any, and selects the first entry.
    pub fn backspace(&mut self)
        ensures
            final(self).spec_query() == (if old(self).spec_query().len() > 0 {
                old(self).spec_query().drop_last()
            } else {
                old(self).spec_query()
            }),
            final(self).spec_selected() == 0,
            final(self).spec_open() == old(self).spec_open(),
            final(self).spec_commands() == old(self).spec_commands(),
            final(self).spec_files() == old(self).spec_files(),
    {
        proof {
            use_type_invariant(&*self);
        }
        let mut q = chars_of(self.query.as_str());
        q.pop();
        self.query = string_of(q.as_slice());
        self.selected = 0;
    }

    /// Moves the selection down, stopping at the last visible entry.
    pub fn move_down(&mut self)
        ensures
            final(self).spec_selected() == (if old(self).spec_visible().len() > 0 {
                if old(self).spec_selected() + 1 < old(self).spec_visible().len() - 1 {
                    old(self).spec_selected() + 1
                } else {
                    (old(self).spec_visible().len() - 1) as nat
                }
            } else {
                old(self).spec_selected()
            }),
            final(self).spec_query() == old(self).spec_query(),
            final(self).spec_open() == old(self).spec_open(),
            final(self).spec_commands() == old(self).spec_commands(),
            final(self).spec_files() == old(self).spec_files(),
    {
        proof {
            use_type_invariant(&*self);
        }
        let len = self.visible_commands().len();
        if len > 0 {
            let next = self.selected + 1;
            self.selected = if next < len - 1 {
                next
            } else {
                len - 1
            };
        }
    }

    /// Moves the selection up, stopping at the first entry.
    pub fn move_up(&mut self)
        ensures
            final(self).spec_selected() == (if old(self).spec_selected() > 0 {
                (old(self).spec_selected() - 1) as nat
            } else {
                0
            }),
            final(self).spec_query() == old(self).spec_query(),
            final(self).spec_open() == old(self).spec_open(),
            final(self).spec_commands() == old(self).spec_commands(),
            final(self).spec_files() == old(self).spec_files(),
    {
        proof {
            use_type_invariant(&*self);
        }
        self.selected = if self.selected > 0 {
            self.selected - 1
        } else {
            0
        };
    }

    /// Whether `c` is the command of the selected visible entry.  "Spawn
    /// Subagent..." carries the trimmed query as its goal, unless the query is
    /// blank or the entry's name contains it, ignoring case.
    pub open spec fn selects(&self, c: Command) -> bool {
        let e = self.spec_visible()[self.spec_selected() as int];
        let goal = trim(self.spec_query());
        if e.command == Command::SpawnSubagent(None) {
            if goal.len() == 0 || contains(lower_text(e.name@), lower_text(goal)) {
                c == Command::SpawnSubagent(None)
            } else {
                c matches Command::SpawnSubagent(Some(g)) && g@ == goal
            }
        } else {
            c == e.command
        }
    }

    /// The command of the selected visible entry.  "Spawn Subagent..." carries the
    /// trimmed query as its goal, unless the query is blank or the entry's name
    /// contains it, ignoring case.
    pub fn selected_command(&self) -> (r: Option<Command>)
        ensures
            r is None <==> self.spec_selected() >= self.spec_visible().len(),
            r matches Some(c) ==> self.selects(c),
    {
        let visible = self.visible_commands();
        if self.selected >= visible.len() {
            return None;
        }
        let entry = &visible[self.selected];
        match &entry.command {
            Command::SpawnSubagent(None) => {
                let q = chars_of(self.query.as_str());
                let goal_chars = trim_chars(q.as_slice());
                let goal = string_of(goal_chars.as_slice());
                if goal_chars.len() == 0 {
                    return Some(Command::SpawnSubagent(None));
                }
                let name_lower = lower_str(entry.name.as_str());
                let goal_lower = lower_str(goal.as_str());
                let nl = chars_of(name_lower.as_str());
                let gl = chars_of(goal_lower.as_str());
                if contains_chars(nl.as_slice(), gl.as_slice()) {
                    Some(Command::SpawnSubagent(None))
                } else {
                    Some(Command::SpawnSubagent(Some(goal)))
                }
            },
            command => Some(command.copy()),
        }
    }

    /// The entries, commands first and then files, whose names match the query.
    pub fn visible_commands(&self) -> (r: Vec<PaletteCommand>)
        ensures
            r@ == self.spec_visible(),
            base_commands_ok(self.spec_commands()),
    {
        proof {
            use_type_invariant(self);
        }
        let ghost entries = self.spec_entries();
        let mut r: Vec<PaletteCommand> = Vec::new();
        let mut i: usize = 0;
        while i < self.commands.len()
            invariant
                entries == self.commands@ + self.files@,
                i <= self.commands@.len(),
                r@ == visible(entries.take(i as int), self.query@),
            decreases self.commands@.len() - i,
        {
            let entry = &self.commands[i];
            assert(*entry == entries[i as int]);
            proof {
                lemma_take_last(entries, i as int);
            }
            if fuzzy_match(entry.name.as_str(), self.query.as_str()) {
                r.push(entry.copy());
            }
            i = i + 1;
        }
        let mut j: usize = 0;
        while j < self.files.len()
            invariant
                entries == self.commands@ + self.files@,
                i == self.commands@.len(),
                j <= self.files@.len(),
                r@ == visible(entries.take(i + j), self.query@),
            decreases self.files@.len() - j,
        {
            let entry = &self.files[j];
            assert(*entry == entries[i + j]);
            proof {
                lemma_take_last(entries, i + j);
            }
            if fuzzy_match(entry.name.as_str(), self.query.as_str()) {
                r.push(entry.copy());
            }
            j = j + 1;
        }
        assert(entries.take(i + j) =~= entries);
        r
    }
}

/// Reopening the palette clears the query, so every entry is visible again.
pub proof fn lemma_blank_query_shows_all(entries: Seq<PaletteCommand>, q: Seq<char>)
    requires
        trim(q).len() == 0,
    ensures
        visible(entries, q) == entries,
    decreases entries.len(),
{
    if entries.len() > 0 {
        lemma_blank_query_shows_all(entries.drop_last(), q);
        assert(entries.drop_last().push(entries.last()) =~= entries);
    }
}

/// Whether every character of `s` is whitespace.
pub open spec fn all_ws(s: Seq<char>) -> bool {
    forall|i: int| 0 <= i < s.len() ==> is_ws(#[trigger] s[i])
}

proof fn lemma_trim_start(s: Seq<char>)
    ensures
        trim_start(s).len() == 0 <==> all_ws(s),
        trim_start(s).len() > 0 ==> !is_ws(trim_start(s)[0]),
    decreases s.len(),
{
    if s.len() > 0 && is_ws(s[0]) {
        lemma_trim_start(s.drop_first());
        if all_ws(s.drop_first()) {
            assert forall|i: int| 0 <= i < s.len() implies is_ws(#[trigger] s[i]) by {
                if i > 0 {
                    assert(s[i] == s.drop_first()[i - 1]);
                }
            }
        }
        if all_ws(s) {
            assert forall|i: int| 0 <= i < s.drop_first().len() implies is_ws(#[trigger] s.drop_first()[i]) by {
                assert(s.drop_first()[i] == s[i + 1]);
            }
        }
    } else if s.len() > 0 {
        assert(!is_ws(s[0]));
    }
}

proof fn lemma_trim_end_keeps_first(t: Seq<char>)
    requires
        t.len() > 0,
        !is_ws(t[0]),
    ensures
        trim_end(t).len() > 0,
    decreases t.len(),
{
    if is_ws(t.last()) {
        assert(t.len() > 1);
        assert(t.drop_last()[0] == t[0]);
        lemma_trim_end_keeps_first(t.drop_last());
    }
}

/// A query is blank exactly when all its characters are whitespace.
proof fn lemma_trim_blank(s: Seq<char>)
    ensures
        trim(s).len() == 0 <==> all_ws(s),
{
    lemma_trim_start(s);
    if trim_start(s).len() > 0 {
        lemma_trim_end_keeps_first(trim_start(s));
    }
}

proof fn lemma_subsequence_prefix(a: Seq<char>, b: Seq<char>, h: Seq<char>)
    requires
        subsequence(a + b, h),
    ensures
        subsequence(a, h),
    decreases h.len(),
{
    if a.len() == 0 {
    } else if h.len() == 0 {
    } else if h[0] == (a + b)[0] {
        assert((a + b).drop_first() =~= a.drop_first() + b);
        lemma_subsequence_prefix(a.drop_first(), b, h.drop_first());
    } else {
        lemma_subsequence_prefix(a, b, h.drop_first());
    }
}

/// Typing one more character never brings in a candidate that the query
/// before it left out.  (Stated for queries whose characters lower-case to
/// something, which `char::to_lowercase` always gives.)
pub proof fn lemma_typing_narrows(candidate: Seq<char>, q: Seq<char>, c: char)
    requires
        trim(q).len() == 0 || lower_all(non_ws(q)).len() > 0,
        fuzzy(candidate, q.push(c)),
    ensures
        fuzzy(candidate, q),
{
    lemma_trim_blank(q);
    lemma_trim_blank(q.push(c));
    assert(q.push(c).drop_last() =~= q);
    if trim(q).len() != 0 {
        if trim(q.push(c)).len() == 0 {
            assert forall|i: int| 0 <= i < q.len() implies is_ws(#[trigger] q[i]) by {
                assert(q[i] == q.push(c)[i]);
            }
        }
        let n = lower_all(non_ws(q));
        if is_ws(c) {
            assert(non_ws(q.push(c)) == non_ws(q));
        } else {
            assert(non_ws(q.push(c)) == non_ws(q).push(c));
            assert(non_ws(q).push(c).drop_last() =~= non_ws(q));
            assert(lower_all(non_ws(q).push(c)) == n + lower_of(c));
            lemma_subsequence_prefix(n, lower_of(c), lower_all(candidate));
        }
    }
}

/// The palette after one more typed character shows only entries it showed
/// before.
pub proof fn lemma_typing_narrows_visible(entries: Seq<PaletteCommand>, q: Seq<char>, c: char)
    requires
        trim(q).len() == 0 || lower_all(non_ws(q)).len() > 0,
    ensures
        forall|e: PaletteCommand| #[trigger] visible(entries, q.push(c)).contains(e) ==> visible(entries, q).contains(e),
    decreases entries.len(),
{
    if entries.len() > 0 {
        lemma_typing_narrows_visible(entries.drop_last(), q, c);
        let last = entries.last();
        if fuzzy(last.name@, q.push(c)) {
            lemma_typing_narrows(last.name@, q, c);
        }
        let a = visible(entries.drop_last(), q.push(c));
        let b = visible(entries.drop_last(), q);
        assert forall|e: PaletteCommand| #[trigger] visible(entries, q.push(c)).contains(e) implies visible(entries, q).contains(e) by {
            if fuzzy(last.name@, q.push(c)) {
                let k = choose|k: int| 0 <= k < a.push(last).len() && a.push(last)[k] == e;
                if k < a.len() {
                    assert(a.contains(e));
                    let m = choose|m: int| 0 <= m < b.len() && b[m] == e;
                    assert(b.push(last)[m] == e);
                } else {
                    assert(b.push(last)[b.len() as int] == last);
                }
            } else {
                assert(a.contains(e));
                let m = choose|m: int| 0 <= m < b.len() && b[m] == e;
                if fuzzy(last.name@, q) {
                    assert(b.push(last)[m] == e);
                }
            }
        }
    }
}

/// Typing one more character narrows the list in place: the entries shown
/// afterwards are those shown before that still match, in the same order.
/// (Stated for queries whose characters lower-case to something, which
/// `char::to_lowercase` always gives.)
pub proof fn lemma_typing_filters(entries: Seq<PaletteCommand>, q: Seq<char>, c: char)
    requires
        trim(q).len() == 0 || lower_all(non_ws(q)).len() > 0,
    ensures
        visible(visible(entries, q), q.push(c)) == visible(entries, q.push(c)),
    decreases entries.len(),
{
    if entries.len() > 0 {
        lemma_typing_filters(entries.drop_last(), q, c);
        let last = entries.last();
        let v = visible(entries.drop_last(), q);
        if fuzzy(last.name@, q) {
            assert(v.push(last).drop_last() =~= v);
            assert(v.push(last).last() == last);
        } else {
            if fuzzy(last.name@, q.push(c)) {
                lemma_typing_narrows(last.name@, q, c);
            }
        }
    }
}

} // verus!
