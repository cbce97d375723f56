//! The workbench: the state of the terminal interface and how it answers the
//! user's actions, the palette's commands and the agent's reports.  What
//! needs the outside world (sending to the agent, reading a file, committing)
//! comes back as effects for the caller to carry out; the caller reports the
//! outcome through the matching methods.  Times are milliseconds on a clock
//! of the caller's choosing.
use ratatui::layout::{Constraint as Rc, Direction as Rd, Layout, Rect as Rr};
use vstd::prelude::*;

use crate::agent::git::{AutoCommitResult, GitManager};
use crate::agent::plan::{step_line, step_views, Step, StepStatus, StepView};
use crate::agent::plugins::{backend_name, index_of, PluginBackend, PluginInfo, PluginRegistry};
use crate::agent::providers::ProviderRegistry;
use crate::agent::{AgentInput, AgentOutput, SubagentInfo};
use crate::keybindings::{Action, KeyBindings};
use crate::text::{
    append_str, chars_of, decimal, decimal_chars, join, string_of, trim, trim_chars,
};
use crate::tui::agent_pane::{status_count, AgentPane, AgentRow, PluginRow};
use crate::tui::command_palette::{base_commands_ok, file_entry_ok, Command, CommandPalette};
use crate::tui::editor_pane::EditorPane;
use crate::tui::file_tree::FileTree;
use crate::tui::help_popup::HelpPopup;
use crate::tui::mermaid::{blocks_spec, diagram_views, extract_mermaid_blocks, has_mermaid_diagrams, has_mermaid_spec, MermaidWidget};
use crate::tui::plan_pane::PlanPane;
use crate::tui::toggles::Toggles;
use crate::tui::{pane_at, pane_index, Pane};

verus! {

/// A rectangle of terminal cells.
#[derive(Debug, Clone, Copy, PartialEq, Eq, Structural)]
pub struct Rect {
    pub x: u16,
    pub y: u16,
    pub width: u16,
    pub height: u16,
}

impl Rect {
    /// The rectangle at (`x`, `y`) of the given size.
    pub fn new(x: u16, y: u16, width: u16, height: u16) -> (r: Rect)
        ensures
            r == (Rect { x, y, width, height }),
    {
        Rect { x, y, width, height }
    }

    /// The empty rectangle at the origin.
    pub fn zero() -> (r: Rect)
        ensures
            r == (Rect { x: 0, y: 0, width: 0, height: 0 }),
    {
        Rect { x: 0, y: 0, width: 0, height: 0 }
    }
}

/// The sum of two cell coordinates, stopping at the largest one.
pub open spec fn sat_add(a: u16, b: u16) -> int {
    if a + b > u16::MAX {
        u16::MAX as int
    } else {
        a + b
    }
}

/// Whether the cell (`column`, `row`) lies in `rect`.
pub open spec fn in_rect(rect: Rect, column: u16, row: u16) -> bool {
    &&& column >= rect.x
    &&& column < sat_add(rect.x, rect.width)
    &&& row >= rect.y
    &&& row < sat_add(rect.y, rect.height)
}

/// Whether the cell (`column`, `row`) lies in `rect`.
pub fn contains(rect: Rect, column: u16, row: u16) -> (r: bool)
    ensures
        r == in_rect(rect, column, row),
{
    column >= rect.x && column < rect.x.saturating_add(rect.width) && row >= rect.y && row
        < rect.y.saturating_add(rect.height)
}

/// Where the panes are on the screen.
#[derive(Debug, Clone, Copy, PartialEq, Eq, Structural)]
pub struct ScreenLayout {
    pub files: Rect,
    pub editor: Rect,
    pub agents: Rect,
    pub plan: Rect,
}

impl ScreenLayout {
    /// The layout with every pane empty.
    pub fn empty() -> (r: ScreenLayout)
        ensures
            r.files == Rect::zero_spec() && r.editor == Rect::zero_spec() && r.agents
                == Rect::zero_spec() && r.plan == Rect::zero_spec(),
    {
        ScreenLayout { files: Rect::zero(), editor: Rect::zero(), agents: Rect::zero(), plan: Rect::zero() }
    }
}

impl Rect {
    /// The empty rectangle at the origin.
    pub open spec fn zero_spec() -> Rect {
        Rect { x: 0, y: 0, width: 0, height: 0 }
    }
}

/// The pane a click at (`column`, `row`) focuses, if any: the file tree and the
/// agents pane only while shown.
pub open spec fn pane_at_cell(layout: ScreenLayout, toggles: Toggles, column: u16, row: u16) -> Option<Pane> {
    if toggles.show_file_tree && in_rect(layout.files, column, row) {
        Some(Pane::Files)
    } else if in_rect(layout.editor, column, row) {
        Some(Pane::Editor)
    } else if toggles.show_agent_pane && in_rect(layout.agents, column, row) {
        Some(Pane::Agents)
    } else if in_rect(layout.plan, column, row) {
        Some(Pane::PlanApproval)
    } else {
        None
    }
}

/// Where a list's index goes under a navigation action, for a list of `n` entries.
pub open spec fn nav_index(action: Action, i: int, n: int) -> int {
    let last = if n > 0 { n - 1 } else { 0 };
    match action {
        Action::MoveDown => if n == 0 { i } else if i + 1 < last { i + 1 } else { last },
        Action::MoveUp => if i > 0 { i - 1 } else { 0 },
        Action::GoTop => 0,
        Action::GoBottom => if n == 0 { i } else { last },
        Action::PageDown => if n == 0 { i } else if i + 10 < last { i + 10 } else { last },
        _ => if i > 10 { i - 10 } else { 0 },
    }
}

/// Where the editor's scroll position goes under a navigation action, for a
/// text of `n` lines.
pub open spec fn scroll_index(action: Action, i: int, n: int) -> int {
    let last = if n > 0 { n - 1 } else { 0 };
    match action {
        Action::MoveDown => if i + 1 < last { i + 1 } else { last },
        Action::MoveUp => if i > 0 { i - 1 } else { 0 },
        Action::GoTop => 0,
        Action::GoBottom => last,
        Action::PageDown => if i + 10 < last { i + 10 } else { last },
        _ => if i > 10 { i - 10 } else { 0 },
    }
}

/// What the caller carries out for the workbench.
#[derive(Debug, Clone)]
pub enum Effect {
    /// Send this to the agent; report failure through `agent_unavailable`.
    SendAgent(AgentInput),
    /// Read this file; report through `file_opened`, or `file_open_failed`
    /// passing `report_errors` on.
    OpenFile { path: String, report_errors: bool },
    /// Commit the working tree; report through `auto_committed`.
    AutoCommit,
}

/// Milliseconds an error stays shown.
pub const ERROR_SHOWN_MS: u64 = 3000;

/// Milliseconds a notification stays shown.
pub const NOTIFICATION_SHOWN_MS: u64 = 4000;

/// Whether a message set at `at` is still shown at `now`, for `span` milliseconds.
pub open spec fn still_shown(at: u64, now: u64, span: u64) -> bool {
    now < at || now - at < span
}

/// The names of the sample plugins, their descriptions and backends.
pub open spec fn sample_plugin(i: int) -> (Seq<char>, Seq<char>, PluginBackend) {
    if i == 0 {
        ("hello_world"@, "A native Rust plugin that greets"@, PluginBackend::Native)
    } else if i == 1 {
        ("ts_code_analyzer"@, "TypeScript-based code analysis plugin"@, PluginBackend::TypeScript)
    } else {
        ("py_formatter"@, "Python-based code formatter plugin"@, PluginBackend::Python)
    }
}

/// The plugins the workbench starts with, one per backend.
pub fn sample_plugins() -> (r: PluginRegistry)
    ensures
        r.spec_plugins().len() == 3,
        forall|i: int| 0 <= i < 3 ==> {
            let p = #[trigger] r.spec_plugins()[i];
            &&& p.name@ == sample_plugin(i).0
            &&& p.description@ == sample_plugin(i).1
            &&& p.backend == sample_plugin(i).2
            &&& p.enabled
        },
{
    proof {
        reveal_strlit("hello_world");
        reveal_strlit("ts_code_analyzer");
        reveal_strlit("py_formatter");
        reveal_with_fuel(index_of, 3);
    }
    let mut r = PluginRegistry::new();
    let a = PluginInfo::new("hello_world", "A native Rust plugin that greets", PluginBackend::Native);
    r.register(a);
    assert(r.spec_plugins() =~= seq![a]);
    let b = PluginInfo::new("ts_code_analyzer", "TypeScript-based code analysis plugin", PluginBackend::TypeScript);
    assert(seq![a].drop_last() =~= Seq::<PluginInfo>::empty());
    assert(a.name@.len() == 11 && b.name@.len() == 16);
    assert(a.name@ != b.name@);
    assert(index_of(seq![a], b.name@, b.backend) is None);
    r.register(b);
    assert(r.spec_plugins() =~= seq![a, b]);
    let c = PluginInfo::new("py_formatter", "Python-based code formatter plugin", PluginBackend::Python);
    assert(seq![a, b].drop_last() =~= seq![a]);
    assert(c.name@.len() == 12);
    assert(a.name@ != c.name@ && b.name@ != c.name@);
    assert(index_of(seq![a, b], c.name@, c.backend) is None);
    r.register(c);
    assert(r.spec_plugins() =~= seq![a, b, c]);
    r
}

/// The name `Debug` gives a step state.
pub open spec fn step_status_debug(s: StepStatus) -> Seq<char> {
    match s {
        StepStatus::Pending => "Pending"@,
        StepStatus::Approved => "Approved"@,
        StepStatus::Rejected => "Rejected"@,
        StepStatus::Executing => "Executing"@,
        StepStatus::Completed => "Completed"@,
        StepStatus::Failed => "Failed"@,
    }
}

/// The name `Debug` gives a step state.
pub fn step_status_debug_name(s: StepStatus) -> (r: &'static str)
    ensures
        r@ == step_status_debug(s),
{
    match s {
        StepStatus::Pending => "Pending",
        StepStatus::Approved => "Approved",
        StepStatus::Rejected => "Rejected",
        StepStatus::Executing => "Executing",
        StepStatus::Completed => "Completed",
        StepStatus::Failed => "Failed",
    }
}

/// The notification after an automatic commit.
pub open spec fn commit_notice(oid: Option<Seq<char>>, message: Seq<char>) -> Seq<char> {
    "Auto-committed: "@ + match oid {
        Some(o) => o,
        None => "unknown"@,
    } + " ("@ + message + ")"@
}

/// The state of the terminal interface.
#[derive(Debug)]
pub struct Workbench {
    pub active_pane: Pane,
    pub should_quit: bool,
    pub keybindings: KeyBindings,
    pub bridge_command: String,
    pub file_tree: FileTree,
    pub editor: EditorPane,
    pub agents: AgentPane,
    pub plan: PlanPane,
    pub toggles: Toggles,
    pub command_palette: CommandPalette,
    pub help_popup: HelpPopup,
    pub plugin_registry: PluginRegistry,
    pub provider_registry: ProviderRegistry,
    pub git_manager: GitManager,
    pub mermaid_widget: Option<MermaidWidget>,
    pub show_mermaid_render: bool,
    pub agent_counts: (usize, usize),
    pub status_notification: Option<(String, u64)>,
    pub bridge_connected: bool,
    pub error_message: Option<(String, u64)>,
    pub git_branch: Option<String>,
}

/// The effects of sending one input to the agent.
pub open spec fn sends(r: Seq<Effect>, input: AgentInput) -> bool {
    r.len() == 1 && r[0] == Effect::SendAgent(input)
}

/// The effects of starting a subagent on `goal`: send the goal, then ask
/// for the subagents' states.
pub open spec fn spawn_effects(r: Seq<Effect>, goal: Seq<char>) -> bool {
    &&& r.len() == 2
    &&& r[0] matches Effect::SendAgent(AgentInput::SpawnSubagent { goal: g }) && g@ == goal
    &&& r[1] == Effect::SendAgent(AgentInput::QuerySubagents)
}

/// The workbench `f` is `o` showing the notification `msg` from `now` on,
/// with `msg` added to the agents pane.
pub open spec fn notified(o: Workbench, f: Workbench, msg: Seq<char>, now: u64) -> bool {
    &&& f.status_notification matches Some((m, t)) && m@ == msg && t == now
    &&& f.agents.spec_notifications() == o.agents.spec_notifications().push(msg)
    &&& f.agents.spec_agents() == o.agents.spec_agents()
    &&& f.agents.spec_plugins() == o.agents.spec_plugins()
    &&& f.agents.spec_show_plugins() == o.agents.spec_show_plugins()
    &&& f == (Workbench { status_notification: f.status_notification, agents: f.agents, ..o })
}

/// The workbench `f` is `o` listing these subagents in the agents pane, with
/// the running and the completed ones counted.
pub open spec fn rows_shown(o: Workbench, f: Workbench, agents: Seq<SubagentInfo>) -> bool {
    &&& f.agents.spec_agents().len() == agents.len()
    &&& forall|i: int| 0 <= i < agents.len() ==> {
        let row = #[trigger] f.agents.spec_agents()[i];
        &&& row.id@ == agents[i].id@
        &&& row.goal@ == agents[i].goal@
        &&& row.status@ == agents[i].status@
        &&& row.turns == agents[i].turns
    }
    &&& f.agent_counts == (
        status_count(f.agents.spec_agents(), agents.len() as int, "running"@) as usize,
        status_count(f.agents.spec_agents(), agents.len() as int, "completed"@) as usize,
    )
    &&& f.agents.spec_notifications() == o.agents.spec_notifications()
    &&& f.agents.spec_plugins() == o.agents.spec_plugins()
    &&& f.agents.spec_show_plugins() == o.agents.spec_show_plugins()
    &&& f == (Workbench { agents: f.agents, agent_counts: f.agent_counts, ..o })
}

/// The note shown when an answer holds a diagram.
pub open spec fn mermaid_hint() -> Seq<char> {
    "Mermaid diagram detected — use palette to render"@
}

/// How showing or hiding the plugin list changes the workbench `o` into `f`: showing it
/// lists the registered plugins and says how many; hiding it says so.
pub open spec fn plugins_toggled(o: Workbench, f: Workbench, now: u64) -> bool {
    &&& f.agents.spec_show_plugins() == !o.agents.spec_show_plugins()
    &&& f.agents.spec_show_plugins() ==> {
        &&& f.agents.spec_plugins().len() == o.plugin_registry.spec_plugins().len()
        &&& forall|i: int| 0 <= i < f.agents.spec_plugins().len() ==> {
            let row = #[trigger] f.agents.spec_plugins()[i];
            let p = o.plugin_registry.spec_plugins()[i];
            &&& row.name@ == p.name@
            &&& row.description@ == p.description@
            &&& row.backend@ == backend_name(p.backend)
            &&& row.enabled == p.enabled
        }
        &&& f.status_notification matches Some((m, t)) && t == now && m@ == "Loaded "@
            + decimal(o.plugin_registry.spec_plugins().len()) + " plugins (Native/TS/Python)"@
    }
    &&& !f.agents.spec_show_plugins() ==> (f.status_notification matches Some((m, t))
        && t == now && m@ == "Plugins hidden"@) && f.agents.spec_plugins() == o.agents.spec_plugins()
    &&& f.agents.spec_agents() == o.agents.spec_agents()
    &&& f.agents.spec_notifications() == o.agents.spec_notifications().push(if f.agents.spec_show_plugins() {
        "Loaded "@ + decimal(o.plugin_registry.spec_plugins().len()) + " plugins (Native/TS/Python)"@
    } else {
        "Plugins hidden"@
    })
    &&& f == (Workbench {
        status_notification: f.status_notification,
        agents: f.agents,
        ..o
    })
}

/// How showing or hiding the git status changes the workbench `o` into `f`, saying which.
pub open spec fn git_status_toggled(o: Workbench, f: Workbench, now: u64) -> bool {
    &&& f.git_manager@ == (o.git_manager@.0, o.git_manager@.1, o.git_manager@.2, o.git_manager@.3, o.git_manager@.4, !o.git_manager@.5)
    &&& f.status_notification matches Some((m, t)) && t == now && m@ == if f.git_manager@.5 {
        "Git status: shown"@
    } else {
        "Git status: hidden"@
    }
    &&& f.agents.spec_notifications() == o.agents.spec_notifications().push(if f.git_manager@.5 {
        "Git status: shown"@
    } else {
        "Git status: hidden"@
    })
    &&& f.agents.spec_agents() == o.agents.spec_agents()
    &&& f == (Workbench {
        git_manager: f.git_manager,
        status_notification: f.status_notification,
        agents: f.agents,
        ..o
    })
}

/// How the key binding switches the diagram rendering of `o` into `f`: turning it on
/// shows the diagrams of the latest notification, if it has any.
pub open spec fn mermaid_toggled(o: Workbench, f: Workbench) -> bool {
    &&& f.show_mermaid_render == !o.show_mermaid_render
    &&& !f.show_mermaid_render ==> f.mermaid_widget is None
    &&& f.show_mermaid_render ==> if blocks_spec(o.mermaid_source()).len() > 0 {
        f.mermaid_widget matches Some(w) && diagram_views(w.diagrams@) == blocks_spec(o.mermaid_source()) && w.active_index == 0
    } else {
        f.mermaid_widget == o.mermaid_widget
    }
    &&& f == (Workbench {
        show_mermaid_render: f.show_mermaid_render,
        mermaid_widget: f.mermaid_widget,
        ..o
    })
}

/// How the palette switches the diagram rendering of `o` into `f`: as the key binding
/// does, but it says how many diagrams it found, and with none it shows an error and
/// stays off.
pub open spec fn mermaid_reported(o: Workbench, f: Workbench, now: u64) -> bool {
    &&& !o.show_mermaid_render ==> if blocks_spec(o.mermaid_source()).len() > 0 {
        &&& f.show_mermaid_render
        &&& f.mermaid_widget matches Some(w) && diagram_views(w.diagrams@) == blocks_spec(o.mermaid_source()) && w.active_index == 0
        &&& f.status_notification matches Some((m, t)) && t == now && m@ == decimal(blocks_spec(o.mermaid_source()).len()) + " Mermaid diagram(s) detected"@
        &&& f.agents.spec_notifications() == o.agents.spec_notifications().push(
            decimal(blocks_spec(o.mermaid_source()).len()) + " Mermaid diagram(s) detected"@,
        )
        &&& f == (Workbench {
            show_mermaid_render: f.show_mermaid_render,
            mermaid_widget: f.mermaid_widget,
            status_notification: f.status_notification,
            agents: f.agents,
            ..o
        })
    } else {
        &&& f.error_message matches Some((m, t)) && t == now && m@ == "No Mermaid diagrams found in agent output"@
        &&& f == (Workbench { error_message: f.error_message, ..o })
    }
    &&& o.show_mermaid_render ==> f == (Workbench {
        show_mermaid_render: false,
        mermaid_widget: None,
        ..o
    })
}

/// How checking the bridge command changes `o` into `f`: an empty command marks the
/// bridge disconnected and shows why; another marks it connected and clears the error.
pub open spec fn bridge_tested(o: Workbench, f: Workbench, now: u64) -> bool {
    &&& trim(o.bridge_command@).len() == 0 ==> f == (Workbench {
        bridge_connected: false,
        error_message: f.error_message,
        ..o
    }) && (f.error_message matches Some((m, t)) && t == now && m@
        == "Bridge test failed: bridge command is empty"@)
    &&& trim(o.bridge_command@).len() != 0 ==> f == (Workbench {
        bridge_connected: true,
        error_message: None,
        ..o
    })
}

/// How carrying out the palette command `command` at `now` changes the
/// workbench `o` into `f`, with `r` the effects asked for.
pub open spec fn command_done(o: Workbench, command: Command, now: u64, f: Workbench, r: Seq<Effect>) -> bool {
    match command {
        Command::OpenFile(path) => {
            let target = match path {
                Some(p) => Some(p@),
                None => if o.file_tree.spec_selected() < o.file_tree.spec_entries().len() {
                    Some(crate::tui::file_tree::join_path(o.file_tree.spec_root(), o.file_tree.spec_entries()[o.file_tree.spec_selected() as int].path@))
                } else {
                    None
                },
            };
            &&& f == o
            &&& match target {
                Some(t) => r.len() == 1 && (r[0] matches Effect::OpenFile { path: q, report_errors } && q@ == t && report_errors),
                None => r.len() == 0,
            }
        },
        Command::SwitchPane(p) => f == (Workbench { active_pane: p, ..o }) && r.len() == 0,
        Command::ToggleDarkMode => f == (Workbench {
            toggles: Toggles { dark_mode: !o.toggles.dark_mode, ..o.toggles },
            ..o
        }) && r.len() == 0,
        Command::ToggleFileTree => f == (Workbench {
            toggles: Toggles { show_file_tree: !o.toggles.show_file_tree, ..o.toggles },
            active_pane: if o.active_pane == Pane::Files && o.toggles.show_file_tree { Pane::Editor } else { o.active_pane },
            ..o
        }) && r.len() == 0,
        Command::ToggleAgentPane => f == (Workbench {
            toggles: Toggles { show_agent_pane: !o.toggles.show_agent_pane, ..o.toggles },
            active_pane: if o.active_pane == Pane::Agents && o.toggles.show_agent_pane { Pane::Editor } else { o.active_pane },
            ..o
        }) && r.len() == 0,
        Command::SpawnSubagent(goal) => f == o && spawn_effects(r, match goal {
            Some(g) => g@,
            None => "Command palette subagent"@,
        }),
        Command::RunBridgeTest => r.len() == 0 && bridge_tested(o, f, now),
        Command::ShowPlugins => r.len() == 0 && plugins_toggled(o, f, now),
        Command::SelectProvider(name) => r.len() == 0 && match name {
            Some(n) => if o.provider_registry.spec_get(n@) is Some {
                &&& f.provider_registry.spec_active() == Some(n@)
                &&& f.provider_registry.spec_list() == o.provider_registry.spec_list()
                &&& f.status_notification matches Some((m, t)) && t == now && m@ == "Provider switched to: "@ + n@
                &&& f.agents.spec_notifications() == o.agents.spec_notifications().push("Provider switched to: "@ + n@)
                &&& f == (Workbench {
                    provider_registry: f.provider_registry,
                    status_notification: f.status_notification,
                    agents: f.agents,
                    ..o
                })
            } else {
                &&& f.provider_registry.spec_active() == o.provider_registry.spec_active()
                &&& f.provider_registry.spec_list() == o.provider_registry.spec_list()
                &&& f.error_message matches Some((m, t)) && t == now && m@ == "Provider not found: "@ + n@
                &&& f == (Workbench {
                    provider_registry: f.provider_registry,
                    error_message: f.error_message,
                    ..o
                })
            },
            None => f == o,
        },
        Command::ToggleGitStatus => r.len() == 0 && git_status_toggled(o, f, now),
        Command::RenderMermaid => r.len() == 0 && mermaid_reported(o, f, now),
        Command::Quit => f == (Workbench { should_quit: true, ..o }) && r.len() == 0,
    }
}

/// The workbench `m` is `o` with the command palette closed, its query,
/// selection, commands and files kept.
pub open spec fn palette_closed(o: Workbench, m: Workbench) -> bool {
    &&& m == (Workbench { command_palette: m.command_palette, ..o })
    &&& !m.command_palette.spec_open()
    &&& m.command_palette.spec_query() == o.command_palette.spec_query()
    &&& m.command_palette.spec_selected() == o.command_palette.spec_selected()
    &&& m.command_palette.spec_commands() == o.command_palette.spec_commands()
    &&& m.command_palette.spec_files() == o.command_palette.spec_files()
}

/// The palette of `f` keeps the commands and file entries of `o`'s.
pub open spec fn palette_entries_kept(o: Workbench, f: Workbench) -> bool {
    &&& f.command_palette.spec_commands() == o.command_palette.spec_commands()
    &&& f.command_palette.spec_files() == o.command_palette.spec_files()
}

/// The palette's selection after moving down: the next visible entry, or
/// the last one.
pub open spec fn palette_down(o: Workbench) -> nat {
    if o.command_palette.spec_visible().len() > 0 {
        if o.command_palette.spec_selected() + 1 < o.command_palette.spec_visible().len() - 1 {
            o.command_palette.spec_selected() + 1
        } else {
            (o.command_palette.spec_visible().len() - 1) as nat
        }
    } else {
        o.command_palette.spec_selected()
    }
}

/// The palette's selection after moving up: the previous entry, or the first.
pub open spec fn palette_up(o: Workbench) -> nat {
    if o.command_palette.spec_selected() > 0 {
        (o.command_palette.spec_selected() - 1) as nat
    } else {
        0
    }
}

/// How the user's action `action` at `now`, on a screen laid out as
/// `layout`, changes the workbench `o` into `f`, with `r` the effects asked for.
pub open spec fn action_done(o: Workbench, action: Action, layout: ScreenLayout, now: u64, f: Workbench, r: Seq<Effect>) -> bool {
    match action {
        Action::Quit => f == (Workbench { should_quit: true, ..o }) && r.len() == 0,
        Action::CyclePane => f == (Workbench { active_pane: pane_at((pane_index(o.active_pane) + 1) % 4), ..o }) && r.len() == 0,
        Action::CommandMode => f == o && r.len() == 0,
        Action::OpenCommandPalette => f.command_palette.spec_open()
            && f.command_palette.spec_query().len() == 0
            && f.command_palette.spec_selected() == 0
            && palette_entries_kept(o, f)
            && f == (Workbench { command_palette: f.command_palette, ..o }) && r.len() == 0,
        Action::OpenHelp => f.help_popup.spec_is_open()
            && f == (Workbench { help_popup: f.help_popup, ..o }) && r.len() == 0,
        Action::CloseOverlay => !f.command_palette.spec_open() && !f.help_popup.spec_is_open()
            && f.command_palette.spec_query() == o.command_palette.spec_query()
            && f.command_palette.spec_selected() == o.command_palette.spec_selected()
            && palette_entries_kept(o, f)
            && f == (Workbench { command_palette: f.command_palette, help_popup: f.help_popup, ..o }) && r.len() == 0,
        Action::ToggleFileTree => f == (Workbench {
            toggles: Toggles { show_file_tree: !o.toggles.show_file_tree, ..o.toggles },
            active_pane: if o.active_pane == Pane::Files && o.toggles.show_file_tree { Pane::Editor } else { o.active_pane },
            ..o
        }) && r.len() == 0,
        Action::ToggleAgentPane => f == (Workbench {
            toggles: Toggles { show_agent_pane: !o.toggles.show_agent_pane, ..o.toggles },
            active_pane: if o.active_pane == Pane::Agents && o.toggles.show_agent_pane { Pane::Editor } else { o.active_pane },
            ..o
        }) && r.len() == 0,
        Action::ToggleDarkMode => f == (Workbench {
            toggles: Toggles { dark_mode: !o.toggles.dark_mode, ..o.toggles },
            ..o
        }) && r.len() == 0,
        Action::PaletteConfirm => if o.command_palette.spec_selected() >= o.command_palette.spec_visible().len() {
            f == o && r.len() == 0
        } else {
            exists|c: Command, mid: Workbench| #![trigger command_done(mid, c, now, f, r)]
                o.command_palette.selects(c) && palette_closed(o, mid)
                    && command_done(mid, c, now, f, r)
        },
        Action::PaletteBackspace => f.command_palette.spec_query() == (if o.command_palette.spec_query().len() > 0 {
                o.command_palette.spec_query().drop_last()
            } else {
                o.command_palette.spec_query()
            }) && f.command_palette.spec_selected() == 0
            && f.command_palette.spec_open() == o.command_palette.spec_open()
            && palette_entries_kept(o, f)
            && f == (Workbench { command_palette: f.command_palette, ..o }) && r.len() == 0,
        Action::PaletteInput(c) => f.command_palette.spec_query() == o.command_palette.spec_query().push(c)
            && f.command_palette.spec_selected() == 0
            && f.command_palette.spec_open() == o.command_palette.spec_open()
            && palette_entries_kept(o, f)
            && f == (Workbench { command_palette: f.command_palette, ..o }) && r.len() == 0,
        Action::MoveDown | Action::MoveUp | Action::GoTop | Action::GoBottom | Action::PageDown | Action::PageUp => r.len() == 0
            && (o.active_pane == Pane::Files ==> f.file_tree.spec_selected() == nav_index(action, o.file_tree.spec_selected() as int, o.file_tree.spec_entries().len() as int)
                && f.file_tree.spec_root() == o.file_tree.spec_root()
                && f.file_tree.spec_entries() == o.file_tree.spec_entries()
                && f == (Workbench { file_tree: f.file_tree, ..o }))
            && (o.active_pane == Pane::Editor ==> f.editor.spec_scroll() == scroll_index(action, o.editor.spec_scroll() as int, o.editor.spec_lines().len() as int)
                && f.editor.spec_lines() == o.editor.spec_lines()
                && f.editor.spec_current_file() == o.editor.spec_current_file()
                && f == (Workbench { editor: f.editor, ..o }))
            && (o.active_pane != Pane::Files && o.active_pane != Pane::Editor ==> f == o),
        Action::Select => if o.active_pane == Pane::Files && o.file_tree.spec_selected() < o.file_tree.spec_entries().len() {
            &&& f == (Workbench { active_pane: Pane::Editor, ..o })
            &&& r.len() == 1
            &&& r[0] matches Effect::OpenFile { path, report_errors } && !report_errors
                && path@ == crate::tui::file_tree::join_path(o.file_tree.spec_root(), o.file_tree.spec_entries()[o.file_tree.spec_selected() as int].path@)
        } else {
            f == o && r.len() == 0
        },
        Action::RejectPlan => f.plan.spec_decision() == crate::tui::plan_pane::PlanDecision::Rejected
            && f.plan.spec_text() == o.plan.spec_text()
            && f == (Workbench { plan: f.plan, ..o })
            && sends(r, AgentInput::RejectPlan),
        Action::EditPlan => f.plan.spec_decision() == crate::tui::plan_pane::PlanDecision::Editing
            && f.plan.spec_text() == o.plan.spec_text()
            && f == (Workbench { plan: f.plan, ..o })
            && sends(r, AgentInput::EditPlan),
        Action::ApprovePlan => f.plan.spec_decision() == crate::tui::plan_pane::PlanDecision::Approved
            && f.plan.spec_text() == o.plan.spec_text()
            && f == (Workbench { plan: f.plan, ..o })
            && r.len() == if o.git_manager@.1 { 2int } else { 1int }
            && r[0] == Effect::SendAgent(AgentInput::ApprovePlan)
            && (o.git_manager@.1 ==> r[1] is AutoCommit),
        Action::SpawnSubagent => f == o && spawn_effects(r, "TUI requested subagent"@),
        Action::FocusPane(p) => f == (Workbench { active_pane: p, ..o }) && r.len() == 0,
        Action::MouseFocus { column, row } => f == (Workbench {
            active_pane: match pane_at_cell(layout, o.toggles, column, row) {
                Some(p) => p,
                None => o.active_pane,
            },
            ..o
        }) && r.len() == 0,
        Action::TogglePlugins => plugins_toggled(o, f, now) && r.len() == 0,
        Action::ToggleGitStatus => git_status_toggled(o, f, now) && r.len() == 0,
        Action::RenderMermaid => mermaid_toggled(o, f) && r.len() == 0,
    }
}

/// The layout with every pane empty.
pub open spec fn empty_layout() -> ScreenLayout {
    ScreenLayout { files: Rect::zero_spec(), editor: Rect::zero_spec(), agents: Rect::zero_spec(), plan: Rect::zero_spec() }
}

impl Workbench {
    /// The workbench over a file tree, plugins, providers and a repository,
    /// with the editor focused, nothing open and no message shown.
    pub fn new(
        bridge_command: String,
        file_tree: FileTree,
        plugin_registry: PluginRegistry,
        provider_registry: ProviderRegistry,
        git_manager: GitManager,
        git_branch: Option<String>,
    ) -> (r: Workbench)
        ensures
            r.active_pane == Pane::Editor,
            !r.should_quit,
            r.bridge_command == bridge_command,
            r.file_tree == file_tree,
            r.plugin_registry == plugin_registry,
            r.provider_registry == provider_registry,
            r.git_manager == git_manager,
            r.git_branch == git_branch,
            r.toggles == (Toggles { show_file_tree: true, show_agent_pane: true, dark_mode: true }),
            !r.command_palette.spec_open(),
            r.command_palette.spec_query().len() == 0,
            r.command_palette.spec_selected() == 0,
            base_commands_ok(r.command_palette.spec_commands()),
            r.command_palette.spec_files().len() == file_tree.spec_entries().len(),
            forall|i: int| 0 <= i < file_tree.spec_entries().len() ==> file_entry_ok(
                #[trigger] r.command_palette.spec_files()[i],
                file_tree.spec_entries()[i].path@,
            ),
            !r.help_popup.spec_is_open(),
            !r.keybindings.spec_pending_g(),
            r.editor.spec_current_file() is None,
            r.editor.spec_lines().len() == 0,
            r.editor.spec_scroll() == 0,
            r.agents.spec_agents().len() == 0,
            r.agents.spec_plugins().len() == 0,
            !r.agents.spec_show_plugins(),
            r.agents.spec_notifications().len() == 0,
            r.plan.spec_decision() == crate::tui::plan_pane::PlanDecision::Pending,
            r.plan.spec_text() == "Plans, approvals, and execution checkpoints."@,
            r.mermaid_widget is None,
            !r.show_mermaid_render,
            r.agent_counts == (0usize, 0usize),
            r.status_notification is None,
            r.bridge_connected,
            r.error_message is None,
    {
        let files = file_tree.relative_paths();
        Workbench {
            active_pane: Pane::Editor,
            should_quit: false,
            keybindings: KeyBindings::default(),
            bridge_command,
            file_tree,
            editor: EditorPane::default(),
            agents: AgentPane::default(),
            plan: PlanPane::default(),
            toggles: Toggles::default(),
            command_palette: CommandPalette::new(files),
            help_popup: HelpPopup::default(),
            plugin_registry,
            provider_registry,
            git_manager,
            mermaid_widget: None,
            show_mermaid_render: false,
            agent_counts: (0, 0),
            status_notification: None,
            bridge_connected: true,
            error_message: None,
            git_branch,
        }
    }

    /// Focuses the next pane.
    pub fn cycle_pane(&mut self)
        ensures
            *final(self) == (Workbench { active_pane: pane_at((pane_index(old(self).active_pane) + 1) % 4), ..*old(self) }),
    {
        self.active_pane = self.active_pane.next();
    }

    /// Asks the interface to end.
    pub fn quit(&mut self)
        ensures
            *final(self) == (Workbench { should_quit: true, ..*old(self) }),
    {
        self.should_quit = true;
    }

    /// Focuses the pane under a click, if any.
    pub fn focus_at(&mut self, column: u16, row: u16, layout: &ScreenLayout)
        ensures
            *final(self) == (Workbench {
                active_pane: match pane_at_cell(*layout, old(self).toggles, column, row) {
                    Some(p) => p,
                    None => old(self).active_pane,
                },
                ..*old(self)
            }),
    {
        if self.toggles.show_file_tree && contains(layout.files, column, row) {
            self.active_pane = Pane::Files;
        } else if contains(layout.editor, column, row) {
            self.active_pane = Pane::Editor;
        } else if self.toggles.show_agent_pane && contains(layout.agents, column, row) {
            self.active_pane = Pane::Agents;
        } else if contains(layout.plan, column, row) {
            self.active_pane = Pane::PlanApproval;
        }
    }

    /// Shows an error, from `now` on.
    pub fn show_error(&mut self, message: String, now: u64)
        ensures
            *final(self) == (Workbench { error_message: Some((message, now)), ..*old(self) }),
    {
        self.error_message = Some((message, now));
    }

    /// Shows a notification, from `now` on, and adds it to the agents pane.
    pub fn show_notification(&mut self, message: String, now: u64)
        ensures
            notified(*old(self), *final(self), message@, now),
    {
        self.status_notification = Some((message.clone(), now));
        self.agents.notify(message);
    }

    /// The error shown at `now`, if any.
    pub fn active_error(&self, now: u64) -> (r: Option<&str>)
        ensures
            match self.error_message {
                Some((m, t)) => if still_shown(t, now, 3000) {
                    r matches Some(s) && s@ == m@
                } else {
                    r is None
                },
                None => r is None,
            },
    {
        match &self.error_message {
            Some((m, t)) => if now < *t || now - *t < ERROR_SHOWN_MS {
                Some(m.as_str())
            } else {
                None
            },
            None => None,
        }
    }

    /// The notification shown at `now`, if any.
    pub fn active_notification(&self, now: u64) -> (r: Option<&str>)
        ensures
            match self.status_notification {
                Some((m, t)) => if still_shown(t, now, 4000) {
                    r matches Some(s) && s@ == m@
                } else {
                    r is None
                },
                None => r is None,
            },
    {
        match &self.status_notification {
            Some((m, t)) => if now < *t || now - *t < NOTIFICATION_SHOWN_MS {
                Some(m.as_str())
            } else {
                None
            },
            None => None,
        }
    }

    /// Reports that the agent could not be reached.
    pub fn agent_unavailable(&mut self, now: u64)
        ensures
            final(self).error_message matches Some((m, t)) && m@ == "Agent loop is not available"@ && t == now,
            *final(self) == (Workbench { error_message: final(self).error_message, ..*old(self) }),
    {
        self.show_error("Agent loop is not available".to_owned(), now);
    }

    /// Starts a subagent on `goal` and asks for the subagents' states.
    pub fn spawn_subagent(&self, goal: String) -> (r: Vec<Effect>)
        ensures
            spawn_effects(r@, goal@),
    {
        vec![Effect::SendAgent(AgentInput::SpawnSubagent { goal }), Effect::SendAgent(AgentInput::QuerySubagents)]
    }

    /// Shows or hides the file tree; hiding it moves the focus away from it.
    fn toggle_file_tree_pane(&mut self)
        ensures
            *final(self) == (Workbench {
                toggles: Toggles { show_file_tree: !old(self).toggles.show_file_tree, ..old(self).toggles },
                active_pane: if old(self).active_pane == Pane::Files && old(self).toggles.show_file_tree {
                    Pane::Editor
                } else {
                    old(self).active_pane
                },
                ..*old(self)
            }),
    {
        self.toggles.toggle_file_tree();
        if self.active_pane == Pane::Files && !self.toggles.show_file_tree {
            self.active_pane = Pane::Editor;
        }
    }

    /// Shows or hides the agents pane; hiding it moves the focus away from it.
    fn toggle_agent_pane_pane(&mut self)
        ensures
            *final(self) == (Workbench {
                toggles: Toggles { show_agent_pane: !old(self).toggles.show_agent_pane, ..old(self).toggles },
                active_pane: if old(self).active_pane == Pane::Agents && old(self).toggles.show_agent_pane {
                    Pane::Editor
                } else {
                    old(self).active_pane
                },
                ..*old(self)
            }),
    {
        self.toggles.toggle_agent_pane();
        if self.active_pane == Pane::Agents && !self.toggles.show_agent_pane {
            self.active_pane = Pane::Editor;
        }
    }

    /// Shows or hides the git status, and says which.
    fn toggle_git_status(&mut self, now: u64)
        ensures
            git_status_toggled(*old(self), *final(self), now),
    {
        self.git_manager.toggle_status_display();
        let m = if self.git_manager.status_visible() {
            "Git status: shown".to_owned()
        } else {
            "Git status: hidden".to_owned()
        };
        self.show_notification(m, now);
    }

    /// Shows or hides the plugin list; showing it lists the registered plugins.
    pub fn toggle_plugins(&mut self, now: u64)
        ensures
            plugins_toggled(*old(self), *final(self), now),
    {
        self.agents.toggle_plugins();
        if self.agents.show_plugins() {
            let plugins = self.plugin_registry.list();
            let mut rows: Vec<PluginRow> = Vec::new();
            let mut i: usize = 0;
            while i < plugins.len()
                invariant
                    i <= plugins@.len(),
                    rows@.len() == i,
                    forall|k: int| 0 <= k < i ==> {
                        let row = #[trigger] rows@[k];
                        let p = plugins@[k];
                        &&& row.name@ == p.name@
                        &&& row.description@ == p.description@
                        &&& row.backend@ == backend_name(p.backend)
                        &&& row.enabled == p.enabled
                    },
                decreases plugins@.len() - i,
            {
                let p = &plugins[i];
                rows.push(PluginRow {
                    name: p.name.clone(),
                    description: p.description.clone(),
                    backend: p.backend.to_string(),
                    enabled: p.enabled,
                });
                i = i + 1;
            }
            self.agents.set_plugins(rows);
            let mut m = "Loaded ".to_owned();
            let d = decimal_chars(self.plugin_registry.len());
            append_str(&mut m, string_of(d.as_slice()).as_str());
            append_str(&mut m, " plugins (Native/TS/Python)");
            self.show_notification(m, now);
        } else {
            self.show_notification("Plugins hidden".to_owned(), now);
        }
    }

    /// The text the diagram renderer looks at: the latest notification, or nothing.
    pub open spec fn mermaid_source(&self) -> Seq<char> {
        if self.agents.spec_notifications().len() > 0 {
            self.agents.spec_notifications().last()
        } else {
            seq![]
        }
    }

    /// The latest notification, or an empty text.
    fn mermaid_text(&self) -> (r: String)
        ensures
            r@ == self.mermaid_source(),
    {
        match self.agents.last_notification_text() {
            Some(t) => t.to_owned(),
            None => String::new(),
        }
    }

    /// The diagram rendering switched from the key binding: turning it on
    /// shows the diagrams of the latest notification, if it has any.
    fn toggle_mermaid_quietly(&mut self)
        ensures
            mermaid_toggled(*old(self), *final(self)),
    {
        self.show_mermaid_render = !self.show_mermaid_render;
        if self.show_mermaid_render {
            let text = self.mermaid_text();
            let diagrams = extract_mermaid_blocks(text.as_str());
            if diagrams.len() > 0 {
                self.mermaid_widget = Some(MermaidWidget::new(diagrams));
            }
        } else {
            self.mermaid_widget = None;
        }
    }

    /// The diagram rendering switched from the palette: as from the key
    /// binding, but it says how many diagrams it found, and with none it shows
    /// an error and stays off.
    fn toggle_mermaid_reporting(&mut self, now: u64)
        ensures
            mermaid_reported(*old(self), *final(self), now),
    {
        self.show_mermaid_render = !self.show_mermaid_render;
        if self.show_mermaid_render {
            let text = self.mermaid_text();
            let diagrams = extract_mermaid_blocks(text.as_str());
            if diagrams.len() > 0 {
                let count = diagrams.len();
                self.mermaid_widget = Some(MermaidWidget::new(diagrams));
                let d = decimal_chars(count);
                let mut m = string_of(d.as_slice());
                append_str(&mut m, " Mermaid diagram(s) detected");
                self.show_notification(m, now);
            } else {
                self.show_error("No Mermaid diagrams found in agent output".to_owned(), now);
                self.show_mermaid_render = false;
            }
        } else {
            self.mermaid_widget = None;
        }
    }

    /// Carries out a command of the palette.
    pub fn execute_command(&mut self, command: Command, now: u64) -> (r: Vec<Effect>)
        ensures
            command_done(*old(self), command, now, *final(self), r@),
    {
        match command {
            Command::OpenFile(path) => {
                let target = match path {
                    Some(p) => Some(p),
                    None => self.file_tree.selected_path(),
                };
                match target {
                    Some(p) => vec![Effect::OpenFile { path: p, report_errors: true }],
                    None => Vec::new(),
                }
            },
            Command::SwitchPane(p) => {
                self.active_pane = p;
                Vec::new()
            },
            Command::ToggleDarkMode => {
                self.toggles.toggle_dark_mode();
                Vec::new()
            },
            Command::ToggleFileTree => {
                self.toggle_file_tree_pane();
                Vec::new()
            },
            Command::ToggleAgentPane => {
                self.toggle_agent_pane_pane();
                Vec::new()
            },
            Command::SpawnSubagent(goal) => {
                let g = match goal {
                    Some(g) => g,
                    None => "Command palette subagent".to_owned(),
                };
                self.spawn_subagent(g)
            },
            Command::RunBridgeTest => {
                self.run_bridge_test(now);
                Vec::new()
            },
            Command::ShowPlugins => {
                self.toggle_plugins(now);
                Vec::new()
            },
            Command::SelectProvider(name) => {
                if let Some(n) = name {
                    if self.provider_registry.set_active(n.as_str()).is_ok() {
                        let mut m = "Provider switched to: ".to_owned();
                        append_str(&mut m, n.as_str());
                        self.show_notification(m, now);
                    } else {
                        let mut m = "Provider not found: ".to_owned();
                        append_str(&mut m, n.as_str());
                        self.show_error(m, now);
                    }
                }
                Vec::new()
            },
            Command::ToggleGitStatus => {
                self.toggle_git_status(now);
                Vec::new()
            },
            Command::RenderMermaid => {
                self.toggle_mermaid_reporting(now);
                Vec::new()
            },
            Command::Quit => {
                self.quit();
                Vec::new()
            },
        }
    }

    /// Moves the selection of the focused list: the file tree's selection or
    /// the editor's scroll position; other panes ignore it.
    fn navigate(&mut self, action: Action)
        requires
            action is MoveDown || action is MoveUp || action is GoTop || action is GoBottom
                || action is PageDown || action is PageUp,
        ensures
            old(self).active_pane == Pane::Files ==> *final(self) == (Workbench { file_tree: final(self).file_tree, ..*old(self) })
                && final(self).file_tree.spec_root() == old(self).file_tree.spec_root()
                && final(self).file_tree.spec_entries() == old(self).file_tree.spec_entries()
                && final(self).file_tree.spec_selected() == nav_index(action, old(self).file_tree.spec_selected() as int, old(self).file_tree.spec_entries().len() as int),
            old(self).active_pane == Pane::Editor ==> *final(self) == (Workbench { editor: final(self).editor, ..*old(self) })
                && final(self).editor.spec_lines() == old(self).editor.spec_lines()
                && final(self).editor.spec_current_file() == old(self).editor.spec_current_file()
                && final(self).editor.spec_scroll() == scroll_index(action, old(self).editor.spec_scroll() as int, old(self).editor.spec_lines().len() as int),
            old(self).active_pane != Pane::Files && old(self).active_pane != Pane::Editor ==> *final(self) == *old(self),
    {
        match self.active_pane {
            Pane::Files => match action {
                Action::MoveDown => self.file_tree.move_down(),
                Action::MoveUp => self.file_tree.move_up(),
                Action::GoTop => self.file_tree.go_top(),
                Action::GoBottom => self.file_tree.go_bottom(),
                Action::PageDown => self.file_tree.page_down(),
                _ => self.file_tree.page_up(),
            },
            Pane::Editor => match action {
                Action::MoveDown => self.editor.scroll_down(),
                Action::MoveUp => self.editor.scroll_up(),
                Action::GoTop => self.editor.go_top(),
                Action::GoBottom => self.editor.go_bottom(),
                Action::PageDown => self.editor.page_down(),
                _ => self.editor.page_up(),
            },
            _ => {},
        }
    }

    /// Answers an action of the user.
    pub fn handle_action(&mut self, action: Action, layout: &ScreenLayout, now: u64) -> (r: Vec<Effect>)
        ensures
            action_done(*old(self), action, *layout, now, *final(self), r@),
    {
        match action {
            Action::Quit => {
                self.quit();
                Vec::new()
            },
            Action::CyclePane => {
                self.cycle_pane();
                Vec::new()
            },
            Action::CommandMode => Vec::new(),
            Action::OpenCommandPalette => {
                self.command_palette.open();
                Vec::new()
            },
            Action::OpenHelp => {
                self.help_popup.open();
                Vec::new()
            },
            Action::CloseOverlay => {
                self.command_palette.close();
                self.help_popup.close();
                Vec::new()
            },
            Action::ToggleFileTree => {
                self.toggle_file_tree_pane();
                Vec::new()
            },
            Action::ToggleAgentPane => {
                self.toggle_agent_pane_pane();
                Vec::new()
            },
            Action::ToggleDarkMode => {
                self.toggles.toggle_dark_mode();
                Vec::new()
            },
            Action::PaletteConfirm => {
                match self.command_palette.selected_command() {
                    Some(command) => {
                        let ghost c = command;
                        self.command_palette.close();
                        let ghost mid = *self;
                        let r = self.execute_command(command, now);
                        assert(old(self).command_palette.selects(c) && palette_closed(*old(self), mid)
                            && command_done(mid, c, now, *self, r@));
                        r
                    },
                    None => Vec::new(),
                }
            },
            Action::PaletteBackspace => {
                self.command_palette.backspace();
                Vec::new()
            },
            Action::PaletteInput(c) => {
                self.command_palette.push_char(c);
                Vec::new()
            },
            Action::MoveDown | Action::MoveUp | Action::GoTop | Action::GoBottom | Action::PageDown | Action::PageUp => {
                self.navigate(action);
                Vec::new()
            },
            Action::Select => {
                if self.active_pane == Pane::Files {
                    if let Some(path) = self.file_tree.selected_path() {
                        self.active_pane = Pane::Editor;
                        return vec![Effect::OpenFile { path, report_errors: false }];
                    }
                }
                Vec::new()
            },
            Action::RejectPlan => {
                self.plan.reject();
                vec![Effect::SendAgent(AgentInput::RejectPlan)]
            },
            Action::EditPlan => {
                self.plan.edit();
                vec![Effect::SendAgent(AgentInput::EditPlan)]
            },
            Action::SpawnSubagent => self.spawn_subagent("TUI requested subagent".to_owned()),
            Action::ApprovePlan => {
                self.plan.approve();
                let mut r = vec![Effect::SendAgent(AgentInput::ApprovePlan)];
                if self.git_manager.is_available() {
                    r.push(Effect::AutoCommit);
                }
                r
            },
            Action::FocusPane(p) => {
                self.active_pane = p;
                Vec::new()
            },
            Action::MouseFocus { column, row } => {
                self.focus_at(column, row, layout);
                Vec::new()
            },
            Action::TogglePlugins => {
                self.toggle_plugins(now);
                Vec::new()
            },
            Action::ToggleGitStatus => {
                self.toggle_git_status(now);
                Vec::new()
            },
            Action::RenderMermaid => {
                self.toggle_mermaid_quietly();
                Vec::new()
            },
        }
    }

    /// Answers an action while the palette is open: up and down move its
    /// selection, anything else is handled as usual.
    pub fn handle_palette_action(&mut self, action: Action, now: u64) -> (r: Vec<Effect>)
        ensures
            action is MoveDown ==> r@.len() == 0 && *final(self) == (Workbench { command_palette: final(self).command_palette, ..*old(self) })
                && final(self).command_palette.spec_selected() == palette_down(*old(self))
                && final(self).command_palette.spec_query() == old(self).command_palette.spec_query()
                && final(self).command_palette.spec_open() == old(self).command_palette.spec_open()
                && palette_entries_kept(*old(self), *final(self)),
            action is MoveUp ==> r@.len() == 0 && *final(self) == (Workbench { command_palette: final(self).command_palette, ..*old(self) })
                && final(self).command_palette.spec_selected() == palette_up(*old(self))
                && final(self).command_palette.spec_query() == old(self).command_palette.spec_query()
                && final(self).command_palette.spec_open() == old(self).command_palette.spec_open()
                && palette_entries_kept(*old(self), *final(self)),
            !(action is MoveDown) && !(action is MoveUp) ==> action_done(*old(self), action, empty_layout(), now, *final(self), r@),
    {
        match action {
            Action::MoveDown => {
                self.command_palette.move_down();
                Vec::new()
            },
            Action::MoveUp => {
                self.command_palette.move_up();
                Vec::new()
            },
            _ => {
                let layout = ScreenLayout::empty();
                self.handle_action(action, &layout, now)
            },
        }
    }

    /// Shows a file that was read: its lines in the editor, which gets the focus.
    pub fn file_opened(&mut self, path: &str, content: &str)
        ensures
            final(self).editor.spec_current_file() == Some(path@),
            final(self).editor.spec_lines() == crate::text::lines(content@),
            final(self).editor.spec_scroll() == 0,
            *final(self) == (Workbench { editor: final(self).editor, active_pane: Pane::Editor, ..*old(self) }),
    {
        self.editor.load(path, content);
        self.active_pane = Pane::Editor;
    }

    /// Reports that a file could not be read, when the request asked for it.
    pub fn file_open_failed(&mut self, error: &str, report_errors: bool, now: u64)
        ensures
            report_errors ==> (final(self).error_message matches Some((m, t)) && t == now && m@ == "Open failed: "@ + error@)
                && *final(self) == (Workbench { error_message: final(self).error_message, ..*old(self) }),
            !report_errors ==> *final(self) == *old(self),
    {
        if report_errors {
            let mut m = "Open failed: ".to_owned();
            append_str(&mut m, error);
            self.show_error(m, now);
        }
    }

    /// Reports an automatic commit: one that committed is announced.
    pub fn auto_committed(&mut self, result: &AutoCommitResult, now: u64)
        ensures
            result.committed ==> notified(
                *old(self),
                *final(self),
                commit_notice(match result.commit_oid { Some(o) => Some(o@), None => None }, result.message@),
                now,
            ),
            !result.committed ==> *final(self) == *old(self),
    {
        if result.committed {
            let mut m = "Auto-committed: ".to_owned();
            match &result.commit_oid {
                Some(o) => append_str(&mut m, o.as_str()),
                None => append_str(&mut m, "unknown"),
            }
            append_str(&mut m, " (");
            append_str(&mut m, result.message.as_str());
            append_str(&mut m, ")");
            self.show_notification(m, now);
        }
    }

    /// Stops the interface because a shutdown was asked for: it says so, tells
    /// the agent, and ends.
    pub fn shutdown_requested(&mut self, now: u64) -> (r: Vec<Effect>)
        ensures
            final(self).should_quit,
            notified(*old(self), Workbench { should_quit: old(self).should_quit, ..*final(self) }, "Shutting down..."@, now),
            sends(r@, AgentInput::Shutdown),
    {
        self.show_notification("Shutting down...".to_owned(), now);
        self.should_quit = true;
        vec![Effect::SendAgent(AgentInput::Shutdown)]
    }

    /// Lists these subagents in the agents pane and recounts the running and
    /// the completed ones.
    pub fn update_agent_rows(&mut self, agents: Vec<SubagentInfo>)
        ensures
            rows_shown(*old(self), *final(self), agents@),
    {
        let mut rows: Vec<AgentRow> = Vec::new();
        let mut i: usize = 0;
        while i < agents.len()
            invariant
                i <= agents@.len(),
                rows@.len() == i,
                forall|k: int| 0 <= k < i ==> {
                    let row = #[trigger] rows@[k];
                    &&& row.id@ == agents@[k].id@
                    &&& row.goal@ == agents@[k].goal@
                    &&& row.status@ == agents@[k].status@
                    &&& row.turns == agents@[k].turns
                },
            decreases agents@.len() - i,
        {
            let a = &agents[i];
            rows.push(AgentRow { id: a.id.clone(), goal: a.goal.clone(), status: a.status.clone(), turns: a.turns });
            i = i + 1;
        }
        self.agents.set_agents(rows);
        self.agent_counts = self.agents.running_done_counts();
    }

    /// Shows what the agent reports.
    pub fn apply_agent_output(&mut self, output: AgentOutput, now: u64)
        ensures
            match output {
                AgentOutput::PlanReady { steps } => final(self).plan.spec_text() == join(step_views(steps@).map_values(|v: StepView| step_line(v)), seq!['\n'])
                    && final(self).plan.spec_decision() == old(self).plan.spec_decision()
                    && *final(self) == (Workbench { plan: final(self).plan, ..*old(self) }),
                AgentOutput::SubagentStatus { agents } => rows_shown(*old(self), *final(self), agents@),
                AgentOutput::SubagentResult { id, goal, result } => {
                    &&& final(self).agents.spec_agents().len() == 1
                    &&& final(self).agents.spec_agents()[0].id@ == id@
                    &&& final(self).agents.spec_agents()[0].goal@ == goal@
                    &&& final(self).agents.spec_agents()[0].status@ == "completed"@
                    &&& final(self).agents.spec_agents()[0].turns == 3
                    &&& final(self).agents.spec_notifications() == old(self).agents.spec_notifications().push("Subagent complete: "@ + goal@)
                    &&& final(self).error_message matches Some((m, t)) && t == now && m@ == result@
                    &&& final(self).status_notification matches Some((m, t)) && t == now && m@ == "Subagent complete: "@ + goal@
                    &&& final(self).agent_counts == (
                        status_count(final(self).agents.spec_agents(), 1, "running"@) as usize,
                        status_count(final(self).agents.spec_agents(), 1, "completed"@) as usize,
                    )
                    &&& final(self).agents.spec_plugins() == old(self).agents.spec_plugins()
                    &&& final(self).agents.spec_show_plugins() == old(self).agents.spec_show_plugins()
                    &&& *final(self) == (Workbench {
                        status_notification: final(self).status_notification,
                        agents: final(self).agents,
                        agent_counts: final(self).agent_counts,
                        error_message: final(self).error_message,
                        ..*old(self)
                    })
                },
                AgentOutput::Status { message } => notified(*old(self), *final(self), message@, now),
                AgentOutput::Error(message) => *final(self) == (Workbench { error_message: Some((message, now)), ..*old(self) }),
                AgentOutput::PlanApproved => notified(*old(self), *final(self), "Plan approved"@, now),
                AgentOutput::PlanRejected => notified(*old(self), *final(self), "Plan rejected"@, now),
                AgentOutput::StepExecuted { index, status } => notified(*old(self), *final(self),
                    "Step "@ + decimal((index + 1) as nat) + ": "@ + step_status_debug(status), now),
                AgentOutput::DiffPreview { step_index, diff } => final(self).plan.spec_text() == "Diff for step "@ + decimal((step_index + 1) as nat) + seq!['\n'] + diff@
                    && *final(self) == (Workbench { plan: final(self).plan, ..*old(self) }),
                AgentOutput::ResponseChunk(message) => if has_mermaid_spec(message@) {
                    exists|mid: Workbench| #![trigger notified(*old(self), mid, mermaid_hint(), now)]
                        notified(*old(self), mid, mermaid_hint(), now) && notified(mid, *final(self), message@, now)
                } else {
                    notified(*old(self), *final(self), message@, now)
                },
                AgentOutput::Thinking => notified(*old(self), *final(self), "Agent thinking"@, now),
                AgentOutput::Idle => *final(self) == *old(self),
            },
    {
        match output {
            AgentOutput::PlanReady { steps } => {
                let mut lines: Vec<String> = Vec::new();
                let mut i: usize = 0;
                while i < steps.len()
                    invariant
                        i <= steps@.len(),
                        lines@.len() == i,
                        forall|k: int| 0 <= k < i ==> #[trigger] lines@[k]@ == step_line(steps@[k]@),
                    decreases steps@.len() - i,
                {
                    lines.push(steps[i].display_line());
                    i = i + 1;
                }
                assert(lines@.map_values(|l: String| l@) =~= step_views(steps@).map_values(|v: StepView| step_line(v)));
                self.plan.set_lines(lines);
            },
            AgentOutput::SubagentStatus { agents } => self.update_agent_rows(agents),
            AgentOutput::SubagentResult { id, goal, result } => {
                let mut m = "Subagent complete: ".to_owned();
                append_str(&mut m, goal.as_str());
                self.show_notification(m, now);
                self.update_agent_rows(vec![SubagentInfo { id, goal, status: "completed".to_owned(), turns: 3 }]);
                self.show_error(result, now);
            },
            AgentOutput::Status { message } => self.show_notification(message, now),
            AgentOutput::Error(message) => self.show_error(message, now),
            AgentOutput::PlanApproved => self.show_notification("Plan approved".to_owned(), now),
            AgentOutput::PlanRejected => self.show_notification("Plan rejected".to_owned(), now),
            AgentOutput::StepExecuted { index, status } => {
                let mut m = "Step ".to_owned();
                let d = crate::text::decimal_chars_succ(index);
                append_str(&mut m, string_of(d.as_slice()).as_str());
                append_str(&mut m, ": ");
                append_str(&mut m, step_status_debug_name(status));
                self.show_notification(m, now);
            },
            AgentOutput::DiffPreview { step_index, diff } => {
                let mut first = "Diff for step ".to_owned();
                let d = crate::text::decimal_chars_succ(step_index);
                append_str(&mut first, string_of(d.as_slice()).as_str());
                let ghost fv = first@;
                let ghost dv = diff@;
                let lines = vec![first, diff];
                proof {
                    reveal_with_fuel(join, 3);
                    assert(lines@.map_values(|l: String| l@) =~= seq![fv, dv]);
                    assert(seq![fv, dv].drop_last() =~= seq![fv]);
                }
                self.plan.set_lines(lines);
            },
            AgentOutput::ResponseChunk(message) => {
                if has_mermaid_diagrams(message.as_str()) {
                    self.show_notification("Mermaid diagram detected — use palette to render".to_owned(), now);
                    let ghost mid = *self;
                    self.show_notification(message, now);
                    assert(notified(*old(self), mid, mermaid_hint(), now) && notified(mid, *self, message@, now));
                } else {
                    self.show_notification(message, now);
                }
            },
            AgentOutput::Thinking => self.show_notification("Agent thinking".to_owned(), now),
            AgentOutput::Idle => {},
        }
    }

    /// Checks the bridge command: an empty one marks the bridge disconnected
    /// and shows why; another marks it connected and clears the error.
    pub fn run_bridge_test(&mut self, now: u64)
        ensures
            bridge_tested(*old(self), *final(self), now),
    {
        let c = chars_of(self.bridge_command.as_str());
        let t = trim_chars(c.as_slice());
        if t.len() == 0 {
            self.bridge_connected = false;
            self.show_error("Bridge test failed: bridge command is empty".to_owned(), now);
        } else {
            self.bridge_connected = true;
            self.error_message = None;
        }
    }
}

/// A size rule for one part of a split area.
#[derive(Debug, Clone, Copy, PartialEq, Eq, Structural)]
pub enum Constraint {
    /// Exactly this many cells.
    Length(u16),
    /// At least this many cells.
    Min(u16),
    /// This share of the area, in hundredths.
    Percentage(u16),
}

/// How an area is split: into rows one below the other, or side by side.
#[derive(Debug, Clone, Copy, PartialEq, Eq, Structural)]
pub enum Direction {
    Vertical,
    Horizontal,
}

/// Whether `part` lies inside `area` as a part of a split in direction `d`:
/// across the split it spans the whole area, along it it starts and ends
/// within the area.
pub open spec fn inside(part: Rect, area: Rect, d: Direction) -> bool {
    match d {
        Direction::Vertical => {
            &&& part.x == area.x
            &&& part.width == area.width
            &&& area.y <= part.y
            &&& part.y + part.height <= sat_add(area.y, area.height)
        },
        Direction::Horizontal => {
            &&& part.y == area.y
            &&& part.height == area.height
            &&& area.x <= part.x
            &&& part.x + part.width <= sat_add(area.x, area.width)
        },
    }
}

/// Splits `area` with ratatui's `Layout::split`: one part per constraint,
/// each inside the area (the solver holds every boundary within the area
/// and each part's end at or after its start).  Where the parts fall within
/// the area is left unsaid: the solver can pick among equally good
/// solutions in an order that changes from one process to the next.
#[verifier::external_body]
fn split_area(direction: Direction, constraints: &Vec<Constraint>, area: Rect) -> (r: Vec<Rect>)
    ensures
        r@.len() == constraints@.len(),
        forall|i: int| 0 <= i < r@.len() ==> inside(#[trigger] r@[i], area, direction),
{
    let cs = constraints.iter().map(|c| match *c {
        Constraint::Length(n) => Rc::Length(n),
        Constraint::Min(n) => Rc::Min(n),
        Constraint::Percentage(n) => Rc::Percentage(n),
    });
    let d = match direction {
        Direction::Vertical => Rd::Vertical,
        Direction::Horizontal => Rd::Horizontal,
    };
    let a = Rr { x: area.x, y: area.y, width: area.width, height: area.height };
    let parts = Layout::default().direction(d).constraints(cs).split(a);
    parts.iter().map(|p| Rect { x: p.x, y: p.y, width: p.width, height: p.height }).collect()
}



/// The constraints of the screen's rows: the status bar one line high, the
/// panes at least eight, the plan pane seven.
pub fn screen_rows() -> (r: Vec<Constraint>)
    ensures
        r@ == seq![Constraint::Length(1), Constraint::Min(8), Constraint::Length(7)],
{
    let r = vec![Constraint::Length(1), Constraint::Min(8), Constraint::Length(7)];
    assert(r@ =~= seq![Constraint::Length(1), Constraint::Min(8), Constraint::Length(7)]);
    r
}

/// The constraint of a side pane: 22 hundredths of the row while shown,
/// nothing while hidden.
pub open spec fn side_pane(shown: bool) -> Constraint {
    if shown {
        Constraint::Percentage(22)
    } else {
        Constraint::Length(0)
    }
}

/// The constraints of the middle row's columns: the file tree, the editor at
/// least twenty cells wide, the agents pane.
pub fn screen_columns(toggles: &Toggles) -> (r: Vec<Constraint>)
    ensures
        r@ == seq![side_pane(toggles.show_file_tree), Constraint::Min(20), side_pane(toggles.show_agent_pane)],
{
    let left = if toggles.show_file_tree {
        Constraint::Percentage(22)
    } else {
        Constraint::Length(0)
    };
    let right = if toggles.show_agent_pane {
        Constraint::Percentage(22)
    } else {
        Constraint::Length(0)
    };
    let r = vec![left, Constraint::Min(20), right];
    assert(r@ =~= seq![side_pane(toggles.show_file_tree), Constraint::Min(20), side_pane(toggles.show_agent_pane)]);
    r
}

/// The panes placed in the parts of a split screen: the file tree, editor
/// and agents pane in the middle row's three columns, the plan pane in the
/// last row.
pub open spec fn panes_of(rows: Seq<Rect>, cols: Seq<Rect>) -> ScreenLayout {
    ScreenLayout { files: cols[0], editor: cols[1], agents: cols[2], plan: rows[2] }
}

/// Places the panes in the parts of a split screen.
pub fn panes_from_parts(rows: &Vec<Rect>, cols: &Vec<Rect>) -> (r: ScreenLayout)
    requires
        rows@.len() == 3,
        cols@.len() == 3,
    ensures
        r == panes_of(rows@, cols@),
{
    ScreenLayout { files: cols[0], editor: cols[1], agents: cols[2], plan: rows[2] }
}

/// Where the panes go on a screen of the given area: ratatui splits the area
/// into the rows `screen_rows` gives and the middle row into the columns
/// `screen_columns` gives, and the panes take their parts.
pub fn layout_for(area: Rect, toggles: &Toggles) -> (r: ScreenLayout)
    ensures
        exists|rows: Seq<Rect>, cols: Seq<Rect>| #![trigger panes_of(rows, cols)]
            rows.len() == 3 && cols.len() == 3
            && (forall|i: int| 0 <= i < 3 ==> inside(#[trigger] rows[i], area, Direction::Vertical))
            && (forall|i: int| 0 <= i < 3 ==> inside(#[trigger] cols[i], rows[1], Direction::Horizontal))
            && r == panes_of(rows, cols),
{
    let rows_c = screen_rows();
    let rows = split_area(Direction::Vertical, &rows_c, area);
    let cols_c = screen_columns(toggles);
    let cols = split_area(Direction::Horizontal, &cols_c, rows[1]);
    let r = panes_from_parts(&rows, &cols);
    assert(r == panes_of(rows@, cols@));
    r
}

/// The three percentages that centre a part `p` hundredths long: half of
/// the rest, `p`, half of the rest.
pub fn centered_parts(p: u16) -> (r: Vec<Constraint>)
    requires
        p <= 100,
    ensures
        r@ == seq![
            Constraint::Percentage(((100 - p) / 2) as u16),
            Constraint::Percentage(p),
            Constraint::Percentage(((100 - p) / 2) as u16),
        ],
{
    let side = (100 - p) / 2;
    let r = vec![Constraint::Percentage(side), Constraint::Percentage(p), Constraint::Percentage(side)];
    assert(r@ =~= seq![
        Constraint::Percentage(((100 - p) / 2) as u16),
        Constraint::Percentage(p),
        Constraint::Percentage(((100 - p) / 2) as u16),
    ]);
    r
}

/// The part of `area` centred in it, `percent_x` hundredths wide and
/// `percent_y` hundredths high: ratatui splits the area into the rows
/// `centered_parts(percent_y)` gives and the middle row into the columns
/// `centered_parts(percent_x)` gives; the result is the middle column.
pub fn centered_rect(percent_x: u16, percent_y: u16, area: Rect) -> (r: Rect)
    requires
        percent_x <= 100,
        percent_y <= 100,
    ensures
        exists|rows: Seq<Rect>, cols: Seq<Rect>| #![trigger rows[1], cols[1]]
            rows.len() == 3 && cols.len() == 3
            && (forall|i: int| 0 <= i < 3 ==> inside(#[trigger] rows[i], area, Direction::Vertical))
            && (forall|i: int| 0 <= i < 3 ==> inside(#[trigger] cols[i], rows[1], Direction::Horizontal))
            && r == cols[1],
{
    let rows_c = centered_parts(percent_y);
    let rows = split_area(Direction::Vertical, &rows_c, area);
    let cols_c = centered_parts(percent_x);
    let cols = split_area(Direction::Horizontal, &cols_c, rows[1]);
    assert(rows@[1] == rows@[1] && cols@[1] == cols@[1]);
    cols[1]
}

/// Navigating a list never leaves it: from an entry of a list of `n`
/// entries, every navigation action lands on an entry.
pub proof fn lemma_nav_in_bounds(action: Action, i: int, n: int)
    requires
        0 <= i < n,
    ensures
        0 <= nav_index(action, i, n) < n,
        0 <= scroll_index(action, i, n) < n,
{
}

} // verus!
