//! Plans: the agent proposes steps, the user approves or rejects them, and
//! only approved steps run.
use crate::text::{append_str, decimal, decimal_chars, lines, lines_chars, str_eq, string_of};
use vstd::prelude::*;

verus! {

/// The state of one step.
#[derive(Debug, Clone, Copy, PartialEq, Eq, Structural)]
pub enum StepStatus {
    Pending,
    Approved,
    Rejected,
    Executing,
    Completed,
    Failed,
}

/// The name of a step state.
pub open spec fn step_status_name(s: StepStatus) -> Seq<char> {
    match s {
        StepStatus::Pending => "pending"@,
        StepStatus::Approved => "approved"@,
        StepStatus::Rejected => "rejected"@,
        StepStatus::Executing => "executing"@,
        StepStatus::Completed => "completed"@,
        StepStatus::Failed => "failed"@,
    }
}

/// The icon of a step state.
pub open spec fn step_status_icon(s: StepStatus) -> Seq<char> {
    match s {
        StepStatus::Pending => "○"@,
        StepStatus::Approved => "✓"@,
        StepStatus::Rejected => "✗"@,
        StepStatus::Executing => "⟳"@,
        StepStatus::Completed => "●"@,
        StepStatus::Failed => "✕"@,
    }
}

impl StepStatus {
    /// The state's name.
    pub fn as_str(&self) -> (r: &'static str)
        ensures
            r@ == step_status_name(*self),
    {
        match self {
            StepStatus::Pending => "pending",
            StepStatus::Approved => "approved",
            StepStatus::Rejected => "rejected",
            StepStatus::Executing => "executing",
            StepStatus::Completed => "completed",
            StepStatus::Failed => "failed",
        }
    }

    /// The state's icon.
    pub fn icon(&self) -> (r: &'static str)
        ensures
            r@ == step_status_icon(*self),
    {
        match self {
            StepStatus::Pending => "○",
            StepStatus::Approved => "✓",
            StepStatus::Rejected => "✗",
            StepStatus::Executing => "⟳",
            StepStatus::Completed => "●",
            StepStatus::Failed => "✕",
        }
    }
}

/// Whether `serde_json::from_str` reads a JSON value from a text.
pub uninterp spec fn json_text_ok(text: Seq<char>) -> bool;

/// What `serde_json::to_string_pretty` gives for the JSON value written by a text.
pub uninterp spec fn pretty_json(text: Seq<char>) -> Seq<char>;

/// The JSON value that `text` holds, read with `serde_json::from_str` and
/// written back with `serde_json::to_string_pretty`.  Whether the text reads
/// as JSON is named `json_text_ok`; when it does not, the result is empty;
/// when it does, it is the pretty text, named `pretty_json`, which is never
/// empty (every JSON value has at least one character).
#[verifier::external_body]
fn pretty_json_text(text: &str) -> (r: String)
    ensures
        json_text_ok(text@) ==> r@ == pretty_json(text@) && r@.len() > 0,
        !json_text_ok(text@) ==> r@.len() == 0,
{
    match serde_json::from_str::<serde_json::Value>(text) {
        Ok(v) => serde_json::to_string_pretty(&v).unwrap_or_default(),
        Err(_) => String::new(),
    }
}

/// One step of a plan; `params` is the JSON text of the tool's parameters.
#[derive(Debug, Clone)]
pub struct Step {
    pub description: String,
    pub tool: String,
    pub params: String,
    pub status: StepStatus,
    pub diff_preview: Option<String>,
    pub result: Option<String>,
}

/// The characters of an optional string.
pub open spec fn opt_chars(o: Option<String>) -> Option<Seq<char>> {
    match o {
        Some(s) => Some(s@),
        None => None,
    }
}

/// The view of a step: description, tool, parameters, state, diff, result.
pub type StepView = (Seq<char>, Seq<char>, Seq<char>, StepStatus, Option<Seq<char>>, Option<Seq<char>>);

impl View for Step {
    type V = StepView;

    open spec fn view(&self) -> StepView {
        (self.description@, self.tool@, self.params@, self.status, opt_chars(self.diff_preview), opt_chars(self.result))
    }
}

/// Whether a tool writes files.
pub open spec fn is_edit_tool(t: Seq<char>) -> bool {
    t == "write_file"@ || t == "patch"@ || t == "edit_file"@ || t == "replace"@
}

/// The line that shows a step.
pub open spec fn step_line(s: StepView) -> Seq<char> {
    step_status_icon(s.3) + " "@ + s.0 + " — "@ + s.1 + " ["@ + step_status_name(s.3) + "]"@
}

/// The parameters as shown: their pretty JSON text, or nothing where they
/// are not JSON.
pub open spec fn pretty_params(text: Seq<char>) -> Seq<char> {
    if json_text_ok(text) {
        pretty_json(text)
    } else {
        seq![]
    }
}

/// The diff shown for a step: its preview, else for a file edit its tool and parameters.
pub open spec fn diff_summary_spec(s: StepView) -> Option<Seq<char>> {
    match s.4 {
        Some(d) => Some(d),
        None => if is_edit_tool(s.1) {
            Some("File edit: "@ + s.1 + " with params "@ + pretty_params(s.2))
        } else {
            None
        },
    }
}

fn copy_opt(o: &Option<String>) -> (r: Option<String>)
    ensures
        r == *o,
{
    match o {
        Some(s) => Some(s.clone()),
        None => None,
    }
}

impl Step {
    /// A pending step.
    pub fn new(description: &str, tool: &str, params: &str) -> (r: Step)
        ensures
            r@ == (description@, tool@, params@, StepStatus::Pending, None::<Seq<char>>, None::<Seq<char>>),
    {
        Step {
            description: description.to_owned(),
            tool: tool.to_owned(),
            params: params.to_owned(),
            status: StepStatus::Pending,
            diff_preview: None,
            result: None,
        }
    }

    /// A copy of the step.
    pub fn copy(&self) -> (r: Step)
        ensures
            r@ == self@,
    {
        Step {
            description: self.description.clone(),
            tool: self.tool.clone(),
            params: self.params.clone(),
            status: self.status,
            diff_preview: copy_opt(&self.diff_preview),
            result: copy_opt(&self.result),
        }
    }

    /// Whether the step edits files.
    pub fn is_file_edit(&self) -> (r: bool)
        ensures
            r == is_edit_tool(self.tool@),
    {
        let t = self.tool.as_str();
        str_eq(t, "write_file") || str_eq(t, "patch") || str_eq(t, "edit_file") || str_eq(t, "replace")
    }

    /// The diff shown for the step, if any.
    pub fn diff_summary(&self) -> (r: Option<String>)
        ensures
            opt_chars(r) == diff_summary_spec(self@),
    {
        match &self.diff_preview {
            Some(d) => Some(d.clone()),
            None => if self.is_file_edit() {
                let mut m = "File edit: ".to_owned();
                append_str(&mut m, self.tool.as_str());
                append_str(&mut m, " with params ");
                let p = pretty_json_text(self.params.as_str());
                append_str(&mut m, p.as_str());
                Some(m)
            } else {
                None
            },
        }
    }

    /// The line that shows the step.
    pub fn display_line(&self) -> (r: String)
        ensures
            r@ == step_line(self@),
    {
        let mut m = self.status.icon().to_owned();
        append_str(&mut m, " ");
        append_str(&mut m, self.description.as_str());
        append_str(&mut m, " — ");
        append_str(&mut m, self.tool.as_str());
        append_str(&mut m, " [");
        append_str(&mut m, self.status.as_str());
        append_str(&mut m, "]");
        m
    }
}

/// The state of a plan.
#[derive(Debug, Clone, Copy, PartialEq, Eq, Structural)]
pub enum PlanStatus {
    Draft,
    PendingApproval,
    Approved,
    Rejected,
    Executing,
    Completed,
    Failed,
}

/// The name of a plan state.
pub open spec fn plan_status_name(s: PlanStatus) -> Seq<char> {
    match s {
        PlanStatus::Draft => "draft"@,
        PlanStatus::PendingApproval => "pending_approval"@,
        PlanStatus::Approved => "approved"@,
        PlanStatus::Rejected => "rejected"@,
        PlanStatus::Executing => "executing"@,
        PlanStatus::Completed => "completed"@,
        PlanStatus::Failed => "failed"@,
    }
}

impl PlanStatus {
    /// The state's name.
    pub fn as_str(&self) -> (r: &'static str)
        ensures
            r@ == plan_status_name(*self),
    {
        match self {
            PlanStatus::Draft => "draft",
            PlanStatus::PendingApproval => "pending_approval",
            PlanStatus::Approved => "approved",
            PlanStatus::Rejected => "rejected",
            PlanStatus::Executing => "executing",
            PlanStatus::Completed => "completed",
            PlanStatus::Failed => "failed",
        }
    }
}

/// A plan: an id, a title, its steps, and its state.
#[derive(Debug, Clone)]
pub struct Plan {
    pub id: String,
    pub title: String,
    pub steps: Vec<Step>,
    pub status: PlanStatus,
}

/// The views of a sequence of steps.
pub open spec fn step_views(s: Seq<Step>) -> Seq<StepView> {
    s.map_values(|x: Step| x@)
}

/// The view of a plan: id, title, steps, state.
pub type PlanView = (Seq<char>, Seq<char>, Seq<StepView>, PlanStatus);

impl View for Plan {
    type V = PlanView;

    open spec fn view(&self) -> PlanView {
        (self.id@, self.title@, step_views(self.steps@), self.status)
    }
}

/// How many of the first `n` steps are in state `st`.
pub open spec fn count_status(ss: Seq<StepView>, n: int, st: StepStatus) -> int
    decreases n,
{
    if n <= 0 {
        0
    } else {
        count_status(ss, n - 1, st) + if ss[n - 1].3 == st {
            1int
        } else {
            0int
        }
    }
}

/// Whether a step state is final.
pub open spec fn is_terminal(s: StepStatus) -> bool {
    s == StepStatus::Completed || s == StepStatus::Rejected || s == StepStatus::Failed
}

/// Whether every step is in a final state.
pub open spec fn all_done(ss: Seq<StepView>) -> bool {
    forall|i: int| 0 <= i < ss.len() ==> is_terminal(#[trigger] ss[i].3)
}

/// The summary line of a plan.
pub open spec fn summary_line(p: PlanView) -> Seq<char> {
    let ss = p.2;
    let n = ss.len() as int;
    p.1 + " ["@ + plan_status_name(p.3) + "] — "@ + decimal(count_status(ss, n, StepStatus::Completed) as nat) + "/"@
        + decimal(ss.len()) + " steps | "@ + decimal(count_status(ss, n, StepStatus::Approved) as nat) + "✓ "@
        + decimal(count_status(ss, n, StepStatus::Completed) as nat) + "● "@ + decimal(
        count_status(ss, n, StepStatus::Failed) as nat,
    ) + "✕ "@ + decimal(count_status(ss, n, StepStatus::Rejected) as nat) + "✗"@
}

proof fn lemma_count_bounds(ss: Seq<StepView>, n: int, st: StepStatus)
    requires
        0 <= n,
    ensures
        0 <= count_status(ss, n, st) <= n,
    decreases n,
{
    if n > 0 {
        lemma_count_bounds(ss, n - 1, st);
    }
}

fn count_steps(steps: &Vec<Step>, st: StepStatus) -> (r: usize)
    ensures
        r == count_status(step_views(steps@), steps@.len() as int, st),
{
    let ghost ss = step_views(steps@);
    let mut n: usize = 0;
    let mut i: usize = 0;
    while i < steps.len()
        invariant
            ss == step_views(steps@),
            i <= steps@.len(),
            n == count_status(ss, i as int, st),
            n <= i,
        decreases steps@.len() - i,
    {
        assert(ss[i as int] == steps@[i as int]@);
        if steps[i].status == st {
            n = n + 1;
        }
        i = i + 1;
    }
    n
}

fn dec(n: usize) -> (r: String)
    ensures
        r@ == decimal(n as nat),
{
    string_of(decimal_chars(n).as_slice())
}

impl Plan {
    /// A draft plan.
    pub fn new(id: &str, title: &str, steps: Vec<Step>) -> (r: Plan)
        ensures
            r@ == (id@, title@, step_views(steps@), PlanStatus::Draft),
    {
        Plan { id: id.to_owned(), title: title.to_owned(), steps, status: PlanStatus::Draft }
    }

    /// A copy of the plan.
    pub fn copy(&self) -> (r: Plan)
        ensures
            r@ == self@,
    {
        let mut steps: Vec<Step> = Vec::new();
        let mut i: usize = 0;
        while i < self.steps.len()
            invariant
                i <= self.steps@.len(),
                step_views(steps@) == step_views(self.steps@).take(i as int),
            decreases self.steps@.len() - i,
        {
            let c = self.steps[i].copy();
            let ghost before = step_views(steps@);
            steps.push(c);
            proof {
                assert(step_views(steps@) =~= before.push(c@));
                assert(step_views(self.steps@).take(i + 1) =~= step_views(self.steps@).take(i as int).push(self.steps@[i as int]@));
            }
            i = i + 1;
        }
        assert(step_views(self.steps@).take(self.steps@.len() as int) =~= step_views(self.steps@));
        Plan { id: self.id.clone(), title: self.title.clone(), steps, status: self.status }
    }

    /// Puts the plan up for review.
    pub fn submit_for_approval(&mut self)
        ensures
            final(self)@ == (old(self)@.0, old(self)@.1, old(self)@.2, PlanStatus::PendingApproval),
    {
        self.status = PlanStatus::PendingApproval;
    }

    /// How many steps are in state `status`.
    pub fn count_by_status(&self, status: StepStatus) -> (r: usize)
        ensures
            r == count_status(self@.2, self@.2.len() as int, status),
    {
        count_steps(&self.steps, status)
    }

    /// Whether every step is completed, rejected or failed.
    pub fn is_done(&self) -> (r: bool)
        ensures
            r == all_done(self@.2),
    {
        let ghost ss = self@.2;
        let mut i: usize = 0;
        while i < self.steps.len()
            invariant
                ss == self@.2,
                i <= self.steps@.len(),
                forall|j: int| 0 <= j < i ==> is_terminal(#[trigger] ss[j].3),
            decreases self.steps@.len() - i,
        {
            assert(ss[i as int] == self.steps@[i as int]@);
            let s = self.steps[i].status;
            if !(s == StepStatus::Completed || s == StepStatus::Rejected || s == StepStatus::Failed) {
                assert(!is_terminal(ss[i as int].3));
                return false;
            }
            i = i + 1;
        }
        true
    }

    /// The summary line: title, state, and the counts of steps in each state.
    pub fn display_summary(&self) -> (r: String)
        ensures
            r@ == summary_line(self@),
    {
        let total = self.steps.len();
        let approved = self.count_by_status(StepStatus::Approved);
        let completed = self.count_by_status(StepStatus::Completed);
        let failed = self.count_by_status(StepStatus::Failed);
        let rejected = self.count_by_status(StepStatus::Rejected);
        let mut m = self.title.clone();
        append_str(&mut m, " [");
        append_str(&mut m, self.status.as_str());
        append_str(&mut m, "] — ");
        append_str(&mut m, dec(completed).as_str());
        append_str(&mut m, "/");
        append_str(&mut m, dec(total).as_str());
        append_str(&mut m, " steps | ");
        append_str(&mut m, dec(approved).as_str());
        append_str(&mut m, "✓ ");
        append_str(&mut m, dec(completed).as_str());
        append_str(&mut m, "● ");
        append_str(&mut m, dec(failed).as_str());
        append_str(&mut m, "✕ ");
        append_str(&mut m, dec(rejected).as_str());
        append_str(&mut m, "✗");
        m
    }
}

/// A step in another state.
pub open spec fn with_status(s: StepView, st: StepStatus) -> StepView {
    (s.0, s.1, s.2, st, s.4, s.5)
}

/// The steps with every pending one moved to state `st`.
pub open spec fn settle_pending(ss: Seq<StepView>, st: StepStatus) -> Seq<StepView> {
    ss.map_values(|s: StepView| if s.3 == StepStatus::Pending { with_status(s, st) } else { s })
}

/// The steps with every approved one completed.
pub open spec fn complete_approved(ss: Seq<StepView>) -> Seq<StepView> {
    ss.map_values(|s: StepView| if s.3 == StepStatus::Approved { (s.0, s.1, s.2, StepStatus::Completed, s.4, s.5) } else { s })
}

/// The indices of the approved steps among the first `n`, in order.
pub open spec fn approved_indices(ss: Seq<StepView>, n: int) -> Seq<usize>
    decreases n,
{
    if n <= 0 {
        seq![]
    } else {
        approved_indices(ss, n - 1) + if ss[n - 1].3 == StepStatus::Approved {
            seq![(n - 1) as usize]
        } else {
            seq![]
        }
    }
}

/// The views of a sequence of plans.
pub open spec fn plan_views(s: Seq<Plan>) -> Seq<PlanView> {
    s.map_values(|p: Plan| p@)
}

/// The view of an optional plan.
pub open spec fn opt_plan(o: Option<Plan>) -> Option<PlanView> {
    match o {
        Some(p) => Some(p@),
        None => None,
    }
}

fn settle_steps(steps: Vec<Step>, st: StepStatus) -> (r: Vec<Step>)
    ensures
        step_views(r@) == settle_pending(step_views(steps@), st),
{
    let mut out: Vec<Step> = Vec::new();
    let mut i: usize = 0;
    while i < steps.len()
        invariant
            i <= steps@.len(),
            step_views(out@) == settle_pending(step_views(steps@), st).take(i as int),
        decreases steps@.len() - i,
    {
        let mut c = steps[i].copy();
        if c.status == StepStatus::Pending {
            c.status = st;
        }
        let ghost before = step_views(out@);
        out.push(c);
        proof {
            assert(step_views(out@) =~= before.push(c@));
            assert(settle_pending(step_views(steps@), st).take(i + 1) =~= settle_pending(step_views(steps@), st).take(i as int).push(c@));
        }
        i = i + 1;
    }
    assert(settle_pending(step_views(steps@), st).take(steps@.len() as int) =~= settle_pending(step_views(steps@), st));
    out
}

fn replace_step(steps: &mut Vec<Step>, i: usize, s: Step)
    requires
        i < old(steps)@.len(),
    ensures
        step_views(final(steps)@) == step_views(old(steps)@).update(i as int, s@),
{
    steps.remove(i);
    steps.insert(i, s);
    assert(step_views(steps@) =~= step_views(old(steps)@).update(i as int, s@));
}

/// The current plan and the plans archived before it.
#[derive(Debug)]
pub struct PlanManager {
    current_plan: Option<Plan>,
    history: Vec<Plan>,
}

/// The view of a manager: the current plan and the archive.
pub type ManagerView = (Option<PlanView>, Seq<PlanView>);

impl View for PlanManager {
    type V = ManagerView;

    closed spec fn view(&self) -> ManagerView {
        (opt_plan(self.current_plan), plan_views(self.history@))
    }
}

/// The current plan after its step `i` is set to `st` when it is in state `from`.
pub open spec fn step_moved(p: PlanView, i: int, from: StepStatus, st: StepStatus) -> PlanView {
    if 0 <= i < p.2.len() && p.2[i].3 == from {
        (p.0, p.1, p.2.update(i, with_status(p.2[i], st)), p.3)
    } else {
        p
    }
}

/// The lines that show a plan.
pub open spec fn step_lines(ss: Seq<StepView>, n: int) -> Seq<Seq<char>>
    decreases n,
{
    if n <= 0 {
        seq![]
    } else {
        step_lines(ss, n - 1) + seq!["  "@ + decimal(n as nat) + ". "@ + step_line(ss[n - 1])] + match ss[n - 1].4 {
            Some(d) => lines(d).map_values(|l: Seq<char>| "     | "@ + l),
            None => seq![],
        }
    }
}

/// The text that shows the current plan: its summary, its steps with their
/// diffs, and how it ended; or that there is none.
pub open spec fn display_spec(v: ManagerView) -> Seq<Seq<char>> {
    match v.0 {
        Some(p) => seq![summary_line(p), Seq::<char>::empty()] + step_lines(p.2, p.2.len() as int) + if all_done(p.2) {
            seq![
                Seq::<char>::empty(),
                match p.3 {
                    PlanStatus::Completed => "✓ Plan completed successfully."@,
                    PlanStatus::Failed => "✕ Plan failed."@,
                    _ => Seq::<char>::empty(),
                },
            ]
        } else {
            seq![]
        },
        None => seq!["No active plan."@, "Plans, approvals, and execution checkpoints."@],
    }
}

impl PlanManager {
    /// A manager with no plan.
    pub fn new() -> (r: PlanManager)
        ensures
            r@ == (None::<PlanView>, Seq::<PlanView>::empty()),
    {
        let r = PlanManager { current_plan: None, history: Vec::new() };
        assert(plan_views(r.history@) =~= seq![]);
        r
    }

    /// The current plan, if any.
    pub fn current_plan(&self) -> (r: Option<&Plan>)
        ensures
            match r {
                Some(p) => self@.0 == Some(p@),
                None => self@.0 is None,
            },
    {
        self.current_plan.as_ref()
    }

    /// The archived plans, oldest first.
    pub fn history(&self) -> (r: &[Plan])
        ensures
            plan_views(r@) == self@.1,
    {
        self.history.as_slice()
    }

    /// Makes a new draft plan current; the previous one, if any, is archived.
    pub fn create_plan(&mut self, id: &str, title: &str, steps: Vec<Step>)
        ensures
            final(self)@.0 == Some((id@, title@, step_views(steps@), PlanStatus::Draft)),
            final(self)@.1 == match old(self)@.0 {
                Some(p) => old(self)@.1.push(p),
                None => old(self)@.1,
            },
    {
        if let Some(p) = self.current_plan.take() {
            let ghost before = plan_views(self.history@);
            let ghost pv = p@;
            self.history.push(p);
            assert(plan_views(self.history@) =~= before.push(pv));
        }
        self.current_plan = Some(Plan::new(id, title, steps));
    }

    /// Puts the current plan up for review.
    pub fn submit_for_approval(&mut self)
        ensures
            final(self)@ == (match old(self)@.0 {
                Some(p) => Some((p.0, p.1, p.2, PlanStatus::PendingApproval)),
                None => None,
            }, old(self)@.1),
    {
        if let Some(mut p) = self.current_plan.take() {
            p.submit_for_approval();
            self.current_plan = Some(p);
        }
    }

    /// Approves a plan under review: it and every pending step become approved.
    /// A plan in any other state is left as it is.
    pub fn approve(&mut self)
        ensures
            final(self)@ == (match old(self)@.0 {
                Some(p) => if p.3 == PlanStatus::PendingApproval {
                    Some((p.0, p.1, settle_pending(p.2, StepStatus::Approved), PlanStatus::Approved))
                } else {
                    Some(p)
                },
                None => None,
            }, old(self)@.1),
    {
        if let Some(p) = self.current_plan.take() {
            if p.status == PlanStatus::PendingApproval {
                let Plan { id, title, steps, status: _ } = p;
                let steps = settle_steps(steps, StepStatus::Approved);
                self.current_plan = Some(Plan { id, title, steps, status: PlanStatus::Approved });
            } else {
                self.current_plan = Some(p);
            }
        }
    }

    /// Rejects a plan under review: it and every pending step become
    /// rejected, and it is archived.  A plan in any other state is left as it is.
    pub fn reject(&mut self)
        ensures
            match old(self)@.0 {
                Some(p) => if p.3 == PlanStatus::PendingApproval {
                    final(self)@ == (None::<PlanView>, old(self)@.1.push(
                        (p.0, p.1, settle_pending(p.2, StepStatus::Rejected), PlanStatus::Rejected),
                    ))
                } else {
                    final(self)@ == old(self)@
                },
                None => final(self)@ == old(self)@,
            },
    {
        if let Some(p) = self.current_plan.take() {
            if p.status == PlanStatus::PendingApproval {
                let Plan { id, title, steps, status: _ } = p;
                let steps = settle_steps(steps, StepStatus::Rejected);
                let r = Plan { id, title, steps, status: PlanStatus::Rejected };
                let ghost before = plan_views(self.history@);
                let ghost rv = r@;
                self.history.push(r);
                assert(plan_views(self.history@) =~= before.push(rv));
            } else {
                self.current_plan = Some(p);
            }
        }
    }

    fn move_step(&mut self, index: usize, from: StepStatus, to: StepStatus) -> (found: bool)
        ensures
            final(self)@ == (match old(self)@.0 {
                Some(p) => Some(step_moved(p, index as int, from, to)),
                None => None,
            }, old(self)@.1),
            found == (old(self)@.0 matches Some(p) && index < p.2.len()),
    {
        if let Some(mut p) = self.current_plan.take() {
            let found = index < p.steps.len();
            if found && p.steps[index].status == from {
                let mut c = p.steps[index].copy();
                c.status = to;
                let ghost cv = c@;
                replace_step(&mut p.steps, index, c);
            }
            self.current_plan = Some(p);
            found
        } else {
            false
        }
    }

    /// Approves step `index` of the current plan if it is pending; the step
    /// is given back when it exists.
    pub fn approve_step(&mut self, index: usize) -> (r: Option<Step>)
        ensures
            final(self)@ == (match old(self)@.0 {
                Some(p) => Some(step_moved(p, index as int, StepStatus::Pending, StepStatus::Approved)),
                None => None,
            }, old(self)@.1),
            match r {
                Some(s) => final(self)@.0 matches Some(p) && index < p.2.len() && s@ == p.2[index as int],
                None => !(old(self)@.0 matches Some(p) && index < p.2.len()),
            },
    {
        if self.move_step(index, StepStatus::Pending, StepStatus::Approved) {
            self.step_copy(index)
        } else {
            None
        }
    }

    /// Rejects step `index` of the current plan if it is pending; the step
    /// is given back when it exists.
    pub fn reject_step(&mut self, index: usize) -> (r: Option<Step>)
        ensures
            final(self)@ == (match old(self)@.0 {
                Some(p) => Some(step_moved(p, index as int, StepStatus::Pending, StepStatus::Rejected)),
                None => None,
            }, old(self)@.1),
            match r {
                Some(s) => final(self)@.0 matches Some(p) && index < p.2.len() && s@ == p.2[index as int],
                None => !(old(self)@.0 matches Some(p) && index < p.2.len()),
            },
    {
        if self.move_step(index, StepStatus::Pending, StepStatus::Rejected) {
            self.step_copy(index)
        } else {
            None
        }
    }

    fn step_copy(&self, index: usize) -> (r: Option<Step>)
        ensures
            match r {
                Some(s) => self@.0 matches Some(p) && index < p.2.len() && s@ == p.2[index as int],
                None => !(self@.0 matches Some(p) && index < p.2.len()),
            },
    {
        match &self.current_plan {
            Some(p) => if index < p.steps.len() {
                Some(p.steps[index].copy())
            } else {
                None
            },
            None => None,
        }
    }

    /// Starts executing step `index`: the plan becomes executing, and the
    /// step too if it was approved.
    pub fn start_step(&mut self, index: usize)
        ensures
            final(self)@ == (match old(self)@.0 {
                Some(p) => Some(step_moved((p.0, p.1, p.2, PlanStatus::Executing), index as int, StepStatus::Approved, StepStatus::Executing)),
                None => None,
            }, old(self)@.1),
    {
        if let Some(mut p) = self.current_plan.take() {
            p.status = PlanStatus::Executing;
            self.current_plan = Some(p);
            self.move_step(index, StepStatus::Approved, StepStatus::Executing);
        }
    }

    /// Marks step `index` completed with its result; when every step is then
    /// in a final state, the plan is failed if a step failed, else completed.
    pub fn complete_step(&mut self, index: usize, result: Option<String>)
        ensures
            match old(self)@.0 {
                Some(p) => {
                    let ss = if index < p.2.len() {
                        p.2.update(index as int, (p.2[index as int].0, p.2[index as int].1, p.2[index as int].2, StepStatus::Completed, p.2[index as int].4, opt_chars(result)))
                    } else {
                        p.2
                    };
                    let st = if all_done(ss) {
                        if count_status(ss, ss.len() as int, StepStatus::Failed) > 0 {
                            PlanStatus::Failed
                        } else {
                            PlanStatus::Completed
                        }
                    } else {
                        p.3
                    };
                    final(self)@ == (Some((p.0, p.1, ss, st)), old(self)@.1)
                },
                None => final(self)@ == old(self)@,
            },
    {
        if let Some(mut p) = self.current_plan.take() {
            if index < p.steps.len() {
                let mut c = p.steps[index].copy();
                c.status = StepStatus::Completed;
                c.result = result;
                replace_step(&mut p.steps, index, c);
            }
            if p.is_done() {
                p.status = if p.count_by_status(StepStatus::Failed) > 0 {
                    PlanStatus::Failed
                } else {
                    PlanStatus::Completed
                };
            }
            self.current_plan = Some(p);
        }
    }

    /// Marks step `index` failed with the error.
    pub fn fail_step(&mut self, index: usize, error: String)
        ensures
            final(self)@ == (match old(self)@.0 {
                Some(p) => Some(if index < p.2.len() {
                    (p.0, p.1, p.2.update(index as int, (p.2[index as int].0, p.2[index as int].1, p.2[index as int].2, StepStatus::Failed, p.2[index as int].4, Some(error@))), p.3)
                } else {
                    p
                }),
                None => None,
            }, old(self)@.1),
    {
        if let Some(mut p) = self.current_plan.take() {
            if index < p.steps.len() {
                let mut c = p.steps[index].copy();
                c.status = StepStatus::Failed;
                c.result = Some(error);
                replace_step(&mut p.steps, index, c);
            }
            self.current_plan = Some(p);
        }
    }

    /// Completes every approved step of the current plan, giving back their
    /// indices in order; the plan's own state is left as it is.
    pub fn complete_approved_steps(&mut self) -> (r: Vec<usize>)
        ensures
            match old(self)@.0 {
                Some(p) => final(self)@ == (Some((p.0, p.1, complete_approved(p.2), p.3)), old(self)@.1)
                    && r@ == approved_indices(p.2, p.2.len() as int),
                None => final(self)@ == old(self)@ && r@.len() == 0,
            },
    {
        let mut r: Vec<usize> = Vec::new();
        if let Some(mut p) = self.current_plan.take() {
            let ghost ss = step_views(p.steps@);
            let ghost pv = p@;
            let n = p.steps.len();
            let mut i: usize = 0;
            while i < n
                invariant
                    n == ss.len(),
                    p.steps@.len() == n,
                    p@.0 == pv.0,
                    p@.1 == pv.1,
                    p@.3 == pv.3,
                    pv.2 == ss,
                    i <= n,
                    step_views(p.steps@) == complete_approved(ss.take(i as int)) + ss.skip(i as int),
                    r@ == approved_indices(ss, i as int),
                decreases n - i,
            {
                proof {
                    assert(step_views(p.steps@)[i as int] == ss[i as int]);
                }
                if p.steps[i].status == StepStatus::Approved {
                    let mut c = p.steps[i].copy();
                    c.status = StepStatus::Completed;
                    replace_step(&mut p.steps, i, c);
                    r.push(i);
                }
                proof {
                    assert(complete_approved(ss.take(i + 1)) + ss.skip(i + 1) =~= step_views(p.steps@));
                    assert(ss.take(i + 1).drop_last() =~= ss.take(i as int));
                }
                i = i + 1;
            }
            assert(ss.take(n as int) =~= ss);
            assert(complete_approved(ss) + ss.skip(n as int) =~= complete_approved(ss));
            self.current_plan = Some(p);
        }
        r
    }

    /// The approved steps of the current plan, with their indices, in order.
    pub fn approved_steps(&self) -> (r: Vec<(usize, Step)>)
        ensures
            match self@.0 {
                Some(p) => {
                    &&& r@.len() == count_status(p.2, p.2.len() as int, StepStatus::Approved)
                    &&& forall|k: int| 0 <= k < r@.len() ==> #[trigger] r@[k].0 < p.2.len()
                        && p.2[r@[k].0 as int] == r@[k].1@ && r@[k].1@.3 == StepStatus::Approved
                    &&& forall|k: int, l: int| 0 <= k < l < r@.len() ==> #[trigger] r@[k].0 < #[trigger] r@[l].0
                },
                None => r@.len() == 0,
            },
    {
        let mut r: Vec<(usize, Step)> = Vec::new();
        match &self.current_plan {
            Some(p) => {
                let ghost ss = step_views(p.steps@);
                let mut i: usize = 0;
                while i < p.steps.len()
                    invariant
                        ss == step_views(p.steps@),
                        i <= p.steps@.len(),
                        r@.len() == count_status(ss, i as int, StepStatus::Approved),
                        forall|k: int| 0 <= k < r@.len() ==> (#[trigger] r@[k]).0 < i,
                        forall|k: int| 0 <= k < r@.len() ==> ss[(#[trigger] r@[k]).0 as int] == r@[k].1@,
                        forall|k: int| 0 <= k < r@.len() ==> (#[trigger] r@[k]).1@.3 == StepStatus::Approved,
                        forall|k: int, l: int| 0 <= k < l < r@.len() ==> (#[trigger] r@[k]).0 < (#[trigger] r@[l]).0,
                    decreases p.steps@.len() - i,
                {
                    assert(ss[i as int] == p.steps@[i as int]@);
                    if p.steps[i].status == StepStatus::Approved {
                        let c = p.steps[i].copy();
                        let ghost cv = c@;
                        let ghost before = r@;
                        r.push((i, c));
                        proof {
                            assert(cv == ss[i as int]);
                            assert(cv.3 == StepStatus::Approved);
                            assert(r@[r@.len() - 1].0 == i && r@[r@.len() - 1].1@ == cv);
                            assert forall|k: int| 0 <= k < r@.len() implies (#[trigger] r@[k]).0 < i + 1
                                && ss[r@[k].0 as int] == r@[k].1@ && r@[k].1@.3 == StepStatus::Approved by {
                                if k < r@.len() - 1 {
                                    assert(r@[k] == before[k]);
                                    assert(before[k].0 < i);
                                }
                            }
                            assert forall|k: int, l: int| 0 <= k < l < r@.len() implies (#[trigger] r@[k]).0 < (#[trigger] r@[l]).0 by {
                                if l < r@.len() - 1 {
                                    assert(r@[k] == before[k]);
                                    assert(r@[l] == before[l]);
                                } else {
                                    assert(r@[k] == before[k]);
                                    assert(before[k].0 < i);
                                }
                            }
                        }
                    }
                    i = i + 1;
                }
            },
            None => {},
        }
        r
    }

    /// The diff shown for step `index` of the current plan, if any.
    pub fn generate_diff(&self, index: usize) -> (r: Option<String>)
        ensures
            opt_chars(r) == match self@.0 {
                Some(p) => if index < p.2.len() {
                    diff_summary_spec(p.2[index as int])
                } else {
                    None
                },
                None => None,
            },
    {
        match &self.current_plan {
            Some(p) => if index < p.steps.len() {
                p.steps[index].diff_summary()
            } else {
                None
            },
            None => None,
        }
    }
}

impl Default for PlanManager {
    fn default() -> (r: PlanManager)
        ensures
            r@ == (None::<PlanView>, Seq::<PlanView>::empty()),
    {
        PlanManager::new()
    }
}

impl PlanManager {
    /// The lines that show the current plan: its summary, a blank line, each
    /// step numbered from one with the lines of its diff indented under it,
    /// and, when every step is final, a blank line and how the plan ended;
    /// or two lines saying there is no plan.
    pub fn format_for_display(&self) -> (r: Vec<String>)
        ensures
            r@.map_values(|x: String| x@) == display_spec(self@),
    {
        let mut out: Vec<String> = Vec::new();
        match &self.current_plan {
            Some(p) => {
                let ghost ss = p@.2;
                out.push(p.display_summary());
                out.push(String::new());
                let mut i: usize = 0;
                proof {
                    assert(out@.map_values(|x: String| x@) =~= seq![summary_line(p@), Seq::<char>::empty()] + step_lines(ss, 0));
                }
                while i < p.steps.len()
                    invariant
                        ss == p@.2,
                        ss.len() == p.steps@.len(),
                        i <= p.steps@.len(),
                        out@.map_values(|x: String| x@) == seq![summary_line(p@), Seq::<char>::empty()] + step_lines(ss, i as int),
                    decreases p.steps@.len() - i,
                {
                    let step = &p.steps[i];
                    assert(ss[i as int] == step@);
                    let ghost before = out@.map_values(|x: String| x@);
                    let mut l = "  ".to_owned();
                    append_str(&mut l, dec(i + 1).as_str());
                    append_str(&mut l, ". ");
                    append_str(&mut l, step.display_line().as_str());
                    out.push(l);
                    let ghost mid = out@.map_values(|x: String| x@);
                    assert(mid =~= before.push(l@));
                    match &step.diff_preview {
                        Some(d) => {
                            let dv = crate::text::chars_of(d.as_str());
                            let ls = lines_chars(dv.as_slice());
                            let ghost gl = lines(d@);
                            let mut k: usize = 0;
                            while k < ls.len()
                                invariant
                                    ls@.len() == gl.len(),
                                    forall|q: int| 0 <= q < ls@.len() ==> #[trigger] ls@[q]@ == gl[q],
                                    k <= ls@.len(),
                                    out@.map_values(|x: String| x@) == mid + gl.take(k as int).map_values(|x: Seq<char>| "     | "@ + x),
                                decreases ls@.len() - k,
                            {
                                let mut dl = "     | ".to_owned();
                                append_str(&mut dl, string_of(ls[k].as_slice()).as_str());
                                let ghost b2 = out@.map_values(|x: String| x@);
                                out.push(dl);
                                proof {
                                    assert(out@.map_values(|x: String| x@) =~= b2.push(dl@));
                                    assert(gl.take(k + 1).map_values(|x: Seq<char>| "     | "@ + x) =~= gl.take(k as int).map_values(|x: Seq<char>| "     | "@ + x).push("     | "@ + gl[k as int]));
                                }
                                k = k + 1;
                            }
                            proof {
                                assert(gl.take(gl.len() as int) =~= gl);
                                assert(out@.map_values(|x: String| x@) =~= seq![summary_line(p@), Seq::<char>::empty()] + step_lines(ss, i + 1));
                            }
                        },
                        None => {
                            proof {
                                assert(out@.map_values(|x: String| x@) =~= seq![summary_line(p@), Seq::<char>::empty()] + step_lines(ss, i + 1));
                            }
                        },
                    }
                    i = i + 1;
                }
                if p.is_done() {
                    out.push(String::new());
                    let last = match p.status {
                        PlanStatus::Completed => "✓ Plan completed successfully.".to_owned(),
                        PlanStatus::Failed => "✕ Plan failed.".to_owned(),
                        _ => String::new(),
                    };
                    out.push(last);
                }
                proof {
                    assert(out@.map_values(|x: String| x@) =~= display_spec(self@));
                }
            },
            None => {
                out.push("No active plan.".to_owned());
                out.push("Plans, approvals, and execution checkpoints.".to_owned());
                assert(out@.map_values(|x: String| x@) =~= display_spec(self@));
            },
        }
        out
    }
}

} // verus!
