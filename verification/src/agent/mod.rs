//! The agent side of the workbench: providers, plans, context compaction,
//! the conversation loop and version-control helpers.
pub mod agent_core;
pub mod agent_loop;
pub mod bridge_client;
pub mod compaction;
pub mod git;
pub mod plan;
pub mod plan_exec;
pub mod plugins;
pub mod providers;
pub mod subagent;
pub mod subagents;
use vstd::prelude::*;

use crate::agent::agent_loop::Message;
use crate::agent::bridge_client::{default_system_prompt, user_message, PromptParams, system_prompt_text};
use crate::agent::compaction::{total_tokens, CompactionManager};
use crate::agent::agent_loop::{message_views, ToolCallView};
use crate::agent::plan::{
    approved_indices, complete_approved, settle_pending, step_views, ManagerView, PlanManager, PlanStatus, PlanView, Step, StepStatus, StepView,
};
use crate::env::EnvVars;
use crate::text::append_str;

verus! {

/// The settings of an agent run.
#[derive(Debug, Clone)]
pub struct AgentConfig {
    pub model: String,
    pub max_turns: usize,
    pub context_window_tokens: usize,
    pub bridge_command: String,
    pub max_subagents: usize,
    pub db_path: String,
}

/// The bridge command used when `PI_BRIDGE_COMMAND` is unset: a stand-in that
/// answers one request.
pub open spec fn mock_bridge_command() -> Seq<char> {
    "echo '{\"jsonrpc\":\"2.0\",\"id\":1,\"result\":\"mock\"}'"@
}

/// The session database path when `PI_SESSION_DB` is unset.
pub open spec fn default_session_db(env: EnvVars) -> Seq<char> {
    match env.spec_get("HOME"@) {
        Some(h) => h + "/.pi-hybrid/sessions.db"@,
        None => ".pi-hybrid/sessions.db"@,
    }
}

impl AgentConfig {
    /// The default settings for `model`, with the bridge command and the
    /// database path taken from the environment where it sets them.
    pub fn defaults(env: &EnvVars, model: &str) -> (r: AgentConfig)
        ensures
            r.model@ == model@,
            r.max_turns == 50,
            r.context_window_tokens == 200_000,
            r.bridge_command@ == match env.spec_get("PI_BRIDGE_COMMAND"@) {
                Some(c) => c,
                None => mock_bridge_command(),
            },
            r.max_subagents == 8,
            r.db_path@ == match env.spec_get("PI_SESSION_DB"@) {
                Some(d) => d,
                None => default_session_db(*env),
            },
    {
        let bridge_command = match env.get("PI_BRIDGE_COMMAND") {
            Some(c) => c,
            None => "echo '{\"jsonrpc\":\"2.0\",\"id\":1,\"result\":\"mock\"}'".to_owned(),
        };
        let db_path = match env.get("PI_SESSION_DB") {
            Some(d) => d,
            None => match env.get("HOME") {
                Some(h) => {
                    let mut p = h;
                    append_str(&mut p, "/.pi-hybrid/sessions.db");
                    p
                },
                None => ".pi-hybrid/sessions.db".to_owned(),
            },
        };
        AgentConfig {
            model: model.to_owned(),
            max_turns: 50,
            context_window_tokens: 200_000,
            bridge_command,
            max_subagents: 8,
            db_path,
        }
    }
}

/// What the interface asks of the agent.
#[derive(Debug, Clone)]
pub enum AgentInput {
    /// The user typed a prompt and pressed Enter.
    UserPrompt(String),
    /// The user approved the plan.
    ApprovePlan,
    /// The user rejected the plan.
    RejectPlan,
    /// The user wants to edit the plan.
    EditPlan,
    /// Cancel the current operation.
    Cancel,
    /// Start a subagent on a goal.
    SpawnSubagent { goal: String },
    /// Report the subagents.
    QuerySubagents,
    /// Stop the agent.
    Shutdown,
}

/// What a subagent is doing, as reported to the interface.
#[derive(Debug, Clone)]
pub struct SubagentInfo {
    pub id: String,
    pub goal: String,
    pub status: String,
    pub turns: usize,
}

/// What the agent tells the interface.
#[derive(Debug, Clone)]
pub enum AgentOutput {
    /// Text from the model.
    ResponseChunk(String),
    /// A plan is ready for review.
    PlanReady { steps: Vec<Step> },
    /// A plan step moved to a new state.
    StepExecuted { index: usize, status: StepStatus },
    /// The plan was approved and its execution started.
    PlanApproved,
    /// The plan was rejected.
    PlanRejected,
    /// A subagent finished.
    SubagentResult { id: String, goal: String, result: String },
    /// The subagents and what they are doing.
    SubagentStatus { agents: Vec<SubagentInfo> },
    /// Something went wrong.
    Error(String),
    /// A status message.
    Status { message: String },
    /// The agent is working on a turn.
    Thinking,
    /// The agent is idle.
    Idle,
    /// The diff a file-edit step would make.
    DiffPreview { step_index: usize, diff: String },
}

/// The agent's state as shown to the interface.
#[derive(Debug, Clone)]
pub struct AgentStatus {
    pub running: bool,
    pub model: String,
    pub max_turns: usize,
}

/// Whether `o` is a status message with text `m`.
pub open spec fn is_status(o: AgentOutput, m: Seq<char>) -> bool {
    o matches AgentOutput::Status { message } && message@ == m
}

/// The reports of executing the steps at `idx`: each moves to executing, then
/// to completed.
pub open spec fn execution_reports(outs: Seq<AgentOutput>, idx: Seq<usize>) -> bool {
    &&& outs.len() == 2 * idx.len()
    &&& forall|k: int| 0 <= k < idx.len() ==> (#[trigger] outs[2 * k] matches AgentOutput::StepExecuted { index, status } && index == idx[k] && status == StepStatus::Executing)
    &&& forall|k: int| 0 <= k < idx.len() ==> (#[trigger] outs[2 * k + 1] matches AgentOutput::StepExecuted { index, status } && index == idx[k] && status == StepStatus::Completed)
}

/// Whether a prompt, as the one user message, exceeds the context budget.
pub open spec fn prompt_overflows(prompt: Seq<char>, budget: usize) -> bool {
    total_tokens(seq![("user"@, prompt, None::<Seq<ToolCallView>>)]) > budget
}

/// Whether the manager holds a plan waiting for approval.
pub open spec fn pending_review(v: (Option<PlanView>, Seq<PlanView>)) -> bool {
    v.0 matches Some(p) && p.3 == PlanStatus::PendingApproval
}

/// Executes the approved steps of the current plan: each becomes completed,
/// and is reported as executing, then completed.
fn execute_plan(plan_mgr: &mut PlanManager) -> (r: Vec<AgentOutput>)
    ensures
        match old(plan_mgr)@.0 {
            Some(p) => {
                &&& final(plan_mgr)@ == (Some((p.0, p.1, complete_approved(p.2), p.3)), old(plan_mgr)@.1)
                &&& execution_reports(r@, approved_indices(p.2, p.2.len() as int))
            },
            None => final(plan_mgr)@ == old(plan_mgr)@ && r@.len() == 0,
        },
{
    let idx = plan_mgr.complete_approved_steps();
    let mut r: Vec<AgentOutput> = Vec::new();
    let mut k: usize = 0;
    while k < idx.len()
        invariant
            k <= idx@.len(),
            r@.len() == 2 * k,
            forall|j: int| 0 <= j < k ==> (#[trigger] r@[2 * j] matches AgentOutput::StepExecuted { index, status } && index == idx@[j] && status == StepStatus::Executing),
            forall|j: int| 0 <= j < k ==> (#[trigger] r@[2 * j + 1] matches AgentOutput::StepExecuted { index, status } && index == idx@[j] && status == StepStatus::Completed),
        decreases idx@.len() - k,
    {
        r.push(AgentOutput::StepExecuted { index: idx[k], status: StepStatus::Executing });
        r.push(AgentOutput::StepExecuted { index: idx[k], status: StepStatus::Completed });
        assert(r@[2 * (k as int)] == r@[2 * k]);
        k = k + 1;
    }
    r
}

/// What approving does to the plans `o`, giving `f` and the reports `r`: a
/// plan waiting for review is approved, its pending steps approved and then
/// completed, and the interface told so, step by step; without such a plan
/// nothing changes and the interface is told so.
pub open spec fn approval_done(o: ManagerView, f: ManagerView, r: Seq<AgentOutput>) -> bool {
    &&& pending_review(o) ==> {
        let p = o.0->Some_0;
        let approved = settle_pending(p.2, StepStatus::Approved);
        &&& f == (Some((p.0, p.1, complete_approved(approved), PlanStatus::Approved)), o.1)
        &&& r.len() >= 2
        &&& r[0] is PlanApproved
        &&& is_status(r[1], "Plan approved. Executing steps..."@)
        &&& execution_reports(r.skip(2), approved_indices(approved, approved.len() as int))
    }
    &&& !pending_review(o) ==> f == o && r.len() == 1 && is_status(r[0], "No plan pending approval"@)
}

/// What rejecting does to the plans `o`, giving `f` and the reports `r`: a
/// plan waiting for review is rejected, its pending steps with it, and moved
/// to the history; without such a plan nothing changes and the interface is
/// told so.
pub open spec fn rejection_done(o: ManagerView, f: ManagerView, r: Seq<AgentOutput>) -> bool {
    &&& pending_review(o) ==> {
        let p = o.0->Some_0;
        &&& f == (None::<PlanView>, o.1.push((p.0, p.1, settle_pending(p.2, StepStatus::Rejected), PlanStatus::Rejected)))
        &&& r.len() == 1
        &&& r[0] is PlanRejected
    }
    &&& !pending_review(o) ==> f == o && r.len() == 1 && is_status(r[0], "No plan pending approval"@)
}

/// Approves the plan waiting for review and executes its steps.  Without
/// such a plan nothing changes and the interface is told so.
pub fn approve_plan(plan_mgr: &mut PlanManager) -> (r: Vec<AgentOutput>)
    ensures
        approval_done(old(plan_mgr)@, final(plan_mgr)@, r@),
{
    let pending = match plan_mgr.current_plan() {
        Some(p) => p.status == PlanStatus::PendingApproval,
        None => false,
    };
    if pending {
        plan_mgr.approve();
        let mut r: Vec<AgentOutput> = Vec::new();
        r.push(AgentOutput::PlanApproved);
        r.push(AgentOutput::Status { message: "Plan approved. Executing steps...".to_owned() });
        let mut ex = execute_plan(plan_mgr);
        let ghost tail = ex@;
        r.append(&mut ex);
        assert(r@.skip(2) =~= tail);
        r
    } else {
        let mut r: Vec<AgentOutput> = Vec::new();
        r.push(AgentOutput::Status { message: "No plan pending approval".to_owned() });
        r
    }
}

/// Rejects the plan waiting for review.  Without such a plan nothing changes
/// and the interface is told so.
pub fn reject_plan(plan_mgr: &mut PlanManager) -> (r: Vec<AgentOutput>)
    ensures
        rejection_done(old(plan_mgr)@, final(plan_mgr)@, r@),
{
    let pending = match plan_mgr.current_plan() {
        Some(p) => p.status == PlanStatus::PendingApproval,
        None => false,
    };
    let mut r: Vec<AgentOutput> = Vec::new();
    if pending {
        plan_mgr.reject();
        r.push(AgentOutput::PlanRejected);
    } else {
        r.push(AgentOutput::Status { message: "No plan pending approval".to_owned() });
    }
    r
}

/// What the agent does next for an input.
pub enum AgentStep {
    /// Report these to the interface.
    Report(Vec<AgentOutput>),
    /// Run this prompt through the bridge.
    Prompt(String),
    /// Start a subagent on this goal.
    Spawn(String),
    /// Report the subagents.
    Query,
}

/// The agent's own state: its settings, the plan under review and the
/// context budget, and whether its loop runs.
#[derive(Debug)]
pub struct Agent {
    config: AgentConfig,
    plan_manager: PlanManager,
    compaction: CompactionManager,
    running: bool,
}

impl Agent {
    /// The settings.
    pub closed spec fn spec_config(&self) -> AgentConfig {
        self.config
    }

    /// The plans.
    pub closed spec fn spec_plans(&self) -> (Option<PlanView>, Seq<PlanView>) {
        self.plan_manager@
    }

    /// Whether the loop runs.
    pub closed spec fn spec_running(&self) -> bool {
        self.running
    }

    /// The context budget, in tokens.
    pub closed spec fn spec_budget(&self) -> usize {
        self.compaction@.0
    }

    /// An agent that is not yet running, with no plan and a context budget of
    /// the configured window.
    pub fn new(config: AgentConfig) -> (r: Agent)
        ensures
            r.spec_config() == config,
            r.spec_plans() == (None::<PlanView>, Seq::<PlanView>::empty()),
            !r.spec_running(),
            r.spec_budget() == config.context_window_tokens,
    {
        let compaction = CompactionManager::new(config.context_window_tokens);
        Agent { config, plan_manager: PlanManager::new(), compaction, running: false }
    }

    /// Starts the loop.
    pub fn start(&mut self) -> (r: AgentOutput)
        ensures
            final(self).spec_running(),
            is_status(r, "Agent started"@),
            final(self).spec_config() == old(self).spec_config(),
            final(self).spec_plans() == old(self).spec_plans(),
            final(self).spec_budget() == old(self).spec_budget(),
    {
        self.running = true;
        AgentOutput::Status { message: "Agent started".to_owned() }
    }

    /// Whether the loop runs.
    pub fn is_running(&self) -> (r: bool)
        ensures
            r == self.spec_running(),
    {
        self.running
    }

    /// The plans.
    pub fn plan_manager(&self) -> (r: &PlanManager)
        ensures
            r@ == self.spec_plans(),
    {
        &self.plan_manager
    }

    /// Puts a new plan up for review, archiving the previous one.
    pub fn propose_plan(&mut self, id: &str, title: &str, steps: Vec<Step>) -> (r: AgentOutput)
        ensures
            final(self).spec_plans() == (Some((id@, title@, step_views(steps@), PlanStatus::PendingApproval)), match old(self).spec_plans().0 {
                Some(p) => old(self).spec_plans().1.push(p),
                None => old(self).spec_plans().1,
            }),
            r matches AgentOutput::PlanReady { steps: s } && step_views(s@) == step_views(steps@),
            final(self).spec_running() == old(self).spec_running(),
            final(self).spec_config() == old(self).spec_config(),
            final(self).spec_budget() == old(self).spec_budget(),
    {
        let mut copies: Vec<Step> = Vec::new();
        let mut i: usize = 0;
        while i < steps.len()
            invariant
                i <= steps@.len(),
                copies@.len() == i,
                forall|k: int| 0 <= k < i ==> copies@[k]@ == steps@[k]@,
            decreases steps@.len() - i,
        {
            copies.push(steps[i].copy());
            i = i + 1;
        }
        assert(step_views(copies@) =~= step_views(steps@));
        self.plan_manager.create_plan(id, title, steps);
        self.plan_manager.submit_for_approval();
        AgentOutput::PlanReady { steps: copies }
    }

    /// What the loop does with the next input; no input means the channel
    /// closed.  Plan decisions, edits, cancellations and shutdown are settled
    /// here; prompts, subagents and queries are handed back to be run.
    pub fn handle_input(&mut self, input: Option<AgentInput>) -> (r: AgentStep)
        ensures
            final(self).spec_config() == old(self).spec_config(),
            final(self).spec_budget() == old(self).spec_budget(),
            match input {
                Some(AgentInput::UserPrompt(p)) => r matches AgentStep::Prompt(q) && q@ == p@
                    && final(self).spec_plans() == old(self).spec_plans()
                    && final(self).spec_running() == old(self).spec_running(),
                Some(AgentInput::ApprovePlan) => r matches AgentStep::Report(o)
                    && approval_done(old(self).spec_plans(), final(self).spec_plans(), o@)
                    && final(self).spec_running() == old(self).spec_running(),
                Some(AgentInput::RejectPlan) => r matches AgentStep::Report(o)
                    && rejection_done(old(self).spec_plans(), final(self).spec_plans(), o@)
                    && final(self).spec_running() == old(self).spec_running(),
                Some(AgentInput::EditPlan) => r matches AgentStep::Report(o) && o@.len() == 1
                    && is_status(o@[0], "Plan editing mode activated"@)
                    && final(self).spec_plans() == old(self).spec_plans()
                    && final(self).spec_running() == old(self).spec_running(),
                Some(AgentInput::Cancel) => r matches AgentStep::Report(o) && o@.len() == 1
                    && is_status(o@[0], "Operation cancelled"@)
                    && final(self).spec_plans() == old(self).spec_plans()
                    && final(self).spec_running() == old(self).spec_running(),
                Some(AgentInput::SpawnSubagent { goal }) => r matches AgentStep::Spawn(g) && g@ == goal@
                    && final(self).spec_plans() == old(self).spec_plans()
                    && final(self).spec_running() == old(self).spec_running(),
                Some(AgentInput::QuerySubagents) => r is Query
                    && final(self).spec_plans() == old(self).spec_plans()
                    && final(self).spec_running() == old(self).spec_running(),
                Some(AgentInput::Shutdown) | None => r matches AgentStep::Report(o) && o@.len() == 0
                    && final(self).spec_plans() == old(self).spec_plans()
                    && !final(self).spec_running(),
            },
    {
        match input {
            Some(AgentInput::UserPrompt(p)) => AgentStep::Prompt(p),
            Some(AgentInput::ApprovePlan) => AgentStep::Report(approve_plan(&mut self.plan_manager)),
            Some(AgentInput::RejectPlan) => AgentStep::Report(reject_plan(&mut self.plan_manager)),
            Some(AgentInput::EditPlan) => AgentStep::Report(
                vec![AgentOutput::Status { message: "Plan editing mode activated".to_owned() }],
            ),
            Some(AgentInput::Cancel) => AgentStep::Report(
                vec![AgentOutput::Status { message: "Operation cancelled".to_owned() }],
            ),
            Some(AgentInput::SpawnSubagent { goal }) => AgentStep::Spawn(goal),
            Some(AgentInput::QuerySubagents) => AgentStep::Query,
            Some(AgentInput::Shutdown) | None => {
                self.running = false;
                AgentStep::Report(Vec::new())
            },
        }
    }

    /// The message sent when the loop ends.
    pub fn stop(&mut self) -> (r: AgentOutput)
        ensures
            !final(self).spec_running(),
            is_status(r, "Agent stopped"@),
            final(self).spec_config() == old(self).spec_config(),
            final(self).spec_plans() == old(self).spec_plans(),
            final(self).spec_budget() == old(self).spec_budget(),
    {
        self.running = false;
        AgentOutput::Status { message: "Agent stopped".to_owned() }
    }

    /// The first part of a prompt: the interface is told the agent thinks,
    /// and that the context is being compacted when the prompt alone exceeds
    /// the budget; the request for the bridge carries the model, the prompt
    /// as the one user message and the default system prompt.
    pub fn begin_prompt(&self, prompt: &str) -> (r: (Vec<AgentOutput>, PromptParams))
        ensures
            r.0@.len() == if prompt_overflows(prompt@, self.spec_budget()) {
                2int
            } else {
                1int
            },
            r.0@[0] is Thinking,
            prompt_overflows(prompt@, self.spec_budget()) ==> is_status(r.0@[1], "Compacting context..."@),
            r.1.model@ == self.spec_config().model@,
            r.1.messages@.len() == 1,
            r.1.messages@[0].role@ == "user"@,
            r.1.messages@[0].content@ == prompt@,
            r.1.system matches Some(s) && s@ == system_prompt_text(),
            r.1.max_tokens is None,
            r.1.tools is None,
    {
        let mut outs: Vec<AgentOutput> = Vec::new();
        outs.push(AgentOutput::Thinking);
        let conversation = vec![Message { role: "user".to_owned(), content: prompt.to_owned(), tool_calls: None }];
        assert(message_views(conversation@) =~= seq![("user"@, prompt@, None::<Seq<ToolCallView>>)]);
        if self.compaction.needs_compaction(conversation.as_slice()) {
            outs.push(AgentOutput::Status { message: "Compacting context...".to_owned() });
        }
        let params = PromptParams {
            model: self.config.model.clone(),
            messages: vec![user_message(prompt)],
            system: Some(default_system_prompt()),
            max_tokens: None,
            tools: None,
        };
        (outs, params)
    }

    /// The state shown to the interface.
    pub fn get_status(&self) -> (r: AgentStatus)
        ensures
            r.running == self.spec_running(),
            r.model@ == self.spec_config().model@,
            r.max_turns == self.spec_config().max_turns,
    {
        AgentStatus { running: self.running, model: self.config.model.clone(), max_turns: self.config.max_turns }
    }
}

/// The last part of a prompt: the bridge's answer, or its error, then idle.
pub fn finish_prompt(result: Result<String, String>) -> (r: Vec<AgentOutput>)
    ensures
        r@.len() == 2,
        match result {
            Ok(c) => r@[0] matches AgentOutput::ResponseChunk(t) && t@ == c@,
            Err(e) => r@[0] matches AgentOutput::Error(t) && t@ == e@,
        },
        r@[1] is Idle,
{
    let first = match result {
        Ok(c) => AgentOutput::ResponseChunk(c),
        Err(e) => AgentOutput::Error(e),
    };
    vec![first, AgentOutput::Idle]
}

/// The message reported once a subagent was started.
pub fn spawned_status(agent_id: &str, goal: &str) -> (r: AgentOutput)
    ensures
        is_status(r, "Subagent spawned: "@ + agent_id@ + " — "@ + goal@),
{
    let mut m = "Subagent spawned: ".to_owned();
    append_str(&mut m, agent_id);
    append_str(&mut m, " — ");
    append_str(&mut m, goal);
    AgentOutput::Status { message: m }
}

} // verus!
