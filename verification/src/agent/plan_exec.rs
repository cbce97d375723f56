//! Execution plans: drafted, submitted, approved or rejected, and run only
//! once approved.
use crate::agent::agent_core::{tool_output, ToolResult};
use crate::agent::agent_loop::{call_views, copy_call, ToolCall, ToolCallView};
use crate::text::append_str;
use vstd::prelude::*;

verus! {

/// The state of an execution plan or of one of its steps.
#[derive(Debug, Clone, Copy, PartialEq, Eq, Structural)]
pub enum PlanStatus {
    Draft,
    AwaitingApproval,
    Approved,
    Rejected,
    Executing,
    Done,
}

/// One step: what it does, the tool calls it makes, and its state.
#[derive(Debug, Clone)]
pub struct PlanStep {
    pub description: String,
    pub tool_calls: Vec<ToolCall>,
    pub status: PlanStatus,
}

/// An execution plan: its steps and its state.
#[derive(Debug, Clone)]
pub struct ExecutionPlan {
    pub steps: Vec<PlanStep>,
    pub status: PlanStatus,
}

/// The tool calls of the first `n` steps, in order.
pub open spec fn all_calls(s: Seq<PlanStep>, n: int) -> Seq<ToolCallView>
    decreases n,
{
    if n <= 0 {
        seq![]
    } else {
        all_calls(s, n - 1) + call_views(s[n - 1].tool_calls@)
    }
}

impl PlanStep {
    /// A draft step.
    pub fn new(description: &str, tool_calls: Vec<ToolCall>) -> (r: PlanStep)
        ensures
            r.description@ == description@,
            r.tool_calls@ == tool_calls@,
            r.status == PlanStatus::Draft,
    {
        PlanStep { description: description.to_owned(), tool_calls, status: PlanStatus::Draft }
    }
}

fn set_all(steps: &mut Vec<PlanStep>, st: PlanStatus)
    ensures
        final(steps)@.len() == old(steps)@.len(),
        forall|i: int| 0 <= i < final(steps)@.len() ==> (#[trigger] final(steps)@[i]).status == st
            && final(steps)@[i].description == old(steps)@[i].description
            && final(steps)@[i].tool_calls == old(steps)@[i].tool_calls,
{
    let mut i: usize = 0;
    while i < steps.len()
        invariant
            steps@.len() == old(steps)@.len(),
            i <= steps@.len(),
            forall|j: int| 0 <= j < steps@.len() ==> (#[trigger] steps@[j]).description == old(steps)@[j].description
                && steps@[j].tool_calls == old(steps)@[j].tool_calls,
            forall|j: int| 0 <= j < i ==> (#[trigger] steps@[j]).status == st,
        decreases steps@.len() - i,
    {
        let mut s = steps.remove(i);
        s.status = st;
        steps.insert(i, s);
        i = i + 1;
    }
}

impl ExecutionPlan {
    /// A draft plan.
    pub fn draft(steps: Vec<PlanStep>) -> (r: ExecutionPlan)
        ensures
            r.steps@ == steps@,
            r.status == PlanStatus::Draft,
    {
        ExecutionPlan { steps, status: PlanStatus::Draft }
    }

    /// The plan put up for approval.
    pub fn submit(self) -> (r: ExecutionPlan)
        ensures
            r.steps@ == self.steps@,
            r.status == PlanStatus::AwaitingApproval,
    {
        let mut p = self;
        p.status = PlanStatus::AwaitingApproval;
        p
    }

    /// Approves a plan awaiting approval, and all its steps; a plan in any
    /// other state is left as it is.
    pub fn approve(&mut self)
        ensures
            old(self).status == PlanStatus::AwaitingApproval ==> final(self).status == PlanStatus::Approved
                && final(self).steps@.len() == old(self).steps@.len()
                && forall|i: int| 0 <= i < final(self).steps@.len() ==> (#[trigger] final(self).steps@[i]).status
                    == PlanStatus::Approved && final(self).steps@[i].tool_calls == old(self).steps@[i].tool_calls
                    && final(self).steps@[i].description == old(self).steps@[i].description,
            old(self).status != PlanStatus::AwaitingApproval ==> *final(self) == *old(self),
    {
        if self.status == PlanStatus::AwaitingApproval {
            self.status = PlanStatus::Approved;
            set_all(&mut self.steps, PlanStatus::Approved);
        }
    }

    /// Rejects a plan awaiting approval, and all its steps; a plan in any
    /// other state is left as it is.
    pub fn reject(&mut self)
        ensures
            old(self).status == PlanStatus::AwaitingApproval ==> final(self).status == PlanStatus::Rejected
                && final(self).steps@.len() == old(self).steps@.len()
                && forall|i: int| 0 <= i < final(self).steps@.len() ==> (#[trigger] final(self).steps@[i]).status
                    == PlanStatus::Rejected && final(self).steps@[i].tool_calls == old(self).steps@[i].tool_calls
                    && final(self).steps@[i].description == old(self).steps@[i].description,
            old(self).status != PlanStatus::AwaitingApproval ==> *final(self) == *old(self),
    {
        if self.status == PlanStatus::AwaitingApproval {
            self.status = PlanStatus::Rejected;
            set_all(&mut self.steps, PlanStatus::Rejected);
        }
    }

    /// Starts running an approved plan: it becomes executing and its tool
    /// calls, step by step, are handed out to be run.  Any other plan does
    /// not run and is left as it is.
    pub fn start_execution(&mut self) -> (r: Option<Vec<ToolCall>>)
        ensures
            r is Some <==> old(self).status == PlanStatus::Approved,
            r matches Some(calls) ==> call_views(calls@) == all_calls(old(self).steps@, old(self).steps@.len() as int)
                && final(self).status == PlanStatus::Executing && final(self).steps@ == old(self).steps@,
            r is None ==> *final(self) == *old(self),
    {
        if self.status != PlanStatus::Approved {
            return None;
        }
        self.status = PlanStatus::Executing;
        let mut calls: Vec<ToolCall> = Vec::new();
        let mut i: usize = 0;
        assert(call_views(calls@) =~= seq![]);
        while i < self.steps.len()
            invariant
                i <= self.steps@.len(),
                call_views(calls@) == all_calls(self.steps@, i as int),
            decreases self.steps@.len() - i,
        {
            let mut k: usize = 0;
            let ghost base = call_views(calls@);
            while k < self.steps[i].tool_calls.len()
                invariant
                    i < self.steps@.len(),
                    k <= self.steps@[i as int].tool_calls@.len(),
                    call_views(calls@) == base + call_views(self.steps@[i as int].tool_calls@).take(k as int),
                decreases self.steps@[i as int].tool_calls@.len() - k,
            {
                let c = copy_call(&self.steps[i].tool_calls[k]);
                let ghost b = call_views(calls@);
                calls.push(c);
                proof {
                    assert(call_views(calls@) =~= b.push(c@));
                    assert(call_views(self.steps@[i as int].tool_calls@).take(k + 1) =~= call_views(
                        self.steps@[i as int].tool_calls@,
                    ).take(k as int).push(self.steps@[i as int].tool_calls@[k as int]@));
                }
                k = k + 1;
            }
            proof {
                assert(call_views(self.steps@[i as int].tool_calls@).take(
                    self.steps@[i as int].tool_calls@.len() as int,
                ) =~= call_views(self.steps@[i as int].tool_calls@));
            }
            i = i + 1;
        }
        Some(calls)
    }

    /// Runs an approved plan: every tool call of every step, in order, and
    /// the plan and its steps end done.  Any other plan does not run, gives
    /// no result and is left as it is.
    pub fn execute(&mut self) -> (r: Vec<ToolResult>)
        ensures
            old(self).status != PlanStatus::Approved ==> r@.len() == 0 && *final(self) == *old(self),
            old(self).status == PlanStatus::Approved ==> {
                let calls = all_calls(old(self).steps@, old(self).steps@.len() as int);
                &&& final(self).status == PlanStatus::Done
                &&& final(self).steps@.len() == old(self).steps@.len()
                &&& forall|i: int| 0 <= i < final(self).steps@.len() ==> (#[trigger] final(self).steps@[i]).status == PlanStatus::Done
                &&& r@.len() == calls.len()
                &&& forall|k: int| 0 <= k < r@.len() ==> (#[trigger] r@[k]).call_id@ == calls[k].0
                    && r@[k].output@ == tool_output(calls[k].1, calls[k].2) && r@[k].error is None
            },
    {
        match self.start_execution() {
            None => Vec::new(),
            Some(calls) => {
                let mut results: Vec<ToolResult> = Vec::new();
                let mut k: usize = 0;
                while k < calls.len()
                    invariant
                        k <= calls@.len(),
                        results@.len() == k,
                        forall|j: int| 0 <= j < k ==> (#[trigger] results@[j]).call_id@ == calls@[j].id@
                            && results@[j].output@ == tool_output(calls@[j].name@, calls@[j].arguments@) && results@[j].error is None,
                    decreases calls@.len() - k,
                {
                    let c = &calls[k];
                    let mut out = "tool ".to_owned();
                    append_str(&mut out, c.name.as_str());
                    append_str(&mut out, " executed with ");
                    append_str(&mut out, c.arguments.as_str());
                    results.push(ToolResult { call_id: c.id.clone(), output: out, error: None });
                    k = k + 1;
                }
                self.finish_execution();
                results
            },
        }
    }

    /// Ends a run: every step and the plan are done.
    pub fn finish_execution(&mut self)
        ensures
            final(self).status == PlanStatus::Done,
            final(self).steps@.len() == old(self).steps@.len(),
            forall|i: int| 0 <= i < final(self).steps@.len() ==> (#[trigger] final(self).steps@[i]).status
                == PlanStatus::Done && final(self).steps@[i].tool_calls == old(self).steps@[i].tool_calls,
    {
        set_all(&mut self.steps, PlanStatus::Done);
        self.status = PlanStatus::Done;
    }
}

} // verus!
