//! Subagents: the roster of running subagents with its capacity, and the
//! steps one subagent takes in answer to the commands and signals it receives.
use vstd::prelude::*;

use crate::agent::{AgentOutput, SubagentInfo};
use crate::text::{append_str, decimal, decimal_chars, str_eq, string_of};

verus! {

/// The number of turns a subagent may take.
pub const SUBAGENT_MAX_TURNS: usize = 20;

/// What a subagent is doing.
#[derive(Debug, Clone, Copy, PartialEq, Eq, Structural)]
pub enum SubagentStatus {
    Idle,
    Running,
    Completed,
    Failed,
    Cancelled,
}

/// The name shown for a subagent status.
pub open spec fn subagent_status_name(s: SubagentStatus) -> Seq<char> {
    match s {
        SubagentStatus::Idle => "idle"@,
        SubagentStatus::Running => "running"@,
        SubagentStatus::Completed => "completed"@,
        SubagentStatus::Failed => "failed"@,
        SubagentStatus::Cancelled => "cancelled"@,
    }
}

impl SubagentStatus {
    /// The name shown for the status.
    pub fn as_str(&self) -> (r: &'static str)
        ensures
            r@ == subagent_status_name(*self),
    {
        match self {
            SubagentStatus::Idle => "idle",
            SubagentStatus::Running => "running",
            SubagentStatus::Completed => "completed",
            SubagentStatus::Failed => "failed",
            SubagentStatus::Cancelled => "cancelled",
        }
    }
}

/// The state of a subagent.
#[derive(Debug, Clone)]
pub struct SubagentState {
    pub id: String,
    pub goal: String,
    pub status: SubagentStatus,
    pub turns: usize,
    pub result: Option<String>,
}

/// Two states that hold the same values.
pub open spec fn same_state(a: SubagentState, b: SubagentState) -> bool {
    &&& a.id@ == b.id@
    &&& a.goal@ == b.goal@
    &&& a.status == b.status
    &&& a.turns == b.turns
    &&& match (a.result, b.result) {
        (Some(x), Some(y)) => x@ == y@,
        (None, None) => true,
        _ => false,
    }
}

impl SubagentState {
    /// A copy of the state.
    pub fn copy(&self) -> (r: SubagentState)
        ensures
            same_state(r, *self),
    {
        SubagentState {
            id: self.id.clone(),
            goal: self.goal.clone(),
            status: self.status,
            turns: self.turns,
            result: match &self.result {
                Some(x) => Some(x.clone()),
                None => None,
            },
        }
    }
}

/// Whether `s` has the shape of a written UUID: 36 characters, hyphens at positions
/// 8, 13, 18 and 23, lower-case hexadecimal digits everywhere else.
pub open spec fn uuid_shaped(s: Seq<char>) -> bool {
    &&& s.len() == 36
    &&& forall|i: int| 0 <= i < 36 ==> if i == 8 || i == 13 || i == 18 || i == 23 {
        s[i] == '-'
    } else {
        ('0' <= #[trigger] s[i] <= '9') || ('a' <= s[i] <= 'f')
    }
}

/// A fresh subagent id: `uuid::Uuid::new_v4` written out with `to_string`,
/// a random UUID in its hyphenated lower-case form.  Which id comes out is
/// left open; its shape is what the `uuid` source writes.
#[verifier::external_body]
fn fresh_id() -> (r: String)
    ensures
        uuid_shaped(r@),
{
    uuid::Uuid::new_v4().to_string()
}

/// Whether no two subagents share an id.
pub open spec fn ids_distinct(s: Seq<SubagentState>) -> bool {
    forall|i: int, j: int| 0 <= i < j < s.len() ==> s[i].id@ != s[j].id@
}

/// The position of the subagent with id `id`, if one is.
pub open spec fn position(s: Seq<SubagentState>, id: Seq<char>) -> Option<int>
    decreases s.len(),
{
    if s.len() == 0 {
        None
    } else if s.last().id@ == id {
        Some(s.len() - 1)
    } else {
        position(s.drop_last(), id)
    }
}

/// `position` names a subagent with that id, and finds one whenever there is one.
pub proof fn lemma_position(s: Seq<SubagentState>, id: Seq<char>)
    ensures
        position(s, id) matches Some(i) ==> 0 <= i < s.len() && s[i].id@ == id,
        position(s, id) is None ==> forall|i: int| 0 <= i < s.len() ==> s[i].id@ != id,
    decreases s.len(),
{
    if s.len() > 0 && s.last().id@ != id {
        lemma_position(s.drop_last(), id);
        assert forall|i: int| 0 <= i < s.len() - 1 implies s[i] == s.drop_last()[i] by {}
    }
}

/// Cancelling a subagent takes it off the roster for good: once the one
/// subagent with that id is removed, a second cancel or a query finds none.
pub proof fn lemma_cancel_twice(s: Seq<SubagentState>, id: Seq<char>)
    requires
        ids_distinct(s),
    ensures
        match position(s, id) {
            Some(i) => position(s.remove(i), id) is None,
            None => true,
        },
{
    lemma_position(s, id);
    if let Some(i) = position(s, id) {
        let t = s.remove(i);
        lemma_position(t, id);
        if let Some(j) = position(t, id) {
            if j < i {
                assert(t[j] == s[j]);
                assert(s[j].id@ != s[i].id@);
            } else {
                assert(t[j] == s[j + 1]);
                assert(s[i].id@ != s[j + 1].id@);
            }
        }
    }
}

/// In a roster with distinct ids, `position` finds the one subagent with that id.
pub proof fn lemma_position_unique(s: Seq<SubagentState>, id: Seq<char>, k: int)
    requires
        ids_distinct(s),
        0 <= k < s.len(),
        s[k].id@ == id,
    ensures
        position(s, id) == Some(k),
{
    lemma_position(s, id);
    if let Some(i) = position(s, id) {
        if i < k {
            assert(s[i].id@ != s[k].id@);
        } else if i > k {
            assert(s[k].id@ != s[i].id@);
        }
    }
}

/// The error reported when the roster is full.
pub open spec fn capacity_text(max: nat) -> Seq<char> {
    "Maximum subagents ("@ + decimal(max) + ") reached. Cannot spawn new agent."@
}

/// The subagents that run, at most a fixed number of them, one per id.
#[derive(Debug)]
pub struct SubagentManager {
    max_concurrent: usize,
    agents: Vec<SubagentState>,
}

impl SubagentManager {
    #[verifier::type_invariant]
    spec fn well_formed(self) -> bool {
        &&& ids_distinct(self.agents@)
        &&& self.max_concurrent >= 1
    }

    /// The number of subagents that may run at once.
    pub closed spec fn spec_max(&self) -> nat {
        self.max_concurrent as nat
    }

    /// The subagents that run.
    pub closed spec fn spec_agents(&self) -> Seq<SubagentState> {
        self.agents@
    }

    /// A roster allowing `max_concurrent` subagents, and at least one.
    pub fn new(max_concurrent: usize) -> (r: SubagentManager)
        ensures
            r.spec_max() == if max_concurrent >= 1 {
                max_concurrent as nat
            } else {
                1nat
            },
            r.spec_agents().len() == 0,
    {
        let m = if max_concurrent >= 1 {
            max_concurrent
        } else {
            1
        };
        SubagentManager { max_concurrent: m, agents: Vec::new() }
    }

    /// The number of subagents that may run at once.
    pub fn max_concurrent(&self) -> (r: usize)
        ensures
            r == self.spec_max(),
    {
        self.max_concurrent
    }

    fn find(&self, id: &str) -> (r: Option<usize>)
        ensures
            match r {
                Some(i) => position(self.spec_agents(), id@) == Some(i as int),
                None => position(self.spec_agents(), id@) is None,
            },
    {
        let ghost s = self.agents@;
        let mut k: usize = self.agents.len();
        assert(s.take(s.len() as int) =~= s);
        while k > 0
            invariant
                s == self.agents@,
                k <= s.len(),
                position(s, id@) == position(s.take(k as int), id@),
            decreases k,
        {
            assert(s.take(k as int).drop_last() =~= s.take(k - 1));
            if str_eq(self.agents[k - 1].id.as_str(), id) {
                return Some(k - 1);
            }
            k = k - 1;
        }
        None
    }

    /// Enrolls a subagent on `goal` under a fresh random id, as `enroll`
    /// does, and gives the id with `enroll`'s answer.
    pub fn spawn(&mut self, goal: &str) -> (r: (String, Result<(), AgentOutput>))
        ensures
            uuid_shaped(r.0@),
            final(self).spec_max() == old(self).spec_max(),
            old(self).spec_agents().len() >= old(self).spec_max() ==> match r.1 {
                Err(AgentOutput::Error(e)) => e@ == capacity_text(old(self).spec_max())
                    && final(self).spec_agents() == old(self).spec_agents(),
                _ => false,
            },
            old(self).spec_agents().len() < old(self).spec_max() ==> r.1 is Ok && {
                let fresh = final(self).spec_agents()[position(final(self).spec_agents(), r.0@)->Some_0];
                &&& fresh.id@ == r.0@ && fresh.goal@ == goal@ && fresh.status == SubagentStatus::Running
                    && fresh.turns == 0 && fresh.result is None
                &&& position(final(self).spec_agents(), r.0@) is Some
                &&& final(self).spec_agents() == match position(old(self).spec_agents(), r.0@) {
                    Some(i) => old(self).spec_agents().update(i, fresh),
                    None => old(self).spec_agents().push(fresh),
                }
            },
            ids_distinct(final(self).spec_agents()),
            old(self).spec_agents().len() <= old(self).spec_max() ==> final(self).spec_agents().len() <= final(self).spec_max(),
    {
        let id = fresh_id();
        let answer = self.enroll(id.as_str(), goal);
        (id, answer)
    }

    /// Enrolls a subagent that starts running on `goal` under `id`, unless the
    /// roster is full: then nothing changes and the error to report comes back.
    pub fn enroll(&mut self, id: &str, goal: &str) -> (r: Result<(), AgentOutput>)
        ensures
            final(self).spec_max() == old(self).spec_max(),
            old(self).spec_agents().len() >= old(self).spec_max() ==> match r {
                Err(AgentOutput::Error(e)) => e@ == capacity_text(old(self).spec_max())
                    && final(self).spec_agents() == old(self).spec_agents(),
                _ => false,
            },
            old(self).spec_agents().len() < old(self).spec_max() ==> r is Ok && {
                let fresh = final(self).spec_agents()[position(final(self).spec_agents(), id@)->Some_0];
                &&& fresh.id@ == id@ && fresh.goal@ == goal@ && fresh.status == SubagentStatus::Running
                    && fresh.turns == 0 && fresh.result is None
                &&& final(self).spec_agents().len() == old(self).spec_agents().len() + if position(old(self).spec_agents(), id@) is Some { 0int } else { 1int }
                &&& position(final(self).spec_agents(), id@) is Some
                &&& final(self).spec_agents() == match position(old(self).spec_agents(), id@) {
                    Some(i) => old(self).spec_agents().update(i, fresh),
                    None => old(self).spec_agents().push(fresh),
                }
            },
            ids_distinct(final(self).spec_agents()),
            old(self).spec_agents().len() <= old(self).spec_max() ==> final(self).spec_agents().len() <= final(self).spec_max(),
    {
        proof {
            use_type_invariant(&*self);
            lemma_position(self.agents@, id@);
        }
        if self.agents.len() >= self.max_concurrent {
            let mut e = "Maximum subagents (".to_owned();
            let d = decimal_chars(self.max_concurrent);
            let ds = string_of(d.as_slice());
            append_str(&mut e, ds.as_str());
            append_str(&mut e, ") reached. Cannot spawn new agent.");
            return Err(AgentOutput::Error(e));
        }
        let state = SubagentState {
            id: id.to_owned(),
            goal: goal.to_owned(),
            status: SubagentStatus::Running,
            turns: 0,
            result: None,
        };
        let ghost s = self.agents@;
        let mut agents = Vec::new();
        std::mem::swap(&mut agents, &mut self.agents);
        match self.find_in(&agents, id) {
            Some(i) => {
                agents.set(i, state);
                assert(ids_distinct(agents@));
                proof {
                    lemma_position_unique(agents@, id@, i as int);
                }
            },
            None => {
                agents.push(state);
                assert(ids_distinct(agents@));
                proof {
                    lemma_position_unique(agents@, id@, agents@.len() - 1);
                }
            },
        }
        self.agents = agents;
        Ok(())
    }

    fn find_in(&self, agents: &Vec<SubagentState>, id: &str) -> (r: Option<usize>)
        ensures
            match r {
                Some(i) => position(agents@, id@) == Some(i as int),
                None => position(agents@, id@) is None,
            },
    {
        let ghost s = agents@;
        let mut k: usize = agents.len();
        assert(s.take(s.len() as int) =~= s);
        while k > 0
            invariant
                s == agents@,
                k <= s.len(),
                position(s, id@) == position(s.take(k as int), id@),
            decreases k,
        {
            assert(s.take(k as int).drop_last() =~= s.take(k - 1));
            if str_eq(agents[k - 1].id.as_str(), id) {
                return Some(k - 1);
            }
            k = k - 1;
        }
        None
    }

    /// Removes the subagent with id `id`; whether there was one.  Used both to
    /// cancel a subagent and to forget one that finished.
    pub fn cancel(&mut self, id: &str) -> (r: bool)
        ensures
            r == position(old(self).spec_agents(), id@) is Some,
            match position(old(self).spec_agents(), id@) {
                Some(i) => final(self).spec_agents() == old(self).spec_agents().remove(i),
                None => final(self).spec_agents() == old(self).spec_agents(),
            },
            final(self).spec_max() == old(self).spec_max(),
            ids_distinct(final(self).spec_agents()),
    {
        proof {
            use_type_invariant(&*self);
            lemma_position(self.agents@, id@);
        }
        let ghost s = self.agents@;
        match self.find(id) {
            Some(i) => {
                let mut agents = Vec::new();
                std::mem::swap(&mut agents, &mut self.agents);
                assert(agents@ == s);
                agents.remove(i);
                assert(ids_distinct(agents@)) by {
                    assert forall|a: int, b: int| 0 <= a < b < agents@.len() implies agents@[a].id@
                        != agents@[b].id@ by {
                        let a0 = if a < i { a } else { a + 1 };
                        let b0 = if b < i { b } else { b + 1 };
                        assert(agents@[a] == s[a0]);
                        assert(agents@[b] == s[b0]);
                    }
                }
                self.agents = agents;
                true
            },
            None => false,
        }
    }

    /// Removes every subagent; how many there were.
    pub fn cancel_all(&mut self) -> (r: usize)
        ensures
            r == old(self).spec_agents().len(),
            final(self).spec_agents().len() == 0,
            final(self).spec_max() == old(self).spec_max(),
    {
        proof {
            use_type_invariant(&*self);
        }
        let n = self.agents.len();
        let mut agents = Vec::new();
        std::mem::swap(&mut agents, &mut self.agents);
        n
    }

    /// The state of the subagent with id `id`, if it runs.
    pub fn query(&self, id: &str) -> (r: Option<SubagentState>)
        ensures
            match position(self.spec_agents(), id@) {
                Some(i) => r matches Some(s) && same_state(s, self.spec_agents()[i]),
                None => r is None,
            },
    {
        proof {
            lemma_position(self.agents@, id@);
        }
        match self.find(id) {
            Some(i) => Some(self.agents[i].copy()),
            None => None,
        }
    }

    /// What each running subagent is doing, as reported to the interface.
    pub fn status_all(&self) -> (r: Vec<SubagentInfo>)
        ensures
            r@.len() == self.spec_agents().len(),
            forall|i: int| #![trigger r@[i]] 0 <= i < r@.len() ==> r@[i].id@ == self.spec_agents()[i].id@
                && r@[i].goal@ == self.spec_agents()[i].goal@ && r@[i].status@ == subagent_status_name(
                self.spec_agents()[i].status,
            ) && r@[i].turns == self.spec_agents()[i].turns,
    {
        let mut r: Vec<SubagentInfo> = Vec::new();
        let mut i: usize = 0;
        while i < self.agents.len()
            invariant
                i <= self.agents@.len(),
                r@.len() == i,
                forall|k: int| #![trigger r@[k]] 0 <= k < i ==> r@[k].id@ == self.agents@[k].id@
                    && r@[k].goal@ == self.agents@[k].goal@ && r@[k].status@ == subagent_status_name(
                    self.agents@[k].status,
                ) && r@[k].turns == self.agents@[k].turns,
            decreases self.agents@.len() - i,
        {
            let a = &self.agents[i];
            r.push(
                SubagentInfo {
                    id: a.id.clone(),
                    goal: a.goal.clone(),
                    status: a.status.as_str().to_owned(),
                    turns: a.turns,
                },
            );
            i = i + 1;
        }
        r
    }

    /// The number of running subagents.
    pub fn active_count(&self) -> (r: usize)
        ensures
            r == self.spec_agents().len(),
    {
        self.agents.len()
    }
}

/// What a subagent receives.
#[derive(Debug, Clone, Copy, PartialEq, Eq, Structural)]
pub enum SubagentEvent {
    /// The workbench is shutting down.
    Shutdown,
    /// The roster cancelled the subagent.
    Cancelled,
    /// Work on the goal.
    Execute,
    /// The user cancelled the subagent.
    Cancel,
    /// Report the state.
    QueryStatus,
    /// No more commands will come.
    Closed,
}

/// What a subagent does in answer to an event: what it reports, the state it
/// answers a query with, and whether it ends.
#[derive(Debug)]
pub struct SubagentReply {
    pub outputs: Vec<AgentOutput>,
    pub state: Option<SubagentState>,
    pub finished: bool,
}

/// The report of one turn of work.
pub open spec fn turn_text(id: Seq<char>, goal: Seq<char>, turn: nat) -> Seq<char> {
    "Subagent "@ + id + " processed goal '"@ + goal + "' - turn "@ + decimal(turn) + "/20"@
}

/// Whether `o` is the final result of subagent `id` working on `goal`.
pub open spec fn is_result(o: AgentOutput, id: Seq<char>, goal: Seq<char>, text: Seq<char>) -> bool {
    o matches AgentOutput::SubagentResult { id: i, goal: g, result } && i@ == id && g@ == goal
        && result@ == text
}

/// One subagent at work: its id, its goal, the turns taken and whether it started.
#[derive(Debug)]
pub struct SubagentRun {
    id: String,
    goal: String,
    turns: usize,
    started: bool,
}

impl SubagentRun {
    /// The subagent's id.
    pub closed spec fn spec_id(&self) -> Seq<char> {
        self.id@
    }

    /// The subagent's goal.
    pub closed spec fn spec_goal(&self) -> Seq<char> {
        self.goal@
    }

    /// The turns taken.
    pub closed spec fn spec_turns(&self) -> nat {
        self.turns as nat
    }

    /// Whether the work started.
    pub closed spec fn spec_started(&self) -> bool {
        self.started
    }

    /// A subagent about to start, and the status it reports first.
    pub fn start(id: &str, goal: &str) -> (r: (SubagentRun, AgentOutput))
        ensures
            r.0.spec_id() == id@,
            r.0.spec_goal() == goal@,
            r.0.spec_turns() == 0,
            !r.0.spec_started(),
            r.1 matches AgentOutput::Status { message } && message@ == "Subagent "@ + id@
                + ": starting — "@ + goal@,
    {
        let mut m = "Subagent ".to_owned();
        append_str(&mut m, id);
        append_str(&mut m, ": starting — ");
        append_str(&mut m, goal);
        (
            SubagentRun { id: id.to_owned(), goal: goal.to_owned(), turns: 0, started: false },
            AgentOutput::Status { message: m },
        )
    }

    fn result(&self, text: String) -> (r: AgentOutput)
        ensures
            is_result(r, self.spec_id(), self.spec_goal(), text@),
    {
        AgentOutput::SubagentResult { id: self.id.clone(), goal: self.goal.clone(), result: text }
    }

    fn turn_message(&self, turn: usize) -> (r: String)
        ensures
            r@ == turn_text(self.spec_id(), self.spec_goal(), turn as nat),
    {
        let mut m = "Subagent ".to_owned();
        append_str(&mut m, self.id.as_str());
        append_str(&mut m, " processed goal '");
        append_str(&mut m, self.goal.as_str());
        append_str(&mut m, "' - turn ");
        let d = decimal_chars(turn);
        let ds = string_of(d.as_slice());
        append_str(&mut m, ds.as_str());
        append_str(&mut m, "/20");
        m
    }

    /// The subagent's answer to an event.  The first `Execute` takes three
    /// turns, reporting each, and ends with the last report and whether the
    /// bridge is connected; a later `Execute` is ignored.  A cancellation or
    /// shutdown ends it with the matching result; a query is answered with the
    /// running state; a closed channel ends it silently.
    pub fn step(&mut self, event: SubagentEvent, bridge_connected: bool) -> (r: SubagentReply)
        ensures
            final(self).spec_id() == old(self).spec_id(),
            final(self).spec_goal() == old(self).spec_goal(),
            ({
                let id = old(self).spec_id();
                let goal = old(self).spec_goal();
                match event {
                    SubagentEvent::Shutdown => r.finished && r.state is None && r.outputs@.len() == 1
                        && is_result(r.outputs@[0], id, goal, "Cancelled by shutdown"@)
                        && final(self).spec_turns() == old(self).spec_turns(),
                    SubagentEvent::Cancelled => r.finished && r.state is None && r.outputs@.len() == 1
                        && is_result(r.outputs@[0], id, goal, "Cancelled"@)
                        && final(self).spec_turns() == old(self).spec_turns(),
                    SubagentEvent::Cancel => r.finished && r.state is None && r.outputs@.len() == 1
                        && is_result(r.outputs@[0], id, goal, "Cancelled by user"@)
                        && final(self).spec_turns() == old(self).spec_turns(),
                    SubagentEvent::Closed => r.finished && r.state is None && r.outputs@.len() == 0
                        && final(self).spec_turns() == old(self).spec_turns(),
                    SubagentEvent::QueryStatus => !r.finished && r.outputs@.len() == 0
                        && final(self).spec_turns() == old(self).spec_turns()
                        && final(self).spec_started() == old(self).spec_started()
                        && (r.state matches Some(s) && s.id@ == id && s.goal@ == goal
                        && s.status == SubagentStatus::Running && s.turns == old(self).spec_turns()
                        && s.result is None),
                    SubagentEvent::Execute => if old(self).spec_started() {
                        !r.finished && r.state is None && r.outputs@.len() == 0
                            && final(self).spec_turns() == old(self).spec_turns()
                    } else if old(self).spec_turns() >= 20 {
                        r.finished && r.state is None && r.outputs@.len() == 1
                            && is_result(r.outputs@[0], id, goal, "Max turns reached"@)
                    } else {
                        &&& r.finished && r.state is None && r.outputs@.len() == 4
                        &&& final(self).spec_turns() == 3
                        &&& forall|t: int| 0 <= t < 3 ==> (#[trigger] r.outputs@[t] matches AgentOutput::ResponseChunk(c) && c@ == turn_text(id, goal, (t + 1) as nat))
                        &&& is_result(r.outputs@[3], id, goal, turn_text(id, goal, 3) + if bridge_connected {
                            " (bridge connected)"@
                        } else {
                            " (bridge disconnected)"@
                        })
                    },
                }
            }),
    {
        match event {
            SubagentEvent::Shutdown => {
                let o = self.result("Cancelled by shutdown".to_owned());
                SubagentReply { outputs: vec![o], state: None, finished: true }
            },
            SubagentEvent::Cancelled => {
                let o = self.result("Cancelled".to_owned());
                SubagentReply { outputs: vec![o], state: None, finished: true }
            },
            SubagentEvent::Cancel => {
                let o = self.result("Cancelled by user".to_owned());
                SubagentReply { outputs: vec![o], state: None, finished: true }
            },
            SubagentEvent::Closed => SubagentReply { outputs: Vec::new(), state: None, finished: true },
            SubagentEvent::QueryStatus => {
                let s = SubagentState {
                    id: self.id.clone(),
                    goal: self.goal.clone(),
                    status: SubagentStatus::Running,
                    turns: self.turns,
                    result: None,
                };
                SubagentReply { outputs: Vec::new(), state: Some(s), finished: false }
            },
            SubagentEvent::Execute => {
                if self.started {
                    return SubagentReply { outputs: Vec::new(), state: None, finished: false };
                }
                self.started = true;
                if self.turns >= SUBAGENT_MAX_TURNS {
                    let o = self.result("Max turns reached".to_owned());
                    return SubagentReply { outputs: vec![o], state: None, finished: true };
                }
                let mut outputs: Vec<AgentOutput> = Vec::new();
                let mut last = String::new();
                let mut turn: usize = 1;
                while turn <= 3
                    invariant
                        1 <= turn <= 4,
                        outputs@.len() == turn - 1,
                        self.id@ == old(self).spec_id(),
                        self.goal@ == old(self).spec_goal(),
                        turn > 1 ==> last@ == turn_text(self.id@, self.goal@, (turn - 1) as nat),
                        turn > 1 ==> self.turns == turn - 1,
                        forall|t: int| 0 <= t < turn - 1 ==> (#[trigger] outputs@[t] matches AgentOutput::ResponseChunk(c) && c@ == turn_text(self.id@, self.goal@, (t + 1) as nat)),
                    decreases 4 - turn,
                {
                    self.turns = turn;
                    last = self.turn_message(turn);
                    outputs.push(AgentOutput::ResponseChunk(last.clone()));
                    turn = turn + 1;
                }
                if bridge_connected {
                    append_str(&mut last, " (bridge connected)");
                } else {
                    append_str(&mut last, " (bridge disconnected)");
                }
                let o = self.result(last);
                outputs.push(o);
                SubagentReply { outputs, state: None, finished: true }
            },
        }
    }
}

} // verus!
