//! A pool of core agents run as subagents: which slots exist, which were
//! cancelled, and how many may run at once.  Whether a slot's task has
//! finished is asked of the task itself, so every decision here takes that
//! answer as an argument.
use vstd::prelude::*;

use crate::text::{append_str, decimal, decimal_chars, string_of};

verus! {

/// What became of a subagent of the pool.
#[derive(Debug, Clone, Copy, PartialEq, Eq, Structural)]
pub enum AgentStatus {
    Pending,
    Running,
    Done,
    Cancelled,
    Missing,
}

/// The slots of the pool, in the order they were filled, and the number
/// that may run at once.
#[derive(Debug)]
pub struct SubagentPool {
    slots: Vec<AgentStatus>,
    max_concurrent: usize,
}

/// The number of the first `n` slots that run: marked running and not finished.
pub open spec fn running_in(slots: Seq<AgentStatus>, finished: Seq<bool>, n: int) -> int
    decreases n,
{
    if n <= 0 {
        0
    } else {
        running_in(slots, finished, n - 1) + if slots[n - 1] == AgentStatus::Running && !finished[n - 1] {
            1int
        } else {
            0int
        }
    }
}

proof fn lemma_running_bounds(slots: Seq<AgentStatus>, finished: Seq<bool>, n: int)
    requires
        0 <= n,
    ensures
        0 <= running_in(slots, finished, n) <= n,
    decreases n,
{
    if n > 0 {
        lemma_running_bounds(slots, finished, n - 1);
    }
}

/// The first message of the subagent in slot `id`.
pub open spec fn pool_prompt(id: nat) -> Seq<char> {
    "subagent-"@ + decimal(id)
}

impl SubagentPool {
    /// The slots.
    pub closed spec fn spec_slots(&self) -> Seq<AgentStatus> {
        self.slots@
    }

    /// How many may run at once.
    pub closed spec fn spec_max(&self) -> usize {
        self.max_concurrent
    }

    /// An empty pool letting `max` run at once, and at least one.
    pub fn new(max: usize) -> (r: SubagentPool)
        ensures
            r.spec_slots().len() == 0,
            r.spec_max() == if max >= 1 { max } else { 1 },
    {
        SubagentPool { slots: Vec::new(), max_concurrent: if max >= 1 { max } else { 1 } }
    }

    /// How many may run at once.
    pub fn max_concurrent(&self) -> (r: usize)
        ensures
            r == self.spec_max(),
    {
        self.max_concurrent
    }

    /// The number of slots.
    pub fn len(&self) -> (r: usize)
        ensures
            r == self.spec_slots().len(),
    {
        self.slots.len()
    }

    /// How many slots run, given which tasks have finished.
    pub fn running_count(&self, finished: &[bool]) -> (r: usize)
        requires
            finished@.len() == self.spec_slots().len(),
        ensures
            r == running_in(self.spec_slots(), finished@, self.spec_slots().len() as int),
    {
        let mut count: usize = 0;
        let mut i: usize = 0;
        while i < self.slots.len()
            invariant
                i <= self.slots@.len(),
                finished@.len() == self.slots@.len(),
                count == running_in(self.slots@, finished@, i as int),
            decreases self.slots@.len() - i,
        {
            proof {
                lemma_running_bounds(self.slots@, finished@, i as int);
            }
            if self.slots[i] == AgentStatus::Running && !finished[i] {
                count = count + 1;
            }
            i = i + 1;
        }
        count
    }

    /// Takes a new slot for a subagent, unless as many as allowed run: then
    /// nothing changes and `usize::MAX` comes back.  The new slot's id is its
    /// position, and it is marked running.
    pub fn spawn(&mut self, finished: &[bool]) -> (r: usize)
        requires
            finished@.len() == old(self).spec_slots().len(),
            old(self).spec_slots().len() < usize::MAX,
        ensures
            final(self).spec_max() == old(self).spec_max(),
            running_in(old(self).spec_slots(), finished@, old(self).spec_slots().len() as int) >= old(self).spec_max()
                ==> r == usize::MAX && final(self).spec_slots() == old(self).spec_slots(),
            running_in(old(self).spec_slots(), finished@, old(self).spec_slots().len() as int) < old(self).spec_max()
                ==> r == old(self).spec_slots().len() && final(self).spec_slots() == old(self).spec_slots().push(AgentStatus::Running),
    {
        if self.running_count(finished) >= self.max_concurrent {
            return usize::MAX;
        }
        let id = self.slots.len();
        self.slots.push(AgentStatus::Running);
        id
    }

    /// The state of slot `id`, given whether its task has finished: missing
    /// without such a slot, done once finished, else as marked.
    pub fn status(&self, id: usize, finished: bool) -> (r: AgentStatus)
        ensures
            r == if id >= self.spec_slots().len() {
                AgentStatus::Missing
            } else if finished {
                AgentStatus::Done
            } else {
                self.spec_slots()[id as int]
            },
    {
        if id >= self.slots.len() {
            AgentStatus::Missing
        } else if finished {
            AgentStatus::Done
        } else {
            self.slots[id]
        }
    }

    /// Marks slot `id` cancelled, if there is one.
    pub fn cancel(&mut self, id: usize)
        ensures
            final(self).spec_max() == old(self).spec_max(),
            final(self).spec_slots() == if id < old(self).spec_slots().len() {
                old(self).spec_slots().update(id as int, AgentStatus::Cancelled)
            } else {
                old(self).spec_slots()
            },
    {
        if id < self.slots.len() {
            self.slots.set(id, AgentStatus::Cancelled);
        }
    }
}

/// The first message of the subagent in slot `id`.
pub fn pool_prompt_text(id: usize) -> (r: String)
    ensures
        r@ == pool_prompt(id as nat),
{
    let mut m = "subagent-".to_owned();
    append_str(&mut m, string_of(decimal_chars(id).as_slice()).as_str());
    m
}

} // verus!
