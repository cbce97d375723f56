//! The decision shown in the plan pane.
use vstd::prelude::*;

use crate::text::{chars_of, join, join_chars, string_of};

verus! {

/// What the user decided about the plan shown.
#[derive(Debug, Clone, Copy, PartialEq, Eq, Structural)]
pub enum PlanDecision {
    Pending,
    Approved,
    Rejected,
    Editing,
}

/// The plan pane: a decision and the text shown.
#[derive(Debug)]
pub struct PlanPane {
    decision: PlanDecision,
    text: String,
}

impl PlanPane {
    /// The current decision.
    pub closed spec fn spec_decision(&self) -> PlanDecision {
        self.decision
    }

    /// The text shown in the pane.
    pub closed spec fn spec_text(&self) -> Seq<char> {
        self.text@
    }

    /// The current decision.
    pub fn decision(&self) -> (r: PlanDecision)
        ensures
            r == self.spec_decision(),
    {
        self.decision
    }

    /// The text shown in the pane.
    pub fn text(&self) -> (r: &str)
        ensures
            r@ == self.spec_text(),
    {
        self.text.as_str()
    }

    /// Shows these lines, one below the other; the decision is kept.
    pub fn set_lines(&mut self, lines: Vec<String>)
        ensures
            final(self).spec_text() == join(lines@.map_values(|l: String| l@), seq!['\n']),
            final(self).spec_decision() == old(self).spec_decision(),
    {
        let mut parts: Vec<Vec<char>> = Vec::new();
        let mut i: usize = 0;
        while i < lines.len()
            invariant
                i <= lines@.len(),
                parts@.len() == i,
                forall|k: int| 0 <= k < i ==> #[trigger] parts@[k]@ == lines@[k]@,
            decreases lines@.len() - i,
        {
            parts.push(chars_of(lines[i].as_str()));
            i = i + 1;
        }
        assert(parts@.map_values(|v: Vec<char>| v@) =~= lines@.map_values(|l: String| l@));
        let sep: Vec<char> = vec!['\n'];
        assert(sep@ =~= seq!['\n']);
        let t = join_chars(&parts, sep.as_slice());
        self.text = string_of(t.as_slice());
    }

    /// Records that the plan was approved.
    pub fn approve(&mut self)
        ensures
            final(self).spec_decision() == PlanDecision::Approved,
            final(self).spec_text() == old(self).spec_text(),
    {
        self.decision = PlanDecision::Approved;
    }

    /// Records that the plan was rejected.
    pub fn reject(&mut self)
        ensures
            final(self).spec_decision() == PlanDecision::Rejected,
            final(self).spec_text() == old(self).spec_text(),
    {
        self.decision = PlanDecision::Rejected;
    }

    /// Records that the plan is being edited.
    pub fn edit(&mut self)
        ensures
            final(self).spec_decision() == PlanDecision::Editing,
            final(self).spec_text() == old(self).spec_text(),
    {
        self.decision = PlanDecision::Editing;
    }
}

impl Default for PlanPane {
    fn default() -> (r: Self)
        ensures
            r.spec_decision() == PlanDecision::Pending,
            r.spec_text() == "Plans, approvals, and execution checkpoints."@,
    {
        PlanPane {
            decision: PlanDecision::Pending,
            text: "Plans, approvals, and execution checkpoints.".to_owned(),
        }
    }
}

} // verus!
