//! The agents pane: the subagents and what they do, the plugins when shown,
//! and the notifications received.
use vstd::prelude::*;

use crate::text::str_eq;

verus! {

/// A subagent as listed in the pane.
#[derive(Debug, Clone)]
pub struct AgentRow {
    pub id: String,
    pub goal: String,
    pub status: String,
    pub turns: usize,
}

/// A plugin as listed in the pane.
#[derive(Debug, Clone)]
pub struct PluginRow {
    pub name: String,
    pub description: String,
    pub backend: String,
    pub enabled: bool,
}

/// The number of the first `n` rows whose status is `status`.
pub open spec fn status_count(rows: Seq<AgentRow>, n: int, status: Seq<char>) -> int
    decreases n,
{
    if n <= 0 {
        0
    } else {
        status_count(rows, n - 1, status) + if rows[n - 1].status@ == status {
            1int
        } else {
            0int
        }
    }
}

/// The agents pane.
#[derive(Debug)]
pub struct AgentPane {
    agents: Vec<AgentRow>,
    plugins: Vec<PluginRow>,
    show_plugins: bool,
    notifications: Vec<String>,
}

impl Default for AgentPane {
    fn default() -> (r: Self)
        ensures
            r.spec_agents().len() == 0,
            r.spec_plugins().len() == 0,
            !r.spec_show_plugins(),
            r.spec_notifications().len() == 0,
    {
        let r = AgentPane {
            agents: Vec::new(),
            plugins: Vec::new(),
            show_plugins: false,
            notifications: Vec::new(),
        };
        assert(r.spec_notifications() =~= seq![]);
        r
    }
}

impl AgentPane {
    /// The subagents listed.
    pub closed spec fn spec_agents(&self) -> Seq<AgentRow> {
        self.agents@
    }

    /// The plugins listed.
    pub closed spec fn spec_plugins(&self) -> Seq<PluginRow> {
        self.plugins@
    }

    /// Whether the plugins are shown.
    pub closed spec fn spec_show_plugins(&self) -> bool {
        self.show_plugins
    }

    /// The notifications received, oldest first.
    pub closed spec fn spec_notifications(&self) -> Seq<Seq<char>> {
        self.notifications@.map_values(|n: String| n@)
    }

    /// Adds a notification.
    pub fn notify(&mut self, message: String)
        ensures
            final(self).spec_notifications() == old(self).spec_notifications().push(message@),
            final(self).spec_agents() == old(self).spec_agents(),
            final(self).spec_plugins() == old(self).spec_plugins(),
            final(self).spec_show_plugins() == old(self).spec_show_plugins(),
    {
        let ghost before = self.spec_notifications();
        self.notifications.push(message);
        assert(self.spec_notifications() =~= before.push(message@));
    }

    /// The latest notification, if any.
    pub fn last_notification_text(&self) -> (r: Option<&str>)
        ensures
            match r {
                Some(t) => self.spec_notifications().len() > 0 && t@ == self.spec_notifications().last(),
                None => self.spec_notifications().len() == 0,
            },
    {
        let n = self.notifications.len();
        if n > 0 {
            Some(self.notifications[n - 1].as_str())
        } else {
            None
        }
    }

    /// Replaces the subagents listed.
    pub fn set_agents(&mut self, rows: Vec<AgentRow>)
        ensures
            final(self).spec_agents() == rows@,
            final(self).spec_plugins() == old(self).spec_plugins(),
            final(self).spec_show_plugins() == old(self).spec_show_plugins(),
            final(self).spec_notifications() == old(self).spec_notifications(),
    {
        self.agents = rows;
    }

    /// Replaces the plugins listed.
    pub fn set_plugins(&mut self, rows: Vec<PluginRow>)
        ensures
            final(self).spec_plugins() == rows@,
            final(self).spec_agents() == old(self).spec_agents(),
            final(self).spec_show_plugins() == old(self).spec_show_plugins(),
            final(self).spec_notifications() == old(self).spec_notifications(),
    {
        self.plugins = rows;
    }

    /// Shows the plugins if hidden, hides them if shown.
    pub fn toggle_plugins(&mut self)
        ensures
            final(self).spec_show_plugins() == !old(self).spec_show_plugins(),
            final(self).spec_agents() == old(self).spec_agents(),
            final(self).spec_plugins() == old(self).spec_plugins(),
            final(self).spec_notifications() == old(self).spec_notifications(),
    {
        self.show_plugins = !self.show_plugins;
    }

    /// Whether the plugins are shown.
    pub fn show_plugins(&self) -> (r: bool)
        ensures
            r == self.spec_show_plugins(),
    {
        self.show_plugins
    }

    /// The subagents listed.
    pub fn agents(&self) -> (r: &Vec<AgentRow>)
        ensures
            r@ == self.spec_agents(),
    {
        &self.agents
    }

    /// The plugins listed.
    pub fn plugins(&self) -> (r: &Vec<PluginRow>)
        ensures
            r@ == self.spec_plugins(),
    {
        &self.plugins
    }

    /// How many listed subagents are running, and how many completed.
    pub fn running_done_counts(&self) -> (r: (usize, usize))
        ensures
            r.0 == status_count(self.spec_agents(), self.spec_agents().len() as int, "running"@),
            r.1 == status_count(self.spec_agents(), self.spec_agents().len() as int, "completed"@),
    {
        let mut running: usize = 0;
        let mut done: usize = 0;
        let mut i: usize = 0;
        while i < self.agents.len()
            invariant
                i <= self.agents@.len(),
                running == status_count(self.agents@, i as int, "running"@),
                done == status_count(self.agents@, i as int, "completed"@),
                running <= i,
                done <= i,
            decreases self.agents@.len() - i,
        {
            if str_eq(self.agents[i].status.as_str(), "running") {
                running = running + 1;
            }
            if str_eq(self.agents[i].status.as_str(), "completed") {
                done = done + 1;
            }
            i = i + 1;
        }
        (running, done)
    }
}

} // verus!
