use rust_core::agent::agent_core::{Agent, AgentConfig, AgentOutput, Message, Role};
use rust_core::agent::subagent::{pool_prompt_text, AgentStatus, SubagentPool};

fn run_local(id: usize) -> AgentOutput {
    let mut agent = Agent::new(AgentConfig::default());
    agent.add_message(Message::new(Role::User, &pool_prompt_text(id)));
    let mut last = String::new();
    while agent.start_turn() {
        let response = agent.local_response();
        let (content, more) = agent.finish_turn(response, Vec::new());
        last = content;
        if !more {
            break;
        }
    }
    agent.output(last)
}

#[test]
fn pool_spawns_and_awaits_multiple_agents() {
    let mut pool = SubagentPool::new(4);
    let first = pool.spawn(&[]);
    let second = pool.spawn(&[false]);

    assert_ne!(first, second);
    assert_eq!(pool.status(first, false), AgentStatus::Running);

    let outputs: Vec<AgentOutput> = (0..pool.len()).map(run_local).collect();

    assert_eq!(outputs.len(), 2);
    assert!(outputs.iter().all(|output| output.completed));
    assert_eq!(outputs[1].content, "local response: subagent-1");
}

#[test]
fn pool_refuses_beyond_its_limit_until_a_task_finishes() {
    let mut pool = SubagentPool::new(0);
    assert_eq!(pool.max_concurrent(), 1);
    assert_eq!(pool.spawn(&[]), 0);
    assert_eq!(pool.spawn(&[false]), usize::MAX);
    assert_eq!(pool.len(), 1);
    assert_eq!(pool.running_count(&[false]), 1);
    assert_eq!(pool.running_count(&[true]), 0);
    assert_eq!(pool.spawn(&[true]), 1);
}

#[test]
fn pool_status_and_cancel() {
    let mut pool = SubagentPool::new(2);
    let id = pool.spawn(&[]);
    assert_eq!(pool.status(7, false), AgentStatus::Missing);
    assert_eq!(pool.status(id, true), AgentStatus::Done);
    pool.cancel(id);
    assert_eq!(pool.status(id, false), AgentStatus::Cancelled);
    assert_eq!(pool.running_count(&[false]), 0);
    pool.cancel(9);
    assert_eq!(pool.len(), 1);
    assert_eq!(pool_prompt_text(12), "subagent-12");
}
