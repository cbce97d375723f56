use rust_core::agent::agent_core::{
    execute_tool, Agent, AgentConfig, AgentOutput, Message, Role, Tool, ToolCall,
};

fn run_local(agent: &mut Agent) -> AgentOutput {
    let mut last = String::new();
    while agent.start_turn() {
        let response = agent.local_response();
        let (content, more) = agent.finish_turn(response, Vec::new());
        last = content;
        if !more {
            break;
        }
    }
    agent.output(last)
}

#[test]
fn local_agent_records_response() {
    let mut agent = Agent::new(AgentConfig::default());
    agent.add_message(Message::new(Role::User, "hello"));

    let output = run_local(&mut agent);

    assert!(output.completed);
    assert_eq!(output.turns, 1);
    assert_eq!(agent.messages().len(), 2);
    assert!(agent.summarize().contains("local response: hello"));
}

#[test]
fn agent_core_agent_config_defaults() {
    let config = AgentConfig::default();
    assert_eq!(config.model, "gpt-5.5");
    assert_eq!(config.max_turns, 20);
    assert!(config.tools.is_empty());
}

#[test]
fn agent_plan_generates_from_messages() {
    let mut agent = Agent::new(AgentConfig::default());
    agent.add_message(Message::new(Role::User, "task 1"));
    agent.add_message(Message::new(Role::Assistant, "response 1"));
    agent.add_message(Message::new(Role::User, "task 2"));

    let plan = agent.plan();
    assert!(plan.contains("task 1"));
    assert!(plan.contains("task 2"));
    assert!(!plan.contains("response 1"));
}

#[test]
fn agent_plan_lines_are_exact() {
    let mut agent = Agent::new(AgentConfig::default());
    agent.add_message(Message::new(Role::User, "a"));
    agent.add_message(Message::new(Role::Assistant, "b"));
    agent.add_message(Message::new(Role::User, "c"));
    assert_eq!(agent.plan(), "- Respond to: a\n- Respond to: c");
}

#[test]
fn agent_summarize_empty() {
    let agent = Agent::new(AgentConfig::default());
    let summary = agent.summarize();
    assert_eq!(summary, "0 messages. Last: empty");
}

#[test]
fn agent_summarize_counts_and_last() {
    let mut agent = Agent::new(AgentConfig::default());
    agent.add_message(Message::new(Role::User, "first"));
    agent.add_message(Message::new(Role::User, "second"));
    assert_eq!(agent.summarize(), "2 messages. Last: second");
}

#[test]
fn agent_output_equality() {
    let a = AgentOutput { content: "hello".into(), completed: true, turns: 3 };
    let b = AgentOutput { content: "hello".into(), completed: true, turns: 3 };
    assert_eq!(a, b);
}

#[test]
fn agent_config_custom() {
    let config = AgentConfig {
        model: "custom-model".into(),
        max_turns: 50,
        system_prompt: "Custom prompt".into(),
        tools: vec![Tool {
            name: "test_tool".into(),
            description: "A test tool".into(),
            parameters: "{}".into(),
        }],
    };
    let agent = Agent::new(config);
    assert_eq!(agent.messages().len(), 0);
}

#[test]
fn agent_with_many_turns() {
    let mut config = AgentConfig::default();
    config.max_turns = 3;
    let mut agent = Agent::new(config);
    agent.add_message(Message::new(Role::User, "msg1"));
    agent.add_message(Message::new(Role::User, "msg2"));
    agent.add_message(Message::new(Role::User, "msg3"));

    let output = run_local(&mut agent);
    assert_eq!(output.turns, 1);
    assert!(output.completed);
    assert_eq!(agent.messages().len(), 4);
}

#[test]
fn tool_calls_are_run_and_recorded() {
    let mut agent = Agent::new(AgentConfig::default());
    assert!(agent.start_turn());
    let call = ToolCall { id: "c1".into(), name: "read_file".into(), arguments: "{\"path\":\"a\"}".into() };
    let (content, more) = agent.finish_turn("ignored".into(), vec![call]);
    assert_eq!(content, "1 tool call(s) requested");
    assert!(more);
    assert_eq!(agent.messages().len(), 2);
    assert_eq!(agent.messages()[1].role, Role::Tool);
    assert_eq!(agent.messages()[1].content, "tool read_file executed with {\"path\":\"a\"}");
    assert_eq!(agent.messages()[1].tool_call_id.as_deref(), Some("c1"));
}

#[test]
fn turn_limit_stops_the_loop() {
    let mut config = AgentConfig::default();
    config.max_turns = 1;
    let mut agent = Agent::new(config);
    assert!(agent.start_turn());
    assert!(!agent.start_turn());
    let output = agent.output("x".into());
    assert!(!output.completed);
    assert_eq!(output.turns, 1);
}

#[test]
fn execute_tool_names_tool_and_arguments() {
    let call = ToolCall { id: "7".into(), name: "grep".into(), arguments: "[1,2]".into() };
    let r = execute_tool(&call);
    assert_eq!(r.call_id, "7");
    assert_eq!(r.output, "tool grep executed with [1,2]");
    assert!(r.error.is_none());
    assert_eq!(Role::Assistant.as_str(), "assistant");
}

#[test]
fn bridge_prompt_leaves_out_system_messages_and_writes_json() {
    let mut config = AgentConfig::default();
    config.tools.push(Tool {
        name: "read".to_string(),
        description: "Read \"file\"".to_string(),
        parameters: "{}".to_string(),
    });
    let mut agent = Agent::with_bridge(config);
    agent.add_message(Message::new(Role::System, "be brief"));
    agent.add_message(Message::new(Role::User, "hi"));
    let mut answer = Message::new(Role::Assistant, "calling");
    answer.tool_calls = Some(vec![ToolCall {
        id: "c1".to_string(),
        name: "read".to_string(),
        arguments: "{\"p\":1}".to_string(),
    }]);
    agent.add_message(answer);

    let params = agent.bridge_prompt();
    assert_eq!(params.model, "gpt-5.5");
    assert_eq!(params.system.as_deref(), Some("You are Pi Hybrid."));
    assert_eq!(params.max_tokens, None);
    assert_eq!(params.messages.len(), 2);
    assert_eq!(params.messages[0].role, "user");
    assert_eq!(params.messages[0].content, "hi");
    assert_eq!(params.messages[0].tool_calls, None);
    assert_eq!(params.messages[1].role, "assistant");
    assert_eq!(
        params.messages[1].tool_calls,
        Some(vec!["{\"id\":\"c1\",\"name\":\"read\",\"arguments\":{\"p\":1}}".to_string()])
    );
    assert_eq!(
        params.tools,
        Some(vec!["{\"name\":\"read\",\"description\":\"Read \\\"file\\\"\",\"parameters\":{}}".to_string()])
    );
}

#[test]
fn roles_are_read_back_from_their_names() {
    for role in [Role::System, Role::User, Role::Assistant, Role::Tool] {
        assert_eq!(Role::from_name(role.as_str()), Ok(role));
    }
    assert_eq!(Role::from_name("robot"), Err("unknown role robot".to_string()));
    assert_eq!(Role::from_name("User"), Err("unknown role User".to_string()));
}

#[test]
fn tool_descriptions_are_escaped_as_json_strings() {
    let mut config = AgentConfig::default();
    config.tools.push(Tool {
        name: "w".to_string(),
        description: "a\\b\n\t\u{1}é/".to_string(),
        parameters: "{}".to_string(),
    });
    let agent = Agent::with_bridge(config);
    let params = agent.bridge_prompt();
    assert_eq!(
        params.tools,
        Some(vec!["{\"name\":\"w\",\"description\":\"a\\\\b\\n\\t\\u0001é/\",\"parameters\":{}}".to_string()])
    );
}
