//! The core agent: a conversation, a turn limit, and the loop that asks the
//! model, records its answer, runs the tools it asks for and stops when it
//! asks for none.  Without a bridge the model's answer is a local echo of the
//! last message.
use vstd::prelude::*;

use crate::agent::bridge_client::{PromptMessage, PromptParams};
use crate::text::{append_str, decimal, decimal_chars, join, string_of};

verus! {

/// A tool offered to the model; `parameters` is a JSON text.
#[derive(Debug, Clone, PartialEq, Eq)]
pub struct Tool {
    pub name: String,
    pub description: String,
    pub parameters: String,
}

/// A tool call asked for by the model; `arguments` is a JSON text.
#[derive(Debug, Clone, PartialEq, Eq)]
pub struct ToolCall {
    pub id: String,
    pub name: String,
    pub arguments: String,
}

/// What running a tool gave.
#[derive(Debug, Clone, PartialEq, Eq)]
pub struct ToolResult {
    pub call_id: String,
    pub output: String,
    pub error: Option<String>,
}

/// The output of running a tool for a call.
pub open spec fn tool_output(name: Seq<char>, arguments: Seq<char>) -> Seq<char> {
    "tool "@ + name + " executed with "@ + arguments
}

/// Runs a tool: the output names the tool and its arguments.
pub fn execute_tool(call: &ToolCall) -> (r: ToolResult)
    ensures
        r.call_id@ == call.id@,
        r.output@ == tool_output(call.name@, call.arguments@),
        r.error is None,
{
    let mut out = "tool ".to_owned();
    append_str(&mut out, call.name.as_str());
    append_str(&mut out, " executed with ");
    append_str(&mut out, call.arguments.as_str());
    ToolResult { call_id: call.id.clone(), output: out, error: None }
}

/// Who wrote a message.
#[derive(Debug, Clone, Copy, PartialEq, Eq, Structural)]
pub enum Role {
    System,
    User,
    Assistant,
    Tool,
}

/// The name of a role.
pub open spec fn role_name(r: Role) -> Seq<char> {
    match r {
        Role::System => "system"@,
        Role::User => "user"@,
        Role::Assistant => "assistant"@,
        Role::Tool => "tool"@,
    }
}

/// The role a name stands for, if any.
pub open spec fn role_of_name(name: Seq<char>) -> Option<Role> {
    if name == "system"@ {
        Some(Role::System)
    } else if name == "user"@ {
        Some(Role::User)
    } else if name == "assistant"@ {
        Some(Role::Assistant)
    } else if name == "tool"@ {
        Some(Role::Tool)
    } else {
        None
    }
}

/// A role read back from its name is the role: a message stored with its
/// role's name is loaded with the same role.
pub proof fn lemma_role_name_round_trip(r: Role)
    ensures
        role_of_name(role_name(r)) == Some(r),
{
    reveal_strlit("system");
    reveal_strlit("user");
    reveal_strlit("assistant");
    reveal_strlit("tool");
    assert("system"@ != "user"@ && "system"@ != "assistant"@ && "system"@ != "tool"@) by {
        assert("system"@[0] != "user"@[0] && "system"@.len() != "assistant"@.len() && "system"@.len() != "tool"@.len());
    }
    assert("user"@ != "assistant"@ && "user"@ != "tool"@) by {
        assert("user"@[0] != "assistant"@[0] && "user"@[0] != "tool"@[0]);
    }
    assert("assistant"@ != "tool"@) by {
        assert("assistant"@.len() != "tool"@.len());
    }
}

impl Role {
    /// The role named `name`; another name is refused.
    pub fn from_name(name: &str) -> (r: Result<Role, String>)
        ensures
            match role_of_name(name@) {
                Some(role) => r == Ok::<Role, String>(role),
                None => r matches Err(e) && e@ == "unknown role "@ + name@,
            },
    {
        if crate::text::str_eq(name, "system") {
            Ok(Role::System)
        } else if crate::text::str_eq(name, "user") {
            Ok(Role::User)
        } else if crate::text::str_eq(name, "assistant") {
            Ok(Role::Assistant)
        } else if crate::text::str_eq(name, "tool") {
            Ok(Role::Tool)
        } else {
            let mut e = "unknown role ".to_owned();
            append_str(&mut e, name);
            Err(e)
        }
    }

    /// The name of the role.
    pub fn as_str(&self) -> (r: &'static str)
        ensures
            r@ == role_name(*self),
    {
        match self {
            Role::System => "system",
            Role::User => "user",
            Role::Assistant => "assistant",
            Role::Tool => "tool",
        }
    }
}

/// A message of the conversation.
#[derive(Debug, Clone)]
pub struct Message {
    pub role: Role,
    pub content: String,
    pub tool_calls: Option<Vec<ToolCall>>,
    pub tool_call_id: Option<String>,
}

impl Message {
    /// A message with no tool calls.
    pub fn new(role: Role, content: &str) -> (r: Message)
        ensures
            r.role == role,
            r.content@ == content@,
            r.tool_calls is None,
            r.tool_call_id is None,
    {
        Message { role, content: content.to_owned(), tool_calls: None, tool_call_id: None }
    }

    /// The message that carries a tool's output back.
    pub fn tool_result(call_id: String, output: String) -> (r: Message)
        ensures
            r.role == Role::Tool,
            r.content == output,
            r.tool_calls is None,
            r.tool_call_id == Some(call_id),
    {
        Message { role: Role::Tool, content: output, tool_calls: None, tool_call_id: Some(call_id) }
    }
}


/// The hexadecimal digit of `d` (below 16), in lower case.
pub open spec fn hex_digit(d: u32) -> char {
    if d < 10 {
        (48 + d) as char
    } else {
        (87 + d) as char
    }
}

/// How serde_json writes one character inside a JSON string: `"` and `\`
/// behind a backslash, the control characters with a short escape where JSON
/// has one and as `\u00XX` otherwise, every other character as it is.
pub open spec fn json_escape_char(c: char) -> Seq<char> {
    let n = c as u32;
    if c == '"' {
        seq!['\\', '"']
    } else if c == '\\' {
        seq!['\\', '\\']
    } else if n == 8 {
        seq!['\\', 'b']
    } else if n == 9 {
        seq!['\\', 't']
    } else if n == 10 {
        seq!['\\', 'n']
    } else if n == 12 {
        seq!['\\', 'f']
    } else if n == 13 {
        seq!['\\', 'r']
    } else if n < 32 {
        seq!['\\', 'u', '0', '0', hex_digit(n / 16), hex_digit(n % 16)]
    } else {
        seq![c]
    }
}

/// The escaped characters of `s`, one after another.
pub open spec fn json_escape_all(s: Seq<char>) -> Seq<char>
    decreases s.len(),
{
    if s.len() == 0 {
        seq![]
    } else {
        json_escape_all(s.drop_last()) + json_escape_char(s.last())
    }
}

/// The JSON text of a string, as `serde_json::to_string` writes it: the
/// escaped characters in double quotes.
pub open spec fn json_string_text(s: Seq<char>) -> Seq<char> {
    seq!['"'] + json_escape_all(s) + seq!['"']
}

/// Writes `s` as a JSON string with `serde_json::to_string`, which does not
/// fail on a string; the contract states serde_json's escaping.
#[verifier::external_body]
fn json_string(s: &str) -> (r: String)
    ensures
        r@ == json_string_text(s@),
{
    match serde_json::to_string(s) {
        Ok(text) => text,
        Err(_) => String::new(),
    }
}

/// The JSON object of a tool call: its id, its name and its arguments.
pub open spec fn call_text(c: ToolCall) -> Seq<char> {
    "{\"id\":"@ + json_string_text(c.id@) + ",\"name\":"@ + json_string_text(c.name@)
        + ",\"arguments\":"@ + c.arguments@ + "}"@
}

/// The JSON object of a tool: its name, its description and its parameters.
pub open spec fn tool_text(t: Tool) -> Seq<char> {
    "{\"name\":"@ + json_string_text(t.name@) + ",\"description\":"@ + json_string_text(
        t.description@,
    ) + ",\"parameters\":"@ + t.parameters@ + "}"@
}

/// The JSON texts of optional tool calls.
pub open spec fn call_texts(o: Option<Vec<ToolCall>>) -> Option<Seq<Seq<char>>> {
    match o {
        Some(v) => Some(v@.map_values(|c: ToolCall| call_text(c))),
        None => None,
    }
}

/// What a message sends to the model: its role's name, its content and its
/// tool calls as JSON texts.
pub type SentView = (Seq<char>, Seq<char>, Option<Seq<Seq<char>>>);

/// The messages sent to the model: all but the system messages, in order.
pub open spec fn prompt_messages(ms: Seq<Message>) -> Seq<SentView>
    decreases ms.len(),
{
    if ms.len() == 0 {
        seq![]
    } else {
        prompt_messages(ms.drop_last()) + if ms.last().role == Role::System {
            seq![]
        } else {
            seq![(role_name(ms.last().role), ms.last().content@, call_texts(ms.last().tool_calls))]
        }
    }
}

/// The view of optional JSON texts.
pub open spec fn texts_view(o: Option<Vec<String>>) -> Option<Seq<Seq<char>>> {
    match o {
        Some(v) => Some(v@.map_values(|t: String| t@)),
        None => None,
    }
}

/// What a prompt message holds.
pub open spec fn sent_view(m: PromptMessage) -> SentView {
    (m.role@, m.content@, texts_view(m.tool_calls))
}

fn call_json(c: &ToolCall) -> (r: String)
    ensures
        r@ == call_text(*c),
{
    let mut t = "{\"id\":".to_owned();
    append_str(&mut t, json_string(c.id.as_str()).as_str());
    append_str(&mut t, ",\"name\":");
    append_str(&mut t, json_string(c.name.as_str()).as_str());
    append_str(&mut t, ",\"arguments\":");
    append_str(&mut t, c.arguments.as_str());
    append_str(&mut t, "}");
    t
}

fn tool_json(tool: &Tool) -> (r: String)
    ensures
        r@ == tool_text(*tool),
{
    let mut t = "{\"name\":".to_owned();
    append_str(&mut t, json_string(tool.name.as_str()).as_str());
    append_str(&mut t, ",\"description\":");
    append_str(&mut t, json_string(tool.description.as_str()).as_str());
    append_str(&mut t, ",\"parameters\":");
    append_str(&mut t, tool.parameters.as_str());
    append_str(&mut t, "}");
    t
}

fn calls_json(calls: &Option<Vec<ToolCall>>) -> (r: Option<Vec<String>>)
    ensures
        texts_view(r) == call_texts(*calls),
{
    match calls {
        None => None,
        Some(v) => {
            let mut out: Vec<String> = Vec::new();
            let mut i: usize = 0;
            while i < v.len()
                invariant
                    i <= v@.len(),
                    out@.map_values(|t: String| t@) == v@.take(i as int).map_values(|c: ToolCall| call_text(c)),
                decreases v@.len() - i,
            {
                let ghost before = out@.map_values(|t: String| t@);
                out.push(call_json(&v[i]));
                proof {
                    assert(out@.map_values(|t: String| t@) =~= before.push(call_text(v@[i as int])));
                    assert(v@.take(i + 1).map_values(|c: ToolCall| call_text(c)) =~= v@.take(i as int).map_values(
                        |c: ToolCall| call_text(c),
                    ).push(call_text(v@[i as int])));
                }
                i = i + 1;
            }
            assert(v@.take(v@.len() as int) =~= v@);
            Some(out)
        },
    }
}

/// The settings of the core agent.
#[derive(Debug, Clone)]
pub struct AgentConfig {
    pub model: String,
    pub max_turns: usize,
    pub system_prompt: String,
    pub tools: Vec<Tool>,
}

impl AgentConfig {
    /// The default settings: model `gpt-5.5`, twenty turns, a short system prompt, no tools.
    pub fn default() -> (r: AgentConfig)
        ensures
            r.model@ == "gpt-5.5"@,
            r.max_turns == 20,
            r.system_prompt@ == "You are Pi Hybrid."@,
            r.tools@.len() == 0,
    {
        AgentConfig {
            model: "gpt-5.5".to_owned(),
            max_turns: 20,
            system_prompt: "You are Pi Hybrid.".to_owned(),
            tools: Vec::new(),
        }
    }
}

/// What a run of the agent gives: the last answer, whether it ended before
/// the turn limit, and the turns taken.
#[derive(Debug, Clone, PartialEq, Eq)]
pub struct AgentOutput {
    pub content: String,
    pub completed: bool,
    pub turns: usize,
}

/// The plan line for a user message.
pub open spec fn plan_line(content: Seq<char>) -> Seq<char> {
    "- Respond to: "@ + content
}

/// The plan lines of the user messages among the first `n`.
pub open spec fn plan_lines(ms: Seq<Message>, n: int) -> Seq<Seq<char>>
    decreases n,
{
    if n <= 0 {
        seq![]
    } else {
        plan_lines(ms, n - 1) + if ms[n - 1].role == Role::User {
            seq![plan_line(ms[n - 1].content@)]
        } else {
            seq![]
        }
    }
}

/// The summary of a conversation.
pub open spec fn summary_of(ms: Seq<Message>) -> Seq<char> {
    decimal(ms.len()) + " messages. Last: "@ + if ms.len() > 0 {
        ms.last().content@
    } else {
        "empty"@
    }
}

/// The answer the agent gives itself without a bridge: an echo of the last message.
pub open spec fn local_answer(ms: Seq<Message>) -> Seq<char> {
    "local response: "@ + if ms.len() > 0 {
        ms.last().content@
    } else {
        seq![]
    }
}

/// What an answer with tool calls is recorded as.
pub open spec fn calls_note(n: nat) -> Seq<char> {
    decimal(n) + " tool call(s) requested"@
}

/// The core agent: settings, the conversation, the turns taken, and whether
/// a bridge answers for the model.
#[derive(Debug)]
pub struct Agent {
    config: AgentConfig,
    messages: Vec<Message>,
    turn_count: usize,
    has_bridge: bool,
}

impl Agent {
    /// The settings.
    pub closed spec fn spec_config(&self) -> AgentConfig {
        self.config
    }

    /// The conversation.
    pub closed spec fn spec_messages(&self) -> Seq<Message> {
        self.messages@
    }

    /// The turns taken.
    pub closed spec fn spec_turns(&self) -> nat {
        self.turn_count as nat
    }

    /// Whether a bridge answers for the model.
    pub closed spec fn spec_has_bridge(&self) -> bool {
        self.has_bridge
    }

    /// An agent that answers itself.
    pub fn new(config: AgentConfig) -> (r: Agent)
        ensures
            r.spec_config() == config,
            r.spec_messages().len() == 0,
            r.spec_turns() == 0,
            !r.spec_has_bridge(),
    {
        Agent { config, messages: Vec::new(), turn_count: 0, has_bridge: false }
    }

    /// An agent whose model answers through a bridge.
    pub fn with_bridge(config: AgentConfig) -> (r: Agent)
        ensures
            r.spec_config() == config,
            r.spec_messages().len() == 0,
            r.spec_turns() == 0,
            r.spec_has_bridge(),
    {
        Agent { config, messages: Vec::new(), turn_count: 0, has_bridge: true }
    }

    /// The settings.
    pub fn config(&self) -> (r: &AgentConfig)
        ensures
            *r == self.spec_config(),
    {
        &self.config
    }

    /// Whether a bridge answers for the model.
    pub fn has_bridge(&self) -> (r: bool)
        ensures
            r == self.spec_has_bridge(),
    {
        self.has_bridge
    }

    /// The turns taken.
    pub fn turn_count(&self) -> (r: usize)
        ensures
            r == self.spec_turns(),
    {
        self.turn_count
    }

    /// Adds a message to the conversation.
    pub fn add_message(&mut self, msg: Message)
        ensures
            final(self).spec_messages() == old(self).spec_messages().push(msg),
            final(self).spec_config() == old(self).spec_config(),
            final(self).spec_turns() == old(self).spec_turns(),
            final(self).spec_has_bridge() == old(self).spec_has_bridge(),
    {
        self.messages.push(msg);
    }

    /// The conversation.
    pub fn messages(&self) -> (r: &[Message])
        ensures
            r@ == self.spec_messages(),
    {
        self.messages.as_slice()
    }

    /// A plan: one line per user message, in order.
    pub fn plan(&self) -> (r: String)
        ensures
            r@ == join(plan_lines(self.spec_messages(), self.spec_messages().len() as int), seq!['\n']),
    {
        let mut lines: Vec<Vec<char>> = Vec::new();
        let mut i: usize = 0;
        while i < self.messages.len()
            invariant
                i <= self.messages@.len(),
                lines@.map_values(|v: Vec<char>| v@) == plan_lines(self.messages@, i as int),
            decreases self.messages@.len() - i,
        {
            let m = &self.messages[i];
            if m.role == Role::User {
                let mut l = "- Respond to: ".to_owned();
                append_str(&mut l, m.content.as_str());
                let ghost before = lines@.map_values(|v: Vec<char>| v@);
                let c = crate::text::chars_of(l.as_str());
                lines.push(c);
                assert(lines@.map_values(|v: Vec<char>| v@) =~= before.push(plan_line(m.content@)));
            }
            i = i + 1;
        }
        let sep: Vec<char> = vec!['\n'];
        assert(sep@ =~= seq!['\n']);
        let t = crate::text::join_chars(&lines, sep.as_slice());
        string_of(t.as_slice())
    }

    /// A summary: how many messages, and the last one.
    pub fn summarize(&self) -> (r: String)
        ensures
            r@ == summary_of(self.spec_messages()),
    {
        let d = decimal_chars(self.messages.len());
        let mut s = string_of(d.as_slice());
        append_str(&mut s, " messages. Last: ");
        let n = self.messages.len();
        if n > 0 {
            append_str(&mut s, self.messages[n - 1].content.as_str());
        } else {
            append_str(&mut s, "empty");
        }
        s
    }

    /// The answer the agent gives itself without a bridge.
    pub fn local_response(&self) -> (r: String)
        ensures
            r@ == local_answer(self.spec_messages()),
    {
        let mut s = "local response: ".to_owned();
        let n = self.messages.len();
        if n > 0 {
            append_str(&mut s, self.messages[n - 1].content.as_str());
        }
        s
    }

    /// What the model is asked through the bridge: the model; the
    /// conversation without its system messages, each message with its
    /// role's name and its tool calls as JSON texts; the system prompt; and
    /// every tool as a JSON text.
    pub fn bridge_prompt(&self) -> (r: PromptParams)
        ensures
            r.model@ == self.spec_config().model@,
            r.messages@.map_values(|m: PromptMessage| sent_view(m)) == prompt_messages(self.spec_messages()),
            r.system matches Some(s) && s@ == self.spec_config().system_prompt@,
            r.max_tokens is None,
            r.tools matches Some(ts) && ts@.map_values(|t: String| t@) == self.spec_config().tools@.map_values(
                |t: Tool| tool_text(t),
            ),
    {
        let mut messages: Vec<PromptMessage> = Vec::new();
        let mut i: usize = 0;
        assert(self.messages@.take(0) =~= seq![]);
        while i < self.messages.len()
            invariant
                i <= self.messages@.len(),
                messages@.map_values(|m: PromptMessage| sent_view(m)) == prompt_messages(self.messages@.take(i as int)),
            decreases self.messages@.len() - i,
        {
            let m = &self.messages[i];
            proof {
                assert(self.messages@.take(i + 1).drop_last() =~= self.messages@.take(i as int));
                assert(self.messages@.take(i + 1).last() == self.messages@[i as int]);
            }
            if m.role != Role::System {
                let ghost before = messages@.map_values(|m: PromptMessage| sent_view(m));
                let sent = PromptMessage {
                    role: m.role.as_str().to_owned(),
                    content: m.content.clone(),
                    tool_calls: calls_json(&m.tool_calls),
                };
                messages.push(sent);
                proof {
                    assert(messages@.map_values(|m: PromptMessage| sent_view(m)) =~= before.push(
                        sent_view(messages@[before.len() as int]),
                    ));
                }
            }
            i = i + 1;
        }
        assert(self.messages@.take(self.messages@.len() as int) =~= self.messages@);
        let mut tools: Vec<String> = Vec::new();
        let mut j: usize = 0;
        while j < self.config.tools.len()
            invariant
                j <= self.config.tools@.len(),
                tools@.map_values(|t: String| t@) == self.config.tools@.take(j as int).map_values(|t: Tool| tool_text(t)),
            decreases self.config.tools@.len() - j,
        {
            let ghost before = tools@.map_values(|t: String| t@);
            tools.push(tool_json(&self.config.tools[j]));
            proof {
                assert(tools@.map_values(|t: String| t@) =~= before.push(tool_text(self.config.tools@[j as int])));
                assert(self.config.tools@.take(j + 1).map_values(|t: Tool| tool_text(t)) =~= self.config.tools@.take(
                    j as int,
                ).map_values(|t: Tool| tool_text(t)).push(tool_text(self.config.tools@[j as int])));
            }
            j = j + 1;
        }
        assert(self.config.tools@.take(self.config.tools@.len() as int) =~= self.config.tools@);
        PromptParams {
            model: self.config.model.clone(),
            messages,
            system: Some(self.config.system_prompt.clone()),
            max_tokens: None,
            tools: Some(tools),
        }
    }

    /// Starts a turn if the limit allows: whether one was started.
    pub fn start_turn(&mut self) -> (r: bool)
        ensures
            r == (old(self).spec_turns() < old(self).spec_config().max_turns),
            final(self).spec_turns() == old(self).spec_turns() + if r { 1nat } else { 0nat },
            final(self).spec_messages() == old(self).spec_messages(),
            final(self).spec_config() == old(self).spec_config(),
            final(self).spec_has_bridge() == old(self).spec_has_bridge(),
    {
        if self.turn_count < self.config.max_turns {
            self.turn_count = self.turn_count + 1;
            true
        } else {
            false
        }
    }

    /// Records the model's answer and the tool calls found in it; runs each
    /// tool and records its output.  Gives back what the turn is remembered
    /// as, and whether another turn is wanted: exactly when tools were called.
    pub fn finish_turn(&mut self, response: String, calls: Vec<ToolCall>) -> (r: (String, bool))
        ensures
            r.1 == (calls@.len() > 0),
            r.0@ == if calls@.len() == 0 { response@ } else { calls_note(calls@.len()) },
            final(self).spec_messages().len() == old(self).spec_messages().len() + 1 + calls@.len(),
            final(self).spec_messages()[old(self).spec_messages().len() as int].role == Role::Assistant,
            final(self).spec_messages()[old(self).spec_messages().len() as int].content@ == r.0@,
            forall|k: int| 0 <= k < calls@.len() ==> {
                let m = #[trigger] final(self).spec_messages()[old(self).spec_messages().len() + 1 + k];
                &&& m.role == Role::Tool
                &&& m.content@ == tool_output(calls@[k].name@, calls@[k].arguments@)
                &&& m.tool_call_id matches Some(t) && t@ == calls@[k].id@
            },
            forall|k: int| 0 <= k < old(self).spec_messages().len() ==> final(self).spec_messages()[k] == old(self).spec_messages()[k],
            final(self).spec_config() == old(self).spec_config(),
            final(self).spec_turns() == old(self).spec_turns(),
            final(self).spec_has_bridge() == old(self).spec_has_bridge(),
    {
        let n = calls.len();
        let content = if n == 0 {
            response
        } else {
            let d = decimal_chars(n);
            let mut c = string_of(d.as_slice());
            append_str(&mut c, " tool call(s) requested");
            c
        };
        let ghost start = self.messages@.len();
        let tool_calls = if n == 0 {
            None
        } else {
            let mut copies: Vec<ToolCall> = Vec::new();
            let mut j: usize = 0;
            while j < n
                invariant
                    j <= n,
                    n == calls@.len(),
                    copies@.len() == j,
                decreases n - j,
            {
                copies.push(calls[j].clone());
                j = j + 1;
            }
            Some(copies)
        };
        self.messages.push(Message { role: Role::Assistant, content: content.clone(), tool_calls, tool_call_id: None });
        let mut i: usize = 0;
        while i < n
            invariant
                i <= n,
                n == calls@.len(),
                self.messages@.len() == start + 1 + i,
                self.messages@[start as int].role == Role::Assistant,
                self.messages@[start as int].content@ == content@,
                forall|k: int| 0 <= k < i ==> {
                    let m = #[trigger] self.messages@[start + 1 + k];
                    &&& m.role == Role::Tool
                    &&& m.content@ == tool_output(calls@[k].name@, calls@[k].arguments@)
                    &&& m.tool_call_id matches Some(t) && t@ == calls@[k].id@
                },
                forall|k: int| 0 <= k < start ==> self.messages@[k] == old(self).messages@[k],
                self.config == old(self).config,
                self.turn_count == old(self).turn_count,
                self.has_bridge == old(self).has_bridge,
            decreases n - i,
        {
            let result = execute_tool(&calls[i]);
            self.messages.push(Message::tool_result(result.call_id, result.output));
            i = i + 1;
        }
        (content, n > 0)
    }

    /// The output of a run that ended with `last` as its last answer.
    pub fn output(&self, last: String) -> (r: AgentOutput)
        ensures
            r.content == last,
            r.completed == (self.spec_turns() < self.spec_config().max_turns),
            r.turns == self.spec_turns(),
    {
        AgentOutput { content: last, completed: self.turn_count < self.config.max_turns, turns: self.turn_count }
    }
}

} // verus!
