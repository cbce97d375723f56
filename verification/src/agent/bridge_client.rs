//! The client side of the TypeScript bridge: the messages exchanged with it,
//! and the connection state that decides whether a call may be made and
//! whether another reconnection may be tried.
use vstd::prelude::*;

use crate::agent::providers::ProviderConfig;
use crate::text::{append_str, chars_of, decimal, decimal_chars, decimal_chars_u64, string_of, trim, trim_chars};

verus! {

/// Seconds a bridge call may take before it is abandoned.
pub const DEFAULT_TIMEOUT_SECS: u64 = 30;

/// Seconds a cancellation request may take.
pub const CANCEL_TIMEOUT_SECS: u64 = 2;

/// One message of a prompt; tool calls are JSON texts.
#[derive(Debug, Clone)]
pub struct PromptMessage {
    pub role: String,
    pub content: String,
    pub tool_calls: Option<Vec<String>>,
}

/// What a prompt sends: the model, the conversation, an optional system prompt,
/// an optional token limit, and tools as JSON texts.
#[derive(Debug, Clone)]
pub struct PromptParams {
    pub model: String,
    pub messages: Vec<PromptMessage>,
    pub system: Option<String>,
    pub max_tokens: Option<u32>,
    pub tools: Option<Vec<String>>,
}

/// A tool call requested by the model; the arguments are a JSON text.
#[derive(Debug, Clone)]
pub struct ToolCallResponse {
    pub id: String,
    pub name: String,
    pub arguments: String,
}

/// Token usage of one prompt.
#[derive(Debug, Clone, Copy, PartialEq, Eq, Structural)]
pub struct TokenUsage {
    pub prompt_tokens: u32,
    pub completion_tokens: u32,
    pub total_tokens: u32,
}

/// What a prompt gives back.
#[derive(Debug, Clone)]
pub struct PromptResponse {
    pub content: String,
    pub tool_calls: Vec<ToolCallResponse>,
    pub usage: Option<TokenUsage>,
    pub finish_reason: Option<String>,
}

/// What a request to compact the context sends.
#[derive(Debug, Clone)]
pub struct CompactContextParams {
    pub messages: Vec<PromptMessage>,
    pub max_summary_tokens: Option<u32>,
}

/// What a request to compact the context gives back.
#[derive(Debug, Clone)]
pub struct CompactContextResponse {
    pub summary: String,
    pub original_tokens: u32,
    pub summary_tokens: u32,
}

/// A piece of a streamed answer; the last one is marked done.
#[derive(Debug, Clone)]
pub struct TokenChunk {
    pub text: String,
    pub done: bool,
}

/// The system prompt the agent sends.
pub open spec fn system_prompt_text() -> Seq<char> {
    "You are a helpful AI assistant running in the Pi Hybrid TUI.\nYou have access to tools for reading/writing files, running shell commands,\nand managing the workspace.\n\nWhen creating plans, break down tasks into clear, executable steps.\nEach step should specify the tool and parameters needed.\n\nRespond concisely and directly. Use tool calls when needed."@
}

/// The system prompt the agent sends.
pub fn default_system_prompt() -> (r: String)
    ensures
        r@ == system_prompt_text(),
{
    "You are a helpful AI assistant running in the Pi Hybrid TUI.\nYou have access to tools for reading/writing files, running shell commands,\nand managing the workspace.\n\nWhen creating plans, break down tasks into clear, executable steps.\nEach step should specify the tool and parameters needed.\n\nRespond concisely and directly. Use tool calls when needed.".to_owned()
}

/// A message from the user, with no tool calls.
pub fn user_message(content: &str) -> (r: PromptMessage)
    ensures
        r.role@ == "user"@,
        r.content@ == content@,
        r.tool_calls is None,
{
    PromptMessage { role: "user".to_owned(), content: content.to_owned(), tool_calls: None }
}

/// The chunks a stream gives for a reply: the reply's text, when it has one,
/// then an empty chunk marked done.
pub fn stream_chunks(text: Option<String>) -> (r: Vec<TokenChunk>)
    ensures
        match text {
            Some(t) => r@.len() == 2 && r@[0].text@ == t@ && !r@[0].done && r@[1].text@.len()
                == 0 && r@[1].done,
            None => r@.len() == 1 && r@[0].text@.len() == 0 && r@[0].done,
        },
{
    let mut r: Vec<TokenChunk> = Vec::new();
    if let Some(t) = text {
        r.push(TokenChunk { text: t, done: false });
    }
    r.push(TokenChunk { text: String::new(), done: true });
    r
}

/// The text of the error refused once the reconnection attempts are used up.
pub open spec fn max_reconnect_text(max: nat) -> Seq<char> {
    "Max reconnection attempts ("@ + decimal(max) + ") reached"@
}

/// The state of a bridge connection: whether it is up, how many reconnections
/// were tried out of how many allowed, the provider in use, and whether the
/// workbench asked to stop.
#[derive(Debug)]
pub struct BridgeClient {
    connected: bool,
    reconnect_attempts: usize,
    max_reconnect_attempts: usize,
    provider: Option<ProviderConfig>,
    cancelled: bool,
}

/// The view of a connection: connected, attempts, allowed attempts, cancelled.
pub type BridgeView = (bool, nat, nat, bool);

impl View for BridgeClient {
    type V = BridgeView;

    closed spec fn view(&self) -> BridgeView {
        (self.connected, self.reconnect_attempts as nat, self.max_reconnect_attempts as nat, self.cancelled)
    }
}

impl BridgeClient {
    /// The provider in use, if one was set.
    pub closed spec fn spec_provider(&self) -> Option<ProviderConfig> {
        self.provider
    }

    /// A freshly started connection: up, no reconnection tried, three allowed.
    pub fn connected(provider: Option<ProviderConfig>) -> (r: BridgeClient)
        ensures
            r@ == (true, 0nat, 3nat, false),
            r.spec_provider() == provider,
    {
        BridgeClient {
            connected: true,
            reconnect_attempts: 0,
            max_reconnect_attempts: 3,
            provider,
            cancelled: false,
        }
    }

    /// Sets the provider in use.
    pub fn set_provider(&mut self, provider: ProviderConfig)
        ensures
            final(self)@ == old(self)@,
            final(self).spec_provider() == Some(provider),
    {
        self.provider = Some(provider);
    }

    /// The provider in use, if one was set.
    pub fn provider(&self) -> (r: Option<&ProviderConfig>)
        ensures
            match r {
                Some(p) => self.spec_provider() == Some(*p),
                None => self.spec_provider() is None,
            },
    {
        self.provider.as_ref()
    }

    /// Records that the workbench asked to stop: later calls are refused.
    pub fn cancel_requested(&mut self)
        ensures
            final(self)@ == (old(self)@.0, old(self)@.1, old(self)@.2, true),
            final(self).spec_provider() == old(self).spec_provider(),
    {
        self.cancelled = true;
    }

    /// Whether the connection is up.
    pub fn is_connected(&self) -> (r: bool)
        ensures
            r == self@.0,
    {
        self.connected
    }

    /// Records that the bridge process went away.
    pub fn disconnected(&mut self)
        ensures
            final(self)@ == (false, old(self)@.1, old(self)@.2, old(self)@.3),
            final(self).spec_provider() == old(self).spec_provider(),
    {
        self.connected = false;
    }

    /// Whether a prompt, stream or compaction may be sent: refused once
    /// stopping was asked for, then while the connection is down.
    pub fn check_call(&self) -> (r: Result<(), String>)
        ensures
            match r {
                Ok(_) => !self@.3 && self@.0,
                Err(e) => if self@.3 {
                    e@ == "Operation cancelled"@
                } else {
                    !self@.0 && e@ == "Bridge is not connected"@
                },
            },
    {
        if self.cancelled {
            Err("Operation cancelled".to_owned())
        } else if !self.connected {
            Err("Bridge is not connected".to_owned())
        } else {
            Ok(())
        }
    }

    /// Whether a skill listing may be sent: only the connection matters.
    pub fn check_listing(&self) -> (r: Result<(), String>)
        ensures
            match r {
                Ok(_) => self@.0,
                Err(e) => !self@.0 && e@ == "Bridge is not connected"@,
            },
    {
        if !self.connected {
            Err("Bridge is not connected".to_owned())
        } else {
            Ok(())
        }
    }

    /// Starts a reconnection: refused once the allowed attempts are used up,
    /// else the attempt is counted.
    pub fn begin_reconnect(&mut self) -> (r: Result<(), String>)
        ensures
            old(self)@.1 >= old(self)@.2 ==> match r {
                Err(e) => e@ == max_reconnect_text(old(self)@.2) && final(self)@ == old(self)@,
                Ok(_) => false,
            },
            old(self)@.1 < old(self)@.2 ==> r is Ok && final(self)@ == (
                old(self)@.0,
                old(self)@.1 + 1,
                old(self)@.2,
                old(self)@.3,
            ),
            final(self).spec_provider() == old(self).spec_provider(),
    {
        if self.reconnect_attempts >= self.max_reconnect_attempts {
            let mut e = "Max reconnection attempts (".to_owned();
            let d = decimal_chars(self.max_reconnect_attempts);
            let ds = string_of(d.as_slice());
            append_str(&mut e, ds.as_str());
            append_str(&mut e, ") reached");
            return Err(e);
        }
        self.reconnect_attempts = self.reconnect_attempts + 1;
        Ok(())
    }

    /// Records that a reconnection brought the bridge back.
    pub fn reconnected(&mut self)
        ensures
            final(self)@ == (true, old(self)@.1, old(self)@.2, old(self)@.3),
            final(self).spec_provider() == old(self).spec_provider(),
    {
        self.connected = true;
    }

    /// The number of reconnections tried.
    pub fn reconnect_attempts(&self) -> (r: usize)
        ensures
            r == self@.1,
    {
        self.reconnect_attempts
    }

    /// Forgets the reconnections tried.
    pub fn reset_reconnect_attempts(&mut self)
        ensures
            final(self)@ == (old(self)@.0, 0nat, old(self)@.2, old(self)@.3),
            final(self).spec_provider() == old(self).spec_provider(),
    {
        self.reconnect_attempts = 0;
    }

    /// What a prompt under the provider in use sends: the provider's default
    /// model, or "default" without one; the prompt as the one user message;
    /// the default system prompt.
    pub fn provider_prompt(&self, prompt: &str) -> (r: PromptParams)
        ensures
            r.model@ == match self.spec_provider() {
                Some(p) => p.default_model@,
                None => "default"@,
            },
            r.messages@.len() == 1,
            r.messages@[0].role@ == "user"@,
            r.messages@[0].content@ == prompt@,
            r.messages@[0].tool_calls is None,
            r.system matches Some(s) && s@ == system_prompt_text(),
            r.max_tokens is None,
            r.tools is None,
    {
        let model = match &self.provider {
            Some(p) => p.default_model.clone(),
            None => "default".to_owned(),
        };
        PromptParams {
            model,
            messages: vec![user_message(prompt)],
            system: Some(default_system_prompt()),
            max_tokens: None,
            tools: None,
        }
    }
}

/// Whether a bridge process may be started for `command`: refused when the
/// command is blank.
pub fn check_command(command: &str) -> (r: Result<(), String>)
    ensures
        r is Ok <==> trim(command@).len() != 0,
        r matches Err(e) ==> e@ == "bridge command cannot be empty"@,
{
    let c = chars_of(command);
    let t = trim_chars(c.as_slice());
    if t.len() == 0 {
        Err("bridge command cannot be empty".to_owned())
    } else {
        Ok(())
    }
}

/// The error for an answer that does not carry the request's id.
pub open spec fn id_mismatch_text(got: u64, expected: u64) -> Seq<char> {
    "bridge response id "@ + decimal(got as nat) + " did not match request id "@ + decimal(expected as nat)
}

/// Whether an answer of the bridge settles the request `expected_id`: it must
/// carry that id, no error (given as its JSON text), and a result.
pub fn check_reply(expected_id: u64, got_id: u64, error: Option<String>, has_result: bool) -> (r: Result<(), String>)
    ensures
        got_id != expected_id ==> (r matches Err(e) && e@ == id_mismatch_text(got_id, expected_id)),
        got_id == expected_id ==> match error {
            Some(t) => r matches Err(e) && e@ == "bridge error: "@ + t@,
            None => if has_result {
                r is Ok
            } else {
                r matches Err(e) && e@ == "bridge response missing result"@
            },
        },
{
    if got_id != expected_id {
        let mut e = "bridge response id ".to_owned();
        append_str(&mut e, string_of(decimal_chars_u64(got_id).as_slice()).as_str());
        append_str(&mut e, " did not match request id ");
        append_str(&mut e, string_of(decimal_chars_u64(expected_id).as_slice()).as_str());
        return Err(e);
    }
    match error {
        Some(t) => {
            let mut e = "bridge error: ".to_owned();
            append_str(&mut e, t.as_str());
            Err(e)
        },
        None => if has_result {
            Ok(())
        } else {
            Err("bridge response missing result".to_owned())
        },
    }
}

} // verus!
