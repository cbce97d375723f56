//! The turn-based agent loop: the conversation history, turn limits,
//! interrupts, token estimates, and where tool calls sit in a response.
use crate::text::{find, rfind_char, chars_of, find_chars, rfind_char_chars, lemma_find_from, slice_range, string_of, str_eq};
use vstd::prelude::*;
use vstd::utf8::encode_utf8;

verus! {

/// A tool call requested by the model; `arguments` is its JSON text.
#[derive(Debug, Clone)]
pub struct ToolCall {
    pub id: String,
    pub name: String,
    pub arguments: String,
}

/// A message of the conversation.
#[derive(Debug, Clone)]
pub struct Message {
    pub role: String,
    pub content: String,
    pub tool_calls: Option<Vec<ToolCall>>,
}

/// The outcome of running a tool.
#[derive(Debug, Clone)]
pub struct ToolResult {
    pub tool_call_id: String,
    pub content: String,
    pub is_error: bool,
}

/// The length in bytes of a string's UTF-8 encoding, as `str::len` gives it.
pub open spec fn byte_len(s: Seq<char>) -> usize {
    encode_utf8(s).len() as usize
}

/// The view of a tool call: id, name, arguments.
pub type ToolCallView = (Seq<char>, Seq<char>, Seq<char>);

/// The view of a message: role, content, tool calls.
pub type MessageView = (Seq<char>, Seq<char>, Option<Seq<ToolCallView>>);

impl View for ToolCall {
    type V = ToolCallView;

    open spec fn view(&self) -> ToolCallView {
        (self.id@, self.name@, self.arguments@)
    }
}

/// The views of a sequence of tool calls.
pub open spec fn call_views(s: Seq<ToolCall>) -> Seq<ToolCallView> {
    s.map_values(|c: ToolCall| c@)
}

impl View for Message {
    type V = MessageView;

    open spec fn view(&self) -> MessageView {
        (
            self.role@,
            self.content@,
            match self.tool_calls {
                Some(v) => Some(call_views(v@)),
                None => None,
            },
        )
    }
}

/// The views of a sequence of messages.
pub open spec fn message_views(s: Seq<Message>) -> Seq<MessageView> {
    s.map_values(|m: Message| m@)
}

/// The number of the first `n` messages whose role is `user`.
pub open spec fn user_count(ms: Seq<MessageView>, n: int) -> int
    decreases n,
{
    if n <= 0 {
        0
    } else {
        user_count(ms, n - 1) + if ms[n - 1].0 == "user"@ {
            1int
        } else {
            0int
        }
    }
}

/// `x`, capped at the largest `usize`.
pub open spec fn cap(x: int) -> int {
    if x > usize::MAX {
        usize::MAX as int
    } else {
        x
    }
}

/// The rough token count of a message's tool calls: a quarter of the bytes
/// of each name and of each argument text.
pub open spec fn calls_tokens(cs: Seq<ToolCallView>, n: int) -> int
    decreases n,
{
    if n <= 0 {
        0
    } else {
        calls_tokens(cs, n - 1) + byte_len(cs[n - 1].1) / 4 + byte_len(cs[n - 1].2) / 4
    }
}

/// The rough token count of a message: a quarter of its bytes, its tool
/// calls, and four for the overhead.
pub open spec fn message_tokens(m: MessageView) -> int {
    byte_len(m.1) / 4 + match m.2 {
        Some(cs) => calls_tokens(cs, cs.len() as int),
        None => 0,
    } + 4
}

/// The rough token count of the first `n` messages.
pub open spec fn messages_tokens(ms: Seq<MessageView>, n: int) -> int
    decreases n,
{
    if n <= 0 {
        0
    } else {
        messages_tokens(ms, n - 1) + message_tokens(ms[n - 1])
    }
}

proof fn lemma_calls_nonneg(cs: Seq<ToolCallView>, n: int)
    ensures
        calls_tokens(cs, n) >= 0,
    decreases n,
{
    if n > 0 {
        lemma_calls_nonneg(cs, n - 1);
    }
}

proof fn lemma_messages_nonneg(ms: Seq<MessageView>, n: int)
    ensures
        messages_tokens(ms, n) >= 0,
    decreases n,
{
    if n > 0 {
        lemma_messages_nonneg(ms, n - 1);
        let m = ms[n - 1];
        if let Some(cs) = m.2 {
            lemma_calls_nonneg(cs, cs.len() as int);
        }
    }
}

fn str_bytes(s: &String) -> (r: usize)
    ensures
        r == byte_len(s@),
{
    s.as_str().len()
}

fn calls_tokens_exec(cs: &Vec<ToolCall>) -> (r: usize)
    ensures
        r == cap(calls_tokens(call_views(cs@), cs@.len() as int)),
{
    let ghost v = call_views(cs@);
    let mut t: usize = 0;
    let mut i: usize = 0;
    while i < cs.len()
        invariant
            v == call_views(cs@),
            i <= cs@.len(),
            t == cap(calls_tokens(v, i as int)),
        decreases cs@.len() - i,
    {
        proof {
            lemma_calls_nonneg(v, i as int);
        }
        assert(v[i as int] == cs@[i as int]@);
        let a = str_bytes(&cs[i].name) / 4;
        let b = str_bytes(&cs[i].arguments) / 4;
        t = t.saturating_add(a).saturating_add(b);
        i = i + 1;
    }
    t
}

/// The rough token count of one message.
pub fn message_tokens_exec(m: &Message) -> (r: usize)
    ensures
        r == cap(message_tokens(m@)),
{
    let c = str_bytes(&m.content) / 4;
    let t = match &m.tool_calls {
        Some(cs) => calls_tokens_exec(cs),
        None => 0,
    };
    proof {
        if let Some(cs) = &m.tool_calls {
            lemma_calls_nonneg(call_views(cs@), cs@.len() as int);
        }
    }
    c.saturating_add(t).saturating_add(4)
}

fn copy_opt_string(s: &Option<String>) -> (r: Option<String>)
    ensures
        r == *s,
{
    match s {
        Some(x) => Some(x.clone()),
        None => None,
    }
}

/// A copy of a tool call.
pub fn copy_call(c: &ToolCall) -> (r: ToolCall)
    ensures
        r@ == c@,
{
    ToolCall { id: c.id.clone(), name: c.name.clone(), arguments: c.arguments.clone() }
}

/// A copy of a message.
pub fn copy_message(m: &Message) -> (r: Message)
    ensures
        r@ == m@,
{
    let calls = match &m.tool_calls {
        Some(cs) => {
            let mut v: Vec<ToolCall> = Vec::new();
            let mut i: usize = 0;
            while i < cs.len()
                invariant
                    i <= cs@.len(),
                    call_views(v@) == call_views(cs@).take(i as int),
                decreases cs@.len() - i,
            {
                let c = copy_call(&cs[i]);
                let ghost before = call_views(v@);
                v.push(c);
                proof {
                    assert(call_views(v@) =~= before.push(c@));
                    assert(call_views(cs@).take(i + 1) =~= call_views(cs@).take(i as int).push(cs@[i as int]@));
                }
                i = i + 1;
            }
            assert(call_views(cs@).take(cs@.len() as int) =~= call_views(cs@));
            Some(v)
        },
        None => None,
    };
    Message { role: m.role.clone(), content: m.content.clone(), tool_calls: calls }
}

/// Copies of a sequence of messages.
pub fn copy_messages(ms: &[Message]) -> (r: Vec<Message>)
    ensures
        message_views(r@) == message_views(ms@),
{
    let mut v: Vec<Message> = Vec::new();
    let mut i: usize = 0;
    while i < ms.len()
        invariant
            i <= ms@.len(),
            message_views(v@) == message_views(ms@).take(i as int),
        decreases ms@.len() - i,
    {
        let c = copy_message(&ms[i]);
        let ghost before = message_views(v@);
        v.push(c);
        proof {
            assert(message_views(v@) =~= before.push(c@));
            assert(message_views(ms@).take(i + 1) =~= message_views(ms@).take(i as int).push(ms@[i as int]@));
        }
        i = i + 1;
    }
    assert(message_views(ms@).take(ms@.len() as int) =~= message_views(ms@));
    v
}

/// The conversation: an optional system prompt, the messages, a turn limit.
#[derive(Debug, Clone)]
pub struct Conversation {
    pub system_prompt: Option<String>,
    pub messages: Vec<Message>,
    pub max_turns: usize,
}

/// The rough token count of a conversation: a quarter of the system
/// prompt's bytes and the count of every message (capped at the largest `usize`).
pub open spec fn conversation_tokens(c: Conversation) -> int {
    cap(
        match c.system_prompt {
            Some(s) => byte_len(s@) / 4,
            None => 0,
        } + messages_tokens(message_views(c.messages@), c.messages@.len() as int),
    )
}

impl Conversation {
    /// An empty conversation.
    pub fn new(system_prompt: Option<String>, max_turns: usize) -> (r: Conversation)
        ensures
            r.system_prompt == system_prompt,
            r.messages@.len() == 0,
            r.max_turns == max_turns,
    {
        Conversation { system_prompt, messages: Vec::new(), max_turns }
    }

    /// Adds a message from the user.
    pub fn add_user_message(&mut self, content: String)
        ensures
            message_views(final(self).messages@) == message_views(old(self).messages@).push(
                ("user"@, content@, None),
            ),
            final(self).system_prompt == old(self).system_prompt,
            final(self).max_turns == old(self).max_turns,
    {
        let m = Message { role: "user".to_owned(), content, tool_calls: None };
        let ghost before = message_views(self.messages@);
        self.messages.push(m);
        assert(message_views(self.messages@) =~= before.push(m@));
    }

    /// Adds a message from the assistant, with the tool calls it asked for.
    pub fn add_assistant_message(&mut self, content: String, tool_calls: Option<Vec<ToolCall>>)
        ensures
            message_views(final(self).messages@) == message_views(old(self).messages@).push(
                (
                    "assistant"@,
                    content@,
                    match tool_calls {
                        Some(v) => Some(call_views(v@)),
                        None => None,
                    },
                ),
            ),
            final(self).system_prompt == old(self).system_prompt,
            final(self).max_turns == old(self).max_turns,
    {
        let m = Message { role: "assistant".to_owned(), content, tool_calls };
        let ghost before = message_views(self.messages@);
        self.messages.push(m);
        assert(message_views(self.messages@) =~= before.push(m@));
    }

    /// Adds a tool's result as a `tool` message.
    pub fn add_tool_result(&mut self, tool_result: ToolResult)
        ensures
            message_views(final(self).messages@) == message_views(old(self).messages@).push(
                ("tool"@, tool_result.content@, None),
            ),
            final(self).system_prompt == old(self).system_prompt,
            final(self).max_turns == old(self).max_turns,
    {
        let m = Message { role: "tool".to_owned(), content: tool_result.content, tool_calls: None };
        let ghost before = message_views(self.messages@);
        self.messages.push(m);
        assert(message_views(self.messages@) =~= before.push(m@));
    }

    /// The number of turns: the messages from the user.
    pub fn turn_count(&self) -> (r: usize)
        ensures
            r == user_count(message_views(self.messages@), self.messages@.len() as int),
    {
        let ghost ms = message_views(self.messages@);
        let mut n: usize = 0;
        let mut i: usize = 0;
        while i < self.messages.len()
            invariant
                ms == message_views(self.messages@),
                i <= self.messages@.len(),
                n == user_count(ms, i as int),
                n <= i,
            decreases self.messages@.len() - i,
        {
            assert(ms[i as int] == self.messages@[i as int]@);
            if str_eq(self.messages[i].role.as_str(), "user") {
                n = n + 1;
            }
            i = i + 1;
        }
        n
    }

    /// Whether the turn limit is reached.
    pub fn at_max_turns(&self) -> (r: bool)
        ensures
            r == (user_count(message_views(self.messages@), self.messages@.len() as int)
                >= self.max_turns),
    {
        self.turn_count() >= self.max_turns
    }

    /// The rough token count of the conversation.
    pub fn estimated_tokens(&self) -> (r: usize)
        ensures
            r == conversation_tokens(*self),
    {
        let s = match &self.system_prompt {
            Some(p) => str_bytes(p) / 4,
            None => 0,
        };
        let ghost ms = message_views(self.messages@);
        let mut t: usize = 0;
        let mut i: usize = 0;
        while i < self.messages.len()
            invariant
                ms == message_views(self.messages@),
                i <= self.messages@.len(),
                t == cap(messages_tokens(ms, i as int)),
            decreases self.messages@.len() - i,
        {
            proof {
                lemma_messages_nonneg(ms, i as int);
                let m = ms[i as int];
                if let Some(cs) = m.2 {
                    lemma_calls_nonneg(cs, cs.len() as int);
                }
            }
            assert(ms[i as int] == self.messages@[i as int]@);
            let mt = message_tokens_exec(&self.messages[i]);
            t = t.saturating_add(mt);
            i = i + 1;
        }
        proof {
            lemma_messages_nonneg(ms, ms.len() as int);
        }
        s.saturating_add(t)
    }

    /// The messages to send to the model.
    pub fn build_prompt_messages(&self) -> (r: Vec<Message>)
        ensures
            message_views(r@) == message_views(self.messages@),
    {
        copy_messages(self.messages.as_slice())
    }
}

/// The outcome of a turn.
#[derive(Debug)]
pub enum TurnResult {
    TextResponse(String),
    ToolCalls(Vec<ToolCall>),
    MaxTurnsReached,
    Interrupted,
    Error(String),
}

/// The agent loop: a conversation, an interrupt flag and a context window size.
#[derive(Debug)]
pub struct AgentLoop {
    conversation: Conversation,
    interrupted: bool,
    context_window_tokens: usize,
}

impl AgentLoop {
    /// The conversation.
    pub closed spec fn spec_conversation(&self) -> Conversation {
        self.conversation
    }

    /// Whether an interrupt is pending.
    pub closed spec fn spec_interrupted(&self) -> bool {
        self.interrupted
    }

    /// The context window size in tokens.
    pub closed spec fn spec_window(&self) -> usize {
        self.context_window_tokens
    }

    /// A loop with an empty conversation and no interrupt pending.
    pub fn new(system_prompt: Option<String>, max_turns: usize, context_window_tokens: usize) -> (r: AgentLoop)
        ensures
            r.spec_conversation().system_prompt == system_prompt,
            r.spec_conversation().messages@.len() == 0,
            r.spec_conversation().max_turns == max_turns,
            !r.spec_interrupted(),
            r.spec_window() == context_window_tokens,
    {
        AgentLoop {
            conversation: Conversation::new(system_prompt, max_turns),
            interrupted: false,
            context_window_tokens,
        }
    }

    /// Starts a turn with the user's input.  A pending interrupt is consumed
    /// and ends the turn; at the turn limit the turn does not start; otherwise
    /// the input is added to the conversation and acknowledged.
    pub fn start_turn(&mut self, user_input: &str) -> (r: TurnResult)
        ensures
            final(self).spec_window() == old(self).spec_window(),
            old(self).spec_interrupted() ==> r is Interrupted && !final(self).spec_interrupted()
                && final(self).spec_conversation() == old(self).spec_conversation(),
            !old(self).spec_interrupted() && user_count(
                message_views(old(self).spec_conversation().messages@),
                old(self).spec_conversation().messages@.len() as int,
            ) >= old(self).spec_conversation().max_turns ==> r is MaxTurnsReached
                && final(self).spec_conversation() == old(self).spec_conversation()
                && !final(self).spec_interrupted(),
            !old(self).spec_interrupted() && user_count(
                message_views(old(self).spec_conversation().messages@),
                old(self).spec_conversation().messages@.len() as int,
            ) < old(self).spec_conversation().max_turns ==> (r matches TurnResult::TextResponse(t)
                && t@ == "Agent received: "@ + user_input@) && message_views(
                final(self).spec_conversation().messages@,
            ) == message_views(old(self).spec_conversation().messages@).push(
                ("user"@, user_input@, None),
            ) && final(self).spec_conversation().system_prompt == old(self).spec_conversation().system_prompt
                && final(self).spec_conversation().max_turns == old(self).spec_conversation().max_turns
                && !final(self).spec_interrupted(),
    {
        if self.interrupted {
            self.interrupted = false;
            return TurnResult::Interrupted;
        }
        if self.conversation.at_max_turns() {
            return TurnResult::MaxTurnsReached;
        }
        self.conversation.add_user_message(user_input.to_owned());
        let mut t = "Agent received: ".to_owned();
        crate::text::append_str(&mut t, user_input);
        TurnResult::TextResponse(t)
    }

    /// Records the model's response.
    pub fn record_response(&mut self, content: String, tool_calls: Option<Vec<ToolCall>>)
        ensures
            message_views(final(self).spec_conversation().messages@) == message_views(
                old(self).spec_conversation().messages@,
            ).push(
                (
                    "assistant"@,
                    content@,
                    match tool_calls {
                        Some(v) => Some(call_views(v@)),
                        None => None,
                    },
                ),
            ),
            final(self).spec_conversation().system_prompt == old(self).spec_conversation().system_prompt,
            final(self).spec_conversation().max_turns == old(self).spec_conversation().max_turns,
            final(self).spec_interrupted() == old(self).spec_interrupted(),
            final(self).spec_window() == old(self).spec_window(),
    {
        self.conversation.add_assistant_message(content, tool_calls);
    }

    /// Records a tool's result.
    pub fn add_tool_result(&mut self, result: ToolResult)
        ensures
            message_views(final(self).spec_conversation().messages@) == message_views(
                old(self).spec_conversation().messages@,
            ).push(("tool"@, result.content@, None)),
            final(self).spec_conversation().system_prompt == old(self).spec_conversation().system_prompt,
            final(self).spec_conversation().max_turns == old(self).spec_conversation().max_turns,
            final(self).spec_interrupted() == old(self).spec_interrupted(),
            final(self).spec_window() == old(self).spec_window(),
    {
        self.conversation.add_tool_result(result);
    }

    /// Asks the next turn to stop.
    pub fn interrupt(&mut self)
        ensures
            final(self).spec_interrupted(),
            final(self).spec_conversation() == old(self).spec_conversation(),
            final(self).spec_window() == old(self).spec_window(),
    {
        self.interrupted = true;
    }

    /// Whether the conversation no longer fits the context window.
    pub fn needs_compaction(&self) -> (r: bool)
        ensures
            r == (conversation_tokens(self.spec_conversation()) > self.spec_window()),
    {
        self.conversation.estimated_tokens() > self.context_window_tokens
    }

    /// The number of turns so far.
    pub fn turn_count(&self) -> (r: usize)
        ensures
            r == user_count(
                message_views(self.spec_conversation().messages@),
                self.spec_conversation().messages@.len() as int,
            ),
    {
        self.conversation.turn_count()
    }

    /// The rough token count of the conversation.
    pub fn token_usage(&self) -> (r: usize)
        ensures
            r == conversation_tokens(self.spec_conversation()),
    {
        self.conversation.estimated_tokens()
    }

    /// The conversation.
    pub fn conversation(&self) -> (r: &Conversation)
        ensures
            *r == self.spec_conversation(),
    {
        &self.conversation
    }

    /// Replaces the conversation, as compaction does.
    pub fn set_conversation(&mut self, conversation: Conversation)
        ensures
            final(self).spec_conversation() == conversation,
            final(self).spec_interrupted() == old(self).spec_interrupted(),
            final(self).spec_window() == old(self).spec_window(),
    {
        self.conversation = conversation;
    }
}

/// The JSON text of the tool calls in a response, in order: around each
/// `"name"`, from the last `{` before it to the first `}` after it; the
/// search goes on after that `}` and stops at a `"name"` without both.
pub open spec fn tool_call_candidates_spec(rem: Seq<char>) -> Seq<Seq<char>>
    decreases rem.len(),
{
    match find(rem, "\"name\""@) {
        Some(start) => if 0 <= start <= rem.len() {
            match rfind_char(rem.take(start), '{') {
                Some(b) => match find(rem.skip(start), seq!['}']) {
                    Some(e) => if 0 <= b && 0 <= e && start + e + 1 <= rem.len() {
                        seq![rem.subrange(b, start + e + 1)] + tool_call_candidates_spec(
                            rem.skip(start + e + 1),
                        )
                    } else {
                        seq![]
                    },
                    None => seq![],
                },
                None => seq![],
            }
        } else {
            seq![]
        },
        None => seq![],
    }
}

/// The JSON text of the tool calls in a response; each is then read as a
/// tool call, and those that do not read are skipped.
pub fn tool_call_candidates(response: &str) -> (r: Vec<String>)
    ensures
        r@.map_values(|s: String| s@) == tool_call_candidates_spec(response@),
{
    let all = chars_of(response);
    let key = chars_of("\"name\"");
    let close = vec!['}'];
    assert(close@ =~= seq!['}']);
    let mut out: Vec<String> = Vec::new();
    let mut pos: usize = 0;
    proof {
        assert(all@.skip(0) =~= all@);
        assert(out@.map_values(|s: String| s@) =~= seq![]);
    }
    loop
        invariant
            all@ == response@,
            key@ == "\"name\""@,
            close@ == seq!['}'],
            pos <= all@.len(),
            out@.map_values(|s: String| s@) + tool_call_candidates_spec(all@.skip(pos as int))
                == tool_call_candidates_spec(response@),
        decreases all@.len() - pos,
    {
        let n = all.len();
        let rem = slice_range(all.as_slice(), pos, n);
        assert(rem@ =~= all@.skip(pos as int));
        let ghost g = rem@;
        let start = match find_chars(rem.as_slice(), key.as_slice()) {
            Some(s) => s,
            None => {
                assert(out@.map_values(|s: String| s@) =~= out@.map_values(|s: String| s@) + seq![]);
                return out;
            },
        };
        proof {
            lemma_find_from(g, key@, 0);
        }
        let head = slice_range(rem.as_slice(), 0, start);
        assert(head@ =~= g.take(start as int));
        let b = match rfind_char_chars(head.as_slice(), '{') {
            Some(b) => b,
            None => {
                assert(out@.map_values(|s: String| s@) =~= out@.map_values(|s: String| s@) + seq![]);
                return out;
            },
        };
        let m = rem.len();
        let tail = slice_range(rem.as_slice(), start, m);
        assert(tail@ =~= g.skip(start as int));
        let e = match find_chars(tail.as_slice(), close.as_slice()) {
            Some(e) => e,
            None => {
                assert(out@.map_values(|s: String| s@) =~= out@.map_values(|s: String| s@) + seq![]);
                return out;
            },
        };
        proof {
            lemma_find_from(tail@, close@, 0);
            crate::text::lemma_rfind_char(head@, '{');
        }
        let piece = slice_range(rem.as_slice(), b, start + e + 1);
        let ghost before = out@.map_values(|s: String| s@);
        out.push(string_of(piece.as_slice()));
        proof {
            assert(g.skip(start + e + 1) =~= all@.skip(pos + start + e + 1));
            assert(out@.map_values(|s: String| s@) =~= before.push(piece@));
            assert(tool_call_candidates_spec(g) =~= seq![piece@] + tool_call_candidates_spec(g.skip(start + e + 1)));
            assert(before + tool_call_candidates_spec(g) =~= out@.map_values(|s: String| s@)
                + tool_call_candidates_spec(g.skip(start + e + 1)));
        }
        pos = pos + start + e + 1;
    }
}

} // verus!
