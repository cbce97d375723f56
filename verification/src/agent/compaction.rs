//! Context compaction: when the conversation outgrows the context window,
//! the older messages are replaced by one summary message and the most
//! recent ones are kept as they are.
use crate::agent::agent_loop::{
    byte_len, call_views, copy_messages, message_tokens, message_tokens_exec, message_views,
    Message, MessageView,
};
use crate::text::{append_str, decimal, decimal_chars, str_eq, string_of};
use vstd::prelude::*;

verus! {

/// A compacted run of messages: its range, its summary, and the token counts before and after.
#[derive(Debug)]
pub struct CompactedSegment {
    pub original_range: (usize, usize),
    pub summary: String,
    pub summary_tokens: usize,
    pub original_tokens: usize,
}

/// `x`, capped at the largest `usize`.
pub open spec fn capped(x: int) -> int {
    if x > usize::MAX {
        usize::MAX as int
    } else {
        x
    }
}

/// The token estimate of a text: a quarter of its bytes, at least one.
pub open spec fn estimate_spec(s: Seq<char>) -> int {
    let q = byte_len(s) / 4;
    if q < 1 {
        1
    } else {
        q as int
    }
}

/// The token estimate of a message: its text, twice its tool names and its
/// argument texts, and four for the overhead.
pub open spec fn estimate_message(m: MessageView) -> int {
    estimate_spec(m.1) + match m.2 {
        Some(cs) => calls_estimate(cs, cs.len() as int),
        None => 0,
    } + 4
}

/// The token estimate of the first `n` tool calls.
pub open spec fn calls_estimate(cs: Seq<(Seq<char>, Seq<char>, Seq<char>)>, n: int) -> int
    decreases n,
{
    if n <= 0 {
        0
    } else {
        calls_estimate(cs, n - 1) + estimate_spec(cs[n - 1].1) * 2 + estimate_spec(cs[n - 1].2)
    }
}

/// The token estimate of the first `n` messages.
pub open spec fn total_estimate(ms: Seq<MessageView>, n: int) -> int
    decreases n,
{
    if n <= 0 {
        0
    } else {
        total_estimate(ms, n - 1) + estimate_message(ms[n - 1])
    }
}

/// The token estimate of a list of messages (capped at the largest `usize`).
pub open spec fn total_tokens(ms: Seq<MessageView>) -> int {
    capped(total_estimate(ms, ms.len() as int))
}

proof fn lemma_calls_estimate_nonneg(cs: Seq<(Seq<char>, Seq<char>, Seq<char>)>, n: int)
    ensures
        calls_estimate(cs, n) >= 0,
    decreases n,
{
    if n > 0 {
        lemma_calls_estimate_nonneg(cs, n - 1);
    }
}

proof fn lemma_total_nonneg(ms: Seq<MessageView>, n: int)
    ensures
        total_estimate(ms, n) >= 0,
    decreases n,
{
    if n > 0 {
        lemma_total_nonneg(ms, n - 1);
        if let Some(cs) = ms[n - 1].2 {
            lemma_calls_estimate_nonneg(cs, cs.len() as int);
        }
    }
}

/// The view of a segment: range, summary, summary tokens, tokens before compaction.
pub type SegmentView = ((usize, usize), Seq<char>, usize, usize);

impl View for CompactedSegment {
    type V = SegmentView;

    open spec fn view(&self) -> SegmentView {
        (self.original_range, self.summary@, self.summary_tokens, self.original_tokens)
    }
}

/// The text of the message that stands for a compacted segment.
pub open spec fn summary_text(s: SegmentView) -> Seq<char> {
    "[Context Summary — messages "@ + decimal(s.0.0 as nat) + "-"@ + decimal(s.0.1 as nat) + " — "@
        + decimal(s.3 as nat) + " tokens → "@ + decimal(s.2 as nat) + " tokens]: "@ + s.1
}

/// The number of the first `n` messages whose role is `r`.
pub open spec fn role_count(ms: Seq<MessageView>, n: int, r: Seq<char>) -> int
    decreases n,
{
    if n <= 0 {
        0
    } else {
        role_count(ms, n - 1, r) + if ms[n - 1].0 == r {
            1int
        } else {
            0int
        }
    }
}

/// The summary used when none was produced: how many user and assistant messages were compacted.
pub open spec fn fallback_summary(ms: Seq<MessageView>) -> Seq<char> {
    "["@ + decimal(role_count(ms, ms.len() as int, "user"@) as nat) + " user messages and "@
        + decimal(role_count(ms, ms.len() as int, "assistant"@) as nat)
        + " assistant messages compacted]"@
}

/// The prompt that asks for a summary of messages: each as `[role]: content`, one per line.
pub open spec fn conversation_lines(ms: Seq<MessageView>, n: int) -> Seq<char>
    decreases n,
{
    if n <= 0 {
        seq![]
    } else if n == 1 {
        "["@ + ms[0].0 + "]: "@ + ms[0].1
    } else {
        conversation_lines(ms, n - 1) + "\n"@ + "["@ + ms[n - 1].0 + "]: "@ + ms[n - 1].1
    }
}

/// The summarization prompt for a list of messages.
pub open spec fn summarization_prompt(ms: Seq<MessageView>) -> Seq<char> {
    "Please summarize the following conversation segment concisely, preserving key decisions, facts, and action items:\n\n"@
        + conversation_lines(ms, ms.len() as int) + "\n\nSummary:"@
}

/// The manager of compaction: a token budget, how many recent messages are
/// kept, the segments compacted so far, and whether compaction runs.
#[derive(Debug)]
pub struct CompactionManager {
    max_tokens: usize,
    keep_recent: usize,
    segments: Vec<CompactedSegment>,
    compacting: bool,
}

/// The view of a manager: budget, recent messages kept, segments, compacting.
pub type ManagerView = (usize, usize, Seq<SegmentView>, bool);

impl View for CompactionManager {
    type V = ManagerView;

    closed spec fn view(&self) -> ManagerView {
        (self.max_tokens, self.keep_recent, self.segments@.map_values(|s: CompactedSegment| s@), self.compacting)
    }
}

/// The messages to compact: all but the most recent `keep` ones, when there
/// are more than `keep` and their estimate exceeds the budget.
pub open spec fn segment_spec(v: ManagerView, ms: Seq<MessageView>) -> Option<(usize, usize)> {
    if ms.len() <= v.1 || total_tokens(ms) <= v.0 || ms.len() - v.1 == 0 {
        None
    } else {
        Some((0usize, (ms.len() - v.1) as usize))
    }
}

/// Compaction replaces the oldest messages only: the segment starts at the
/// first message and leaves exactly the `keep` most recent ones after it.
pub proof fn lemma_compact_keeps_recent(v: ManagerView, ms: Seq<MessageView>)
    requires
        ms.len() <= usize::MAX,
    ensures
        segment_spec(v, ms) matches Some((s, e)) ==> s == 0 && e <= ms.len() && ms.skip(e as int).len() == v.1
            && ms.skip(e as int) == ms.subrange(ms.len() - v.1, ms.len() as int),
{
    if let Some((s, e)) = segment_spec(v, ms) {
        assert(ms.skip(e as int) =~= ms.subrange(ms.len() - v.1, ms.len() as int));
    }
}

/// The tokens saved by the first `n` segments (each never below zero).
pub open spec fn saved(ss: Seq<SegmentView>, n: int) -> int
    decreases n,
{
    if n <= 0 {
        0
    } else {
        saved(ss, n - 1) + if ss[n - 1].3 >= ss[n - 1].2 {
            ss[n - 1].3 - ss[n - 1].2
        } else {
            0
        }
    }
}

proof fn lemma_saved_nonneg(ss: Seq<SegmentView>, n: int)
    ensures
        saved(ss, n) >= 0,
    decreases n,
{
    if n > 0 {
        lemma_saved_nonneg(ss, n - 1);
    }
}

impl CompactionManager {
    /// A manager with the given budget, keeping the last 20 messages.
    pub fn new(max_tokens: usize) -> (r: CompactionManager)
        ensures
            r@ == (max_tokens, 20usize, Seq::<SegmentView>::empty(), false),
    {
        let r = CompactionManager { max_tokens, keep_recent: 20, segments: Vec::new(), compacting: false };
        assert(r.segments@.map_values(|s: CompactedSegment| s@) =~= seq![]);
        r
    }

    /// A manager with the given budget, keeping the last `keep_recent` messages.
    pub fn with_recent(max_tokens: usize, keep_recent: usize) -> (r: CompactionManager)
        ensures
            r@ == (max_tokens, keep_recent, Seq::<SegmentView>::empty(), false),
    {
        let r = CompactionManager { max_tokens, keep_recent, segments: Vec::new(), compacting: false };
        assert(r.segments@.map_values(|s: CompactedSegment| s@) =~= seq![]);
        r
    }

    /// The token estimate of a text: a quarter of its bytes, at least one.
    pub fn estimate_tokens(text: &str) -> (r: usize)
        ensures
            r == estimate_spec(text@),
    {
        let q = text.len() / 4;
        if q < 1 {
            1
        } else {
            q
        }
    }

    /// The token estimate of a list of messages.
    pub fn estimate_total_tokens(messages: &[Message]) -> (r: usize)
        ensures
            r == total_tokens(message_views(messages@)),
    {
        let ghost ms = message_views(messages@);
        let mut t: usize = 0;
        let mut i: usize = 0;
        while i < messages.len()
            invariant
                ms == message_views(messages@),
                i <= messages@.len(),
                t == capped(total_estimate(ms, i as int)),
            decreases messages@.len() - i,
        {
            proof {
                lemma_total_nonneg(ms, i as int);
            }
            let m = &messages[i];
            assert(ms[i as int] == m@);
            let c = CompactionManager::estimate_tokens(m.content.as_str());
            let mut tools: usize = 0;
            match &m.tool_calls {
                Some(cs) => {
                    let ghost cv = call_views(cs@);
                    let mut k: usize = 0;
                    while k < cs.len()
                        invariant
                            cv == call_views(cs@),
                            k <= cs@.len(),
                            tools == capped(calls_estimate(cv, k as int)),
                        decreases cs@.len() - k,
                    {
                        proof {
                            lemma_calls_estimate_nonneg(cv, k as int);
                        }
                        assert(cv[k as int] == cs@[k as int]@);
                        let a = CompactionManager::estimate_tokens(cs[k].name.as_str());
                        let b = CompactionManager::estimate_tokens(cs[k].arguments.as_str());
                        tools = tools.saturating_add(a).saturating_add(a).saturating_add(b);
                        k = k + 1;
                    }
                    proof {
                        lemma_calls_estimate_nonneg(cv, cv.len() as int);
                    }
                },
                None => {},
            }
            let mt = c.saturating_add(tools).saturating_add(4);
            t = t.saturating_add(mt);
            i = i + 1;
        }
        t
    }

    /// Whether the messages exceed the budget.
    pub fn needs_compaction(&self, messages: &[Message]) -> (r: bool)
        ensures
            r == (total_tokens(message_views(messages@)) > self@.0),
    {
        CompactionManager::estimate_total_tokens(messages) > self.max_tokens
    }

    /// How many of the oldest messages to compact, when compaction is needed.
    pub fn compaction_target(&self, messages: &[Message]) -> (r: Option<usize>)
        ensures
            r == (if messages@.len() <= self@.1 || total_tokens(message_views(messages@)) <= self@.0 {
                None
            } else {
                Some((messages@.len() - self@.1) as usize)
            }),
    {
        if messages.len() <= self.keep_recent {
            return None;
        }
        let total = CompactionManager::estimate_total_tokens(messages);
        if total <= self.max_tokens {
            return None;
        }
        Some(messages.len() - self.keep_recent)
    }

    /// The range of messages to compact, if any.
    pub fn find_compact_segment(&self, messages: &[Message]) -> (r: Option<(usize, usize)>)
        ensures
            r == segment_spec(self@, message_views(messages@)),
    {
        if messages.len() <= self.keep_recent {
            return None;
        }
        if !self.needs_compaction(messages) {
            return None;
        }
        match self.compaction_target(messages) {
            Some(n) => if n == 0 {
                None
            } else {
                Some((0, n))
            },
            None => None,
        }
    }

    /// The prompt that asks the model to summarize the messages.
    pub fn build_summarization_prompt(messages: &[Message]) -> (r: String)
        ensures
            r@ == summarization_prompt(message_views(messages@)),
    {
        let ghost ms = message_views(messages@);
        let mut body = String::new();
        let mut i: usize = 0;
        while i < messages.len()
            invariant
                ms == message_views(messages@),
                i <= messages@.len(),
                body@ == conversation_lines(ms, i as int),
            decreases messages@.len() - i,
        {
            assert(ms[i as int] == messages@[i as int]@);
            if i > 0 {
                append_str(&mut body, "\n");
            }
            append_str(&mut body, "[");
            append_str(&mut body, messages[i].role.as_str());
            append_str(&mut body, "]: ");
            append_str(&mut body, messages[i].content.as_str());
            proof {
                if i == 0 {
                    assert(body@ =~= conversation_lines(ms, 1));
                } else {
                    assert(body@ =~= conversation_lines(ms, i + 1));
                }
            }
            i = i + 1;
        }
        let mut r = "Please summarize the following conversation segment concisely, preserving key decisions, facts, and action items:\n\n".to_owned();
        append_str(&mut r, body.as_str());
        append_str(&mut r, "\n\nSummary:");
        r
    }

    /// The system message that stands for a compacted segment.
    pub fn create_summary_message(segment: &CompactedSegment) -> (r: Message)
        ensures
            r@ == ("system"@, summary_text(segment@), None::<Seq<(Seq<char>, Seq<char>, Seq<char>)>>),
    {
        let mut c = "[Context Summary — messages ".to_owned();
        append_str(&mut c, string_of(decimal_chars(segment.original_range.0).as_slice()).as_str());
        append_str(&mut c, "-");
        append_str(&mut c, string_of(decimal_chars(segment.original_range.1).as_slice()).as_str());
        append_str(&mut c, " — ");
        append_str(&mut c, string_of(decimal_chars(segment.original_tokens).as_slice()).as_str());
        append_str(&mut c, " tokens → ");
        append_str(&mut c, string_of(decimal_chars(segment.summary_tokens).as_slice()).as_str());
        append_str(&mut c, " tokens]: ");
        append_str(&mut c, segment.summary.as_str());
        Message { role: "system".to_owned(), content: c, tool_calls: None }
    }
}

fn copy_range(ms: &[Message], a: usize, b: usize) -> (r: Vec<Message>)
    requires
        a <= b <= ms@.len(),
    ensures
        message_views(r@) == message_views(ms@).subrange(a as int, b as int),
{
    let mut v: Vec<Message> = Vec::new();
    let mut i: usize = a;
    while i < b
        invariant
            a <= i <= b <= ms@.len(),
            message_views(v@) == message_views(ms@).subrange(a as int, i as int),
        decreases b - i,
    {
        let c = crate::agent::agent_loop::copy_message(&ms[i]);
        let ghost before = message_views(v@);
        v.push(c);
        proof {
            assert(message_views(v@) =~= before.push(c@));
            assert(message_views(ms@).subrange(a as int, i + 1) =~= message_views(ms@).subrange(a as int, i as int).push(ms@[i as int]@));
        }
        i = i + 1;
    }
    v
}

fn count_role(ms: &[Message], role: &str) -> (r: usize)
    ensures
        r == role_count(message_views(ms@), ms@.len() as int, role@),
{
    let ghost mv = message_views(ms@);
    let mut n: usize = 0;
    let mut i: usize = 0;
    while i < ms.len()
        invariant
            mv == message_views(ms@),
            i <= ms@.len(),
            n == role_count(mv, i as int, role@),
            n <= i,
        decreases ms@.len() - i,
    {
        assert(mv[i as int] == ms@[i as int]@);
        if str_eq(ms[i].role.as_str(), role) {
            n = n + 1;
        }
        i = i + 1;
    }
    n
}

/// The segment that a compaction of `ms[s..e]` records.
pub open spec fn segment_of(ms: Seq<MessageView>, s: usize, e: usize, summary: Option<Seq<char>>) -> SegmentView {
    let part = ms.subrange(s as int, e as int);
    let text = match summary {
        Some(t) => t,
        None => fallback_summary(part),
    };
    ((s, e), text, estimate_spec(text) as usize, total_tokens(part) as usize)
}

impl CompactionManager {
    /// Replaces the messages to compact, if any, by one summary message:
    /// the summary given, or a count of the messages compacted when none was
    /// produced.  The segment is recorded; the recent messages follow the summary.
    pub fn compact(&mut self, messages: &[Message], summary: Option<String>) -> (r: Vec<Message>)
        ensures
            match segment_spec(old(self)@, message_views(messages@)) {
                None => message_views(r@) == message_views(messages@) && final(self)@ == old(self)@,
                Some((s, e)) => {
                    let seg = segment_of(
                        message_views(messages@),
                        s,
                        e,
                        match summary {
                            Some(t) => Some(t@),
                            None => None,
                        },
                    );
                    &&& final(self)@ == (old(self)@.0, old(self)@.1, old(self)@.2.push(seg), old(self)@.3)
                    &&& message_views(r@) == seq![("system"@, summary_text(seg), None::<Seq<(Seq<char>, Seq<char>, Seq<char>)>>)]
                        + message_views(messages@).skip(e as int)
                },
            },
    {
        let (start, end) = match self.find_compact_segment(messages) {
            Some(p) => p,
            None => {
                return copy_messages(messages);
            },
        };
        let part = copy_range(messages, start, end);
        let original_tokens = CompactionManager::estimate_total_tokens(part.as_slice());
        let text = match summary {
            Some(t) => t,
            None => {
                let u = count_role(part.as_slice(), "user");
                let a = count_role(part.as_slice(), "assistant");
                let mut t = "[".to_owned();
                append_str(&mut t, string_of(decimal_chars(u).as_slice()).as_str());
                append_str(&mut t, " user messages and ");
                append_str(&mut t, string_of(decimal_chars(a).as_slice()).as_str());
                append_str(&mut t, " assistant messages compacted]");
                t
            },
        };
        let summary_tokens = CompactionManager::estimate_tokens(text.as_str());
        let seg = CompactedSegment {
            original_range: (start, end),
            summary: text,
            summary_tokens,
            original_tokens,
        };
        let msg = CompactionManager::create_summary_message(&seg);
        let ghost before = self.segments@.map_values(|x: CompactedSegment| x@);
        let ghost sv = seg@;
        self.segments.push(seg);
        assert(self.segments@.map_values(|x: CompactedSegment| x@) =~= before.push(sv));
        let mut out: Vec<Message> = Vec::new();
        out.push(msg);
        let n = messages.len();
        let rest = copy_range(messages, end, n);
        let mut i: usize = 0;
        let ghost head = message_views(out@);
        while i < rest.len()
            invariant
                head.len() == 1,
                i <= rest@.len(),
                message_views(out@) == head + message_views(rest@).take(i as int),
            decreases rest@.len() - i,
        {
            let c = crate::agent::agent_loop::copy_message(&rest[i]);
            let ghost b = message_views(out@);
            out.push(c);
            proof {
                assert(message_views(out@) =~= b.push(c@));
                assert(message_views(rest@).take(i + 1) =~= message_views(rest@).take(i as int).push(rest@[i as int]@));
            }
            i = i + 1;
        }
        proof {
            assert(message_views(rest@).take(rest@.len() as int) =~= message_views(rest@));
            assert(message_views(messages@).subrange(end as int, n as int) =~= message_views(messages@).skip(end as int));
        }
        out
    }

    /// The segments compacted so far.
    pub fn segments(&self) -> (r: &[CompactedSegment])
        ensures
            r@.map_values(|s: CompactedSegment| s@) == self@.2,
    {
        self.segments.as_slice()
    }

    /// The tokens saved over all segments (capped at the largest `usize`).
    pub fn tokens_saved(&self) -> (r: usize)
        ensures
            r == capped(saved(self@.2, self@.2.len() as int)),
    {
        let ghost ss = self@.2;
        let mut t: usize = 0;
        let mut i: usize = 0;
        while i < self.segments.len()
            invariant
                ss == self.segments@.map_values(|s: CompactedSegment| s@),
                i <= self.segments@.len(),
                t == capped(saved(ss, i as int)),
            decreases self.segments@.len() - i,
        {
            proof {
                lemma_saved_nonneg(ss, i as int);
            }
            assert(ss[i as int] == self.segments@[i as int]@);
            let s = &self.segments[i];
            let d = s.original_tokens.saturating_sub(s.summary_tokens);
            t = t.saturating_add(d);
            i = i + 1;
        }
        t
    }

    /// Forgets the segments and stops compacting.
    pub fn reset(&mut self)
        ensures
            final(self)@ == (old(self)@.0, old(self)@.1, Seq::<SegmentView>::empty(), false),
    {
        self.segments = Vec::new();
        self.compacting = false;
        assert(self.segments@.map_values(|s: CompactedSegment| s@) =~= seq![]);
    }

    /// Records whether compaction runs.
    pub fn set_compacting(&mut self, compacting: bool)
        ensures
            final(self)@ == (old(self)@.0, old(self)@.1, old(self)@.2, compacting),
    {
        self.compacting = compacting;
    }

    /// Whether compaction runs.
    pub fn is_compacting(&self) -> (r: bool)
        ensures
            r == self@.3,
    {
        self.compacting
    }
}

impl Default for CompactionManager {
    fn default() -> (r: CompactionManager)
        ensures
            r@ == (200_000usize, 20usize, Seq::<SegmentView>::empty(), false),
    {
        CompactionManager::new(200_000)
    }
}

proof fn lemma_calls_at_least(cs: Seq<(Seq<char>, Seq<char>, Seq<char>)>, n: int)
    requires
        0 <= n,
    ensures
        calls_estimate(cs, n) >= 3 * n,
    decreases n,
{
    if n > 0 {
        lemma_calls_at_least(cs, n - 1);
    }
}

/// Tool calls count towards a message's estimate: each call adds at least
/// three tokens (twice its name and once its arguments, each at least one)
/// to what the same message without calls is estimated at.
pub proof fn lemma_tool_calls_count(role: Seq<char>, text: Seq<char>, cs: Seq<(Seq<char>, Seq<char>, Seq<char>)>)
    ensures
        estimate_message((role, text, Some(cs))) >= estimate_message((role, text, None)) + 3 * cs.len(),
        estimate_message((role, text, None)) == estimate_spec(text) + 4,
{
    lemma_calls_at_least(cs, cs.len() as int);
}

} // verus!
