//! The headless server: the state behind the JSON-RPC methods `run`,
//! `status`, `cancel`, `list_sessions`, `resume` and `shutdown`.
//!
//! Requests arrive already decoded into a [`Method`]; each is answered with a
//! [`Reply`] that the transport encodes.  Sessions are numbered `session-1`,
//! `session-2`, ... in the order they are started, and no two share an id.
use crate::text::{append_str, decimal, decimal_chars, lemma_decimal_injective, str_eq, string_of};
use vstd::prelude::*;

verus! {

/// A decoded JSON-RPC method with its parameters.
#[derive(Debug, Clone)]
pub enum Method {
    /// Start a session for a prompt.
    Run { prompt: String, provider: Option<String>, model: Option<String>, max_turns: usize },
    /// The status of a session, by default the active one.
    Status { session_id: Option<String> },
    /// Stop a session, by default the active one.
    Cancel { session_id: Option<String> },
    /// All sessions.
    ListSessions,
    /// Make a session the active one.
    Resume { session_id: Option<String> },
    /// Stop the server.
    Shutdown,
    /// A method the server does not know.
    Unknown(String),
}

/// The parameters a request may carry, as far as any method reads them.
#[derive(Debug, Clone)]
pub struct RpcParams {
    pub prompt: Option<String>,
    pub provider: Option<String>,
    pub model: Option<String>,
    pub max_turns: Option<u64>,
    pub session_id: Option<String>,
}

impl RpcParams {
    /// No parameter given.
    pub fn empty() -> (r: RpcParams)
        ensures
            r.prompt is None && r.provider is None && r.model is None && r.max_turns is None
                && r.session_id is None,
    {
        RpcParams { prompt: None, provider: None, model: None, max_turns: None, session_id: None }
    }
}

/// The turn limit of a run when the request gives none.
pub const DEFAULT_RUN_TURNS: u64 = 50;

/// The method a request names, with the parameters it reads: a run takes the
/// prompt (empty when missing), the provider, the model and the turn limit
/// (50 when missing); status and cancel take an optional session id, and so
/// does resume; any other name is unknown.
pub fn decode_method(method: &str, params: RpcParams) -> (r: Method)
    ensures
        method@ == "run"@ ==> (r matches Method::Run { prompt, provider, model, max_turns }
            && prompt@ == match params.prompt { Some(p) => p@, None => Seq::<char>::empty() }
            && opt_str(provider) == opt_str(params.provider)
            && opt_str(model) == opt_str(params.model)
            && max_turns == match params.max_turns { Some(n) => n as usize, None => 50usize }),
        method@ == "status"@ ==> (r matches Method::Status { session_id } && opt_str(session_id) == opt_str(params.session_id)),
        method@ == "cancel"@ ==> (r matches Method::Cancel { session_id } && opt_str(session_id) == opt_str(params.session_id)),
        method@ == "list_sessions"@ ==> r is ListSessions,
        method@ == "resume"@ ==> (r matches Method::Resume { session_id } && opt_str(session_id) == opt_str(params.session_id)),
        method@ == "shutdown"@ ==> r is Shutdown,
        !(method@ == "run"@ || method@ == "status"@ || method@ == "cancel"@ || method@ == "list_sessions"@
            || method@ == "resume"@ || method@ == "shutdown"@) ==> (r matches Method::Unknown(m) && m@ == method@),
{
    proof {
        reveal_strlit("run");
        reveal_strlit("status");
        reveal_strlit("cancel");
        reveal_strlit("list_sessions");
        reveal_strlit("resume");
        reveal_strlit("shutdown");
        assert("status"@[0] != "cancel"@[0] && "status"@[0] != "resume"@[0] && "cancel"@[0] != "resume"@[0]);
        assert("status"@[0] != "shutdown"@[1]);
        assert("run"@.len() == 3 && "status"@.len() == 6 && "cancel"@.len() == 6 && "resume"@.len() == 6);
        assert("list_sessions"@.len() == 13 && "shutdown"@.len() == 8);
        assert("run"@ != "list_sessions"@ && "status"@ != "list_sessions"@ && "cancel"@ != "list_sessions"@);
        assert("run"@ != "resume"@ && "status"@ != "resume"@ && "cancel"@ != "resume"@);
    }
    if str_eq(method, "run") {
        let prompt = match params.prompt {
            Some(p) => p,
            None => String::new(),
        };
        let max_turns: usize = match params.max_turns {
            Some(n) => n as usize,
            None => 50,
        };
        Method::Run { prompt, provider: params.provider, model: params.model, max_turns }
    } else if str_eq(method, "status") {
        Method::Status { session_id: params.session_id }
    } else if str_eq(method, "cancel") {
        Method::Cancel { session_id: params.session_id }
    } else if str_eq(method, "list_sessions") {
        Method::ListSessions
    } else if str_eq(method, "resume") {
        Method::Resume { session_id: params.session_id }
    } else if str_eq(method, "shutdown") {
        Method::Shutdown
    } else {
        Method::Unknown(method.to_owned())
    }
}

/// What is reported of a session.
#[derive(Debug, Clone)]
pub struct SessionStatus {
    pub session_id: String,
    pub model: String,
    pub running: bool,
    pub turn_count: usize,
    pub max_turns: usize,
    pub message: Option<String>,
}

/// The answer to a request.
#[derive(Debug, Clone)]
pub enum Reply {
    /// A session was started.
    Started {
        id: u64,
        session_id: String,
        prompt: String,
        provider: Option<String>,
        model: Option<String>,
        message: String,
    },
    /// The status of the session asked for, or the id that matched none.
    Status { id: u64, status: Option<SessionStatus>, session_id: Option<String> },
    /// A cancel was done (on the session named, if it exists).
    Cancelled { id: u64, session_id: Option<String> },
    /// All sessions, and the active one.
    Sessions { id: u64, sessions: Vec<SessionStatus>, active_session_id: Option<String> },
    /// The session became the active one.
    Resumed { id: u64, session_id: String },
    /// No session of that id exists.
    NotFound { id: u64, session_id: Option<String> },
    /// The server is stopping.
    ShutdownAck { id: u64 },
    /// The method is unknown.
    MethodNotFound { id: u64, method: String },
}

/// The characters of an optional string.
pub open spec fn opt_str(o: Option<String>) -> Option<Seq<char>> {
    match o {
        Some(s) => Some(s@),
        None => None,
    }
}

/// The view of a session: id, model, running, turns, turn limit, message.
pub type SessionView = (Seq<char>, Seq<char>, bool, usize, usize, Option<Seq<char>>);

impl View for SessionStatus {
    type V = SessionView;

    open spec fn view(&self) -> SessionView {
        (self.session_id@, self.model@, self.running, self.turn_count, self.max_turns, opt_str(self.message))
    }
}

/// The id of the `k`-th session.
pub open spec fn session_name(k: nat) -> Seq<char> {
    "session-"@ + decimal(k)
}

/// The first session of the given id.
pub open spec fn find_session(s: Seq<SessionView>, id: Seq<char>) -> Option<SessionView>
    decreases s.len(),
{
    if s.len() == 0 {
        None
    } else if s[0].0 == id {
        Some(s[0])
    } else {
        find_session(s.drop_first(), id)
    }
}

/// The view of the server: sessions in the order started, the active
/// session, how many sessions were started, whether it runs, the next
/// reply id to hand out.
pub type ServerView = (Seq<SessionView>, Option<Seq<char>>, nat, bool, u64);

/// The session a run starts.
pub open spec fn run_session(v: ServerView, prompt: Seq<char>, model: Option<Seq<char>>, max_turns: usize) -> SessionView {
    (
        session_name(v.2 + 1),
        match model {
            Some(m) => m,
            None => "default"@,
        },
        true,
        0usize,
        max_turns,
        Some("Running: "@ + prompt),
    )
}

/// The server after a run: the new session added and made active.
pub open spec fn run_next(v: ServerView, req: Option<u64>, prompt: Seq<char>, model: Option<Seq<char>>, max_turns: usize) -> ServerView {
    (
        v.0.push(run_session(v, prompt, model, max_turns)),
        Some(session_name(v.2 + 1)),
        v.2 + 1,
        v.3,
        next_after(req, v.4),
    )
}

/// Whether `r` answers a run.
pub open spec fn run_reply(r: Reply, v: ServerView, req: Option<u64>, prompt: Seq<char>, provider: Option<Seq<char>>, model: Option<Seq<char>>) -> bool {
    r matches Reply::Started { id, session_id, prompt: p, provider: pv, model: mv, message }
        && id == reply_id(req, v.4) && session_id@ == session_name(v.2 + 1) && p@ == prompt
        && opt_str(pv) == provider && opt_str(mv) == model
        && message@ == "Agent processing: '"@ + prompt + "'"@
}

/// The session a request is about: the one it names, else the active one.
pub open spec fn target_of(v: ServerView, named: Option<Seq<char>>) -> Option<Seq<char>> {
    match named {
        Some(s) => Some(s),
        None => v.1,
    }
}

/// The server after a request that only hands out a reply id.
pub open spec fn id_next(v: ServerView, req: Option<u64>) -> ServerView {
    (v.0, v.1, v.2, v.3, next_after(req, v.4))
}

/// Whether `r` answers a status request.
pub open spec fn status_reply(r: Reply, v: ServerView, req: Option<u64>, named: Option<Seq<char>>) -> bool {
    r matches Reply::Status { id, status, session_id } && id == reply_id(req, v.4) && opt_str(session_id)
        == target_of(v, named) && match target_of(v, named) {
        Some(t) => match status {
            Some(st) => find_session(v.0, t) == Some(st@),
            None => find_session(v.0, t) is None,
        },
        None => status is None,
    }
}

/// The session after a cancel: stopped, with the message `Cancelled`.
pub open spec fn cancelled(s: SessionView) -> SessionView {
    (s.0, s.1, false, s.3, s.4, Some("Cancelled"@))
}

/// Whether `w` is the server after a cancel of the target session.
pub open spec fn cancel_next(w: ServerView, v: ServerView, req: Option<u64>, named: Option<Seq<char>>) -> bool {
    &&& w.0.len() == v.0.len()
    &&& forall|k: Seq<char>| #[trigger] find_session(w.0, k) == if target_of(v, named) == Some(k) && find_session(v.0, k) is Some {
        Some(cancelled(find_session(v.0, k)->0))
    } else {
        find_session(v.0, k)
    }
    &&& sessions_ok(w.0, w.2)
    &&& w.1 == v.1 && w.2 == v.2 && w.3 == v.3 && w.4 == next_after(req, v.4)
}

/// Whether `r` answers a list request.
pub open spec fn list_reply(r: Reply, v: ServerView, req: Option<u64>) -> bool {
    r matches Reply::Sessions { id, sessions, active_session_id } && id == reply_id(req, v.4)
        && sessions@.map_values(|s: SessionStatus| s@) == v.0 && opt_str(active_session_id) == v.1
}

/// The server after a resume: the named session active when it exists.
pub open spec fn resume_next(v: ServerView, req: Option<u64>, named: Option<Seq<char>>) -> ServerView {
    match named {
        Some(s) => if find_session(v.0, s) is Some {
            (v.0, Some(s), v.2, v.3, next_after(req, v.4))
        } else {
            id_next(v, req)
        },
        None => id_next(v, req),
    }
}

/// Whether `r` answers a resume request.
pub open spec fn resume_reply(r: Reply, v: ServerView, req: Option<u64>, named: Option<Seq<char>>) -> bool {
    match named {
        Some(s) => if find_session(v.0, s) is Some {
            r matches Reply::Resumed { id, session_id } && id == reply_id(req, v.4) && session_id@ == s
        } else {
            r matches Reply::NotFound { id, session_id } && id == reply_id(req, v.4) && opt_str(session_id) == named
        },
        None => r matches Reply::NotFound { id, session_id } && id == reply_id(req, v.4) && session_id is None,
    }
}

/// The headless server's state.
#[derive(Debug)]
pub struct HeadlessServer {
    sessions: Vec<SessionStatus>,
    active_session_id: Option<String>,
    next_session_counter: usize,
    running: bool,
    next_id: u64,
}

/// Whether every session is named after a distinct number up to `counter`.
pub open spec fn sessions_ok(s: Seq<SessionView>, counter: nat) -> bool {
    &&& forall|i: int|
        0 <= i < s.len() ==> exists|k: nat| 1 <= k <= counter && #[trigger] s[i].0 == session_name(k)
    &&& forall|i: int, j: int| 0 <= i < j < s.len() ==> #[trigger] s[i].0 != #[trigger] s[j].0
}

impl View for HeadlessServer {
    type V = ServerView;

    closed spec fn view(&self) -> ServerView {
        (
            self.sessions@.map_values(|s: SessionStatus| s@),
            opt_str(self.active_session_id),
            self.next_session_counter as nat,
            self.running,
            self.next_id,
        )
    }
}

/// The id a reply carries: the request's, else the next one handed out.
pub open spec fn reply_id(req: Option<u64>, next: u64) -> u64 {
    match req {
        Some(i) => i,
        None => next,
    }
}

/// The next id to hand out after a reply.
pub open spec fn next_after(req: Option<u64>, next: u64) -> u64 {
    match req {
        Some(_) => next,
        None => (if next == u64::MAX {
            0
        } else {
            next + 1
        }) as u64,
    }
}

proof fn lemma_session_name_injective(a: nat, b: nat)
    requires
        session_name(a) == session_name(b),
    ensures
        a == b,
{
    let p = "session-"@;
    assert(session_name(a).skip(p.len() as int) =~= decimal(a));
    assert(session_name(b).skip(p.len() as int) =~= decimal(b));
    lemma_decimal_injective(a, b);
}

proof fn lemma_find_at(s: Seq<SessionView>, id: Seq<char>, i: int)
    requires
        0 <= i < s.len(),
        s[i].0 == id,
        forall|j: int| 0 <= j < i ==> #[trigger] s[j].0 != id,
    ensures
        find_session(s, id) == Some(s[i]),
    decreases i,
{
    if i > 0 {
        assert forall|j: int| 0 <= j < i - 1 implies #[trigger] s.drop_first()[j].0 != id by {
            assert(s.drop_first()[j] == s[j + 1]);
        }
        lemma_find_at(s.drop_first(), id, i - 1);
    }
}

proof fn lemma_find_none(s: Seq<SessionView>, id: Seq<char>)
    requires
        forall|j: int| 0 <= j < s.len() ==> #[trigger] s[j].0 != id,
    ensures
        find_session(s, id) is None,
    decreases s.len(),
{
    if s.len() > 0 {
        assert forall|j: int| 0 <= j < s.len() - 1 implies #[trigger] s.drop_first()[j].0 != id by {
            assert(s.drop_first()[j] == s[j + 1]);
        }
        lemma_find_none(s.drop_first(), id);
    }
}

proof fn lemma_find_push(s: Seq<SessionView>, x: SessionView, id: Seq<char>)
    ensures
        find_session(s.push(x), id) == if find_session(s, id) is Some {
            find_session(s, id)
        } else if x.0 == id {
            Some(x)
        } else {
            None
        },
    decreases s.len(),
{
    if s.len() > 0 {
        assert(s.push(x)[0] == s[0]);
        assert(s.push(x).drop_first() =~= s.drop_first().push(x));
        lemma_find_push(s.drop_first(), x, id);
    } else {
        assert(s.push(x)[0] == x);
        assert(s.push(x).drop_first() =~= seq![]);
        assert(find_session(s.push(x).drop_first(), id) is None);
    }
}

proof fn lemma_find_update(s: Seq<SessionView>, i: int, x: SessionView, id: Seq<char>)
    requires
        0 <= i < s.len(),
        s[i].0 == x.0,
        id != x.0,
    ensures
        find_session(s.update(i, x), id) == find_session(s, id),
    decreases s.len(),
{
    if i > 0 {
        assert(s.update(i, x)[0] == s[0]);
        assert(s.update(i, x).drop_first() =~= s.drop_first().update(i - 1, x));
        lemma_find_update(s.drop_first(), i - 1, x, id);
    } else {
        assert(s.update(i, x).drop_first() =~= s.drop_first());
    }
}

fn copy_opt(o: &Option<String>) -> (r: Option<String>)
    ensures
        opt_str(r) == opt_str(*o),
{
    match o {
        Some(s) => Some(s.clone()),
        None => None,
    }
}

fn copy_status(s: &SessionStatus) -> (r: SessionStatus)
    ensures
        r@ == s@,
{
    SessionStatus {
        session_id: s.session_id.clone(),
        model: s.model.clone(),
        running: s.running,
        turn_count: s.turn_count,
        max_turns: s.max_turns,
        message: copy_opt(&s.message),
    }
}

impl HeadlessServer {
    #[verifier::type_invariant]
    spec fn well_formed(self) -> bool {
        sessions_ok(self.sessions@.map_values(|s: SessionStatus| s@), self.next_session_counter as nat)
    }

    /// A server with no session, not running, handing out ids from 1.
    pub fn new() -> (r: HeadlessServer)
        ensures
            r@ == (Seq::<SessionView>::empty(), None::<Seq<char>>, 0nat, false, 1u64),
    {
        let r = HeadlessServer {
            sessions: Vec::new(),
            active_session_id: None,
            next_session_counter: 0,
            running: false,
            next_id: 1,
        };
        assert(r.sessions@.map_values(|s: SessionStatus| s@) =~= seq![]);
        r
    }

    /// The sessions are named `session-k` for distinct `k` up to the number
    /// started, so no two have the same id.
    pub fn sessions_are_distinct(&self) -> (r: bool)
        ensures
            r,
            sessions_ok(self@.0, self@.2),
    {
        proof {
            use_type_invariant(self);
        }
        true
    }

    /// Whether the server is serving requests.
    pub fn is_running(&self) -> (r: bool)
        ensures
            r == self@.3,
    {
        self.running
    }

    /// The number of sessions.
    pub fn session_count(&self) -> (r: usize)
        ensures
            r == self@.0.len(),
    {
        self.sessions.len()
    }

    /// The active session's id, if any.
    pub fn active_session_id(&self) -> (r: Option<&str>)
        ensures
            match r {
                Some(s) => self@.1 == Some(s@),
                None => self@.1 is None,
            },
    {
        match &self.active_session_id {
            Some(s) => Some(s.as_str()),
            None => None,
        }
    }

    /// The session of the given id, if any.
    pub fn session(&self, id: &str) -> (r: Option<SessionStatus>)
        ensures
            match r {
                Some(s) => find_session(self@.0, id@) == Some(s@),
                None => find_session(self@.0, id@) is None,
            },
    {
        match self.index_of(id) {
            Some(i) => Some(copy_status(&self.sessions[i])),
            None => None,
        }
    }

    fn index_of(&self, id: &str) -> (r: Option<usize>)
        ensures
            match r {
                Some(i) => i < self@.0.len() && find_session(self@.0, id@) == Some(self@.0[i as int])
                    && self@.0[i as int].0 == id@ && forall|j: int| 0 <= j < i ==> #[trigger] self@.0[j].0 != id@,
                None => find_session(self@.0, id@) is None,
            },
    {
        let ghost s = self@.0;
        let n = id.to_owned();
        let mut i: usize = 0;
        while i < self.sessions.len()
            invariant
                s == self@.0,
                s == self.sessions@.map_values(|x: SessionStatus| x@),
                n@ == id@,
                i <= s.len(),
                forall|j: int| 0 <= j < i ==> #[trigger] s[j].0 != id@,
            decreases s.len() - i,
        {
            assert(s[i as int] == self.sessions@[i as int]@);
            if self.sessions[i].session_id == n {
                proof {
                    lemma_find_at(s, id@, i as int);
                }
                return Some(i);
            }
            i = i + 1;
        }
        proof {
            lemma_find_none(s, id@);
        }
        None
    }

    /// Marks the server as serving requests.
    pub fn start(&mut self)
        ensures
            final(self)@ == (old(self)@.0, old(self)@.1, old(self)@.2, true, old(self)@.4),
    {
        proof {
            use_type_invariant(&*self);
        }
        self.running = true;
    }

    /// Marks the server as stopped.
    pub fn stop(&mut self)
        ensures
            final(self)@ == (old(self)@.0, old(self)@.1, old(self)@.2, false, old(self)@.4),
    {
        proof {
            use_type_invariant(&*self);
        }
        self.running = false;
    }

    fn take_id(&mut self, req: Option<u64>) -> (r: u64)
        ensures
            r == reply_id(req, old(self)@.4),
            final(self)@ == (
                old(self)@.0,
                old(self)@.1,
                old(self)@.2,
                old(self)@.3,
                next_after(req, old(self)@.4),
            ),
    {
        proof {
            use_type_invariant(&*self);
        }
        match req {
            Some(i) => i,
            None => {
                let i = self.next_id;
                self.next_id = self.next_id.wrapping_add(1);
                i
            },
        }
    }

    /// The session a request names, else the active one.
    fn target(&self, session_id: &Option<String>) -> (r: Option<String>)
        ensures
            opt_str(r) == match session_id {
                Some(s) => Some(s@),
                None => self@.1,
            },
    {
        match session_id {
            Some(s) => Some(s.clone()),
            None => copy_opt(&self.active_session_id),
        }
    }

    /// Starts session `session-(n+1)` for a prompt, where `n` sessions were
    /// started before, and makes it the active one.
    pub fn handle_run(
        &mut self,
        req: Option<u64>,
        prompt: &str,
        provider: Option<String>,
        model: Option<String>,
        max_turns: usize,
    ) -> (r: Reply)
        requires
            old(self)@.2 < usize::MAX,
        ensures
            find_session(old(self)@.0, session_name(old(self)@.2 + 1)) is None,
            final(self)@ == run_next(old(self)@, req, prompt@, opt_str(model), max_turns),
            run_reply(r, old(self)@, req, prompt@, opt_str(provider), opt_str(model)),
    {
        proof {
            use_type_invariant(&*self);
        }
        let ghost old_view = self@;
        let n = self.next_session_counter + 1;
        let digits = decimal_chars(n);
        let mut name = "session-".to_owned();
        append_str(&mut name, string_of(digits.as_slice()).as_str());
        let ghost gname = session_name(n as nat);
        assert(name@ == gname);
        let model_name = match &model {
            Some(m) => m.clone(),
            None => "default".to_owned(),
        };
        let mut msg = "Running: ".to_owned();
        append_str(&mut msg, prompt);
        let st = SessionStatus {
            session_id: name.clone(),
            model: model_name,
            running: true,
            turn_count: 0,
            max_turns,
            message: Some(msg),
        };
        let ghost sv = st@;
        let ghost s = old_view.0;
        proof {
            assert forall|j: int| 0 <= j < s.len() implies #[trigger] s[j].0 != gname by {
                let k = choose|k: nat| 1 <= k <= old_view.2 && #[trigger] s[j].0 == session_name(k);
                if s[j].0 == gname {
                    lemma_session_name_injective(k, n as nat);
                }
            }
            lemma_find_none(s, gname);
        }
        let mut tmp = HeadlessServer::new();
        std::mem::swap(self, &mut tmp);
        let HeadlessServer { mut sessions, active_session_id: _, next_session_counter: _, running, next_id } = tmp;
        sessions.push(st);
        proof {
            let t = sessions@.map_values(|x: SessionStatus| x@);
            assert(t =~= s.push(sv));
            assert forall|i: int| 0 <= i < t.len() implies exists|k: nat|
                1 <= k <= n && #[trigger] t[i].0 == session_name(k) by {
                if i < s.len() {
                    let k = choose|k: nat| 1 <= k <= old_view.2 && #[trigger] s[i].0 == session_name(k);
                    assert(t[i].0 == session_name(k));
                } else {
                    assert(t[i].0 == session_name(n as nat));
                }
            }
        }
        let reply_name = name.clone();
        *self = HeadlessServer {
            sessions,
            active_session_id: Some(name),
            next_session_counter: n,
            running,
            next_id,
        };
        let id = self.take_id(req);
        let mut message = "Agent processing: '".to_owned();
        append_str(&mut message, prompt);
        append_str(&mut message, "'");
        Reply::Started {
            id,
            session_id: reply_name,
            prompt: prompt.to_owned(),
            provider,
            model,
            message,
        }
    }
}

impl HeadlessServer {
    /// The status of the named session, by default the active one.
    pub fn handle_status(&mut self, req: Option<u64>, session_id: Option<String>) -> (r: Reply)
        ensures
            final(self)@ == id_next(old(self)@, req),
            status_reply(r, old(self)@, req, opt_str(session_id)),
    {
        let target = self.target(&session_id);
        let status = match &target {
            Some(t) => self.session(t.as_str()),
            None => None,
        };
        let id = self.take_id(req);
        Reply::Status { id, status, session_id: target }
    }

    /// Stops the named session, by default the active one, if it exists.
    pub fn handle_cancel(&mut self, req: Option<u64>, session_id: Option<String>) -> (r: Reply)
        ensures
            cancel_next(final(self)@, old(self)@, req, opt_str(session_id)),
            r matches Reply::Cancelled { id, session_id: t } && id == reply_id(req, old(self)@.4)
                && opt_str(t) == target_of(old(self)@, opt_str(session_id)),
    {
        proof {
            use_type_invariant(&*self);
        }
        let ghost v = self@;
        let target = self.target(&session_id);
        let found = match &target {
            Some(t) => self.index_of(t.as_str()),
            None => None,
        };
        match found {
            Some(i) => {
                let ghost s = v.0;
                let mut tmp = HeadlessServer::new();
                std::mem::swap(self, &mut tmp);
                let HeadlessServer { mut sessions, active_session_id, next_session_counter, running, next_id } = tmp;
                let old_s = sessions.remove(i);
                let st = SessionStatus {
                    session_id: old_s.session_id,
                    model: old_s.model,
                    running: false,
                    turn_count: old_s.turn_count,
                    max_turns: old_s.max_turns,
                    message: Some("Cancelled".to_owned()),
                };
                sessions.insert(i, st);
                proof {
                    let t = sessions@.map_values(|x: SessionStatus| x@);
                    let x = st@;
                    assert(t =~= s.update(i as int, x));
                    let tid = target->0@;
                    assert(s[i as int].0 == tid);
                    assert forall|k: Seq<char>| #[trigger] find_session(t, k) == if target_of(v, opt_str(session_id)) == Some(k) && find_session(s, k) is Some {
                        Some(cancelled(find_session(s, k)->0))
                    } else {
                        find_session(s, k)
                    } by {
                        if k == tid {
                            assert forall|j: int| 0 <= j < i implies #[trigger] t[j].0 != k by {
                                assert(s[j].0 != k) by {
                                    if s[j].0 == k {
                                        assert(s[j].0 == s[i as int].0);
                                    }
                                }
                            }
                            lemma_find_at(t, k, i as int);
                        } else {
                            lemma_find_update(s, i as int, x, k);
                        }
                    }
                    assert forall|a: int| 0 <= a < t.len() implies exists|kk: nat|
                        1 <= kk <= v.2 && #[trigger] t[a].0 == session_name(kk) by {
                        let kk = choose|kk: nat| 1 <= kk <= v.2 && #[trigger] s[a].0 == session_name(kk);
                        assert(t[a].0 == s[a].0);
                    }
                    assert forall|a: int, b: int| 0 <= a < b < t.len() implies #[trigger] t[a].0 != #[trigger] t[b].0 by {
                        assert(t[a].0 == s[a].0 && t[b].0 == s[b].0);
                    }
                }
                *self = HeadlessServer { sessions, active_session_id, next_session_counter, running, next_id };
            },
            None => {
                proof {
                    if let Some(t) = &target {
                        assert(find_session(v.0, t@) is None);
                    }
                }
            },
        }
        let id = self.take_id(req);
        Reply::Cancelled { id, session_id: target }
    }

    /// All sessions and the active one.
    pub fn handle_list_sessions(&mut self, req: Option<u64>) -> (r: Reply)
        ensures
            final(self)@ == id_next(old(self)@, req),
            list_reply(r, old(self)@, req),
    {
        let mut list: Vec<SessionStatus> = Vec::new();
        let ghost s = self@.0;
        let mut i: usize = 0;
        while i < self.sessions.len()
            invariant
                s == self@.0,
                s == self.sessions@.map_values(|x: SessionStatus| x@),
                i <= s.len(),
                list@.map_values(|x: SessionStatus| x@) == s.take(i as int),
            decreases s.len() - i,
        {
            let c = copy_status(&self.sessions[i]);
            let ghost before = list@.map_values(|x: SessionStatus| x@);
            list.push(c);
            proof {
                assert(list@.map_values(|x: SessionStatus| x@) =~= before.push(s[i as int]));
                assert(s.take(i + 1) =~= s.take(i as int).push(s[i as int]));
            }
            i = i + 1;
        }
        assert(s.take(s.len() as int) =~= s);
        let active = copy_opt(&self.active_session_id);
        let id = self.take_id(req);
        Reply::Sessions { id, sessions: list, active_session_id: active }
    }

    /// Makes the named session the active one, if it exists.
    pub fn handle_resume(&mut self, req: Option<u64>, session_id: Option<String>) -> (r: Reply)
        ensures
            final(self)@ == resume_next(old(self)@, req, opt_str(session_id)),
            resume_reply(r, old(self)@, req, opt_str(session_id)),
    {
        proof {
            use_type_invariant(&*self);
        }
        match session_id {
            Some(s) => {
                if self.index_of(s.as_str()).is_some() {
                    self.active_session_id = Some(s.clone());
                    let id = self.take_id(req);
                    Reply::Resumed { id, session_id: s }
                } else {
                    let id = self.take_id(req);
                    Reply::NotFound { id, session_id: Some(s) }
                }
            },
            None => {
                let id = self.take_id(req);
                Reply::NotFound { id, session_id: None }
            },
        }
    }

    /// Stops the server.
    pub fn handle_shutdown(&mut self, req: Option<u64>) -> (r: Reply)
        ensures
            final(self)@ == (old(self)@.0, old(self)@.1, old(self)@.2, false, next_after(req, old(self)@.4)),
            r matches Reply::ShutdownAck { id } && id == reply_id(req, old(self)@.4),
    {
        self.stop();
        let id = self.take_id(req);
        Reply::ShutdownAck { id }
    }

    /// Answers one request.  An unknown method is answered with the request's
    /// id, or 0, and changes nothing.
    pub fn handle_request(&mut self, req: Option<u64>, method: Method) -> (r: Reply)
        requires
            method is Run ==> old(self)@.2 < usize::MAX,
        ensures
            match method {
                Method::Run { prompt, provider, model, max_turns } => final(self)@ == run_next(
                    old(self)@,
                    req,
                    prompt@,
                    opt_str(model),
                    max_turns,
                ) && run_reply(r, old(self)@, req, prompt@, opt_str(provider), opt_str(model)),
                Method::Status { session_id } => final(self)@ == id_next(old(self)@, req)
                    && status_reply(r, old(self)@, req, opt_str(session_id)),
                Method::Cancel { session_id } => cancel_next(final(self)@, old(self)@, req, opt_str(session_id))
                    && (r matches Reply::Cancelled { id, session_id: t } && id == reply_id(req, old(self)@.4)
                    && opt_str(t) == target_of(old(self)@, opt_str(session_id))),
                Method::ListSessions => final(self)@ == id_next(old(self)@, req) && list_reply(r, old(self)@, req),
                Method::Resume { session_id } => final(self)@ == resume_next(old(self)@, req, opt_str(session_id))
                    && resume_reply(r, old(self)@, req, opt_str(session_id)),
                Method::Shutdown => final(self)@ == (old(self)@.0, old(self)@.1, old(self)@.2, false, next_after(req, old(self)@.4))
                    && (r matches Reply::ShutdownAck { id } && id == reply_id(req, old(self)@.4)),
                Method::Unknown(m) => final(self)@ == old(self)@ && (r matches Reply::MethodNotFound { id, method: mm }
                    && id == (match req {
                        Some(i) => i,
                        None => 0u64,
                    }) && mm@ == m@),
            },
    {
        match method {
            Method::Run { prompt, provider, model, max_turns } => self.handle_run(
                req,
                prompt.as_str(),
                provider,
                model,
                max_turns,
            ),
            Method::Status { session_id } => self.handle_status(req, session_id),
            Method::Cancel { session_id } => self.handle_cancel(req, session_id),
            Method::ListSessions => self.handle_list_sessions(req),
            Method::Resume { session_id } => self.handle_resume(req, session_id),
            Method::Shutdown => self.handle_shutdown(req),
            Method::Unknown(m) => {
                let id = match req {
                    Some(i) => i,
                    None => 0,
                };
                Reply::MethodNotFound { id, method: m }
            },
        }
    }

    /// Whether another session can be started: the counter of sessions has room.
    pub fn can_start_session(&self) -> (r: bool)
        ensures
            r == (self@.2 < usize::MAX),
    {
        self.next_session_counter < usize::MAX
    }
}

impl Default for HeadlessServer {
    fn default() -> (r: HeadlessServer)
        ensures
            r@ == (Seq::<SessionView>::empty(), None::<Seq<char>>, 0nat, false, 1u64),
    {
        HeadlessServer::new()
    }
}

} // verus!
