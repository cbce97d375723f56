//! Configuration: built-in defaults, the settings a file brings, overrides
//! from the environment, and validation that collects every problem.
//!
//! Environment variables that override the configuration:
//! `PI_PROVIDER`, `PI_SESSION_DB`, `PI_MAX_TURNS`, `PI_LOG_LEVEL`,
//! `PI_DEEPSEEK_API_KEY`, `PI_GLM_API_KEY` and `OLLAMA_HOST`.
use crate::agent::AgentConfig;
use crate::env::EnvVars;
use crate::text::{append_str, decimal, decimal_chars, parse_usize, parse_usize_spec, starts_with, str_eq, string_of};
use vstd::prelude::*;

verus! {

/// The connection settings of one provider.
#[derive(Debug, Clone)]
pub struct ProviderConfig {
    pub name: String,
    pub api_base: String,
    pub api_key_env: Option<String>,
    pub default_model: String,
    api_key_value: Option<String>,
}

/// The characters of an optional string.
pub open spec fn opt_seq(o: Option<String>) -> Option<Seq<char>> {
    match o {
        Some(s) => Some(s@),
        None => None,
    }
}

/// The view of a provider: name, API base, key variable, default model, key set by override.
pub type ProviderView = (Seq<char>, Seq<char>, Option<Seq<char>>, Seq<char>, Option<Seq<char>>);

impl View for ProviderConfig {
    type V = ProviderView;

    closed spec fn view(&self) -> ProviderView {
        (
            self.name@,
            self.api_base@,
            opt_seq(self.api_key_env),
            self.default_model@,
            opt_seq(self.api_key_value),
        )
    }
}

/// The resolved API key of a provider: the one set by override, else the
/// value of its key variable.
pub open spec fn resolved_key(p: ProviderView, env: &EnvVars) -> Option<Seq<char>> {
    match p.4 {
        Some(k) => Some(k),
        None => match p.2 {
            Some(e) => env.spec_get(e),
            None => None,
        },
    }
}

impl ProviderConfig {
    /// A provider with no key set by override.
    pub fn new(name: &str, api_base: &str, api_key_env: Option<&str>, default_model: &str) -> (r:
        ProviderConfig)
        ensures
            r@ == (name@, api_base@, match api_key_env {
                Some(e) => Some(e@),
                None => None,
            }, default_model@, None::<Seq<char>>),
    {
        let env = match api_key_env {
            Some(e) => Some(e.to_owned()),
            None => None,
        };
        ProviderConfig {
            name: name.to_owned(),
            api_base: api_base.to_owned(),
            api_key_env: env,
            default_model: default_model.to_owned(),
            api_key_value: None,
        }
    }

    /// Sets the API key, overriding the environment.
    pub fn set_api_key(&mut self, key: String)
        ensures
            final(self)@ == (old(self)@.0, old(self)@.1, old(self)@.2, old(self)@.3, Some(key@)),
    {
        self.api_key_value = Some(key);
    }

    /// The resolved API key: the one set by override, else the value of the
    /// key variable in `env`.
    pub fn api_key(&self, env: &EnvVars) -> (r: Option<String>)
        ensures
            opt_seq(r) == resolved_key(self@, env),
    {
        self.api_key_resolved(env)
    }

    /// The API key: the one set by override, else the value of the key variable.
    pub fn api_key_resolved(&self, env: &EnvVars) -> (r: Option<String>)
        ensures
            opt_seq(r) == resolved_key(self@, env),
    {
        match &self.api_key_value {
            Some(k) => Some(k.clone()),
            None => match &self.api_key_env {
                Some(e) => env.get(e.as_str()),
                None => None,
            },
        }
    }

    /// The same provider with another API base.
    fn with_api_base(&mut self, base: String)
        ensures
            final(self)@ == (old(self)@.0, base@, old(self)@.2, old(self)@.3, old(self)@.4),
    {
        self.api_base = base;
    }
}

/// The provider under key `k`: the first entry of that key.
pub open spec fn table_lookup(s: Seq<(Seq<char>, ProviderView)>, k: Seq<char>) -> Option<ProviderView>
    decreases s.len(),
{
    if s.len() == 0 {
        None
    } else if s[0].0 == k {
        Some(s[0].1)
    } else {
        table_lookup(s.drop_first(), k)
    }
}

proof fn lemma_lookup_at(s: Seq<(Seq<char>, ProviderView)>, k: Seq<char>, i: int)
    requires
        0 <= i < s.len(),
        s[i].0 == k,
        forall|j: int| 0 <= j < i ==> #[trigger] s[j].0 != k,
    ensures
        table_lookup(s, k) == Some(s[i].1),
    decreases i,
{
    if i > 0 {
        assert(s.drop_first()[i - 1] == s[i]);
        assert forall|j: int| 0 <= j < i - 1 implies #[trigger] s.drop_first()[j].0 != k by {
            assert(s.drop_first()[j] == s[j + 1]);
        }
        lemma_lookup_at(s.drop_first(), k, i - 1);
    }
}

proof fn lemma_lookup_absent(s: Seq<(Seq<char>, ProviderView)>, k: Seq<char>)
    requires
        forall|j: int| 0 <= j < s.len() ==> #[trigger] s[j].0 != k,
    ensures
        table_lookup(s, k) is None,
    decreases s.len(),
{
    if s.len() > 0 {
        assert forall|j: int| 0 <= j < s.len() - 1 implies #[trigger] s.drop_first()[j].0 != k by {
            assert(s.drop_first()[j] == s[j + 1]);
        }
        lemma_lookup_absent(s.drop_first(), k);
    }
}

proof fn lemma_lookup_update(s: Seq<(Seq<char>, ProviderView)>, i: int, x: (Seq<char>, ProviderView), k: Seq<char>)
    requires
        0 <= i < s.len(),
        s[i].0 == x.0,
        k != x.0,
    ensures
        table_lookup(s.update(i, x), k) == table_lookup(s, k),
    decreases s.len(),
{
    if i > 0 {
        assert(s.update(i, x).drop_first() =~= s.drop_first().update(i - 1, x));
        lemma_lookup_update(s.drop_first(), i - 1, x, k);
    } else {
        assert(s.update(i, x).drop_first() =~= s.drop_first());
    }
}

proof fn lemma_lookup_push(s: Seq<(Seq<char>, ProviderView)>, x: (Seq<char>, ProviderView), k: Seq<char>)
    requires
        k != x.0,
    ensures
        table_lookup(s.push(x), k) == table_lookup(s, k),
    decreases s.len(),
{
    if s.len() > 0 {
        assert(s.push(x)[0] == s[0]);
        assert(s.push(x).drop_first() =~= s.drop_first().push(x));
        lemma_lookup_push(s.drop_first(), x, k);
    } else {
        assert(s.push(x)[0] == x);
        assert(s.push(x).drop_first() =~= seq![]);
        assert(table_lookup(s.push(x).drop_first(), k) is None);
    }
}

/// Providers under their keys, in the order the keys were first inserted.
#[derive(Debug, Clone)]
pub struct ProviderTable {
    entries: Vec<(String, ProviderConfig)>,
}

/// The view of a table entry.
pub open spec fn entry_view(e: (String, ProviderConfig)) -> (Seq<char>, ProviderView) {
    (e.0@, e.1@)
}

impl ProviderTable {
    /// The entries, keys with their providers, in insertion order.
    pub closed spec fn spec_entries(&self) -> Seq<(Seq<char>, ProviderView)> {
        self.entries@.map_values(|e: (String, ProviderConfig)| entry_view(e))
    }

    /// The provider under key `k`.
    pub open spec fn spec_get(&self, k: Seq<char>) -> Option<ProviderView> {
        table_lookup(self.spec_entries(), k)
    }

    /// The keys, in insertion order.
    pub open spec fn spec_keys(&self) -> Seq<Seq<char>> {
        self.spec_entries().map_values(|e: (Seq<char>, ProviderView)| e.0)
    }

    /// An empty table.
    pub fn new() -> (r: ProviderTable)
        ensures
            r.spec_entries().len() == 0,
    {
        let r = ProviderTable { entries: Vec::new() };
        assert(r.spec_entries() =~= seq![]);
        r
    }

    fn index_of(&self, k: &str) -> (r: Option<usize>)
        ensures
            match r {
                Some(i) => i < self.spec_entries().len() && self.spec_entries()[i as int].0 == k@
                    && forall|j: int| 0 <= j < i ==> #[trigger] self.spec_entries()[j].0 != k@,
                None => forall|j: int|
                    0 <= j < self.spec_entries().len() ==> #[trigger] self.spec_entries()[j].0 != k@,
            },
    {
        let n = k.to_owned();
        let mut i: usize = 0;
        while i < self.entries.len()
            invariant
                n@ == k@,
                i <= self.entries@.len(),
                forall|j: int| 0 <= j < i ==> #[trigger] self.spec_entries()[j].0 != k@,
            decreases self.entries@.len() - i,
        {
            assert(self.spec_entries()[i as int].0 == self.entries@[i as int].0@);
            if self.entries[i].0 == n {
                return Some(i);
            }
            i = i + 1;
        }
        None
    }

    /// Puts a provider under a key; one already there is replaced in place.
    pub fn insert(&mut self, key: String, value: ProviderConfig)
        ensures
            forall|k: Seq<char>| #[trigger]
                final(self).spec_get(k) == if k == key@ {
                    Some(value@)
                } else {
                    old(self).spec_get(k)
                },
            final(self).spec_keys() == if old(self).spec_keys().contains(key@) {
                old(self).spec_keys()
            } else {
                old(self).spec_keys().push(key@)
            },
    {
        let ghost s = self.spec_entries();
        let ghost x = (key@, value@);
        match self.index_of(key.as_str()) {
            Some(i) => {
                self.entries.set(i, (key, value));
                proof {
                    assert(self.spec_entries() =~= s.update(i as int, x));
                    lemma_lookup_at(self.spec_entries(), x.0, i as int);
                    assert forall|k: Seq<char>| k != x.0 implies #[trigger] table_lookup(
                        self.spec_entries(),
                        k,
                    ) == table_lookup(s, k) by {
                        lemma_lookup_update(s, i as int, x, k);
                    }
                    assert(s.map_values(|e: (Seq<char>, ProviderView)| e.0)[i as int] == x.0);
                    assert(self.spec_keys() =~= s.map_values(|e: (Seq<char>, ProviderView)| e.0));
                }
            },
            None => {
                self.entries.push((key, value));
                proof {
                    assert(self.spec_entries() =~= s.push(x));
                    lemma_lookup_at(self.spec_entries(), x.0, s.len() as int);
                    assert forall|k: Seq<char>| k != x.0 implies #[trigger] table_lookup(
                        self.spec_entries(),
                        k,
                    ) == table_lookup(s, k) by {
                        lemma_lookup_push(s, x, k);
                    }
                    let ks = s.map_values(|e: (Seq<char>, ProviderView)| e.0);
                    if ks.contains(x.0) {
                        let j = choose|j: int| 0 <= j < ks.len() && ks[j] == x.0;
                        assert(s[j].0 == x.0);
                    }
                    assert(self.spec_keys() =~= ks.push(x.0));
                }
            },
        }
    }

    /// Whether a provider is under key `k`.
    pub fn contains_key(&self, k: &str) -> (r: bool)
        ensures
            r == self.spec_get(k@) is Some,
    {
        match self.index_of(k) {
            Some(i) => {
                proof {
                    lemma_lookup_at(self.spec_entries(), k@, i as int);
                }
                true
            },
            None => {
                proof {
                    lemma_lookup_absent(self.spec_entries(), k@);
                }
                false
            },
        }
    }

    /// The provider under key `k`, if any.
    pub fn get(&self, k: &str) -> (r: Option<&ProviderConfig>)
        ensures
            match r {
                Some(p) => self.spec_get(k@) == Some(p@),
                None => self.spec_get(k@) is None,
            },
    {
        match self.index_of(k) {
            Some(i) => {
                proof {
                    lemma_lookup_at(self.spec_entries(), k@, i as int);
                }
                Some(&self.entries[i].1)
            },
            None => {
                proof {
                    lemma_lookup_absent(self.spec_entries(), k@);
                }
                None
            },
        }
    }

    /// The number of providers.
    pub fn len(&self) -> (r: usize)
        ensures
            r == self.spec_entries().len(),
    {
        self.entries.len()
    }

    /// The keys, in insertion order.
    pub fn keys(&self) -> (r: Vec<String>)
        ensures
            r@.map_values(|s: String| s@) == self.spec_keys(),
    {
        let mut r: Vec<String> = Vec::new();
        let mut i: usize = 0;
        while i < self.entries.len()
            invariant
                i <= self.entries@.len(),
                r@.map_values(|s: String| s@) == self.spec_keys().take(i as int),
            decreases self.entries@.len() - i,
        {
            let ghost before = r@.map_values(|s: String| s@);
            r.push(self.entries[i].0.clone());
            proof {
                assert(self.spec_entries()[i as int] == entry_view(self.entries@[i as int]));
                assert(self.spec_keys()[i as int] == self.entries@[i as int].0@);
                assert(r@.map_values(|s: String| s@) =~= before.push(self.entries@[i as int].0@));
                assert(self.spec_keys().take(i + 1) =~= self.spec_keys().take(i as int).push(
                    self.spec_keys()[i as int],
                ));
                assert(r@.map_values(|s: String| s@) =~= self.spec_keys().take(i + 1));
            }
            i = i + 1;
        }
        assert(self.spec_keys().take(self.entries@.len() as int) =~= self.spec_keys());
        r
    }

    /// Sets the override API key of the provider under key `k`, if there is one.
    fn set_key_of(&mut self, k: &str, key: String) -> (found: bool)
        ensures
            found == old(self).spec_get(k@) is Some,
            forall|q: Seq<char>| #[trigger]
                final(self).spec_get(q) == if q == k@ {
                    match old(self).spec_get(k@) {
                        Some(p) => Some((p.0, p.1, p.2, p.3, Some(key@))),
                        None => None,
                    }
                } else {
                    old(self).spec_get(q)
                },
            final(self).spec_keys() == old(self).spec_keys(),
    {
        let ghost s = self.spec_entries();
        match self.index_of(k) {
            Some(i) => {
                proof {
                    lemma_lookup_at(s, k@, i as int);
                }
                let (name, mut p) = self.entries.remove(i);
                p.set_api_key(key);
                self.entries.insert(i, (name, p));
                proof {
                    let x = entry_view((name, p));
                    assert(self.spec_entries() =~= s.update(i as int, x));
                    lemma_lookup_at(self.spec_entries(), k@, i as int);
                    assert forall|q: Seq<char>| q != k@ implies #[trigger] table_lookup(
                        self.spec_entries(),
                        q,
                    ) == table_lookup(s, q) by {
                        lemma_lookup_update(s, i as int, x, q);
                    }
                    assert(self.spec_keys() =~= s.map_values(|e: (Seq<char>, ProviderView)| e.0));
                }
                true
            },
            None => {
                proof {
                    lemma_lookup_absent(s, k@);
                }
                false
            },
        }
    }

    /// Sets the API base of the provider under key `k`, if there is one.
    fn set_base_of(&mut self, k: &str, base: String) -> (found: bool)
        ensures
            found == old(self).spec_get(k@) is Some,
            forall|q: Seq<char>| #[trigger]
                final(self).spec_get(q) == if q == k@ {
                    match old(self).spec_get(k@) {
                        Some(p) => Some((p.0, base@, p.2, p.3, p.4)),
                        None => None,
                    }
                } else {
                    old(self).spec_get(q)
                },
            final(self).spec_keys() == old(self).spec_keys(),
    {
        let ghost s = self.spec_entries();
        match self.index_of(k) {
            Some(i) => {
                proof {
                    lemma_lookup_at(s, k@, i as int);
                }
                let (name, mut p) = self.entries.remove(i);
                p.with_api_base(base);
                self.entries.insert(i, (name, p));
                proof {
                    let x = entry_view((name, p));
                    assert(self.spec_entries() =~= s.update(i as int, x));
                    lemma_lookup_at(self.spec_entries(), k@, i as int);
                    assert forall|q: Seq<char>| q != k@ implies #[trigger] table_lookup(
                        self.spec_entries(),
                        q,
                    ) == table_lookup(s, q) by {
                        lemma_lookup_update(s, i as int, x, q);
                    }
                    assert(self.spec_keys() =~= s.map_values(|e: (Seq<char>, ProviderView)| e.0));
                }
                true
            },
            None => {
                proof {
                    lemma_lookup_absent(s, k@);
                }
                false
            },
        }
    }
}

/// The built-in providers: DeepSeek, GLM and a local Ollama, in that order.
pub fn builtin_providers() -> (r: ProviderTable)
    ensures
        r.spec_keys() == seq!["deepseek"@, "glm"@, "ollama"@],
        r.spec_get("deepseek"@) == Some(
            (
                "DeepSeek"@,
                "https://api.deepseek.com/v1"@,
                Some("PI_DEEPSEEK_API_KEY"@),
                "deepseek-chat"@,
                None::<Seq<char>>,
            ),
        ),
        r.spec_get("glm"@) == Some(
            (
                "GLM (ZhipuAI)"@,
                "https://open.bigmodel.cn/api/paas/v4"@,
                Some("PI_GLM_API_KEY"@),
                "glm-4-flash"@,
                None::<Seq<char>>,
            ),
        ),
        r.spec_get("ollama"@) == Some(
            (
                "Ollama (local)"@,
                "http://127.0.0.1:9000/v1"@,
                Some("none"@),
                "qwen2.5-coder:7b"@,
                None::<Seq<char>>,
            ),
        ),
{
    proof {
        reveal_strlit("deepseek");
        reveal_strlit("glm");
        reveal_strlit("ollama");
        assert("deepseek"@[0] != "glm"@[0]);
        assert("deepseek"@[0] != "ollama"@[0]);
        assert("glm"@[0] != "ollama"@[0]);
    }
    let mut t = ProviderTable::new();
    assert(t.spec_keys() =~= seq![]);
    t.insert(
        "deepseek".to_owned(),
        ProviderConfig::new(
            "DeepSeek",
            "https://api.deepseek.com/v1",
            Some("PI_DEEPSEEK_API_KEY"),
            "deepseek-chat",
        ),
    );
    t.insert(
        "glm".to_owned(),
        ProviderConfig::new(
            "GLM (ZhipuAI)",
            "https://open.bigmodel.cn/api/paas/v4",
            Some("PI_GLM_API_KEY"),
            "glm-4-flash",
        ),
    );
    t.insert(
        "ollama".to_owned(),
        ProviderConfig::new("Ollama (local)", "http://127.0.0.1:9000/v1", Some("none"), "qwen2.5-coder:7b"),
    );
    t
}

/// Where sessions are stored.
#[derive(Debug, Clone)]
pub struct SessionConfig {
    pub db_path: String,
}

/// How the TypeScript bridge is reached.
#[derive(Debug, Clone)]
pub struct BridgeConfig {
    pub ts_bridge_path: String,
    pub ts_bridge_timeout: u64,
}

/// How much is logged.
#[derive(Debug, Clone)]
pub struct LoggingConfig {
    pub level: String,
}

/// Limits of the agent loop.
#[derive(Debug, Clone)]
pub struct AgentBlock {
    pub max_turns: usize,
    pub default_model: String,
}

/// The whole configuration.
#[derive(Debug, Clone)]
pub struct PiConfig {
    pub provider: String,
    pub providers: ProviderTable,
    pub session: SessionConfig,
    pub bridge: BridgeConfig,
    pub logging: LoggingConfig,
    pub agent: AgentBlock,
}

/// The default session database under a home directory.
pub open spec fn default_db_path(home: Seq<char>) -> Seq<char> {
    home + "/.pi-hybrid/sessions.db"@
}

/// The value of a variable when it is set and not empty.
pub open spec fn nonempty_var(env: EnvVars, name: Seq<char>) -> Option<Seq<char>> {
    match env.spec_get(name) {
        Some(v) => if v.len() > 0 {
            Some(v)
        } else {
            None
        },
        None => None,
    }
}

/// The API base that `OLLAMA_HOST` gives: the host with `/v1`, and
/// `http://` in front unless it already names a scheme.
pub open spec fn ollama_base(host: Seq<char>) -> Seq<char> {
    if starts_with(host, "http://"@) || starts_with(host, "https://"@) {
        host + "/v1"@
    } else {
        "http://"@ + host + "/v1"@
    }
}

/// The provider under `k` after the key and host overrides of the environment.
pub open spec fn provider_after_env(p: Option<ProviderView>, k: Seq<char>, env: EnvVars) -> Option<ProviderView> {
    match p {
        Some(v) => if k == "deepseek"@ && nonempty_var(env, "PI_DEEPSEEK_API_KEY"@) is Some {
            Some((v.0, v.1, v.2, v.3, nonempty_var(env, "PI_DEEPSEEK_API_KEY"@)))
        } else if k == "glm"@ && nonempty_var(env, "PI_GLM_API_KEY"@) is Some {
            Some((v.0, v.1, v.2, v.3, nonempty_var(env, "PI_GLM_API_KEY"@)))
        } else if k == "ollama"@ && nonempty_var(env, "OLLAMA_HOST"@) is Some {
            Some((v.0, ollama_base(nonempty_var(env, "OLLAMA_HOST"@)->0), v.2, v.3, v.4))
        } else {
            Some(v)
        },
        None => None,
    }
}

/// Why a configuration was refused: every problem found.
#[derive(Debug, Clone)]
pub struct ConfigError {
    pub errors: Vec<String>,
}

/// What the file system says about one directory.
#[derive(Debug)]
pub struct PathFacts {
    /// How the path is shown in messages.
    pub display: String,
    pub exists: bool,
    pub is_dir: bool,
    /// Whether its permissions are read-only, or why its metadata could not be read.
    pub readonly: Result<bool, String>,
}

/// What the file system says about the directory of the session database
/// and the directory above it.  `parent` is absent when the path has no
/// directory part.
#[derive(Debug)]
pub struct DbPathFacts {
    pub parent: Option<PathFacts>,
    pub grandparent: Option<PathFacts>,
}

/// The error about the provider setting.
pub open spec fn provider_errors(provider: Seq<char>, providers: ProviderTable) -> Seq<Seq<char>> {
    if provider.len() > 0 && providers.spec_get(provider) is None {
        seq!["provider '"@ + provider + "' is not defined in [providers]"@]
    } else {
        seq![]
    }
}

/// The error about one provider's key variable.
pub open spec fn key_error(name: Seq<char>, p: ProviderView, env: EnvVars) -> Seq<Seq<char>> {
    match p.2 {
        Some(v) => if v.len() == 0 {
            seq!["provider '"@ + name + "': api_key_env is not set"@]
        } else if v == "none"@ {
            seq![]
        } else if env.spec_get(v) is None {
            seq!["provider '"@ + name + "': api_key_env '"@ + v + "' is not set in environment"@]
        } else {
            seq![]
        },
        None => seq!["provider '"@ + name + "': api_key_env is not set"@],
    }
}

/// The errors about the key variables of the first `n` providers.
pub open spec fn key_errors(es: Seq<(Seq<char>, ProviderView)>, env: EnvVars, n: int) -> Seq<Seq<char>>
    decreases n,
{
    if n <= 0 {
        seq![]
    } else {
        key_errors(es, env, n - 1) + key_error(es[n - 1].0, es[n - 1].1, env)
    }
}

/// The errors about the directory of the session database.
pub open spec fn db_errors(db_path: Seq<char>, facts: DbPathFacts) -> Seq<Seq<char>> {
    if db_path.len() == 0 {
        seq![]
    } else {
        match facts.parent {
            None => seq![],
            Some(p) => if p.exists {
                if p.is_dir {
                    match p.readonly {
                        Ok(ro) => if ro {
                            seq!["session.db_path parent directory '"@ + p.display@ + "' is read-only"@]
                        } else {
                            seq![]
                        },
                        Err(e) => seq![
                            "session.db_path parent directory '"@ + p.display@
                                + "': cannot read metadata: "@ + e@,
                        ],
                    }
                } else {
                    seq!["session.db_path parent '"@ + p.display@ + "' is not a directory"@]
                }
            } else {
                match facts.grandparent {
                    Some(g) => if g.exists && g.is_dir {
                        match g.readonly {
                            Ok(ro) => if ro {
                                seq![
                                    "session.db_path parent directory '"@ + p.display@
                                        + "' does not exist and grandparent '"@ + g.display@
                                        + "' is read-only"@,
                                ]
                            } else {
                                seq![]
                            },
                            Err(e) => seq![
                                "session.db_path parent directory '"@ + p.display@
                                    + "': cannot check grandparent: "@ + e@,
                            ],
                        }
                    } else {
                        seq![
                            "session.db_path parent directory '"@ + p.display@
                                + "' does not exist and cannot be created"@,
                        ]
                    },
                    None => seq![
                        "session.db_path parent directory '"@ + p.display@
                            + "' does not exist and cannot be created"@,
                    ],
                }
            },
        }
    }
}

/// The error about the turn limit, which must be between 1 and 500.
pub open spec fn turn_errors(max_turns: usize) -> Seq<Seq<char>> {
    if max_turns == 0 {
        seq!["agent.max_turns must be > 0"@]
    } else if max_turns > 500 {
        seq!["agent.max_turns is "@ + decimal(max_turns as nat) + " but must be <= 500"@]
    } else {
        seq![]
    }
}

/// The error about the default model, which must not be empty.
pub open spec fn model_errors(model: Seq<char>) -> Seq<Seq<char>> {
    if model.len() == 0 {
        seq!["agent.default_model must not be empty"@]
    } else {
        seq![]
    }
}

/// Every problem of a configuration, in the order they are checked.
pub open spec fn config_errors(c: PiConfig, env: EnvVars, facts: DbPathFacts) -> Seq<Seq<char>> {
    provider_errors(c.provider@, c.providers) + key_errors(
        c.providers.spec_entries(),
        env,
        c.providers.spec_entries().len() as int,
    ) + db_errors(c.session.db_path@, facts) + turn_errors(c.agent.max_turns) + model_errors(
        c.agent.default_model@,
    )
}

/// The views of a sequence of strings.
pub open spec fn string_views(s: Seq<String>) -> Seq<Seq<char>> {
    s.map_values(|x: String| x@)
}

/// The text of a configuration error: a heading, then each problem on a line of its own.
pub open spec fn error_text(errors: Seq<Seq<char>>) -> Seq<char>
    decreases errors.len(),
{
    if errors.len() == 0 {
        "Configuration validation failed:\n  - "@
    } else if errors.len() == 1 {
        "Configuration validation failed:\n  - "@ + errors[0]
    } else {
        error_text(errors.drop_last()) + "\n  - "@ + errors.last()
    }
}

/// The default configuration file, with comments.
pub const DEFAULT_TOML: &'static str = r#"# Pi Hybrid Configuration
# Generated by: rust-core --init-config
#
# Environment variable overrides (higher priority than this file):
#   PI_PROVIDER    → provider
#   PI_SESSION_DB  → session.db_path
#   PI_MAX_TURNS   → agent.max_turns
#   PI_LOG_LEVEL   → logging.level
#   PI_DEEPSEEK_API_KEY → deepseek API key
#   PI_GLM_API_KEY     → GLM API key
#   OLLAMA_HOST        → ollama API host (default 127.0.0.1:9000)

# Default LLM provider (must match a key in [providers])
provider = "deepseek"

# ── Session ───────────────────────────────────────────────────────────
[session]
# Path to the SQLite session database
db_path = "~/.pi-hybrid/sessions.db"

# ── Bridge ────────────────────────────────────────────────────────────
[bridge]
# Path to the TypeScript bridge executable ("none" to disable)
ts_bridge_path = ""
# Timeout in milliseconds for bridge calls
ts_bridge_timeout = 30000

# ── Logging ───────────────────────────────────────────────────────────
[logging]
# Log level: trace, debug, info, warn, error
level = "info"

# ── Agent ─────────────────────────────────────────────────────────────
[agent]
# Maximum number of turns per agent run (1-500)
max_turns = 50
# Default model name
default_model = "deepseek-chat"

# ── Provider: DeepSeek ────────────────────────────────────────────────
[providers.deepseek]
name = "DeepSeek"
api_base = "https://api.deepseek.com/v1"
api_key_env = "PI_DEEPSEEK_API_KEY"
default_model = "deepseek-chat"

# ── Provider: GLM (ZhipuAI) ──────────────────────────────────────────
[providers.glm]
name = "GLM (ZhipuAI)"
api_base = "https://open.bigmodel.cn/api/paas/v4"
api_key_env = "PI_GLM_API_KEY"
default_model = "glm-4-flash"

# ── Provider: Ollama (local, Mac mini / MacBook Air) ─────────────────
# Set OLLAMA_HOST=127.0.0.1:9000 in the shell (see ~/.zshlocal).
# Switch default_model to any pulled model:
#   qwen2.5-coder:7b   — fast, both machines
#   qwen2.5-coder:14b  — heavier, Mac mini primary
# Gemma 12B via Google Eloquence is separate (not Ollama); add when wired.
[providers.ollama]
name = "Ollama (local)"
api_base = "http://127.0.0.1:9000/v1"
api_key_env = "none"
default_model = "qwen2.5-coder:7b"
"#;

/// The default configuration file, with comments.
pub fn generate_default_toml() -> (r: String)
    ensures
        r@ == DEFAULT_TOML@,
{
    DEFAULT_TOML.to_owned()
}

impl ConfigError {
    /// The error's text.
    pub fn message(&self) -> (r: String)
        ensures
            r@ == error_text(string_views(self.errors@)),
    {
        let mut m = "Configuration validation failed:\n  - ".to_owned();
        let ghost es = string_views(self.errors@);
        let mut i: usize = 0;
        while i < self.errors.len()
            invariant
                es == string_views(self.errors@),
                i <= self.errors@.len(),
                m@ == error_text(es.take(i as int)),
            decreases self.errors@.len() - i,
        {
            proof {
                assert(es.take(i + 1).drop_last() =~= es.take(i as int));
                assert(es[i as int] == self.errors@[i as int]@);
                if i == 0 {
                    assert(es.take(0) =~= seq![]);
                }
            }
            if i > 0 {
                append_str(&mut m, "\n  - ");
            }
            append_str(&mut m, self.errors[i].as_str());
            i = i + 1;
        }
        assert(es.take(self.errors@.len() as int) =~= es);
        m
    }
}

fn quoted(a: &str, b: &str, c: &str) -> (r: String)
    ensures
        r@ == a@ + b@ + c@,
{
    let mut m = a.to_owned();
    append_str(&mut m, b);
    append_str(&mut m, c);
    m
}

fn quoted2(a: &str, b: &str, c: &str, d: &str, e: &str) -> (r: String)
    ensures
        r@ == a@ + b@ + c@ + d@ + e@,
{
    let mut m = a.to_owned();
    append_str(&mut m, b);
    append_str(&mut m, c);
    append_str(&mut m, d);
    append_str(&mut m, e);
    m
}

fn push_errors(v: &mut Vec<String>, more: Vec<String>)
    ensures
        string_views(final(v)@) == string_views(old(v)@) + string_views(more@),
{
    let ghost start = string_views(v@);
    let ghost ms = string_views(more@);
    let mut i: usize = 0;
    while i < more.len()
        invariant
            ms == string_views(more@),
            i <= more@.len(),
            string_views(v@) == start + ms.take(i as int),
        decreases more@.len() - i,
    {
        let ghost vb = string_views(v@);
        v.push(more[i].clone());
        proof {
            assert(string_views(v@) =~= vb.push(more@[i as int]@));
            assert(ms.take(i + 1) =~= ms.take(i as int).push(ms[i as int]));
        }
        i = i + 1;
    }
    assert(ms.take(more@.len() as int) =~= ms);
}

impl PiConfig {
    /// The built-in configuration.  The session database lives under `HOME`
    /// (or the current directory when it is unset); the log level is `debug`
    /// in a debug build and `info` otherwise.
    pub fn defaults(env: &EnvVars, debug_build: bool) -> (r: PiConfig)
        ensures
            r.provider@ == "deepseek"@,
            r.providers.spec_keys() == seq!["deepseek"@, "glm"@, "ollama"@],
            forall|k: Seq<char>| #[trigger] r.providers.spec_get(k) == builtin_providers_spec(k),
            r.session.db_path@ == default_db_path(
                match env.spec_get("HOME"@) {
                    Some(h) => h,
                    None => "."@,
                },
            ),
            r.bridge.ts_bridge_path@ == Seq::<char>::empty(),
            r.bridge.ts_bridge_timeout == 30_000,
            r.logging.level@ == if debug_build {
                "debug"@
            } else {
                "info"@
            },
            r.agent.max_turns == 50,
            r.agent.default_model@ == "deepseek-chat"@,
    {
        let home = match env.get("HOME") {
            Some(h) => h,
            None => ".".to_owned(),
        };
        let mut db = home;
        append_str(&mut db, "/.pi-hybrid/sessions.db");
        let providers = builtin_providers();
        proof {
            lemma_builtin_spec(providers);
        }
        PiConfig {
            provider: "deepseek".to_owned(),
            providers,
            session: SessionConfig { db_path: db },
            bridge: BridgeConfig { ts_bridge_path: String::new(), ts_bridge_timeout: 30_000 },
            logging: LoggingConfig {
                level: if debug_build {
                    "debug".to_owned()
                } else {
                    "info".to_owned()
                },
            },
            agent: AgentBlock { max_turns: 50, default_model: "deepseek-chat".to_owned() },
        }
    }

    /// Lays a configuration read from a file over this one: its providers
    /// replace those of the same key, and each setting it gives (a non-empty
    /// string, a non-zero number) replaces this one's.
    pub fn merge_file(&mut self, file: PiConfig)
        ensures
            forall|k: Seq<char>| #[trigger]
                final(self).providers.spec_get(k) == if file.providers.spec_get(k) is Some {
                    file.providers.spec_get(k)
                } else {
                    old(self).providers.spec_get(k)
                },
            final(self).provider@ == if file.provider@.len() > 0 {
                file.provider@
            } else {
                old(self).provider@
            },
            final(self).session.db_path@ == if file.session.db_path@.len() > 0 {
                file.session.db_path@
            } else {
                old(self).session.db_path@
            },
            final(self).bridge.ts_bridge_path@ == if file.bridge.ts_bridge_path@.len() > 0 {
                file.bridge.ts_bridge_path@
            } else {
                old(self).bridge.ts_bridge_path@
            },
            final(self).bridge.ts_bridge_timeout == if file.bridge.ts_bridge_timeout != 0 {
                file.bridge.ts_bridge_timeout
            } else {
                old(self).bridge.ts_bridge_timeout
            },
            final(self).logging.level@ == if file.logging.level@.len() > 0 {
                file.logging.level@
            } else {
                old(self).logging.level@
            },
            final(self).agent.max_turns == if file.agent.max_turns != 0 {
                file.agent.max_turns
            } else {
                old(self).agent.max_turns
            },
            final(self).agent.default_model@ == if file.agent.default_model@.len() > 0 {
                file.agent.default_model@
            } else {
                old(self).agent.default_model@
            },
    {
        let ghost fe = file.providers.spec_entries();
        let ghost o = old(self).providers;
        let PiConfig { provider, providers, session, bridge, logging, agent } = file;
        let mut es = providers.entries;
        assert(es@.map_values(|e: (String, ProviderConfig)| entry_view(e)) == fe);
        proof {
            assert(fe.skip(fe.len() as int) =~= seq![]);
        }
        while es.len() > 0
            invariant
                fe.len() >= es@.len(),
                forall|j: int| 0 <= j < es@.len() ==> #[trigger] entry_view(es@[j]) == fe[j],
                forall|k: Seq<char>| #[trigger]
                    self.providers.spec_get(k) == if table_lookup(fe.skip(es@.len() as int), k) is Some {
                        table_lookup(fe.skip(es@.len() as int), k)
                    } else {
                        o.spec_get(k)
                    },
                self.provider == old(self).provider,
                self.session == old(self).session,
                self.bridge == old(self).bridge,
                self.logging == old(self).logging,
                self.agent == old(self).agent,
            decreases es@.len(),
        {
            let ghost n = es@.len();
            let (k, v) = es.pop().unwrap();
            let ghost x = (k@, v@);
            proof {
                assert(entry_view((k, v)) == fe[n - 1]);
                assert(fe.skip(n - 1)[0] == fe[n - 1]);
                assert(fe.skip(n - 1).drop_first() =~= fe.skip(n as int));
            }
            self.providers.insert(k, v);
        }
        proof {
            assert(fe.skip(0) =~= fe);
        }
        if !provider.as_str().is_empty() {
            self.provider = provider;
        }
        if !session.db_path.as_str().is_empty() {
            self.session.db_path = session.db_path;
        }
        if !bridge.ts_bridge_path.as_str().is_empty() {
            self.bridge.ts_bridge_path = bridge.ts_bridge_path;
        }
        if bridge.ts_bridge_timeout != 0 {
            self.bridge.ts_bridge_timeout = bridge.ts_bridge_timeout;
        }
        if !logging.level.as_str().is_empty() {
            self.logging.level = logging.level;
        }
        if agent.max_turns != 0 {
            self.agent.max_turns = agent.max_turns;
        }
        if !agent.default_model.as_str().is_empty() {
            self.agent.default_model = agent.default_model;
        }
    }
}

/// The built-in provider under key `k`.
pub open spec fn builtin_providers_spec(k: Seq<char>) -> Option<ProviderView> {
    if k == "deepseek"@ {
        Some(
            (
                "DeepSeek"@,
                "https://api.deepseek.com/v1"@,
                Some("PI_DEEPSEEK_API_KEY"@),
                "deepseek-chat"@,
                None::<Seq<char>>,
            ),
        )
    } else if k == "glm"@ {
        Some(
            (
                "GLM (ZhipuAI)"@,
                "https://open.bigmodel.cn/api/paas/v4"@,
                Some("PI_GLM_API_KEY"@),
                "glm-4-flash"@,
                None::<Seq<char>>,
            ),
        )
    } else if k == "ollama"@ {
        Some(
            (
                "Ollama (local)"@,
                "http://127.0.0.1:9000/v1"@,
                Some("none"@),
                "qwen2.5-coder:7b"@,
                None::<Seq<char>>,
            ),
        )
    } else {
        None
    }
}

proof fn lemma_builtin_spec(t: ProviderTable)
    requires
        t.spec_keys() == seq!["deepseek"@, "glm"@, "ollama"@],
        t.spec_get("deepseek"@) == builtin_providers_spec("deepseek"@),
        t.spec_get("glm"@) == builtin_providers_spec("glm"@),
        t.spec_get("ollama"@) == builtin_providers_spec("ollama"@),
    ensures
        forall|k: Seq<char>| #[trigger] t.spec_get(k) == builtin_providers_spec(k),
{
    assert forall|k: Seq<char>| #[trigger] t.spec_get(k) == builtin_providers_spec(k) by {
        if k != "deepseek"@ && k != "glm"@ && k != "ollama"@ {
            let s = t.spec_entries();
            assert(t.spec_keys().len() == s.len());
            assert forall|j: int| 0 <= j < s.len() implies #[trigger] s[j].0 != k by {
                assert(t.spec_keys()[j] == s[j].0);
                assert(j == 0 || j == 1 || j == 2);
            }
            lemma_lookup_absent(s, k);
        }
    }
}

fn nonempty(env: &EnvVars, name: &str) -> (r: Option<String>)
    ensures
        opt_seq(r) == nonempty_var(*env, name@),
{
    match env.get(name) {
        Some(v) => if !v.as_str().is_empty() {
            Some(v)
        } else {
            None
        },
        None => None,
    }
}

fn ollama_base_of(host: &str) -> (r: String)
    ensures
        r@ == ollama_base(host@),
{
    let hv = crate::text::chars_of(host);
    let a = crate::text::chars_of("http://");
    let b = crate::text::chars_of("https://");
    if crate::text::starts_with_chars(hv.as_slice(), a.as_slice())
        || crate::text::starts_with_chars(hv.as_slice(), b.as_slice()) {
        let mut m = host.to_owned();
        append_str(&mut m, "/v1");
        m
    } else {
        quoted("http://", host, "/v1")
    }
}

fn key_error_of(name: &String, p: &ProviderConfig, env: &EnvVars) -> (r: Vec<String>)
    ensures
        string_views(r@) == key_error(name@, p@, *env),
{
    let mut r: Vec<String> = Vec::new();
    match &p.api_key_env {
        Some(v) => {
            if v.as_str().is_empty() {
                r.push(quoted("provider '", name.as_str(), "': api_key_env is not set"));
            } else if str_eq(v.as_str(), "none") {
            } else if env.get(v.as_str()).is_none() {
                r.push(
                    quoted2(
                        "provider '",
                        name.as_str(),
                        "': api_key_env '",
                        v.as_str(),
                        "' is not set in environment",
                    ),
                );
            }
        },
        None => {
            r.push(quoted("provider '", name.as_str(), "': api_key_env is not set"));
        },
    }
    proof {
        assert(string_views(r@) =~= key_error(name@, p@, *env));
    }
    r
}

fn db_errors_of(db_path: &String, facts: &DbPathFacts) -> (r: Vec<String>)
    ensures
        string_views(r@) == db_errors(db_path@, *facts),
{
    let mut r: Vec<String> = Vec::new();
    if db_path.as_str().is_empty() {
        assert(string_views(r@) =~= seq![]);
        return r;
    }
    match &facts.parent {
        None => {},
        Some(p) => {
            let pd = p.display.as_str();
            if p.exists {
                if p.is_dir {
                    match &p.readonly {
                        Ok(ro) => {
                            if *ro {
                                r.push(quoted("session.db_path parent directory '", pd, "' is read-only"));
                            }
                        },
                        Err(e) => {
                            r.push(
                                quoted2(
                                    "session.db_path parent directory '",
                                    pd,
                                    "': cannot read metadata: ",
                                    e.as_str(),
                                    "",
                                ),
                            );
                        },
                    }
                } else {
                    r.push(quoted("session.db_path parent '", pd, "' is not a directory"));
                }
            } else {
                let cannot = match &facts.grandparent {
                    Some(g) => {
                        if g.exists && g.is_dir {
                            match &g.readonly {
                                Ok(ro) => {
                                    if *ro {
                                        r.push(
                                            quoted2(
                                                "session.db_path parent directory '",
                                                pd,
                                                "' does not exist and grandparent '",
                                                g.display.as_str(),
                                                "' is read-only",
                                            ),
                                        );
                                    }
                                },
                                Err(e) => {
                                    r.push(
                                        quoted2(
                                            "session.db_path parent directory '",
                                            pd,
                                            "': cannot check grandparent: ",
                                            e.as_str(),
                                            "",
                                        ),
                                    );
                                },
                            }
                            false
                        } else {
                            true
                        }
                    },
                    None => true,
                };
                if cannot {
                    r.push(
                        quoted(
                            "session.db_path parent directory '",
                            pd,
                            "' does not exist and cannot be created",
                        ),
                    );
                }
            }
        },
    }
    proof {
        reveal_strlit("");
        assert(string_views(r@) =~= db_errors(db_path@, *facts));
    }
    r
}

impl PiConfig {
    /// Applies the overrides that the environment gives: `PI_PROVIDER`,
    /// `PI_SESSION_DB` and `PI_LOG_LEVEL` when set and not empty,
    /// `PI_MAX_TURNS` when it reads as a number, the DeepSeek and GLM keys,
    /// and the Ollama host.
    pub fn apply_env_overrides(&mut self, env: &EnvVars)
        ensures
            final(self).provider@ == match nonempty_var(*env, "PI_PROVIDER"@) {
                Some(v) => v,
                None => old(self).provider@,
            },
            final(self).session.db_path@ == match nonempty_var(*env, "PI_SESSION_DB"@) {
                Some(v) => v,
                None => old(self).session.db_path@,
            },
            final(self).agent.max_turns == match env.spec_get("PI_MAX_TURNS"@) {
                Some(v) => match parse_usize_spec(v) {
                    Some(n) => n,
                    None => old(self).agent.max_turns,
                },
                None => old(self).agent.max_turns,
            },
            final(self).logging.level@ == match nonempty_var(*env, "PI_LOG_LEVEL"@) {
                Some(v) => v,
                None => old(self).logging.level@,
            },
            forall|k: Seq<char>| #[trigger]
                final(self).providers.spec_get(k) == provider_after_env(
                    old(self).providers.spec_get(k),
                    k,
                    *env,
                ),
            final(self).providers.spec_keys() == old(self).providers.spec_keys(),
            final(self).bridge == old(self).bridge,
            final(self).agent.default_model == old(self).agent.default_model,
    {
        proof {
            reveal_strlit("deepseek");
            reveal_strlit("glm");
            reveal_strlit("ollama");
            assert("deepseek"@[0] != "glm"@[0]);
            assert("deepseek"@[0] != "ollama"@[0]);
            assert("glm"@[0] != "ollama"@[0]);
        }
        if let Some(v) = nonempty(env, "PI_PROVIDER") {
            self.provider = v;
        }
        if let Some(v) = nonempty(env, "PI_SESSION_DB") {
            self.session.db_path = v;
        }
        if let Some(v) = env.get("PI_MAX_TURNS") {
            if let Some(n) = parse_usize(v.as_str()) {
                self.agent.max_turns = n;
            }
        }
        if let Some(v) = nonempty(env, "PI_LOG_LEVEL") {
            self.logging.level = v;
        }
        let ghost t0 = self.providers;
        if let Some(k) = nonempty(env, "PI_DEEPSEEK_API_KEY") {
            self.providers.set_key_of("deepseek", k);
        }
        let ghost t1 = self.providers;
        if let Some(k) = nonempty(env, "PI_GLM_API_KEY") {
            self.providers.set_key_of("glm", k);
        }
        let ghost t2 = self.providers;
        if let Some(h) = nonempty(env, "OLLAMA_HOST") {
            let base = ollama_base_of(h.as_str());
            self.providers.set_base_of("ollama", base);
        }
        proof {
            assert forall|k: Seq<char>| #[trigger]
                self.providers.spec_get(k) == provider_after_env(t0.spec_get(k), k, *env) by {
                assert(t1.spec_get(k) == t0.spec_get(k) || k == "deepseek"@);
                assert(t2.spec_get(k) == t1.spec_get(k) || k == "glm"@);
            }
        }
    }

    /// Every problem of this configuration; it is accepted when there is none.
    /// `env` is where key variables are looked up, `facts` what the file
    /// system says about the directory of the session database.
    pub fn validate(&self, env: &EnvVars, facts: &DbPathFacts) -> (r: Result<(), ConfigError>)
        ensures
            r is Ok <==> config_errors(*self, *env, *facts).len() == 0,
            r matches Err(e) ==> string_views(e.errors@) == config_errors(*self, *env, *facts),
    {
        let mut errors: Vec<String> = Vec::new();
        if !self.provider.as_str().is_empty() && !self.providers.contains_key(self.provider.as_str()) {
            errors.push(quoted("provider '", self.provider.as_str(), "' is not defined in [providers]"));
        }
        proof {
            assert(string_views(errors@) =~= provider_errors(self.provider@, self.providers));
        }
        let ghost es = self.providers.spec_entries();
        let ghost base = string_views(errors@);
        let mut i: usize = 0;
        while i < self.providers.entries.len()
            invariant
                es == self.providers.spec_entries(),
                i <= self.providers.entries@.len(),
                string_views(errors@) == base + key_errors(es, *env, i as int),
            decreases self.providers.entries@.len() - i,
        {
            let e = &self.providers.entries[i];
            assert(es[i as int] == entry_view(*e));
            let more = key_error_of(&e.0, &e.1, env);
            push_errors(&mut errors, more);
            proof {
                assert(base + key_errors(es, *env, i + 1) =~= base + key_errors(es, *env, i as int)
                    + key_error(es[i as int].0, es[i as int].1, *env));
            }
            i = i + 1;
        }
        let more = db_errors_of(&self.session.db_path, facts);
        push_errors(&mut errors, more);
        if self.agent.max_turns == 0 {
            errors.push("agent.max_turns must be > 0".to_owned());
        } else if self.agent.max_turns > 500 {
            let n = decimal_chars(self.agent.max_turns);
            let ns = string_of(n.as_slice());
            errors.push(quoted("agent.max_turns is ", ns.as_str(), " but must be <= 500"));
        }
        if self.agent.default_model.as_str().is_empty() {
            errors.push("agent.default_model must not be empty".to_owned());
        }
        proof {
            assert(string_views(errors@) =~= config_errors(*self, *env, *facts));
        }
        if errors.len() == 0 {
            Ok(())
        } else {
            Err(ConfigError { errors })
        }
    }

    /// The problems that do not stop the program: a bridge path that is set,
    /// is not `none`, and does not exist.
    pub fn warnings(&self, bridge_exists: bool) -> (r: Vec<String>)
        ensures
            string_views(r@) == if self.bridge.ts_bridge_path@.len() > 0
                && self.bridge.ts_bridge_path@ != "none"@ && !bridge_exists {
                seq!["bridge.ts_bridge_path '"@ + self.bridge.ts_bridge_path@ + "' does not exist"@]
            } else {
                seq![]
            },
    {
        let mut r: Vec<String> = Vec::new();
        let p = self.bridge.ts_bridge_path.as_str();
        if !p.is_empty() && !str_eq(p, "none") && !bridge_exists {
            r.push(quoted("bridge.ts_bridge_path '", p, "' does not exist"));
        }
        proof {
            assert(string_views(r@) =~= if self.bridge.ts_bridge_path@.len() > 0
                && self.bridge.ts_bridge_path@ != "none"@ && !bridge_exists {
                seq!["bridge.ts_bridge_path '"@ + self.bridge.ts_bridge_path@ + "' does not exist"@]
            } else {
                seq![]
            });
        }
        r
    }

    /// Whether the bridge path names a file to look for.
    pub fn bridge_path_is_set(&self) -> (r: bool)
        ensures
            r == (self.bridge.ts_bridge_path@.len() > 0 && self.bridge.ts_bridge_path@ != "none"@),
    {
        !self.bridge.ts_bridge_path.as_str().is_empty() && !str_eq(self.bridge.ts_bridge_path.as_str(), "none")
    }

    /// The settings of an agent run: the default model, the turn limit and the
    /// database path; the bridge command is the bridge path, or
    /// `PI_BRIDGE_COMMAND` (empty when unset) when the path is empty or `none`.
    pub fn to_agent_config(&self, env: &EnvVars) -> (r: AgentConfig)
        ensures
            r.model@ == self.agent.default_model@,
            r.max_turns == self.agent.max_turns,
            r.context_window_tokens == 200_000,
            r.bridge_command@ == if self.bridge.ts_bridge_path@.len() == 0
                || self.bridge.ts_bridge_path@ == "none"@ {
                match env.spec_get("PI_BRIDGE_COMMAND"@) {
                    Some(c) => c,
                    None => Seq::<char>::empty(),
                }
            } else {
                self.bridge.ts_bridge_path@
            },
            r.max_subagents == 8,
            r.db_path@ == self.session.db_path@,
    {
        let p = self.bridge.ts_bridge_path.as_str();
        let bridge_command = if p.is_empty() || str_eq(p, "none") {
            match env.get("PI_BRIDGE_COMMAND") {
                Some(c) => c,
                None => String::new(),
            }
        } else {
            self.bridge.ts_bridge_path.clone()
        };
        AgentConfig {
            model: self.agent.default_model.clone(),
            max_turns: self.agent.max_turns,
            context_window_tokens: 200_000,
            bridge_command,
            max_subagents: 8,
            db_path: self.session.db_path.clone(),
        }
    }
}

} // verus!
