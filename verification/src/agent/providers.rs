//! The registry of LLM API providers: each has a name, an API base URL, the
//! environment variable that holds its key and a default model.  The registry
//! keeps its providers ordered by name, one per name, and an active provider
//! that is always one of them.
use crate::env::EnvVars;
use crate::text::{
    append_str, lemma_lt_irreflexive, lemma_lt_total, lemma_lt_transitive, seq_lt, str_less,
};
use vstd::prelude::*;

verus! {

/// Configuration of one LLM API provider.
#[derive(Debug, Clone)]
pub struct ProviderConfig {
    pub name: String,
    pub api_base: String,
    pub api_key_env: String,
    pub default_model: String,
    pub description: String,
}

impl ProviderConfig {
    /// A provider with the given fields and an empty description.
    pub fn new(name: &str, api_base: &str, api_key_env: &str, default_model: &str) -> (r:
        ProviderConfig)
        ensures
            r.name@ == name@,
            r.api_base@ == api_base@,
            r.api_key_env@ == api_key_env@,
            r.default_model@ == default_model@,
            r.description@ == Seq::<char>::empty(),
    {
        ProviderConfig {
            name: name.to_owned(),
            api_base: api_base.to_owned(),
            api_key_env: api_key_env.to_owned(),
            default_model: default_model.to_owned(),
            description: String::new(),
        }
    }

    /// The same provider with the given description.
    pub fn with_description(self, description: &str) -> (r: ProviderConfig)
        ensures
            r.name == self.name,
            r.api_base == self.api_base,
            r.api_key_env == self.api_key_env,
            r.default_model == self.default_model,
            r.description@ == description@,
    {
        let mut c = self;
        c.description = description.to_owned();
        c
    }

    /// The API key: the value of the variable that `api_key_env` names.
    pub fn api_key(&self, env: &EnvVars) -> (r: Option<String>)
        ensures
            r matches Some(v) ==> env.spec_get(self.api_key_env@) == Some(v@),
            r is None ==> env.spec_get(self.api_key_env@) is None,
    {
        env.get(self.api_key_env.as_str())
    }

    /// Whether the API key is set.
    pub fn is_configured(&self, env: &EnvVars) -> (r: bool)
        ensures
            r == env.spec_get(self.api_key_env@) is Some,
    {
        self.api_key(env).is_some()
    }
}

/// Whether `c` is the built-in DeepSeek provider.
pub open spec fn is_deepseek(c: ProviderConfig) -> bool {
    &&& c.name@ == "deepseek"@
    &&& c.api_base@ == "https://api.deepseek.com/v1"@
    &&& c.api_key_env@ == "DEEPSEEK_API_KEY"@
    &&& c.default_model@ == "deepseek-chat"@
    &&& c.description@ == "DeepSeek API — code generation and reasoning model"@
}

/// Whether `c` is the built-in GLM provider.
pub open spec fn is_glm(c: ProviderConfig) -> bool {
    &&& c.name@ == "glm"@
    &&& c.api_base@ == "https://open.bigmodel.cn/api/paas/v4"@
    &&& c.api_key_env@ == "GLM_API_KEY"@
    &&& c.default_model@ == "glm-4-flash"@
    &&& c.description@ == "GLM/Zhipu AI — ChatGLM and CodeGeeX models"@
}

/// The built-in DeepSeek provider.
pub fn deepseek_config() -> (r: ProviderConfig)
    ensures
        is_deepseek(r),
{
    ProviderConfig::new("deepseek", "https://api.deepseek.com/v1", "DEEPSEEK_API_KEY", "deepseek-chat")
        .with_description("DeepSeek API — code generation and reasoning model")
}

/// The built-in GLM / Zhipu AI provider.
pub fn glm_config() -> (r: ProviderConfig)
    ensures
        is_glm(r),
{
    ProviderConfig::new("glm", "https://open.bigmodel.cn/api/paas/v4", "GLM_API_KEY", "glm-4-flash")
        .with_description("GLM/Zhipu AI — ChatGLM and CodeGeeX models")
}

/// Why the registry refused a request.
#[derive(Debug, Clone)]
pub enum RegistryError {
    /// No provider of that name is registered.
    ProviderNotFound(String),
}

impl RegistryError {
    /// The error's message.
    pub fn message(&self) -> (r: String)
        ensures
            self matches RegistryError::ProviderNotFound(n) ==> r@ == "Provider '"@ + n@
                + "' not found in registry"@,
    {
        match self {
            RegistryError::ProviderNotFound(n) => {
                let mut s = String::new();
                append_str(&mut s, "Provider '");
                append_str(&mut s, n.as_str());
                append_str(&mut s, "' not found in registry");
                s
            },
        }
    }
}

/// Whether the names of `s` are strictly increasing.
pub open spec fn names_sorted(s: Seq<ProviderConfig>) -> bool {
    forall|i: int, j: int| 0 <= i < j < s.len() ==> seq_lt(#[trigger] s[i].name@, #[trigger] s[j].name@)
}

/// Whether some provider of `s` is called `k`.
pub open spec fn has_name(s: Seq<ProviderConfig>, k: Seq<char>) -> bool {
    exists|i: int| 0 <= i < s.len() && #[trigger] s[i].name@ == k
}

/// The provider of `s` called `k`, if any.
pub open spec fn provider_named(s: Seq<ProviderConfig>, k: Seq<char>) -> Option<ProviderConfig> {
    if has_name(s, k) {
        Some(s[choose|i: int| 0 <= i < s.len() && #[trigger] s[i].name@ == k])
    } else {
        None
    }
}

/// The names of `s`, in order.
pub open spec fn names_of(s: Seq<ProviderConfig>) -> Seq<Seq<char>> {
    s.map_values(|c: ProviderConfig| c.name@)
}

/// In a sequence with strictly increasing names, the provider at a position
/// is the one named by its name.
pub proof fn lemma_named_at(s: Seq<ProviderConfig>, p: int)
    requires
        names_sorted(s),
        0 <= p < s.len(),
    ensures
        provider_named(s, s[p].name@) == Some(s[p]),
{
    let k = s[p].name@;
    assert(has_name(s, k));
    let i = choose|i: int| 0 <= i < s.len() && #[trigger] s[i].name@ == k;
    lemma_lt_irreflexive(k);
    if i < p {
        assert(seq_lt(s[i].name@, s[p].name@));
    } else if i > p {
        assert(seq_lt(s[p].name@, s[i].name@));
    }
}

/// A registry of LLM providers, ordered by name, with an active one.
#[derive(Debug)]
pub struct ProviderRegistry {
    providers: Vec<ProviderConfig>,
    active_provider: Option<String>,
}

/// Whether `s` is a well-formed registry: names strictly increasing, the
/// active provider registered, and one active whenever `s` is not empty.
pub open spec fn registry_ok(s: Seq<ProviderConfig>, active: Option<Seq<char>>) -> bool {
    &&& names_sorted(s)
    &&& (active matches Some(n) ==> has_name(s, n))
    &&& (active is None ==> s.len() == 0)
}

impl ProviderRegistry {
    #[verifier::type_invariant]
    spec fn well_formed(self) -> bool {
        registry_ok(self.providers@, self.spec_active())
    }

    /// The providers, in increasing order of name.
    pub closed spec fn spec_list(&self) -> Seq<ProviderConfig> {
        self.providers@
    }

    /// The name of the active provider, if any.
    pub closed spec fn spec_active(&self) -> Option<Seq<char>> {
        match self.active_provider {
            Some(n) => Some(n@),
            None => None,
        }
    }

    /// The provider called `k`, if any.
    pub open spec fn spec_get(&self, k: Seq<char>) -> Option<ProviderConfig> {
        provider_named(self.spec_list(), k)
    }

    /// The names of all providers, in increasing order.
    pub open spec fn spec_names(&self) -> Seq<Seq<char>> {
        names_of(self.spec_list())
    }

    /// An empty registry with no active provider.
    pub fn new() -> (r: ProviderRegistry)
        ensures
            r.spec_list().len() == 0,
            r.spec_active() is None,
            registry_ok(r.spec_list(), r.spec_active()),
    {
        ProviderRegistry { providers: Vec::new(), active_provider: None }
    }

    /// Moves the contents out, leaving an empty registry behind.
    fn take(&mut self) -> (r: ProviderRegistry)
        ensures
            r == *old(self),
            final(self).spec_list().len() == 0,
            final(self).spec_active() is None,
    {
        let mut r = ProviderRegistry::new();
        std::mem::swap(self, &mut r);
        r
    }

    /// Adds a provider; one of the same name is replaced.  The first provider
    /// registered into an empty registry becomes the active one.
    pub fn register(&mut self, config: ProviderConfig)
        ensures
            forall|k: Seq<char>| #[trigger]
                final(self).spec_get(k) == if k == config.name@ {
                    Some(config)
                } else {
                    old(self).spec_get(k)
                },
            final(self).spec_list().len() == old(self).spec_list().len() + if has_name(
                old(self).spec_list(),
                config.name@,
            ) {
                0int
            } else {
                1int
            },
            final(self).spec_active() == if old(self).spec_active() is None {
                Some(config.name@)
            } else {
                old(self).spec_active()
            },
            registry_ok(final(self).spec_list(), final(self).spec_active()),
    {
        proof {
            use_type_invariant(&*self);
        }
        let ghost s = self.providers@;
        let name = config.name.clone();
        let mut i: usize = 0;
        while i < self.providers.len() && str_less(self.providers[i].name.as_str(), name.as_str())
            invariant
                self.providers@ == s,
                names_sorted(s),
                name@ == config.name@,
                i <= s.len(),
                forall|j: int| 0 <= j < i ==> seq_lt(#[trigger] s[j].name@, name@),
            decreases s.len() - i,
        {
            i = i + 1;
        }
        let replace = i < self.providers.len() && self.providers[i].name == name;
        let ghost t: Seq<ProviderConfig> = if replace {
            s.update(i as int, config)
        } else {
            s.insert(i as int, config)
        };
        proof {
            if i < s.len() && !replace {
                lemma_lt_total(s[i as int].name@, name@);
            }
            lemma_insert_sorted(s, i as int, config, replace);
            lemma_transfer(s, t, i as int, config, replace);
        }
        let ProviderRegistry { mut providers, mut active_provider } = self.take();
        if replace {
            providers.set(i, config);
        } else {
            providers.insert(i, config);
        }
        if active_provider.is_none() {
            active_provider = Some(name);
        }
        *self = ProviderRegistry { providers, active_provider };
        proof {
            lemma_named_at(t, i as int);
            if !replace {
                assert forall|j: int| 0 <= j < s.len() implies #[trigger] s[j].name@ != config.name@ by {
                    if j < i {
                        lemma_lt_irreflexive(name@);
                    } else {
                        assert(seq_lt(name@, s[i as int].name@));
                        if j > i {
                            lemma_lt_transitive(name@, s[i as int].name@, s[j].name@);
                        }
                        lemma_lt_irreflexive(name@);
                    }
                }
            }
        }
    }
}

impl ProviderRegistry {
    /// A registry holding the built-in providers, DeepSeek active.
    pub fn with_builtins() -> (r: ProviderRegistry)
        ensures
            r.spec_get("deepseek"@) matches Some(c) && is_deepseek(c),
            r.spec_get("glm"@) matches Some(c) && is_glm(c),
            forall|k: Seq<char>|
                k != "deepseek"@ && k != "glm"@ ==> #[trigger] r.spec_get(k) is None,
            r.spec_list().len() == 2,
            r.spec_active() == Some("deepseek"@),
            registry_ok(r.spec_list(), r.spec_active()),
    {
        let mut r = ProviderRegistry::new();
        r.register_builtins();
        r
    }

    /// Registers DeepSeek, then GLM.
    pub fn register_builtins(&mut self)
        ensures
            final(self).spec_get("deepseek"@) matches Some(c) && is_deepseek(c),
            final(self).spec_get("glm"@) matches Some(c) && is_glm(c),
            forall|k: Seq<char>|
                k != "deepseek"@ && k != "glm"@ ==> #[trigger] final(self).spec_get(k) == old(
                    self,
                ).spec_get(k),
            final(self).spec_list().len() == old(self).spec_list().len() + (if has_name(
                old(self).spec_list(),
                "deepseek"@,
            ) {
                0int
            } else {
                1int
            }) + (if has_name(old(self).spec_list(), "glm"@) {
                0int
            } else {
                1int
            }),
            final(self).spec_active() == if old(self).spec_active() is None {
                Some("deepseek"@)
            } else {
                old(self).spec_active()
            },
            registry_ok(final(self).spec_list(), final(self).spec_active()),
    {
        let d = deepseek_config();
        let g = glm_config();
        proof {
            reveal_strlit("deepseek");
            reveal_strlit("glm");
            assert("deepseek"@[0] != "glm"@[0]);
        }
        let ghost s0 = *self;
        self.register(d);
        proof {
            assert(self.spec_get("glm"@) == s0.spec_get("glm"@));
        }
        self.register(g);
    }

    /// Registers a provider made of the given fields.
    pub fn add_custom(&mut self, name: &str, api_base: &str, api_key_env: &str, default_model: &str)
        ensures
            final(self).spec_get(name@) matches Some(c) && c.name@ == name@ && c.api_base@
                == api_base@ && c.api_key_env@ == api_key_env@ && c.default_model@
                == default_model@ && c.description@.len() == 0,
            forall|k: Seq<char>|
                k != name@ ==> #[trigger] final(self).spec_get(k) == old(self).spec_get(k),
            final(self).spec_list().len() == old(self).spec_list().len() + if has_name(
                old(self).spec_list(),
                name@,
            ) {
                0int
            } else {
                1int
            },
            final(self).spec_active() == if old(self).spec_active() is None {
                Some(name@)
            } else {
                old(self).spec_active()
            },
            registry_ok(final(self).spec_list(), final(self).spec_active()),
    {
        self.register(ProviderConfig::new(name, api_base, api_key_env, default_model));
    }

    /// The provider called `name`, if any.
    pub fn get(&self, name: &str) -> (r: Option<&ProviderConfig>)
        ensures
            match r {
                Some(c) => self.spec_get(name@) == Some(*c),
                None => self.spec_get(name@) is None,
            },
    {
        proof {
            use_type_invariant(self);
        }
        let n = name.to_owned();
        let mut i: usize = 0;
        while i < self.providers.len()
            invariant
                n@ == name@,
                names_sorted(self.providers@),
                i <= self.providers@.len(),
                forall|j: int| 0 <= j < i ==> #[trigger] self.providers@[j].name@ != name@,
            decreases self.providers@.len() - i,
        {
            if self.providers[i].name == n {
                proof {
                    lemma_named_at(self.providers@, i as int);
                }
                return Some(&self.providers[i]);
            }
            i = i + 1;
        }
        None
    }

    /// All providers, in increasing order of name.
    pub fn list(&self) -> (r: Vec<&ProviderConfig>)
        ensures
            r@.len() == self.spec_list().len(),
            forall|i: int| 0 <= i < r@.len() ==> *#[trigger] r@[i] == self.spec_list()[i],
    {
        let mut r: Vec<&ProviderConfig> = Vec::new();
        let mut i: usize = 0;
        while i < self.providers.len()
            invariant
                i <= self.providers@.len(),
                r@.len() == i,
                forall|j: int| 0 <= j < i ==> *#[trigger] r@[j] == self.providers@[j],
            decreases self.providers@.len() - i,
        {
            r.push(&self.providers[i]);
            i = i + 1;
        }
        r
    }

    /// The names of all providers, in increasing order.
    pub fn list_names(&self) -> (r: Vec<&str>)
        ensures
            r@.len() == self.spec_names().len(),
            forall|i: int| 0 <= i < r@.len() ==> (#[trigger] r@[i])@ == self.spec_names()[i],
    {
        let mut r: Vec<&str> = Vec::new();
        let mut i: usize = 0;
        while i < self.providers.len()
            invariant
                i <= self.providers@.len(),
                r@.len() == i,
                forall|j: int| 0 <= j < i ==> (#[trigger] r@[j])@ == self.providers@[j].name@,
            decreases self.providers@.len() - i,
        {
            r.push(self.providers[i].name.as_str());
            i = i + 1;
        }
        r
    }

    /// The active provider, if any.
    pub fn active_provider(&self) -> (r: Option<&ProviderConfig>)
        ensures
            match r {
                Some(c) => self.spec_active() matches Some(n) && self.spec_get(n) == Some(*c),
                None => self.spec_active() is None,
            },
    {
        proof {
            use_type_invariant(self);
        }
        match &self.active_provider {
            Some(n) => self.get(n.as_str()),
            None => None,
        }
    }

    /// The name of the active provider, if any.
    pub fn active_provider_name(&self) -> (r: Option<&str>)
        ensures
            match r {
                Some(n) => self.spec_active() == Some(n@),
                None => self.spec_active() is None,
            },
    {
        match &self.active_provider {
            Some(n) => Some(n.as_str()),
            None => None,
        }
    }

    /// Makes `name` the active provider; refused when no provider has that name.
    pub fn set_active(&mut self, name: &str) -> (r: Result<(), RegistryError>)
        ensures
            r is Ok <==> old(self).spec_get(name@) is Some,
            r is Ok ==> final(self).spec_active() == Some(name@),
            r is Err ==> final(self).spec_active() == old(self).spec_active(),
            r matches Err(e) ==> (e matches RegistryError::ProviderNotFound(n) && n@ == name@),
            final(self).spec_list() == old(self).spec_list(),
            registry_ok(final(self).spec_list(), final(self).spec_active()),
    {
        proof {
            use_type_invariant(&*self);
        }
        let found = self.get(name).is_some();
        if found {
            self.active_provider = Some(name.to_owned());
            Ok(())
        } else {
            Err(RegistryError::ProviderNotFound(name.to_owned()))
        }
    }

    /// The provider that `resolve` gives: the one called `name` when there is
    /// one, else the active one, else the first available.
    pub open spec fn spec_resolve(&self, name: Option<Seq<char>>) -> Option<ProviderConfig> {
        if name is Some && self.spec_get(name->0) is Some {
            self.spec_get(name->0)
        } else {
            match self.spec_active() {
                Some(a) => self.spec_get(a),
                None => if self.spec_list().len() > 0 {
                    Some(self.spec_list()[0])
                } else {
                    None
                },
            }
        }
    }

    /// Resolves a provider name, falling back to the active provider, then
    /// to the first available.
    pub fn resolve(&self, provider_name: Option<&str>) -> (r: Option<&ProviderConfig>)
        ensures
            match r {
                Some(c) => self.spec_resolve(match provider_name {
                    Some(n) => Some(n@),
                    None => None,
                }) == Some(*c),
                None => self.spec_resolve(match provider_name {
                    Some(n) => Some(n@),
                    None => None,
                }) is None,
            },
    {
        proof {
            use_type_invariant(self);
        }
        if let Some(n) = provider_name {
            if let Some(c) = self.get(n) {
                return Some(c);
            }
        }
        match self.active_provider() {
            Some(c) => Some(c),
            None => if self.providers.len() > 0 {
                Some(&self.providers[0])
            } else {
                None
            },
        }
    }

    /// Removes the provider called `name` and returns it.  When it was the
    /// active one, the first remaining provider by name becomes active.
    pub fn unregister(&mut self, name: &str) -> (r: Option<ProviderConfig>)
        ensures
            r == old(self).spec_get(name@),
            forall|k: Seq<char>| #[trigger]
                final(self).spec_get(k) == if k == name@ {
                    None
                } else {
                    old(self).spec_get(k)
                },
            final(self).spec_list().len() == old(self).spec_list().len() - if r is Some {
                1int
            } else {
                0int
            },
            final(self).spec_active() == if old(self).spec_active() == Some(name@) {
                if final(self).spec_list().len() > 0 {
                    Some(final(self).spec_names()[0])
                } else {
                    None
                }
            } else {
                old(self).spec_active()
            },
            registry_ok(final(self).spec_list(), final(self).spec_active()),
    {
        proof {
            use_type_invariant(&*self);
        }
        let ghost s = self.providers@;
        let n = name.to_owned();
        let mut i: usize = 0;
        while i < self.providers.len() && self.providers[i].name != n
            invariant
                self.providers@ == s,
                n@ == name@,
                i <= s.len(),
                forall|j: int| 0 <= j < i ==> #[trigger] s[j].name@ != name@,
            decreases s.len() - i,
        {
            i = i + 1;
        }
        if i == self.providers.len() {
            proof {
                assert(!has_name(s, name@));
            }
            return None;
        }
        proof {
            lemma_named_at(s, i as int);
            lemma_remove(s, i as int);
        }
        let ProviderRegistry { mut providers, mut active_provider } = self.take();
        let was_active = match &active_provider {
            Some(a) => *a == n,
            None => false,
        };
        let removed = providers.remove(i);
        if was_active {
            if providers.len() > 0 {
                active_provider = Some(providers[0].name.clone());
            } else {
                active_provider = None;
            }
        }
        proof {
            let t = providers@;
            if let Some(a) = &active_provider {
                if was_active {
                    assert(t[0].name@ == a@);
                } else {
                    let j = choose|j: int| 0 <= j < s.len() && #[trigger] s[j].name@ == a@;
                    let jj = if j < i { j } else { j - 1 };
                    assert(t[jj] == s[j]);
                }
            }
        }
        *self = ProviderRegistry { providers, active_provider };
        Some(removed)
    }

    /// The number of providers.
    pub fn len(&self) -> (r: usize)
        ensures
            r == self.spec_list().len(),
    {
        self.providers.len()
    }

    /// Whether there is no provider.
    pub fn is_empty(&self) -> (r: bool)
        ensures
            r == (self.spec_list().len() == 0),
    {
        self.providers.len() == 0
    }

    /// Whether the provider called `name` exists and has its API key set.
    pub fn is_configured(&self, name: &str, env: &EnvVars) -> (r: bool)
        ensures
            r == (self.spec_get(name@) matches Some(c) && env.spec_get(c.api_key_env@) is Some),
    {
        match self.get(name) {
            Some(c) => c.is_configured(env),
            None => false,
        }
    }
}

/// Removing a provider from a sequence with strictly increasing names keeps
/// them increasing, drops that name, and leaves every other lookup as it was.
proof fn lemma_remove(s: Seq<ProviderConfig>, i: int)
    requires
        names_sorted(s),
        0 <= i < s.len(),
    ensures
        names_sorted(s.remove(i)),
        forall|k: Seq<char>| #[trigger]
            provider_named(s.remove(i), k) == if k == s[i].name@ {
                None
            } else {
                provider_named(s, k)
            },
{
    let t = s.remove(i);
    assert forall|a: int, b: int| 0 <= a < b < t.len() implies seq_lt(
        #[trigger] t[a].name@,
        #[trigger] t[b].name@,
    ) by {
        let aa = if a < i { a } else { a + 1 };
        let bb = if b < i { b } else { b + 1 };
        assert(t[a] == s[aa] && t[b] == s[bb]);
        assert(seq_lt(s[aa].name@, s[bb].name@));
    }
    assert forall|k: Seq<char>| #[trigger]
        provider_named(t, k) == if k == s[i].name@ {
            None
        } else {
            provider_named(s, k)
        } by {
        if has_name(t, k) {
            let j = choose|j: int| 0 <= j < t.len() && #[trigger] t[j].name@ == k;
            let jj = if j < i { j } else { j + 1 };
            assert(t[j] == s[jj]);
            lemma_named_at(t, j);
            lemma_named_at(s, jj);
            if k == s[i].name@ {
                lemma_lt_irreflexive(k);
                if jj < i {
                    assert(seq_lt(s[jj].name@, s[i].name@));
                } else {
                    assert(seq_lt(s[i].name@, s[jj].name@));
                }
            }
        } else if has_name(s, k) && k != s[i].name@ {
            let j = choose|j: int| 0 <= j < s.len() && #[trigger] s[j].name@ == k;
            let jj = if j < i { j } else { j - 1 };
            assert(t[jj] == s[j]);
        }
    }
}

/// Inserting at a position whose left neighbours are below the new name and
/// whose right neighbour is above it (or replacing a provider of that name)
/// keeps the names strictly increasing.
proof fn lemma_insert_sorted(s: Seq<ProviderConfig>, i: int, c: ProviderConfig, replace: bool)
    requires
        names_sorted(s),
        0 <= i <= s.len(),
        forall|j: int| 0 <= j < i ==> seq_lt(#[trigger] s[j].name@, c.name@),
        replace ==> i < s.len() && s[i].name@ == c.name@,
        !replace && i < s.len() ==> seq_lt(c.name@, s[i].name@),
    ensures
        names_sorted(if replace { s.update(i, c) } else { s.insert(i, c) }),
{
    let t = if replace { s.update(i, c) } else { s.insert(i, c) };
    assert forall|a: int, b: int| 0 <= a < b < t.len() implies seq_lt(
        #[trigger] t[a].name@,
        #[trigger] t[b].name@,
    ) by {
        if replace {
            if b == i {
                assert(seq_lt(s[a].name@, c.name@));
            } else if a == i {
                assert(seq_lt(s[i].name@, s[b].name@));
            } else {
                assert(seq_lt(s[a].name@, s[b].name@));
            }
        } else {
            if b == i {
                assert(seq_lt(s[a].name@, c.name@));
            } else if a == i {
                if b - 1 > i {
                    assert(seq_lt(s[i].name@, s[b - 1].name@));
                    lemma_lt_transitive(c.name@, s[i].name@, s[b - 1].name@);
                }
            } else if a > i {
                assert(seq_lt(s[a - 1].name@, s[b - 1].name@));
            } else if b > i {
                assert(seq_lt(s[a].name@, c.name@));
                if b - 1 > i {
                    assert(seq_lt(s[i].name@, s[b - 1].name@));
                    lemma_lt_transitive(c.name@, s[i].name@, s[b - 1].name@);
                }
                lemma_lt_transitive(s[a].name@, c.name@, s[b - 1].name@);
            } else {
                assert(seq_lt(s[a].name@, s[b].name@));
            }
        }
    }
}

/// Lookups of names other than the inserted one are unchanged by the insertion.
proof fn lemma_transfer(
    s: Seq<ProviderConfig>,
    t: Seq<ProviderConfig>,
    i: int,
    c: ProviderConfig,
    replace: bool,
)
    requires
        names_sorted(s),
        names_sorted(t),
        t == (if replace { s.update(i, c) } else { s.insert(i, c) }),
        0 <= i <= s.len(),
        replace ==> i < s.len() && s[i].name@ == c.name@,
    ensures
        forall|k: Seq<char>| k != c.name@ ==> #[trigger] provider_named(t, k) == provider_named(s, k),
        forall|k: Seq<char>| k != c.name@ ==> (#[trigger] has_name(t, k) <==> has_name(s, k)),
{
    assert forall|k: Seq<char>| k != c.name@ implies #[trigger] provider_named(t, k)
        == provider_named(s, k) by {
        lemma_transfer_at(s, t, i, c, replace, k);
    }
    assert forall|k: Seq<char>| k != c.name@ implies (#[trigger] has_name(t, k) <==> has_name(s, k)) by {
        lemma_transfer_at(s, t, i, c, replace, k);
    }
}

proof fn lemma_transfer_at(
    s: Seq<ProviderConfig>,
    t: Seq<ProviderConfig>,
    i: int,
    c: ProviderConfig,
    replace: bool,
    k: Seq<char>,
)
    requires
        names_sorted(s),
        names_sorted(t),
        t == (if replace { s.update(i, c) } else { s.insert(i, c) }),
        0 <= i <= s.len(),
        replace ==> i < s.len() && s[i].name@ == c.name@,
        k != c.name@,
    ensures
        provider_named(t, k) == provider_named(s, k),
        has_name(t, k) <==> has_name(s, k),
{
    if has_name(s, k) {
        let j = choose|j: int| 0 <= j < s.len() && #[trigger] s[j].name@ == k;
        lemma_named_at(s, j);
        let jj = if replace || j < i { j } else { j + 1 };
        assert(t[jj] == s[j]);
        lemma_named_at(t, jj);
    } else if has_name(t, k) {
        let j = choose|j: int| 0 <= j < t.len() && #[trigger] t[j].name@ == k;
        let jj = if replace || j < i { j } else { j - 1 };
        assert(s[jj] == t[j]);
    }
}

} // verus!
