//! The plugin registry: plugins written natively, in TypeScript or in Python,
//! registered under unique names, looked up by name, and routed along a
//! fallback chain of backends.
use vstd::prelude::*;

use crate::text::{append_str, str_eq};

verus! {

/// The language a plugin is implemented in.
#[derive(Debug, Clone, Copy, PartialEq, Eq, Structural)]
pub enum PluginBackend {
    Native,
    TypeScript,
    Python,
}

/// The name shown for a backend.
pub open spec fn backend_name(b: PluginBackend) -> Seq<char> {
    match b {
        PluginBackend::Native => "Native"@,
        PluginBackend::TypeScript => "TypeScript"@,
        PluginBackend::Python => "Python"@,
    }
}

impl PluginBackend {
    /// The name shown for the backend.
    pub fn to_string(&self) -> (r: String)
        ensures
            r@ == backend_name(*self),
    {
        match self {
            PluginBackend::Native => "Native".to_owned(),
            PluginBackend::TypeScript => "TypeScript".to_owned(),
            PluginBackend::Python => "Python".to_owned(),
        }
    }
}

/// What is known of a loaded plugin.
#[derive(Debug, Clone)]
pub struct PluginInfo {
    pub name: String,
    pub description: String,
    pub backend: PluginBackend,
    pub version: String,
    pub enabled: bool,
    pub source_path: Option<String>,
}

/// The contents of a plugin's manifest file.
#[derive(Debug, Clone)]
pub struct PluginManifest {
    pub name: String,
    pub description: String,
    pub backend: PluginBackend,
    pub version: Option<String>,
    pub entry_point: Option<String>,
}

/// The version a plugin has when none is given.
pub open spec fn default_version() -> Seq<char> {
    "0.1.0"@
}

/// Two infos that hold the same values.
pub open spec fn same_info(a: PluginInfo, b: PluginInfo) -> bool {
    &&& a.name@ == b.name@
    &&& a.description@ == b.description@
    &&& a.backend == b.backend
    &&& a.version@ == b.version@
    &&& a.enabled == b.enabled
    &&& match (a.source_path, b.source_path) {
        (Some(x), Some(y)) => x@ == y@,
        (None, None) => true,
        _ => false,
    }
}

impl PluginInfo {
    /// The info of a plugin created in code: version 0.1.0, enabled, no source file.
    pub fn new(name: &str, description: &str, backend: PluginBackend) -> (r: PluginInfo)
        ensures
            r.name@ == name@,
            r.description@ == description@,
            r.backend == backend,
            r.version@ == default_version(),
            r.enabled,
            r.source_path is None,
    {
        PluginInfo {
            name: name.to_owned(),
            description: description.to_owned(),
            backend,
            version: "0.1.0".to_owned(),
            enabled: true,
            source_path: None,
        }
    }

    /// A copy of the info.
    pub fn copy(&self) -> (r: PluginInfo)
        ensures
            same_info(r, *self),
    {
        PluginInfo {
            name: self.name.clone(),
            description: self.description.clone(),
            backend: self.backend,
            version: self.version.clone(),
            enabled: self.enabled,
            source_path: match &self.source_path {
                Some(p) => Some(p.clone()),
                None => None,
            },
        }
    }

    /// The info of a plugin loaded from the manifest at `source_path`: the
    /// manifest's version, or 0.1.0 when it gives none; enabled.
    pub fn from_manifest(manifest: &PluginManifest, source_path: &str) -> (r: PluginInfo)
        ensures
            r.name@ == manifest.name@,
            r.description@ == manifest.description@,
            r.backend == manifest.backend,
            r.version@ == match manifest.version {
                Some(v) => v@,
                None => default_version(),
            },
            r.enabled,
            r.source_path matches Some(p) && p@ == source_path@,
    {
        PluginInfo {
            name: manifest.name.clone(),
            description: manifest.description.clone(),
            backend: manifest.backend,
            version: match &manifest.version {
                Some(v) => v.clone(),
                None => "0.1.0".to_owned(),
            },
            enabled: true,
            source_path: Some(source_path.to_owned()),
        }
    }
}

/// Whether no two plugins share both a name and a backend: a name may be
/// served by one plugin of each backend.
pub open spec fn keys_distinct(s: Seq<PluginInfo>) -> bool {
    forall|i: int, j: int|
        0 <= i < j < s.len() ==> !(s[i].name@ == s[j].name@ && s[i].backend == s[j].backend)
}

/// The position of the plugin called `name` with backend `b`, if one is.
pub open spec fn index_of(s: Seq<PluginInfo>, name: Seq<char>, b: PluginBackend) -> Option<int>
    decreases s.len(),
{
    if s.len() == 0 {
        None
    } else if s.last().name@ == name && s.last().backend == b {
        Some(s.len() - 1)
    } else {
        index_of(s.drop_last(), name, b)
    }
}

/// `index_of` names a plugin of that name and backend, and finds one whenever there is one.
pub proof fn lemma_index_of(s: Seq<PluginInfo>, name: Seq<char>, b: PluginBackend)
    ensures
        index_of(s, name, b) matches Some(i) ==> 0 <= i < s.len() && s[i].name@ == name && s[i].backend == b,
        index_of(s, name, b) is None ==> forall|i: int|
            0 <= i < s.len() ==> !(s[i].name@ == name && s[i].backend == b),
    decreases s.len(),
{
    if s.len() > 0 && !(s.last().name@ == name && s.last().backend == b) {
        lemma_index_of(s.drop_last(), name, b);
        assert forall|i: int| 0 <= i < s.len() - 1 implies s[i] == s.drop_last()[i] by {}
    }
}

/// The position of the plugin a call of `name` reaches when the backends are
/// tried in `order`: the first backend of the order that has one.
pub open spec fn chain_pick(s: Seq<PluginInfo>, name: Seq<char>, order: Seq<PluginBackend>) -> Option<int> {
    match index_of(s, name, order[0]) {
        Some(i) => Some(i),
        None => match index_of(s, name, order[1]) {
            Some(i) => Some(i),
            None => index_of(s, name, order[2]),
        },
    }
}

/// The plugins of `s` that are enabled, in order.
pub open spec fn enabled_of(s: Seq<PluginInfo>) -> Seq<PluginInfo> {
    s.filter(|p: PluginInfo| p.enabled)
}

/// The backends tried, in order, when `preferred` is asked for.
pub open spec fn fallback_order(preferred: PluginBackend) -> Seq<PluginBackend> {
    match preferred {
        PluginBackend::Native => seq![
            PluginBackend::Native,
            PluginBackend::TypeScript,
            PluginBackend::Python,
        ],
        PluginBackend::TypeScript => seq![
            PluginBackend::TypeScript,
            PluginBackend::Native,
            PluginBackend::Python,
        ],
        PluginBackend::Python => seq![
            PluginBackend::Python,
            PluginBackend::Native,
            PluginBackend::TypeScript,
        ],
    }
}

/// The error text when no plugin has the name asked for.
pub open spec fn not_found_text(name: Seq<char>) -> Seq<char> {
    "Plugin '"@ + name + "' not found in registry"@
}

/// The error text when no backend of the fallback chain has the name asked for.
pub open spec fn fallback_not_found_text(name: Seq<char>, preferred: PluginBackend) -> Seq<char> {
    "Plugin '"@ + name + "' not found with fallback from "@ + backend_name(preferred)
}

/// The registered plugins, one per name, and the directories scanned for more.
#[derive(Debug)]
pub struct PluginRegistry {
    plugins: Vec<PluginInfo>,
    scan_dirs: Vec<String>,
}

impl PluginRegistry {
    #[verifier::type_invariant]
    spec fn well_formed(self) -> bool {
        keys_distinct(self.plugins@)
    }

    /// The registered plugins.
    pub closed spec fn spec_plugins(&self) -> Seq<PluginInfo> {
        self.plugins@
    }

    /// The directories scanned for plugins, in the order added.
    pub closed spec fn spec_scan_dirs(&self) -> Seq<Seq<char>> {
        self.scan_dirs@.map_values(|d: String| d@)
    }

    /// The plugin that a call of `name` reaches when `preferred` is asked
    /// for: the first backend of `preferred`'s fallback chain that has one.
    pub open spec fn spec_route(&self, name: Seq<char>, preferred: PluginBackend) -> Option<PluginInfo> {
        match chain_pick(self.spec_plugins(), name, fallback_order(preferred)) {
            Some(i) => Some(self.spec_plugins()[i]),
            None => None,
        }
    }

    /// The plugin that a call of `name` reaches: Native first, then
    /// TypeScript, then Python.
    pub open spec fn spec_get(&self, name: Seq<char>) -> Option<PluginInfo> {
        self.spec_route(name, PluginBackend::Native)
    }

    /// An empty registry.
    pub fn new() -> (r: PluginRegistry)
        ensures
            r.spec_plugins().len() == 0,
            r.spec_scan_dirs().len() == 0,
    {
        let r = PluginRegistry { plugins: Vec::new(), scan_dirs: Vec::new() };
        assert(r.spec_scan_dirs() =~= seq![]);
        r
    }

    fn find(&self, name: &str, b: PluginBackend) -> (r: Option<usize>)
        ensures
            match r {
                Some(i) => index_of(self.spec_plugins(), name@, b) == Some(i as int),
                None => index_of(self.spec_plugins(), name@, b) is None,
            },
    {
        let mut k: usize = self.plugins.len();
        let ghost s = self.plugins@;
        assert(s.take(s.len() as int) =~= s);
        while k > 0
            invariant
                s == self.plugins@,
                k <= s.len(),
                index_of(s, name@, b) == index_of(s.take(k as int), name@, b),
            decreases k,
        {
            assert(s.take(k as int).drop_last() =~= s.take(k - 1));
            if self.plugins[k - 1].backend == b && str_eq(self.plugins[k - 1].name.as_str(), name) {
                return Some(k - 1);
            }
            k = k - 1;
        }
        None
    }

    /// The position that `spec_route(name, preferred)` reads.
    fn pick(&self, name: &str, preferred: PluginBackend) -> (r: Option<usize>)
        ensures
            match r {
                Some(i) => chain_pick(self.spec_plugins(), name@, fallback_order(preferred)) == Some(i as int),
                None => chain_pick(self.spec_plugins(), name@, fallback_order(preferred)) is None,
            },
            r matches Some(i) ==> i < self.spec_plugins().len(),
    {
        proof {
            let o = fallback_order(preferred);
            lemma_index_of(self.plugins@, name@, o[0]);
            lemma_index_of(self.plugins@, name@, o[1]);
            lemma_index_of(self.plugins@, name@, o[2]);
        }
        let order: [PluginBackend; 3] = match preferred {
            PluginBackend::Native => [PluginBackend::Native, PluginBackend::TypeScript, PluginBackend::Python],
            PluginBackend::TypeScript => [PluginBackend::TypeScript, PluginBackend::Native, PluginBackend::Python],
            PluginBackend::Python => [PluginBackend::Python, PluginBackend::Native, PluginBackend::TypeScript],
        };
        assert(order@ == fallback_order(preferred));
        match self.find(name, order[0]) {
            Some(i) => Some(i),
            None => match self.find(name, order[1]) {
                Some(i) => Some(i),
                None => self.find(name, order[2]),
            },
        }
    }

    /// Registers a plugin; one registered under the same name and backend is
    /// replaced, and plugins of the same name on other backends stay.
    pub fn register(&mut self, info: PluginInfo)
        ensures
            final(self).spec_plugins() == match index_of(old(self).spec_plugins(), info.name@, info.backend) {
                Some(i) => old(self).spec_plugins().update(i, info),
                None => old(self).spec_plugins().push(info),
            },
            keys_distinct(final(self).spec_plugins()),
            final(self).spec_scan_dirs() == old(self).spec_scan_dirs(),
    {
        proof {
            use_type_invariant(&*self);
            lemma_index_of(self.plugins@, info.name@, info.backend);
        }
        let ghost s = self.plugins@;
        match self.find(info.name.as_str(), info.backend) {
            Some(i) => {
                let mut plugins = Vec::new();
                std::mem::swap(&mut plugins, &mut self.plugins);
                plugins.set(i, info);
                assert(keys_distinct(plugins@));
                self.plugins = plugins;
            },
            None => {
                let mut plugins = Vec::new();
                std::mem::swap(&mut plugins, &mut self.plugins);
                plugins.push(info);
                assert(keys_distinct(plugins@));
                self.plugins = plugins;
            },
        }
    }

    /// The registered plugins.
    pub fn list(&self) -> (r: Vec<PluginInfo>)
        ensures
            r@.len() == self.spec_plugins().len(),
            forall|i: int| 0 <= i < r@.len() ==> same_info(#[trigger] r@[i], self.spec_plugins()[i]),
    {
        let mut r: Vec<PluginInfo> = Vec::new();
        let mut i: usize = 0;
        while i < self.plugins.len()
            invariant
                i <= self.plugins@.len(),
                r@.len() == i,
                forall|k: int| 0 <= k < i ==> same_info(#[trigger] r@[k], self.plugins@[k]),
            decreases self.plugins@.len() - i,
        {
            r.push(self.plugins[i].copy());
            i = i + 1;
        }
        r
    }

    /// The registered plugins that are enabled.
    pub fn list_enabled(&self) -> (r: Vec<PluginInfo>)
        ensures
            r@.len() == enabled_of(self.spec_plugins()).len(),
            forall|i: int| 0 <= i < r@.len() ==> same_info(#[trigger] r@[i], enabled_of(self.spec_plugins())[i]),
    {
        let mut r: Vec<PluginInfo> = Vec::new();
        let mut i: usize = 0;
        let ghost s = self.plugins@;
        while i < self.plugins.len()
            invariant
                s == self.plugins@,
                i <= s.len(),
                r@.len() == enabled_of(s.take(i as int)).len(),
                forall|k: int| 0 <= k < r@.len() ==> same_info(#[trigger] r@[k], enabled_of(s.take(i as int))[k]),
            decreases s.len() - i,
        {
            proof {
                reveal(Seq::filter);
                assert(s.take(i + 1).drop_last() =~= s.take(i as int));
                assert(s.take(i + 1).last() == s[i as int]);
            }
            if self.plugins[i].enabled {
                r.push(self.plugins[i].copy());
            }
            i = i + 1;
        }
        assert(s.take(s.len() as int) =~= s);
        r
    }

    /// The plugin a call of `name` reaches: Native first, then TypeScript,
    /// then Python.
    pub fn get(&self, name: &str) -> (r: Option<&PluginInfo>)
        ensures
            match r {
                Some(p) => self.spec_get(name@) == Some(*p),
                None => self.spec_get(name@) is None,
            },
    {
        match self.pick(name, PluginBackend::Native) {
            Some(i) => Some(&self.plugins[i]),
            None => None,
        }
    }

    /// The plugin a call of `name` goes to, by the fallback chain Native,
    /// TypeScript, Python.
    pub fn route(&self, name: &str) -> (r: Result<PluginInfo, String>)
        ensures
            match r {
                Ok(p) => self.spec_get(name@) matches Some(q) && same_info(p, q),
                Err(e) => self.spec_get(name@) is None && e@ == not_found_text(name@),
            },
    {
        match self.get(name) {
            Some(p) => Ok(p.copy()),
            None => {
                let mut e = "Plugin '".to_owned();
                append_str(&mut e, name);
                append_str(&mut e, "' not found in registry");
                Err(e)
            },
        }
    }

    /// The plugin a call of `name` goes to when `preferred` is asked for: the
    /// first backend of the fallback chain that has a plugin of that name.
    pub fn route_with_fallback(&self, name: &str, preferred: PluginBackend) -> (r: Result<
        PluginInfo,
        String,
    >)
        ensures
            match r {
                Ok(p) => self.spec_route(name@, preferred) matches Some(q) && same_info(p, q),
                Err(e) => self.spec_route(name@, preferred) is None && e@ == fallback_not_found_text(
                    name@,
                    preferred,
                ),
            },
    {
        match self.pick(name, preferred) {
            Some(i) => Ok(self.plugins[i].copy()),
            None => {
                let mut e = "Plugin '".to_owned();
                append_str(&mut e, name);
                append_str(&mut e, "' not found with fallback from ");
                let bn = preferred.to_string();
                append_str(&mut e, bn.as_str());
                Err(e)
            },
        }
    }

    /// Removes the plugin that a call of `name` reaches, giving it back if
    /// there was one.
    pub fn unregister(&mut self, name: &str) -> (r: Option<PluginInfo>)
        ensures
            match chain_pick(old(self).spec_plugins(), name@, fallback_order(PluginBackend::Native)) {
                Some(i) => r == Some(old(self).spec_plugins()[i]) && final(self).spec_plugins()
                    == old(self).spec_plugins().remove(i),
                None => r is None && final(self).spec_plugins() == old(self).spec_plugins(),
            },
            keys_distinct(final(self).spec_plugins()),
            final(self).spec_scan_dirs() == old(self).spec_scan_dirs(),
    {
        proof {
            use_type_invariant(&*self);
        }
        let ghost s = self.plugins@;
        match self.pick(name, PluginBackend::Native) {
            Some(i) => {
                let mut plugins = Vec::new();
                std::mem::swap(&mut plugins, &mut self.plugins);
                assert(plugins@ == s);
                let p = plugins.remove(i);
                assert(keys_distinct(plugins@)) by {
                    assert forall|a: int, b: int| 0 <= a < b < plugins@.len() implies !(plugins@[a].name@
                        == plugins@[b].name@ && plugins@[a].backend == plugins@[b].backend) by {
                        let a0 = if a < i { a } else { a + 1 };
                        let b0 = if b < i { b } else { b + 1 };
                        assert(plugins@[a] == s[a0]);
                        assert(plugins@[b] == s[b0]);
                    }
                }
                self.plugins = plugins;
                Some(p)
            },
            None => None,
        }
    }

    /// Adds a directory to scan for plugins.
    pub fn add_scan_dir(&mut self, dir: String)
        ensures
            final(self).spec_scan_dirs() == old(self).spec_scan_dirs().push(dir@),
            final(self).spec_plugins() == old(self).spec_plugins(),
    {
        proof {
            use_type_invariant(&*self);
        }
        let ghost before = self.spec_scan_dirs();
        let mut dirs = Vec::new();
        std::mem::swap(&mut dirs, &mut self.scan_dirs);
        dirs.push(dir);
        self.scan_dirs = dirs;
        assert(self.spec_scan_dirs() =~= before.push(dir@));
    }

    /// The directories scanned for plugins, in the order added.
    pub fn scan_dirs(&self) -> (r: &[String])
        ensures
            r@.map_values(|d: String| d@) == self.spec_scan_dirs(),
    {
        self.scan_dirs.as_slice()
    }

    /// The number of registered plugins.
    pub fn len(&self) -> (r: usize)
        ensures
            r == self.spec_plugins().len(),
    {
        self.plugins.len()
    }

    /// Whether no plugin is registered.
    pub fn is_empty(&self) -> (r: bool)
        ensures
            r == (self.spec_plugins().len() == 0),
    {
        self.plugins.len() == 0
    }
}

impl Default for PluginRegistry {
    fn default() -> (r: Self)
        ensures
            r.spec_plugins().len() == 0,
            r.spec_scan_dirs().len() == 0,
    {
        PluginRegistry::new()
    }
}

/// What `register` leaves behind is found again: asking for the registered
/// plugin's name with its own backend preferred gives exactly that plugin.
pub proof fn lemma_register_then_get(s: Seq<PluginInfo>, info: PluginInfo)
    requires
        keys_distinct(s),
    ensures
        ({
            let after = match index_of(s, info.name@, info.backend) {
                Some(i) => s.update(i, info),
                None => s.push(info),
            };
            &&& keys_distinct(after)
            &&& chain_pick(after, info.name@, fallback_order(info.backend)) matches Some(j) && after[j] == info
        }),
{
    lemma_index_of(s, info.name@, info.backend);
    let after = match index_of(s, info.name@, info.backend) {
        Some(i) => s.update(i, info),
        None => s.push(info),
    };
    assert(keys_distinct(after));
    lemma_index_of(after, info.name@, info.backend);
    let k: int = match index_of(s, info.name@, info.backend) {
        Some(i) => i,
        None => s.len() as int,
    };
    assert(after[k] == info);
    assert(fallback_order(info.backend)[0] == info.backend);
    if let Some(j) = index_of(after, info.name@, info.backend) {
        if j != k {
            if j < k {
                assert(!(after[j].name@ == after[k].name@ && after[j].backend == after[k].backend));
            } else {
                assert(!(after[k].name@ == after[j].name@ && after[k].backend == after[j].backend));
            }
        }
    }
}

/// A call of a name goes to the Native plugin of that name when there is
/// one, else the TypeScript one, else the Python one.
pub proof fn lemma_call_prefers_native(s: Seq<PluginInfo>, name: Seq<char>)
    ensures
        index_of(s, name, PluginBackend::Native) is Some ==> chain_pick(s, name, fallback_order(PluginBackend::Native))
            == index_of(s, name, PluginBackend::Native),
        index_of(s, name, PluginBackend::Native) is None && index_of(s, name, PluginBackend::TypeScript) is Some
            ==> chain_pick(s, name, fallback_order(PluginBackend::Native)) == index_of(s, name, PluginBackend::TypeScript),
{
}

/// The fallback chain: the preferred backend is asked first; when it has no
/// plugin of the name, Native is asked before the other backend (and, with
/// Native preferred, TypeScript before Python); nothing is found only when no
/// backend has a plugin of the name.
pub proof fn lemma_fallback_chain(s: Seq<PluginInfo>, name: Seq<char>, preferred: PluginBackend)
    ensures
        index_of(s, name, preferred) is Some ==> chain_pick(s, name, fallback_order(preferred)) == index_of(s, name, preferred),
        preferred != PluginBackend::Native && index_of(s, name, preferred) is None
            && index_of(s, name, PluginBackend::Native) is Some
            ==> chain_pick(s, name, fallback_order(preferred)) == index_of(s, name, PluginBackend::Native),
        preferred == PluginBackend::Native && index_of(s, name, PluginBackend::Native) is None
            && index_of(s, name, PluginBackend::TypeScript) is Some
            ==> chain_pick(s, name, fallback_order(preferred)) == index_of(s, name, PluginBackend::TypeScript),
        chain_pick(s, name, fallback_order(preferred)) is None <==> (index_of(s, name, PluginBackend::Native) is None
            && index_of(s, name, PluginBackend::TypeScript) is None && index_of(s, name, PluginBackend::Python) is None),
{
}

} // verus!
