//! A snapshot of the process environment, handed to the library as plain
//! name/value pairs so that decisions that read the environment stay pure.
use vstd::prelude::*;

verus! {

/// Environment variables, as name/value pairs.
#[derive(Debug, Clone)]
pub struct EnvVars {
    pub vars: Vec<(String, String)>,
}

/// The value of the first variable called `name`, if any.
pub open spec fn env_lookup(vars: Seq<(String, String)>, name: Seq<char>) -> Option<Seq<char>>
    decreases vars.len(),
{
    if vars.len() == 0 {
        None
    } else if vars[0].0@ == name {
        Some(vars[0].1@)
    } else {
        env_lookup(vars.drop_first(), name)
    }
}

impl EnvVars {
    /// No variables at all.
    pub fn empty() -> (r: EnvVars)
        ensures
            r.vars@.len() == 0,
    {
        EnvVars { vars: Vec::new() }
    }

    /// The value of the variable `name`.
    pub open spec fn spec_get(&self, name: Seq<char>) -> Option<Seq<char>> {
        env_lookup(self.vars@, name)
    }

    /// The value of the variable `name`, if it is set.
    pub fn get(&self, name: &str) -> (r: Option<String>)
        ensures
            r matches Some(v) ==> self.spec_get(name@) == Some(v@),
            r is None ==> self.spec_get(name@) is None,
    {
        let mut i: usize = 0;
        let n = name.to_owned();
        proof {
            assert(self.vars@.skip(0) =~= self.vars@);
        }
        while i < self.vars.len()
            invariant
                i <= self.vars@.len(),
                n@ == name@,
                self.spec_get(name@) == env_lookup(self.vars@.skip(i as int), name@),
            decreases self.vars@.len() - i,
        {
            proof {
                assert(self.vars@.skip(i as int).drop_first() =~= self.vars@.skip(i + 1));
            }
            if self.vars[i].0 == n {
                return Some(self.vars[i].1.clone());
            }
            i = i + 1;
        }
        None
    }

    /// Sets a variable; it hides any earlier value of the same name.
    pub fn set(&mut self, name: &str, value: &str)
        ensures
            final(self).spec_get(name@) == Some(value@),
            forall|k: Seq<char>| k != name@ ==> final(self).spec_get(k) == old(self).spec_get(k),
    {
        self.vars.insert(0, (name.to_owned(), value.to_owned()));
        proof {
            assert(self.vars@.drop_first() =~= old(self).vars@);
        }
    }
}

} // verus!
