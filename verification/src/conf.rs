//! A small key-value configuration store.
//!
//! Values are kept in an association list; a newer binding stands in
//! front of, and so shadows, an older one.  Reading the configuration
//! source that fills the store happens outside the library.

use vstd::prelude::*;
use crate::error::Error;
use crate::error::ErrorKind;
use crate::text::str_eq;

verus! {

/// A configuration value: a piece of text or a switch.
#[derive(Clone, Debug)]
pub enum ConfValue {
    Text(String),
    Flag(bool),
}

/// The first binding of the key, front to back.
pub open spec fn spec_lookup(s: Seq<(String, ConfValue)>, key: Seq<char>) -> Option<ConfValue>
    decreases s.len(),
{
    if s.len() == 0 {
        None
    } else if s[0].0@ == key {
        Some(s[0].1)
    } else {
        spec_lookup(s.skip(1), key)
    }
}

/// A binding put in front of the list changes no other key's lookup.
pub proof fn lemma_lookup_other(
    s_new: Seq<(String, ConfValue)>,
    s_old: Seq<(String, ConfValue)>,
    key: Seq<char>,
    k: Seq<char>,
)
    requires
        s_new.len() == s_old.len() + 1,
        s_new[0].0@ == key,
        s_new.skip(1) == s_old,
        k != key,
    ensures
        spec_lookup(s_new, k) == spec_lookup(s_old, k),
{
    assert(spec_lookup(s_new, k) == spec_lookup(s_new.skip(1), k));
}

/// The configuration store.
#[derive(Debug)]
pub struct Conf {
    pub entries: Vec<(String, ConfValue)>,
}

impl Conf {
    /// An empty store.
    pub fn new() -> (r: Conf)
        ensures
            r.entries@.len() == 0,
    {
        Conf { entries: Vec::new() }
    }

    /// Binds the key to the value, shadowing any older binding.
    pub fn set(&mut self, key: &str, value: ConfValue)
        ensures
            final(self).entries@.len() == old(self).entries@.len() + 1,
            final(self).entries@[0].0@ == key@,
            final(self).entries@[0].1 == value,
            final(self).entries@.skip(1) == old(self).entries@,
            spec_lookup(final(self).entries@, key@) == Some(value),
    {
        let owned = String::from_str(key);
        self.entries.insert(0, (owned, value));
        proof {
            assert(self.entries@[0].0@ == key@);
            assert(self.entries@.skip(1) =~= old(self).entries@);
        }
    }

    /// The bound value, if the key is bound at all.
    pub fn get(&self, key: &str) -> (r: Option<&ConfValue>)
        ensures
            match r {
                Some(v) => spec_lookup(self.entries@, key@) == Some(*v),
                None => spec_lookup(self.entries@, key@) is None,
            },
    {
        let mut i: usize = 0;
        proof {
            assert(self.entries@.skip(0) =~= self.entries@);
        }
        while i < self.entries.len()
            invariant
                i <= self.entries@.len(),
                spec_lookup(self.entries@, key@) == spec_lookup(
                    self.entries@.skip(i as int),
                    key@,
                ),
            decreases self.entries@.len() - i,
        {
            let ghost gi = i as int;
            proof {
                assert(self.entries@.skip(gi)[0] == self.entries@[gi]);
                assert(self.entries@.skip(gi).skip(1) =~= self.entries@.skip(gi + 1));
            }
            if str_eq(self.entries[i].0.as_str(), key) {
                return Some(&self.entries[i].1);
            }
            i += 1;
        }
        None
    }

    /// The bound text, or a configuration failure naming the key when the
    /// key is unbound or bound to a switch.
    pub fn get_str(&self, key: &str) -> (r: Result<String, Error>)
        ensures
            r matches Ok(t) ==> (spec_lookup(self.entries@, key@) matches Some(v) && (
            v matches ConfValue::Text(s) && t@ == s@)),
            r matches Err(e) ==> !(spec_lookup(self.entries@, key@) matches Some(
                ConfValue::Text(s),
            )) && e.kind == ErrorKind::Configuration && e.name@ == "config"@ && e.description@
                == key@ && e.cause is None,
    {
        match self.get(key) {
            Some(ConfValue::Text(s)) => Ok(s.clone()),
            Some(ConfValue::Flag(_)) => Err(Error::configuration("config", key)),
            None => Err(Error::configuration("config", key)),
        }
    }

    /// Binds the key to the text only when the key is still unbound.
    pub fn set_default_str(&mut self, key: &str, value: &str)
        ensures
            spec_lookup(old(self).entries@, key@) is Some ==> final(self).entries@
                == old(self).entries@,
            spec_lookup(old(self).entries@, key@) is None ==> (final(self).entries@.len()
                == old(self).entries@.len() + 1 && final(self).entries@[0].0@ == key@ && (
            final(self).entries@[0].1 matches ConfValue::Text(s) && s@ == value@)
                && final(self).entries@.skip(1) == old(self).entries@),
    {
        match self.get(key) {
            Some(_) => {},
            None => {
                let owned = String::from_str(value);
                self.set(key, ConfValue::Text(owned));
            },
        }
    }
}

} // verus!
