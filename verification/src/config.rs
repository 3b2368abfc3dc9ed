//! Configuration settings.
//!
//! A `Config` holds the settings handed in at startup as plain key/value
//! pairs, and falls back to built-in defaults for the few keys that have one.
//! Database settings have no default: the gateway treats a missing one as a
//! fatal startup error.

use vstd::prelude::*;
use vstd::string::StringExecFns;

use crate::item::view_opt;

verus! {

/// The built-in default for a setting, if it has one.
pub open spec fn spec_default_for(item: Seq<char>) -> Option<Seq<char>> {
    if item == "PLATYPUS_PORT"@ {
        Some("8001"@)
    } else if item == "PLATYPUS_WORKERS"@ {
        Some("4"@)
    } else {
        None
    }
}

/// The value of a setting: the first override with that key, else the default.
pub open spec fn spec_config_get(overrides: Seq<(Seq<char>, Seq<char>)>, item: Seq<char>) -> Option<
    Seq<char>,
>
    decreases overrides.len(),
{
    if overrides.len() == 0 {
        spec_default_for(item)
    } else if overrides[0].0 == item {
        Some(overrides[0].1)
    } else {
        spec_config_get(overrides.skip(1), item)
    }
}

/// Startup configuration: supplied settings over built-in defaults.
#[derive(Clone, Debug)]
pub struct Config {
    /// Settings handed in at startup, each a key and its value.
    pub overrides: Vec<(String, String)>,
}

impl Config {
    /// The overrides as a sequence of key/value views.
    pub open spec fn entries(&self) -> Seq<(Seq<char>, Seq<char>)> {
        self.overrides@.map_values(|p: (String, String)| (p.0@, p.1@))
    }

    /// An empty configuration: every lookup falls back to the defaults.
    pub fn new() -> (r: Config)
        ensures
            r.entries() == Seq::<(Seq<char>, Seq<char>)>::empty(),
    {
        let c = Config { overrides: Vec::new() };
        proof {
            assert(c.entries() =~= Seq::<(Seq<char>, Seq<char>)>::empty());
        }
        c
    }

    /// Adds a supplied setting; later lookups of `key` return `value` unless
    /// an earlier override already named `key`.
    pub fn supply(&mut self, key: String, value: String)
        ensures
            final(self).entries() == old(self).entries().push((key@, value@)),
    {
        let ghost before = self.entries();
        self.overrides.push((key, value));
        proof {
            assert(self.entries() =~= before.push((self.overrides@.last().0@,
            self.overrides@.last().1@)));
        }
    }

    /// Looks a setting up: a supplied override wins, else the default.
    pub fn get(&self, item: &str) -> (r: Option<String>)
        ensures
            view_opt(r) == spec_config_get(self.entries(), item@),
    {
        let item_owned: String = item.to_owned();
        let n = self.overrides.len();
        let mut i: usize = 0;
        proof {
            assert(self.entries().skip(0) =~= self.entries());
        }
        while i < n
            invariant
                0 <= i <= n,
                n == self.overrides.len(),
                item_owned@ == item@,
                spec_config_get(self.entries(), item@) == spec_config_get(
                    self.entries().skip(i as int),
                    item@,
                ),
            decreases n - i,
        {
            proof {
                assert(self.entries().skip(i as int)[0] == self.entries()[i as int]);
                assert(self.entries().skip(i as int).skip(1) =~= self.entries().skip(i + 1));
            }
            if self.overrides[i].0 == item_owned {
                return Some(self.overrides[i].1.clone());
            }
            i = i + 1;
        }
        proof {
            assert(self.entries().skip(n as int) =~= Seq::<(Seq<char>, Seq<char>)>::empty());
        }
        Config::get_default(item)
    }

    /// The built-in default for a setting, if it has one.
    pub fn get_default(item: &str) -> (r: Option<String>)
        ensures
            view_opt(r) == spec_default_for(item@),
    {
        let item_owned: String = item.to_owned();
        if item_owned == String::from_str("PLATYPUS_PORT") {
            Some(String::from_str("8001"))
        } else if item_owned == String::from_str("PLATYPUS_WORKERS") {
            Some(String::from_str("4"))
        } else {
            None
        }
    }
}

} // verus!
