//! The older key-per-flag config subcommand: each known key is a flag of
//! `get`, `set` and `unset`.

use vstd::prelude::*;

use crate::text::{trim, trimmed};

verus! {

/// Options of `config get`: which keys to print.
#[derive(Clone, Copy, PartialEq, Eq, Structural, Debug)]
pub struct GetArgs {
    pub default_base: bool,
    pub default_remote: bool,
    pub branch_sep: bool,
}

/// Options of `config set`: the new value of each key to set.
#[derive(Debug)]
pub struct SetArgs {
    pub default_base: Option<String>,
    pub default_remote: Option<String>,
    pub branch_sep: Option<String>,
}

/// Options of `config unset`: which keys to remove.
#[derive(Clone, Copy, PartialEq, Eq, Structural, Debug)]
pub struct UnsetArgs {
    pub default_base: bool,
    pub default_remote: bool,
    pub branch_sep: bool,
}

/// The config subcommands.
#[derive(Debug)]
pub enum Args {
    Get(GetArgs),
    SetValue(SetArgs),
    Unset(UnsetArgs),
}

/// The displayed values of the known keys in the config document, where set.
#[derive(Debug)]
pub struct KeyTexts {
    pub default_base: Option<String>,
    pub default_remote: Option<String>,
    pub branch_sep: Option<String>,
}

/// `key: value` (the value trimmed) or `key is unset`.
pub open spec fn get_line(key: Seq<char>, text: Option<String>) -> Seq<char> {
    match text {
        Some(t) => key + ": "@ + trimmed(t@),
        None => key + " is unset"@,
    }
}

/// The line of a key, when its flag is given.
pub open spec fn opt_get_line(flag: bool, key: Seq<char>, text: Option<String>) -> Seq<Seq<char>> {
    if flag { seq![get_line(key, text)] } else { Seq::empty() }
}

/// `Unset key (was value)` for a key that was removed.
pub open spec fn unset_line(flag: bool, key: Seq<char>, text: Option<String>) -> Seq<Seq<char>> {
    match text {
        Some(t) => if flag { seq![ "Unset "@ + key + " (was "@ + trimmed(t@) + ")"@ ] } else { Seq::empty() },
        None => Seq::empty(),
    }
}

/// An assignment of `value` to `key`, when a value is given.
pub open spec fn opt_assignment(key: Seq<char>, value: Option<String>) -> Seq<(Seq<char>, Seq<char>)> {
    match value {
        Some(v) => seq![(key, v@)],
        None => Seq::empty(),
    }
}

fn push_get_line(out: &mut Vec<String>, flag: bool, key: &str, text: &Option<String>)
    ensures
        final(out)@.map_values(|s: String| s@) == old(out)@.map_values(|s: String| s@) + opt_get_line(flag, key@, *text),
{
    if flag {
        let mut l = String::from_str(key);
        match text {
            Some(t) => {
                l.append(": ");
                l.append(trim(t.as_str()).as_str());
            },
            None => {
                l.append(" is unset");
            },
        }
        out.push(l);
    }
    assert(out@.map_values(|s: String| s@) =~= old(out)@.map_values(|s: String| s@) + opt_get_line(flag, key@, *text));
}

fn push_unset_line(out: &mut Vec<String>, flag: bool, key: &str, text: &Option<String>)
    ensures
        final(out)@.map_values(|s: String| s@) == old(out)@.map_values(|s: String| s@) + unset_line(flag, key@, *text),
{
    if flag {
        if let Some(t) = text {
            let mut l = String::from_str("Unset ");
            l.append(key);
            l.append(" (was ");
            l.append(trim(t.as_str()).as_str());
            l.append(")");
            out.push(l);
        }
    }
    assert(out@.map_values(|s: String| s@) =~= old(out)@.map_values(|s: String| s@) + unset_line(flag, key@, *text));
}

impl GetArgs {
    /// The printed lines, one per flagged key in the order default_base,
    /// default_remote, branch_sep.
    pub fn get(&self, texts: &KeyTexts) -> (res: Vec<String>)
        ensures
            res@.map_values(|s: String| s@) == opt_get_line(self.default_base, "default_base"@, texts.default_base)
                + opt_get_line(self.default_remote, "default_remote"@, texts.default_remote)
                + opt_get_line(self.branch_sep, "branch_sep"@, texts.branch_sep),
    {
        let mut out: Vec<String> = Vec::new();
        push_get_line(&mut out, self.default_base, "default_base", &texts.default_base);
        push_get_line(&mut out, self.default_remote, "default_remote", &texts.default_remote);
        push_get_line(&mut out, self.branch_sep, "branch_sep", &texts.branch_sep);
        assert(Seq::<String>::empty().map_values(|s: String| s@) =~= Seq::<Seq<char>>::empty());
        out
    }
}

impl SetArgs {
    /// The assignments to make, in the order default_base, default_remote,
    /// branch_sep.
    pub fn set(&self) -> (res: Vec<(String, String)>)
        ensures
            res@.map_values(|p: (String, String)| (p.0@, p.1@)) == opt_assignment("default_base"@, self.default_base)
                + opt_assignment("default_remote"@, self.default_remote)
                + opt_assignment("branch_sep"@, self.branch_sep),
    {
        let mut out: Vec<(String, String)> = Vec::new();
        if let Some(v) = &self.default_base {
            out.push((String::from_str("default_base"), v.clone()));
        }
        let ghost a = out@.map_values(|p: (String, String)| (p.0@, p.1@));
        assert(a =~= opt_assignment("default_base"@, self.default_base));
        if let Some(v) = &self.default_remote {
            out.push((String::from_str("default_remote"), v.clone()));
        }
        let ghost b = out@.map_values(|p: (String, String)| (p.0@, p.1@));
        assert(b =~= a + opt_assignment("default_remote"@, self.default_remote));
        if let Some(v) = &self.branch_sep {
            out.push((String::from_str("branch_sep"), v.clone()));
        }
        assert(out@.map_values(|p: (String, String)| (p.0@, p.1@)) =~= b + opt_assignment("branch_sep"@, self.branch_sep));
        out
    }
}

impl UnsetArgs {
    /// The lines printed after removing the flagged keys: one per key that
    /// was set, with its old value. `removed` holds what each removal gave
    /// back.
    pub fn unset(&self, removed: &KeyTexts) -> (res: Vec<String>)
        ensures
            res@.map_values(|s: String| s@) == unset_line(self.default_base, "default_base"@, removed.default_base)
                + unset_line(self.default_remote, "default_remote"@, removed.default_remote)
                + unset_line(self.branch_sep, "branch_sep"@, removed.branch_sep),
    {
        let mut out: Vec<String> = Vec::new();
        push_unset_line(&mut out, self.default_base, "default_base", &removed.default_base);
        push_unset_line(&mut out, self.default_remote, "default_remote", &removed.default_remote);
        push_unset_line(&mut out, self.branch_sep, "branch_sep", &removed.branch_sep);
        assert(Seq::<String>::empty().map_values(|s: String| s@) =~= Seq::<Seq<char>>::empty());
        out
    }
}

} // verus!
