//! The config subcommand over the project (local) and user (global) config
//! documents: create, get, set, unset, and edits of array values.

use vstd::prelude::*;

use crate::cli::error::CliError;
use crate::text::{str_eq, trim, trimmed};

verus! {

/// Which config file to use; `Project` and `Local` name the same file, as do
/// `User` and `Global`.
#[derive(Clone, Copy, PartialEq, Eq, Structural, Debug)]
pub enum WhichConfig {
    /// Project (local) config file
    Project,
    /// Project (local) config file
    Local,
    /// Global (user) config file
    User,
    /// Global (user) config file
    Global,
}

/// The file a choice names: the project file or the user file.
pub open spec fn is_project_file(which: WhichConfig) -> bool {
    which == WhichConfig::Project || which == WhichConfig::Local
}

/// The file the options pick: `--global` wins over `--which`.
pub open spec fn chosen(which: WhichConfig, global: bool) -> WhichConfig {
    if global { WhichConfig::Global } else { which }
}

/// Whether the options pick the project file (else the user file).
pub fn project_file(which: WhichConfig, global: bool) -> (res: bool)
    ensures
        res == is_project_file(chosen(which, global)),
{
    let w = if global { WhichConfig::Global } else { which };
    match w {
        WhichConfig::Project | WhichConfig::Local => true,
        WhichConfig::User | WhichConfig::Global => false,
    }
}

/// Options of `config create`.
#[derive(Clone, Copy, PartialEq, Eq, Structural, Debug)]
pub struct CreateArgs {
    /// Which file to create
    pub which: WhichConfig,
    /// Shorthand for --which=global
    pub global: bool,
}

/// Options of `config get`.
#[derive(Debug)]
pub struct GetArgs {
    /// The names of the keys to get
    pub keys: Vec<String>,
}

/// Options of `config set`.
#[derive(Debug)]
pub struct SetArgs {
    pub which: WhichConfig,
    pub global: bool,
    /// Use dots to access nested keys, e.g. format.branch
    pub key: String,
    pub value: String,
}

/// Options of `config unset`.
#[derive(Debug)]
pub struct UnsetArgs {
    pub which: WhichConfig,
    pub global: bool,
    /// List of keys to unset
    pub keys: Vec<String>,
}

/// Options of `config append` and `config remove`.
#[derive(Debug)]
pub struct ArrayArgs {
    pub which: WhichConfig,
    pub global: bool,
    /// The key of the array
    pub key: String,
    /// The values to modify (append or remove)
    pub values: Vec<String>,
}

/// The config subcommands.
#[derive(Debug)]
pub enum Args {
    Create(CreateArgs),
    Get(GetArgs),
    SetValue(SetArgs),
    Unset(UnsetArgs),
    Append(ArrayArgs),
    Remove(ArrayArgs),
}

/// The next step of creating a config file.
#[derive(Debug)]
pub enum CreateStep {
    /// Ask the user this yes/no question (defaulting to no), then run again
    /// with the answer
    Confirm(String),
    /// Write the default config; `true` for the project file
    Save(bool),
    /// Leave the existing file alone
    Keep,
}

/// The question asked before overwriting either config file.
pub open spec fn overwrite_prompt() -> Seq<char> {
    "A local config file already exists. Do you want to overwrite it?"@
}

impl CreateArgs {
    /// Decides the next step of creating the chosen config file. `exists` is
    /// whether it exists; `answer` is the user's answer to the overwrite
    /// question, once asked.
    pub fn create(&self, exists: bool, answer: Option<bool>) -> (res: CreateStep)
        ensures
            !exists ==> res == CreateStep::Save(is_project_file(chosen(self.which, self.global))),
            exists && answer is None ==> (res matches CreateStep::Confirm(p) && p@ == overwrite_prompt()),
            exists && answer == Some(true) ==> res == CreateStep::Save(is_project_file(chosen(self.which, self.global))),
            exists && answer == Some(false) ==> res is Keep,
    {
        let project = project_file(self.which, self.global);
        if !exists {
            return CreateStep::Save(project);
        }
        match answer {
            None => CreateStep::Confirm(String::from_str("A local config file already exists. Do you want to overwrite it?")),
            Some(true) => CreateStep::Save(project),
            Some(false) => CreateStep::Keep,
        }
    }
}

/// The values of the loaded config that `get` can print, as displayed.
#[derive(Debug)]
pub struct ConfigValues {
    pub default_remote: String,
    /// The bases array, as TOML
    pub bases: String,
    /// The protect array, as TOML
    pub protect: String,
    pub branch_sep: String,
    pub branch_format: Option<String>,
    pub log_format: String,
    pub graph_format: String,
}

/// The value printed for a known key, or `None` for an unknown one.
pub open spec fn key_value(key: Seq<char>, c: ConfigValues) -> Option<Seq<char>> {
    if key == "default_remote"@ {
        Some(c.default_remote@)
    } else if key == "bases"@ {
        Some(c.bases@)
    } else if key == "protect"@ {
        Some(c.protect@)
    } else if key == "format.branch_sep"@ {
        Some(c.branch_sep@)
    } else if key == "format.branch"@ {
        Some(match c.branch_format {
            Some(f) => f@,
            None => "None"@,
        })
    } else if key == "format.log"@ {
        Some(c.log_format@)
    } else if key == "format.graph"@ {
        Some(c.graph_format@)
    } else {
        None
    }
}

/// What `get` prints for a key: `key: value` on stdout for a known key,
/// `key doesn't exist!` on stderr for another.
pub open spec fn get_output(key: Seq<char>, c: ConfigValues) -> Result<Seq<char>, Seq<char>> {
    match key_value(key, c) {
        Some(v) => Ok(key + ": "@ + v),
        None => Err(key + " doesn't exist!"@),
    }
}

impl GetArgs {
    /// The output line for one key.
    pub fn get_line(key: &str, c: &ConfigValues) -> (res: Result<String, String>)
        ensures
            (match res {
                Ok(s) => Ok(s@),
                Err(s) => Err(s@),
            }) == get_output(key@, *c),
    {
        let v: Option<String> = if str_eq(key, "default_remote") {
            Some(c.default_remote.clone())
        } else if str_eq(key, "bases") {
            Some(c.bases.clone())
        } else if str_eq(key, "protect") {
            Some(c.protect.clone())
        } else if str_eq(key, "format.branch_sep") {
            Some(c.branch_sep.clone())
        } else if str_eq(key, "format.branch") {
            Some(match &c.branch_format {
                Some(f) => f.clone(),
                None => String::from_str("None"),
            })
        } else if str_eq(key, "format.log") {
            Some(c.log_format.clone())
        } else if str_eq(key, "format.graph") {
            Some(c.graph_format.clone())
        } else {
            None
        };
        match v {
            Some(v) => {
                let mut l = String::from_str(key);
                l.append(": ");
                l.append(v.as_str());
                Ok(l)
            },
            None => {
                let mut l = String::from_str(key);
                l.append(" doesn't exist!");
                Err(l)
            },
        }
    }

    /// The output for each key, in order.
    pub fn get(&self, c: &ConfigValues) -> (res: Vec<Result<String, String>>)
        ensures
            res@.len() == self.keys@.len(),
            forall|i: int| 0 <= i < res@.len() ==> (match #[trigger] res@[i] {
                Ok(s) => Ok(s@),
                Err(s) => Err(s@),
            }) == get_output(self.keys@[i]@, *c),
    {
        let mut out: Vec<Result<String, String>> = Vec::new();
        let mut i: usize = 0;
        while i < self.keys.len()
            invariant
                i <= self.keys@.len(),
                out@.len() == i,
                forall|j: int| 0 <= j < i ==> (match #[trigger] out@[j] {
                    Ok(s) => Ok(s@),
                    Err(s) => Err(s@),
                }) == get_output(self.keys@[j]@, *c),
            decreases self.keys@.len() - i,
        {
            out.push(GetArgs::get_line(self.keys[i].as_str(), c));
            i = i + 1;
        }
        out
    }
}

/// The path of table keys a settable key is written to.
pub open spec fn set_path(key: Seq<char>) -> Option<Seq<Seq<char>>> {
    if key == "default_remote"@ {
        Some(seq!["default_remote"@])
    } else if key == "format.branch_sep"@ {
        Some(seq!["format"@, "branch_sep"@])
    } else if key == "format.branch"@ {
        Some(seq!["format"@, "branch"@])
    } else if key == "format.log"@ {
        Some(seq!["format"@, "log"@])
    } else if key == "format.graph"@ {
        Some(seq!["format"@, "graph"@])
    } else {
        None
    }
}

/// `Unrecognized key: key`.
pub open spec fn unrecognized(key: Seq<char>) -> Seq<char> {
    "Unrecognized key: "@ + key
}

fn unrecognized_text(key: &str) -> (res: String)
    ensures
        res@ == unrecognized(key@),
{
    let mut m = String::from_str("Unrecognized key: ");
    m.append(key);
    m
}

/// The views of a list of string slices.
pub open spec fn str_views(v: Seq<&str>) -> Seq<Seq<char>> {
    v.map_values(|s: &str| s@)
}

fn path_of(parts: Vec<&str>) -> (res: Vec<String>)
    ensures
        string_views(res@) == str_views(parts@),
{
    let mut out: Vec<String> = Vec::new();
    let mut i: usize = 0;
    while i < parts.len()
        invariant
            i <= parts@.len(),
            out@.len() == i,
            forall|k: int| 0 <= k < i ==> (#[trigger] out@[k])@ == parts@[k]@,
        decreases parts@.len() - i,
    {
        let x = String::from_str(parts[i]);
        out.push(x);
        i = i + 1;
    }
    assert(string_views(out@) =~= str_views(parts@));
    out
}

impl SetArgs {
    /// Where the value is written: the table path of the key, or an error
    /// for a key that cannot be set.
    pub fn set(&self) -> (res: Result<Vec<String>, CliError>)
        ensures
            set_path(self.key@) matches Some(p) ==> (res matches Ok(v) && string_views(v@) == p),
            set_path(self.key@) is None ==> (res matches Err(CliError::Generic(m)) && m@ == unrecognized(self.key@)),
    {
        let k = self.key.as_str();
        if str_eq(k, "default_remote") {
            let p = path_of(vec!["default_remote"]);
            assert(string_views(p@) =~= seq!["default_remote"@]);
            Ok(p)
        } else if str_eq(k, "format.branch_sep") {
            let p = path_of(vec!["format", "branch_sep"]);
            assert(string_views(p@) =~= seq!["format"@, "branch_sep"@]);
            Ok(p)
        } else if str_eq(k, "format.branch") {
            let p = path_of(vec!["format", "branch"]);
            assert(string_views(p@) =~= seq!["format"@, "branch"@]);
            Ok(p)
        } else if str_eq(k, "format.log") {
            let p = path_of(vec!["format", "log"]);
            assert(string_views(p@) =~= seq!["format"@, "log"@]);
            Ok(p)
        } else if str_eq(k, "format.graph") {
            let p = path_of(vec!["format", "graph"]);
            assert(string_views(p@) =~= seq!["format"@, "graph"@]);
            Ok(p)
        } else {
            Err(CliError::Generic(unrecognized_text(k)))
        }
    }
}

/// What `unset` prints for a key: `Removed key (was value)` on stdout when
/// removing it gave back a value, `Unrecognized key: key` on stderr when the
/// document had no such key.
pub open spec fn unset_output(key: Seq<char>, removed: Option<Seq<char>>) -> Result<Seq<char>, Seq<char>> {
    match removed {
        Some(v) => Ok("Removed "@ + key + " (was "@ + trimmed(v) + ")"@),
        None => Err(unrecognized(key)),
    }
}

impl UnsetArgs {
    /// The output line for a key, given the displayed value its removal gave
    /// back.
    pub fn unset_line(key: &str, removed: Option<&str>) -> (res: Result<String, String>)
        ensures
            (match res {
                Ok(s) => Ok(s@),
                Err(s) => Err(s@),
            }) == unset_output(key@, match removed {
                Some(v) => Some(v@),
                None => None,
            }),
    {
        match removed {
            Some(v) => {
                let mut l = String::from_str("Removed ");
                l.append(key);
                l.append(" (was ");
                l.append(trim(v).as_str());
                l.append(")");
                Ok(l)
            },
            None => Err(unrecognized_text(key)),
        }
    }
}

/// What the document holds under the key of an array edit.
#[derive(Debug)]
pub enum ArrayState {
    /// No such key
    Missing,
    /// The key holds something other than an array
    NotArray,
    /// The key holds an array: each element as a string, or `None` for an
    /// element that is not a string
    Array(Vec<Option<String>>),
}

/// The edit to make to the document.
#[derive(Debug)]
pub enum ArrayEdit {
    /// Leave the document alone
    Nothing,
    /// Push these values to the array, creating an empty array under the key
    /// first when `create` is set
    Push { create: bool, values: Vec<String> },
    /// Keep only the elements that [keeps] accepts
    Retain,
}

/// `Not an array: key`.
pub open spec fn not_an_array(key: Seq<char>) -> Seq<char> {
    "Not an array: "@ + key
}

/// Whether `remove` keeps an element: every element but a string that is one
/// of the values.
pub open spec fn spec_keeps(element: Option<Seq<char>>, values: Seq<Seq<char>>) -> bool {
    match element {
        Some(s) => !values.contains(s),
        None => true,
    }
}

/// The array after `remove`.
pub open spec fn after_remove(arr: Seq<Option<Seq<char>>>, values: Seq<Seq<char>>) -> Seq<Option<Seq<char>>> {
    arr.filter(|e: Option<Seq<char>>| spec_keeps(e, values))
}

/// The array after `append`.
pub open spec fn after_append(arr: Seq<Option<Seq<char>>>, values: Seq<Seq<char>>) -> Seq<Option<Seq<char>>> {
    arr + values.map_values(|v: Seq<char>| Some(v))
}

/// The views of a list of strings.
pub open spec fn string_views(v: Seq<String>) -> Seq<Seq<char>> {
    v.map_values(|s: String| s@)
}

/// Whether `remove` keeps an element, given how it reads as a string.
pub fn keeps(element: Option<&str>, values: &Vec<String>) -> (res: bool)
    ensures
        res == spec_keeps(match element {
            Some(s) => Some(s@),
            None => None,
        }, string_views(values@)),
{
    match element {
        None => true,
        Some(s) => {
            let mut i: usize = 0;
            while i < values.len()
                invariant
                    element == Some(s),
                    i <= values@.len(),
                    forall|j: int| 0 <= j < i ==> values@[j]@ != s@,
                decreases values@.len() - i,
            {
                if str_eq(values[i].as_str(), s) {
                    assert(string_views(values@)[i as int] == s@);
                    assert(string_views(values@).contains(s@));
                    return false;
                }
                i = i + 1;
            }
            assert forall|k: int| 0 <= k < string_views(values@).len() implies string_views(values@)[k] != s@ by {
                assert(values@[k]@ != s@);
            }
            true
        },
    }
}

impl ArrayArgs {
    /// Decides how `append` edits the document: nothing without values; else
    /// push them, creating the array when the key is missing; an error when
    /// the key holds something other than an array.
    pub fn append(&self, state: &ArrayState) -> (res: Result<ArrayEdit, CliError>)
        ensures
            self.values@.len() == 0 ==> res matches Ok(ArrayEdit::Nothing),
            self.values@.len() > 0 ==> (match *state {
                ArrayState::Missing => res matches Ok(ArrayEdit::Push { create, values })
                    && create && string_views(values@) == string_views(self.values@),
                ArrayState::NotArray => res matches Err(CliError::Generic(m)) && m@ == not_an_array(self.key@),
                ArrayState::Array(_) => res matches Ok(ArrayEdit::Push { create, values })
                    && !create && string_views(values@) == string_views(self.values@),
            }),
    {
        if self.values.len() == 0 {
            return Ok(ArrayEdit::Nothing);
        }
        match state {
            ArrayState::Missing => Ok(ArrayEdit::Push { create: true, values: self.values.clone() }),
            ArrayState::NotArray => {
                let mut m = String::from_str("Not an array: ");
                m.append(self.key.as_str());
                Err(CliError::Generic(m))
            },
            ArrayState::Array(_) => Ok(ArrayEdit::Push { create: false, values: self.values.clone() }),
        }
    }

    /// Decides how `remove` edits the document: nothing without values or
    /// when the key is missing; else keep the elements [keeps] accepts; an
    /// error when the key holds something other than an array.
    pub fn remove(&self, state: &ArrayState) -> (res: Result<ArrayEdit, CliError>)
        ensures
            self.values@.len() == 0 ==> res matches Ok(ArrayEdit::Nothing),
            self.values@.len() > 0 ==> (match *state {
                ArrayState::Missing => res matches Ok(ArrayEdit::Nothing),
                ArrayState::NotArray => res matches Err(CliError::Generic(m)) && m@ == not_an_array(self.key@),
                ArrayState::Array(_) => res matches Ok(ArrayEdit::Retain),
            }),
    {
        if self.values.len() == 0 {
            return Ok(ArrayEdit::Nothing);
        }
        match state {
            ArrayState::Missing => Ok(ArrayEdit::Nothing),
            ArrayState::NotArray => {
                let mut m = String::from_str("Not an array: ");
                m.append(self.key.as_str());
                Err(CliError::Generic(m))
            },
            ArrayState::Array(_) => Ok(ArrayEdit::Retain),
        }
    }
}

/// Removing values right after appending them leaves the array as removing
/// them alone would: every appended element is removed again.
pub proof fn lemma_remove_undoes_append(arr: Seq<Option<Seq<char>>>, values: Seq<Seq<char>>)
    ensures
        after_remove(after_append(arr, values), values) == after_remove(arr, values),
{
    let p = |e: Option<Seq<char>>| spec_keeps(e, values);
    let added = values.map_values(|v: Seq<char>| Some(v));
    Seq::filter_distributes_over_add(arr, added, p);
    assert forall|i: int| 0 <= i < added.len() implies !p(added[i]) by {
        assert(values.contains(values[i]));
    }
    added.lemma_all_neg_filter_empty(p);
    assert(arr.filter(p) + added.filter(p) =~= arr.filter(p));
}

/// After `remove`, no element is a string among the removed values.
pub proof fn lemma_remove_removes_all(arr: Seq<Option<Seq<char>>>, values: Seq<Seq<char>>, i: int)
    requires
        0 <= i < after_remove(arr, values).len(),
    ensures
        after_remove(arr, values)[i] matches Some(s) ==> !values.contains(s),
{
    let p = |e: Option<Seq<char>>| spec_keeps(e, values);
    arr.lemma_filter_pred(p, i);
}

} // verus!
