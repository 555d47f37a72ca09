//! The config subcommand over the project config: create a file, print keys,
//! print the schema.

use vstd::prelude::*;

use crate::text::str_eq;

verus! {

/// Which config file to use.
#[derive(Clone, Copy, PartialEq, Eq, Structural, Debug)]
pub enum WhichConfig {
    /// Local project config file
    Local,
    /// Global project config file
    Global,
}

/// Options of `config get`.
#[derive(Debug)]
pub struct GetArgs {
    /// The names of the keys to get
    pub keys: Vec<String>,
}

/// The config subcommands.
#[derive(Debug)]
pub enum ConfigCommand {
    /// Creates a config file with default values
    Create,
    /// Get the value of some config keys. These are the values that feature
    /// will use at runtime
    Get(GetArgs),
    /// Prints an entire schema of the config to stdout
    Schema,
}

/// Options of the config subcommand.
#[derive(Debug)]
pub struct Args {
    /// Which config file to use
    pub which: WhichConfig,
    /// Shorthand for --which=global
    pub global: bool,
    pub command: ConfigCommand,
}

/// The next step of creating a config file.
#[derive(Debug)]
pub enum CreateStep {
    /// Ask the user this yes/no question (defaulting to no), then run again
    /// with the answer
    Confirm(String),
    /// Write the default config to the file
    Save(WhichConfig),
    /// Leave the existing file alone
    Keep,
}

/// The question asked before overwriting a config file.
pub open spec fn overwrite_prompt(which: WhichConfig) -> Seq<char> {
    match which {
        WhichConfig::Local => "A local config file already exists. Do you want to overwrite it?"@,
        WhichConfig::Global => "A global config file already exists. Do you want to overwrite it?"@,
    }
}

/// The values of the loaded config that `get` can print, as displayed.
#[derive(Debug)]
pub struct ConfigValues {
    pub default_remote: String,
    /// The protect array, as TOML
    pub protect: String,
    pub branch_sep: String,
    pub branch_template: Option<String>,
}

/// What `get` prints for a key: `key: value` on stdout for a known key,
/// `Unrecognized key: key` on stderr for another.
pub open spec fn get_output(key: Seq<char>, c: ConfigValues) -> Result<Seq<char>, Seq<char>> {
    if key == "default_remote"@ {
        Ok(key + ": "@ + c.default_remote@)
    } else if key == "protect"@ {
        Ok(key + ": "@ + c.protect@)
    } else if key == "branch.sep"@ {
        Ok(key + ": "@ + c.branch_sep@)
    } else if key == "branch.template"@ {
        Ok(key + ": "@ + match c.branch_template {
            Some(t) => t@,
            None => "None"@,
        })
    } else {
        Err("Unrecognized key: "@ + key)
    }
}

impl Args {
    /// The config file the options pick: `--global` wins over `--which`.
    pub fn which(&self) -> (res: WhichConfig)
        ensures
            res == (if self.global { WhichConfig::Global } else { self.which }),
    {
        if self.global { WhichConfig::Global } else { self.which }
    }

    /// Decides the next step of creating the chosen config file. `exists` is
    /// whether it exists; `answer` is the user's answer to the overwrite
    /// question, once asked.
    pub fn create(&self, exists: bool, answer: Option<bool>) -> (res: CreateStep)
        ensures
            !exists ==> res == CreateStep::Save(if self.global { WhichConfig::Global } else { self.which }),
            exists && answer is None ==> (res matches CreateStep::Confirm(p)
                && p@ == overwrite_prompt(if self.global { WhichConfig::Global } else { self.which })),
            exists && answer == Some(true) ==> res == CreateStep::Save(if self.global { WhichConfig::Global } else { self.which }),
            exists && answer == Some(false) ==> res is Keep,
    {
        let which = self.which();
        if !exists {
            return CreateStep::Save(which);
        }
        match answer {
            None => {
                let p = match which {
                    WhichConfig::Local => String::from_str("A local config file already exists. Do you want to overwrite it?"),
                    WhichConfig::Global => String::from_str("A global config file already exists. Do you want to overwrite it?"),
                };
                CreateStep::Confirm(p)
            },
            Some(true) => CreateStep::Save(which),
            Some(false) => CreateStep::Keep,
        }
    }

    /// The output line for one key.
    pub fn get_line(key: &str, c: &ConfigValues) -> (res: Result<String, String>)
        ensures
            (match res {
                Ok(s) => Ok(s@),
                Err(s) => Err(s@),
            }) == get_output(key@, *c),
    {
        let v: Option<String> = if str_eq(key, "default_remote") {
            Some(c.default_remote.clone())
        } else if str_eq(key, "protect") {
            Some(c.protect.clone())
        } else if str_eq(key, "branch.sep") {
            Some(c.branch_sep.clone())
        } else if str_eq(key, "branch.template") {
            Some(match &c.branch_template {
                Some(t) => t.clone(),
                None => String::from_str("None"),
            })
        } else {
            None
        };
        match v {
            Some(v) => {
                let mut l = String::from_str(key);
                l.append(": ");
                l.append(v.as_str());
                Ok(l)
            },
            None => {
                let mut l = String::from_str("Unrecognized key: ");
                l.append(key);
                Err(l)
            },
        }
    }

    /// The output for each requested key, in order.
    pub fn get(&self, args: &GetArgs, c: &ConfigValues) -> (res: Vec<Result<String, String>>)
        ensures
            res@.len() == args.keys@.len(),
            forall|i: int| 0 <= i < res@.len() ==> (match #[trigger] res@[i] {
                Ok(s) => Ok(s@),
                Err(s) => Err(s@),
            }) == get_output(args.keys@[i]@, *c),
    {
        let mut out: Vec<Result<String, String>> = Vec::new();
        let mut i: usize = 0;
        while i < args.keys.len()
            invariant
                i <= args.keys@.len(),
                out@.len() == i,
                forall|j: int| 0 <= j < i ==> (match #[trigger] out@[j] {
                    Ok(s) => Ok(s@),
                    Err(s) => Err(s@),
                }) == get_output(args.keys@[j]@, *c),
            decreases args.keys@.len() - i,
        {
            out.push(Args::get_line(args.keys[i].as_str(), c));
            i = i + 1;
        }
        out
    }
}

} // verus!
