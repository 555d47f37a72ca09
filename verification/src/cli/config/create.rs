//! Creating a config file with default values, after asking before
//! overwriting one.

use vstd::prelude::*;

use crate::cli::config::WhichConfig;

verus! {

/// Options of `config create`.
#[derive(Clone, Copy, PartialEq, Eq, Structural, Debug)]
pub struct CreateArgs {}

/// The next step of creating a config file.
#[derive(Debug)]
pub enum CreateStep {
    /// Ask the user this yes/no question (defaulting to no), then run again
    /// with the answer
    Confirm(String),
    /// Write the default config to the file
    Save(WhichConfig),
    /// Leave the existing file alone
    Keep,
}

/// The question asked before overwriting a config file.
pub open spec fn overwrite_prompt(which: WhichConfig) -> Seq<char> {
    match which {
        WhichConfig::Local => "A local config file already exists. Do you want to overwrite it?"@,
        WhichConfig::Global => "A global config file already exists. Do you want to overwrite it?"@,
    }
}

impl CreateArgs {
    /// Decides the next step of creating the `which` config file. `exists` is
    /// whether it exists; `answer` is the user's answer to the overwrite
    /// question, once asked.
    pub fn run(&self, which: WhichConfig, exists: bool, answer: Option<bool>) -> (res: CreateStep)
        ensures
            !exists ==> res == CreateStep::Save(which),
            exists && answer is None ==> (res matches CreateStep::Confirm(p) && p@ == overwrite_prompt(which)),
            exists && answer == Some(true) ==> res == CreateStep::Save(which),
            exists && answer == Some(false) ==> res is Keep,
    {
        if !exists {
            return CreateStep::Save(which);
        }
        match answer {
            None => {
                let p = match which {
                    WhichConfig::Local => String::from_str("A local config file already exists. Do you want to overwrite it?"),
                    WhichConfig::Global => String::from_str("A global config file already exists. Do you want to overwrite it?"),
                };
                CreateStep::Confirm(p)
            },
            Some(true) => CreateStep::Save(which),
            Some(false) => CreateStep::Keep,
        }
    }
}

} // verus!
