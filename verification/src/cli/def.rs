//! The structure of the command line: its actions and their options.

use vstd::prelude::*;

use crate::cli::config_cmd;
use crate::text::{join, joined, views};

verus! {

/// The parsed command line.
#[derive(Debug)]
pub struct Args {
    pub action: Action,
}

/// The actions.
#[derive(Debug)]
pub enum Action {
    /// Start a new feature branch
    Start(StartArgs),
    /// Commit using remaining args as commit message
    Commit {
        /// Words to join together as commit message
        words: Vec<String>,
    },
    /// Update the current branch against its base branch
    Update {
        /// The name of the base branch to use. Defaults to the repo's main base
        base: Option<String>,
    },
    /// Push current branch to remote
    Push,
    /// Add branch to list of protected branches
    Protect { branch: String },
    /// Remove branch from list of protected branches
    Unprotect { branch: String },
    /// Syncs entire repo with all remotes
    Sync,
    /// Clean up merged branches
    Prune { dry_run: bool },
    /// List branches
    List,
    /// View git log with entire commit subject line, followed by author name and relative date
    Log,
    /// View git graph with author name and relative date in noticable colors. Truncates commit
    /// subject to try to fit it in one line
    Graph,
    /// Modify config values or initialize a config file
    Config { args: config_cmd::Args },
}

/// Options of `start`.
#[derive(Debug)]
pub struct StartArgs {
    /// The separator to use when joining words
    pub sep: Option<String>,
    /// Words to join together as branch name
    pub words: Vec<String>,
}

/// The separator: the one given, else `-`.
pub open spec fn start_separator(a: StartArgs) -> Seq<char> {
    match a.sep {
        Some(s) => s@,
        None => "-"@,
    }
}

impl StartArgs {
    /// The separator to join the words with.
    pub fn separator(&self) -> (res: String)
        ensures
            res@ == start_separator(*self),
    {
        match &self.sep {
            Some(s) => s.clone(),
            None => String::from_str("-"),
        }
    }

    /// The branch name: the words joined by the separator.
    pub fn branch_name(&self) -> (res: String)
        ensures
            res@ == joined(views(self.words@), start_separator(*self)),
    {
        let sep = self.separator();
        join(&self.words, sep.as_str())
    }
}

} // verus!
