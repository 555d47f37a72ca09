//! `db`: keeps the database of tracked branches and their bases.

use vstd::prelude::*;

use crate::cli::error::CliError;

verus! {

/// The `db` subcommands.
#[derive(Debug)]
pub enum Args {
    /// Track a branch and its base
    Add {
        /// The base branch
        base: String,
        /// The branch whose base will be set. Defaults to current branch
        branch: Option<String>,
    },
    /// Remove a tracked branch from the database
    Remove { branch: String },
    /// Clean all deleted branches from database
    Clean,
    /// Removes the entire database
    Delete {
        /// Delete without confirmation
        force: bool,
    },
}

/// A change to the database's entries.
#[derive(Debug, PartialEq, Eq)]
pub enum DbChange {
    /// Record `base` as the base of `branch`
    Insert { branch: String, base: String },
    /// Forget `branch`
    Forget { branch: String },
    /// Drop the entries of branches that no longer exist
    Clean,
}

/// The next step of deleting the database file.
#[derive(Debug, PartialEq, Eq)]
pub enum DeleteStep {
    /// There is no file: print this and stop
    Missing(String),
    /// Ask the user this yes/no question (no by default)
    Ask(String),
    /// Remove the file
    Remove,
    /// Leave the file
    Keep,
}

/// The question asked before deleting the database.
pub open spec fn delete_prompt() -> Seq<char> {
    "Are you sure you want to delete the database? This is irreversable (but honestly it's not that hard to remake it)"@
}

impl Args {
    /// Whether the subcommand needs to know the current branch: `add`
    /// without a branch.
    pub fn needs_current_branch(&self) -> (res: bool)
        ensures
            res == (self matches Args::Add { branch: None, .. }),
    {
        match self {
            Args::Add { branch: None, .. } => true,
            _ => false,
        }
    }

    /// The change made to the entries; `current` is the branch HEAD is
    /// on, known when [Args::needs_current_branch] says so. Deleting the
    /// whole database changes no entry.
    pub fn change(&self, current: Option<String>) -> (res: Option<DbChange>)
        requires
            (self matches Args::Add { branch: None, .. }) ==> current is Some,
        ensures
            match self {
                Args::Add { base, branch } => res == Some(DbChange::Insert {
                    branch: match branch {
                        Some(b) => *b,
                        None => current.unwrap(),
                    },
                    base: *base,
                }),
                Args::Remove { branch } => res == Some(DbChange::Forget { branch: *branch }),
                Args::Clean => res == Some(DbChange::Clean),
                Args::Delete { .. } => res is None,
            },
    {
        match self {
            Args::Add { base, branch } => {
                let b = match branch {
                    Some(b) => b.clone(),
                    None => current.unwrap(),
                };
                Some(DbChange::Insert { branch: b, base: base.clone() })
            },
            Args::Remove { branch } => Some(DbChange::Forget { branch: branch.clone() }),
            Args::Clean => Some(DbChange::Clean),
            Args::Delete { .. } => None,
        }
    }
}

/// The next step of deleting the database: nothing to do without a file;
/// with `force`, or once the user said yes (`answer`), remove it; before
/// an answer, ask.
pub fn delete_step(exists: bool, force: bool, answer: Option<bool>) -> (res: DeleteStep)
    ensures
        !exists ==> (res matches DeleteStep::Missing(m) && m@ == "Database does not exist"@),
        exists && force ==> res == DeleteStep::Remove,
        exists && !force && answer == Some(true) ==> res == DeleteStep::Remove,
        exists && !force && answer == Some(false) ==> res == DeleteStep::Keep,
        exists && !force && answer is None ==> (res matches DeleteStep::Ask(p) && p@ == delete_prompt()),
{
    if !exists {
        return DeleteStep::Missing(String::from_str("Database does not exist"));
    }
    if force {
        return DeleteStep::Remove;
    }
    match answer {
        None => DeleteStep::Ask(String::from_str(
            "Are you sure you want to delete the database? This is irreversable (but honestly it's not that hard to remake it)",
        )),
        Some(true) => DeleteStep::Remove,
        Some(false) => DeleteStep::Keep,
    }
}

/// The error when removing the database file failed with `reason`.
pub fn delete_failed(reason: &str) -> (res: CliError)
    ensures
        res matches CliError::Database(m) && m@ == "Failed to delete database file: "@ + reason@,
{
    let mut m = String::from_str("Failed to delete database file: ");
    m.append(reason);
    CliError::Database(m)
}

} // verus!
