//! `base`: records which base branch another branch belongs to.

use vstd::prelude::*;

use crate::cli::error::CliError;

verus! {

/// Options of `base`.
#[derive(Debug)]
pub struct BaseArgs {
    /// The name of the base branch
    pub base: String,
    /// The name of the branch whose base is being set. Defaults to current branch
    pub branch: Option<String>,
}

/// The message when a named branch does not exist.
pub open spec fn not_found_msg(name: Seq<char>) -> Seq<char> {
    "Branch not found: "@ + name
}

/// The message when no branch is named and HEAD is not on one.
pub open spec fn not_on_branch_msg() -> Seq<char> {
    "Not currently on a branch! You can switch to a branch or specify one manually\nwith the --branch option."@
}

/// The error for a named branch that does not exist.
pub fn branch_not_found(name: &str) -> (res: CliError)
    ensures
        res matches CliError::Generic(m) && m@ == not_found_msg(name@),
{
    let mut m = String::from_str("Branch not found: ");
    m.append(name);
    CliError::Generic(m)
}

impl BaseArgs {
    /// The branch whose base is set. `found` is the branch that the name
    /// given with `--branch` resolved to, if one was given; `current` is the
    /// branch HEAD is on.
    pub fn target(&self, found: Option<String>, current: Option<String>) -> (res: Result<String, CliError>)
        ensures
            match self.branch {
                Some(name) => match found {
                    Some(b) => res == Ok::<String, CliError>(b),
                    None => res matches Err(CliError::Generic(m)) && m@ == not_found_msg(name@),
                },
                None => match current {
                    Some(c) => res == Ok::<String, CliError>(c),
                    None => res matches Err(CliError::Generic(m)) && m@ == not_on_branch_msg(),
                },
            },
    {
        match &self.branch {
            Some(name) => match found {
                Some(b) => Ok(b),
                None => Err(branch_not_found(name.as_str())),
            },
            None => match current {
                Some(c) => Ok(c),
                None => Err(CliError::Generic(String::from_str(
                    "Not currently on a branch! You can switch to a branch or specify one manually\nwith the --branch option.",
                ))),
            },
        }
    }

    /// The base branch, given what its name resolved to.
    pub fn base_branch(&self, found: Option<String>) -> (res: Result<String, CliError>)
        ensures
            match found {
                Some(b) => res == Ok::<String, CliError>(b),
                None => res matches Err(CliError::Generic(m)) && m@ == not_found_msg(self.base@),
            },
    {
        match found {
            Some(b) => Ok(b),
            None => Err(branch_not_found(self.base.as_str())),
        }
    }
}

/// The reference recorded as the base: the base's upstream (such as
/// `refs/remotes/origin/main`) when it has one, else the base itself.
pub fn base_refname(upstream: Option<String>, base_ref: String) -> (res: String)
    ensures
        res == match upstream {
            Some(u) => u,
            None => base_ref,
        },
{
    match upstream {
        Some(u) => u,
        None => base_ref,
    }
}

} // verus!
