//! `update`: rebases the current branch onto its base.

use vstd::prelude::*;

use crate::cli::base::{branch_not_found, not_found_msg};
use crate::cli::display::dim;
use crate::cli::error::CliError;
use crate::text::{line, push_span, Span, Style};

verus! {

/// Options of `update`.
#[derive(Debug)]
pub struct Args {
    /// Output which base branch will be used, but don't perform the rebase
    pub dry_run: bool,
    /// Continue an active rebase
    pub resume: bool,
    /// Abort an active rebase
    pub abort: bool,
    /// Skip applying current commit in an active rebase
    pub skip: bool,
    /// The name of the base branch to use.
    pub base: Option<String>,
}

/// A base branch as the update sees it.
#[derive(Debug)]
pub struct BaseRef {
    /// Its short name
    pub name: String,
    /// Its full reference name
    pub refname: String,
    /// Whether it is a remote branch
    pub is_remote: bool,
}

/// What `update` does once the base is known.
#[derive(Debug)]
pub enum UpdatePlan {
    /// Print this line and stop
    DryRun(String),
    /// Fetch the base first when `fetch` is set (then print the dimmed
    /// `fetched` line), and run git with `git_args`
    Rebase { fetch: bool, fetched: Vec<Span>, git_args: Vec<String> },
}

/// The message when HEAD is not on a branch.
pub open spec fn not_on_branch_msg() -> Seq<char> {
    "Not currently on a branch! Nothing to update."@
}

/// The message when the branch has no recorded base and none is given.
pub open spec fn no_base_msg() -> Seq<char> {
    "No base branch found. You can:\n\n\u{2022} Manually specify the base branch: \"feature update <BASE_BRANCH>\"\n\u{2022} Set the base branch permanently: \"feature base <BASE_BRANCH>\""@
}

/// The git arguments that act on a rebase in progress, if one of the flags
/// asks for it (`--continue`, then `--abort`, then `--skip`).
pub open spec fn control_args(a: Args) -> Option<Seq<Seq<char>>> {
    if a.resume {
        Some(seq!["rebase"@, "--continue"@])
    } else if a.abort {
        Some(seq!["rebase"@, "--abort"@])
    } else if a.skip {
        Some(seq!["rebase"@, "--skip"@])
    } else {
        None
    }
}

/// The git arguments `rebase <flag>`.
fn rebase_with(flag: &str) -> (res: Vec<String>)
    ensures
        res@.len() == 2,
        res@[0]@ == "rebase"@,
        res@[1]@ == flag@,
{
    let mut v: Vec<String> = Vec::new();
    v.push(String::from_str("rebase"));
    v.push(String::from_str(flag));
    v
}

impl Args {
    /// The git command that acts on a rebase in progress, when
    /// `--continue`, `--abort` or `--skip` is given.
    pub fn rebase_control(&self) -> (res: Option<Vec<String>>)
        ensures
            match control_args(*self) {
                Some(a) => res matches Some(v) && v@.len() == a.len()
                    && forall|i: int| 0 <= i < a.len() ==> #[trigger] v@[i]@ == a[i],
                None => res is None,
            },
    {
        if self.resume {
            Some(rebase_with("--continue"))
        } else if self.abort {
            Some(rebase_with("--abort"))
        } else if self.skip {
            Some(rebase_with("--skip"))
        } else {
            None
        }
    }

    /// The base to rebase onto. `on_branch` tells whether HEAD is on a
    /// branch; `found` is what the base named on the command line resolved
    /// to, and `recorded` the base recorded for the current branch.
    pub fn resolve_base(&self, on_branch: bool, found: Option<BaseRef>, recorded: Option<BaseRef>)
        -> (res: Result<BaseRef, CliError>)
        ensures
            !on_branch ==> (res matches Err(CliError::Generic(m)) && m@ == not_on_branch_msg()),
            on_branch ==> match self.base {
                Some(name) => match found {
                    Some(b) => res == Ok::<BaseRef, CliError>(b),
                    None => res matches Err(CliError::Generic(m)) && m@ == not_found_msg(name@),
                },
                None => match recorded {
                    Some(b) => res == Ok::<BaseRef, CliError>(b),
                    None => res matches Err(CliError::Generic(m)) && m@ == no_base_msg(),
                },
            },
    {
        if !on_branch {
            return Err(CliError::Generic(String::from_str("Not currently on a branch! Nothing to update.")));
        }
        match &self.base {
            Some(name) => match found {
                Some(b) => Ok(b),
                None => Err(branch_not_found(name.as_str())),
            },
            None => match recorded {
                Some(b) => Ok(b),
                None => Err(CliError::Generic(String::from_str(
                    "No base branch found. You can:\n\n\u{2022} Manually specify the base branch: \"feature update <BASE_BRANCH>\"\n\u{2022} Set the base branch permanently: \"feature base <BASE_BRANCH>\"",
                ))),
            },
        }
    }

    /// What to do with the base: report it on a dry run, else fetch it
    /// when it is remote and rebase onto its reference.
    pub fn plan(&self, base: &BaseRef) -> (res: UpdatePlan)
        ensures
            self.dry_run ==> (res matches UpdatePlan::DryRun(l) && l@ == "Using base: "@ + base.name@),
            !self.dry_run ==> (res matches UpdatePlan::Rebase { fetch, fetched, git_args }
                && fetch == base.is_remote
                && line(fetched@) == seq![("Fetched "@ + base.name@, dim())]
                && git_args@.len() == 2 && git_args@[0]@ == "rebase"@ && git_args@[1]@ == base.refname@),
    {
        if self.dry_run {
            let mut l = String::from_str("Using base: ");
            l.append(base.name.as_str());
            return UpdatePlan::DryRun(l);
        }
        let mut text = String::from_str("Fetched ");
        text.append(base.name.as_str());
        let mut fetched: Vec<Span> = Vec::new();
        push_span(&mut fetched, text, Style::dimmed());
        assert(line(fetched@) =~= seq![("Fetched "@ + base.name@, dim())]);
        UpdatePlan::Rebase { fetch: base.is_remote, fetched, git_args: rebase_with(base.refname.as_str()) }
    }
}

} // verus!
