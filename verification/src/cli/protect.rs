//! `protect`: marks a branch so that pruning leaves it alone.

use vstd::prelude::*;

use crate::cli::error::CliError;
use crate::cli::prune::{protected, prune_outcome};
use crate::cli::wip::not_on_branch_msg;
use crate::text::views;

verus! {

/// Options of `protect`.
#[derive(Debug)]
pub struct ProtectArgs {
    /// Unset the config value (i.e. stop protecting the branch)
    pub unset: bool,
    /// The name of the branch to protect. Defaults to the current branch.
    pub branch: Option<String>,
}

/// The change made to a branch's `feature-protect` setting.
#[derive(Debug, PartialEq, Eq)]
pub enum ProtectChange {
    /// Set it to true for the branch
    Protect(String),
    /// Remove it from the branch
    Unprotect(String),
}

impl ProtectArgs {
    /// The change to make: on the named branch, else on the current one
    /// (`current`, the branch HEAD is on); it is an error when neither is
    /// known.
    pub fn run(&self, current: Option<String>) -> (res: Result<ProtectChange, CliError>)
        ensures
            match (self.branch, current) {
                (None, None) => res matches Err(CliError::Generic(m)) && m@ == not_on_branch_msg(),
                _ => {
                    let b = match self.branch {
                        Some(n) => n,
                        None => current.unwrap(),
                    };
                    if self.unset {
                        res == Ok::<ProtectChange, CliError>(ProtectChange::Unprotect(b))
                    } else {
                        res == Ok::<ProtectChange, CliError>(ProtectChange::Protect(b))
                    }
                },
            },
    {
        let branch = match &self.branch {
            Some(name) => name.clone(),
            None => match current {
                Some(c) => c,
                None => return Err(CliError::Generic(String::from_str("Not currently on a branch"))),
            },
        };
        proof {
            reveal_strlit("Not currently on a branch");
        }
        if self.unset {
            Ok(ProtectChange::Unprotect(branch))
        } else {
            Ok(ProtectChange::Protect(branch))
        }
    }
}

/// The set of protected branches after a change.
pub open spec fn protected_after(protected: Set<Seq<char>>, c: ProtectChange) -> Set<Seq<char>> {
    match c {
        ProtectChange::Protect(b) => protected.insert(b@),
        ProtectChange::Unprotect(b) => protected.remove(b@),
    }
}

/// Unprotecting a branch undoes protecting it: after both, the branch is
/// unprotected and every other branch is as it was; and while it is
/// protected, prune keeps it whatever else holds of it.
pub proof fn lemma_unprotect_undoes_protect(protected: Set<Seq<char>>, b: String,
    pushed: bool, has_base: bool, current: bool, merged: bool)
    ensures
        protected_after(protected_after(protected, ProtectChange::Protect(b)), ProtectChange::Unprotect(b))
            == protected.remove(b@),
        !protected.contains(b@) ==> protected_after(
            protected_after(protected, ProtectChange::Protect(b)), ProtectChange::Unprotect(b)) == protected,
        protected_after(protected, ProtectChange::Protect(b)).contains(b@),
        prune_outcome(protected_after(protected, ProtectChange::Protect(b)).contains(b@), pushed, has_base, current, merged) == 0,
{
    assert(protected.insert(b@).remove(b@) =~= protected.remove(b@));
    if !protected.contains(b@) {
        assert(protected.remove(b@) =~= protected);
    }
}

/// A branch protected with `protect` is kept by prune: once the change is
/// made, the branches marked protected include it, so prune's decision for
/// it (see `prune_branch`, which takes the marked branches) is to leave it
/// unchanged, whatever else holds of it.
pub proof fn lemma_protected_branch_is_kept(marked_before: Set<Seq<char>>, b: String, marked_after: Seq<String>,
    project: Seq<String>, pushed: bool, has_base: bool, current: bool, merged: bool)
    requires
        views(marked_after).to_set() == protected_after(marked_before, ProtectChange::Protect(b)),
    ensures
        protected(b@, project, marked_after),
        prune_outcome(protected(b@, project, marked_after), pushed, has_base, current, merged) == 0,
{
    assert(views(marked_after).to_set().contains(b@));
}

} // verus!

