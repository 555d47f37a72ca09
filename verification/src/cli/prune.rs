//! Prune: deletes feature branches that are merged into their base.

use vstd::prelude::*;

use crate::cli::sync::{is_current, opt_view, UpdateAction};
use crate::text::{str_eq, views};

verus! {

/// A fact about a branch that the prune decision needs next.
#[derive(Clone, Copy, PartialEq, Eq, Structural, Debug)]
pub enum PruneFact {
    /// Whether the branch has been pushed to a remote
    Pushed,
    /// The base branch recorded for the branch, if any
    Base,
    /// Whether the branch is merged into its base
    Merged,
}

/// What prune does with a branch once the facts are in.
#[derive(Debug)]
pub enum PruneDecision {
    /// The branch is kept; this is what is reported
    Report(UpdateAction),
    /// The branch is deleted (in a dry run, only reported as deleted)
    Delete,
}

/// Whether `name` is one of `names`.
pub fn contains_name(names: &Vec<String>, name: &str) -> (res: bool)
    ensures
        res == views(names@).contains(name@),
{
    let mut i: usize = 0;
    while i < names.len()
        invariant
            i <= names.len(),
            forall|j: int| 0 <= j < i ==> names@[j]@ != name@,
        decreases names.len() - i,
    {
        if str_eq(names[i].as_str(), name) {
            assert(views(names@)[i as int] == name@);
            return true;
        }
        i = i + 1;
    }
    assert(!views(names@).contains(name@)) by {
        if views(names@).contains(name@) {
            let j = choose|j: int| 0 <= j < views(names@).len() && views(names@)[j] == name@;
            assert(names@[j]@ == name@);
        }
    }
    false
}

/// The prune decision as a function of all its facts:
/// - 0: kept silently
/// - 1: kept, reported as skipped because it is checked out
/// - 2: deleted
pub open spec fn prune_outcome(protected: bool, pushed: bool, has_base: bool, current: bool, merged: bool) -> int {
    if protected || !pushed || !has_base {
        0
    } else if current {
        1
    } else if !merged {
        0
    } else {
        2
    }
}

/// The kind of a prune decision, numbered as in [prune_outcome]; -1 when a fact
/// is still asked for, -2 for a report prune never makes.
pub open spec fn prune_kind(r: Result<PruneDecision, PruneFact>) -> int {
    match r {
        Err(_) => -1,
        Ok(PruneDecision::Report(UpdateAction::DeleteSkip { .. })) => 1,
        Ok(PruneDecision::Report(UpdateAction::Unchanged)) => 0,
        Ok(PruneDecision::Report(_)) => -2,
        Ok(PruneDecision::Delete) => 2,
    }
}

/// Whether a branch is protected: listed in the project's config, or marked
/// by the `protect` command.
pub open spec fn protected(name: Seq<char>, protect: Seq<String>, marked: Seq<String>) -> bool {
    views(protect).contains(name) || views(marked).contains(name)
}

/// Decides whether a branch is deleted. It is, if:
/// - it's not a protected branch: neither listed in the project's config
///   (`protect`) nor marked with `feature-protect` by the `protect` command
///   (`marked`, the branches whose config has it set)
/// - it was pushed to a remote before
/// - it has a known base
/// - it's not the current branch
/// - it's merged into its base
///
/// Facts are asked (`Err`) only when the decision reaches them, in the order
/// pushed, base, merged. Skipping the current branch is reported, since the
/// user may need to delete it manually.
pub fn prune_branch(
    name: &str,
    protect: &Vec<String>,
    marked: &Vec<String>,
    pushed: Option<bool>,
    base: Option<Option<String>>,
    current_branch: Option<&str>,
    merged: Option<bool>,
) -> (res: Result<PruneDecision, PruneFact>)
    ensures
        protected(name@, protect@, marked@) ==> (res matches Ok(PruneDecision::Report(UpdateAction::Unchanged))),
        !protected(name@, protect@, marked@) && pushed is None ==> res == Err::<PruneDecision, PruneFact>(PruneFact::Pushed),
        !protected(name@, protect@, marked@) && pushed == Some(false)
            ==> (res matches Ok(PruneDecision::Report(UpdateAction::Unchanged))),
        !protected(name@, protect@, marked@) && pushed == Some(true) && base == Some::<Option<String>>(None)
            ==> (res matches Ok(PruneDecision::Report(UpdateAction::Unchanged))),
        !protected(name@, protect@, marked@) && pushed == Some(true) && (base matches Some(Some(_)))
            && !is_current(name@, opt_view(current_branch)) && merged == Some(false)
            ==> (res matches Ok(PruneDecision::Report(UpdateAction::Unchanged))),
        !protected(name@, protect@, marked@) && pushed == Some(true) && (base matches Some(Some(_)))
            && !is_current(name@, opt_view(current_branch)) && merged == Some(true)
            ==> (res matches Ok(PruneDecision::Delete)),
        !protected(name@, protect@, marked@) && pushed == Some(true) && base is None
            ==> res == Err::<PruneDecision, PruneFact>(PruneFact::Base),
        !protected(name@, protect@, marked@) && pushed == Some(true) && (base matches Some(Some(_)))
            && !is_current(name@, opt_view(current_branch)) && merged is None
            ==> res == Err::<PruneDecision, PruneFact>(PruneFact::Merged),
        !protected(name@, protect@, marked@) && pushed == Some(true) && (base matches Some(Some(_)))
            && is_current(name@, opt_view(current_branch))
            ==> (res matches Ok(PruneDecision::Report(UpdateAction::DeleteSkip { name: n, reason: r }))
                && n@ == name@ && r@ == "currently checked-out"@),
        pushed is Some && base is Some && merged is Some ==> prune_kind(res) == prune_outcome(
            protected(name@, protect@, marked@), pushed->0, base->0 is Some, is_current(name@, opt_view(current_branch)), merged->0),
{
    // skip protected branches
    if contains_name(protect, name) || contains_name(marked, name) {
        return Ok(PruneDecision::Report(UpdateAction::Unchanged));
    }
    // skip branches that have never been pushed
    match pushed {
        None => return Err(PruneFact::Pushed),
        Some(false) => return Ok(PruneDecision::Report(UpdateAction::Unchanged)),
        Some(true) => {},
    }
    // find base branch, else skip
    match base {
        None => return Err(PruneFact::Base),
        Some(None) => return Ok(PruneDecision::Report(UpdateAction::Unchanged)),
        Some(Some(_)) => {},
    }
    // skip current branch
    let current = match current_branch {
        Some(c) => str_eq(c, name),
        None => false,
    };
    if current {
        return Ok(PruneDecision::Report(UpdateAction::DeleteSkip {
            name: String::from_str(name),
            reason: String::from_str("currently checked-out"),
        }));
    }
    // detect if branch is merged (i.e. has no commits that aren't on its base)
    match merged {
        None => Err(PruneFact::Merged),
        Some(false) => Ok(PruneDecision::Report(UpdateAction::Unchanged)),
        Some(true) => Ok(PruneDecision::Delete),
    }
}

/// What deleting a pruned branch does in the repository: the branch is
/// deleted, its wip reference dropped and its `branch.<name>` config section
/// removed.
#[derive(Debug)]
pub struct BranchDeletion {
    /// The branch to delete
    pub branch: String,
    /// The config section to remove
    pub config_section: String,
}

/// Carries out a [PruneDecision::Delete] of branch `name` whose tip has the
/// short id `old`: unless it is a dry run, the deletion to make; in any case
/// the `Deleted` report. A dry run changes nothing in the repository.
pub fn delete_pruned(name: &str, old: String, dry_run: bool) -> (res: (Option<BranchDeletion>, UpdateAction))
    ensures
        dry_run ==> res.0 is None,
        !dry_run ==> (res.0 matches Some(d) && d.branch@ == name@ && d.config_section@ == "branch."@ + name@),
        res.1 matches UpdateAction::Delete { name: n, old: o } && n@ == name@ && o@ == old@,
{
    let deletion = if dry_run {
        None
    } else {
        let mut section = String::from_str("branch.");
        section.append(name);
        Some(BranchDeletion { branch: name.to_string(), config_section: section })
    };
    (deletion, UpdateAction::Delete { name: name.to_string(), old })
}

/// A branch is deleted exactly when it is not protected, was pushed, has a
/// base, is not checked out and is merged into its base; in particular a
/// protected or checked-out branch is never deleted.
pub proof fn lemma_prune_deletes_only_merged_feature_branches(
    protected: bool,
    pushed: bool,
    has_base: bool,
    current: bool,
    merged: bool,
)
    ensures
        prune_outcome(protected, pushed, has_base, current, merged) == 2
            <==> (!protected && pushed && has_base && !current && merged),
        protected ==> prune_outcome(protected, pushed, has_base, current, merged) == 0,
        current ==> prune_outcome(protected, pushed, has_base, current, merged) != 2,
{
}

} // verus!
