//! `end`: safely deletes a feature branch once it is merged into its base,
//! switching off it first when it is checked out.

use vstd::prelude::*;

use crate::cli::display::{dim, green, no_style, red};
use crate::cli::error::CliError;
use crate::cli::status::Styled;
use crate::text::{line, push_span, push_str, str_eq, Color, Span, Style};

verus! {

/// Options of `end`.
#[derive(Debug)]
pub struct EndArgs {
    /// Also delete the remote reference
    pub remote: Option<bool>,
    /// Delete branch without checking if it's merged
    pub force: bool,
    /// Skip automatic fetch of base branch
    pub no_fetch: Option<bool>,
    /// The branch to treat as its base
    pub base: Option<String>,
    /// The branch to end. Defaults to the current branch.
    pub branch: Option<String>,
}

/// The message when there is no branch to delete.
pub open spec fn no_branch_msg() -> Seq<char> {
    "No branch to delete! Either switch to a branch or specify one manually:\n\"feature end <BRANCH>\""@
}

/// The message when the branch has no base.
pub open spec fn no_base_msg() -> Seq<char> {
    "Branch does not have a base! If this is meant to be a feature branch, specify\nthe base manually with the \"--base <BRANCH>\" option. If it's not a feature\nbranch, delete it normally with \"git branch -d <BRANCH>\"."@
}

/// The base of the branch being ended.
#[derive(Debug)]
pub struct BaseInfo {
    pub name: String,
    pub refname: String,
    /// Whether it is a remote branch
    pub remote: bool,
}

/// What the plan reads of the repo and config.
#[derive(Debug)]
pub struct EndFacts {
    /// The branch to end, when one was found
    pub branch: Option<String>,
    /// Its base, when one was found
    pub base: Option<BaseInfo>,
    /// Whether the config fetches automatically
    pub autofetch: bool,
    /// Whether the config deletes the remote branch too
    pub end_remote: bool,
    /// The checked out branch
    pub current: Option<String>,
}

/// Which branch to switch to before deleting the checked out one.
#[derive(Debug)]
pub enum SwitchTo {
    /// The (local) base itself, by name
    Base(String),
    /// The local branch that tracks the (remote) base, by the base's ref name
    TrackingOf(String),
}

/// The steps of ending a branch.
#[derive(Debug)]
pub struct EndPlan {
    pub branch: String,
    pub base: String,
    /// Fetch the (remote) base first
    pub fetch: bool,
    /// Refuse unless the branch is merged into its base
    pub check_merged: bool,
    /// Switch off the branch first, when it is checked out
    pub switch_to: Option<SwitchTo>,
    /// Delete the upstream too
    pub delete_remote: bool,
    /// The config section of the branch, removed at the end
    pub config_key: String,
}

/// One step of ending a branch, in the repository or on its remote.
#[derive(Clone, Copy, PartialEq, Eq, Structural, Debug)]
pub enum EndStep {
    /// Fetch the (remote) base
    Fetch,
    /// Check that the branch is merged into its base; stop with
    /// [check_merged]'s error if not
    CheckMerged,
    /// Switch off the branch (to [EndPlan::switch_to])
    Switch,
    /// Delete the branch's upstream on its remote (a failure is only
    /// reported)
    DeleteUpstream,
    /// Delete the local branch
    DeleteBranch,
    /// Drop the branch's wips (a failure is only reported)
    DeleteWips,
    /// Remove the branch's config section (a failure is only reported)
    RemoveConfig,
}

/// The steps of a plan, in order: the checks (fetch, merge check) come
/// before anything is switched or deleted; then the switch off the branch,
/// the upstream, the branch, its wips and its config.
pub open spec fn end_steps(p: EndPlan) -> Seq<EndStep> {
    (if p.fetch { seq![EndStep::Fetch] } else { Seq::empty() })
        + (if p.check_merged { seq![EndStep::CheckMerged] } else { Seq::empty() })
        + (if p.switch_to is Some { seq![EndStep::Switch] } else { Seq::empty() })
        + (if p.delete_remote { seq![EndStep::DeleteUpstream] } else { Seq::empty() })
        + seq![EndStep::DeleteBranch, EndStep::DeleteWips, EndStep::RemoveConfig]
}

/// Whether a step only checks (nothing is changed by it).
pub open spec fn is_check(s: EndStep) -> bool {
    s == EndStep::Fetch || s == EndStep::CheckMerged
}

/// The place of a step in the order of ending a branch: fetch, merge check,
/// switch off the branch, delete its upstream, delete it, drop its wips,
/// remove its config.
pub open spec fn step_rank(s: EndStep) -> int {
    match s {
        EndStep::Fetch => 0,
        EndStep::CheckMerged => 1,
        EndStep::Switch => 2,
        EndStep::DeleteUpstream => 3,
        EndStep::DeleteBranch => 4,
        EndStep::DeleteWips => 5,
        EndStep::RemoveConfig => 6,
    }
}

/// The steps of ending a branch: the merge check is made exactly when the
/// plan asks for it (unless forced, whatever the base), the fetch exactly
/// when the plan asks for it, the switch exactly when the branch is checked
/// out, the upstream is deleted exactly when asked; the branch, its wips and
/// its config always go; every check comes before every change; the merge
/// check comes before the branch is deleted; no step is taken twice; and the
/// steps keep the order of [step_rank].
pub proof fn lemma_end_checks_before_changes(p: EndPlan)
    ensures
        end_steps(p).contains(EndStep::CheckMerged) <==> p.check_merged,
        end_steps(p).contains(EndStep::Fetch) <==> p.fetch,
        end_steps(p).contains(EndStep::Switch) <==> p.switch_to is Some,
        end_steps(p).contains(EndStep::DeleteUpstream) <==> p.delete_remote,
        end_steps(p).contains(EndStep::DeleteBranch),
        end_steps(p).contains(EndStep::DeleteWips),
        end_steps(p).contains(EndStep::RemoveConfig),
        forall|i: int, j: int| 0 <= i < end_steps(p).len() && 0 <= j < end_steps(p).len()
            && is_check(#[trigger] end_steps(p)[i]) && !is_check(#[trigger] end_steps(p)[j]) ==> i < j,
        p.check_merged ==> exists|i: int, j: int| 0 <= i < j < end_steps(p).len()
            && #[trigger] end_steps(p)[i] == EndStep::CheckMerged && #[trigger] end_steps(p)[j] == EndStep::DeleteBranch,
        forall|i: int, j: int| 0 <= i < end_steps(p).len() && 0 <= j < end_steps(p).len()
            && #[trigger] end_steps(p)[i] == #[trigger] end_steps(p)[j] ==> i == j,
        forall|i: int, j: int| 0 <= i < end_steps(p).len() && 0 <= j < end_steps(p).len()
            && #[trigger] step_rank(end_steps(p)[i]) < #[trigger] step_rank(end_steps(p)[j]) ==> i < j,
{
    let f: Seq<EndStep> = if p.fetch { seq![EndStep::Fetch] } else { Seq::empty() };
    let c: Seq<EndStep> = if p.check_merged { seq![EndStep::CheckMerged] } else { Seq::empty() };
    let w: Seq<EndStep> = if p.switch_to is Some { seq![EndStep::Switch] } else { Seq::empty() };
    let u: Seq<EndStep> = if p.delete_remote { seq![EndStep::DeleteUpstream] } else { Seq::empty() };
    let t: Seq<EndStep> = seq![EndStep::DeleteBranch, EndStep::DeleteWips, EndStep::RemoveConfig];
    let s = end_steps(p);
    assert(s =~= f + c + w + u + t);
    let n: int = (f.len() + c.len()) as int;
    assert forall|i: int| 0 <= i < s.len() implies (is_check(#[trigger] s[i]) <==> i < n) by {
        if i < f.len() {
            assert(s[i] == f[i]);
        } else if i < n {
            assert(s[i] == c[i - f.len()]);
        } else if i < n + w.len() {
            assert(s[i] == w[i - n]);
        } else if i < n + w.len() + u.len() {
            assert(s[i] == u[i - n - w.len()]);
        } else {
            assert(s[i] == t[i - n - w.len() - u.len()]);
        }
    }
    assert forall|i: int, j: int| 0 <= i < j < s.len() implies step_rank(#[trigger] s[i]) < step_rank(#[trigger] s[j]) by {
        assert(s[i] == (f + c + w + u + t)[i]);
        assert(s[j] == (f + c + w + u + t)[j]);
    }
    assert forall|i: int, j: int| 0 <= i < s.len() && 0 <= j < s.len() && #[trigger] s[i] == #[trigger] s[j] implies i == j by {
        if i < j {
            assert(step_rank(s[i]) < step_rank(s[j]));
        } else if j < i {
            assert(step_rank(s[j]) < step_rank(s[i]));
        }
    }
    assert forall|i: int, j: int| 0 <= i < s.len() && 0 <= j < s.len()
        && #[trigger] step_rank(s[i]) < #[trigger] step_rank(s[j]) implies i < j by {
        if j < i {
            assert(step_rank(s[j]) < step_rank(s[i]));
        } else if i == j {
        }
    }
    let kb: int = n + w.len() as int + u.len() as int;
    assert(s[kb] == EndStep::DeleteBranch);
    assert(s[kb + 1] == EndStep::DeleteWips);
    assert(s[kb + 2] == EndStep::RemoveConfig);
    if p.fetch {
        assert(s[0] == EndStep::Fetch);
    }
    if p.check_merged {
        assert(s[f.len() as int] == EndStep::CheckMerged);
    }
    if p.switch_to is Some {
        assert(s[n] == EndStep::Switch);
    }
    if p.delete_remote {
        assert(s[n + w.len()] == EndStep::DeleteUpstream);
    }
    if s.contains(EndStep::CheckMerged) {
        let i = choose|i: int| 0 <= i < s.len() && s[i] == EndStep::CheckMerged;
        assert(is_check(s[i]));
    }
    if s.contains(EndStep::Fetch) {
        let i = choose|i: int| 0 <= i < s.len() && s[i] == EndStep::Fetch;
        assert(is_check(s[i]));
        assert(i < f.len() || s[i] == c[i - f.len()]);
    }
    if s.contains(EndStep::Switch) {
        let i = choose|i: int| 0 <= i < s.len() && s[i] == EndStep::Switch;
        assert(!is_check(s[i]));
    }
    if s.contains(EndStep::DeleteUpstream) {
        let i = choose|i: int| 0 <= i < s.len() && s[i] == EndStep::DeleteUpstream;
        assert(!is_check(s[i]));
    }
}

impl EndPlan {
    /// The steps of the plan, in the order they are carried out.
    pub fn steps(&self) -> (res: Vec<EndStep>)
        ensures
            res@ == end_steps(*self),
    {
        let mut v: Vec<EndStep> = Vec::new();
        if self.fetch {
            v.push(EndStep::Fetch);
        }
        if self.check_merged {
            v.push(EndStep::CheckMerged);
        }
        if self.switch_to.is_some() {
            v.push(EndStep::Switch);
        }
        if self.delete_remote {
            v.push(EndStep::DeleteUpstream);
        }
        v.push(EndStep::DeleteBranch);
        v.push(EndStep::DeleteWips);
        v.push(EndStep::RemoveConfig);
        assert(v@ =~= end_steps(*self));
        v
    }
}

impl EndArgs {
    /// Plans the deletion: the branch named (else the current one) and its
    /// base (the one named, else the configured one) must exist; the merge
    /// check (after a fetch of a remote base, unless fetching is off) is
    /// skipped when forced; a checked out branch is switched off first.
    pub fn plan(&self, facts: &EndFacts) -> (res: Result<EndPlan, CliError>)
        ensures
            facts.branch is None ==> (res matches Err(CliError::Generic(m)) && m@ == no_branch_msg()),
            facts.branch is Some && facts.base is None ==> (res matches Err(CliError::Generic(m)) && m@ == no_base_msg()),
            facts.branch is Some && facts.base is Some ==> (res matches Ok(p) && {
                let b = facts.branch->0;
                let base = facts.base->0;
                let skip_fetch = match self.no_fetch { Some(s) => s, None => !facts.autofetch };
                &&& p.branch@ == b@
                &&& p.base@ == base.name@
                &&& p.check_merged == !self.force
                &&& p.fetch == (!self.force && base.remote && !skip_fetch)
                &&& p.delete_remote == (match self.remote { Some(r) => r, None => facts.end_remote })
                &&& p.config_key@ == "branch."@ + b@
                &&& (facts.current matches Some(c) && c@ == b@) ==> (if base.remote {
                    p.switch_to matches Some(SwitchTo::TrackingOf(r)) && r@ == base.refname@
                } else {
                    p.switch_to matches Some(SwitchTo::Base(n)) && n@ == base.name@
                })
                &&& !(facts.current matches Some(c) && c@ == b@) ==> p.switch_to is None
            }),
    {
        let branch = match &facts.branch {
            Some(b) => b.clone(),
            None => {
                return Err(CliError::Generic(String::from_str("No branch to delete! Either switch to a branch or specify one manually:\n\"feature end <BRANCH>\"")));
            },
        };
        let base = match &facts.base {
            Some(b) => b,
            None => {
                return Err(CliError::Generic(String::from_str("Branch does not have a base! If this is meant to be a feature branch, specify\nthe base manually with the \"--base <BRANCH>\" option. If it's not a feature\nbranch, delete it normally with \"git branch -d <BRANCH>\".")));
            },
        };
        let skip_fetch = match self.no_fetch {
            Some(s) => s,
            None => !facts.autofetch,
        };
        let on_branch = match &facts.current {
            Some(c) => str_eq(c.as_str(), branch.as_str()),
            None => false,
        };
        let switch_to = if on_branch {
            if base.remote {
                Some(SwitchTo::TrackingOf(base.refname.clone()))
            } else {
                Some(SwitchTo::Base(base.name.clone()))
            }
        } else {
            None
        };
        let mut key = String::from_str("branch.");
        key.append(branch.as_str());
        Ok(EndPlan {
            branch,
            base: base.name.clone(),
            fetch: !self.force && base.remote && !skip_fetch,
            check_merged: !self.force,
            switch_to,
            delete_remote: match self.remote {
                Some(r) => r,
                None => facts.end_remote,
            },
            config_key: key,
        })
    }
}

/// An unmerged branch is not deleted.
pub fn check_merged(branch: &str, base: &str, merged: bool) -> (res: Result<(), CliError>)
    ensures
        merged ==> res is Ok,
        !merged ==> (res matches Err(CliError::Generic(m)) && m@ == branch@ + " is not merged into "@ + base@),
{
    if merged {
        Ok(())
    } else {
        let mut m = String::from_str(branch);
        m.append(" is not merged into ");
        m.append(base);
        Err(CliError::Generic(m))
    }
}

/// `Failed to find local branch tracking <refname>`.
pub fn no_tracking_branch(refname: &str) -> (res: CliError)
    ensures
        res matches CliError::Generic(m) && m@ == "Failed to find local branch tracking "@ + refname@,
{
    let mut m = String::from_str("Failed to find local branch tracking ");
    m.append(refname);
    CliError::Generic(m)
}

/// `Fetched <base>`, dimmed.
pub fn display_fetched(base: &str) -> (res: Vec<Span>)
    ensures
        line(res@) == seq![("Fetched "@ + base@, dim())],
{
    let mut m = String::from_str("Fetched ");
    m.append(base);
    let mut out: Vec<Span> = Vec::new();
    push_span(&mut out, m, Style::dimmed());
    out
}

/// `Switched to <branch>`.
pub fn display_switched(name: &str) -> (res: Vec<Span>)
    ensures
        line(res@) == seq![("Switched"@, green()), (" to "@ + name@, no_style())],
{
    let mut out: Vec<Span> = Vec::new();
    push_str(&mut out, "Switched", Style::fg(Color::Green));
    let mut m = String::from_str(" to ");
    m.append(name);
    push_span(&mut out, m, Style::none());
    out
}

/// `Deleted <branch> (was <id>)`.
pub open spec fn deleted_line(name: Seq<char>, short_id: Seq<char>) -> Styled {
    seq![("Deleted"@, red()), (seq![' '] + name + seq![' '], no_style()), ("(was "@ + short_id + seq![')'], dim())]
}

/// Reports a deleted branch.
pub fn display_deleted(name: &str, short_id: &str) -> (res: Vec<Span>)
    ensures
        line(res@) == deleted_line(name@, short_id@),
{
    let mut out: Vec<Span> = Vec::new();
    push_str(&mut out, "Deleted", Style::fg(Color::Red));
    let mut mid = String::new();
    mid.push(' ');
    mid.append(name);
    mid.push(' ');
    assert(mid@ =~= seq![' '] + name@ + seq![' ']);
    push_span(&mut out, mid, Style::none());
    let mut was = String::from_str("(was ");
    was.append(short_id);
    was.push(')');
    assert(was@ =~= "(was "@ + short_id@ + seq![')']);
    push_span(&mut out, was, Style::dimmed());
    out
}

/// `Failed to clean up <what>: <error>`.
pub fn display_cleanup_failed(what: &str, error: &str) -> (res: Vec<Span>)
    ensures
        line(res@) == seq![("Failed"@, red()), (" to clean up "@ + what@ + ": "@ + error@, no_style())],
{
    let mut out: Vec<Span> = Vec::new();
    push_str(&mut out, "Failed", Style::fg(Color::Red));
    let mut m = String::from_str(" to clean up ");
    m.append(what);
    m.append(": ");
    m.append(error);
    push_span(&mut out, m, Style::none());
    out
}

/// The refspec that deletes a branch on its remote: `:<name on remote>`.
pub fn delete_refspec(name_on_remote: &str) -> (res: String)
    ensures
        res@ == seq![':'] + name_on_remote@,
{
    let mut s = String::new();
    s.push(':');
    s.append(name_on_remote);
    s
}

} // verus!
