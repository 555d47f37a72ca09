//! `push`: the safety checks before a push, the refspec, and the report of
//! what the remote did.

use vstd::prelude::*;

use crate::cli::display::diff::{files_lines, summary_header_line, DiffSummary};
use crate::cli::display::{dim, fg, green, no_style, red};
use crate::cli::error::CliError;
use crate::cli::status::Styled;
use crate::text::{
    find_char, join_lines, lemma_join_lines_holds_each, lemma_occurs_in_concat, occurs_in, join_spans, line, lines_of, push_str, str_eq, suffix_from, trim, trim_prefix,
    trim_prefix_opt, trimmed, Color, Span, Style,
};

verus! {

/// Options of `push`.
#[derive(Debug)]
pub struct Args {
    /// Force push
    pub force: bool,
    /// Which remote to push to, if no upstream is already set
    pub remote: Option<String>,
    /// The name of the upstream branch, if no upstream is already set
    pub upstream: Option<String>,
    /// The branch to push. Defaults to current branch
    pub branch: Option<String>,
}

/// What a check of the branch against its upstream or base found.
#[derive(Clone, Copy, PartialEq, Eq, Structural, Debug)]
pub enum PushCheckStatus {
    /// There is no such branch to check against
    NoBranch,
    /// The push is forced; nothing was checked
    Forced,
    UpToDate,
    Ahead,
    Behind,
    Diverged,
}

/// What to do after a check.
#[derive(Debug)]
pub enum CheckOutcome {
    /// Go on with the push
    Continue,
    /// Stop without pushing, printing this
    Stop(String),
}

/// The message when the branch has diverged from its upstream.
pub open spec fn upstream_diverged_msg() -> Seq<char> {
    "Branch has diverged from its upstream. You must:\n\n1. Resolve the differences, for example:\n   \u{2022} git pull [--merge | --rebase]\n2. Push again. You'll most likely need to force push if you've done any\n   cherry-picks or rebases."@
}

/// The message when the branch has diverged from its base.
pub open spec fn base_diverged_msg() -> Seq<char> {
    "Branch has diverged from its base. You must:\n\n1. Resolve the differences, for example:\n   \u{2022} git rebase/merge <base>\n   \u{2022} feature update\n2. Push again. You'll most likely need to force push if you've done a feature\n   update or git rebase."@
}

/// The message when no branch is checked out or named.
pub open spec fn no_branch_msg() -> Seq<char> {
    "You must be checked out to a branch or specify one manually as the last\nargument, e.g. \"feature push my-branch\"."@
}

/// `Branch not found: <name>`.
pub fn branch_not_found(name: &str) -> (res: CliError)
    ensures
        res matches CliError::Generic(m) && m@ == "Branch not found: "@ + name@,
{
    let mut m = String::from_str("Branch not found: ");
    m.append(name);
    CliError::Generic(m)
}

/// The error when no branch is checked out or named.
pub fn no_branch() -> (res: CliError)
    ensures
        res matches CliError::Generic(m) && m@ == no_branch_msg(),
{
    CliError::Generic(String::from_str("You must be checked out to a branch or specify one manually as the last\nargument, e.g. \"feature push my-branch\"."))
}

/// `Failed to get reference to remote <name>`.
pub fn remote_not_found(name: &str) -> (res: CliError)
    ensures
        res matches CliError::Generic(m) && m@ == "Failed to get reference to remote "@ + name@,
{
    let mut m = String::from_str("Failed to get reference to remote ");
    m.append(name);
    CliError::Generic(m)
}

/// Whether `name` is among the protected branches.
pub open spec fn protected(name: Seq<char>, protect: Seq<Seq<char>>) -> bool {
    protect.contains(name)
}

impl Args {
    /// Protected branches may be pushed, but only as fast-forwards.
    pub fn check_protected(&self, name: &str, protect: &Vec<String>) -> (res: Result<(), CliError>)
        ensures
            res is Err <==> (self.force && protected(name@, crate::text::views(protect@))),
            res matches Err(CliError::Generic(m)) ==> m@ == "Cannot force push a protected branch"@,
            !(res matches Err(CliError::Generic(_))) ==> res is Ok,
    {
        let mut i: usize = 0;
        let mut found = false;
        while i < protect.len()
            invariant
                i <= protect@.len(),
                found == exists|j: int| 0 <= j < i && protect@[j]@ == name@,
            decreases protect@.len() - i,
        {
            if str_eq(protect[i].as_str(), name) {
                found = true;
            }
            i = i + 1;
        }
        proof {
            if found {
                let j = choose|j: int| 0 <= j < protect@.len() && protect@[j]@ == name@;
                assert(crate::text::views(protect@)[j] == name@);
            } else {
                assert forall|j: int| 0 <= j < protect@.len() implies #[trigger] crate::text::views(protect@)[j] != name@ by {
                    assert(protect@[j]@ != name@);
                }
            }
        }
        if found && self.force {
            Err(CliError::Generic(String::from_str("Cannot force push a protected branch")))
        } else {
            Ok(())
        }
    }

    /// The remote to push to: the upstream's remote when the branch has an
    /// upstream, else the one given, else the configured default.
    pub fn remote_name(&self, upstream_remote: Option<&str>, default_remote: &str) -> (res: String)
        ensures
            upstream_remote matches Some(r) ==> res@ == r@,
            upstream_remote is None ==> res@ == (match self.remote {
                Some(r) => r@,
                None => default_remote@,
            }),
    {
        match upstream_remote {
            Some(r) => String::from_str(r),
            None => match &self.remote {
                Some(r) => r.clone(),
                None => String::from_str(default_remote),
            },
        }
    }

    /// The upstream to push to: the existing one, else `<remote>/<name>`
    /// where the name is the one given, else the branch's.
    pub fn upstream_name(&self, existing: Option<&str>, remote: &str, branch: &str) -> (res: String)
        ensures
            existing matches Some(u) ==> res@ == u@,
            existing is None ==> res@ == remote@ + seq!['/'] + (match self.upstream {
                Some(u) => u@,
                None => branch@,
            }),
    {
        match existing {
            Some(u) => String::from_str(u),
            None => {
                let mut s = String::from_str(remote);
                s.push('/');
                match &self.upstream {
                    Some(u) => s.append(u.as_str()),
                    None => s.append(branch),
                }
                s
            },
        }
    }

    /// The refspec to push: `[+]<refname>:refs/heads/<branch on remote>`,
    /// where the branch on the remote is the upstream name after its remote
    /// (after its first `/`); `+` forces.
    pub fn refspec(&self, refname: &str, upstream_name: &str) -> (res: String)
        requires
            upstream_name@.contains('/'),
        ensures
            exists|i: int| 0 <= i < upstream_name@.len() && upstream_name@[i] == '/'
                && (forall|j: int| 0 <= j < i ==> upstream_name@[j] != '/')
                && res@ == (if self.force { seq!['+'] } else { Seq::empty() }) + refname@ + ":refs/heads/"@
                    + upstream_name@.subrange(i + 1, upstream_name@.len() as int),
    {
        let mut s = String::new();
        if self.force {
            s.push('+');
        }
        s.append(refname);
        s.append(":refs/heads/");
        let _n = upstream_name.unicode_len();
        match find_char(upstream_name, '/') {
            Some(i) => {
                let rest = suffix_from(upstream_name, i + 1);
                s.append(rest.as_str());
                assert(s@ == (if self.force { seq!['+'] } else { Seq::<char>::empty() }) + refname@ + ":refs/heads/"@
                    + upstream_name@.subrange(i + 1, upstream_name@.len() as int));
                s
            },
            None => {
                proof {
                    let k = choose|k: int| 0 <= k < upstream_name@.len() && upstream_name@[k] == '/';
                    assert(upstream_name@[k] != '/');
                }
                s
            },
        }
    }
}

/// What to do after checking the branch against its upstream: push when it
/// is ahead (or forced, or has no upstream), stop when there is nothing
/// new, fail when it has diverged.
pub fn after_upstream_check(status: PushCheckStatus) -> (res: Result<CheckOutcome, CliError>)
    ensures
        status == PushCheckStatus::UpToDate ==> (res matches Ok(CheckOutcome::Stop(m)) && m@ == "Already up to date, nothing to push"@),
        status == PushCheckStatus::Behind ==> (res matches Ok(CheckOutcome::Stop(m)) && m@ == "Branch is behind remote, nothing new to push"@),
        status == PushCheckStatus::Diverged ==> (res matches Err(CliError::Generic(m)) && m@ == upstream_diverged_msg()),
        (status == PushCheckStatus::NoBranch || status == PushCheckStatus::Forced || status == PushCheckStatus::Ahead)
            ==> res matches Ok(CheckOutcome::Continue),
{
    match status {
        PushCheckStatus::NoBranch | PushCheckStatus::Forced | PushCheckStatus::Ahead => Ok(CheckOutcome::Continue),
        PushCheckStatus::UpToDate => Ok(CheckOutcome::Stop(String::from_str("Already up to date, nothing to push"))),
        PushCheckStatus::Behind => Ok(CheckOutcome::Stop(String::from_str("Branch is behind remote, nothing new to push"))),
        PushCheckStatus::Diverged => Err(CliError::Generic(String::from_str("Branch has diverged from its upstream. You must:\n\n1. Resolve the differences, for example:\n   \u{2022} git pull [--merge | --rebase]\n2. Push again. You'll most likely need to force push if you've done any\n   cherry-picks or rebases."))),
    }
}

/// After checking the branch against its base only a divergence stops the
/// push.
pub fn after_base_check(status: PushCheckStatus) -> (res: Result<(), CliError>)
    ensures
        status == PushCheckStatus::Diverged ==> (res matches Err(CliError::Generic(m)) && m@ == base_diverged_msg()),
        status != PushCheckStatus::Diverged ==> res is Ok,
{
    match status {
        PushCheckStatus::Diverged => Err(CliError::Generic(String::from_str("Branch has diverged from its base. You must:\n\n1. Resolve the differences, for example:\n   \u{2022} git rebase/merge <base>\n   \u{2022} feature update\n2. Push again. You'll most likely need to force push if you've done a feature\n   update or git rebase."))),
        _ => Ok(()),
    }
}

/// The next thing `push` does, given the checks made so far.
#[derive(Debug)]
pub enum PushStep {
    /// Fetch the upstream and check the branch against it
    CheckUpstream,
    /// Fetch the base and check the branch against it
    CheckBase,
    /// Every check passed: push
    Push,
    /// Stop without pushing, printing this
    Stop(String),
}

impl Args {
    /// Orders `push`: the force-push check of a protected branch comes
    /// first, then the check against the upstream (`upstream`, once made),
    /// then the one against the base (`base`, once made); the push is made
    /// only when all of them pass, and a failing or stopping check ends it
    /// before anything is pushed.
    pub fn next_step(
        &self,
        name: &str,
        protect: &Vec<String>,
        upstream: Option<PushCheckStatus>,
        base: Option<PushCheckStatus>,
    ) -> (res: Result<PushStep, CliError>)
        ensures
            self.force && protected(name@, crate::text::views(protect@))
                ==> (res matches Err(CliError::Generic(m)) && m@ == "Cannot force push a protected branch"@),
            !(self.force && protected(name@, crate::text::views(protect@))) ==> match upstream {
                None => res matches Ok(PushStep::CheckUpstream),
                Some(PushCheckStatus::UpToDate) => res matches Ok(PushStep::Stop(m)) && m@ == "Already up to date, nothing to push"@,
                Some(PushCheckStatus::Behind) => res matches Ok(PushStep::Stop(m)) && m@ == "Branch is behind remote, nothing new to push"@,
                Some(PushCheckStatus::Diverged) => res matches Err(CliError::Generic(m)) && m@ == upstream_diverged_msg(),
                Some(_) => match base {
                    None => res matches Ok(PushStep::CheckBase),
                    Some(PushCheckStatus::Diverged) => res matches Err(CliError::Generic(m)) && m@ == base_diverged_msg(),
                    Some(_) => res matches Ok(PushStep::Push),
                },
            },
    {
        self.check_protected(name, protect)?;
        let u = match upstream {
            None => return Ok(PushStep::CheckUpstream),
            Some(u) => u,
        };
        match after_upstream_check(u)? {
            CheckOutcome::Stop(m) => return Ok(PushStep::Stop(m)),
            CheckOutcome::Continue => {},
        }
        match base {
            None => Ok(PushStep::CheckBase),
            Some(b) => {
                after_base_check(b)?;
                Ok(PushStep::Push)
            },
        }
    }
}

/// `Pushed <branch> to <remote>` (`Force-pushed` when forced), then
/// ` (tracking <upstream>)` when the upstream was just set.
pub open spec fn pushed_line(force: bool, branch: Seq<char>, remote: Seq<char>, tracking: Option<Seq<char>>) -> Styled {
    seq![
        (if force { "Force-pushed"@ } else { "Pushed"@ }, if force { fg(Color::Yellow) } else { green() }),
        (seq![' '], no_style()),
        (branch, fg(Color::Blue)),
        (" to "@, no_style()),
        (remote, fg(Color::Magenta)),
    ] + match tracking {
        Some(u) => seq![(" (tracking "@ + u + seq![')'], dim())],
        None => Seq::empty(),
    }
}

impl Args {
    /// Reports the push.
    pub fn display_pushed(&self, branch: &str, remote: &str, tracking: Option<&str>) -> (res: Vec<Span>)
        ensures
            line(res@) == pushed_line(self.force, branch@, remote@, match tracking {
                Some(u) => Some(u@),
                None => None,
            }),
    {
        let mut out: Vec<Span> = Vec::new();
        proof {
            reveal_strlit(" ");
            assert(" "@ =~= seq![' ']);
        }
        if self.force {
            push_str(&mut out, "Force-pushed", Style::fg(Color::Yellow));
        } else {
            push_str(&mut out, "Pushed", Style::fg(Color::Green));
        }
        push_str(&mut out, " ", Style::none());
        push_str(&mut out, branch, Style::fg(Color::Blue));
        push_str(&mut out, " to ", Style::none());
        push_str(&mut out, remote, Style::fg(Color::Magenta));
        if let Some(u) = tracking {
            let mut t = String::from_str(" (tracking ");
            t.append(u);
            t.push(')');
            assert(t@ =~= " (tracking "@ + u@ + seq![')']);
            crate::text::push_span(&mut out, t, Style::dimmed());
        }
        proof {
            let tv = match tracking {
                Some(u) => Some(u@),
                None => None,
            };
            assert(line(out@) =~= pushed_line(self.force, branch@, remote@, tv));
        }
        out
    }
}

/// `New to remote - ` and the summary of what the push brought.
pub open spec fn new_to_remote(summary: DiffSummary, nerdfont: bool) -> Styled {
    seq![("New to remote - "@, no_style())]
        + summary_header_line(summary.num_files as nat, summary.insertions as nat, summary.deletions as nat)
        + files_lines(summary.files@, nerdfont)
}

/// Displays what the push brought to the remote.
pub fn display_new_to_remote(summary: &DiffSummary, nerdfont: bool) -> (res: Vec<Span>)
    ensures
        line(res@) == new_to_remote(*summary, nerdfont),
{
    let mut out: Vec<Span> = Vec::new();
    push_str(&mut out, "New to remote - ", Style::none());
    crate::text::append_spans(&mut out, crate::cli::display::diff::display_summary(summary, nerdfont));
    out
}

/// What the remote did to a ref, with the short ids involved.
#[derive(Debug)]
pub enum PushUpdateKind {
    Create(String),
    Update(String, String),
    Delete(String),
}

/// A ref the remote updated.
#[derive(Debug)]
pub struct PushUpdate {
    pub refname: String,
    pub kind: PushUpdateKind,
}

/// A ref the remote rejected, with its status message.
#[derive(Debug)]
pub struct PushRejection {
    pub refname: String,
    pub status: String,
}

/// The line of an update: `Created name: id`, `Updated name: old -> new` or
/// `Deleted name (was id)`, the name without `refs/remotes/`.
pub open spec fn update_line(u: PushUpdate) -> Styled {
    let name = trim_prefix(u.refname@, "refs/remotes/"@);
    match u.kind {
        PushUpdateKind::Create(id) => seq![("Created"@, green()), (seq![' '] + name + ": "@, no_style()), (id@, fg(Color::Yellow))],
        PushUpdateKind::Update(old, new) => seq![
            ("Updated"@, green()),
            (seq![' '] + name + ": "@, no_style()),
            (old@, fg(Color::Yellow)),
            (" -> "@, no_style()),
            (new@, fg(Color::Yellow)),
        ],
        PushUpdateKind::Delete(id) => seq![
            ("Deleted"@, red()),
            (seq![' '] + name + seq![' '], no_style()),
            ("(was "@ + id@ + seq![')'], no_style()),
        ],
    }
}

/// The line of a rejection: `Failed to push name: status`.
pub open spec fn rejection_line(r: PushRejection) -> Styled {
    seq![
        ("Failed"@, red()),
        (" to push "@, no_style()),
        (trim_prefix(r.refname@, "refs/remotes/"@), fg(Color::Cyan)),
        (": "@ + r.status@, no_style()),
    ]
}

/// Displays a ref the remote updated.
pub fn display_push_update(u: &PushUpdate) -> (res: Vec<Span>)
    ensures
        line(res@) == update_line(*u),
{
    let name = trim_prefix_opt(u.refname.as_str(), "refs/remotes/");
    let mut out: Vec<Span> = Vec::new();
    let mut mid = String::new();
    mid.push(' ');
    mid.append(name.as_str());
    match &u.kind {
        PushUpdateKind::Create(id) => {
            push_str(&mut out, "Created", Style::fg(Color::Green));
            mid.append(": ");
            assert(mid@ =~= seq![' '] + name@ + ": "@);
            crate::text::push_span(&mut out, mid, Style::none());
            push_str(&mut out, id.as_str(), Style::fg(Color::Yellow));
        },
        PushUpdateKind::Update(old, new) => {
            push_str(&mut out, "Updated", Style::fg(Color::Green));
            mid.append(": ");
            assert(mid@ =~= seq![' '] + name@ + ": "@);
            crate::text::push_span(&mut out, mid, Style::none());
            push_str(&mut out, old.as_str(), Style::fg(Color::Yellow));
            push_str(&mut out, " -> ", Style::none());
            push_str(&mut out, new.as_str(), Style::fg(Color::Yellow));
        },
        PushUpdateKind::Delete(id) => {
            push_str(&mut out, "Deleted", Style::fg(Color::Red));
            mid.push(' ');
            assert(mid@ =~= seq![' '] + name@ + seq![' ']);
            crate::text::push_span(&mut out, mid, Style::none());
            let mut was = String::from_str("(was ");
            was.append(id.as_str());
            was.push(')');
            assert(was@ =~= "(was "@ + id@ + seq![')']);
            crate::text::push_span(&mut out, was, Style::none());
        },
    }
    assert(line(out@) =~= update_line(*u));
    out
}

/// Displays a ref the remote rejected.
pub fn display_push_rejection(r: &PushRejection) -> (res: Vec<Span>)
    ensures
        line(res@) == rejection_line(*r),
{
    let mut out: Vec<Span> = Vec::new();
    push_str(&mut out, "Failed", Style::fg(Color::Red));
    push_str(&mut out, " to push ", Style::none());
    crate::text::push_span(&mut out, trim_prefix_opt(r.refname.as_str(), "refs/remotes/"), Style::fg(Color::Cyan));
    let mut st = String::from_str(": ");
    st.append(r.status.as_str());
    crate::text::push_span(&mut out, st, Style::none());
    out
}

/// The push results: a line per update, then per rejection, then the
/// remote's response (trimmed) on a line of its own.
pub open spec fn push_status(updates: Seq<PushUpdate>, rejections: Seq<PushRejection>, response: Seq<char>) -> Styled {
    let ls = updates.map_values(|u: PushUpdate| update_line(u)) + rejections.map_values(|r: PushRejection| rejection_line(r));
    join_lines(ls, seq![(seq!['\n'], no_style())])
        + (if ls.len() > 0 { seq![(seq!['\n'], no_style())] } else { Seq::empty() })
        + seq![(trimmed(response), no_style())]
}

/// Displays the push results.
pub fn display_push_status(updates: &Vec<PushUpdate>, rejections: &Vec<PushRejection>, response: &str) -> (res: Vec<Span>)
    ensures
        line(res@) == push_status(updates@, rejections@, response@),
{
    let mut parts: Vec<Vec<Span>> = Vec::new();
    let mut i: usize = 0;
    while i < updates.len()
        invariant
            i <= updates@.len(),
            lines_of(parts@) == updates@.subrange(0, i as int).map_values(|u: PushUpdate| update_line(u)),
        decreases updates@.len() - i,
    {
        let l = display_push_update(&updates[i]);
        let ghost ll = line(l@);
        let ghost prev = parts@;
        parts.push(l);
        assert(lines_of(parts@) =~= lines_of(prev).push(ll));
        assert(updates@.subrange(0, i + 1) =~= updates@.subrange(0, i as int).push(updates@[i as int]));
        i = i + 1;
        assert(lines_of(parts@) =~= updates@.subrange(0, i as int).map_values(|u: PushUpdate| update_line(u)));
    }
    assert(updates@.subrange(0, updates@.len() as int) =~= updates@);
    let ghost up = lines_of(parts@);
    let mut j: usize = 0;
    while j < rejections.len()
        invariant
            j <= rejections@.len(),
            lines_of(parts@) == up + rejections@.subrange(0, j as int).map_values(|r: PushRejection| rejection_line(r)),
        decreases rejections@.len() - j,
    {
        let l = display_push_rejection(&rejections[j]);
        let ghost ll = line(l@);
        let ghost prev = parts@;
        parts.push(l);
        assert(lines_of(parts@) =~= lines_of(prev).push(ll));
        assert(rejections@.subrange(0, j + 1) =~= rejections@.subrange(0, j as int).push(rejections@[j as int]));
        j = j + 1;
        assert(lines_of(parts@) =~= up + rejections@.subrange(0, j as int).map_values(|r: PushRejection| rejection_line(r)));
    }
    assert(rejections@.subrange(0, rejections@.len() as int) =~= rejections@);
    let any = parts.len() > 0;
    let mut out = join_spans(parts, "\n", Style::none());
    if any {
        push_str(&mut out, "\n", Style::none());
    }
    crate::text::push_span(&mut out, trim(response), Style::none());
    proof {
        reveal_strlit("\n");
        assert("\n"@ =~= seq!['\n']);
        assert(line(out@) =~= push_status(updates@, rejections@, response@));
    }
    out
}

/// Every ref the remote updated and every ref it rejected is reported: the
/// line of each occurs in the push results, a rejection's line starts with a
/// red `Failed` and names the ref's status, and the remote's response
/// (trimmed) comes last.
pub proof fn lemma_push_status_reports_each(updates: Seq<PushUpdate>, rejections: Seq<PushRejection>, response: Seq<char>)
    ensures
        forall|i: int| 0 <= i < updates.len() ==> occurs_in(#[trigger] update_line(updates[i]), push_status(updates, rejections, response)),
        forall|j: int| 0 <= j < rejections.len() ==> occurs_in(#[trigger] rejection_line(rejections[j]), push_status(updates, rejections, response)),
        forall|j: int| 0 <= j < rejections.len() ==> (#[trigger] rejection_line(rejections[j]))[0] == ("Failed"@, red())
            && rejection_line(rejections[j])[3].0 == ": "@ + rejections[j].status@,
        push_status(updates, rejections, response).last() == (trimmed(response), no_style()),
{
    let ls = updates.map_values(|u: PushUpdate| update_line(u)) + rejections.map_values(|r: PushRejection| rejection_line(r));
    let sep = seq![(seq!['\n'], no_style())];
    let j = join_lines(ls, sep);
    let tail = (if ls.len() > 0 { seq![(seq!['\n'], no_style())] } else { Seq::empty() })
        + seq![(trimmed(response), no_style())];
    assert(push_status(updates, rejections, response) =~= j + tail);
    assert forall|i: int| 0 <= i < updates.len() implies occurs_in(#[trigger] update_line(updates[i]), push_status(updates, rejections, response)) by {
        assert(ls[i] == update_line(updates[i]));
        lemma_join_lines_holds_each(ls, sep, i);
        lemma_occurs_in_concat(ls[i], j, tail);
    }
    assert forall|k: int| 0 <= k < rejections.len() implies occurs_in(#[trigger] rejection_line(rejections[k]), push_status(updates, rejections, response)) by {
        assert(ls[updates.len() + k] == rejection_line(rejections[k]));
        lemma_join_lines_holds_each(ls, sep, updates.len() + k);
        lemma_occurs_in_concat(ls[updates.len() + k], j, tail);
    }
}

} // verus!

