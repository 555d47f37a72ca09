//! Sync: fast-forwards branches to their upstreams, then prunes.

use vstd::prelude::*;

use crate::cli::display::diff::{display_summary_header, summary_header_line, DiffSummary};
use crate::cli::display::{dim, fg, no_style, usize_text};
use crate::text::{
    append_spans, dec, lemma_occurs_in_concat, lemma_occurs_in_self, line, occurs_in, push_span, push_str, str_eq, Color,
    Span, Style,
};

verus! {

/// What happened in an attempt to sync a particular branch in a repo.
#[derive(Debug)]
pub enum UpdateAction {
    /// The reference was fast-forwarded
    Update { name: String, old: String, changes: DiffSummary },
    UpdateSkip { name: String, reason: String },
    /// The reference was deleted
    Delete { name: String, old: String },
    DeleteSkip { name: String, reason: String },
    /// The action was skipped for a reason that's irrelevant to the user
    Unchanged,
    /// An error occured
    Failed { name: String, e: String },
}

/// What happened in an attempt to sync a repo.
#[derive(Debug)]
pub enum SyncAction {
    /// The repo's refs were synced
    Sync(Vec<UpdateAction>),
    /// For projects, the repo was cloned
    ProjectInit,
    ModuleUpdate,
}

/// A fact about a branch that the sync decision needs next.
#[derive(Clone, Copy, PartialEq, Eq, Structural, Debug)]
pub enum SyncFact {
    /// Whether the working directory has changes
    WorkdirChanges,
    /// Whether the branch and its upstream point at the same commit
    TipsEqual,
    /// Whether the upstream tip descends from the branch tip
    Descendant,
}

/// What sync does with a branch once the facts are in.
#[derive(Debug)]
pub enum BranchUpdate {
    /// Nothing is moved; this is what is reported
    Report(UpdateAction),
    /// Move the branch to its upstream; when it is checked out, HEAD and the
    /// working directory are hard-reset with it
    FastForward { reset_head: bool },
}

/// Whether `name` is the checked-out branch.
pub open spec fn is_current(name: Seq<char>, current_branch: Option<Seq<char>>) -> bool {
    current_branch matches Some(c) && c == name
}

pub open spec fn opt_view(s: Option<&str>) -> Option<Seq<char>> {
    match s {
        Some(x) => Some(x@),
        None => None,
    }
}

/// The sync decision for one branch as a function of all its facts:
/// - 0: nothing to report
/// - 1: skipped because of local changes
/// - 2: skipped because it cannot be fast-forwarded
/// - 3: fast-forward
pub open spec fn sync_outcome(current: bool, has_upstream: bool, dirty: bool, tips_equal: bool, can_ff: bool) -> int {
    if !has_upstream {
        0
    } else if current && dirty {
        1
    } else if tips_equal {
        0
    } else if !can_ff {
        2
    } else {
        3
    }
}

/// The kind of a sync decision, numbered as in [sync_outcome]; -1 when a fact
/// is still asked for.
pub open spec fn update_kind(r: Result<BranchUpdate, SyncFact>) -> int {
    match r {
        Err(_) => -1,
        Ok(BranchUpdate::Report(UpdateAction::UpdateSkip { reason, .. })) =>
            if reason@ == "local changes"@ { 1 } else { 2 },
        Ok(BranchUpdate::Report(_)) => 0,
        Ok(BranchUpdate::FastForward { .. }) => 3,
    }
}

/// Fast-forwards a branch to match upstream, deciding from the facts asked so
/// far. A fact is asked (`Err`) only when the decision reaches it, in this
/// order: local changes (only for the checked-out branch), then whether the
/// tips are equal, then whether the upstream descends from the branch.
pub fn update_branch(
    name: &str,
    current_branch: Option<&str>,
    has_upstream: bool,
    dirty: Option<bool>,
    tips_equal: Option<bool>,
    can_ff: Option<bool>,
) -> (res: Result<BranchUpdate, SyncFact>)
    ensures
        dirty is Some && tips_equal is Some && can_ff is Some ==> update_kind(res) == sync_outcome(
            is_current(name@, opt_view(current_branch)), has_upstream, dirty->0, tips_equal->0, can_ff->0),
        !has_upstream ==> (res matches Ok(BranchUpdate::Report(UpdateAction::Unchanged))),
        has_upstream && is_current(name@, opt_view(current_branch)) && dirty is None
            ==> res == Err::<BranchUpdate, SyncFact>(SyncFact::WorkdirChanges),
        has_upstream && is_current(name@, opt_view(current_branch)) && dirty == Some(true)
            ==> (res matches Ok(BranchUpdate::Report(UpdateAction::UpdateSkip { name: n, reason: r }))
                && n@ == name@ && r@ == "local changes"@),
        has_upstream && !(is_current(name@, opt_view(current_branch)) && dirty != Some(false)) && tips_equal is None
            ==> res == Err::<BranchUpdate, SyncFact>(SyncFact::TipsEqual),
        has_upstream && !(is_current(name@, opt_view(current_branch)) && dirty != Some(false)) && tips_equal == Some(true)
            ==> (res matches Ok(BranchUpdate::Report(UpdateAction::Unchanged))),
        has_upstream && !(is_current(name@, opt_view(current_branch)) && dirty != Some(false)) && tips_equal == Some(false)
            && can_ff is None ==> res == Err::<BranchUpdate, SyncFact>(SyncFact::Descendant),
        has_upstream && !(is_current(name@, opt_view(current_branch)) && dirty != Some(false)) && tips_equal == Some(false)
            && can_ff == Some(false) ==> (res matches Ok(BranchUpdate::Report(UpdateAction::UpdateSkip { name: n, reason: r }))
                && n@ == name@ && r@ == "not fast-forwardable"@),
        has_upstream && !(is_current(name@, opt_view(current_branch)) && dirty != Some(false)) && tips_equal == Some(false)
            && can_ff == Some(true) ==> (res matches Ok(BranchUpdate::FastForward { reset_head })
                && reset_head == is_current(name@, opt_view(current_branch))),
{
    proof {
        reveal_strlit("local changes");
        reveal_strlit("not fast-forwardable");
        assert("local changes"@[0] != "not fast-forwardable"@[0]);
    }
    let current = match current_branch {
        Some(c) => str_eq(c, name),
        None => false,
    };
    if !has_upstream {
        // no upstream, nothing to update
        return Ok(BranchUpdate::Report(UpdateAction::Unchanged));
    }
    if current {
        // check for local changes
        match dirty {
            None => return Err(SyncFact::WorkdirChanges),
            Some(true) => {
                return Ok(BranchUpdate::Report(UpdateAction::UpdateSkip {
                    name: String::from_str(name),
                    reason: String::from_str("local changes"),
                }));
            },
            Some(false) => {},
        }
    }
    match tips_equal {
        None => return Err(SyncFact::TipsEqual),
        // already up to date
        Some(true) => return Ok(BranchUpdate::Report(UpdateAction::Unchanged)),
        Some(false) => {},
    }
    match can_ff {
        None => Err(SyncFact::Descendant),
        Some(false) => Ok(BranchUpdate::Report(UpdateAction::UpdateSkip {
            name: String::from_str(name),
            reason: String::from_str("not fast-forwardable"),
        })),
        Some(true) => Ok(BranchUpdate::FastForward { reset_head: current }),
    }
}

/// How a fast-forward moves a branch.
#[derive(Debug)]
pub enum FastForwardMove {
    /// The branch is checked out: hard-reset HEAD (and with it the branch,
    /// the index and the working directory) to the upstream tip
    HardReset,
    /// Point the branch at the upstream tip, with this reflog message
    SetTarget(String),
}

/// Carries out a fast-forward decided by [update_branch]: unless it is a dry
/// run, the branch is moved (by a hard reset when it is checked out, else by
/// pointing it at the upstream tip with the reflog message
/// `feature sync: fast-forward to <upstream ref>`); either way the report is
/// the update, with the old tip's short id and the changes it brings.
pub fn fast_forward(name: &str, reset_head: bool, upstream_refname: &str, old_short_id: String, changes: DiffSummary,
    dry_run: bool) -> (res: (Option<FastForwardMove>, UpdateAction))
    ensures
        dry_run ==> res.0 is None,
        !dry_run && reset_head ==> (res.0 matches Some(FastForwardMove::HardReset)),
        !dry_run && !reset_head ==> (res.0 matches Some(FastForwardMove::SetTarget(m))
            && m@ == "feature sync: fast-forward to "@ + upstream_refname@),
        res.1 matches UpdateAction::Update { name: n, old, changes: c }
            && n@ == name@ && old == old_short_id && c == changes,
{
    let mv = if dry_run {
        None
    } else if reset_head {
        Some(FastForwardMove::HardReset)
    } else {
        let mut m = String::from_str("feature sync: fast-forward to ");
        m.append(upstream_refname);
        Some(FastForwardMove::SetTarget(m))
    };
    (mv, UpdateAction::Update { name: String::from_str(name), old: old_short_id, changes })
}

/// The checked-out branch is never moved while the working directory has
/// changes, and a branch is only ever moved by fast-forwarding: with all facts
/// known, the decision is a fast-forward exactly when the branch has an
/// upstream, is not a checked-out branch with local changes, differs from its
/// upstream and can be fast-forwarded to it.
pub proof fn lemma_sync_fast_forwards_only_safely(current: bool, has_upstream: bool, dirty: bool, tips_equal: bool, can_ff: bool)
    ensures
        sync_outcome(current, has_upstream, dirty, tips_equal, can_ff) == 3
            <==> (has_upstream && !(current && dirty) && !tips_equal && can_ff),
        current && dirty && has_upstream ==> sync_outcome(current, has_upstream, dirty, tips_equal, can_ff) == 1,
{
}

pub open spec fn yellow() -> Style {
    Style { color: Color::Yellow, bold: false, dim: false }
}

/// How an update is displayed.
pub open spec fn update_line(u: UpdateAction) -> Seq<(Seq<char>, Style)> {
    match u {
        UpdateAction::Update { name, old, changes } => seq![
            ("Updated"@, fg(Color::Green)),
            (" "@, no_style()),
            (name@, no_style()),
            (" "@, no_style()),
            ("(was "@ + old@ + ")"@, dim()),
            (" | "@, no_style()),
        ] + summary_header_line(changes.num_files as nat, changes.insertions as nat, changes.deletions as nat),
        UpdateAction::UpdateSkip { name, reason } => seq![
            ("Skipped"@, yellow()),
            (" updating "@, no_style()),
            (name@, fg(Color::Cyan)),
            (": "@, no_style()),
            (reason@, no_style()),
        ],
        UpdateAction::Delete { name, old } => seq![
            ("Deleted"@, fg(Color::Red)),
            (" "@, no_style()),
            (name@, no_style()),
            (" "@, no_style()),
            ("(was "@ + old@ + ")"@, dim()),
        ],
        UpdateAction::DeleteSkip { name, reason } => seq![
            ("Skipped"@, yellow()),
            (" pruning "@, no_style()),
            (name@, fg(Color::Cyan)),
            (": "@, no_style()),
            (reason@, no_style()),
        ],
        UpdateAction::Unchanged => Seq::empty(),
        UpdateAction::Failed { name, e } => seq![
            ("Failed"@, fg(Color::Red)),
            (" to update "@, no_style()),
            (name@, fg(Color::Cyan)),
            (": "@, no_style()),
            (e@, no_style()),
        ],
    }
}

/// `(was old)`
fn was(old: &str) -> (res: String)
    ensures
        res@ == "(was "@ + old@ + ")"@,
{
    let s = String::from_str("(was ");
    let s = s.concat(old);
    s.concat(")")
}

impl UpdateAction {
    /// The line an update is displayed as.
    pub fn display(&self) -> (res: Vec<Span>)
        ensures
            line(res@) == update_line(*self),
    {
        let mut out: Vec<Span> = Vec::new();
        match self {
            UpdateAction::Update { name, old, changes } => {
                push_str(&mut out, "Updated", Style::fg(Color::Green));
                push_str(&mut out, " ", Style::none());
                push_str(&mut out, name.as_str(), Style::none());
                push_str(&mut out, " ", Style::none());
                push_span(&mut out, was(old.as_str()), Style::dimmed());
                push_str(&mut out, " | ", Style::none());
                append_spans(&mut out, display_summary_header(changes));
            },
            UpdateAction::UpdateSkip { name, reason } => {
                push_str(&mut out, "Skipped", Style::fg(Color::Yellow));
                push_str(&mut out, " updating ", Style::none());
                push_str(&mut out, name.as_str(), Style::fg(Color::Cyan));
                push_str(&mut out, ": ", Style::none());
                push_str(&mut out, reason.as_str(), Style::none());
            },
            UpdateAction::Delete { name, old } => {
                push_str(&mut out, "Deleted", Style::fg(Color::Red));
                push_str(&mut out, " ", Style::none());
                push_str(&mut out, name.as_str(), Style::none());
                push_str(&mut out, " ", Style::none());
                push_span(&mut out, was(old.as_str()), Style::dimmed());
            },
            UpdateAction::DeleteSkip { name, reason } => {
                push_str(&mut out, "Skipped", Style::fg(Color::Yellow));
                push_str(&mut out, " pruning ", Style::none());
                push_str(&mut out, name.as_str(), Style::fg(Color::Cyan));
                push_str(&mut out, ": ", Style::none());
                push_str(&mut out, reason.as_str(), Style::none());
            },
            UpdateAction::Unchanged => {},
            UpdateAction::Failed { name, e } => {
                push_str(&mut out, "Failed", Style::fg(Color::Red));
                push_str(&mut out, " to update ", Style::none());
                push_str(&mut out, name.as_str(), Style::fg(Color::Cyan));
                push_str(&mut out, ": ", Style::none());
                push_str(&mut out, e.as_str(), Style::none());
            },
        }
        assert(line(out@) =~= update_line(*self));
        out
    }

    pub open spec fn is_unchanged(&self) -> bool {
        self is Unchanged
    }
}

/// The displayed updates, each on a new line indented by two spaces, skipping
/// the unchanged ones.
pub open spec fn updates_lines(updates: Seq<UpdateAction>) -> Seq<(Seq<char>, Style)>
    decreases updates.len(),
{
    if updates.len() == 0 {
        Seq::empty()
    } else if updates.last() is Unchanged {
        updates_lines(updates.drop_last())
    } else {
        updates_lines(updates.drop_last()) + seq![("\n  "@, no_style())] + update_line(updates.last())
    }
}

/// The displayed updates of two lists one after the other are those of
/// each list, one after the other.
pub proof fn lemma_updates_lines_concat(a: Seq<UpdateAction>, b: Seq<UpdateAction>)
    ensures
        updates_lines(a + b) == updates_lines(a) + updates_lines(b),
    decreases b.len(),
{
    if b.len() == 0 {
        assert(a + b =~= a);
        assert(updates_lines(a) + updates_lines(b) =~= updates_lines(a));
    } else {
        assert((a + b).drop_last() =~= a + b.drop_last());
        assert((a + b).last() == b.last());
        lemma_updates_lines_concat(a, b.drop_last());
        if b.last() is Unchanged {
        } else {
            assert(updates_lines(a) + updates_lines(b.drop_last()) + seq![("\n  "@, no_style())] + update_line(b.last())
                =~= updates_lines(a) + (updates_lines(b.drop_last()) + seq![("\n  "@, no_style())] + update_line(b.last())));
        }
    }
}

proof fn lemma_updates_lines_one(u: UpdateAction)
    ensures
        updates_lines(seq![u]) == (if u is Unchanged { Seq::empty() } else { seq![("\n  "@, no_style())] + update_line(u) }),
{
    let one = seq![u];
    assert(one.drop_last() =~= Seq::<UpdateAction>::empty());
    assert(updates_lines(one.drop_last()) == Seq::<(Seq<char>, Style)>::empty());
    assert(one.last() == u);
    if !(u is Unchanged) {
        assert(Seq::<(Seq<char>, Style)>::empty() + seq![("\n  "@, no_style())] + update_line(u)
            =~= seq![("\n  "@, no_style())] + update_line(u));
    }
}

/// Every update but an unchanged one is reported, each on a line of its
/// own: a single update reads as nothing when unchanged and as its line
/// after a line break otherwise; every reported update's line occurs in the
/// report; and no reported update has an empty line (a failed one names the
/// branch and the error, in a red `Failed` line).
pub proof fn lemma_sync_reports_every_change(updates: Seq<UpdateAction>, u: UpdateAction)
    ensures
        updates_lines(seq![u]) == (if u is Unchanged { Seq::empty() } else { seq![("\n  "@, no_style())] + update_line(u) }),
        !(u is Unchanged) ==> update_line(u).len() > 0,
        u matches UpdateAction::Failed { name, e } ==> update_line(u)[0] == ("Failed"@, fg(Color::Red))
            && update_line(u)[2].0 == name@ && update_line(u)[4].0 == e@,
        forall|i: int| 0 <= i < updates.len() && !(#[trigger] updates[i] is Unchanged)
            ==> occurs_in(seq![("\n  "@, no_style())] + update_line(updates[i]), updates_lines(updates)),
{
    lemma_updates_lines_one(u);
    assert forall|i: int| 0 <= i < updates.len() && !(#[trigger] updates[i] is Unchanged)
        implies occurs_in(seq![("\n  "@, no_style())] + update_line(updates[i]), updates_lines(updates)) by {
        let pre = updates.subrange(0, i);
        let x = seq![updates[i]];
        let post = updates.subrange(i + 1, updates.len() as int);
        assert(updates =~= pre + x + post);
        lemma_updates_lines_concat(pre + x, post);
        lemma_updates_lines_concat(pre, x);
        lemma_updates_lines_one(updates[i]);
        let l = seq![("\n  "@, no_style())] + update_line(updates[i]);
        lemma_occurs_in_self(l);
        lemma_occurs_in_concat(l, updates_lines(pre), l);
        lemma_occurs_in_concat(l, updates_lines(pre) + l, updates_lines(post));
    }
}

/// Whether some update is not `Unchanged`.
pub open spec fn any_reported(updates: Seq<UpdateAction>) -> bool {
    exists|i: int| 0 <= i < updates.len() && !(#[trigger] updates[i] is Unchanged)
}

/// The report of a repo's sync: `<name> changes:` and the reported updates,
/// or nothing when no update is reported.
pub open spec fn sync_report(name: Seq<char>, updates: Seq<UpdateAction>) -> Seq<(Seq<char>, Style)> {
    if any_reported(updates) {
        seq![(name, fg(Color::Cyan)), (" changes:"@, no_style())] + updates_lines(updates)
    } else {
        Seq::empty()
    }
}

/// A sync report names the repo and then shows every update that is not
/// unchanged, each after a line break; with nothing to report it is empty.
pub proof fn lemma_sync_report_shows_every_change(name: Seq<char>, updates: Seq<UpdateAction>)
    ensures
        !any_reported(updates) <==> sync_report(name, updates).len() == 0,
        any_reported(updates) ==> sync_report(name, updates).subrange(0, 2)
            == seq![(name, fg(Color::Cyan)), (" changes:"@, no_style())],
        forall|i: int| 0 <= i < updates.len() && !(#[trigger] updates[i] is Unchanged)
            ==> occurs_in(seq![("\n  "@, no_style())] + update_line(updates[i]), sync_report(name, updates)),
{
    let h = seq![(name, fg(Color::Cyan)), (" changes:"@, no_style())];
    lemma_sync_reports_every_change(updates, UpdateAction::Unchanged);
    if any_reported(updates) {
        assert((h + updates_lines(updates)).subrange(0, 2) =~= h);
        assert forall|i: int| 0 <= i < updates.len() && !(#[trigger] updates[i] is Unchanged)
            implies occurs_in(seq![("\n  "@, no_style())] + update_line(updates[i]), sync_report(name, updates)) by {
            lemma_occurs_in_concat(seq![("\n  "@, no_style())] + update_line(updates[i]), h, updates_lines(updates));
        }
    } else {
        assert forall|i: int| 0 <= i < updates.len() implies (#[trigger] updates[i]) is Unchanged by {
            if !(updates[i] is Unchanged) {
                assert(any_reported(updates));
            }
        }
    }
}

/// Displays a list of updates along with a header line containing `name`.
/// Unchanged updates are filtered out first; if none remain, the result is
/// empty.
pub fn display_sync_updates(name: &str, updates: &Vec<UpdateAction>) -> (res: Vec<Span>)
    ensures
        line(res@) == sync_report(name@, updates@),
        !any_reported(updates@) ==> line(res@) == Seq::<(Seq<char>, Style)>::empty(),
        any_reported(updates@) ==> line(res@)
            == seq![(name@, fg(Color::Cyan)), (" changes:"@, no_style())] + updates_lines(updates@),
{
    let mut reported = false;
    let mut k: usize = 0;
    while k < updates.len()
        invariant
            k <= updates.len(),
            reported == exists|i: int| 0 <= i < k && !(#[trigger] updates@[i] is Unchanged),
        decreases updates.len() - k,
    {
        match &updates[k] {
            UpdateAction::Unchanged => {},
            _ => { reported = true; },
        }
        k = k + 1;
    }
    let mut out: Vec<Span> = Vec::new();
    if reported {
        push_str(&mut out, name, Style::fg(Color::Cyan));
        push_str(&mut out, " changes:", Style::none());
    }
    let ghost head = line(out@);
    let mut i: usize = 0;
    while i < updates.len()
        invariant
            i <= updates.len(),
            line(out@) == head + updates_lines(updates@.subrange(0, i as int)),
        decreases updates.len() - i,
    {
        let ghost prev = line(out@);
        let ghost s = updates@.subrange(0, i + 1);
        assert(s.drop_last() =~= updates@.subrange(0, i as int));
        match &updates[i] {
            UpdateAction::Unchanged => {},
            u => {
                push_str(&mut out, "\n  ", Style::none());
                append_spans(&mut out, u.display());
            },
        }
        assert(line(out@) =~= head + updates_lines(s));
        i = i + 1;
    }
    assert(updates@.subrange(0, updates.len() as int) =~= updates@);
    proof {
        if !reported {
            lemma_no_reported_no_lines(updates@);
            assert(line(out@) =~= Seq::<(Seq<char>, Style)>::empty());
        }
    }
    out
}

proof fn lemma_no_reported_no_lines(updates: Seq<UpdateAction>)
    requires
        !any_reported(updates),
    ensures
        updates_lines(updates) == Seq::<(Seq<char>, Style)>::empty(),
    decreases updates.len(),
{
    if updates.len() > 0 {
        assert(updates.last() is Unchanged) by {
            if !(updates.last() is Unchanged) {
                assert(!(updates[updates.len() - 1] is Unchanged));
            }
        }
        assert forall|i: int| 0 <= i < updates.drop_last().len() implies (#[trigger] updates.drop_last()[i]) is Unchanged by {
            assert(updates.drop_last()[i] == updates[i]);
            if !(updates[i] is Unchanged) {
                assert(any_reported(updates));
            }
        }
        lemma_no_reported_no_lines(updates.drop_last());
    }
}

/// The progress bar template of a sync spinner, with the prefix padded to
/// `prefix_width`.
pub fn spinner_template(prefix_width: usize) -> (res: String)
    ensures
        res@ == "{prefix:<"@ + dec(prefix_width as nat) + ".cyan} {spinner:.green} {elapsed:.dim} {msg}"@,
{
    let s = String::from_str("{prefix:<");
    let n = usize_text(prefix_width);
    let s = s.concat(n.as_str());
    s.concat(".cyan} {spinner:.green} {elapsed:.dim} {msg}")
}

} // verus!
