//! `squash`: collapses a feature branch into one commit on the merge-base
//! with its base, with a message that lists the squashed commits and credits
//! their other authors.

use vstd::prelude::*;

use crate::cli::display::diff::{display_summary_with_header, files_lines, DiffSummary};
use crate::cli::display::{fg, green, no_style, usize_text, Person};
use crate::cli::error::CliError;
use crate::cli::status::Styled;
use crate::text::{
    append_spans, dec, join, joined, line, push_span, push_str, str_eq, trim, trimmed, views, Color, Span, Style,
};

verus! {

/// Options of `squash`.
#[derive(Debug)]
pub struct SquashArgs {
    /// Invoke an editor to modify the generated squash message
    pub edit: bool,
    /// The branch to treat as the base
    pub base: Option<String>,
    /// The branch to squash
    pub branch: Option<String>,
    /// The subject-line of the squash message
    pub message: Vec<String>,
}

/// A commit met walking the branch's history, newest first.
#[derive(Debug)]
pub struct WalkedCommit {
    pub id: String,
    pub author: Person,
    pub message: String,
}

/// The commits walked before reaching `until`.
pub open spec fn walked_until(cs: Seq<WalkedCommit>, until: Seq<char>) -> Seq<WalkedCommit>
    decreases cs.len(),
{
    if cs.len() == 0 {
        Seq::empty()
    } else if cs[0].id@ == until {
        Seq::empty()
    } else {
        seq![cs[0]] + walked_until(cs.drop_first(), until)
    }
}

/// Whether a commit's author differs from the squashing signature.
pub open spec fn other_author(c: WalkedCommit, sig: Person) -> bool {
    c.author.name@ != sig.name@ || c.author.email@ != sig.email@
}

/// The co-author footer line of a commit.
pub open spec fn co_author_line(p: Person) -> Seq<char> {
    "Co-authored-by: "@ + p.name@ + " <"@ + p.email@ + ">"@
}

/// The co-author lines of the walked commits, one per commit by another
/// author, in walking order.
pub open spec fn co_authors(cs: Seq<WalkedCommit>, sig: Person) -> Seq<Seq<char>>
    decreases cs.len(),
{
    if cs.len() == 0 {
        Seq::empty()
    } else {
        co_authors(cs.drop_last(), sig)
            + (if other_author(cs.last(), sig) { seq![co_author_line(cs.last().author)] } else { Seq::empty() })
    }
}

/// The bullet line of each walked commit: its message, trimmed.
pub open spec fn bullets(cs: Seq<WalkedCommit>) -> Seq<Seq<char>> {
    cs.map_values(|c: WalkedCommit| "* "@ + trimmed(c.message@))
}

/// The default squash message: the subject, a bullet per squashed commit,
/// then the co-authors, as paragraphs.
pub open spec fn squash_message(subject: Seq<char>, cs: Seq<WalkedCommit>, sig: Person) -> Seq<char> {
    let co = co_authors(cs, sig);
    joined(seq![subject] + bullets(cs) + (if co.len() > 0 { seq![joined(co, "\n"@)] } else { Seq::empty() }), "\n\n"@)
}

impl SquashArgs {
    /// The subject of the squash message: the words given, else
    /// `Squash <branch> onto <base>`.
    pub fn subject(&self, branch: &str, base: &str) -> (res: String)
        ensures
            self.message@.len() > 0 ==> res@ == joined(views(self.message@), " "@),
            self.message@.len() == 0 ==> res@ == "Squash "@ + branch@ + " onto "@ + base@,
    {
        if self.message.len() > 0 {
            join(&self.message, " ")
        } else {
            let mut s = String::from_str("Squash ");
            s.append(branch);
            s.append(" onto ");
            s.append(base);
            s
        }
    }
}

/// `Failed to find branch matching name: <name>`.
pub fn no_matching_branch(name: &str) -> (res: CliError)
    ensures
        res matches CliError::Generic(m) && m@ == "Failed to find branch matching name: "@ + name@,
{
    let mut m = String::from_str("Failed to find branch matching name: ");
    m.append(name);
    CliError::Generic(m)
}

/// `Branch <name> does not have a base`.
pub fn no_base(name: &str) -> (res: CliError)
    ensures
        res matches CliError::Generic(m) && m@ == "Branch "@ + name@ + " does not have a base"@,
{
    let mut m = String::from_str("Branch ");
    m.append(name);
    m.append(" does not have a base");
    CliError::Generic(m)
}

/// The reflog message of the squashed branch.
pub fn reflog_message(base: &str) -> (res: String)
    ensures
        res@ == "squash: collapse branch onto "@ + base@,
{
    let mut m = String::from_str("squash: collapse branch onto ");
    m.append(base);
    m
}

/// What `squash` hands to git to make the squash commit and move the branch
/// onto it.
#[derive(Debug)]
pub struct SquashCommit {
    /// The tree of the new commit (the branch tip's tree)
    pub tree: String,
    /// The parents of the new commit: the merge-base alone
    pub parents: Vec<String>,
    /// The message of the new commit
    pub message: String,
    /// The reference that is moved to the new commit (the branch's)
    pub refname: String,
    /// The reflog message of that move
    pub reflog: String,
    /// Whether the branch is checked out again afterwards (it is the one
    /// HEAD points to)
    pub checkout: bool,
}

/// The next thing `squash` does once the message is built.
#[derive(Debug)]
pub enum SquashStep {
    /// Write this text to `SQUASH_EDITMSG`, run the editor on it, and read the
    /// file back as the message ([squash_commit] then takes that text)
    Edit(String),
    /// Make this commit
    Commit(SquashCommit),
}

/// The squash commit for a message: the branch tip's tree on the merge-base
/// as its only parent, the branch's reference moved to it with the squash
/// reflog message, and the branch checked out again when HEAD is on it. The
/// base's reference is not touched.
pub fn squash_commit(
    message: String,
    tip_tree: &str,
    merge_base: &str,
    branch_refname: &str,
    base: &str,
    head_refname: Option<&str>,
) -> (res: SquashCommit)
    ensures
        res.tree@ == tip_tree@,
        views(res.parents@) == seq![merge_base@],
        res.message@ == message@,
        res.refname@ == branch_refname@,
        res.reflog@ == "squash: collapse branch onto "@ + base@,
        res.checkout == (head_refname matches Some(h) && h@ == branch_refname@),
{
    let mut parents: Vec<String> = Vec::new();
    parents.push(merge_base.to_string());
    assert(views(parents@) =~= seq![merge_base@]);
    let checkout = match head_refname {
        Some(h) => str_eq(h, branch_refname),
        None => false,
    };
    SquashCommit {
        tree: tip_tree.to_string(),
        parents,
        message,
        refname: branch_refname.to_string(),
        reflog: reflog_message(base),
        checkout,
    }
}

impl SquashArgs {
    /// The step after building the message (`built`): with `--edit`, the
    /// message file is prepared and edited first; otherwise the squash
    /// commit is made with the built message.
    pub fn first_step(
        &self,
        built: String,
        tip_tree: &str,
        merge_base: &str,
        branch_refname: &str,
        base: &str,
        head_refname: Option<&str>,
    ) -> (res: SquashStep)
        ensures
            self.edit ==> (res matches SquashStep::Edit(t) && t@ == built@),
            !self.edit ==> (res matches SquashStep::Commit(c) && c.tree@ == tip_tree@
                && views(c.parents@) == seq![merge_base@] && c.message@ == built@ && c.refname@ == branch_refname@
                && c.reflog@ == "squash: collapse branch onto "@ + base@
                && c.checkout == (head_refname matches Some(h) && h@ == branch_refname@)),
    {
        if self.edit {
            SquashStep::Edit(built)
        } else {
            SquashStep::Commit(squash_commit(built, tip_tree, merge_base, branch_refname, base, head_refname))
        }
    }
}

proof fn lemma_walked_until_push(cs: Seq<WalkedCommit>, until: Seq<char>, k: int)
    requires
        0 <= k < cs.len(),
        forall|j: int| 0 <= j <= k ==> cs[j].id@ != until,
    ensures
        walked_until(cs, until).len() >= k + 1,
        walked_until(cs, until).subrange(0, k + 1) == cs.subrange(0, k + 1),
    decreases k,
{
    assert(cs[0].id@ != until);
    if k > 0 {
        lemma_walked_until_push(cs.drop_first(), until, k - 1);
        assert(walked_until(cs, until) == seq![cs[0]] + walked_until(cs.drop_first(), until));
        assert(walked_until(cs, until).subrange(0, k + 1) =~= seq![cs[0]] + walked_until(cs.drop_first(), until).subrange(0, k));
        assert(cs.subrange(0, k + 1) =~= seq![cs[0]] + cs.drop_first().subrange(0, k));
    } else {
        assert(walked_until(cs, until) == seq![cs[0]] + walked_until(cs.drop_first(), until));
        assert(walked_until(cs, until).subrange(0, 1) =~= cs.subrange(0, 1));
    }
}

proof fn lemma_walked_until_stop(cs: Seq<WalkedCommit>, until: Seq<char>, k: int)
    requires
        0 <= k <= cs.len(),
        forall|j: int| 0 <= j < k ==> cs[j].id@ != until,
        k == cs.len() || cs[k].id@ == until,
    ensures
        walked_until(cs, until) == cs.subrange(0, k),
    decreases k,
{
    if k == 0 {
        assert(cs.subrange(0, 0) =~= Seq::<WalkedCommit>::empty());
    } else {
        lemma_walked_until_stop(cs.drop_first(), until, k - 1);
        assert(cs.subrange(0, k) =~= seq![cs[0]] + cs.drop_first().subrange(0, k - 1));
    }
}

/// Builds the default squash message from the walk of the branch, which
/// stops at `until` (the merge-base, whose message is not included). `sig`
/// is who authors the squash; commits by anyone else credit their author in
/// a co-author footer.
pub fn build_message(subject: String, walk: &Vec<WalkedCommit>, until: &str, sig: &Person) -> (res: String)
    ensures
        res@ == squash_message(subject@, walked_until(walk@, until@), *sig),
{
    let mut msgs: Vec<String> = Vec::new();
    let ghost subj = subject@;
    msgs.push(subject);
    let mut stop: usize = 0;
    while stop < walk.len() && !str_eq(walk[stop].id.as_str(), until)
        invariant
            stop <= walk@.len(),
            forall|j: int| 0 <= j < stop ==> walk@[j].id@ != until@,
        decreases walk@.len() - stop,
    {
        stop = stop + 1;
    }
    proof {
        lemma_walked_until_stop(walk@, until@, stop as int);
    }
    let mut co: Vec<String> = Vec::new();
    let mut i: usize = 0;
    while i < stop
        invariant
            i <= stop,
            stop <= walk@.len(),
            views(msgs@) == seq![subj] + bullets(walk@.subrange(0, i as int)),
            views(co@) == co_authors(walk@.subrange(0, i as int), *sig),
        decreases stop - i,
    {
        let c = &walk[i];
        let ghost s = walk@.subrange(0, i + 1);
        assert(s.drop_last() =~= walk@.subrange(0, i as int));
        assert(s.last() == walk@[i as int]);
        let other = !str_eq(c.author.name.as_str(), sig.name.as_str()) || !str_eq(c.author.email.as_str(), sig.email.as_str());
        if other {
            let mut l = String::from_str("Co-authored-by: ");
            l.append(c.author.name.as_str());
            l.append(" <");
            l.append(c.author.email.as_str());
            l.append(">");
            co.push(l);
        }
        let mut b = String::from_str("* ");
        b.append(trim(c.message.as_str()).as_str());
        assert(b@ == "* "@ + trimmed(walk@[i as int].message@));
        let ghost prev = msgs@;
        msgs.push(b);
        proof {
            assert(views(co@) =~= co_authors(s, *sig));
            assert(bullets(s) =~= bullets(walk@.subrange(0, i as int)).push("* "@ + trimmed(walk@[i as int].message@)));
            assert(msgs@ =~= prev.push(b));
            assert(views(msgs@) =~= views(prev).push(b@));
            assert(views(msgs@) =~= seq![subj] + bullets(s));
        }
        i = i + 1;
    }
    let ghost cs = walk@.subrange(0, i as int);
    let ghost before = views(msgs@);
    if co.len() > 0 {
        let footer = join(&co, "\n");
        msgs.push(footer);
    }
    assert(views(msgs@) =~= seq![subj] + bullets(cs)
        + (if co_authors(cs, *sig).len() > 0 { seq![joined(co_authors(cs, *sig), "\n"@)] } else { Seq::empty() }));
    join(&msgs, "\n\n")
}

/// `Squashed n commits from <branch> since <base>`.
pub open spec fn squashed_line(ahead: nat, branch: Seq<char>, base: Seq<char>) -> Styled {
    seq![
        ("Squashed"@, green()),
        (seq![' '], no_style()),
        (dec(ahead), fg(Color::Cyan)),
        (" commits from "@, no_style()),
        (branch, fg(Color::Blue)),
        (" since "@, no_style()),
        (base, fg(Color::Magenta)),
    ]
}

/// Reports the squash.
pub fn display_squashed(ahead: usize, branch: &str, base: &str) -> (res: Vec<Span>)
    ensures
        line(res@) == squashed_line(ahead as nat, branch@, base@),
{
    let mut out: Vec<Span> = Vec::new();
    push_str(&mut out, "Squashed", Style::fg(Color::Green));
    let mut sp = String::new();
    sp.push(' ');
    push_span(&mut out, sp, Style::none());
    push_span(&mut out, usize_text(ahead), Style::fg(Color::Cyan));
    push_str(&mut out, " commits from ", Style::none());
    push_str(&mut out, branch, Style::fg(Color::Blue));
    push_str(&mut out, " since ", Style::none());
    push_str(&mut out, base, Style::fg(Color::Magenta));
    assert(line(out@) =~= squashed_line(ahead as nat, branch@, base@));
    out
}

/// The squashed changes: `Squashed changes - n file(s)`, then a line per
/// changed file.
pub open spec fn squashed_changes(summary: DiffSummary, nerdfont: bool) -> Styled {
    seq![
        ("\nSquashed changes - "@, no_style()),
        (dec(summary.num_files as nat), fg(Color::Cyan)),
        (if summary.num_files == 1 { " file"@ } else { " files"@ }, no_style()),
    ] + files_lines(summary.files@, nerdfont)
}

/// Displays the squashed changes.
pub fn display_squashed_changes(summary: &DiffSummary, nerdfont: bool) -> (res: Vec<Span>)
    ensures
        line(res@) == squashed_changes(*summary, nerdfont),
{
    let mut header: Vec<Span> = Vec::new();
    push_str(&mut header, "\nSquashed changes - ", Style::none());
    push_span(&mut header, usize_text(summary.num_files), Style::fg(Color::Cyan));
    if summary.num_files == 1 {
        push_str(&mut header, " file", Style::none());
    } else {
        push_str(&mut header, " files", Style::none());
    }
    let ghost h = line(header@);
    let out = display_summary_with_header(summary, header, nerdfont);
    assert(line(out@) =~= squashed_changes(*summary, nerdfont));
    out
}

} // verus!
