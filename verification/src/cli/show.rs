//! `show`: picks how to display a revision (branch, version, tag or commit)
//! and lays out each view.

use vstd::prelude::*;

use crate::cli::display::commit::CommitMessageLevel;
use crate::cli::display::diff::{display_summary, display_summary_header, files_lines, summary_header_line, DiffSummary};
use crate::cli::display::{dim, display_plus_minus, fg, green, no_style, plus_minus_line, usize_text};
use crate::cli::error::CliError;
use crate::cli::status::{ellipsis, nf, Styled};
use crate::cli::wip::{display_wipspec, wipspec_line};
use crate::text::{
    append_spans, dec, line, measure_width, push_span, push_str, render, rendered, spaces, space_text,
    text_width, trim_prefix, trim_prefix_opt, truncate, truncated, Color, Span, Style,
};

verus! {

/// When to page output.
#[derive(Clone, Copy, PartialEq, Eq, Structural, Debug)]
pub enum PageWhen {
    /// Page when printing to a terminal
    Auto,
    Always,
    Never,
}

/// How to display a revision.
#[derive(Clone, Copy, PartialEq, Eq, Structural, Debug)]
pub enum DisplayMode {
    /// Display details about a local branch
    Branch,
    /// Display details about a version tag
    Version,
    /// Display as tag object (annotated tag)
    Tag,
    /// Display as commit
    Commit,
    /// Resolve display mode based on revision string
    Auto,
}

/// Options of `show`.
#[derive(Debug)]
pub struct ShowArgs {
    /// Hide the diff summary
    pub no_summary: Option<bool>,
    /// Hide the diff patch
    pub no_patch: Option<bool>,
    /// How much of the commit message to show
    pub message: Option<CommitMessageLevel>,
    /// When to page output
    pub paging: Option<PageWhen>,
    /// How to display the output
    pub display: DisplayMode,
    /// Whether to display the object as a tag instead of a commit
    pub tag: bool,
    /// The git revision string
    pub revision: Option<String>,
}

/// What a reference that a revision names is.
#[derive(Clone, Copy, PartialEq, Eq, Structural, Debug)]
pub enum RefKind {
    Branch,
    /// A tag; `annotated` when it points to a tag object, `version` when its
    /// name is among the version tags
    Tag { annotated: bool, version: bool, peels_to_commit: bool },
    Other,
}

/// What resolving a revision found.
#[derive(Debug)]
pub struct RevisionFacts {
    /// The full name of the reference the revision names, and what it is;
    /// `None` when it names none
    pub reference: Option<(String, RefKind)>,
    /// Whether the revision parses to an object, and whether that object is a
    /// commit
    pub object: Option<bool>,
}

/// The view `show` settles on.
#[derive(Clone, Copy, PartialEq, Eq, Structural, Debug)]
pub enum Resolved {
    Branch,
    Version,
    Tag,
    Commit,
}

/// Why a revision cannot be shown in the mode asked for.
#[derive(Debug)]
pub enum ResolveError {
    /// No reference by that name (git's own error)
    RefNotFound,
    /// The revision does not parse (git's own error)
    RevNotFound,
    NotBranch(String),
    NotTag(String),
    /// A version tag that does not point to a commit
    NoCommit(String),
    NotAnnotated(String),
    NotCommit(String),
}

impl ResolveError {
    /// The message of an error of this library's own; git's errors carry
    /// their own text.
    pub open spec fn spec_message(&self) -> Option<Seq<char>> {
        match self {
            ResolveError::RefNotFound => None,
            ResolveError::RevNotFound => None,
            ResolveError::NotBranch(n) => Some("Not a local branch: "@ + n@),
            ResolveError::NotTag(n) => Some("Not a tag: "@ + n@),
            ResolveError::NoCommit(n) => Some("Failed to find commit pointed to by tag: "@ + n@),
            ResolveError::NotAnnotated(n) => Some("Failed to resolve to annotated tag: "@ + n@),
            ResolveError::NotCommit(r) => Some("Failed to resolve to commit: "@ + r@),
        }
    }

    /// The message, for the errors of this library's own.
    pub fn message(&self) -> (res: Option<String>)
        ensures
            (match res {
                Some(m) => Some(m@),
                None => None,
            }) == self.spec_message(),
    {
        let (prefix, name) = match self {
            ResolveError::RefNotFound => return None,
            ResolveError::RevNotFound => return None,
            ResolveError::NotBranch(n) => ("Not a local branch: ", n),
            ResolveError::NotTag(n) => ("Not a tag: ", n),
            ResolveError::NoCommit(n) => ("Failed to find commit pointed to by tag: ", n),
            ResolveError::NotAnnotated(n) => ("Failed to resolve to annotated tag: ", n),
            ResolveError::NotCommit(r) => ("Failed to resolve to commit: ", r),
        };
        let mut m = String::from_str(prefix);
        m.append(name.as_str());
        Some(m)
    }
}

/// Falls back to the commit view: the revision must parse to a commit.
pub open spec fn commit_or_error(object: Option<bool>) -> Result<Resolved, ()> {
    match object {
        Some(true) => Ok(Resolved::Commit),
        _ => Err(()),
    }
}

/// The view for a display mode and what the revision resolves to; `Err`
/// when the mode does not fit the revision.
pub open spec fn resolution(mode: DisplayMode, reference: Option<RefKind>, object: Option<bool>) -> Option<Resolved> {
    match mode {
        DisplayMode::Branch => if reference == Some(RefKind::Branch) { Some(Resolved::Branch) } else { None },
        DisplayMode::Version => match reference {
            Some(RefKind::Tag { peels_to_commit, .. }) => if peels_to_commit { Some(Resolved::Version) } else { None },
            _ => None,
        },
        DisplayMode::Tag => match reference {
            Some(RefKind::Tag { annotated, .. }) => if annotated { Some(Resolved::Tag) } else { None },
            _ => None,
        },
        DisplayMode::Commit => if object == Some(true) { Some(Resolved::Commit) } else { None },
        DisplayMode::Auto => match reference {
            Some(RefKind::Branch) => Some(Resolved::Branch),
            Some(RefKind::Tag { version, annotated, .. }) => if version {
                Some(Resolved::Version)
            } else if annotated {
                Some(Resolved::Tag)
            } else if object == Some(true) {
                Some(Resolved::Commit)
            } else {
                None
            },
            _ => if object == Some(true) { Some(Resolved::Commit) } else { None },
        },
    }
}

/// The error answered when the mode does not fit the revision: a missing
/// reference, or one of the wrong kind, by name; in commit and auto mode, a
/// revision that does not parse, or that is not a commit.
pub open spec fn resolution_error(mode: DisplayMode, reference: Option<(String, RefKind)>, object: Option<bool>,
    rev: Seq<char>, e: ResolveError) -> bool {
    let commit_error = match object {
        None => e is RevNotFound,
        Some(_) => e matches ResolveError::NotCommit(r) && r@ == rev,
    };
    match mode {
        DisplayMode::Branch => match reference {
            None => e is RefNotFound,
            Some(p) => e matches ResolveError::NotBranch(n) && n@ == p.0@,
        },
        DisplayMode::Version => match reference {
            None => e is RefNotFound,
            Some(p) => match p.1 {
                RefKind::Tag { .. } => e matches ResolveError::NoCommit(n) && n@ == p.0@,
                _ => e matches ResolveError::NotTag(n) && n@ == p.0@,
            },
        },
        DisplayMode::Tag => match reference {
            None => e is RefNotFound,
            Some(p) => match p.1 {
                RefKind::Tag { .. } => e matches ResolveError::NotAnnotated(n) && n@ == p.0@,
                _ => e matches ResolveError::NotTag(n) && n@ == p.0@,
            },
        },
        DisplayMode::Commit | DisplayMode::Auto => commit_error,
    }
}

/// The kind of a reference found, if any.
pub open spec fn ref_kind(r: Option<(String, RefKind)>) -> Option<RefKind> {
    match r {
        Some(p) => Some(p.1),
        None => None,
    }
}

impl ShowArgs {
    /// The revision to show: the one given, else the ref HEAD resolves to
    /// (`head`); without commits there is none, which is an error.
    pub fn revision_to_show(&self, head: Option<&str>) -> (res: Result<String, CliError>)
        ensures
            self.revision matches Some(r) ==> (res matches Ok(s) && s@ == r@),
            self.revision is None ==> (match head {
                Some(h) => res matches Ok(s) && s@ == h@,
                None => res matches Err(CliError::Generic(m)) && m@ == "No commits yet"@,
            }),
    {
        match &self.revision {
            Some(r) => Ok(r.clone()),
            None => match head {
                Some(h) => Ok(String::from_str(h)),
                None => Err(CliError::Generic(String::from_str("No commits yet"))),
            },
        }
    }

    /// Determines the view from the display mode and what the revision
    /// resolves to. In auto mode a local branch shows as a branch, a version
    /// tag as a version, another annotated tag as a tag, and anything else as
    /// a commit.
    pub fn resolve_mode(&self, rev: &str, facts: &RevisionFacts) -> (res: Result<Resolved, ResolveError>)
        ensures
            res matches Ok(r) ==> resolution(self.display, ref_kind(facts.reference), facts.object) == Some(r),
            resolution(self.display, ref_kind(facts.reference), facts.object) matches Some(r) ==> res == Ok::<Resolved, ResolveError>(r),
            res matches Err(e) ==> resolution_error(self.display, facts.reference, facts.object, rev@, e),
    {
        match self.display {
            DisplayMode::Branch => ShowArgs::branch_of(&facts.reference),
            DisplayMode::Version => ShowArgs::version_of(&facts.reference),
            DisplayMode::Tag => ShowArgs::tag_of(&facts.reference),
            DisplayMode::Commit => ShowArgs::commit_of(rev, facts.object),
            DisplayMode::Auto => ShowArgs::auto_of(rev, facts),
        }
    }

    fn branch_of(reference: &Option<(String, RefKind)>) -> (res: Result<Resolved, ResolveError>)
        ensures
            res matches Ok(r) ==> resolution(DisplayMode::Branch, ref_kind(*reference), None) == Some(r),
            resolution(DisplayMode::Branch, ref_kind(*reference), None) matches Some(r) ==> res == Ok::<Resolved, ResolveError>(r),
            res matches Err(e) ==> resolution_error(DisplayMode::Branch, *reference, None, Seq::empty(), e),
    {
        match reference {
            None => Err(ResolveError::RefNotFound),
            Some(p) => match p.1 {
                RefKind::Branch => Ok(Resolved::Branch),
                _ => Err(ResolveError::NotBranch(p.0.clone())),
            },
        }
    }

    fn version_of(reference: &Option<(String, RefKind)>) -> (res: Result<Resolved, ResolveError>)
        ensures
            res matches Ok(r) ==> resolution(DisplayMode::Version, ref_kind(*reference), None) == Some(r),
            resolution(DisplayMode::Version, ref_kind(*reference), None) matches Some(r) ==> res == Ok::<Resolved, ResolveError>(r),
            res matches Err(e) ==> resolution_error(DisplayMode::Version, *reference, None, Seq::empty(), e),
    {
        match reference {
            None => Err(ResolveError::RefNotFound),
            Some(p) => match p.1 {
                RefKind::Tag { peels_to_commit, .. } => if peels_to_commit {
                    Ok(Resolved::Version)
                } else {
                    Err(ResolveError::NoCommit(p.0.clone()))
                },
                _ => Err(ResolveError::NotTag(p.0.clone())),
            },
        }
    }

    fn tag_of(reference: &Option<(String, RefKind)>) -> (res: Result<Resolved, ResolveError>)
        ensures
            res matches Ok(r) ==> resolution(DisplayMode::Tag, ref_kind(*reference), None) == Some(r),
            resolution(DisplayMode::Tag, ref_kind(*reference), None) matches Some(r) ==> res == Ok::<Resolved, ResolveError>(r),
            res matches Err(e) ==> resolution_error(DisplayMode::Tag, *reference, None, Seq::empty(), e),
    {
        match reference {
            None => Err(ResolveError::RefNotFound),
            Some(p) => match p.1 {
                RefKind::Tag { annotated, .. } => if annotated {
                    Ok(Resolved::Tag)
                } else {
                    Err(ResolveError::NotAnnotated(p.0.clone()))
                },
                _ => Err(ResolveError::NotTag(p.0.clone())),
            },
        }
    }

    fn auto_of(rev: &str, facts: &RevisionFacts) -> (res: Result<Resolved, ResolveError>)
        ensures
            res matches Ok(r) ==> resolution(DisplayMode::Auto, ref_kind(facts.reference), facts.object) == Some(r),
            resolution(DisplayMode::Auto, ref_kind(facts.reference), facts.object) matches Some(r) ==> res == Ok::<Resolved, ResolveError>(r),
            res matches Err(e) ==> resolution_error(DisplayMode::Auto, facts.reference, facts.object, rev@, e),
    {
        let kind = match &facts.reference {
            Some(p) => Some(p.1),
            None => None,
        };
        match kind {
            Some(RefKind::Branch) => Ok(Resolved::Branch),
            Some(RefKind::Tag { version, annotated, .. }) => if version {
                Ok(Resolved::Version)
            } else if annotated {
                Ok(Resolved::Tag)
            } else {
                ShowArgs::commit_of(rev, facts.object)
            },
            _ => ShowArgs::commit_of(rev, facts.object),
        }
    }

    fn commit_of(rev: &str, object: Option<bool>) -> (res: Result<Resolved, ResolveError>)
        ensures
            object == Some(true) ==> res == Ok::<Resolved, ResolveError>(Resolved::Commit),
            object == Some(false) ==> (res matches Err(ResolveError::NotCommit(r)) && r@ == rev@),
            object is None ==> res matches Err(ResolveError::RevNotFound),
            res matches Ok(r) ==> r == Resolved::Commit && object == Some(true),
            res matches Err(e) ==> resolution_error(DisplayMode::Commit, None, object, rev@, e),
    {
        match object {
            None => Err(ResolveError::RevNotFound),
            Some(true) => Ok(Resolved::Commit),
            Some(false) => Err(ResolveError::NotCommit(String::from_str(rev))),
        }
    }

    /// Whether to page: the option given, else the config; `Auto` pages only
    /// when printing to a terminal.
    pub fn pages(&self, config: PageWhen, is_term: bool) -> (res: bool)
        ensures
            res == (match (match self.paging { Some(p) => p, None => config }) {
                PageWhen::Auto => is_term,
                PageWhen::Always => true,
                PageWhen::Never => false,
            }),
    {
        let paging = match self.paging {
            Some(p) => p,
            None => config,
        };
        match paging {
            PageWhen::Auto => is_term,
            PageWhen::Always => true,
            PageWhen::Never => false,
        }
    }

    /// Whether the diff summary is shown: the option given, else the config.
    pub fn show_summary(&self, config_shows: bool) -> (res: bool)
        ensures
            res == (match self.no_summary {
                Some(h) => !h,
                None => config_shows,
            }),
    {
        match self.no_summary {
            Some(h) => !h,
            None => config_shows,
        }
    }

    /// Whether the diff patch is shown: the option given, else the config.
    pub fn show_patch(&self, config_shows: bool) -> (res: bool)
        ensures
            res == (match self.no_patch {
                Some(h) => !h,
                None => config_shows,
            }),
    {
        match self.no_patch {
            Some(h) => !h,
            None => config_shows,
        }
    }

    /// How much of the message to show: the option given, else the config.
    pub fn message_level(&self, config: CommitMessageLevel) -> (res: CommitMessageLevel)
        ensures
            res == (match self.message {
                Some(m) => m,
                None => config,
            }),
    {
        match self.message {
            Some(m) => m,
            None => config,
        }
    }
}

/// `commit` or `commits`.
pub open spec fn commits_word(n: nat) -> Seq<char> {
    if n == 1 { "commit"@ } else { "commits"@ }
}

fn commits_text(n: usize) -> (res: &'static str)
    ensures
        res@ == commits_word(n as nat),
{
    if n == 1 { "commit" } else { "commits" }
}

/// How a branch name is highlighted, the same way as in the branch list.
#[derive(Clone, Copy, PartialEq, Eq, Structural, Debug)]
pub enum Highlight {
    /// The checked out branch, in green
    Current,
    /// Checked out in another worktree, in cyan
    Worktree,
    Plain,
}

pub open spec fn highlight_style(h: Highlight) -> Style {
    match h {
        Highlight::Current => green(),
        Highlight::Worktree => fg(Color::Cyan),
        Highlight::Plain => no_style(),
    }
}

/// The commit a branch or version points to: hash, author and time, then
/// the subject dimmed.
#[derive(Debug)]
pub struct CommitHeader {
    pub short_id: String,
    pub author: String,
    pub time: String,
    pub summary: String,
}

pub open spec fn commit_header_line(c: CommitHeader, nerdfont: bool) -> Styled {
    seq![
        ("\n\n"@, no_style()),
        (nf(nerdfont, seq!['\u{eafc}', ' '], Seq::empty()) + c.short_id@, fg(Color::Yellow)),
        (seq![' '] + c.author@ + ", "@ + c.time@, no_style()),
        (seq!['\n'], no_style()),
        (nf(nerdfont, seq!['\u{f27a}', ' '], Seq::empty()) + c.summary@, dim()),
    ]
}

fn icon_prefix(nerdfont: bool, icon: char) -> (res: String)
    ensures
        res@ == nf(nerdfont, seq![icon, ' '], Seq::empty()),
{
    let mut s = String::new();
    if nerdfont {
        s.push(icon);
        s.push(' ');
    }
    assert(s@ =~= nf(nerdfont, seq![icon, ' '], Seq::empty()));
    s
}

fn push_commit_header(out: &mut Vec<Span>, c: &CommitHeader, nerdfont: bool)
    ensures
        line(final(out)@) == line(old(out)@) + commit_header_line(*c, nerdfont),
{
    push_str(out, "\n\n", Style::none());
    let mut id = icon_prefix(nerdfont, '\u{eafc}');
    id.append(c.short_id.as_str());
    push_span(out, id, Style::fg(Color::Yellow));
    let mut who = String::new();
    who.push(' ');
    who.append(c.author.as_str());
    who.append(", ");
    who.append(c.time.as_str());
    push_span(out, who, Style::none());
    let mut nl = String::new();
    nl.push('\n');
    push_span(out, nl, Style::none());
    let mut subject = icon_prefix(nerdfont, '\u{f27a}');
    subject.append(c.summary.as_str());
    push_span(out, subject, Style::dimmed());
    assert(line(out@) =~= line(old(out)@) + commit_header_line(*c, nerdfont));
}

/// The name, highlighted, followed by the commit it points to.
pub fn display_commit_header_of(name: &str, highlight: Highlight, c: &CommitHeader, nerdfont: bool) -> (res: Vec<Span>)
    ensures
        line(res@) == seq![(name@, highlight_style(highlight))] + commit_header_line(*c, nerdfont),
{
    let mut out: Vec<Span> = Vec::new();
    let st = match highlight {
        Highlight::Current => Style::fg(Color::Green),
        Highlight::Worktree => Style::fg(Color::Cyan),
        Highlight::Plain => Style::none(),
    };
    push_str(&mut out, name, st);
    push_commit_header(&mut out, c, nerdfont);
    out
}

/// A row of the upstream/base table of the branch view.
#[derive(Debug)]
pub struct BranchRow {
    /// `true` for the upstream row, `false` for the base row
    pub upstream: bool,
    pub name: String,
    pub ahead: usize,
    pub behind: usize,
}

/// The label of a row: the icon and `Upstream` or `Base`.
pub open spec fn row_label(r: BranchRow, nerdfont: bool) -> Seq<char> {
    if r.upstream {
        nf(nerdfont, seq!['\u{eaa1}', ' '], Seq::empty()) + "Upstream"@
    } else {
        nf(nerdfont, seq!['\u{f126}', ' '], Seq::empty()) + "Base"@
    }
}

pub open spec fn row_color(r: BranchRow) -> Color {
    if r.upstream { Color::Blue } else { Color::Magenta }
}

/// The widest label of the rows.
pub open spec fn label_width(rows: Seq<BranchRow>, nerdfont: bool) -> nat
    decreases rows.len(),
{
    if rows.len() == 0 {
        0
    } else {
        let rest = label_width(rows.drop_last(), nerdfont);
        let w = text_width(row_label(rows.last(), nerdfont)) as nat;
        if w > rest { w } else { rest }
    }
}

/// The widest name of the rows.
pub open spec fn name_width(rows: Seq<BranchRow>) -> nat
    decreases rows.len(),
{
    if rows.len() == 0 {
        0
    } else {
        let rest = name_width(rows.drop_last());
        let w = text_width(rows.last().name@) as nat;
        if w > rest { w } else { rest }
    }
}

/// One row, its label and name padded to the widest of the table.
pub open spec fn row_line(r: BranchRow, lw: nat, nw: nat, nerdfont: bool) -> Styled {
    seq![
        (seq!['\n'], no_style()),
        (row_label(r, nerdfont), fg(row_color(r))),
        (spaces((lw - text_width(row_label(r, nerdfont))) as nat), no_style()),
        (seq![' '], no_style()),
        (r.name@, no_style()),
        (spaces((nw - text_width(r.name@)) as nat), no_style()),
        (seq![' '], no_style()),
    ] + plus_minus_line(r.ahead as nat, r.behind as nat)
}

pub open spec fn rows_lines(rows: Seq<BranchRow>, lw: nat, nw: nat, nerdfont: bool) -> Styled
    decreases rows.len(),
{
    if rows.len() == 0 {
        Seq::empty()
    } else {
        rows_lines(rows.drop_last(), lw, nw, nerdfont) + row_line(rows.last(), lw, nw, nerdfont)
    }
}

/// The table of rows, set off by a blank line when there are any.
pub open spec fn rows_part(rows: Seq<BranchRow>, nerdfont: bool) -> Styled {
    if rows.len() == 0 {
        Seq::empty()
    } else {
        seq![(seq!['\n'], no_style())] + rows_lines(rows, label_width(rows, nerdfont), name_width(rows), nerdfont)
    }
}

proof fn lemma_label_width_bounds(rows: Seq<BranchRow>, nerdfont: bool, i: int)
    requires
        0 <= i < rows.len(),
    ensures
        text_width(row_label(rows[i], nerdfont)) <= label_width(rows, nerdfont),
        name_width(rows) >= text_width(rows[i].name@),
    decreases rows.len(),
{
    if i < rows.len() - 1 {
        lemma_label_width_bounds(rows.drop_last(), nerdfont, i);
    }
}

fn row_label_text(r: &BranchRow, nerdfont: bool) -> (res: String)
    ensures
        res@ == row_label(*r, nerdfont),
{
    if r.upstream {
        let mut s = icon_prefix(nerdfont, '\u{eaa1}');
        s.append("Upstream");
        s
    } else {
        let mut s = icon_prefix(nerdfont, '\u{f126}');
        s.append("Base");
        s
    }
}

/// The table widths: the widest label and the widest name.
fn table_widths(rows: &Vec<BranchRow>, nerdfont: bool) -> (res: (usize, usize))
    ensures
        res.0 == label_width(rows@, nerdfont),
        res.1 == name_width(rows@),
{
    let mut lw: usize = 0;
    let mut nw: usize = 0;
    let mut i: usize = 0;
    while i < rows.len()
        invariant
            i <= rows@.len(),
            lw == label_width(rows@.subrange(0, i as int), nerdfont),
            nw == name_width(rows@.subrange(0, i as int)),
        decreases rows@.len() - i,
    {
        let ghost s = rows@.subrange(0, i + 1);
        assert(s.drop_last() =~= rows@.subrange(0, i as int));
        let l = row_label_text(&rows[i], nerdfont);
        let w = measure_width(l.as_str());
        if w > lw {
            lw = w;
        }
        let n = measure_width(rows[i].name.as_str());
        if n > nw {
            nw = n;
        }
        i = i + 1;
    }
    assert(rows@.subrange(0, rows@.len() as int) =~= rows@);
    (lw, nw)
}

fn push_row(out: &mut Vec<Span>, r: &BranchRow, lw: usize, nw: usize, nerdfont: bool)
    requires
        text_width(row_label(*r, nerdfont)) <= lw,
        text_width(r.name@) <= nw,
    ensures
        line(final(out)@) == line(old(out)@) + row_line(*r, lw as nat, nw as nat, nerdfont),
{
    let label = row_label_text(r, nerdfont);
    let w = measure_width(label.as_str());
    let color = if r.upstream { Color::Blue } else { Color::Magenta };
    let mut nl = String::new();
    nl.push('\n');
    push_span(out, nl, Style::none());
    push_span(out, label, Style::fg(color));
    push_span(out, space_text(lw - w), Style::none());
    let mut sp = String::new();
    sp.push(' ');
    push_span(out, sp, Style::none());
    push_str(out, r.name.as_str(), Style::none());
    let n = measure_width(r.name.as_str());
    push_span(out, space_text(nw - n), Style::none());
    let mut sp2 = String::new();
    sp2.push(' ');
    push_span(out, sp2, Style::none());
    append_spans(out, display_plus_minus(r.ahead, r.behind));
    assert(line(out@) =~= line(old(out)@) + row_line(*r, lw as nat, nw as nat, nerdfont));
}

/// Displays the upstream/base table of the branch view: each row's label
/// and name padded to the widest of the table, then its ahead/behind counts.
pub fn display_branch_rows(rows: &Vec<BranchRow>, nerdfont: bool) -> (res: Vec<Span>)
    ensures
        line(res@) == rows_part(rows@, nerdfont),
{
    let mut out: Vec<Span> = Vec::new();
    if rows.len() == 0 {
        return out;
    }
    let (lw, nw) = table_widths(rows, nerdfont);
    let mut nl = String::new();
    nl.push('\n');
    push_span(&mut out, nl, Style::none());
    let ghost head = line(out@);
    let mut i: usize = 0;
    while i < rows.len()
        invariant
            i <= rows@.len(),
            lw == label_width(rows@, nerdfont),
            nw == name_width(rows@),
            line(out@) == head + rows_lines(rows@.subrange(0, i as int), lw as nat, nw as nat, nerdfont),
        decreases rows@.len() - i,
    {
        let ghost s = rows@.subrange(0, i + 1);
        assert(s.drop_last() =~= rows@.subrange(0, i as int));
        assert(s.last() == rows@[i as int]);
        proof {
            lemma_label_width_bounds(rows@, nerdfont, i as int);
        }
        let ghost before = line(out@);
        push_row(&mut out, &rows[i], lw, nw, nerdfont);
        i = i + 1;
    }
    assert(rows@.subrange(0, rows@.len() as int) =~= rows@);
    out
}

/// A wip as listed in the branch view.
#[derive(Debug)]
pub struct WipSummary {
    pub branch: String,
    pub index: usize,
    /// The displayed time of the wip
    pub time: String,
    pub message: String,
}

/// The line of a wip: its spec, its time and its message cut to 72 columns.
pub open spec fn wip_summary_line(w: WipSummary, colors: bool) -> Styled {
    seq![(seq!['\n'], no_style())] + wipspec_line(w.branch@, w.index as nat)
        + seq![
            (seq![' '], no_style()),
            (w.time@, fg(Color::Magenta)),
            (seq![' '], no_style()),
            (truncated(w.message@, 72, ellipsis(colors)), no_style()),
        ]
}

pub open spec fn wip_summary_lines(wips: Seq<WipSummary>, colors: bool) -> Styled
    decreases wips.len(),
{
    if wips.len() == 0 {
        Seq::empty()
    } else {
        wip_summary_lines(wips.drop_last(), colors) + wip_summary_line(wips.last(), colors)
    }
}

/// The wips of the branch under a `Wips` title, when there are any.
pub open spec fn wips_part(wips: Seq<WipSummary>, nerdfont: bool, colors: bool) -> Styled {
    if wips.len() == 0 {
        Seq::empty()
    } else {
        seq![
            ("\n\n"@, no_style()),
            (nf(nerdfont, seq!['\u{f125a}', ' '], Seq::empty()), fg(Color::Cyan)),
            ("Wips"@, fg(Color::Cyan)),
        ] + wip_summary_lines(wips, colors)
    }
}

fn ellipsis_text(colors: bool) -> (res: String)
    ensures
        res@ == ellipsis(colors),
{
    let mut t: Vec<Span> = Vec::new();
    let mut e = String::new();
    e.push('\u{2026}');
    assert(e@ =~= seq!['\u{2026}']);
    push_span(&mut t, e, Style::dimmed());
    assert(line(t@) =~= seq![(seq!['\u{2026}'], dim())]);
    render(&t, colors)
}

/// Displays the wips of a branch.
pub fn display_wips(wips: &Vec<WipSummary>, nerdfont: bool, colors: bool) -> (res: Vec<Span>)
    ensures
        line(res@) == wips_part(wips@, nerdfont, colors),
{
    let mut out: Vec<Span> = Vec::new();
    if wips.len() == 0 {
        return out;
    }
    push_str(&mut out, "\n\n", Style::none());
    push_span(&mut out, icon_prefix(nerdfont, '\u{f125a}'), Style::fg(Color::Cyan));
    push_str(&mut out, "Wips", Style::fg(Color::Cyan));
    let ghost head = line(out@);
    let tail = ellipsis_text(colors);
    let mut i: usize = 0;
    while i < wips.len()
        invariant
            i <= wips@.len(),
            tail@ == ellipsis(colors),
            line(out@) == head + wip_summary_lines(wips@.subrange(0, i as int), colors),
        decreases wips@.len() - i,
    {
        let ghost s = wips@.subrange(0, i + 1);
        assert(s.drop_last() =~= wips@.subrange(0, i as int));
        let w = &wips[i];
        let ghost before = line(out@);
        let mut nl = String::new();
        nl.push('\n');
        push_span(&mut out, nl, Style::none());
        append_spans(&mut out, display_wipspec(w.branch.as_str(), w.index));
        let mut sp = String::new();
        sp.push(' ');
        push_span(&mut out, sp, Style::none());
        push_str(&mut out, w.time.as_str(), Style::fg(Color::Magenta));
        let mut sp2 = String::new();
        sp2.push(' ');
        push_span(&mut out, sp2, Style::none());
        push_span(&mut out, truncate(w.message.as_str(), 72, tail.as_str()), Style::none());
        assert(line(out@) =~= before + wip_summary_line(*w, colors));
        i = i + 1;
    }
    assert(wips@.subrange(0, wips@.len() as int) =~= wips@);
    out
}

/// The changes of a branch since its base.
#[derive(Debug)]
pub struct SinceBase {
    pub base: String,
    /// Commits on the branch since the merge base
    pub ahead: usize,
    pub summary: DiffSummary,
}

/// `Since base - n commits`.
pub open spec fn since_line(b: SinceBase) -> Styled {
    seq![
        ("\n\nSince "@, no_style()),
        (b.base@, fg(Color::Magenta)),
        (" - "@, no_style()),
        (dec(b.ahead as nat), fg(Color::Cyan)),
        (seq![' '] + commits_word(b.ahead as nat), no_style()),
    ]
}

/// What the branch view shows of the changes since the base: the summary
/// after `Since base - n commits, `; with only the patch shown, the `Since`
/// line alone; a line break ahead of the patch.
pub open spec fn since_part(b: SinceBase, nerdfont: bool, show_summary: bool, show_patch: bool) -> Styled {
    (if show_summary {
        since_line(b) + seq![(", "@, no_style())]
            + summary_header_line(b.summary.num_files as nat, b.summary.insertions as nat, b.summary.deletions as nat)
            + files_lines(b.summary.files@, nerdfont)
    } else {
        Seq::empty()
    })
    + (if show_patch {
        (if !show_summary { since_line(b) } else { Seq::empty() }) + seq![(seq!['\n'], no_style())]
    } else {
        Seq::empty()
    })
}

fn push_since_line(out: &mut Vec<Span>, b: &SinceBase)
    ensures
        line(final(out)@) == line(old(out)@) + since_line(*b),
{
    push_str(out, "\n\nSince ", Style::none());
    push_str(out, b.base.as_str(), Style::fg(Color::Magenta));
    push_str(out, " - ", Style::none());
    push_span(out, usize_text(b.ahead), Style::fg(Color::Cyan));
    let mut w = String::new();
    w.push(' ');
    w.append(commits_text(b.ahead));
    push_span(out, w, Style::none());
    assert(line(out@) =~= line(old(out)@) + since_line(*b));
}

/// Displays the changes of a branch since its base, as far as shown.
pub fn display_since_base(b: &SinceBase, nerdfont: bool, show_summary: bool, show_patch: bool) -> (res: Vec<Span>)
    ensures
        line(res@) == since_part(*b, nerdfont, show_summary, show_patch),
{
    let mut out: Vec<Span> = Vec::new();
    if show_summary {
        push_since_line(&mut out, b);
        push_str(&mut out, ", ", Style::none());
        append_spans(&mut out, display_summary(&b.summary, nerdfont));
    }
    let ghost a = line(out@);
    if show_patch {
        if !show_summary {
            push_since_line(&mut out, b);
        }
        let mut nl = String::new();
        nl.push('\n');
        push_span(&mut out, nl, Style::none());
    }
    proof {
        let first = if show_summary {
            since_line(*b) + seq![(", "@, no_style())]
                + summary_header_line(b.summary.num_files as nat, b.summary.insertions as nat, b.summary.deletions as nat)
                + files_lines(b.summary.files@, nerdfont)
        } else {
            Seq::empty()
        };
        assert(a =~= first);
        assert(line(out@) =~= since_part(*b, nerdfont, show_summary, show_patch));
    }
    out
}

/// What the branch view reads.
#[derive(Debug)]
pub struct BranchView {
    pub name: String,
    pub highlight: Highlight,
    pub commit: CommitHeader,
    /// The upstream row, then the base row, where there are
    pub rows: Vec<BranchRow>,
    pub wips: Vec<WipSummary>,
    /// The changes since the base, when the branch has one
    pub since: Option<SinceBase>,
}

/// The branch view: the name, the commit, the upstream/base table, the wips
/// and the changes since the base. The patch, when shown, follows.
pub open spec fn branch_view(v: BranchView, nerdfont: bool, colors: bool, show_summary: bool, show_patch: bool) -> Styled {
    seq![(v.name@, highlight_style(v.highlight))]
        + commit_header_line(v.commit, nerdfont)
        + rows_part(v.rows@, nerdfont)
        + wips_part(v.wips@, nerdfont, colors)
        + (match v.since {
            Some(b) => since_part(b, nerdfont, show_summary, show_patch),
            None => Seq::empty(),
        })
}

/// Lays out the branch view.
pub fn display_branch_view(v: &BranchView, nerdfont: bool, colors: bool, show_summary: bool, show_patch: bool) -> (res: Vec<Span>)
    ensures
        line(res@) == branch_view(*v, nerdfont, colors, show_summary, show_patch),
{
    let mut out: Vec<Span> = Vec::new();
    let st = match v.highlight {
        Highlight::Current => Style::fg(Color::Green),
        Highlight::Worktree => Style::fg(Color::Cyan),
        Highlight::Plain => Style::none(),
    };
    push_str(&mut out, v.name.as_str(), st);
    push_commit_header(&mut out, &v.commit, nerdfont);
    append_spans(&mut out, display_branch_rows(&v.rows, nerdfont));
    append_spans(&mut out, display_wips(&v.wips, nerdfont, colors));
    let ghost a = line(out@);
    match &v.since {
        Some(b) => append_spans(&mut out, display_since_base(b, nerdfont, show_summary, show_patch)),
        None => {},
    }
    proof {
        let sp = match &v.since {
            Some(b) => since_part(*b, nerdfont, show_summary, show_patch),
            None => Seq::empty(),
        };
        assert(line(out@) =~= a + sp);
        assert(line(out@) =~= branch_view(*v, nerdfont, colors, show_summary, show_patch));
    }
    out
}

/// The tagger of an annotated version tag.
#[derive(Debug)]
pub struct Tagger {
    pub name: String,
    pub time: String,
    pub message: Option<String>,
}

/// What the version view reads.
#[derive(Debug)]
pub struct VersionView {
    pub name: String,
    /// Whether this is the version HEAD is at
    pub current: bool,
    pub tagger: Option<Tagger>,
    pub commit: CommitHeader,
    /// The previous version and the commits since it; `None` for the first
    /// release
    pub prev: Option<(String, usize)>,
    pub summary: DiffSummary,
}

pub open spec fn tagger_part(t: Option<Tagger>, nerdfont: bool) -> Styled {
    match t {
        Some(t) => seq![
            ("\n\n"@, no_style()),
            (nf(nerdfont, seq!['\u{f02b}', ' '], Seq::empty()), fg(Color::Yellow)),
            (t.name@ + ", "@ + t.time@, no_style()),
        ] + (match t.message {
            Some(m) => seq![(seq!['\n'], no_style()), (nf(nerdfont, seq!['\u{f27a}', ' '], Seq::empty()) + m@, dim())],
            None => Seq::empty(),
        }),
        None => Seq::empty(),
    }
}

pub open spec fn prev_part(prev: Option<(String, usize)>) -> Styled {
    match prev {
        Some(p) => seq![
            ("\n\nSince "@, no_style()),
            (p.0@, fg(Color::Yellow)),
            (" - "@, no_style()),
            (dec(p.1 as nat), fg(Color::Cyan)),
            (seq![' '] + commits_word(p.1 as nat) + ", "@, no_style()),
        ],
        None => seq![("\n\nInitial release - "@, no_style())],
    }
}

/// The version view: the name (green when current), the tagger, the commit,
/// what came since the previous version and the diff summary (only its
/// header when the summary is hidden).
pub open spec fn version_view(v: VersionView, nerdfont: bool, show_summary: bool) -> Styled {
    seq![(v.name@, if v.current { green() } else { no_style() })]
        + tagger_part(v.tagger, nerdfont)
        + commit_header_line(v.commit, nerdfont)
        + prev_part(v.prev)
        + summary_header_line(v.summary.num_files as nat, v.summary.insertions as nat, v.summary.deletions as nat)
        + (if show_summary { files_lines(v.summary.files@, nerdfont) } else { Seq::empty() })
}

/// Lays out the version view.
pub fn display_version_view(v: &VersionView, nerdfont: bool, show_summary: bool) -> (res: Vec<Span>)
    ensures
        line(res@) == version_view(*v, nerdfont, show_summary),
{
    let mut out: Vec<Span> = Vec::new();
    push_str(&mut out, v.name.as_str(), if v.current { Style::fg(Color::Green) } else { Style::none() });
    push_tagger(&mut out, &v.tagger, nerdfont);
    push_commit_header(&mut out, &v.commit, nerdfont);
    push_prev(&mut out, &v.prev);
    if show_summary {
        append_spans(&mut out, display_summary(&v.summary, nerdfont));
    } else {
        append_spans(&mut out, display_summary_header(&v.summary));
    }
    assert(line(out@) =~= version_view(*v, nerdfont, show_summary));
    out
}

/// The name of a version in green, then its tagger.
pub fn display_tagged_name(name: &str, tagger: &Option<Tagger>, nerdfont: bool) -> (res: Vec<Span>)
    ensures
        line(res@) == seq![(name@, green())] + tagger_part(*tagger, nerdfont),
{
    let mut out: Vec<Span> = Vec::new();
    push_str(&mut out, name, Style::fg(Color::Green));
    push_tagger(&mut out, tagger, nerdfont);
    out
}

/// What came since the previous version, or that this is the first release.
pub fn display_prev(prev: &Option<(String, usize)>) -> (res: Vec<Span>)
    ensures
        line(res@) == prev_part(*prev),
{
    let mut out: Vec<Span> = Vec::new();
    push_prev(&mut out, prev);
    assert(line(out@) =~= prev_part(*prev));
    out
}

fn push_tagger(out: &mut Vec<Span>, tagger: &Option<Tagger>, nerdfont: bool)
    ensures
        line(final(out)@) == line(old(out)@) + tagger_part(*tagger, nerdfont),
{
    match tagger {
        Some(t) => {
            push_str(out, "\n\n", Style::none());
            push_span(out, icon_prefix(nerdfont, '\u{f02b}'), Style::fg(Color::Yellow));
            let mut who = String::from_str(t.name.as_str());
            who.append(", ");
            who.append(t.time.as_str());
            push_span(out, who, Style::none());
            let ghost a = line(out@);
            match &t.message {
                Some(m) => {
                    let mut nl = String::new();
                    nl.push('\n');
                    push_span(out, nl, Style::none());
                    let mut msg = icon_prefix(nerdfont, '\u{f27a}');
                    msg.append(m.as_str());
                    push_span(out, msg, Style::dimmed());
                },
                None => {},
            }
            proof {
                let mp = match &t.message {
                    Some(m) => seq![(seq!['\n'], no_style()), (nf(nerdfont, seq!['\u{f27a}', ' '], Seq::empty()) + m@, dim())],
                    None => Seq::empty(),
                };
                assert(line(out@) =~= a + mp);
            }
        },
        None => {},
    }
    assert(line(out@) =~= line(old(out)@) + tagger_part(*tagger, nerdfont));
}

fn push_prev(out: &mut Vec<Span>, prev: &Option<(String, usize)>)
    ensures
        line(final(out)@) == line(old(out)@) + prev_part(*prev),
{
    match prev {
        Some((name, ahead)) => {
            push_str(out, "\n\nSince ", Style::none());
            push_str(out, name.as_str(), Style::fg(Color::Yellow));
            push_str(out, " - ", Style::none());
            push_span(out, usize_text(*ahead), Style::fg(Color::Cyan));
            let mut w = String::new();
            w.push(' ');
            w.append(commits_text(*ahead));
            w.append(", ");
            push_span(out, w, Style::none());
        },
        None => {
            push_str(out, "\n\nInitial release - ", Style::none());
        },
    }
    assert(line(out@) =~= line(old(out)@) + prev_part(*prev));
}

/// What a decoration of a commit is.
#[derive(Debug)]
pub enum Decoration {
    /// HEAD, with the ref it points to when it is symbolic
    Head(Option<String>),
    Branch(String),
    Remote(String),
    Tag(String),
    Other(String),
}

/// A decoration as shown: HEAD (and where it points) in green, local
/// branches cyan, remote branches blue, tags yellow.
pub open spec fn decoration_span(d: Decoration) -> (Seq<char>, Style) {
    match d {
        Decoration::Head(t) => match t {
            Some(t) => ("HEAD -> "@ + trim_prefix(trim_prefix(t@, "refs/heads/"@), "refs/remotes/"@), green()),
            None => ("HEAD"@, green()),
        },
        Decoration::Branch(n) => (n@, fg(Color::Cyan)),
        Decoration::Remote(n) => (n@, fg(Color::Blue)),
        Decoration::Tag(n) => (n@, fg(Color::Yellow)),
        Decoration::Other(n) => (n@, no_style()),
    }
}

pub open spec fn decorations_line(ds: Seq<Decoration>) -> Styled
    decreases ds.len(),
{
    if ds.len() == 0 {
        Seq::empty()
    } else if ds.len() == 1 {
        seq![decoration_span(ds[0])]
    } else {
        decorations_line(ds.drop_last()) + seq![(seq![','], dim()), (seq![' '], no_style()), decoration_span(ds.last())]
    }
}

fn decoration(d: &Decoration) -> (res: (String, Style))
    ensures
        (res.0@, res.1) == decoration_span(*d),
{
    match d {
        Decoration::Head(t) => match t {
            Some(t) => {
                let mut s = String::from_str("HEAD -> ");
                let a = trim_prefix_opt(t.as_str(), "refs/heads/");
                let b = trim_prefix_opt(a.as_str(), "refs/remotes/");
                s.append(b.as_str());
                (s, Style::fg(Color::Green))
            },
            None => (String::from_str("HEAD"), Style::fg(Color::Green)),
        },
        Decoration::Branch(n) => (n.clone(), Style::fg(Color::Cyan)),
        Decoration::Remote(n) => (n.clone(), Style::fg(Color::Blue)),
        Decoration::Tag(n) => (n.clone(), Style::fg(Color::Yellow)),
        Decoration::Other(n) => (n.clone(), Style::none()),
    }
}

/// Displays the refs pointing at a commit, comma separated, like git log.
pub fn display_decorations(ds: &Vec<Decoration>) -> (res: Vec<Span>)
    ensures
        line(res@) == decorations_line(ds@),
{
    let mut out: Vec<Span> = Vec::new();
    let mut i: usize = 0;
    while i < ds.len()
        invariant
            i <= ds@.len(),
            line(out@) == decorations_line(ds@.subrange(0, i as int)),
        decreases ds@.len() - i,
    {
        let ghost s = ds@.subrange(0, i + 1);
        assert(s.drop_last() =~= ds@.subrange(0, i as int));
        let ghost before = line(out@);
        if i > 0 {
            let mut c = String::new();
            c.push(',');
            push_span(&mut out, c, Style::dimmed());
            let mut sp = String::new();
            sp.push(' ');
            push_span(&mut out, sp, Style::none());
        }
        let (t, st) = decoration(&ds[i]);
        push_span(&mut out, t, st);
        proof {
            if i == 0 {
                assert(line(out@) =~= decorations_line(s));
            } else {
                assert(line(out@) =~= before + seq![(seq![','], dim()), (seq![' '], no_style()), decoration_span(ds@[i as int])]);
            }
        }
        i = i + 1;
    }
    assert(ds@.subrange(0, ds@.len() as int) =~= ds@);
    out
}

/// The commit view: the decorations and a blank line (when there are any),
/// the displayed commit and a line break, then the diff summary in a
/// paragraph of its own when it is shown and the commit changed any file.
/// The patch, when shown, follows.
pub open spec fn commit_view(ds: Seq<Decoration>, commit: Styled, summary: Option<DiffSummary>, nerdfont: bool) -> Styled {
    (if ds.len() == 0 { Seq::empty() } else { decorations_line(ds) + seq![("\n\n"@, no_style())] })
        + commit + seq![(seq!['\n'], no_style())]
        + (match summary {
            Some(s) => if s.num_files != 0 {
                seq![(seq!['\n'], no_style())]
                    + summary_header_line(s.num_files as nat, s.insertions as nat, s.deletions as nat)
                    + files_lines(s.files@, nerdfont) + seq![(seq!['\n'], no_style())]
            } else {
                Seq::empty()
            },
            None => Seq::empty(),
        })
}

/// Lays out the commit view. `summary` is the diff summary when it is shown.
pub fn display_commit_view(ds: &Vec<Decoration>, commit: Vec<Span>, summary: Option<&DiffSummary>, nerdfont: bool) -> (res: Vec<Span>)
    ensures
        line(res@) == commit_view(ds@, line(commit@), match summary {
            Some(s) => Some(*s),
            None => None,
        }, nerdfont),
{
    let ghost cl = line(commit@);
    let mut out: Vec<Span> = Vec::new();
    if ds.len() > 0 {
        append_spans(&mut out, display_decorations(ds));
        push_str(&mut out, "\n\n", Style::none());
    }
    append_spans(&mut out, commit);
    let mut nl = String::new();
    nl.push('\n');
    push_span(&mut out, nl, Style::none());
    let ghost a = line(out@);
    match summary {
        Some(s) => {
            if s.num_files != 0 {
                let mut nl2 = String::new();
                nl2.push('\n');
                push_span(&mut out, nl2, Style::none());
                append_spans(&mut out, display_summary(s, nerdfont));
                let mut nl3 = String::new();
                nl3.push('\n');
                push_span(&mut out, nl3, Style::none());
            }
        },
        None => {},
    }
    proof {
        let sv = match summary {
            Some(s) => Some(*s),
            None => None,
        };
        let head = if ds@.len() == 0 { Seq::empty() } else { decorations_line(ds@) + seq![("\n\n"@, no_style())] };
        assert(a =~= head + cl + seq![(seq!['\n'], no_style())]);
        assert(line(out@) =~= commit_view(ds@, cl, sv, nerdfont));
    }
    out
}

} // verus!
