//! Wips: work in progress saved on a per-branch stack, addressed by wip specs
//! of the form `branch:index`.

use vstd::prelude::*;

use crate::cli::display::diff::{display_summary, files_lines, summary_header_line, DiffSummary};
use crate::cli::display::{dim, fg, green, no_style, red, usize_text};
use crate::cli::error::CliError;
use crate::text::{
    append_spans, dec, join, joined, line, push_span, push_str, views, Color, Span, Style,
};

verus! {

/// The message given when an operation needs a checked out branch.
pub open spec fn not_on_branch_msg() -> Seq<char> {
    "Not currently on a branch"@
}

/// A styled line as plain values.
pub type Styled = Seq<(Seq<char>, Style)>;

/// `branch:index`, the branch and index cyan and the colon dim.
pub open spec fn wipspec_line(branch: Seq<char>, index: nat) -> Styled {
    seq![(branch, fg(Color::Cyan)), (seq![':'], dim()), (dec(index), fg(Color::Cyan))]
}

/// Displays a wip spec: the branch, a dim colon, then the index.
pub fn display_wipspec(branch: &str, index: usize) -> (res: Vec<Span>)
    ensures
        line(res@) == wipspec_line(branch@, index as nat),
{
    let mut out: Vec<Span> = Vec::new();
    push_str(&mut out, branch, Style::fg(Color::Cyan));
    push_str(&mut out, ":", Style::dimmed());
    push_span(&mut out, usize_text(index), Style::fg(Color::Cyan));
    proof {
        reveal_strlit(":");
        assert(":"@ =~= seq![':']);
    }
    assert(line(out@) =~= wipspec_line(branch@, index as nat));
    out
}

/// A wip as listed: where it is, when it was made and its message.
#[derive(Debug)]
pub struct WipEntry {
    pub branch: String,
    pub index: usize,
    /// The displayed time of the wip
    pub time: String,
    pub message: String,
}

/// The line of one listed wip.
pub open spec fn wip_entry_line(e: WipEntry) -> Styled {
    wipspec_line(e.branch@, e.index as nat)
        + seq![(seq![' '], no_style()), (e.time@, fg(Color::Magenta)), (seq![' '], no_style()), (e.message@, no_style())]
}

/// The listed wips, one per line.
pub open spec fn wip_list_lines(entries: Seq<WipEntry>) -> Styled
    decreases entries.len(),
{
    if entries.len() == 0 {
        Seq::empty()
    } else if entries.len() == 1 {
        wip_entry_line(entries[0])
    } else {
        wip_list_lines(entries.drop_last()) + seq![(seq!['\n'], no_style())] + wip_entry_line(entries.last())
    }
}

/// Displays one listed wip.
pub fn display_wip_entry(e: &WipEntry) -> (res: Vec<Span>)
    ensures
        line(res@) == wip_entry_line(*e),
{
    let mut out = display_wipspec(e.branch.as_str(), e.index);
    proof {
        reveal_strlit(" ");
        assert(" "@ =~= seq![' ']);
    }
    push_str(&mut out, " ", Style::none());
    push_str(&mut out, e.time.as_str(), Style::fg(Color::Magenta));
    push_str(&mut out, " ", Style::none());
    push_str(&mut out, e.message.as_str(), Style::none());
    assert(line(out@) =~= wip_entry_line(*e));
    out
}

/// Displays a list of wips, one per line.
pub fn display_wip_list(entries: &Vec<WipEntry>) -> (res: Vec<Span>)
    ensures
        line(res@) == wip_list_lines(entries@),
{
    let mut out: Vec<Span> = Vec::new();
    let mut i: usize = 0;
    proof {
        reveal_strlit("\n");
        assert("\n"@ =~= seq!['\n']);
    }
    while i < entries.len()
        invariant
            i <= entries.len(),
            line(out@) == wip_list_lines(entries@.subrange(0, i as int)),
        decreases entries.len() - i,
    {
        let ghost s = entries@.subrange(0, i + 1);
        assert(s.drop_last() =~= entries@.subrange(0, i as int));
        let ghost before = line(out@);
        proof {
            reveal_strlit("\n");
            assert("\n"@ =~= seq!['\n']);
        }
        if i > 0 {
            push_str(&mut out, "\n", Style::none());
        }
        append_spans(&mut out, display_wip_entry(&entries[i]));
        proof {
            if i == 0 {
                assert(s.len() == 1);
                assert(line(out@) =~= wip_list_lines(s));
            } else {
                assert(s.last() == entries@[i as int]);
                assert(line(out@) =~= before + seq![(seq!['\n'], no_style())] + wip_entry_line(entries@[i as int]));
                assert(line(out@) =~= wip_list_lines(s));
            }
        }
        i = i + 1;
    }
    assert(entries@.subrange(0, entries.len() as int) =~= entries@);
    out
}

/// The error for a wip spec whose entry is missing.
pub open spec fn missing_entry_msg(index: nat) -> Seq<char> {
    "Entry "@ + dec(index) + " does not exist"@
}

/// `Entry n does not exist`.
pub fn missing_entry(index: usize) -> (res: CliError)
    ensures
        res matches CliError::Generic(m) && m@ == missing_entry_msg(index as nat),
{
    let mut m = String::from_str("Entry ");
    m.append(usize_text(index).as_str());
    m.append(" does not exist");
    CliError::Generic(m)
}

/// Options of `wip drop`.
#[derive(Debug)]
pub struct DropArgs {
    /// The wip-spec to drop
    pub spec: Option<String>,
}

impl DropArgs {
    /// Reports a dropped wip: `Dropped branch:index: message`. The wip spec
    /// was parsed to `branch` and `index`; `message` is the entry's message,
    /// or `None` when the list has no such entry, which is an error and drops
    /// nothing.
    pub fn run(&self, branch: &str, index: usize, message: Option<&str>) -> (res: Result<Vec<Span>, CliError>)
        ensures
            message is None ==> (res matches Err(CliError::Generic(m)) && m@ == missing_entry_msg(index as nat)),
            message matches Some(msg) ==> (res matches Ok(spans) && line(spans@) == seq![("Dropped"@, red()), (seq![' '], no_style())]
                + wipspec_line(branch@, index as nat) + seq![(": "@, no_style()), (msg@, no_style())]),
    {
        match message {
            None => Err(missing_entry(index)),
            Some(msg) => {
                let mut out: Vec<Span> = Vec::new();
                proof {
                    reveal_strlit(" ");
                    assert(" "@ =~= seq![' ']);
                }
                push_str(&mut out, "Dropped", Style::fg(Color::Red));
                push_str(&mut out, " ", Style::none());
                append_spans(&mut out, display_wipspec(branch, index));
                push_str(&mut out, ": ", Style::none());
                push_str(&mut out, msg, Style::none());
                assert(line(out@) =~= seq![("Dropped"@, red()), (seq![' '], no_style())]
                    + wipspec_line(branch@, index as nat) + seq![(": "@, no_style()), (msg@, no_style())]);
                Ok(out)
            },
        }
    }
}

/// Options of `wip list`.
#[derive(Debug)]
pub struct ListArgs {
    pub all: bool,
    pub branch: Option<String>,
}

impl ListArgs {
    /// The branch whose wips are listed (without `--all`): the one named, else
    /// the checked out one; it is an error when none is named and HEAD is not
    /// on a branch.
    pub fn target_branch(&self, current_branch: Option<&str>) -> (res: Result<String, CliError>)
        ensures
            self.branch matches Some(b) ==> (res matches Ok(r) && r@ == b@),
            self.branch is None ==> (match current_branch {
                Some(c) => res matches Ok(r) && r@ == c@,
                None => res matches Err(CliError::Generic(m)) && m@ == not_on_branch_msg(),
            }),
    {
        match &self.branch {
            Some(b) => Ok(b.clone()),
            None => match current_branch {
                Some(c) => Ok(String::from_str(c)),
                None => Err(CliError::Generic(String::from_str("Not currently on a branch"))),
            },
        }
    }
}

/// Options of `wip move`.
#[derive(Debug)]
pub struct MoveArgs {
    /// The wip to move. Defaults to the most recent one on the current branch.
    pub from: Option<String>,
    /// The destination branch. This is a branch name, not a wip spec
    pub to: String,
}

impl MoveArgs {
    /// Reports a moved wip: `Moved src:index -> dst:0`. A wip is always moved
    /// to the top of the destination list.
    pub fn run(&self, src_branch: &str, index: usize) -> (res: Vec<Span>)
        ensures
            line(res@) == seq![("Moved"@, green()), (seq![' '], no_style())] + wipspec_line(src_branch@, index as nat)
                + seq![(" -> "@, no_style())] + wipspec_line(self.to@, 0),
    {
        let mut out: Vec<Span> = Vec::new();
        proof {
            reveal_strlit(" ");
            assert(" "@ =~= seq![' ']);
        }
        push_str(&mut out, "Moved", Style::fg(Color::Green));
        push_str(&mut out, " ", Style::none());
        append_spans(&mut out, display_wipspec(src_branch, index));
        push_str(&mut out, " -> ", Style::none());
        append_spans(&mut out, display_wipspec(self.to.as_str(), 0));
        assert(line(out@) =~= seq![("Moved"@, green()), (seq![' '], no_style())] + wipspec_line(src_branch@, index as nat)
            + seq![(" -> "@, no_style())] + wipspec_line(self.to@, 0));
        out
    }
}

/// Options of `wip pop`.
#[derive(Debug)]
pub struct PopArgs {
    /// Don't drop the wip entry
    pub keep: bool,
    /// The wip-spec to pop
    pub spec: Option<String>,
}

/// The report of a popped wip.
pub open spec fn pop_report(branch: Seq<char>, index: nat, message: Seq<char>, conflicts: bool) -> Styled {
    if conflicts {
        seq![("Applied"@, fg(Color::Yellow)), (seq![' '], no_style())] + wipspec_line(branch, index)
            + seq![(" with conflicts: "@, no_style()), (message, no_style()), (seq!['\n'], no_style()),
                ("(wip entry was kept)"@, dim())]
    } else {
        seq![("Popped"@, green()), (seq![' '], no_style())] + wipspec_line(branch, index)
            + seq![(": "@, no_style()), (message, no_style())]
    }
}

impl PopArgs {
    /// Whether the entry is removed after it was applied: only when it
    /// applied without conflicts and `--keep` was not given.
    pub fn removes_entry(&self, conflicts: bool) -> (res: bool)
        ensures
            res == (!conflicts && !self.keep),
    {
        !conflicts && !self.keep
    }

    /// Reports an applied wip. With conflicts the entry is kept, and the
    /// report says so.
    pub fn report(&self, branch: &str, index: usize, message: &str, conflicts: bool) -> (res: Vec<Span>)
        ensures
            line(res@) == pop_report(branch@, index as nat, message@, conflicts),
    {
        let mut out: Vec<Span> = Vec::new();
        proof {
            reveal_strlit(" ");
            reveal_strlit("\n");
            assert(" "@ =~= seq![' ']);
            assert("\n"@ =~= seq!['\n']);
        }
        if conflicts {
            push_str(&mut out, "Applied", Style::fg(Color::Yellow));
            push_str(&mut out, " ", Style::none());
            append_spans(&mut out, display_wipspec(branch, index));
            push_str(&mut out, " with conflicts: ", Style::none());
            push_str(&mut out, message, Style::none());
            push_str(&mut out, "\n", Style::none());
            push_str(&mut out, "(wip entry was kept)", Style::dimmed());
        } else {
            push_str(&mut out, "Popped", Style::fg(Color::Green));
            push_str(&mut out, " ", Style::none());
            append_spans(&mut out, display_wipspec(branch, index));
            push_str(&mut out, ": ", Style::none());
            push_str(&mut out, message, Style::none());
        }
        assert(line(out@) =~= pop_report(branch@, index as nat, message@, conflicts));
        out
    }
}

/// Options of `wip push`.
#[derive(Debug)]
pub struct PushArgs {
    /// Push only staged changes, instead of the entire workdir
    pub staged: bool,
    /// Include untracked files
    pub untracked: bool,
    /// Keep changes in working directory
    pub keep: bool,
    /// Which branch to push to
    pub branch: Option<String>,
    /// Wip message
    pub message: Vec<String>,
}

impl PushArgs {
    /// The branch to push to: the one named, else the checked out one; it is
    /// an error when none is named and HEAD is not on a branch.
    pub fn target_branch(&self, current_branch: Option<&str>) -> (res: Result<String, CliError>)
        ensures
            self.branch matches Some(b) ==> (res matches Ok(r) && r@ == b@),
            self.branch is None ==> (match current_branch {
                Some(c) => res matches Ok(r) && r@ == c@,
                None => res matches Err(CliError::Generic(m)) && m@ == not_on_branch_msg(),
            }),
    {
        match &self.branch {
            Some(b) => Ok(b.clone()),
            None => match current_branch {
                Some(c) => Ok(String::from_str(c)),
                None => Err(CliError::Generic(String::from_str("Not currently on a branch"))),
            },
        }
    }

    /// The wip message: the words given, joined by spaces, or none.
    pub fn wip_message(&self) -> (res: Option<String>)
        ensures
            self.message@.len() == 0 ==> res is None,
            self.message@.len() > 0 ==> (res matches Some(m) && m@ == joined(views(self.message@), " "@)),
    {
        if self.message.len() == 0 {
            None
        } else {
            Some(join(&self.message, " "))
        }
    }

    /// `Pushed changes to branch`.
    pub fn report(&self, branch: &str) -> (res: Vec<Span>)
        ensures
            line(res@) == seq![("Pushed"@, green()), (" changes to "@, no_style()), (branch@, fg(Color::Cyan))],
    {
        let mut out: Vec<Span> = Vec::new();
        push_str(&mut out, "Pushed", Style::fg(Color::Green));
        push_str(&mut out, " changes to ", Style::none());
        push_str(&mut out, branch, Style::fg(Color::Cyan));
        out
    }
}

/// Options of `wip show`.
#[derive(Debug)]
pub struct ShowArgs {
    pub spec: Option<String>,
}

impl ShowArgs {
    /// Lays out a wip for the pager: its spec, a blank line, then the summary
    /// of its changes and a line break (the patch follows). `summary` is the
    /// diff of the entry, or `None` when the list has no such entry, which is
    /// an error.
    pub fn run(&self, branch: &str, index: usize, summary: Option<&DiffSummary>, nerdfont: bool) -> (res: Result<Vec<Span>, CliError>)
        ensures
            summary is None ==> (res matches Err(CliError::Generic(m)) && m@ == missing_entry_msg(index as nat)),
            summary matches Some(s) ==> (res matches Ok(spans) && line(spans@) == wipspec_line(branch@, index as nat)
                + seq![("\n\n"@, no_style())]
                + summary_header_line(s.num_files as nat, s.insertions as nat, s.deletions as nat)
                + files_lines(s.files@, nerdfont) + seq![(seq!['\n'], no_style())]),
    {
        match summary {
            None => Err(missing_entry(index)),
            Some(s) => {
                let mut out = display_wipspec(branch, index);
                push_str(&mut out, "\n\n", Style::none());
                append_spans(&mut out, display_summary(s, nerdfont));
                push_str(&mut out, "\n", Style::none());
                proof {
                    reveal_strlit("\n");
                    assert("\n"@ =~= seq!['\n']);
                }
                assert(line(out@) =~= wipspec_line(branch@, index as nat)
                    + seq![("\n\n"@, no_style())]
                    + summary_header_line(s.num_files as nat, s.insertions as nat, s.deletions as nat)
                    + files_lines(s.files@, nerdfont) + seq![(seq!['\n'], no_style())]);
                Ok(out)
            },
        }
    }
}

/// The wip subcommands.
#[derive(Debug)]
pub enum WipCommand {
    Push(PushArgs),
    Pop(PopArgs),
    Drop(DropArgs),
    List(ListArgs),
    Show(ShowArgs),
}

} // verus!
