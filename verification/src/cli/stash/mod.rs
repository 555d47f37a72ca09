//! Branch stashes: per-branch stash stacks kept in the reflog of
//! `refs/feature/stashes/<branch>`.

use vstd::prelude::*;

use crate::cli::display::diff::{display_summary, files_lines, summary_header_line, DiffSummary};
use crate::cli::display::{dim, fg, green, no_style, red};
use crate::cli::error::CliError;
use crate::cli::status::Styled;
use crate::cli::wip::{display_wip_list, display_wipspec, wip_list_lines, wipspec_line, WipEntry};
use crate::text::{append_spans, join, joined, line, push_span, push_str, views, Color, Span, Style};

verus! {

/// Options of `stash drop`.
#[derive(Debug)]
pub struct DropArgs {
    pub spec: Option<String>,
}

/// Options of `stash list`.
#[derive(Clone, Copy, PartialEq, Eq, Structural, Debug)]
pub struct ListArgs {
    pub all: bool,
}

/// Options of `stash pop`.
#[derive(Clone, Copy, PartialEq, Eq, Structural, Debug)]
pub struct PopArgs {
    /// Don't drop the stash entry
    pub keep: bool,
    /// Which stash to pop
    pub index: Option<usize>,
}

/// Options of `stash push`.
#[derive(Debug)]
pub struct PushArgs {
    /// Stash only staged changes, instead of the entire workdir
    pub staged: bool,
    /// Include untracked files
    pub untracked: bool,
    /// Keep stashed files in working directory
    pub keep: bool,
    /// Stash message
    pub message: Vec<String>,
}

/// Options of `stash show`.
#[derive(Debug)]
pub struct ShowArgs {
    pub spec: Option<String>,
}

/// The stash subcommands.
#[derive(Debug)]
pub enum StashCommand {
    Push(PushArgs),
    Pop(PopArgs),
    Drop(DropArgs),
    List(ListArgs),
    Show(ShowArgs),
}

/// The reference whose reflog holds a branch's stashes.
pub fn stash_refname(branch: &str) -> (res: String)
    ensures
        res@ == "refs/feature/stashes/"@ + branch@,
{
    let mut s = String::from_str("refs/feature/stashes/");
    s.append(branch);
    s
}

/// The stash reference is deleted once its last entry is gone.
pub fn deletes_ref(remaining: usize) -> (res: bool)
    ensures
        res == (remaining == 0),
{
    remaining == 0
}

/// The error when HEAD is not on a branch.
pub fn not_on_branch() -> (res: CliError)
    ensures
        res matches CliError::Generic(m) && m@ == "Not currently on a branch"@,
{
    CliError::Generic(String::from_str("Not currently on a branch"))
}

impl DropArgs {
    /// Reports a dropped stash: `Dropped branch:n: message`; an error when
    /// there is no such entry (`message` is `None`).
    pub fn run(&self, branch: &str, index: usize, message: Option<&str>) -> (res: Result<Vec<Span>, CliError>)
        ensures
            message is None ==> (res matches Err(CliError::Generic(m)) && m@ == crate::cli::wip::missing_entry_msg(index as nat)),
            message matches Some(msg) ==> (res matches Ok(spans) && line(spans@) == seq![("Dropped"@, red()), (seq![' '], no_style())]
                + wipspec_line(branch@, index as nat) + seq![(": "@, no_style()), (msg@, no_style())]),
    {
        crate::cli::wip::DropArgs { spec: None }.run(branch, index, message)
    }
}

impl ListArgs {
    /// Lists a branch's stashes, one per line: its spec, when it was made
    /// and its message.
    pub fn display_stash_list(entries: &Vec<WipEntry>) -> (res: Vec<Span>)
        ensures
            line(res@) == wip_list_lines(entries@),
    {
        display_wip_list(entries)
    }
}

/// The report of a popped stash.
pub open spec fn pop_report(message: Seq<char>, conflicts: bool) -> Styled {
    if conflicts {
        seq![("Applied"@, fg(Color::Yellow)), (" with conflicts: "@ + message + seq!['\n'], no_style()),
            ("(stash entry was kept)"@, dim())]
    } else {
        seq![("Popped"@, green()), (": "@ + message, no_style())]
    }
}

impl PopArgs {
    /// The entry to pop: the one given, else the most recent.
    pub fn entry(&self) -> (res: usize)
        ensures
            res == (match self.index { Some(i) => i, None => 0 }),
    {
        match self.index { Some(i) => i, None => 0 }
    }

    /// The error when the stack has no such entry.
    pub fn no_entries() -> (res: CliError)
        ensures
            res matches CliError::Generic(m) && m@ == "There are no stash entries!"@,
    {
        CliError::Generic(String::from_str("There are no stash entries!"))
    }

    /// Whether the entry is removed after applying it: only without conflicts
    /// and without `--keep`.
    pub fn removes_entry(&self, conflicts: bool) -> (res: bool)
        ensures
            res == (!conflicts && !self.keep),
    {
        !conflicts && !self.keep
    }

    /// Reports an applied stash.
    pub fn report(message: &str, conflicts: bool) -> (res: Vec<Span>)
        ensures
            line(res@) == pop_report(message@, conflicts),
    {
        let mut out: Vec<Span> = Vec::new();
        if conflicts {
            push_str(&mut out, "Applied", Style::fg(Color::Yellow));
            let mut m = String::from_str(" with conflicts: ");
            m.append(message);
            m.push('\n');
            assert(m@ =~= " with conflicts: "@ + message@ + seq!['\n']);
            push_span(&mut out, m, Style::none());
            push_str(&mut out, "(stash entry was kept)", Style::dimmed());
        } else {
            push_str(&mut out, "Popped", Style::fg(Color::Green));
            let mut m = String::from_str(": ");
            m.append(message);
            push_span(&mut out, m, Style::none());
        }
        assert(line(out@) =~= pop_report(message@, conflicts));
        out
    }
}

/// How the stashed changes leave the working directory.
#[derive(Clone, Copy, PartialEq, Eq, Structural, Debug)]
pub enum Cleanup {
    /// They stay (`--keep`)
    Keep,
    /// The unstaged changes are checked out over HEAD and the index reset
    /// (`--staged`)
    KeepUnstaged,
    /// Hard reset to HEAD
    Reset,
}

impl PushArgs {
    /// The stash message: the words joined by spaces.
    pub fn stash_message(&self) -> (res: String)
        ensures
            res@ == joined(views(self.message@), " "@),
    {
        join(&self.message, " ")
    }

    /// How the working directory is cleaned up after stashing.
    pub fn cleanup(&self) -> (res: Cleanup)
        ensures
            self.keep ==> res == Cleanup::Keep,
            !self.keep && self.staged ==> res == Cleanup::KeepUnstaged,
            !self.keep && !self.staged ==> res == Cleanup::Reset,
    {
        if self.keep {
            Cleanup::Keep
        } else if self.staged {
            Cleanup::KeepUnstaged
        } else {
            Cleanup::Reset
        }
    }

    /// `Stashed changes on <branch>`.
    pub fn report(branch: &str) -> (res: Vec<Span>)
        ensures
            line(res@) == seq![("Stashed"@, green()), (" changes on "@, no_style()), (branch@, fg(Color::Cyan))],
    {
        let mut out: Vec<Span> = Vec::new();
        push_str(&mut out, "Stashed", Style::fg(Color::Green));
        push_str(&mut out, " changes on ", Style::none());
        push_str(&mut out, branch, Style::fg(Color::Cyan));
        out
    }
}

impl ShowArgs {
    /// Lays out a stash for the pager: `Stash branch:n`, a blank line, the
    /// summary of its changes, a blank line (the patch follows); an error
    /// when there is no such entry (`summary` is `None`).
    pub fn run(&self, branch: &str, index: usize, summary: Option<&DiffSummary>, nerdfont: bool) -> (res: Result<Vec<Span>, CliError>)
        ensures
            summary is None ==> (res matches Err(CliError::Generic(m)) && m@ == crate::cli::wip::missing_entry_msg(index as nat)),
            summary matches Some(s) ==> (res matches Ok(spans) && line(spans@) == seq![("Stash "@, no_style())]
                + wipspec_line(branch@, index as nat) + seq![("\n\n"@, no_style())]
                + summary_header_line(s.num_files as nat, s.insertions as nat, s.deletions as nat)
                + files_lines(s.files@, nerdfont) + seq![("\n\n"@, no_style())]),
    {
        match summary {
            None => Err(crate::cli::wip::missing_entry(index)),
            Some(s) => {
                let mut out: Vec<Span> = Vec::new();
                push_str(&mut out, "Stash ", Style::none());
                append_spans(&mut out, display_wipspec(branch, index));
                push_str(&mut out, "\n\n", Style::none());
                append_spans(&mut out, display_summary(s, nerdfont));
                push_str(&mut out, "\n\n", Style::none());
                Ok(out)
            },
        }
    }
}

} // verus!
