//! The older branch list: a compact table, or the full view of a branch when
//! the pattern matches only one.

use vstd::prelude::*;

use crate::cli::branch_list::CompactRow;
use crate::cli::show::{
    commit_header_line, display_branch_rows, highlight_style, rows_part, BranchRow, CommitHeader, Highlight,
};
use crate::text::{append_spans, line, push_str, Span, Style};
use crate::cli::status::Styled;

verus! {

/// Options of the branch list.
#[derive(Debug)]
pub struct Args {
    /// Hides feature projects from output
    pub no_projects: Option<bool>,
    /// Hides git submodules from output
    pub no_modules: Option<bool>,
    /// Glob pattern to filter branch names
    pub pattern: Option<String>,
}

/// How the matched branches are shown.
#[derive(Clone, Copy, PartialEq, Eq, Structural, Debug)]
pub enum ListMode {
    /// The full view of the one branch matched
    Single,
    /// The compact table
    Table,
}

impl Args {
    /// A single match is shown in full; any other number as a table.
    pub fn list_mode(&self, matched: usize) -> (res: ListMode)
        ensures
            res == (if matched == 1 { ListMode::Single } else { ListMode::Table }),
    {
        if matched == 1 { ListMode::Single } else { ListMode::Table }
    }

    /// Whether subprojects are hidden, given whether the config shows them.
    pub fn hide_projects(&self, config_shows: bool) -> (res: bool)
        ensures
            res == (match self.no_projects { Some(h) => h, None => !config_shows }),
    {
        match self.no_projects { Some(h) => h, None => !config_shows }
    }

    /// Whether submodules are hidden, given whether the config shows them.
    pub fn hide_modules(&self, config_shows: bool) -> (res: bool)
        ensures
            res == (match self.no_modules { Some(h) => h, None => !config_shows }),
    {
        match self.no_modules { Some(h) => h, None => !config_shows }
    }
}

/// The longest a branch name is in the table before it is cut.
pub open spec fn name_limit() -> usize {
    30
}

/// Builds the row of a branch: its name cut to 30 columns and highlighted,
/// its counts, and its compact commit.
pub fn build_row(name: &str, highlight: Highlight, upstream: Option<(usize, usize)>, base: Option<(usize, usize)>,
    commit: Vec<Span>) -> (res: CompactRow)
    ensures
        line(res.branch@) == crate::cli::branch_list::name_cell(name@, highlight, name_limit(), false),
        res.upstream == upstream,
        res.base == base,
        res.commit@ == commit@,
{
    CompactRow {
        branch: crate::cli::branch_list::display_name_cell(name, highlight, 30, false),
        upstream,
        base,
        commit,
    }
}

/// The full view of a single branch: its name highlighted as in the table,
/// its commit, and its upstream/base table.
pub open spec fn single_branch(name: Seq<char>, highlight: Highlight, commit: CommitHeader, rows: Seq<BranchRow>,
    nerdfont: bool) -> Styled {
    seq![(name, highlight_style(highlight))] + commit_header_line(commit, nerdfont) + rows_part(rows, nerdfont)
}

/// Displays a single branch in high detail.
pub fn display_single_branch(name: &str, highlight: Highlight, commit: &CommitHeader, rows: &Vec<BranchRow>,
    nerdfont: bool) -> (res: Vec<Span>)
    ensures
        line(res@) == single_branch(name@, highlight, *commit, rows@, nerdfont),
{
    let view = crate::cli::show::display_commit_header_of(name, highlight, commit, nerdfont);
    let mut out = view;
    append_spans(&mut out, display_branch_rows(rows, nerdfont));
    out
}

} // verus!
