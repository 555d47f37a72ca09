//! Diff summaries: a header with totals and one line per changed file.

use vstd::prelude::*;

use crate::cli::display::{
    display_plus_minus, dim, fg, no_style, plus_minus_line, usize_text,
};
use crate::text::{append_spans, dec, line, push_span, push_str, Color, Span, Style};

verus! {

/// The kind of change made to a file.
#[derive(Clone, Copy, PartialEq, Eq, Structural, Debug)]
pub enum FileStatus {
    Unmodified,
    Added,
    Deleted,
    Modified,
    Renamed,
    Copied,
    Ignored,
    Untracked,
    Typechange,
    Unreadable,
    Conflicted,
}

/// One changed file of a diff.
#[derive(Debug)]
pub struct DiffFileSummary {
    pub status: FileStatus,
    /// The (new) path of the file.
    pub name: String,
    /// The old path, for renames and copies.
    pub similar_old: String,
    pub insertions: usize,
    pub deletions: usize,
}

/// The totals of a diff and its changed files.
#[derive(Debug)]
pub struct DiffSummary {
    pub num_files: usize,
    pub insertions: usize,
    pub deletions: usize,
    pub files: Vec<DiffFileSummary>,
}

impl DiffSummary {
    /// Whether no file was changed.
    pub fn is_empty(&self) -> (res: bool)
        ensures
            res == (self.files@.len() == 0),
    {
        self.files.len() == 0
    }
}

/// `[` content `]` with dim brackets.
pub open spec fn bracketed(content: Seq<(Seq<char>, Style)>) -> Seq<(Seq<char>, Style)> {
    seq![(seq!['['], dim())] + content + seq![(seq![']'], dim())]
}

/// Wraps a styled line in dim brackets.
pub fn dim_brackets(content: Vec<Span>) -> (res: Vec<Span>)
    ensures
        line(res@) == bracketed(line(content@)),
{
    let ghost cl = line(content@);
    let mut out: Vec<Span> = Vec::new();
    push_str(&mut out, "[", Style::dimmed());
    append_spans(&mut out, content);
    push_str(&mut out, "]", Style::dimmed());
    proof {
        reveal_strlit("[");
        reveal_strlit("]");
        assert("["@ =~= seq!['[']);
        assert("]"@ =~= seq![']']);
    }
    assert(line(out@) =~= bracketed(cl));
    out
}

/// `N file(s) changed [+i -d]`.
pub open spec fn summary_header_line(num_files: nat, insertions: nat, deletions: nat) -> Seq<(Seq<char>, Style)> {
    seq![
        (dec(num_files), fg(Color::Cyan)),
        (if num_files == 1 { " file changed "@ } else { " files changed "@ }, no_style()),
    ] + bracketed(plus_minus_line(insertions, deletions))
}

/// Default display format for the header line. Shows number of files changed
/// and total insertions/deletions.
pub fn display_summary_header(summary: &DiffSummary) -> (res: Vec<Span>)
    ensures
        line(res@) == summary_header_line(summary.num_files as nat, summary.insertions as nat, summary.deletions as nat),
{
    let mut out: Vec<Span> = Vec::new();
    push_span(&mut out, usize_text(summary.num_files), Style::fg(Color::Cyan));
    if summary.num_files == 1 {
        push_str(&mut out, " file changed ", Style::none());
    } else {
        push_str(&mut out, " files changed ", Style::none());
    }
    let counts = dim_brackets(display_plus_minus(summary.insertions, summary.deletions));
    append_spans(&mut out, counts);
    assert(line(out@) =~= summary_header_line(summary.num_files as nat, summary.insertions as nat, summary.deletions as nat));
    out
}

/// The status letter (or nerd font icon) and its style.
pub open spec fn status_icon(status: FileStatus, nerdfont: bool) -> (Seq<char>, Style) {
    match status {
        FileStatus::Unmodified => (seq!['='], dim()),
        FileStatus::Added => (if nerdfont { seq!['\u{f4d0}'] } else { seq!['A'] }, fg(Color::Green)),
        FileStatus::Deleted => (if nerdfont { seq!['\u{f4d6}'] } else { seq!['D'] }, fg(Color::Red)),
        FileStatus::Modified => (if nerdfont { seq!['\u{f4d2}'] } else { seq!['M'] }, fg(Color::Yellow)),
        FileStatus::Untracked => (if nerdfont { seq!['\u{f0613}'] } else { seq!['U'] }, fg(Color::Cyan)),
        FileStatus::Conflicted => (if nerdfont { seq!['\u{f0a4c}'] } else { seq!['X'] }, fg(Color::Red)),
        FileStatus::Renamed => (if nerdfont { seq!['\u{f4d5}'] } else { seq!['R'] }, fg(Color::Magenta)),
        FileStatus::Copied => (if nerdfont { seq!['\u{ebcc}'] } else { seq!['C'] }, fg(Color::Magenta)),
        FileStatus::Ignored => (seq!['I'], dim()),
        FileStatus::Typechange => (seq!['T'], fg(Color::Yellow)),
        FileStatus::Unreadable => (seq!['?'], fg(Color::Red)),
    }
}

/// Whether the line of a file shows its old path (`old -> new`).
pub open spec fn shows_old_path(status: FileStatus) -> bool {
    status == FileStatus::Renamed || status == FileStatus::Copied
}

/// Whether the line of a file shows insertion/deletion counts.
pub open spec fn shows_counts(status: FileStatus) -> bool {
    match status {
        FileStatus::Added | FileStatus::Deleted | FileStatus::Modified | FileStatus::Renamed
        | FileStatus::Copied | FileStatus::Typechange => true,
        _ => false,
    }
}

/// The line of one changed file.
pub open spec fn file_summary_line(f: DiffFileSummary, nerdfont: bool) -> Seq<(Seq<char>, Style)> {
    seq![status_icon(f.status, nerdfont), (seq![' '], no_style())]
        + (if shows_old_path(f.status) {
            seq![(f.similar_old@, no_style()), (" -> "@, no_style())]
        } else {
            Seq::empty()
        })
        + seq![(f.name@, no_style())]
        + (if shows_counts(f.status) {
            seq![(seq![' '], no_style())] + plus_minus_line(f.insertions as nat, f.deletions as nat)
        } else {
            Seq::empty()
        })
}

fn icon(status: FileStatus, nerdfont: bool) -> (res: (String, Style))
    ensures
        (res.0@, res.1) == status_icon(status, nerdfont),
{
    let mut s = String::new();
    let st = match status {
        FileStatus::Unmodified => { s.push('='); Style::dimmed() },
        FileStatus::Added => { s.push(if nerdfont { '\u{f4d0}' } else { 'A' }); Style::fg(Color::Green) },
        FileStatus::Deleted => { s.push(if nerdfont { '\u{f4d6}' } else { 'D' }); Style::fg(Color::Red) },
        FileStatus::Modified => { s.push(if nerdfont { '\u{f4d2}' } else { 'M' }); Style::fg(Color::Yellow) },
        FileStatus::Untracked => { s.push(if nerdfont { '\u{f0613}' } else { 'U' }); Style::fg(Color::Cyan) },
        FileStatus::Conflicted => { s.push(if nerdfont { '\u{f0a4c}' } else { 'X' }); Style::fg(Color::Red) },
        FileStatus::Renamed => { s.push(if nerdfont { '\u{f4d5}' } else { 'R' }); Style::fg(Color::Magenta) },
        FileStatus::Copied => { s.push(if nerdfont { '\u{ebcc}' } else { 'C' }); Style::fg(Color::Magenta) },
        FileStatus::Ignored => { s.push('I'); Style::dimmed() },
        FileStatus::Typechange => { s.push('T'); Style::fg(Color::Yellow) },
        FileStatus::Unreadable => { s.push('?'); Style::fg(Color::Red) },
    };
    assert(s@ =~= status_icon(status, nerdfont).0);
    (s, st)
}

/// Displays one changed file: its status, its path (old and new for renames
/// and copies) and, for content changes, its insertions and deletions.
pub fn display_file_summary(file: &DiffFileSummary, nerdfont: bool) -> (res: Vec<Span>)
    ensures
        line(res@) == file_summary_line(*file, nerdfont),
{
    let mut out: Vec<Span> = Vec::new();
    let (i, st) = icon(file.status, nerdfont);
    push_span(&mut out, i, st);
    push_str(&mut out, " ", Style::none());
    proof {
        reveal_strlit(" ");
        assert(" "@ =~= seq![' ']);
    }
    let ghost a = line(out@);
    let old_path = file.status == FileStatus::Renamed || file.status == FileStatus::Copied;
    if old_path {
        push_str(&mut out, file.similar_old.as_str(), Style::none());
        push_str(&mut out, " -> ", Style::none());
    }
    let ghost b = line(out@);
    push_str(&mut out, file.name.as_str(), Style::none());
    let ghost c = line(out@);
    let counts = match file.status {
        FileStatus::Added | FileStatus::Deleted | FileStatus::Modified | FileStatus::Renamed
        | FileStatus::Copied | FileStatus::Typechange => true,
        _ => false,
    };
    if counts {
        push_str(&mut out, " ", Style::none());
        let pm = display_plus_minus(file.insertions, file.deletions);
        append_spans(&mut out, pm);
    }
    proof {
        let mid = if shows_old_path(file.status) {
            seq![(file.similar_old@, no_style()), (" -> "@, no_style())]
        } else {
            Seq::empty()
        };
        assert(b =~= a + mid);
        let tail = if shows_counts(file.status) {
            seq![(seq![' '], no_style())] + plus_minus_line(file.insertions as nat, file.deletions as nat)
        } else {
            Seq::empty()
        };
        assert(line(out@) =~= c + tail);
        assert(line(out@) =~= file_summary_line(*file, nerdfont));
    }
    out
}

/// The lines of the files, each on a new line indented by two spaces.
pub open spec fn files_lines(files: Seq<DiffFileSummary>, nerdfont: bool) -> Seq<(Seq<char>, Style)>
    decreases files.len(),
{
    if files.len() == 0 {
        Seq::empty()
    } else {
        files_lines(files.drop_last(), nerdfont) + seq![("\n  "@, no_style())]
            + file_summary_line(files.last(), nerdfont)
    }
}

fn push_files(out: &mut Vec<Span>, files: &Vec<DiffFileSummary>, nerdfont: bool)
    ensures
        line(final(out)@) == line(old(out)@) + files_lines(files@, nerdfont),
{
    let mut i: usize = 0;
    while i < files.len()
        invariant
            i <= files.len(),
            line(out@) == line(old(out)@) + files_lines(files@.subrange(0, i as int), nerdfont),
        decreases files.len() - i,
    {
        let ghost before = line(out@);
        push_str(out, "\n  ", Style::none());
        append_spans(out, display_file_summary(&files[i], nerdfont));
        proof {
            let s = files@.subrange(0, i + 1);
            assert(s.drop_last() =~= files@.subrange(0, i as int));
            assert(line(out@) =~= line(old(out)@) + files_lines(s, nerdfont));
        }
        i = i + 1;
    }
    assert(files@.subrange(0, files.len() as int) =~= files@);
}

/// The header line followed by one line per changed file.
pub fn display_summary(summary: &DiffSummary, nerdfont: bool) -> (res: Vec<Span>)
    ensures
        line(res@) == summary_header_line(summary.num_files as nat, summary.insertions as nat, summary.deletions as nat)
            + files_lines(summary.files@, nerdfont),
{
    let mut out = display_summary_header(summary);
    push_files(&mut out, &summary.files, nerdfont);
    out
}

/// Display a diff summary with a custom header line.
pub fn display_summary_with_header(summary: &DiffSummary, header: Vec<Span>, nerdfont: bool) -> (res: Vec<Span>)
    ensures
        line(res@) == line(header@) + files_lines(summary.files@, nerdfont),
{
    let mut out = header;
    push_files(&mut out, &summary.files, nerdfont);
    out
}

} // verus!
