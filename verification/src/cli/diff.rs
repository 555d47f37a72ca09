//! A standalone diff summary: per-file line counts gathered from a diff's
//! deltas and lines, and the text that lists them.

use vstd::prelude::*;

use crate::cli::display::diff::FileStatus;
use crate::cli::display::{dim, fg, green, no_style, red};
use crate::cli::status::Styled;
use crate::text::{dec, line, push_span, push_str, u64_text, Color, Span, Style};

verus! {

/// What a diff walk reports, in order: each file, then its lines.
#[derive(Debug)]
pub enum DiffEvent {
    /// A changed file: its status and its old and new paths
    File { status: FileStatus, old: String, new: String },
    /// A line of the file last reported: an addition, a deletion or another
    Line { addition: bool, deletion: bool },
}

/// The counts of one file.
#[derive(Debug)]
pub struct FileChanges {
    pub status: FileStatus,
    pub old: String,
    pub new: String,
    pub insertions: u64,
    pub deletions: u64,
}

/// The files of a diff walk with their counts: each addition or deletion
/// counts toward the file reported last (and is dropped before any file).
pub open spec fn tally(events: Seq<DiffEvent>) -> Seq<(FileStatus, Seq<char>, Seq<char>, nat, nat)>
    decreases events.len(),
{
    if events.len() == 0 {
        Seq::empty()
    } else {
        let t = tally(events.drop_last());
        match events.last() {
            DiffEvent::File { status, old, new } => t.push((status, old@, new@, 0nat, 0nat)),
            DiffEvent::Line { addition, deletion } => if t.len() == 0 {
                t
            } else {
                let f = t.last();
                t.update(t.len() - 1, (f.0, f.1, f.2,
                    if addition { f.3 + 1 } else { f.3 },
                    if deletion && !addition { f.4 + 1 } else { f.4 }))
            },
        }
    }
}

/// The plain view of the counted files.
pub open spec fn changes_view(fs: Seq<FileChanges>) -> Seq<(FileStatus, Seq<char>, Seq<char>, nat, nat)> {
    fs.map_values(|f: FileChanges| (f.status, f.old@, f.new@, f.insertions as nat, f.deletions as nat))
}

/// Counts the lines of each file of a diff walk. The counts are `u64`, so
/// the walk has fewer lines than `u64::MAX`.
pub fn count_changes(events: &Vec<DiffEvent>) -> (res: Vec<FileChanges>)
    requires
        events@.len() < u64::MAX,
    ensures
        changes_view(res@) == tally(events@),
{
    let mut out: Vec<FileChanges> = Vec::new();
    let mut i: usize = 0;
    while i < events.len()
        invariant
            i <= events@.len(),
            events@.len() < u64::MAX,
            changes_view(out@) == tally(events@.subrange(0, i as int)),
            forall|k: int| 0 <= k < out@.len() ==> (#[trigger] out@[k]).insertions <= i && out@[k].deletions <= i,
        decreases events@.len() - i,
    {
        let ghost s = events@.subrange(0, i + 1);
        assert(s.drop_last() =~= events@.subrange(0, i as int));
        assert(s.last() == events@[i as int]);
        let ghost before = out@;
        match &events[i] {
            DiffEvent::File { status, old, new } => {
                out.push(FileChanges { status: *status, old: old.clone(), new: new.clone(), insertions: 0, deletions: 0 });
                assert(changes_view(out@) =~= changes_view(before).push((*status, old@, new@, 0nat, 0nat)));
            },
            DiffEvent::Line { addition, deletion } => {
                let n = out.len();
                if n > 0 {
                    let mut f = out.pop().unwrap();
                    if *addition {
                        f.insertions = f.insertions + 1;
                    } else if *deletion {
                        f.deletions = f.deletions + 1;
                    }
                    out.push(f);
                    proof {
                        let t = changes_view(before);
                        assert(changes_view(out@) =~= t.update(t.len() - 1, (t.last().0, t.last().1, t.last().2,
                            if *addition { t.last().3 + 1 } else { t.last().3 },
                            if *deletion && !*addition { t.last().4 + 1 } else { t.last().4 })));
                    }
                }
            },
        }
        i = i + 1;
    }
    assert(events@.subrange(0, events@.len() as int) =~= events@);
    out
}

/// The letter, style and name shown for a file.
pub open spec fn file_label(status: FileStatus, old: Seq<char>, new: Seq<char>) -> (char, Style, Seq<char>) {
    match status {
        FileStatus::Untracked => ('U', fg(Color::Cyan), new),
        FileStatus::Added => ('A', green(), new),
        FileStatus::Deleted => ('D', red(), old),
        FileStatus::Modified => ('M', fg(Color::Yellow), new),
        FileStatus::Renamed => ('R', fg(Color::Yellow), old + " -> "@ + new),
        FileStatus::Copied => ('C', green(), old + " -> "@ + new),
        _ => ('?', dim(), new),
    }
}

/// The line of a file: `  S name +i -d` and a line break.
pub open spec fn file_line(f: (FileStatus, Seq<char>, Seq<char>, nat, nat)) -> Styled {
    let l = file_label(f.0, f.1, f.2);
    seq![
        ("  "@, no_style()),
        (seq![l.0], l.1),
        (seq![' '] + l.2 + seq![' '], no_style()),
        (seq!['+'] + dec(f.3), green()),
        (seq![' '], no_style()),
        (seq!['-'] + dec(f.4), red()),
        (seq!['\n'], no_style()),
    ]
}

pub open spec fn file_lines(fs: Seq<(FileStatus, Seq<char>, Seq<char>, nat, nat)>) -> Styled
    decreases fs.len(),
{
    if fs.len() == 0 {
        Seq::empty()
    } else {
        file_lines(fs.drop_last()) + file_line(fs.last())
    }
}

/// The summary: `n file(s) changed [+i -d]` and a line break, then a line
/// per file.
pub open spec fn diff_summary_text(files: nat, insertions: nat, deletions: nat,
    fs: Seq<(FileStatus, Seq<char>, Seq<char>, nat, nat)>) -> Styled {
    seq![
        (dec(files), fg(Color::Cyan)),
        (if files == 1 { " file changed ["@ } else { " files changed ["@ }, no_style()),
        (seq!['+'] + dec(insertions), green()),
        (seq![' '], no_style()),
        (seq!['-'] + dec(deletions), red()),
        ("]\n"@, no_style()),
    ] + file_lines(fs)
}

fn signed_count(c: char, n: u64) -> (res: String)
    ensures
        res@ == seq![c] + dec(n as nat),
{
    let mut s = String::new();
    s.push(c);
    s.append(u64_text(n).as_str());
    s
}

fn push_file_line(out: &mut Vec<Span>, f: &FileChanges)
    ensures
        line(final(out)@) == line(old(out)@) + file_line((f.status, f.old@, f.new@, f.insertions as nat, f.deletions as nat)),
{
    push_str(out, "  ", Style::none());
    let (letter, st) = match f.status {
        FileStatus::Untracked => ('U', Style::fg(Color::Cyan)),
        FileStatus::Added => ('A', Style::fg(Color::Green)),
        FileStatus::Deleted => ('D', Style::fg(Color::Red)),
        FileStatus::Modified => ('M', Style::fg(Color::Yellow)),
        FileStatus::Renamed => ('R', Style::fg(Color::Yellow)),
        FileStatus::Copied => ('C', Style::fg(Color::Green)),
        _ => ('?', Style::dimmed()),
    };
    let ghost lab = file_label(f.status, f.old@, f.new@);
    assert(letter == lab.0 && st == lab.1);
    let mut l = String::new();
    l.push(letter);
    assert(l@ =~= seq![letter]);
    push_span(out, l, st);
    let mut name = String::new();
    name.push(' ');
    match f.status {
        FileStatus::Deleted => name.append(f.old.as_str()),
        FileStatus::Renamed | FileStatus::Copied => {
            name.append(f.old.as_str());
            name.append(" -> ");
            name.append(f.new.as_str());
        },
        _ => name.append(f.new.as_str()),
    }
    name.push(' ');
    assert(name@ =~= seq![' '] + lab.2 + seq![' ']);
    push_span(out, name, Style::none());
    push_span(out, signed_count('+', f.insertions), Style::fg(Color::Green));
    let mut sp = String::new();
    sp.push(' ');
    push_span(out, sp, Style::none());
    push_span(out, signed_count('-', f.deletions), Style::fg(Color::Red));
    let mut nl = String::new();
    nl.push('\n');
    push_span(out, nl, Style::none());
    assert(line(out@) =~= line(old(out)@) + file_line((f.status, f.old@, f.new@, f.insertions as nat, f.deletions as nat)));
}

/// Builds the summary of a diff: the totals (from the diff's stats), then
/// each counted file.
pub fn display_diff_summary(files: u64, insertions: u64, deletions: u64, changes: &Vec<FileChanges>) -> (res: Vec<Span>)
    ensures
        line(res@) == diff_summary_text(files as nat, insertions as nat, deletions as nat, changes_view(changes@)),
{
    let mut out: Vec<Span> = Vec::new();
    push_span(&mut out, u64_text(files), Style::fg(Color::Cyan));
    if files == 1 {
        push_str(&mut out, " file changed [", Style::none());
    } else {
        push_str(&mut out, " files changed [", Style::none());
    }
    push_span(&mut out, signed_count('+', insertions), Style::fg(Color::Green));
    let mut sp = String::new();
    sp.push(' ');
    push_span(&mut out, sp, Style::none());
    push_span(&mut out, signed_count('-', deletions), Style::fg(Color::Red));
    push_str(&mut out, "]\n", Style::none());
    let ghost head = line(out@);
    let mut i: usize = 0;
    while i < changes.len()
        invariant
            i <= changes@.len(),
            line(out@) == head + file_lines(changes_view(changes@.subrange(0, i as int))),
        decreases changes@.len() - i,
    {
        let ghost s = changes@.subrange(0, i + 1);
        assert(changes_view(s).drop_last() =~= changes_view(changes@.subrange(0, i as int)));
        push_file_line(&mut out, &changes[i]);
        i = i + 1;
    }
    assert(changes@.subrange(0, changes@.len() as int) =~= changes@);
    out
}

} // verus!
