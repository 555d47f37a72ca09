//! The version list: semver tags from highest to lowest, each with the
//! commits since the previous version, and the full view of one tag.

use vstd::prelude::*;

use crate::cli::display::diff::{display_summary_header, summary_header_line, DiffSummary};
use crate::cli::display::{dim, fg, green, no_style, usize_text};
use crate::cli::error::CliError;
use crate::cli::show::{prev_part, tagger_part, Tagger};
use crate::cli::status::{nf, Styled};
use crate::text::{
    append_spans, dec, flat, line, measure_width, printable_ascii, push_span, push_str, render, space_text, spaces,
    text_width, Color, Span, Style,
};

verus! {

/// Options of the version list.
#[derive(Debug)]
pub struct Args {
    /// Hides feature projects from output
    pub no_projects: Option<bool>,
    /// Hides git submodules from output
    pub no_modules: Option<bool>,
    /// View detailed info about a particular tag
    pub tag: Option<String>,
}

/// A semver tag's version.
#[derive(Clone, Copy, PartialEq, Eq, Structural, Debug)]
pub struct Semver {
    pub major: u64,
    pub minor: u64,
    pub patch: u64,
}

/// Whether version `a` is below version `b`.
pub open spec fn semver_lt(a: Semver, b: Semver) -> bool {
    a.major < b.major || (a.major == b.major && (a.minor < b.minor || (a.minor == b.minor && a.patch < b.patch)))
}

/// Whether the versions run from highest to lowest.
pub open spec fn descending(vs: Seq<Semver>) -> bool {
    forall|i: int, j: int| 0 <= i < j < vs.len() ==> !semver_lt(#[trigger] vs[i], #[trigger] vs[j])
}

fn semver_below(a: Semver, b: Semver) -> (res: bool)
    ensures
        res == semver_lt(a, b),
{
    a.major < b.major || (a.major == b.major && (a.minor < b.minor || (a.minor == b.minor && a.patch < b.patch)))
}

/// Sorts versions from highest to lowest.
pub fn sort_descending(vs: Vec<Semver>) -> (res: Vec<Semver>)
    ensures
        descending(res@),
        res@.to_multiset() == vs@.to_multiset(),
{
    let mut out: Vec<Semver> = Vec::new();
    let mut k: usize = 0;
    proof {
        broadcast use vstd::seq_lib::group_to_multiset_ensures;
        assert(vs@.subrange(0, 0) =~= Seq::<Semver>::empty());
        assert(out@ =~= Seq::<Semver>::empty());
    }
    while k < vs.len()
        invariant
            k <= vs@.len(),
            descending(out@),
            out@.to_multiset() == vs@.subrange(0, k as int).to_multiset(),
        decreases vs@.len() - k,
    {
        let v = vs[k];
        let mut p: usize = out.len();
        while p > 0 && semver_below(out[p - 1], v)
            invariant
                p <= out@.len(),
                forall|i: int| p <= i < out@.len() ==> semver_lt(#[trigger] out@[i], v),
            decreases p,
        {
            p = p - 1;
        }
        let ghost prev = out@;
        out.insert(p, v);
        proof {
            assert(out@ =~= prev.insert(p as int, v));
            assert forall|i: int, j: int| 0 <= i < j < out@.len() implies !semver_lt(#[trigger] out@[i], #[trigger] out@[j]) by {
                if i == p {
                    assert(out@[j] == prev[j - 1]);
                } else if j == p {
                    assert(out@[i] == prev[i]);
                    if p > 0 {
                        assert(!semver_lt(prev[p - 1], v));
                    }
                } else if i < p && j < p {
                    assert(out@[i] == prev[i] && out@[j] == prev[j]);
                } else if i < p && j > p {
                    assert(out@[i] == prev[i] && out@[j] == prev[j - 1]);
                } else {
                    assert(out@[i] == prev[i - 1] && out@[j] == prev[j - 1]);
                }
            }
            vstd::seq_lib::to_multiset_insert(prev, p as int, v);
            assert(vs@.subrange(0, k + 1) =~= vs@.subrange(0, k as int).push(v));
            vstd::seq_lib::to_multiset_build(vs@.subrange(0, k as int), v);
        }
        k = k + 1;
    }
    assert(vs@.subrange(0, vs@.len() as int) =~= vs@);
    out
}

/// One tag of the list, as displayed.
#[derive(Debug)]
pub struct TagRow {
    pub tag: String,
    /// The tagger (annotated) or the commit author (lightweight)
    pub author: String,
    pub time: String,
    pub msg: String,
    /// Commits since the previous version
    pub since_prev: Option<usize>,
}

/// What a row is made from: an annotated tag's tagger and message, when it
/// has them, else its commit's.
#[derive(Debug)]
pub struct TagRowFacts {
    pub name: String,
    /// For an annotated tag: its tagger's name and displayed time, if any, and
    /// its message, if any
    pub annotation: Option<(Option<(String, String)>, Option<String>)>,
    pub commit_author: String,
    pub commit_time: String,
    /// The commit's subject, or its message when it has none
    pub commit_text: String,
    pub since_prev: Option<usize>,
}

/// The row of a tag.
pub open spec fn row_of(f: TagRowFacts, r: TagRow) -> bool {
    &&& r.tag@ == f.name@
    &&& r.since_prev == f.since_prev
    &&& match f.annotation {
        Some(a) => {
            &&& match a.0 {
                Some(t) => r.author@ == t.0@ && r.time@ == t.1@,
                None => r.author@ == f.commit_author@ && r.time@ == f.commit_time@,
            }
            &&& r.msg@ == match a.1 {
                Some(m) => m@,
                None => f.commit_text@,
            }
        },
        None => r.author@ == f.commit_author@ && r.time@ == f.commit_time@ && r.msg@ == f.commit_text@,
    }
}

/// Builds the row of a tag.
pub fn build_row(f: &TagRowFacts) -> (res: TagRow)
    ensures
        row_of(*f, res),
{
    let (author, time, msg) = match &f.annotation {
        Some((tagger, message)) => {
            let (a, t) = match tagger {
                Some((n, t)) => (n.clone(), t.clone()),
                None => (f.commit_author.clone(), f.commit_time.clone()),
            };
            let m = match message {
                Some(m) => m.clone(),
                None => f.commit_text.clone(),
            };
            (a, t, m)
        },
        None => (f.commit_author.clone(), f.commit_time.clone(), f.commit_text.clone()),
    };
    TagRow { tag: f.name.clone(), author, time, msg, since_prev: f.since_prev }
}

/// The width of a row's left part: the name, and ` +n` when it has a count.
pub open spec fn row_width(r: TagRow) -> nat {
    text_width(r.tag@) as nat + match r.since_prev {
        Some(d) => dec(d as nat).len() + 2,
        None => 0,
    }
}

/// The width of the left column: the widest row.
pub open spec fn column_width(rows: Seq<TagRow>) -> nat
    decreases rows.len(),
{
    if rows.len() == 0 {
        0
    } else {
        let rest = column_width(rows.drop_last());
        let w = row_width(rows.last());
        if w > rest { w } else { rest }
    }
}

/// One line of the list: the name bold, padding, ` +n` green, then who made
/// it, when, and its message, dimmed.
pub open spec fn tag_line(r: TagRow, width: nat) -> Styled {
    let dist = match r.since_prev {
        Some(d) => seq![(seq![' '], no_style()), (seq!['+'] + dec(d as nat), green())],
        None => Seq::empty(),
    };
    seq![(r.tag@, Style { color: Color::Default, bold: true, dim: false })]
        + seq![(spaces((width - row_width(r)) as nat), no_style())]
        + dist
        + seq![(seq![' '], no_style()), (r.author@ + ", "@ + r.time@ + " \u{b7} "@ + r.msg@, dim())]
}

pub open spec fn tag_lines(rows: Seq<TagRow>, width: nat) -> Styled
    decreases rows.len(),
{
    if rows.len() == 0 {
        Seq::empty()
    } else if rows.len() == 1 {
        tag_line(rows[0], width)
    } else {
        tag_lines(rows.drop_last(), width) + seq![(seq!['\n'], no_style())] + tag_line(rows.last(), width)
    }
}

proof fn lemma_column_width_bound(rows: Seq<TagRow>, i: int)
    requires
        0 <= i < rows.len(),
    ensures
        row_width(rows[i]) <= column_width(rows),
    decreases rows.len(),
{
    if i < rows.len() - 1 {
        lemma_column_width_bound(rows.drop_last(), i);
    }
}

/// The commit counts of every tag end in the same column: in each laid-out
/// line the tag name is followed by padding as wide as the column less the
/// widths of the name and of ` +n`.
pub proof fn lemma_counts_end_in_one_column(rows: Seq<TagRow>, i: int)
    requires
        0 <= i < rows.len(),
    ensures
        ({
            let l = tag_line(rows[i], column_width(rows));
            &&& l[0].0 == rows[i].tag@
            &&& text_width(rows[i].tag@) + l[1].0.len() + (match rows[i].since_prev {
                Some(d) => (seq![' '] + seq!['+'] + dec(d as nat)).len(),
                None => 0,
            }) == column_width(rows)
        }),
{
    lemma_column_width_bound(rows, i);
}

/// Width of the left column containing tag name and number of commits;
/// `None` when it overflows.
pub fn calculate_column_width(rows: &Vec<TagRow>) -> (res: Option<usize>)
    ensures
        res matches Some(w) ==> w == column_width(rows@),
        res is None ==> column_width(rows@) > usize::MAX,
{
    let mut width: usize = 0;
    let mut i: usize = 0;
    while i < rows.len()
        invariant
            i <= rows@.len(),
            width == column_width(rows@.subrange(0, i as int)),
        decreases rows@.len() - i,
    {
        let ghost s = rows@.subrange(0, i + 1);
        assert(s.drop_last() =~= rows@.subrange(0, i as int));
        let r = &rows[i];
        let mut w = measure_width(r.tag.as_str());
        if let Some(d) = r.since_prev {
            let n = usize_text(d).unicode_len();
            if n > usize::MAX - 2 || w > usize::MAX - 2 - n {
                proof {
                    lemma_column_width_bound(rows@, i as int);
                }
                return None;
            }
            w = w + n + 2;
        }
        if w > width {
            width = w;
        }
        i = i + 1;
    }
    assert(rows@.subrange(0, rows@.len() as int) =~= rows@);
    Some(width)
}

fn push_tag_line(out: &mut Vec<Span>, r: &TagRow, width: usize)
    requires
        row_width(*r) <= width,
    ensures
        line(final(out)@) == line(old(out)@) + tag_line(*r, width as nat),
{
    push_str(out, r.tag.as_str(), Style::bold(Color::Default));
    let tw = measure_width(r.tag.as_str());
    let dw: usize = match r.since_prev {
        Some(d) => usize_text(d).unicode_len() + 2,
        None => 0,
    };
    push_span(out, space_text(width - tw - dw), Style::none());
    let ghost a = line(out@);
    if let Some(d) = r.since_prev {
        let mut sp = String::new();
        sp.push(' ');
        push_span(out, sp, Style::none());
        let mut n = String::new();
        n.push('+');
        n.append(usize_text(d).as_str());
        push_span(out, n, Style::fg(Color::Green));
    }
    let ghost b = line(out@);
    let mut sp = String::new();
    sp.push(' ');
    push_span(out, sp, Style::none());
    let mut info = r.author.clone();
    info.append(", ");
    info.append(r.time.as_str());
    info.append(" \u{b7} ");
    info.append(r.msg.as_str());
    push_span(out, info, Style::dimmed());
    proof {
        let dist = match r.since_prev {
            Some(d) => seq![(seq![' '], no_style()), (seq!['+'] + dec(d as nat), green())],
            None => Seq::empty(),
        };
        assert(b =~= a + dist);
        assert(line(out@) =~= line(old(out)@) + tag_line(*r, width as nat));
    }
}

/// Displays the list: the counts end in the same column.
pub fn display_table(rows: &Vec<TagRow>) -> (res: Vec<Span>)
    requires
        column_width(rows@) <= usize::MAX,
    ensures
        line(res@) == tag_lines(rows@, column_width(rows@)),
{
    let width = match calculate_column_width(rows) {
        Some(w) => w,
        None => { return Vec::new(); },
    };
    let mut out: Vec<Span> = Vec::new();
    let mut i: usize = 0;
    while i < rows.len()
        invariant
            i <= rows@.len(),
            width == column_width(rows@),
            line(out@) == tag_lines(rows@.subrange(0, i as int), width as nat),
        decreases rows@.len() - i,
    {
        let ghost s = rows@.subrange(0, i + 1);
        assert(s.drop_last() =~= rows@.subrange(0, i as int));
        assert(s.last() == rows@[i as int]);
        let ghost before = line(out@);
        proof {
            lemma_column_width_bound(rows@, i as int);
        }
        if i > 0 {
            let mut nl = String::new();
            nl.push('\n');
            push_span(&mut out, nl, Style::none());
        }
        push_tag_line(&mut out, &rows[i], width);
        proof {
            if i == 0 {
                assert(line(out@) =~= tag_line(rows@[0], width as nat));
            } else {
                assert(line(out@) =~= before + seq![(seq!['\n'], no_style())] + tag_line(rows@[i as int], width as nat));
            }
            assert(line(out@) =~= tag_lines(s, width as nat));
        }
        i = i + 1;
    }
    assert(rows@.subrange(0, rows@.len() as int) =~= rows@);
    out
}

/// `<name> is not a tag`.
pub fn not_a_tag(name: &str) -> (res: CliError)
    ensures
        res matches CliError::Generic(m) && m@ == name@ + " is not a tag"@,
{
    let mut m = String::from_str(name);
    m.append(" is not a tag");
    CliError::Generic(m)
}

/// The full view of one tag: its name, its tagger (annotated tags), its
/// commit and subject, what came since the previous version and the diff
/// summary's header.
pub open spec fn single_tag(name: Seq<char>, tagger: Option<Tagger>, commit_line: Styled, subject: Seq<char>,
    prev: Option<(String, usize)>, summary: DiffSummary, nerdfont: bool) -> Styled {
    seq![(name, green())]
        + tagger_part(tagger, nerdfont)
        + seq![("\n\n"@, no_style())] + commit_line
        + seq![(seq!['\n'], no_style()), (nf(nerdfont, seq!['\u{f27a}', ' '], Seq::empty()) + subject, dim())]
        + prev_part(prev)
        + summary_header_line(summary.num_files as nat, summary.insertions as nat, summary.deletions as nat)
}

/// Displays one tag in full.
pub fn display_single_tag(name: &str, tagger: &Option<Tagger>, commit_line: Vec<Span>, subject: &str,
    prev: &Option<(String, usize)>, summary: &DiffSummary, nerdfont: bool) -> (res: Vec<Span>)
    ensures
        line(res@) == single_tag(name@, *tagger, line(commit_line@), subject@, *prev, *summary, nerdfont),
{
    let ghost cl = line(commit_line@);
    let mut out = crate::cli::show::display_tagged_name(name, tagger, nerdfont);
    push_str(&mut out, "\n\n", Style::none());
    append_spans(&mut out, commit_line);
    let mut nl = String::new();
    nl.push('\n');
    push_span(&mut out, nl, Style::none());
    let mut s = String::new();
    if nerdfont {
        s.push('\u{f27a}');
        s.push(' ');
    }
    s.append(subject);
    assert(s@ =~= nf(nerdfont, seq!['\u{f27a}', ' '], Seq::empty()) + subject@);
    push_span(&mut out, s, Style::dimmed());
    append_spans(&mut out, crate::cli::show::display_prev(prev));
    append_spans(&mut out, display_summary_header(summary));
    assert(line(out@) =~= single_tag(name@, *tagger, cl, subject@, *prev, *summary, nerdfont));
    out
}

} // verus!
