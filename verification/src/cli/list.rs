//! The branch list: one row per local branch with its hash, upstream, base
//! and subject, each column padded to a common width.

use vstd::prelude::*;

use crate::cli::display::{display_plus_minus, no_style};
use crate::cli::error::CliError;
use crate::cli::show::{highlight_style, Highlight};
use crate::cli::status::{cut, ellipsis, render_cut, Styled};
use crate::text::{
    line, measure_width, pad_left_aligned, views, push_span, push_str, render, rendered, spaces, text_width,
    truncated, Color, Span, Style,
};

verus! {

/// The length of a string in bytes, as UTF-8.
pub open spec fn byte_len(s: Seq<char>) -> usize {
    vstd::utf8::encode_utf8(s).len() as usize
}

/// Options of the branch list. `None` defers to the user's config.
#[derive(Clone, Copy, PartialEq, Eq, Structural, Debug)]
pub struct Args {
    /// Hides hash column
    pub no_hash: Option<bool>,
    /// Hides upstream branch column
    pub no_upstream: Option<bool>,
    /// Hides base branch column
    pub no_base: Option<bool>,
    /// Hides feature subprojects from output
    pub no_projects: Option<bool>,
    /// Hides git submodules from output
    pub no_modules: Option<bool>,
}

/// One row of the table, as the cells' text.
#[derive(Debug)]
pub struct Row {
    pub branch: String,
    pub hash: String,
    pub upstream: String,
    /// Ahead/behind against the upstream, as displayed
    pub ab_upstream: String,
    pub base: String,
    /// Ahead/behind against the base, as displayed
    pub ab_base: String,
    pub subject: String,
}

/// The width of each column but the last.
#[derive(Clone, Copy, PartialEq, Eq, Structural, Debug)]
pub struct Widths {
    pub branch: usize,
    pub hash: usize,
    pub upstream: usize,
    pub ab_upstream: usize,
    pub base: usize,
    pub ab_base: usize,
}

impl Row {
    /// A row with every cell empty.
    pub fn new() -> (res: Row)
        ensures
            res.branch@.len() == 0,
            res.hash@.len() == 0,
            res.upstream@.len() == 0,
            res.ab_upstream@.len() == 0,
            res.base@.len() == 0,
            res.ab_base@.len() == 0,
            res.subject@.len() == 0,
    {
        Row {
            branch: String::new(),
            hash: String::new(),
            upstream: String::new(),
            ab_upstream: String::new(),
            base: String::new(),
            ab_base: String::new(),
            subject: String::new(),
        }
    }

    /// The header row: the title of each column.
    pub fn header() -> (res: Row)
        ensures
            res.branch@ == "Branch"@,
            res.hash@ == "Hash"@,
            res.upstream@ == "Upstream"@,
            res.ab_upstream@.len() == 0,
            res.base@ == "Base"@,
            res.ab_base@.len() == 0,
            res.subject@ == "Message"@,
    {
        Row {
            branch: String::from_str("Branch"),
            hash: String::from_str("Hash"),
            upstream: String::from_str("Upstream"),
            ab_upstream: String::new(),
            base: String::from_str("Base"),
            ab_base: String::new(),
            subject: String::from_str("Message"),
        }
    }

    /// The byte length of each cell but the subject.
    pub fn widths(&self) -> (res: Widths)
        ensures
            res.branch == byte_len(self.branch@),
            res.hash == byte_len(self.hash@),
            res.upstream == byte_len(self.upstream@),
            res.ab_upstream == byte_len(self.ab_upstream@),
            res.base == byte_len(self.base@),
            res.ab_base == byte_len(self.ab_base@),
    {
        Widths {
            branch: self.branch.as_str().len(),
            hash: self.hash.as_str().len(),
            upstream: self.upstream.as_str().len(),
            ab_upstream: self.ab_upstream.as_str().len(),
            base: self.base.as_str().len(),
            ab_base: self.ab_base.as_str().len(),
        }
    }
}

impl Widths {
    /// The widest a column may be; the ahead/behind columns are never cut.
    pub fn max() -> (res: Widths)
        ensures
            res == (Widths {
                branch: 30,
                hash: 7,
                upstream: 20,
                ab_upstream: usize::MAX,
                base: 20,
                ab_base: usize::MAX,
            }),
    {
        Widths { branch: 30, hash: 7, upstream: 20, ab_upstream: usize::MAX, base: 20, ab_base: usize::MAX }
    }
}

/// What a branch's row is built from.
#[derive(Debug)]
pub struct BranchFacts {
    pub name: String,
    pub short_hash: String,
    /// The upstream's name and the ahead/behind counts against it
    pub upstream: Option<(String, usize, usize)>,
    /// The base's name and the ahead/behind counts against it
    pub base: Option<(String, usize, usize)>,
    /// The subject of the tip commit, if it has one
    pub subject: Option<String>,
}

/// `+a -b` as displayed.
pub open spec fn counts_text(a: usize, b: usize, colors: bool) -> Seq<char> {
    rendered(crate::cli::display::plus_minus_line(a as nat, b as nat), colors)
}

/// The row of a branch, or `None` when its tip commit has no subject.
pub open spec fn row_of(f: BranchFacts, colors: bool, r: Row) -> bool {
    &&& r.branch@ == f.name@
    &&& r.hash@ == f.short_hash@
    &&& match f.upstream {
        Some(u) => r.upstream@ == u.0@ && r.ab_upstream@ == counts_text(u.1, u.2, colors),
        None => r.upstream@.len() == 0 && r.ab_upstream@.len() == 0,
    }
    &&& match f.base {
        Some(b) => r.base@ == b.0@ && r.ab_base@ == counts_text(b.1, b.2, colors),
        None => r.base@.len() == 0 && r.ab_base@.len() == 0,
    }
    &&& f.subject matches Some(s) && r.subject@ == s@
}

/// Builds the row of a branch; a tip commit without a subject is an error.
pub fn build_row(f: &BranchFacts, colors: bool) -> (res: Result<Row, CliError>)
    ensures
        f.subject is None ==> (res matches Err(CliError::Generic(m)) && m@ == "Commit has no summary"@),
        f.subject is Some ==> (res matches Ok(r) && row_of(*f, colors, r)),
{
    let mut row = Row::new();
    row.branch = f.name.clone();
    row.hash = f.short_hash.clone();
    if let Some((name, a, b)) = &f.upstream {
        row.upstream = name.clone();
        row.ab_upstream = render(&display_plus_minus(*a, *b), colors);
    }
    if let Some((name, a, b)) = &f.base {
        row.base = name.clone();
        row.ab_base = render(&display_plus_minus(*a, *b), colors);
    }
    match &f.subject {
        Some(s) => {
            row.subject = s.clone();
            Ok(row)
        },
        None => Err(CliError::Generic(String::from_str("Commit has no summary"))),
    }
}

/// The larger of two widths.
pub open spec fn wider(a: nat, b: nat) -> nat {
    if a >= b { a } else { b }
}

/// The column widths of a table: for each column the widest cell, counting
/// the header; text columns by bytes, the ahead/behind columns by terminal
/// width.
pub open spec fn table_widths(rows: Seq<Row>) -> (nat, nat, nat, nat, nat, nat)
    decreases rows.len(),
{
    if rows.len() == 0 {
        (byte_len("Branch"@) as nat, byte_len("Hash"@) as nat, byte_len("Upstream"@) as nat, 0, byte_len("Base"@) as nat, 0)
    } else {
        let w = table_widths(rows.drop_last());
        let r = rows.last();
        (
            wider(w.0, byte_len(r.branch@) as nat),
            wider(w.1, byte_len(r.hash@) as nat),
            wider(w.2, byte_len(r.upstream@) as nat),
            wider(w.3, text_width(r.ab_upstream@) as nat),
            wider(w.4, byte_len(r.base@) as nat),
            wider(w.5, text_width(r.ab_base@) as nat),
        )
    }
}

fn max_usize(a: usize, b: usize) -> (res: usize)
    ensures
        res == wider(a as nat, b as nat),
{
    if a >= b { a } else { b }
}

/// The rows that were built, in order.
pub open spec fn built_rows(rows: Seq<Result<Row, CliError>>) -> Seq<Row>
    decreases rows.len(),
{
    if rows.len() == 0 {
        Seq::empty()
    } else {
        built_rows(rows.drop_last()) + match rows.last() {
            Ok(r) => seq![r],
            Err(_) => Seq::empty(),
        }
    }
}

/// The errors of the rows that could not be built, in order.
pub open spec fn row_errors(rows: Seq<Result<Row, CliError>>) -> Seq<CliError>
    decreases rows.len(),
{
    if rows.len() == 0 {
        Seq::empty()
    } else {
        row_errors(rows.drop_last()) + match rows.last() {
            Ok(_) => Seq::empty(),
            Err(e) => seq![e],
        }
    }
}

/// Builds the table: the header row, then the rows that could be built (the
/// error of each other one is reported). The widths are those of
/// [table_widths].
pub fn build_table(rows: Vec<Result<Row, CliError>>) -> (res: (Vec<Row>, Widths, Vec<CliError>))
    ensures
        res.0@.len() >= 1,
        res.0@[0].branch@ == "Branch"@,
        res.0@[0].subject@ == "Message"@,
        res.0@[0].hash@ == "Hash"@,
        res.0@[0].upstream@ == "Upstream"@,
        res.0@[0].ab_upstream@.len() == 0,
        res.0@[0].base@ == "Base"@,
        res.0@[0].ab_base@.len() == 0,
        res.0@.drop_first() == built_rows(rows@),
        res.2@ == row_errors(rows@),
        (res.1.branch as nat, res.1.hash as nat, res.1.upstream as nat, res.1.ab_upstream as nat,
            res.1.base as nat, res.1.ab_base as nat) == table_widths(res.0@.drop_first()),
{
    let mut out: Vec<Row> = Vec::new();
    let header = Row::header();
    let mut widths = header.widths();
    out.push(header);
    let mut errors: Vec<CliError> = Vec::new();
    let ghost all = rows@;
    let mut rows = rows;
    let ghost mut k: int = 0;
    assert(out@.drop_first() =~= Seq::<Row>::empty());
    assert(all.subrange(0, 0) =~= Seq::<Result<Row, CliError>>::empty());
    assert(all.subrange(0, all.len() as int) =~= all);
    while rows.len() > 0
        invariant
            0 <= k <= all.len(),
            rows@ == all.subrange(k, all.len() as int),
            out@.len() >= 1,
            out@[0].branch@ == "Branch"@,
            out@[0].subject@ == "Message"@,
            out@[0].hash@ == "Hash"@,
            out@[0].upstream@ == "Upstream"@,
            out@[0].ab_upstream@.len() == 0,
            out@[0].base@ == "Base"@,
            out@[0].ab_base@.len() == 0,
            out@.drop_first() == built_rows(all.subrange(0, k)),
            errors@ == row_errors(all.subrange(0, k)),
            (widths.branch as nat, widths.hash as nat, widths.upstream as nat, widths.ab_upstream as nat,
                widths.base as nat, widths.ab_base as nat) == table_widths(out@.drop_first()),
        decreases rows.len(),
    {
        let ghost next = all.subrange(0, k + 1);
        assert(next.drop_last() =~= all.subrange(0, k));
        assert(next.last() == rows@[0]);
        let r = rows.remove(0);
        match r {
            Ok(row) => {
                let ghost before = out@;
                widths.branch = max_usize(widths.branch, row.branch.as_str().len());
                widths.hash = max_usize(widths.hash, row.hash.as_str().len());
                widths.upstream = max_usize(widths.upstream, row.upstream.as_str().len());
                widths.ab_upstream = max_usize(widths.ab_upstream, measure_width(row.ab_upstream.as_str()));
                widths.base = max_usize(widths.base, row.base.as_str().len());
                widths.ab_base = max_usize(widths.ab_base, measure_width(row.ab_base.as_str()));
                out.push(row);
                assert(out@.drop_first().drop_last() =~= before.drop_first());
                assert(out@.drop_first() =~= before.drop_first().push(out@.last()));
                assert(errors@ =~= row_errors(next));
            },
            Err(e) => {
                errors.push(e);
                assert(out@.drop_first() =~= built_rows(next));
            },
        }
        proof {
            k = k + 1;
        }
        assert(rows@ =~= all.subrange(k, all.len() as int));
    }
    (out, widths, errors)
}

/// A cell fitted to a width as console pads it: cut with `tail` when it is
/// as wide or wider, else padded with spaces on the right.
pub open spec fn fixed(s: Seq<char>, width: usize, tail: Seq<char>) -> Seq<char> {
    if text_width(s) >= width {
        truncated(s, width, tail)
    } else {
        s + spaces((width - text_width(s)) as nat)
    }
}

/// The smaller of two widths.
pub open spec fn narrower(a: usize, b: usize) -> usize {
    if a <= b { a } else { b }
}

/// Which optional columns are shown.
#[derive(Clone, Copy, PartialEq, Eq, Structural, Debug)]
pub struct Columns {
    pub hash: bool,
    pub upstream: bool,
    pub base: bool,
}

impl Args {
    /// The columns shown: each one unless its option hides it, else unless
    /// the config does.
    pub fn columns(&self, config_hash: bool, config_upstream: bool, config_base: bool) -> (res: Columns)
        ensures
            res.hash == !(match self.no_hash { Some(h) => h, None => !config_hash }),
            res.upstream == !(match self.no_upstream { Some(h) => h, None => !config_upstream }),
            res.base == !(match self.no_base { Some(h) => h, None => !config_base }),
    {
        Columns {
            hash: !(match self.no_hash { Some(h) => h, None => !config_hash }),
            upstream: !(match self.no_upstream { Some(h) => h, None => !config_upstream }),
            base: !(match self.no_base { Some(h) => h, None => !config_base }),
        }
    }

    /// Whether subprojects are hidden, given whether the config shows them.
    pub fn hide_projects(&self, config_shows: bool) -> (res: bool)
        ensures
            res == (match self.no_projects { Some(h) => h, None => !config_shows }),
    {
        match self.no_projects { Some(h) => h, None => !config_shows }
    }

    /// Whether submodules are hidden, given whether the config shows them.
    pub fn hide_modules(&self, config_shows: bool) -> (res: bool)
        ensures
            res == (match self.no_modules { Some(h) => h, None => !config_shows }),
    {
        match self.no_modules { Some(h) => h, None => !config_shows }
    }
}

/// The header row is bold; others are styled as given.
pub open spec fn cell_style(header: bool, color: Color) -> Style {
    Style { color, bold: header, dim: false }
}

/// The cells of one row, fitted to the widths.
pub open spec fn row_cells(r: Row, header: bool, highlight: Highlight, w: Widths, cols: Columns) -> Styled {
    seq![(fixed(r.branch@, narrower(w.branch, 30), "\u{2026}"@),
        if header { cell_style(true, Color::Green) } else { highlight_style(highlight) })]
        + optional_cells(r, header, w, cols)
        + seq![(seq![' '], no_style()), (r.subject@, cell_style(header, Color::Default))]
}

fn fix_width(s: &str, width: usize) -> (res: String)
    ensures
        res@ == fixed(s@, width, "\u{2026}"@),
{
    pad_left_aligned(s, width, "\u{2026}")
}

fn min_usize(a: usize, b: usize) -> (res: usize)
    ensures
        res == narrower(a, b),
{
    if a <= b { a } else { b }
}

fn bold_or_plain(header: bool, color: Color) -> (res: Style)
    ensures
        res == cell_style(header, color),
{
    Style { color, bold: header, dim: false }
}

/// Displays one row of the table.
pub fn display_row(r: &Row, header: bool, highlight: Highlight, w: Widths, cols: Columns) -> (res: Vec<Span>)
    ensures
        line(res@) == row_cells(*r, header, highlight, w, cols),
{
    let mut out: Vec<Span> = Vec::new();
    let st = if header {
        bold_or_plain(true, Color::Green)
    } else {
        match highlight {
            Highlight::Current => Style::fg(Color::Green),
            Highlight::Worktree => Style::fg(Color::Cyan),
            Highlight::Plain => Style::none(),
        }
    };
    push_span(&mut out, fix_width(r.branch.as_str(), min_usize(w.branch, 30)), st);
    push_optional_cells(&mut out, r, header, w, cols);
    push_span(&mut out, space(), Style::none());
    push_str(&mut out, r.subject.as_str(), bold_or_plain(header, Color::Default));
    assert(line(out@) =~= row_cells(*r, header, highlight, w, cols));
    out
}

/// The hash, upstream and base cells, as far as shown.
pub open spec fn optional_cells(r: Row, header: bool, w: Widths, cols: Columns) -> Styled {
    (if cols.hash {
        seq![(seq![' '], no_style()), (fixed(r.hash@, w.hash, "\u{2026}"@), cell_style(header, Color::Yellow))]
    } else {
        Seq::empty()
    })
    + (if cols.upstream {
        pair_cells(r.upstream@, r.ab_upstream@, header, Color::Blue, narrower(w.upstream, 20), w.ab_upstream)
    } else {
        Seq::empty()
    })
    + (if cols.base {
        pair_cells(r.base@, r.ab_base@, header, Color::Magenta, narrower(w.base, 20), w.ab_base)
    } else {
        Seq::empty()
    })
}

/// A name cell and its ahead/behind cell.
pub open spec fn pair_cells(name: Seq<char>, ab: Seq<char>, header: bool, color: Color, nw: usize, abw: usize) -> Styled {
    seq![
        (seq![' '], no_style()),
        (fixed(name, nw, "\u{2026}"@), cell_style(header, color)),
        (seq![' '], no_style()),
        (fixed(ab, abw, "\u{2026}"@), no_style()),
    ]
}

fn push_pair(out: &mut Vec<Span>, name: &str, ab: &str, header: bool, color: Color, nw: usize, abw: usize)
    ensures
        line(final(out)@) == line(old(out)@) + pair_cells(name@, ab@, header, color, nw, abw),
{
    push_span(out, space(), Style::none());
    push_span(out, fix_width(name, nw), bold_or_plain(header, color));
    push_span(out, space(), Style::none());
    push_span(out, fix_width(ab, abw), Style::none());
    assert(line(out@) =~= line(old(out)@) + pair_cells(name@, ab@, header, color, nw, abw));
}

fn push_optional_cells(out: &mut Vec<Span>, r: &Row, header: bool, w: Widths, cols: Columns)
    ensures
        line(final(out)@) == line(old(out)@) + optional_cells(*r, header, w, cols),
{
    if cols.hash {
        push_span(out, space(), Style::none());
        push_span(out, fix_width(r.hash.as_str(), w.hash), bold_or_plain(header, Color::Yellow));
    }
    let ghost b = line(out@);
    if cols.upstream {
        push_pair(out, r.upstream.as_str(), r.ab_upstream.as_str(), header, Color::Blue, min_usize(w.upstream, 20), w.ab_upstream);
    }
    let ghost c = line(out@);
    if cols.base {
        push_pair(out, r.base.as_str(), r.ab_base.as_str(), header, Color::Magenta, min_usize(w.base, 20), w.ab_base);
    }
    proof {
        let hp = if cols.hash {
            seq![(seq![' '], no_style()), (fixed(r.hash@, w.hash, "\u{2026}"@), cell_style(header, Color::Yellow))]
        } else {
            Seq::empty()
        };
        assert(b =~= line(old(out)@) + hp);
        let up = if cols.upstream {
            pair_cells(r.upstream@, r.ab_upstream@, header, Color::Blue, narrower(w.upstream, 20), w.ab_upstream)
        } else {
            Seq::empty()
        };
        assert(c =~= b + up);
        assert(line(out@) =~= line(old(out)@) + optional_cells(*r, header, w, cols));
    }
}

fn space() -> (res: String)
    ensures
        res@ == seq![' '],
{
    let mut s = String::new();
    s.push(' ');
    s
}

/// The highlight of a row's branch: the checked out branch, one checked out
/// in another worktree, or another.
pub open spec fn highlight_of(branch: Seq<char>, current: Option<Seq<char>>, worktrees: Seq<Seq<char>>) -> Highlight {
    if current == Some(branch) {
        Highlight::Current
    } else if worktrees.contains(branch) {
        Highlight::Worktree
    } else {
        Highlight::Plain
    }
}

/// The table as text: each row's cells, cut to the terminal width when
/// there is one, the rows on lines of their own.
pub open spec fn table_text(rows: Seq<Row>, w: Widths, cols: Columns, current: Option<Seq<char>>,
    worktrees: Seq<Seq<char>>, colors: bool, width: Option<usize>) -> Seq<char>
    decreases rows.len(),
{
    if rows.len() == 0 {
        Seq::empty()
    } else {
        let i = rows.len() - 1;
        let r = rows.last();
        let l = cut(rendered(row_cells(r, i == 0, highlight_of(r.branch@, current, worktrees), w, cols), colors),
            width, ellipsis(colors));
        if i == 0 { l } else { table_text(rows.drop_last(), w, cols, current, worktrees, colors, width) + seq!['\n'] + l }
    }
}

fn contains_str(v: &Vec<String>, s: &str) -> (res: bool)
    ensures
        res == views(v@).contains(s@),
{
    let mut i: usize = 0;
    while i < v.len()
        invariant
            i <= v@.len(),
            forall|j: int| 0 <= j < i ==> v@[j]@ != s@,
        decreases v@.len() - i,
    {
        if crate::text::str_eq(v[i].as_str(), s) {
            assert(views(v@)[i as int] == s@);
            return true;
        }
        i = i + 1;
    }
    assert forall|k: int| 0 <= k < v@.len() implies #[trigger] views(v@)[k] != s@ by {
        assert(v@[k]@ != s@);
    }
    false
}

/// Displays the table: the header row bold, the checked out branch green,
/// branches checked out in other worktrees cyan. `width` is the terminal
/// width when printing to one.
pub fn display_table(rows: &Vec<Row>, w: Widths, cols: Columns, current: Option<&str>, worktrees: &Vec<String>,
    colors: bool, width: Option<usize>) -> (res: String)
    ensures
        res@ == table_text(rows@, w, cols, match current { Some(c) => Some(c@), None => None },
            views(worktrees@), colors, width),
{
    let ghost cur = match current { Some(c) => Some(c@), None => None };
    let ghost wts = views(worktrees@);
    let mut out = String::new();
    let mut i: usize = 0;
    while i < rows.len()
        invariant
            i <= rows@.len(),
            cur == (match current { Some(c) => Some(c@), None => None }),
            wts == views(worktrees@),
            out@ == table_text(rows@.subrange(0, i as int), w, cols, cur, wts, colors, width),
        decreases rows@.len() - i,
    {
        let ghost s = rows@.subrange(0, i + 1);
        assert(s.drop_last() =~= rows@.subrange(0, i as int));
        let r = &rows[i];
        let highlight = match current {
            Some(c) => if crate::text::str_eq(c, r.branch.as_str()) {
                Highlight::Current
            } else if contains_str(worktrees, r.branch.as_str()) {
                Highlight::Worktree
            } else {
                Highlight::Plain
            },
            None => if contains_str(worktrees, r.branch.as_str()) {
                Highlight::Worktree
            } else {
                Highlight::Plain
            },
        };
        assert(highlight == highlight_of(r.branch@, cur, wts));
        let cells = display_row(r, i == 0, highlight, w, cols);
        let l = render_cut(&cells, colors, width);
        if i > 0 {
            out.push('\n');
        }
        out.append(l.as_str());
        assert(out@ =~= table_text(s, w, cols, cur, wts, colors, width));
        i = i + 1;
    }
    assert(rows@.subrange(0, rows@.len() as int) =~= rows@);
    out
}

} // verus!
