//! The compact branch list: each branch's name, its upstream and base
//! ahead/behind counts aligned in a column, then its commit.

use vstd::prelude::*;

use crate::cli::branches::ListMode;
use crate::cli::display::time::GitTime;
use crate::cli::display::{display_plus_minus, fg, no_style, plus_minus_line};
use crate::cli::show::{highlight_style, Highlight};
use crate::cli::status::{nf, Styled};
use crate::text::{
    append_spans, dec, flat, line, measure_width, printable_ascii, push_span, push_str, render, space_text,
    spaces, text_width, truncate, truncated, Color, Span, Style,
};

verus! {

/// How to sort the list.
#[derive(Clone, Copy, PartialEq, Eq, Structural, Debug)]
pub enum SortBy {
    /// Most recent tip commit first
    Date,
    /// By name
    Name,
}

/// Options of the branch list.
#[derive(Debug)]
pub struct BranchListArgs {
    /// How to sort the list
    pub sort: Option<SortBy>,
    /// Hides feature projects from output
    pub no_projects: Option<bool>,
    /// Hides git submodules from output
    pub no_modules: Option<bool>,
    /// Glob pattern to filter branch names
    pub pattern: Option<String>,
}

impl BranchListArgs {
    /// The order of the list: the option given, else `default`.
    pub fn sort_by(&self, default: SortBy) -> (res: SortBy)
        ensures
            res == (match self.sort { Some(s) => s, None => default }),
    {
        match self.sort { Some(s) => s, None => default }
    }

    /// Whether subprojects are hidden, given whether the config shows them.
    pub fn hide_projects(&self, config_shows: bool) -> (res: bool)
        ensures
            res == (match self.no_projects { Some(h) => h, None => !config_shows }),
    {
        match self.no_projects { Some(h) => h, None => !config_shows }
    }

    /// Whether submodules are hidden, given whether the config shows them.
    pub fn hide_modules(&self, config_shows: bool) -> (res: bool)
        ensures
            res == (match self.no_modules { Some(h) => h, None => !config_shows }),
    {
        match self.no_modules { Some(h) => h, None => !config_shows }
    }

    /// When the list is filtered down to a single branch it is shown in
    /// high detail; any other number of branches as the compact list.
    pub fn list_mode(&self, matched: usize) -> (res: ListMode)
        ensures
            res == (if matched == 1 { ListMode::Single } else { ListMode::Table }),
    {
        if matched == 1 { ListMode::Single } else { ListMode::Table }
    }

    /// The references glob that lists the branches, when a pattern is given.
    pub fn glob(&self) -> (res: Option<String>)
        ensures
            self.pattern matches Some(p) ==> (res matches Some(g) && g@ == "refs/heads/"@ + p@),
            self.pattern is None ==> res is None,
    {
        match &self.pattern {
            Some(p) => {
                let mut g = String::from_str("refs/heads/");
                g.append(p.as_str());
                Some(g)
            },
            None => None,
        }
    }
}

/// One branch of the compact list.
#[derive(Debug)]
pub struct CompactRow {
    /// The displayed name (and wip marker)
    pub branch: Vec<Span>,
    /// Ahead/behind against the upstream, when there is one
    pub upstream: Option<(usize, usize)>,
    /// Ahead/behind against the base, when there is one
    pub base: Option<(usize, usize)>,
    /// The displayed commit
    pub commit: Vec<Span>,
}

/// The name cell: the name cut to `limit` columns, bold, green when checked
/// out, cyan when checked out in another worktree; a yellow dot follows when
/// the branch has wips.
pub open spec fn name_cell(name: Seq<char>, highlight: Highlight, limit: usize, wips: bool) -> Styled {
    seq![(truncated(name, limit, "\u{2026}"@), Style { color: highlight_style(highlight).color, bold: true, dim: false })]
        + (if wips { seq![(seq![' '], no_style()), (seq!['\u{25cf}'], fg(Color::Yellow))] } else { Seq::empty() })
}

/// Displays the name cell of a branch.
pub fn display_name_cell(name: &str, highlight: Highlight, limit: usize, wips: bool) -> (res: Vec<Span>)
    ensures
        line(res@) == name_cell(name@, highlight, limit, wips),
{
    let mut out: Vec<Span> = Vec::new();
    let color = match highlight {
        Highlight::Current => Color::Green,
        Highlight::Worktree => Color::Cyan,
        Highlight::Plain => Color::Default,
    };
    push_span(&mut out, truncate(name, limit, "\u{2026}"), Style::bold(color));
    if wips {
        let mut sp = String::new();
        sp.push(' ');
        push_span(&mut out, sp, Style::none());
        let mut dot = String::new();
        dot.push('\u{25cf}');
        push_span(&mut out, dot, Style::fg(Color::Yellow));
    }
    proof {
        assert(line(out@) =~= name_cell(name@, highlight, limit, wips));
    }
    out
}

/// The compact commit cell of the branch list: `time · subject`, dimmed.
pub fn display_commit_cell(time: &str, summary: &str) -> (res: Vec<Span>)
    ensures
        line(res@) == seq![(time@ + " \u{b7} "@ + summary@, Style { color: Color::Default, bold: false, dim: true })],
{
    let mut s = String::from_str(time);
    s.append(" \u{b7} ");
    s.append(summary);
    let mut out: Vec<Span> = Vec::new();
    push_span(&mut out, s, Style::dimmed());
    out
}

/// Builds the row of a branch: its name cut to 20 columns and highlighted
/// (with a dot when it has wips), its counts, and `time · subject` dimmed.
pub fn build_row(name: &str, highlight: Highlight, wips: bool, time: &str, summary: &str,
    upstream: Option<(usize, usize)>, base: Option<(usize, usize)>) -> (res: CompactRow)
    ensures
        line(res.branch@) == name_cell(name@, highlight, 20, wips),
        line(res.commit@) == seq![(time@ + " \u{b7} "@ + summary@, Style { color: Color::Default, bold: false, dim: true })],
        res.upstream == upstream,
        res.base == base,
{
    CompactRow {
        branch: display_name_cell(name, highlight, 20, wips),
        upstream,
        base,
        commit: display_commit_cell(time, summary),
    }
}

/// The width of `+a -b`.
pub open spec fn counts_width(c: (usize, usize)) -> nat {
    (1 + dec(c.0 as nat).len() + 1 + 1 + dec(c.1 as nat).len()) as nat
}

/// The width a row takes before its commit: the name, then each count
/// pair with its indicator and two spaces.
pub open spec fn row_width(r: CompactRow) -> nat {
    text_width(flat(line(r.branch@))) as nat
        + (match r.upstream { Some(c) => counts_width(c) + 3, None => 0 })
        + (match r.base { Some(c) => counts_width(c) + 3, None => 0 })
}

/// The width of the left column: the widest row.
pub open spec fn column_width(rows: Seq<CompactRow>) -> nat
    decreases rows.len(),
{
    if rows.len() == 0 {
        0
    } else {
        let rest = column_width(rows.drop_last());
        let w = row_width(rows.last());
        if w > rest { w } else { rest }
    }
}

/// The counts part of a row: ` U +a -b` for the upstream after a magenta
/// icon and ` B +c -d` for the base after a blue one (icons with a nerd
/// font).
pub open spec fn counts_part(r: CompactRow, nerdfont: bool) -> Styled {
    (match r.upstream {
        Some(c) => seq![(seq![' '], no_style()), (nf(nerdfont, seq!['\u{eaa1}'], seq!['U']), fg(Color::Magenta)), (seq![' '], no_style())]
            + plus_minus_line(c.0 as nat, c.1 as nat),
        None => Seq::empty(),
    })
    + (match r.base {
        Some(c) => seq![(seq![' '], no_style()), (nf(nerdfont, seq!['\u{f126}'], seq!['B']), fg(Color::Blue)), (seq![' '], no_style())]
            + plus_minus_line(c.0 as nat, c.1 as nat),
        None => Seq::empty(),
    })
}

/// Whether a row fits the column: its name and counts are no wider than the
/// column. The width of each row is counted as its parts' widths, which is
/// what the counts measure as unless an icon is wider than one column.
pub open spec fn row_fits(r: CompactRow, width: nat, nerdfont: bool) -> bool {
    text_width(flat(line(r.branch@))) + text_width(flat(counts_part(r, nerdfont))) <= width
}

/// Whether every row fits the column, so that no padding is negative.
pub open spec fn table_fits(rows: Seq<CompactRow>, nerdfont: bool) -> bool {
    &&& column_width(rows) <= usize::MAX
    &&& forall|i: int| 0 <= i < rows.len() ==> row_fits(#[trigger] rows[i], column_width(rows), nerdfont)
}

/// One line of the list: the name, padding up to the column, the counts,
/// then the commit.
pub open spec fn compact_line(r: CompactRow, width: nat, nerdfont: bool) -> Styled {
    line(r.branch@)
        + seq![(spaces((width - text_width(flat(line(r.branch@))) - text_width(flat(counts_part(r, nerdfont)))) as nat), no_style())]
        + counts_part(r, nerdfont)
        + seq![(seq![' '], no_style())]
        + line(r.commit@)
}

/// The lines of the list, separated by line breaks.
pub open spec fn compact_lines(rows: Seq<CompactRow>, width: nat, nerdfont: bool) -> Styled
    decreases rows.len(),
{
    if rows.len() == 0 {
        Seq::empty()
    } else if rows.len() == 1 {
        compact_line(rows[0], width, nerdfont)
    } else {
        compact_lines(rows.drop_last(), width, nerdfont) + seq![(seq!['\n'], no_style())] + compact_line(rows.last(), width, nerdfont)
    }
}

proof fn lemma_column_width_bound(rows: Seq<CompactRow>, i: int)
    requires
        0 <= i < rows.len(),
    ensures
        row_width(rows[i]) <= column_width(rows),
    decreases rows.len(),
{
    if i < rows.len() - 1 {
        lemma_column_width_bound(rows.drop_last(), i);
    }
}

/// The width of `+a -b` in columns, computed.
fn counts_width_of(c: (usize, usize)) -> (res: usize)
    ensures
        res == counts_width(c),
{
    let pm = display_plus_minus(c.0, c.1);
    let s = render(&pm, false);
    proof {
        let l = plus_minus_line(c.0 as nat, c.1 as nat);
        reveal_with_fuel(flat, 4);
        assert(l.drop_last().drop_last().drop_last() =~= Seq::<(Seq<char>, Style)>::empty());
        assert(l.drop_last().drop_last() =~= seq![l[0]]);
        assert(l.drop_last() =~= seq![l[0], l[1]]);
        assert(flat(l) =~= seq!['+'] + dec(c.0 as nat) + seq![' '] + seq!['-'] + dec(c.1 as nat));
        lemma_dec_ascii(c.0 as nat);
        lemma_dec_ascii(c.1 as nat);
        assert(printable_ascii(s@));
    }
    measure_width(s.as_str())
}

/// The counts of every row end in the same column: in each laid-out line,
/// the name is followed by padding exactly as wide as the column less the
/// widths of the name and of the counts, then by the counts.
pub proof fn lemma_counts_end_in_one_column(rows: Seq<CompactRow>, nerdfont: bool, i: int)
    requires
        table_fits(rows, nerdfont),
        0 <= i < rows.len(),
    ensures
        ({
            let r = rows[i];
            let l = compact_line(r, column_width(rows), nerdfont);
            let k = line(r.branch@).len() as int;
            let c = counts_part(r, nerdfont);
            &&& l.subrange(0, k) == line(r.branch@)
            &&& text_width(flat(line(r.branch@))) + l[k].0.len() + text_width(flat(c)) == column_width(rows)
            &&& l.subrange(k + 1, k + 1 + c.len()) == c
        }),
{
    let r = rows[i];
    let w = column_width(rows);
    let l = compact_line(r, w, nerdfont);
    let k = line(r.branch@).len() as int;
    let c = counts_part(r, nerdfont);
    assert(row_fits(r, w, nerdfont));
    assert(l.subrange(0, k) =~= line(r.branch@));
    assert(l.subrange(k + 1, k + 1 + c.len()) =~= c);
}

/// Decimal digits are printable ASCII.
pub proof fn lemma_dec_ascii(n: nat)
    ensures
        printable_ascii(dec(n)),
    decreases n,
{
    if n >= 10 {
        lemma_dec_ascii(n / 10);
    }
}

/// The width of a row, computed; `None` when it overflows.
fn row_width_of(r: &CompactRow) -> (res: Option<usize>)
    ensures
        res matches Some(w) ==> w == row_width(*r),
        res is None ==> row_width(*r) > usize::MAX,
{
    let name = render(&r.branch, false);
    let mut w: usize = measure_width(name.as_str());
    if let Some(c) = r.upstream {
        let cw = counts_width_of(c);
        if cw > usize::MAX - 3 || w > usize::MAX - 3 - cw {
            return None;
        }
        w = w + cw + 3;
    }
    if let Some(c) = r.base {
        let cw = counts_width_of(c);
        if cw > usize::MAX - 3 || w > usize::MAX - 3 - cw {
            return None;
        }
        w = w + cw + 3;
    }
    Some(w)
}

/// Calculates the width of the left column of the list (name and counts),
/// which aligns the commits; `None` when it overflows.
pub fn calculate_column_width(rows: &Vec<CompactRow>) -> (res: Option<usize>)
    ensures
        res matches Some(w) ==> w == column_width(rows@),
        res is None ==> column_width(rows@) > usize::MAX,
{
    let mut width: usize = 0;
    let mut i: usize = 0;
    while i < rows.len()
        invariant
            i <= rows@.len(),
            width == column_width(rows@.subrange(0, i as int)),
        decreases rows@.len() - i,
    {
        let ghost s = rows@.subrange(0, i + 1);
        assert(s.drop_last() =~= rows@.subrange(0, i as int));
        match row_width_of(&rows[i]) {
            Some(w) => {
                if w > width {
                    width = w;
                }
            },
            None => {
                proof {
                    lemma_column_width_bound(rows@, i as int);
                }
                return None;
            },
        }
        i = i + 1;
    }
    assert(rows@.subrange(0, rows@.len() as int) =~= rows@);
    Some(width)
}

fn counts_spans(r: &CompactRow, nerdfont: bool) -> (res: Vec<Span>)
    ensures
        line(res@) == counts_part(*r, nerdfont),
{
    let mut out: Vec<Span> = Vec::new();
    if let Some(c) = r.upstream {
        let mut sp = String::new();
        sp.push(' ');
        push_span(&mut out, sp, Style::none());
        let mut icon = String::new();
        icon.push(if nerdfont { '\u{eaa1}' } else { 'U' });
        push_span(&mut out, icon, Style::fg(Color::Magenta));
        let mut sp2 = String::new();
        sp2.push(' ');
        push_span(&mut out, sp2, Style::none());
        append_spans(&mut out, display_plus_minus(c.0, c.1));
    }
    let ghost a = line(out@);
    if let Some(c) = r.base {
        let mut sp = String::new();
        sp.push(' ');
        push_span(&mut out, sp, Style::none());
        let mut icon = String::new();
        icon.push(if nerdfont { '\u{f126}' } else { 'B' });
        push_span(&mut out, icon, Style::fg(Color::Blue));
        let mut sp2 = String::new();
        sp2.push(' ');
        push_span(&mut out, sp2, Style::none());
        append_spans(&mut out, display_plus_minus(c.0, c.1));
    }
    proof {
        let up = match r.upstream {
            Some(c) => seq![(seq![' '], no_style()), (nf(nerdfont, seq!['\u{eaa1}'], seq!['U']), fg(Color::Magenta)), (seq![' '], no_style())]
                + plus_minus_line(c.0 as nat, c.1 as nat),
            None => Seq::empty(),
        };
        assert(a =~= up);
        assert(line(out@) =~= counts_part(*r, nerdfont));
    }
    out
}

fn push_compact_line(out: &mut Vec<Span>, r: CompactRow, width: usize, nerdfont: bool)
    requires
        row_fits(r, width as nat, nerdfont),
    ensures
        line(final(out)@) == line(old(out)@) + compact_line(r, width as nat, nerdfont),
{
    let ghost rr = r;
    let name_text = render(&r.branch, false);
    let name_width = measure_width(name_text.as_str());
    let ab = counts_spans(&r, nerdfont);
    let ab_text = render(&ab, false);
    let ab_width = measure_width(ab_text.as_str());
    append_spans(out, r.branch);
    push_span(out, space_text(width - name_width - ab_width), Style::none());
    append_spans(out, ab);
    let mut sp = String::new();
    sp.push(' ');
    push_span(out, sp, Style::none());
    append_spans(out, r.commit);
    assert(line(out@) =~= line(old(out)@) + compact_line(rr, width as nat, nerdfont));
}

/// Displays the list in its somewhat tabular format: the counts of every
/// row end in the same column. Requires that every row fits the column.
pub fn display_table(rows: Vec<CompactRow>, nerdfont: bool) -> (res: Vec<Span>)
    requires
        table_fits(rows@, nerdfont),
    ensures
        line(res@) == compact_lines(rows@, column_width(rows@), nerdfont),
{
    let width = match calculate_column_width(&rows) {
        Some(w) => w,
        None => { return Vec::new(); },
    };
    let ghost all = rows@;
    let n0 = rows.len();
    let mut rows = rows;
    let mut out: Vec<Span> = Vec::new();
    let mut k: usize = 0;
    while rows.len() > 0
        invariant
            k + rows@.len() == all.len(),
            all.len() == n0,
            rows@ == all.subrange(k as int, all.len() as int),
            width == column_width(all),
            table_fits(all, nerdfont),
            line(out@) == compact_lines(all.subrange(0, k as int), width as nat, nerdfont),
        decreases rows.len(),
    {
        let r = rows.remove(0);
        assert(r == all[k as int]);
        let ghost s = all.subrange(0, k + 1);
        assert(s.drop_last() =~= all.subrange(0, k as int));
        assert(s.last() == r);
        let ghost before = line(out@);
        if k > 0 {
            let mut nl = String::new();
            nl.push('\n');
            push_span(&mut out, nl, Style::none());
        }
        assert(row_fits(all[k as int], width as nat, nerdfont));
        push_compact_line(&mut out, r, width, nerdfont);
        proof {
            let cline = compact_line(all[k as int], width as nat, nerdfont);
            if k == 0 {
                assert(line(out@) =~= cline);
                assert(s.len() == 1);
            } else {
                assert(line(out@) =~= before + seq![(seq!['\n'], no_style())] + cline);
            }
            assert(line(out@) =~= compact_lines(s, width as nat, nerdfont));
        }
        k = k + 1;
    }
    assert(all.subrange(0, all.len() as int) =~= all);
    out
}

/// Checks that the list can be laid out (every row fits the column) and
/// lays it out; `None` when it cannot.
pub fn display_table_checked(rows: Vec<CompactRow>, nerdfont: bool) -> (res: Option<Vec<Span>>)
    ensures
        table_fits(rows@, nerdfont) ==> (res matches Some(l) && line(l@) == compact_lines(rows@, column_width(rows@), nerdfont)),
        !table_fits(rows@, nerdfont) ==> res is None,
{
    let width = match calculate_column_width(&rows) {
        Some(w) => w,
        None => { return None; },
    };
    let mut i: usize = 0;
    while i < rows.len()
        invariant
            i <= rows@.len(),
            width == column_width(rows@),
            forall|j: int| 0 <= j < i ==> row_fits(#[trigger] rows@[j], width as nat, nerdfont),
        decreases rows@.len() - i,
    {
        let r = &rows[i];
        let name_text = render(&r.branch, false);
        let name_width = measure_width(name_text.as_str());
        let ab = counts_spans(r, nerdfont);
        let ab_text = render(&ab, false);
        let ab_width = measure_width(ab_text.as_str());
        if name_width > width || ab_width > width - name_width {
            assert(!row_fits(rows@[i as int], width as nat, nerdfont));
            return None;
        }
        i = i + 1;
    }
    Some(display_table(rows, nerdfont))
}

/// A branch with its sort keys.
#[derive(Debug)]
pub struct SortKey {
    pub name: String,
    /// The time of the tip commit
    pub time: GitTime,
}

/// Code-point order of two strings; for UTF-8 it is the byte order that
/// `String`'s `Ord` compares by.
pub open spec fn lex_lt(a: Seq<char>, b: Seq<char>) -> bool
    decreases a.len(),
{
    if a.len() == 0 {
        b.len() > 0
    } else if b.len() == 0 {
        false
    } else if a[0] != b[0] {
        a[0] < b[0]
    } else {
        lex_lt(a.drop_first(), b.drop_first())
    }
}

/// Whether `a` sorts strictly before `b`: by name, or by time with the most
/// recent first (times compare by seconds, then offset).
pub open spec fn sorts_before(a: SortKey, b: SortKey, by: SortBy) -> bool {
    match by {
        SortBy::Name => lex_lt(a.name@, b.name@),
        SortBy::Date => a.time.seconds > b.time.seconds
            || (a.time.seconds == b.time.seconds && a.time.offset_minutes > b.time.offset_minutes),
    }
}

proof fn lemma_lex_total(a: Seq<char>, b: Seq<char>)
    ensures
        lex_lt(a, b) || lex_lt(b, a) || a == b,
        !(lex_lt(a, b) && lex_lt(b, a)),
        !lex_lt(a, a),
    decreases a.len(),
{
    if a.len() > 0 && b.len() > 0 {
        if a[0] == b[0] {
            lemma_lex_total(a.drop_first(), b.drop_first());
            if a.drop_first() == b.drop_first() {
                assert(a =~= seq![a[0]] + a.drop_first());
                assert(b =~= seq![b[0]] + b.drop_first());
            }
        }
    } else if a.len() == 0 && b.len() == 0 {
        assert(a =~= b);
    }
    if a.len() > 0 {
        lemma_lex_total(a.drop_first(), a.drop_first());
    }
}

proof fn lemma_lex_trans(a: Seq<char>, b: Seq<char>, c: Seq<char>)
    requires
        lex_lt(a, b),
        lex_lt(b, c),
    ensures
        lex_lt(a, c),
    decreases a.len(),
{
    if a.len() > 0 && b.len() > 0 && c.len() > 0 && a[0] == b[0] && b[0] == c[0] {
        lemma_lex_trans(a.drop_first(), b.drop_first(), c.drop_first());
    }
}

/// Sorting keeps going past keys that do not sort before the new one.
proof fn lemma_not_before_trans(k: SortKey, a: SortKey, b: SortKey, by: SortBy)
    requires
        !sorts_before(k, a, by),
        !sorts_before(a, b, by),
    ensures
        !sorts_before(k, b, by),
{
    if by == SortBy::Name {
        lemma_lex_total(k.name@, a.name@);
        lemma_lex_total(a.name@, b.name@);
        lemma_lex_total(k.name@, b.name@);
        if lex_lt(k.name@, b.name@) {
            if lex_lt(b.name@, a.name@) {
                lemma_lex_trans(k.name@, b.name@, a.name@);
            } else if lex_lt(a.name@, k.name@) {
                lemma_lex_trans(a.name@, k.name@, b.name@);
            }
        }
    }
}

/// Whether two keys sort together (neither before the other).
pub open spec fn ties(a: SortKey, b: SortKey, by: SortBy) -> bool {
    !sorts_before(a, b, by) && !sorts_before(b, a, by)
}

/// The keys in the order given by `order`, a list of their indices.
pub open spec fn is_sorted_order(keys: Seq<SortKey>, order: Seq<usize>, by: SortBy) -> bool {
    &&& order.len() == keys.len()
    &&& forall|i: int| 0 <= i < order.len() ==> (#[trigger] order[i]) < keys.len()
    &&& forall|i: int, j: int| 0 <= i < j < order.len() ==> order[i] != order[j]
    &&& forall|i: int, j: int| 0 <= i < j < order.len()
        ==> !sorts_before(#[trigger] keys[order[j] as int], #[trigger] keys[order[i] as int], by)
    &&& forall|i: int, j: int| 0 <= i < j < order.len() && ties(keys[order[i] as int], keys[order[j] as int], by)
        ==> order[i] < order[j]
}

fn lex_less(a: &str, b: &str) -> (res: bool)
    ensures
        res == lex_lt(a@, b@),
{
    let n = a.unicode_len();
    let m = b.unicode_len();
    let mut i: usize = 0;
    assert(a@.subrange(0, n as int) =~= a@);
    assert(b@.subrange(0, m as int) =~= b@);
    while i < n && i < m
        invariant
            n == a@.len(),
            m == b@.len(),
            i <= n,
            i <= m,
            lex_lt(a@, b@) == lex_lt(a@.subrange(i as int, n as int), b@.subrange(i as int, m as int)),
        decreases n - i,
    {
        let x = a.get_char(i);
        let y = b.get_char(i);
        let ghost sa = a@.subrange(i as int, n as int);
        let ghost sb = b@.subrange(i as int, m as int);
        assert(sa[0] == x && sb[0] == y);
        if x != y {
            return x < y;
        }
        assert(sa.drop_first() =~= a@.subrange(i + 1, n as int));
        assert(sb.drop_first() =~= b@.subrange(i + 1, m as int));
        i = i + 1;
    }
    i == n && i < m
}

fn key_before(a: &SortKey, b: &SortKey, by: SortBy) -> (res: bool)
    ensures
        res == sorts_before(*a, *b, by),
{
    match by {
        SortBy::Name => lex_less(a.name.as_str(), b.name.as_str()),
        SortBy::Date => a.time.seconds > b.time.seconds
            || (a.time.seconds == b.time.seconds && a.time.offset_minutes > b.time.offset_minutes),
    }
}

/// Sorts the branches: by name, or by date with the most recent first. The
/// sort is stable: branches that tie keep their order. Returns the indices
/// of the keys in sorted order.
pub fn sort_order(keys: &Vec<SortKey>, by: SortBy) -> (res: Vec<usize>)
    ensures
        is_sorted_order(keys@, res@, by),
{
    let mut order: Vec<usize> = Vec::new();
    let mut k: usize = 0;
    while k < keys.len()
        invariant
            k <= keys@.len(),
            order@.len() == k,
            forall|i: int| 0 <= i < order@.len() ==> (#[trigger] order@[i]) < k,
            forall|i: int, j: int| 0 <= i < j < order@.len() ==> order@[i] != order@[j],
            forall|i: int, j: int| 0 <= i < j < order@.len()
                ==> !sorts_before(#[trigger] keys@[order@[j] as int], #[trigger] keys@[order@[i] as int], by),
            forall|i: int, j: int| 0 <= i < j < order@.len() && ties(keys@[order@[i] as int], keys@[order@[j] as int], by)
                ==> order@[i] < order@[j],
        decreases keys@.len() - k,
    {
        // find the insertion point: after every key that `k` does not sort before
        let mut p: usize = order.len();
        while p > 0 && key_before(&keys[k], &keys[order[p - 1]], by)
            invariant
                p <= order@.len(),
                order@.len() == k,
                k < keys@.len(),
                forall|i: int| 0 <= i < order@.len() ==> (#[trigger] order@[i]) < k,
                forall|i: int| p <= i < order@.len() ==> sorts_before(keys@[k as int], #[trigger] keys@[order@[i] as int], by),
            decreases p,
        {
            p = p - 1;
        }
        proof {
            // every key left of `p` is one `k` does not sort before
            assert forall|i: int| 0 <= i < p implies !sorts_before(keys@[k as int], #[trigger] keys@[order@[i] as int], by) by {
                if p > 0 {
                    assert(!sorts_before(keys@[k as int], keys@[order@[p - 1] as int], by));
                    if i < p - 1 {
                        lemma_not_before_trans(keys@[k as int], keys@[order@[p - 1] as int], keys@[order@[i] as int], by);
                    }
                }
            }
        }
        let ghost old_order = order@;
        order.insert(p, k);
        proof {
            assert(order@ =~= old_order.insert(p as int, k));
            assert forall|i: int, j: int| 0 <= i < j < order@.len()
                implies !sorts_before(#[trigger] keys@[order@[j] as int], #[trigger] keys@[order@[i] as int], by) by {
                if j == p {
                    assert(order@[i] == old_order[i]);
                } else if i == p {
                    assert(order@[j] == old_order[j - 1]);
                    if sorts_before(keys@[order@[j] as int], keys@[k as int], by) {
                        let x = keys@[order@[j] as int];
                        let y = keys@[k as int];
                        assert(sorts_before(y, x, by));
                        lemma_asymmetric(x, y, by);
                    }
                } else if i < p && j < p {
                    assert(order@[i] == old_order[i] && order@[j] == old_order[j]);
                } else if i < p && j > p {
                    assert(order@[i] == old_order[i] && order@[j] == old_order[j - 1]);
                } else {
                    assert(order@[i] == old_order[i - 1] && order@[j] == old_order[j - 1]);
                }
            }
            assert forall|i: int, j: int| 0 <= i < j < order@.len() && ties(keys@[order@[i] as int], keys@[order@[j] as int], by)
                implies order@[i] < order@[j] by {
                if j == p {
                    assert(order@[i] == old_order[i]);
                } else if i == p {
                    assert(order@[j] == old_order[j - 1]);
                    assert(sorts_before(keys@[k as int], keys@[order@[j] as int], by));
                } else if i < p && j < p {
                    assert(order@[i] == old_order[i] && order@[j] == old_order[j]);
                } else if i < p && j > p {
                    assert(order@[i] == old_order[i] && order@[j] == old_order[j - 1]);
                } else {
                    assert(order@[i] == old_order[i - 1] && order@[j] == old_order[j - 1]);
                }
            }
            assert forall|i: int, j: int| 0 <= i < j < order@.len() implies order@[i] != order@[j] by {
                if i == p {
                    assert(order@[j] == old_order[j - 1]);
                } else if j == p {
                    assert(order@[i] == old_order[i]);
                } else if i < p && j < p {
                    assert(order@[i] == old_order[i] && order@[j] == old_order[j]);
                } else if i < p && j > p {
                    assert(order@[i] == old_order[i] && order@[j] == old_order[j - 1]);
                } else {
                    assert(order@[i] == old_order[i - 1] && order@[j] == old_order[j - 1]);
                }
            }
            assert forall|i: int| 0 <= i < order@.len() implies (#[trigger] order@[i]) < k + 1 by {
                if i < p {
                    assert(order@[i] == old_order[i]);
                } else if i > p {
                    assert(order@[i] == old_order[i - 1]);
                }
            }
        }
        k = k + 1;
    }
    order
}

proof fn lemma_asymmetric(a: SortKey, b: SortKey, by: SortBy)
    requires
        sorts_before(a, b, by),
    ensures
        !sorts_before(b, a, by),
{
    if by == SortBy::Name {
        lemma_lex_total(a.name@, b.name@);
    }
}

} // verus!
