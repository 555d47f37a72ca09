//! Styled text, decimal rendering and the string helpers the display code is
//! built from.

use vstd::prelude::*;

verus! {

/// The decimal digits of `n`, most significant first.
pub open spec fn dec(n: nat) -> Seq<char>
    decreases n,
{
    if n < 10 {
        seq![digit_char(n)]
    } else {
        dec(n / 10).push(digit_char(n % 10))
    }
}

pub open spec fn digit_char(d: nat) -> char {
    if d == 0 { '0' }
    else if d == 1 { '1' }
    else if d == 2 { '2' }
    else if d == 3 { '3' }
    else if d == 4 { '4' }
    else if d == 5 { '5' }
    else if d == 6 { '6' }
    else if d == 7 { '7' }
    else if d == 8 { '8' }
    else { '9' }
}

pub assume_specification[ String::push ](s: &mut String, ch: char)
    ensures
        final(s)@ == old(s)@.push(ch),
;

fn digit(d: u64) -> (c: char)
    requires
        d < 10,
    ensures
        c == digit_char(d as nat),
{
    if d == 0 { '0' }
    else if d == 1 { '1' }
    else if d == 2 { '2' }
    else if d == 3 { '3' }
    else if d == 4 { '4' }
    else if d == 5 { '5' }
    else if d == 6 { '6' }
    else if d == 7 { '7' }
    else if d == 8 { '8' }
    else { '9' }
}

/// Renders `n` in decimal.
pub fn u64_text(n: u64) -> (res: String)
    ensures
        res@ == dec(n as nat),
    decreases n,
{
    if n < 10 {
        let mut s = String::new();
        s.push(digit(n));
        s
    } else {
        let mut s = u64_text(n / 10);
        s.push(digit(n % 10));
        s
    }
}

/// The decimal text of a signed number: a minus sign before negatives.
pub open spec fn int_dec(i: int) -> Seq<char> {
    if i < 0 { seq!['-'] + dec((-i) as nat) } else { dec(i as nat) }
}

/// Renders a signed number in decimal.
pub fn i64_text(n: i64) -> (res: String)
    ensures
        res@ == int_dec(n as int),
{
    if n < 0 {
        let m: u64 = ((-(n + 1)) as u64) + 1;
        assert(m == -(n as int));
        let mut s = String::new();
        s.push('-');
        s.append(u64_text(m).as_str());
        s
    } else {
        u64_text(n as u64)
    }
}

/// A terminal color.
#[derive(Clone, Copy, PartialEq, Eq, Structural, Debug)]
pub enum Color {
    Default,
    Red,
    Green,
    Yellow,
    Blue,
    Magenta,
    Cyan,
}

/// How a piece of text is styled on a terminal.
#[derive(Clone, Copy, PartialEq, Eq, Structural, Debug)]
pub struct Style {
    pub color: Color,
    pub bold: bool,
    pub dim: bool,
}

impl Style {
    pub fn none() -> (s: Style)
        ensures
            s == (Style { color: Color::Default, bold: false, dim: false }),
    {
        Style { color: Color::Default, bold: false, dim: false }
    }

    pub fn fg(color: Color) -> (s: Style)
        ensures
            s == (Style { color: color, bold: false, dim: false }),
    {
        Style { color, bold: false, dim: false }
    }

    pub fn bold(color: Color) -> (s: Style)
        ensures
            s == (Style { color: color, bold: true, dim: false }),
    {
        Style { color, bold: true, dim: false }
    }

    pub fn dimmed() -> (s: Style)
        ensures
            s == (Style { color: Color::Default, bold: false, dim: true }),
    {
        Style { color: Color::Default, bold: false, dim: true }
    }
}

/// A run of text sharing one style.
#[derive(Debug)]
pub struct Span {
    pub text: String,
    pub style: Style,
}

/// A span as plain values: its text and style.
pub open spec fn span_view(s: Span) -> (Seq<char>, Style) {
    (s.text@, s.style)
}

/// A styled line as plain values.
pub open spec fn line(spans: Seq<Span>) -> Seq<(Seq<char>, Style)> {
    spans.map_values(|s: Span| span_view(s))
}

/// The characters of a styled line, without any styling.
pub open spec fn flat(l: Seq<(Seq<char>, Style)>) -> Seq<char>
    decreases l.len(),
{
    if l.len() == 0 {
        Seq::empty()
    } else {
        flat(l.drop_last()) + l.last().0
    }
}

/// The plain text of a list of spans.
pub open spec fn plain_text(spans: Seq<Span>) -> Seq<char> {
    flat(line(spans))
}

/// Name of a color in console's dotted style notation.
pub open spec fn color_name(c: Color) -> Seq<char> {
    match c {
        Color::Default => Seq::empty(),
        Color::Red => seq!['r', 'e', 'd'],
        Color::Green => seq!['g', 'r', 'e', 'e', 'n'],
        Color::Yellow => seq!['y', 'e', 'l', 'l', 'o', 'w'],
        Color::Blue => seq!['b', 'l', 'u', 'e'],
        Color::Magenta => seq!['m', 'a', 'g', 'e', 'n', 't', 'a'],
        Color::Cyan => seq!['c', 'y', 'a', 'n'],
    }
}

/// A style in console's dotted notation, e.g. `green.bold`.
pub open spec fn style_spec(s: Style) -> Seq<char> {
    color_name(s.color)
        + (if s.bold { seq!['.', 'b', 'o', 'l', 'd'] } else { Seq::empty() })
        + (if s.dim { seq!['.', 'd', 'i', 'm'] } else { Seq::empty() })
}

/// The escape that sets a foreground colour (none for the default colour).
pub open spec fn color_escape(c: Color) -> Seq<char> {
    match c {
        Color::Default => Seq::empty(),
        Color::Red => seq!['\u{1b}', '[', '3', '1', 'm'],
        Color::Green => seq!['\u{1b}', '[', '3', '2', 'm'],
        Color::Yellow => seq!['\u{1b}', '[', '3', '3', 'm'],
        Color::Blue => seq!['\u{1b}', '[', '3', '4', 'm'],
        Color::Magenta => seq!['\u{1b}', '[', '3', '5', 'm'],
        Color::Cyan => seq!['\u{1b}', '[', '3', '6', 'm'],
    }
}

/// The escapes that set a style: the colour's, then bold's, then dim's.
pub open spec fn style_escapes(st: Style) -> Seq<char> {
    color_escape(st.color)
        + (if st.bold { seq!['\u{1b}', '[', '1', 'm'] } else { Seq::empty() })
        + (if st.dim { seq!['\u{1b}', '[', '2', 'm'] } else { Seq::empty() })
}

/// What console writes for `text` in style `st` with styling forced on: the
/// style's escapes, the text, and a reset where an escape was written; the
/// bare text in the default style.
pub open spec fn painted(st: Style, text: Seq<char>) -> Seq<char> {
    if style_escapes(st).len() == 0 {
        text
    } else {
        style_escapes(st) + text + seq!['\u{1b}', '[', '0', 'm']
    }
}

/// The output of a styled line with styling on.
pub open spec fn painted_line(l: Seq<(Seq<char>, Style)>) -> Seq<char>
    decreases l.len(),
{
    if l.len() == 0 {
        Seq::empty()
    } else {
        painted_line(l.drop_last()) + painted(l.last().1, l.last().0)
    }
}

/// Calls `console::Style::from_dotted_str(spec).force_styling(true).apply_to(text)`
/// and displays the result. Read from console's source: the dotted terms of a
/// style of this library set its colour and its bold and dim attributes; with
/// styling forced on, display writes the colour's escape (`ESC[3<n>m`), then
/// `ESC[1m` for bold and `ESC[2m` for dim, the text, and `ESC[0m` if it wrote
/// any escape. The contract speaks only of a `spec` that is the dotted
/// notation of such a style.
#[verifier::external_body]
fn paint(text: &str, spec: &str) -> (res: String)
    ensures
        forall|st: Style| #[trigger] style_spec(st) == spec@ ==> res@ == painted(st, text@),
{
    console::Style::from_dotted_str(spec).force_styling(true).apply_to(text).to_string()
}

fn color_text(c: Color) -> (res: String)
    ensures
        res@ == color_name(c),
{
    let mut s = String::new();
    match c {
        Color::Default => {},
        Color::Red => { s.push('r'); s.push('e'); s.push('d'); },
        Color::Green => { s.push('g'); s.push('r'); s.push('e'); s.push('e'); s.push('n'); },
        Color::Yellow => { s.push('y'); s.push('e'); s.push('l'); s.push('l'); s.push('o'); s.push('w'); },
        Color::Blue => { s.push('b'); s.push('l'); s.push('u'); s.push('e'); },
        Color::Magenta => {
            s.push('m'); s.push('a'); s.push('g'); s.push('e'); s.push('n'); s.push('t'); s.push('a');
        },
        Color::Cyan => { s.push('c'); s.push('y'); s.push('a'); s.push('n'); },
    }
    assert(s@ =~= color_name(c));
    s
}

/// The dotted notation of a style.
pub fn style_spec_text(st: Style) -> (res: String)
    ensures
        res@ == style_spec(st),
{
    let mut s = color_text(st.color);
    let ghost c = s@;
    if st.bold {
        s.push('.'); s.push('b'); s.push('o'); s.push('l'); s.push('d');
    }
    let ghost cb = s@;
    assert(cb =~= c + (if st.bold { seq!['.', 'b', 'o', 'l', 'd'] } else { Seq::<char>::empty() }));
    if st.dim {
        s.push('.'); s.push('d'); s.push('i'); s.push('m');
    }
    assert(s@ =~= cb + (if st.dim { seq!['.', 'd', 'i', 'm'] } else { Seq::<char>::empty() }));
    s
}

/// The text of a styled line, painted or plain.
pub open spec fn rendered(l: Seq<(Seq<char>, Style)>, colors: bool) -> Seq<char> {
    if colors { painted_line(l) } else { flat(l) }
}

/// Writes a styled line out as a string. With `colors` off the result is the
/// plain text; with it on, each span is painted by console.
pub fn render(spans: &Vec<Span>, colors: bool) -> (res: String)
    ensures
        res@ == rendered(line(spans@), colors),
        !colors ==> res@ == flat(line(spans@)),
        colors ==> res@ == painted_line(line(spans@)),
{
    let mut out = String::new();
    let mut i: usize = 0;
    while i < spans.len()
        invariant
            i <= spans.len(),
            !colors ==> out@ == flat(line(spans@.subrange(0, i as int))),
            colors ==> out@ == painted_line(line(spans@.subrange(0, i as int))),
        decreases spans.len() - i,
    {
        let ghost prev = line(spans@.subrange(0, i as int));
        assert(line(spans@.subrange(0, i + 1)).drop_last() =~= prev);
        assert(line(spans@.subrange(0, i + 1)).last() == span_view(spans@[i as int]));
        if colors {
            let spec = style_spec_text(spans[i].style);
            let p = paint(spans[i].text.as_str(), spec.as_str());
            out.append(p.as_str());
        } else {
            out.append(spans[i].text.as_str());
        }
        i = i + 1;
    }
    assert(spans@.subrange(0, spans.len() as int) =~= spans@);
    out
}

/// Renders without styling.
pub fn render_plain(spans: &Vec<Span>) -> (res: String)
    ensures
        res@ == flat(line(spans@)),
{
    render(spans, false)
}

/// Appends a span holding `text`.
pub fn push_span(out: &mut Vec<Span>, text: String, style: Style)
    ensures
        line(final(out)@) == line(old(out)@).push((text@, style)),
{
    out.push(Span { text, style });
    assert(line(out@) =~= line(old(out)@).push((text@, style)));
}

/// Appends a span holding a copy of `text`.
pub fn push_str(out: &mut Vec<Span>, text: &str, style: Style)
    ensures
        line(final(out)@) == line(old(out)@).push((text@, style)),
{
    push_span(out, String::from_str(text), style);
}

/// Appends all spans of `more`.
pub fn append_spans(out: &mut Vec<Span>, more: Vec<Span>)
    ensures
        line(final(out)@) == line(old(out)@) + line(more@),
{
    let mut more = more;
    let ghost m = more@;
    out.append(&mut more);
    assert(line(out@) =~= line(old(out)@) + line(m));
}

/// Styled lines joined by a separator line.
pub open spec fn join_lines(parts: Seq<Seq<(Seq<char>, Style)>>, sep: Seq<(Seq<char>, Style)>) -> Seq<(Seq<char>, Style)>
    decreases parts.len(),
{
    if parts.len() == 0 {
        Seq::empty()
    } else if parts.len() == 1 {
        parts[0]
    } else {
        join_lines(parts.drop_last(), sep) + sep + parts.last()
    }
}

/// Whether `x` occurs in `s` as a run of consecutive items.
pub open spec fn occurs_in<A>(x: Seq<A>, s: Seq<A>) -> bool {
    exists|k: int| 0 <= k && k + x.len() <= s.len() && #[trigger] s.subrange(k, k + x.len()) == x
}

/// A run of `a` or of `b` is a run of `a + b`.
pub proof fn lemma_occurs_in_concat<A>(x: Seq<A>, a: Seq<A>, b: Seq<A>)
    ensures
        occurs_in(x, a) ==> occurs_in(x, a + b),
        occurs_in(x, b) ==> occurs_in(x, a + b),
{
    if occurs_in(x, a) {
        let k = choose|k: int| 0 <= k && k + x.len() <= a.len() && #[trigger] a.subrange(k, k + x.len()) == x;
        assert((a + b).subrange(k, k + x.len()) =~= a.subrange(k, k + x.len()));
    }
    if occurs_in(x, b) {
        let k = choose|k: int| 0 <= k && k + x.len() <= b.len() && #[trigger] b.subrange(k, k + x.len()) == x;
        assert((a + b).subrange(a.len() + k, a.len() + k + x.len()) =~= b.subrange(k, k + x.len()));
    }
}

/// A sequence occurs in itself.
pub proof fn lemma_occurs_in_self<A>(x: Seq<A>)
    ensures
        occurs_in(x, x),
{
    let k: int = 0;
    assert(x.subrange(k, k + x.len()) =~= x);
}

/// Each of the joined lines occurs in the join.
pub proof fn lemma_join_lines_holds_each(parts: Seq<Seq<(Seq<char>, Style)>>, sep: Seq<(Seq<char>, Style)>, i: int)
    requires
        0 <= i < parts.len(),
    ensures
        occurs_in(parts[i], join_lines(parts, sep)),
    decreases parts.len(),
{
    if parts.len() == 1 {
        lemma_occurs_in_self(parts[0]);
    } else {
        let d = parts.drop_last();
        if i < parts.len() - 1 {
            lemma_join_lines_holds_each(d, sep, i);
            assert(d[i] == parts[i]);
            lemma_occurs_in_concat(parts[i], join_lines(d, sep), sep);
            lemma_occurs_in_concat(parts[i], join_lines(d, sep) + sep, parts.last());
        } else {
            lemma_occurs_in_self(parts.last());
            lemma_occurs_in_concat(parts.last(), join_lines(d, sep) + sep, parts.last());
        }
    }
}

/// The styled lines of a list of span lists.
pub open spec fn lines_of(parts: Seq<Vec<Span>>) -> Seq<Seq<(Seq<char>, Style)>> {
    parts.map_values(|p: Vec<Span>| line(p@))
}

/// Joins styled lines, putting a span of `sep` in `sep_style` between each two.
pub fn join_spans(parts: Vec<Vec<Span>>, sep: &str, sep_style: Style) -> (res: Vec<Span>)
    ensures
        line(res@) == join_lines(lines_of(parts@), seq![(sep@, sep_style)]),
{
    let ghost all = lines_of(parts@);
    let n0 = parts.len();
    let ghost n = n0 as nat;
    let mut parts = parts;
    let mut out: Vec<Span> = Vec::new();
    let mut k: usize = 0;
    while parts.len() > 0
        invariant
            k + parts@.len() == n,
            all.len() == n,
            n <= usize::MAX,
            lines_of(parts@) == all.subrange(k as int, n as int),
            line(out@) == join_lines(all.subrange(0, k as int), seq![(sep@, sep_style)]),
        decreases parts.len(),
    {
        let ghost before = parts@;
        let p = parts.remove(0);
        proof {
            assert(lines_of(before)[0] == line(before[0]@));
            assert(all.subrange(k as int, n as int)[0] == all[k as int]);
            assert(line(p@) == all[k as int]);
            assert(parts@ =~= before.subrange(1, before.len() as int));
            assert(lines_of(parts@) =~= lines_of(before).subrange(1, before.len() as int));
            assert(lines_of(parts@) =~= all.subrange(k + 1, n as int));
            assert(all.subrange(0, k + 1).drop_last() =~= all.subrange(0, k as int));
        }
        if k > 0 {
            push_str(&mut out, sep, sep_style);
        }
        append_spans(&mut out, p);
        proof {
            if k == 0 {
                assert(all.subrange(0, 1).len() == 1);
                assert(line(out@) =~= all.subrange(0, 1)[0]);
            }
        }
        k = k + 1;
    }
    assert(all.subrange(0, n as int) =~= all);
    out
}

/// Whether `prefix` starts `s`.
pub fn starts_with(s: &str, prefix: &str) -> (res: bool)
    ensures
        res == prefix@.is_prefix_of(s@),
{
    let n = s.unicode_len();
    let m = prefix.unicode_len();
    if m > n {
        return false;
    }
    let mut i: usize = 0;
    while i < m
        invariant
            n == s@.len(),
            m == prefix@.len(),
            m <= n,
            i <= m,
            forall|j: int| 0 <= j < i ==> s@[j] == prefix@[j],
        decreases m - i,
    {
        if s.get_char(i) != prefix.get_char(i) {
            return false;
        }
        i = i + 1;
    }
    assert(prefix@ =~= s@.subrange(0, m as int));
    true
}

/// Whether two string slices hold the same characters.
pub fn str_eq(a: &str, b: &str) -> (res: bool)
    ensures
        res == (a@ == b@),
{
    let n = a.unicode_len();
    let m = b.unicode_len();
    if n != m {
        return false;
    }
    let mut i: usize = 0;
    while i < n
        invariant
            n == a@.len(),
            m == b@.len(),
            n == m,
            i <= n,
            forall|j: int| 0 <= j < i ==> a@[j] == b@[j],
        decreases n - i,
    {
        if a.get_char(i) != b.get_char(i) {
            return false;
        }
        i = i + 1;
    }
    assert(a@ =~= b@);
    true
}

/// `parts` joined by `sep`.
pub open spec fn joined(parts: Seq<Seq<char>>, sep: Seq<char>) -> Seq<char>
    decreases parts.len(),
{
    if parts.len() == 0 {
        Seq::empty()
    } else if parts.len() == 1 {
        parts[0]
    } else {
        joined(parts.drop_last(), sep) + sep + parts.last()
    }
}

/// The views of a list of strings.
pub open spec fn views(v: Seq<String>) -> Seq<Seq<char>> {
    v.map_values(|s: String| s@)
}

/// Joins strings with a separator, like `slice::join`.
pub fn join(parts: &Vec<String>, sep: &str) -> (res: String)
    ensures
        res@ == joined(views(parts@), sep@),
{
    let mut out = String::new();
    let mut i: usize = 0;
    while i < parts.len()
        invariant
            i <= parts.len(),
            out@ == joined(views(parts@.subrange(0, i as int)), sep@),
        decreases parts.len() - i,
    {
        let ghost prev = views(parts@.subrange(0, i as int));
        let ghost next = views(parts@.subrange(0, i + 1));
        assert(next.drop_last() =~= prev);
        if i > 0 {
            out.append(sep);
        }
        out.append(parts[i].as_str());
        proof {
            if i == 0 {
                assert(next.len() == 1);
                assert(out@ =~= next[0]);
            }
        }
        i = i + 1;
    }
    assert(parts@.subrange(0, parts.len() as int) =~= parts@);
    out
}

/// Whether every character is printable ASCII (space through tilde).
pub open spec fn printable_ascii(s: Seq<char>) -> bool {
    forall|i: int| 0 <= i < s.len() ==> (' ' <= #[trigger] s[i] && s[i] <= '~')
}

/// The terminal width of a string as console measures it.
pub uninterp spec fn text_width(s: Seq<char>) -> usize;

/// A string cut to a terminal width with `tail` marking the cut, as console
/// truncates it.
pub uninterp spec fn truncated(s: Seq<char>, width: usize, tail: Seq<char>) -> Seq<char>;

/// `n` spaces.
pub open spec fn spaces(n: nat) -> Seq<char> {
    Seq::new(n, |i: int| ' ')
}

/// Calls `console::measure_text_width`. Its result is named; console's source
/// returns the length itself for a string of printable ASCII characters.
#[verifier::external_body]
pub(crate) fn measure_width(s: &str) -> (res: usize)
    ensures
        res == text_width(s@),
        printable_ascii(s@) ==> res == s@.len(),
{
    console::measure_text_width(s)
}

/// Calls `console::truncate_str`. Its result is named; console's source
/// returns the string unchanged when it already fits. That the result fits
/// the width when the tail does is not stated, since the source does not
/// keep to it: the cut adds up character widths one by one, while the width
/// is measured over the whole string, where an emoji presentation sequence
/// such as `☺` followed by U+FE0F counts 2 for characters that count 1 and 0
/// (cut to width 2 with an empty tail, that sequence followed by `x` comes
/// back whole, 3 wide).
#[verifier::external_body]
pub(crate) fn truncate(s: &str, width: usize, tail: &str) -> (res: String)
    ensures
        res@ == truncated(s@, width, tail@),
        text_width(s@) <= width ==> res@ == s@,
{
    console::truncate_str(s, width, tail).to_string()
}

/// Calls `console::pad_str` with left alignment and a truncation tail: a string
/// at least `width` wide is truncated, a narrower one is padded on the right
/// with spaces up to `width`.
#[verifier::external_body]
pub(crate) fn pad_left_aligned(s: &str, width: usize, tail: &str) -> (res: String)
    ensures
        res@ == (if text_width(s@) >= width {
            truncated(s@, width, tail@)
        } else {
            s@ + spaces((width - text_width(s@)) as nat)
        }),
{
    console::pad_str(s, width, console::Alignment::Left, Some(tail)).to_string()
}

/// A string of `n` spaces.
pub fn space_text(n: usize) -> (res: String)
    ensures
        res@ == spaces(n as nat),
{
    let mut s = String::new();
    let mut i: usize = 0;
    while i < n
        invariant
            i <= n,
            s@ == spaces(i as nat),
        decreases n - i,
    {
        s.push(' ');
        i = i + 1;
        assert(s@ =~= spaces(i as nat));
    }
    s
}

/// The pieces `str::split_inclusive('\n')` yields: each piece but the last ends
/// with its newline, and no piece is empty.
pub open spec fn newline_pieces(s: Seq<char>) -> Seq<Seq<char>>
    decreases s.len(),
{
    if s.len() == 0 {
        Seq::empty()
    } else {
        let p = newline_pieces(s.drop_last());
        if p.len() == 0 || p.last().last() == '\n' {
            p.push(seq![s.last()])
        } else {
            p.update(p.len() - 1, p.last().push(s.last()))
        }
    }
}

/// A piece with its line ending (`\n` or `\r\n`) removed.
pub open spec fn strip_line_ending(piece: Seq<char>) -> Seq<char> {
    if piece.len() > 0 && piece.last() == '\n' {
        let q = piece.drop_last();
        if q.len() > 0 && q.last() == '\r' {
            q.drop_last()
        } else {
            q
        }
    } else {
        piece
    }
}

/// The lines of a text as `str::lines` yields them.
pub open spec fn text_lines(s: Seq<char>) -> Seq<Seq<char>> {
    newline_pieces(s).map_values(|p: Seq<char>| strip_line_ending(p))
}

/// The last piece of a nonempty text ends with the text's last character.
pub(crate) proof fn lemma_pieces_last(s: Seq<char>)
    requires
        s.len() > 0,
    ensures
        newline_pieces(s).len() > 0,
        newline_pieces(s).last().len() > 0,
        newline_pieces(s).last().last() == s.last(),
    decreases s.len(),
{
    if s.len() > 1 {
        lemma_pieces_last(s.drop_last());
    }
}

/// The pieces of a text that follows a line break are the pieces of each
/// part.
pub(crate) proof fn lemma_pieces_concat(a: Seq<char>, b: Seq<char>)
    requires
        a.len() > 0,
        a.last() == '\n',
    ensures
        newline_pieces(a + b) == newline_pieces(a) + newline_pieces(b),
    decreases b.len(),
{
    let pa = newline_pieces(a);
    lemma_pieces_last(a);
    if b.len() == 0 {
        assert(a + b =~= a);
        assert(pa + newline_pieces(b) =~= pa);
    } else {
        let b1 = b.drop_last();
        lemma_pieces_concat(a, b1);
        assert((a + b).drop_last() =~= a + b1);
        assert((a + b).last() == b.last());
        let pb1 = newline_pieces(b1);
        if b1.len() == 0 {
            assert(pa + pb1 =~= pa);
            assert(newline_pieces(b) =~= seq![seq![b.last()]]);
            assert(newline_pieces(a + b) =~= pa + newline_pieces(b));
        } else {
            lemma_pieces_last(b1);
            let q = pa + pb1;
            assert(q.last() == pb1.last());
            if pb1.last().last() == '\n' {
                assert(q.push(seq![b.last()]) =~= pa + pb1.push(seq![b.last()]));
            } else {
                assert(q.update(q.len() - 1, q.last().push(b.last()))
                    =~= pa + pb1.update(pb1.len() - 1, pb1.last().push(b.last())));
            }
        }
    }
}

/// A line break can only end a piece.
pub(crate) proof fn lemma_pieces_breaks_at_end(s: Seq<char>)
    ensures
        forall|k: int, j: int| 0 <= k < newline_pieces(s).len() && 0 <= j < newline_pieces(s)[k].len() - 1
            ==> #[trigger] newline_pieces(s)[k][j] != '\n',
    decreases s.len(),
{
    if s.len() > 0 {
        let s1 = s.drop_last();
        lemma_pieces_breaks_at_end(s1);
        let p = newline_pieces(s1);
        if p.len() > 0 {
            lemma_pieces_last(s1);
        }
        assert forall|k: int, j: int| 0 <= k < newline_pieces(s).len() && 0 <= j < newline_pieces(s)[k].len() - 1
            implies #[trigger] newline_pieces(s)[k][j] != '\n' by {
            if k < p.len() {
                if !(p.len() == 0 || p.last().last() == '\n') && k == p.len() - 1 {
                    assert(newline_pieces(s)[k] == p.last().push(s.last()));
                    if j < p.last().len() - 1 {
                        assert(newline_pieces(s)[k][j] == p[k][j]);
                    } else {
                        assert(newline_pieces(s)[k][j] == p.last().last());
                    }
                } else {
                    assert(newline_pieces(s)[k] == p[k]);
                }
            }
        }
    }
}

/// The lines of a text hold no line break.
pub(crate) proof fn lemma_lines_unbroken(s: Seq<char>)
    ensures
        forall|k: int| 0 <= k < text_lines(s).len() ==> !(#[trigger] text_lines(s)[k]).contains('\n'),
{
    lemma_pieces_breaks_at_end(s);
    let p = newline_pieces(s);
    assert forall|k: int| 0 <= k < text_lines(s).len() implies !(#[trigger] text_lines(s)[k]).contains('\n') by {
        let piece = p[k];
        let l = text_lines(s)[k];
        assert(l == strip_line_ending(piece));
        if l.contains('\n') {
            let j = choose|j: int| 0 <= j < l.len() && l[j] == '\n';
            assert(l[j] == piece[j]);
            if j == piece.len() - 1 {
                assert(l.len() == piece.len());
                assert(piece.last() == '\n');
            }
            assert(p[k][j] != '\n');
        }
    }
}

/// Whether a text starts with `#` and has `#` after each of its line breaks.
pub open spec fn hashed(s: Seq<char>) -> bool {
    &&& s.len() > 0 ==> s[0] == '#'
    &&& forall|i: int| 0 <= i < s.len() - 1 && s[i] == '\n' ==> #[trigger] s[i + 1] == '#'
}

/// Each piece of a text that starts with `#` after every line break starts
/// with `#`.
pub(crate) proof fn lemma_pieces_hashed(s: Seq<char>)
    requires
        hashed(s),
    ensures
        forall|k: int| 0 <= k < newline_pieces(s).len()
            ==> (#[trigger] newline_pieces(s)[k]).len() > 0 && newline_pieces(s)[k][0] == '#',
    decreases s.len(),
{
    if s.len() > 0 {
        let s1 = s.drop_last();
        assert forall|i: int| 0 <= i < s1.len() - 1 && s1[i] == '\n' implies #[trigger] s1[i + 1] == '#' by {
            assert(s[i] == '\n');
            assert(s[i + 1] == '#');
        }
        lemma_pieces_hashed(s1);
        let p = newline_pieces(s1);
        if p.len() == 0 || p.last().last() == '\n' {
            if s1.len() > 0 {
                lemma_pieces_last(s1);
                assert(s[s.len() - 2] == '\n');
                assert(s[s.len() - 2 + 1] == '#');
            } else {
                assert(s.last() == s[0]);
            }
        }
        assert forall|k: int| 0 <= k < newline_pieces(s).len()
            implies (#[trigger] newline_pieces(s)[k]).len() > 0 && newline_pieces(s)[k][0] == '#' by {
            if k < p.len() {
                assert(p[k].len() > 0);
            }
        }
    }
}

/// A list of texts written one after another.
pub open spec fn concatenated(parts: Seq<Seq<char>>) -> Seq<char>
    decreases parts.len(),
{
    if parts.len() == 0 {
        Seq::empty()
    } else {
        concatenated(parts.drop_last()) + parts.last()
    }
}

/// Whether a text has no carriage return right before a line break.
pub open spec fn no_crlf(s: Seq<char>) -> bool {
    forall|i: int| #![trigger s[i]] 0 <= i < s.len() - 1 ==> !(s[i] == '\r' && s[i + 1] == '\n')
}

/// The pieces of a text, written one after another, give the text back; every
/// piece but the last ends with a line break; and when the text has no
/// carriage return right before a line break, no piece has one.
pub(crate) proof fn lemma_pieces_cover(s: Seq<char>)
    ensures
        concatenated(newline_pieces(s)) == s,
        forall|k: int| 0 <= k < newline_pieces(s).len() - 1 ==> (#[trigger] newline_pieces(s)[k]).len() > 0
            && newline_pieces(s)[k].last() == '\n',
        no_crlf(s) ==> forall|k: int| 0 <= k < newline_pieces(s).len() ==> no_crlf(#[trigger] newline_pieces(s)[k]),
    decreases s.len(),
{
    if s.len() > 0 {
        let s1 = s.drop_last();
        lemma_pieces_cover(s1);
        let p = newline_pieces(s1);
        let q = newline_pieces(s);
        if p.len() > 0 {
            lemma_pieces_last(s1);
        }
        if no_crlf(s) {
            assert(no_crlf(s1)) by {
                assert forall|i: int| #![trigger s1[i]] 0 <= i < s1.len() - 1 implies !(s1[i] == '\r' && s1[i + 1] == '\n') by {
                    assert(s1[i] == s[i] && s1[i + 1] == s[i + 1]);
                }
            }
        }
        if p.len() == 0 || p.last().last() == '\n' {
            assert(q.drop_last() =~= p);
            assert(concatenated(q) == concatenated(p) + seq![s.last()]);
            assert(s1 + seq![s.last()] =~= s);
            assert forall|k: int| no_crlf(s) && 0 <= k < q.len() implies no_crlf(#[trigger] q[k]) by {
                if k < p.len() {
                    assert(q[k] == p[k]);
                }
            }
        } else {
            let n = p.len() - 1;
            assert(q.drop_last() =~= p.drop_last());
            assert(p.drop_last().push(p.last()) =~= p);
            assert(concatenated(p) == concatenated(p.drop_last()) + p.last());
            assert(concatenated(q) == concatenated(p.drop_last()) + p.last().push(s.last()));
            assert(concatenated(p.drop_last()) + p.last().push(s.last()) =~= s1 + seq![s.last()]);
            assert(s1 + seq![s.last()] =~= s);
            assert forall|k: int| no_crlf(s) && 0 <= k < q.len() implies no_crlf(#[trigger] q[k]) by {
                if k == n {
                    let x = q[k];
                    assert(x == p[n].push(s.last()));
                    assert(no_crlf(p[n]));
                    assert forall|j: int| #![trigger x[j]] 0 <= j < x.len() - 1 implies !(x[j] == '\r' && x[j + 1] == '\n') by {
                        if j + 1 == x.len() - 1 {
                            assert(x[j] == p.last().last());
                            assert(x[j] == s[s.len() - 2]);
                            assert(x[j + 1] == s[s.len() - 1]);
                            assert(s[s.len() - 2] == s[s.len() - 2]);
                        } else {
                            assert(x[j] == p[n][j] && x[j + 1] == p[n][j + 1]);
                            assert(p[n][j] == p[n][j]);
                        }
                    }
                } else {
                    assert(q[k] == p[k]);
                }
            }
        }
    }
}

/// Lines that end in a line break, with no carriage return right before it,
/// joined by line breaks and ended by one, are the pieces written one after
/// another.
pub(crate) proof fn lemma_rejoined(l: Seq<Seq<char>>)
    requires
        l.len() > 0,
        forall|k: int| 0 <= k < l.len() ==> (#[trigger] l[k]).len() > 0 && l[k].last() == '\n',
        forall|k: int| 0 <= k < l.len() && (#[trigger] l[k]).len() >= 2 ==> l[k][l[k].len() - 2] != '\r',
    ensures
        joined(l.map_values(|p: Seq<char>| strip_line_ending(p)), "\n"@) + "\n"@ == concatenated(l),
    decreases l.len(),
{
    reveal_strlit("\n");
    let m = l.map_values(|p: Seq<char>| strip_line_ending(p));
    let x = l.last();
    assert(x.len() > 0 && x.last() == '\n') by {
        assert(x == l[l.len() - 1]);
    }
    assert(x.drop_last().len() > 0 ==> x.drop_last().last() != '\r') by {
        if x.drop_last().len() > 0 {
            assert(x == l[l.len() - 1]);
            assert(x.drop_last().last() == x[x.len() - 2]);
        }
    }
    assert(m.last() == x.drop_last());
    assert(x.drop_last() + "\n"@ =~= x);
    if l.len() == 1 {
        assert(concatenated(l.drop_last()) =~= Seq::<char>::empty());
        assert(concatenated(l) =~= x);
    } else {
        let l1 = l.drop_last();
        assert forall|k: int| 0 <= k < l1.len() implies (#[trigger] l1[k]).len() > 0 && l1[k].last() == '\n' by {
            assert(l1[k] == l[k]);
        }
        assert forall|k: int| 0 <= k < l1.len() && (#[trigger] l1[k]).len() >= 2 implies l1[k][l1[k].len() - 2] != '\r' by {
            assert(l1[k] == l[k]);
        }
        lemma_rejoined(l1);
        assert(m.drop_last() =~= l1.map_values(|p: Seq<char>| strip_line_ending(p)));
        let jm = joined(m.drop_last(), "\n"@);
        assert(joined(m, "\n"@) == jm + "\n"@ + m.last());
        assert(jm + "\n"@ + m.last() + "\n"@ =~= (jm + "\n"@) + (x.drop_last() + "\n"@));
    }
}

/// A text that ends with a line break and has no carriage return right
/// before a line break is its lines joined by line breaks, followed by one
/// more.
pub(crate) proof fn lemma_lines_rejoin(s: Seq<char>)
    requires
        s.len() > 0,
        s.last() == '\n',
        no_crlf(s),
    ensures
        joined(text_lines(s), "\n"@) + "\n"@ == s,
{
    lemma_pieces_cover(s);
    lemma_pieces_last(s);
    let p = newline_pieces(s);
    assert forall|k: int| 0 <= k < p.len() implies (#[trigger] p[k]).len() > 0 && p[k].last() == '\n' by {
        if k == p.len() - 1 {
            assert(p[k] == p.last());
        }
    }
    assert forall|k: int| 0 <= k < p.len() && (#[trigger] p[k]).len() >= 2 implies p[k][p[k].len() - 2] != '\r' by {
        let x = p[k];
        assert(no_crlf(x));
        assert(x.last() == '\n');
        assert(x[x.len() - 1] == '\n');
        assert(x[x.len() - 2] == x[x.len() - 2]);
    }
    lemma_rejoined(p);
}

/// A text that ends in a carriage return and a line break has the lines of
/// the same text ending in a line break alone.
pub(crate) proof fn lemma_crlf_lines(x: Seq<char>)
    requires
        !(x.len() > 0 && x.last() == '\r'),
    ensures
        text_lines(x + seq!['\r', '\n']) == text_lines(x + seq!['\n']),
{
    let xr = x + seq!['\r'];
    let a = x + seq!['\r', '\n'];
    let b = x + seq!['\n'];
    assert(xr.drop_last() =~= x);
    assert(a.drop_last() =~= xr);
    assert(b.drop_last() =~= x);
    let px = newline_pieces(x);
    let pr = newline_pieces(xr);
    let pa = newline_pieces(a);
    let pb = newline_pieces(b);
    lemma_pieces_last(xr);
    assert(pr.last().last() == '\r');
    assert(pa == pr.update(pr.len() - 1, pr.last().push('\n')));
    if px.len() > 0 {
        lemma_pieces_last(x);
    }
    let la = text_lines(a);
    let lb = text_lines(b);
    assert(pa.len() == pb.len());
    assert forall|k: int| 0 <= k < la.len() implies la[k] == lb[k] by {
        if k < pa.len() - 1 {
            assert(pa[k] == pb[k]);
        } else {
            if px.len() == 0 || px.last().last() == '\n' {
                assert(pa[k] =~= seq!['\r', '\n']);
                assert(pb[k] =~= seq!['\n']);
                assert(strip_line_ending(pa[k]) =~= Seq::<char>::empty());
                assert(strip_line_ending(pb[k]) =~= Seq::<char>::empty());
            } else {
                let q = px.last();
                assert(pa[k] =~= q.push('\r').push('\n'));
                assert(pb[k] =~= q.push('\n'));
                assert(pa[k].drop_last() =~= q.push('\r'));
                assert(q.push('\r').drop_last() =~= q);
                assert(pb[k].drop_last() =~= q);
                assert(strip_line_ending(pa[k]) =~= q);
                assert(strip_line_ending(pb[k]) =~= q);
            }
        }
    }
    assert(la =~= lb);
}

/// Each line of such a text starts with `#`.
pub(crate) proof fn lemma_lines_hashed(s: Seq<char>)
    requires
        hashed(s),
    ensures
        forall|k: int| 0 <= k < text_lines(s).len() ==> seq!['#'].is_prefix_of(#[trigger] text_lines(s)[k]),
{
    lemma_pieces_hashed(s);
    assert forall|k: int| 0 <= k < text_lines(s).len() implies seq!['#'].is_prefix_of(#[trigger] text_lines(s)[k]) by {
        let piece = newline_pieces(s)[k];
        let l = text_lines(s)[k];
        assert(l == strip_line_ending(piece));
        assert(piece[0] == '#');
        assert(l.len() > 0);
        assert(l[0] == '#');
    }
}

/// Splits a text into its lines, as `str::lines` does.
pub fn lines(s: &str) -> (res: Vec<String>)
    ensures
        views(res@) == text_lines(s@),
{
    let n = s.unicode_len();
    let mut out: Vec<String> = Vec::new();
    let mut cur = String::new();
    let ghost mut done: Seq<Seq<char>> = Seq::empty();
    let mut i: usize = 0;
    while i < n
        invariant
            n == s@.len(),
            i <= n,
            newline_pieces(s@.subrange(0, i as int)) == (if cur@.len() > 0 {
                done.push(cur@)
            } else {
                done
            }),
            forall|k: int| 0 <= k < done.len() ==> (#[trigger] done[k]).len() > 0 && done[k].last() == '\n',
            forall|k: int| 0 <= k < cur@.len() ==> cur@[k] != '\n',
            views(out@) == done.map_values(|p: Seq<char>| strip_line_ending(p)),
        decreases n - i,
    {
        let c = s.get_char(i);
        let ghost pre = s@.subrange(0, i as int);
        assert(s@.subrange(0, i + 1).drop_last() =~= pre);
        assert(s@.subrange(0, i + 1).last() == c);
        if c == '\n' {
            let ghost piece = cur@.push('\n');
            proof {
                let p = newline_pieces(pre);
                if cur@.len() > 0 {
                    assert(p.last() == cur@);
                    assert(cur@.last() != '\n');
                    assert(p.update(p.len() - 1, p.last().push(c)) =~= done.push(piece));
                } else {
                    assert(p == done);
                    if p.len() > 0 {
                        assert(p.last() == done[done.len() - 1]);
                    }
                    assert(piece =~= seq![c]);
                }
                assert(newline_pieces(s@.subrange(0, i + 1)) =~= done.push(piece));
            }
            cur.push('\n');
            // `cur` now holds a finished piece; strip it into `out`
            let mut stripped = String::new();
            let m = cur.unicode_len();
            let keep: usize = if m >= 2 && cur.get_char(m - 2) == '\r' { m - 2 } else { m - 1 };
            let mut j: usize = 0;
            while j < keep
                invariant
                    keep <= m,
                    m == cur@.len(),
                    j <= keep,
                    stripped@ == cur@.subrange(0, j as int),
                decreases keep - j,
            {
                stripped.push(cur.get_char(j));
                j = j + 1;
                assert(stripped@ =~= cur@.subrange(0, j as int));
            }
            proof {
                let q = piece.drop_last();
                assert(q =~= piece.subrange(0, m - 1));
                if m >= 2 && piece[m - 2] == '\r' {
                    assert(q.drop_last() =~= piece.subrange(0, m - 2));
                }
                assert(stripped@ =~= strip_line_ending(piece));
                let old_done = done;
                done = done.push(piece);
                assert(done.map_values(|p: Seq<char>| strip_line_ending(p))
                    =~= old_done.map_values(|p: Seq<char>| strip_line_ending(p)).push(strip_line_ending(piece)));
            }
            out.push(stripped);
            assert(views(out@) =~= done.map_values(|p: Seq<char>| strip_line_ending(p)));
            cur = String::new();
        } else {
            proof {
                let p = newline_pieces(pre);
                if cur@.len() > 0 {
                    assert(p.last() == cur@);
                    assert(p.update(p.len() - 1, p.last().push(c)) =~= done.push(cur@.push(c)));
                } else {
                    assert(p == done);
                    if p.len() > 0 {
                        assert(p.last() == done[done.len() - 1]);
                    }
                    assert(cur@.push(c) =~= seq![c]);
                }
                assert(newline_pieces(s@.subrange(0, i + 1)) =~= done.push(cur@.push(c)));
            }
            cur.push(c);
        }
        i = i + 1;
    }
    assert(s@.subrange(0, n as int) =~= s@);
    if cur.unicode_len() > 0 {
        proof {
            if cur@.len() > 0 {
                assert(strip_line_ending(cur@) == cur@);
            }
        }
        let ghost old_done = done;
        out.push(cur);
        proof {
            assert(old_done.push(out@.last()@).map_values(|p: Seq<char>| strip_line_ending(p))
                =~= old_done.map_values(|p: Seq<char>| strip_line_ending(p)).push(strip_line_ending(out@.last()@)));
            assert(views(out@) =~= old_done.push(out@.last()@).map_values(|p: Seq<char>| strip_line_ending(p)));
        }
    }
    out
}

/// `s` without `prefix` when it starts with it, else `s` itself.
pub open spec fn trim_prefix(s: Seq<char>, prefix: Seq<char>) -> Seq<char> {
    if prefix.is_prefix_of(s) {
        s.subrange(prefix.len() as int, s.len() as int)
    } else {
        s
    }
}

/// The characters of `s` from index `start` on.
pub fn suffix_from(s: &str, start: usize) -> (res: String)
    requires
        start <= s@.len(),
    ensures
        res@ == s@.subrange(start as int, s@.len() as int),
{
    let n = s.unicode_len();
    let mut out = String::new();
    let mut i = start;
    while i < n
        invariant
            n == s@.len(),
            start <= i <= n,
            out@ == s@.subrange(start as int, i as int),
        decreases n - i,
    {
        out.push(s.get_char(i));
        i = i + 1;
        assert(out@ =~= s@.subrange(start as int, i as int));
    }
    out
}

/// The characters of `s` from index `start` up to `end`.
pub fn substring(s: &str, start: usize, end: usize) -> (res: String)
    requires
        start <= end <= s@.len(),
    ensures
        res@ == s@.subrange(start as int, end as int),
{
    let mut out = String::new();
    let mut i = start;
    while i < end
        invariant
            start <= i <= end,
            end <= s@.len(),
            out@ == s@.subrange(start as int, i as int),
        decreases end - i,
    {
        out.push(s.get_char(i));
        i = i + 1;
        assert(out@ =~= s@.subrange(start as int, i as int));
    }
    out
}

/// Removes `prefix` from the front of `s` if it is there.
pub fn trim_prefix_opt(s: &str, prefix: &str) -> (res: String)
    ensures
        res@ == trim_prefix(s@, prefix@),
{
    if starts_with(s, prefix) {
        suffix_from(s, prefix.unicode_len())
    } else {
        String::from_str(s)
    }
}

/// The index of the first `c` in `s`, if any.
pub open spec fn first_index_of(s: Seq<char>, c: char) -> Option<int> {
    if exists|i: int| 0 <= i < s.len() && s[i] == c {
        Some(choose|i: int| 0 <= i < s.len() && s[i] == c && forall|j: int| 0 <= j < i ==> s[j] != c)
    } else {
        None
    }
}

/// Finds the first `c` in `s`.
pub fn find_char(s: &str, c: char) -> (res: Option<usize>)
    ensures
        res matches Some(i) ==> i < s@.len() && s@[i as int] == c && forall|j: int| 0 <= j < i ==> s@[j] != c,
        res is None ==> forall|j: int| 0 <= j < s@.len() ==> s@[j] != c,
{
    let n = s.unicode_len();
    let mut i: usize = 0;
    while i < n
        invariant
            n == s@.len(),
            i <= n,
            forall|j: int| 0 <= j < i ==> s@[j] != c,
        decreases n - i,
    {
        if s.get_char(i) == c {
            return Some(i);
        }
        i = i + 1;
    }
    None
}

/// Whether `c` has the Unicode `White_Space` property, the whitespace that
/// `char::is_whitespace` and `str::trim` go by.
pub open spec fn is_white_space(c: char) -> bool {
    let n = c as u32;
    ||| 0x9 <= n <= 0xd
    ||| n == 0x20 || n == 0x85 || n == 0xa0 || n == 0x1680
    ||| 0x2000 <= n <= 0x200a
    ||| n == 0x2028 || n == 0x2029 || n == 0x202f || n == 0x205f || n == 0x3000
}

/// A text without its leading whitespace.
pub open spec fn without_leading_space(s: Seq<char>) -> Seq<char>
    decreases s.len(),
{
    if s.len() > 0 && is_white_space(s[0]) {
        without_leading_space(s.drop_first())
    } else {
        s
    }
}

/// A text without its trailing whitespace.
pub open spec fn without_trailing_space(s: Seq<char>) -> Seq<char>
    decreases s.len(),
{
    if s.len() > 0 && is_white_space(s.last()) {
        without_trailing_space(s.drop_last())
    } else {
        s
    }
}

/// A text without its leading and trailing whitespace.
pub open spec fn trimmed(s: Seq<char>) -> Seq<char> {
    without_trailing_space(without_leading_space(s))
}

/// Whether every character of a text is whitespace.
pub open spec fn all_white(t: Seq<char>) -> bool {
    forall|i: int| 0 <= i < t.len() ==> is_white_space(#[trigger] t[i])
}

proof fn lemma_trailing_white(y: Seq<char>, t: Seq<char>)
    requires
        all_white(t),
    ensures
        without_trailing_space(y + t) == without_trailing_space(y),
    decreases t.len(),
{
    if t.len() > 0 {
        assert((y + t).last() == t[t.len() - 1]);
        assert((y + t).drop_last() =~= y + t.drop_last());
        lemma_trailing_white(y, t.drop_last());
    } else {
        assert(y + t =~= y);
    }
}

proof fn lemma_leading_white(x: Seq<char>, t: Seq<char>)
    requires
        all_white(t),
    ensures
        without_leading_space(x).len() > 0 ==> without_leading_space(x + t) == without_leading_space(x) + t,
        without_leading_space(x).len() == 0 ==> without_leading_space(x + t).len() == 0,
    decreases x.len() + t.len(),
{
    if x.len() > 0 {
        assert((x + t)[0] == x[0]);
        if is_white_space(x[0]) {
            assert((x + t).drop_first() =~= x.drop_first() + t);
            lemma_leading_white(x.drop_first(), t);
        }
    } else {
        assert(x + t =~= t);
        if t.len() > 0 {
            assert(is_white_space(t[0]));
            assert(all_white(t.drop_first())) by {
                assert forall|i: int| 0 <= i < t.drop_first().len() implies is_white_space(#[trigger] t.drop_first()[i]) by {
                    assert(t.drop_first()[i] == t[i + 1]);
                }
            }
            lemma_leading_white(x, t.drop_first());
            assert(x + t.drop_first() =~= t.drop_first());
        }
    }
}

/// Whitespace added at the end of a text does not change its trimmed form.
pub(crate) proof fn lemma_trimmed_ignores_trailing_white(x: Seq<char>, t: Seq<char>)
    requires
        all_white(t),
    ensures
        trimmed(x + t) == trimmed(x),
{
    lemma_leading_white(x, t);
    if without_leading_space(x).len() > 0 {
        lemma_trailing_white(without_leading_space(x), t);
    } else {
        assert(without_leading_space(x) =~= Seq::<char>::empty());
        assert(without_leading_space(x + t) =~= Seq::<char>::empty());
    }
}

/// Calls `str::trim`, which by its documentation returns the string with
/// leading and trailing whitespace removed, whitespace being the characters
/// of the Unicode `White_Space` property.
#[verifier::external_body]
pub(crate) fn trim(s: &str) -> (res: String)
    ensures
        res@ == trimmed(s@),
{
    s.trim().to_string()
}

} // verus!
