//! `tag`: parses a semver, names the tag, and reports its creation and push.

use vstd::prelude::*;

use crate::cli::display::commit::{indented_lines, push_indented_lines, CommitMessageLevel};
use crate::cli::display::{display_signature, fg, green, no_style, signature_line, Person};
use crate::cli::error::CliError;
use crate::cli::status::Styled;
use crate::text::{
    append_spans, dec, digit_char, line, lines, push_str, str_eq, text_lines, u64_text, views, Color, Span, Style,
};

verus! {

/// Options of `tag`.
#[derive(Debug)]
pub struct TagArgs {
    /// Where to put the tag
    pub at: Option<String>,
    /// The remote to push to
    pub remote: Option<String>,
    /// Whether to push the tag after creating
    pub push: bool,
    /// The message for the tag. This implicitly makes an annotated tag.
    pub message: Option<String>,
    /// The semver. The leading 'v' is optional
    pub version: String,
}

/// The message when a repo requires annotated tags and none was asked for.
pub open spec fn not_annotated_msg() -> Seq<char> {
    "This repository requires annotated tags!\nSpecify a message with \"-m\" to annotate."@
}

/// The value of a string of decimal digits.
pub open spec fn digits_value(s: Seq<char>) -> nat
    decreases s.len(),
{
    if s.len() == 0 {
        0
    } else {
        digits_value(s.drop_last()) * 10 + ((s.last() as u32) - ('0' as u32)) as nat
    }
}

pub open spec fn is_digit(c: char) -> bool {
    '0' <= c && c <= '9'
}

/// A version component: one or more digits whose value fits a `u64`.
pub open spec fn valid_number(s: Seq<char>) -> bool {
    &&& s.len() > 0
    &&& forall|i: int| 0 <= i < s.len() ==> is_digit(#[trigger] s[i])
    &&& digits_value(s) <= u64::MAX
}

/// The version without its leading `v`, when it has one.
pub open spec fn without_v(s: Seq<char>) -> Seq<char> {
    if s.len() > 0 && s[0] == 'v' { s.drop_first() } else { s }
}

/// A version: three numbers separated by dots.
pub open spec fn semver_parts(s: Seq<char>) -> Option<(Seq<char>, Seq<char>, Seq<char>)> {
    if exists|i: int, j: int| 0 <= i < j < s.len() && s[i] == '.' && s[j] == '.'
        && !s.subrange(0, i).contains('.') && !s.subrange(i + 1, j).contains('.')
        && !s.subrange(j + 1, s.len() as int).contains('.') {
        let (i, j) = choose|i: int, j: int| 0 <= i < j < s.len() && s[i] == '.' && s[j] == '.'
            && !s.subrange(0, i).contains('.') && !s.subrange(i + 1, j).contains('.')
            && !s.subrange(j + 1, s.len() as int).contains('.');
        Some((s.subrange(0, i), s.subrange(i + 1, j), s.subrange(j + 1, s.len() as int)))
    } else {
        None
    }
}

/// The three numbers of a version without its `v`, when it is one.
pub open spec fn parsed_parts(s: Seq<char>) -> Option<(nat, nat, nat)> {
    match semver_parts(s) {
        Some(p) => if valid_number(p.0) && valid_number(p.1) && valid_number(p.2) {
            Some((digits_value(p.0), digits_value(p.1), digits_value(p.2)))
        } else {
            None
        },
        None => None,
    }
}

/// The parsed version, when the text is one.
pub open spec fn parsed_semver(s: Seq<char>) -> Option<(nat, nat, nat)> {
    parsed_parts(without_v(s))
}

/// `v<major>.<minor>.<patch>`.
pub open spec fn tag_name(v: (nat, nat, nat)) -> Seq<char> {
    seq!['v'] + dec(v.0) + seq!['.'] + dec(v.1) + seq!['.'] + dec(v.2)
}

/// `Invalid version: <text>`.
pub open spec fn invalid_version(s: Seq<char>) -> Seq<char> {
    "Invalid version: "@ + s
}

fn parse_number(s: &str, start: usize, end: usize) -> (res: Option<u64>)
    requires
        start <= end <= s@.len(),
    ensures
        valid_number(s@.subrange(start as int, end as int)) ==> res == Some(digits_value(s@.subrange(start as int, end as int)) as u64),
        !valid_number(s@.subrange(start as int, end as int)) ==> res is None,
{
    let ghost t = s@.subrange(start as int, end as int);
    if start == end {
        return None;
    }
    let mut j = start;
    while j < end
        invariant
            start <= j <= end,
            end <= s@.len(),
            t == s@.subrange(start as int, end as int),
            forall|k: int| 0 <= k < j - start ==> is_digit(#[trigger] t[k]),
        decreases end - j,
    {
        let c = s.get_char(j);
        assert(t[j - start] == c);
        if !('0' <= c && c <= '9') {
            return None;
        }
        j = j + 1;
    }
    let mut v: u64 = 0;
    let mut i = start;
    while i < end
        invariant
            start <= i <= end,
            end <= s@.len(),
            t == s@.subrange(start as int, end as int),
            forall|k: int| 0 <= k < t.len() ==> is_digit(#[trigger] t[k]),
            v == digits_value(t.subrange(0, i - start)),
        decreases end - i,
    {
        let c = s.get_char(i);
        assert(t[i - start] == c);
        let d = (c as u32 - '0' as u32) as u64;
        assert(t.subrange(0, i - start + 1).drop_last() =~= t.subrange(0, i - start));
        assert(t.subrange(0, i - start + 1).last() == c);
        if v > (u64::MAX - d) / 10 {
            proof {
                lemma_digits_value_prefix_bound(t, (i - start + 1) as int);
            }
            return None;
        }
        v = v * 10 + d;
        i = i + 1;
    }
    assert(t.subrange(0, (end - start) as int) =~= t);
    Some(v)
}

proof fn lemma_digits_value_prefix_bound(t: Seq<char>, k: int)
    requires
        0 <= k <= t.len(),
        forall|i: int| 0 <= i < t.len() ==> is_digit(#[trigger] t[i]),
    ensures
        digits_value(t.subrange(0, k)) <= digits_value(t),
    decreases t.len() - k,
{
    if k < t.len() {
        lemma_digits_value_prefix_bound(t, k + 1);
        assert(t.subrange(0, k + 1).drop_last() =~= t.subrange(0, k));
    } else {
        assert(t.subrange(0, k) =~= t);
    }
}

/// The positions of the first dots of a string, at most three.
fn find_dots(vs: &str) -> (dots: Vec<usize>)
    ensures
        dots@.len() <= 3,
        forall|k: int| 0 <= k < dots@.len() ==> dots@[k] < vs@.len() && vs@[dots@[k] as int] == '.',
        forall|k: int, l: int| 0 <= k < l < dots@.len() ==> dots@[k] < dots@[l],
        dots@.len() < 3 ==> (forall|x: int| 0 <= x < vs@.len() && vs@[x] == '.' ==> dots@.contains(x as usize)),
{
    let m = vs.unicode_len();
    let mut dots: Vec<usize> = Vec::new();
    let mut i: usize = 0;
    while i < m
        invariant
            i <= m,
            m == vs@.len(),
            dots@.len() <= 3,
            forall|k: int| 0 <= k < dots@.len() ==> dots@[k] < i && vs@[dots@[k] as int] == '.',
            forall|k: int, l: int| 0 <= k < l < dots@.len() ==> dots@[k] < dots@[l],
            dots@.len() < 3 ==> (forall|x: int| 0 <= x < i && vs@[x] == '.' ==> dots@.contains(x as usize)),
        decreases m - i,
    {
        let ghost prev = dots@;
        if vs.get_char(i) == '.' && dots.len() < 3 {
            dots.push(i);
            proof {
                assert(dots@ =~= prev.push(i));
                assert(dots@[dots@.len() - 1] == i);
                assert forall|x: int| 0 <= x < i && vs@[x] == '.' && prev.contains(x as usize) implies dots@.contains(x as usize) by {
                    let k = choose|k: int| 0 <= k < prev.len() && prev[k] == x as usize;
                    assert(dots@[k] == x as usize);
                }
            }
        }
        i = i + 1;
    }
    dots
}

/// The decimal text of a number is digits whose value is the number.
proof fn lemma_dec_digits(n: nat)
    ensures
        dec(n).len() > 0,
        forall|k: int| 0 <= k < dec(n).len() ==> is_digit(#[trigger] dec(n)[k]),
        digits_value(dec(n)) == n,
    decreases n,
{
    lemma_digit_char_value(n % 10);
    let d = dec(n);
    if n < 10 {
        assert(d.drop_last() =~= Seq::<char>::empty());
        assert(digits_value(d) == digits_value(d.drop_last()) * 10 + ((d.last() as u32) - ('0' as u32)) as nat);
    } else {
        lemma_dec_digits(n / 10);
        assert(d.drop_last() =~= dec(n / 10));
        assert(d.last() == digit_char(n % 10));
        assert(digits_value(d) == digits_value(d.drop_last()) * 10 + ((d.last() as u32) - ('0' as u32)) as nat);
        assert(n == (n / 10) * 10 + n % 10);
        assert forall|k: int| 0 <= k < d.len() implies is_digit(#[trigger] d[k]) by {
            if k < d.len() - 1 {
                assert(d[k] == dec(n / 10)[k]);
            }
        }
    }
}

proof fn lemma_digit_char_value(d: nat)
    requires
        d < 10,
    ensures
        is_digit(digit_char(d)),
        (digit_char(d) as u32) - ('0' as u32) == d,
{
}

/// The first dot at or after `from` in text whose other characters are
/// digits is the one at `at`.
proof fn lemma_only_dot(t: Seq<char>, from: int, at: int, k: int)
    requires
        0 <= from <= at < t.len(),
        t[at] == '.',
        forall|x: int| from <= x < at ==> is_digit(#[trigger] t[x]),
        from <= k < t.len(),
        t[k] == '.',
        !t.subrange(from, k).contains('.'),
    ensures
        k == at,
{
    if k < at {
        assert(is_digit(t[k]));
    } else if k > at {
        assert(t.subrange(from, k)[at - from] == '.');
    }
}

/// The tag name of a version reads back as that version: parsing
/// `v<major>.<minor>.<patch>` gives the three numbers it was made of.
pub proof fn lemma_tag_name_parses_back(v: (nat, nat, nat))
    requires
        v.0 <= u64::MAX,
        v.1 <= u64::MAX,
        v.2 <= u64::MAX,
    ensures
        parsed_semver(tag_name(v)) == Some(v),
{
    let (a, b, c) = (dec(v.0), dec(v.1), dec(v.2));
    lemma_dec_digits(v.0);
    lemma_dec_digits(v.1);
    lemma_dec_digits(v.2);
    let t = a + seq!['.'] + b + seq!['.'] + c;
    assert(without_v(tag_name(v)) =~= t);
    let i = a.len() as int;
    let j = i + 1 + b.len();
    assert(t.subrange(0, i) =~= a);
    assert(t.subrange(i + 1, j) =~= b);
    assert(t.subrange(j + 1, t.len() as int) =~= c);
    assert(t[i] == '.');
    assert(t[j] == '.');
    assert forall|x: int| 0 <= x < i implies is_digit(#[trigger] t[x]) by {
        assert(t[x] == a[x]);
    }
    assert forall|x: int| i + 1 <= x < j implies is_digit(#[trigger] t[x]) by {
        assert(t[x] == b[x - i - 1]);
    }
    assert forall|x: int| j + 1 <= x < t.len() implies is_digit(#[trigger] t[x]) by {
        assert(t[x] == c[x - j - 1]);
    }
    assert(!a.contains('.')) by {
        if a.contains('.') {
            let k = choose|k: int| 0 <= k < a.len() && a[k] == '.';
            assert(is_digit(a[k]));
        }
    }
    assert(!b.contains('.')) by {
        if b.contains('.') {
            let k = choose|k: int| 0 <= k < b.len() && b[k] == '.';
            assert(is_digit(b[k]));
        }
    }
    assert(!c.contains('.')) by {
        if c.contains('.') {
            let k = choose|k: int| 0 <= k < c.len() && c[k] == '.';
            assert(is_digit(c[k]));
        }
    }
    let (i2, j2) = choose|i: int, j: int| 0 <= i < j < t.len() && t[i] == '.' && t[j] == '.'
        && !t.subrange(0, i).contains('.') && !t.subrange(i + 1, j).contains('.')
        && !t.subrange(j + 1, t.len() as int).contains('.');
    lemma_only_dot(t, 0, i, i2);
    lemma_only_dot(t, i + 1, j, j2);
    assert(semver_parts(t) == Some((a, b, c)));
}

/// The three numbers of a version written without its `v`.
fn version_numbers(vs: &str) -> (res: Option<(u64, u64, u64)>)
    ensures
        match parsed_parts(vs@) {
            Some(p) => res matches Some(r) && r.0 == p.0 && r.1 == p.1 && r.2 == p.2,
            None => res is None,
        },
{
    let m = vs.unicode_len();
    let dots = find_dots(vs);
    if dots.len() != 2 {
        proof {
            lemma_no_semver_parts(vs@, dots@);
        }
        return None;
    }
    let a = dots[0];
    let b = dots[1];
    proof {
        lemma_semver_parts(vs@, a as int, b as int);
    }
    let x = parse_number(vs, 0, a);
    let y = parse_number(vs, a + 1, b);
    let z = parse_number(vs, b + 1, m);
    match (x, y, z) {
        (Some(x), Some(y), Some(z)) => Some((x, y, z)),
        _ => None,
    }
}

/// `v<x>.<y>.<z>`.
fn tag_text(x: u64, y: u64, z: u64) -> (res: String)
    ensures
        res@ == tag_name((x as nat, y as nat, z as nat)),
{
    let mut name = String::new();
    name.push('v');
    name.append(u64_text(x).as_str());
    name.push('.');
    name.append(u64_text(y).as_str());
    name.push('.');
    name.append(u64_text(z).as_str());
    name
}

impl TagArgs {
    /// Parses the version and names the tag `v<major>.<minor>.<patch>`; a
    /// version that is not three numbers separated by dots is an error.
    pub fn tag_name(&self) -> (res: Result<String, CliError>)
        ensures
            parsed_semver(self.version@) matches Some(v) ==> (res matches Ok(n) && n@ == tag_name(v)),
            parsed_semver(self.version@) is None ==> (res matches Err(CliError::Generic(m))
                && m@ == invalid_version(without_v(self.version@))),
    {
        let s = self.version.as_str();
        let n = s.unicode_len();
        let start: usize = if n > 0 && s.get_char(0) == 'v' { 1 } else { 0 };
        let v = crate::text::suffix_from(s, start);
        assert(v@ == without_v(s@));
        match version_numbers(v.as_str()) {
            Some((x, y, z)) => Ok(tag_text(x, y, z)),
            None => {
                let mut err = String::from_str("Invalid version: ");
                err.append(v.as_str());
                Err(CliError::Generic(err))
            },
        }
    }

    /// Whether making the tag is allowed: a lightweight tag (no message) is
    /// refused where annotated tags are required.
    pub fn check_annotated(&self, require_annotated: bool) -> (res: Result<(), CliError>)
        ensures
            self.message is None && require_annotated ==> (res matches Err(CliError::Generic(m)) && m@ == not_annotated_msg()),
            !(self.message is None && require_annotated) ==> res is Ok,
    {
        if self.message.is_none() && require_annotated {
            Err(CliError::Generic(String::from_str("This repository requires annotated tags!\nSpecify a message with \"-m\" to annotate.")))
        } else {
            Ok(())
        }
    }

    /// The remote to push to: the one given, else the configured default.
    pub fn remote_name(&self, default_remote: &str) -> (res: String)
        ensures
            res@ == (match self.remote { Some(r) => r@, None => default_remote@ }),
    {
        match &self.remote {
            Some(r) => r.clone(),
            None => String::from_str(default_remote),
        }
    }
}

proof fn lemma_semver_parts(s: Seq<char>, a: int, b: int)
    requires
        0 <= a < b < s.len(),
        s[a] == '.',
        s[b] == '.',
        forall|x: int| 0 <= x < s.len() && s[x] == '.' ==> x == a || x == b,
    ensures
        semver_parts(s) == Some((s.subrange(0, a), s.subrange(a + 1, b), s.subrange(b + 1, s.len() as int))),
{
    assert(!s.subrange(0, a).contains('.')) by {
        if s.subrange(0, a).contains('.') {
            let k = choose|k: int| 0 <= k < a && #[trigger] s.subrange(0, a)[k] == '.';
            assert(s[k] == '.');
        }
    }
    assert(!s.subrange(a + 1, b).contains('.')) by {
        if s.subrange(a + 1, b).contains('.') {
            let k = choose|k: int| 0 <= k < b - a - 1 && #[trigger] s.subrange(a + 1, b)[k] == '.';
            assert(s[a + 1 + k] == '.');
        }
    }
    assert(!s.subrange(b + 1, s.len() as int).contains('.')) by {
        if s.subrange(b + 1, s.len() as int).contains('.') {
            let k = choose|k: int| 0 <= k < s.len() - b - 1 && #[trigger] s.subrange(b + 1, s.len() as int)[k] == '.';
            assert(s[b + 1 + k] == '.');
        }
    }
    let (i, j) = choose|i: int, j: int| 0 <= i < j < s.len() && s[i] == '.' && s[j] == '.'
        && !s.subrange(0, i).contains('.') && !s.subrange(i + 1, j).contains('.')
        && !s.subrange(j + 1, s.len() as int).contains('.');
    assert(i == a && j == b);
}

proof fn lemma_no_semver_parts(s: Seq<char>, dots: Seq<usize>)
    requires
        s.len() <= usize::MAX,
        dots.len() != 2,
        dots.len() <= 3,
        forall|k: int| 0 <= k < dots.len() ==> dots[k] < s.len() && s[dots[k] as int] == '.',
        forall|k: int, l: int| 0 <= k < l < dots.len() ==> dots[k] < dots[l],
        dots.len() < 3 ==> (forall|x: int| 0 <= x < s.len() && s[x] == '.' ==> dots.contains(x as usize)),
    ensures
        semver_parts(s) is None,
{
    if exists|i: int, j: int| 0 <= i < j < s.len() && s[i] == '.' && s[j] == '.'
        && !s.subrange(0, i).contains('.') && !s.subrange(i + 1, j).contains('.')
        && !s.subrange(j + 1, s.len() as int).contains('.') {
        let (i, j) = choose|i: int, j: int| 0 <= i < j < s.len() && s[i] == '.' && s[j] == '.'
            && !s.subrange(0, i).contains('.') && !s.subrange(i + 1, j).contains('.')
            && !s.subrange(j + 1, s.len() as int).contains('.');
        // every dot is at i or j
        assert forall|x: int| 0 <= x < s.len() && s[x] == '.' implies x == i || x == j by {
            if x < i {
                assert(s.subrange(0, i)[x] == '.');
            } else if i < x < j {
                assert(s.subrange(i + 1, j)[x - i - 1] == '.');
            } else if x > j {
                assert(s.subrange(j + 1, s.len() as int)[x - j - 1] == '.');
            }
        }
        if dots.len() == 3 {
            assert(dots[0] < dots[1] && dots[1] < dots[2]);
            assert(false);
        } else {
            assert(dots.contains(i as usize));
            assert(dots.contains(j as usize));
            let ki = choose|k: int| 0 <= k < dots.len() && dots[k] == i as usize;
            let kj = choose|k: int| 0 <= k < dots.len() && dots[k] == j as usize;
            assert(dots[ki] != dots[kj]);
            assert(ki != kj);
            assert(dots.len() < 2);
            assert(false);
        }
    }
}

/// `Created tag <name> at <target>`.
pub open spec fn created_line(name: Seq<char>, target: Seq<char>) -> Styled {
    seq![("Created"@, green()), (" tag "@, no_style()), (name, fg(Color::Cyan)), (" at "@ + target, no_style())]
}

/// Reports the created tag.
pub fn display_created(name: &str, target: &str) -> (res: Vec<Span>)
    ensures
        line(res@) == created_line(name@, target@),
{
    let mut out: Vec<Span> = Vec::new();
    push_str(&mut out, "Created", Style::fg(Color::Green));
    push_str(&mut out, " tag ", Style::none());
    push_str(&mut out, name, Style::fg(Color::Cyan));
    let mut at = String::from_str(" at ");
    at.append(target);
    crate::text::push_span(&mut out, at, Style::none());
    out
}

/// Reports the pushed tag: `Pushed tag <name> to <remote>`.
pub fn display_pushed(name: &str, remote: &str) -> (res: Vec<Span>)
    ensures
        line(res@) == seq![("Pushed"@, green()), (" tag "@, no_style()), (name@, fg(Color::Cyan)), (" to "@, no_style()),
            (remote@, fg(Color::Blue))],
{
    let mut out: Vec<Span> = Vec::new();
    push_str(&mut out, "Pushed", Style::fg(Color::Green));
    push_str(&mut out, " tag ", Style::none());
    push_str(&mut out, name, Style::fg(Color::Cyan));
    push_str(&mut out, " to ", Style::none());
    push_str(&mut out, remote, Style::fg(Color::Blue));
    out
}

/// What the tag display reads of a tag object.
#[derive(Debug)]
pub struct TagInfo {
    pub short_id: String,
    /// The tagger and the displayed time of tagging
    pub tagger: Option<(Person, String)>,
    pub message: Option<String>,
}

/// The tag display: its hash, when and by whom it was made, then its message
/// indented (unless messages are hidden).
pub open spec fn tag_display(t: TagInfo, level: CommitMessageLevel) -> Styled {
    seq![(t.short_id@, fg(Color::Yellow))]
        + (match t.tagger {
            Some(p) => seq![(seq![' '], no_style()), (p.1@, fg(Color::Magenta)), (" by "@, no_style())] + signature_line(Some(&p.0)),
            None => Seq::empty(),
        })
        + (match t.message {
            Some(m) => if level == CommitMessageLevel::Hidden {
                Seq::empty()
            } else {
                seq![(seq!['\n'], no_style())] + indented_lines(text_lines(m@))
            },
            None => Seq::empty(),
        })
}

/// Displays a tag object in a format similar to a commit.
pub fn display_tag(t: &TagInfo, level: CommitMessageLevel) -> (res: Vec<Span>)
    ensures
        line(res@) == tag_display(*t, level),
{
    let mut out: Vec<Span> = Vec::new();
    push_str(&mut out, t.short_id.as_str(), Style::fg(Color::Yellow));
    proof {
        reveal_strlit(" ");
        reveal_strlit("\n");
        assert(" "@ =~= seq![' ']);
        assert("\n"@ =~= seq!['\n']);
    }
    match &t.tagger {
        Some((p, time)) => {
            push_str(&mut out, " ", Style::none());
            push_str(&mut out, time.as_str(), Style::fg(Color::Magenta));
            push_str(&mut out, " by ", Style::none());
            append_spans(&mut out, display_signature(Some(p)));
        },
        None => {},
    }
    let ghost a = line(out@);
    match &t.message {
        Some(m) => {
            if level != CommitMessageLevel::Hidden {
                push_str(&mut out, "\n", Style::none());
                let ls = lines(m.as_str());
                push_indented_lines(&mut out, ls);
            }
        },
        None => {},
    }
    proof {
        let tg = match &t.tagger {
            Some(p) => seq![(seq![' '], no_style()), (p.1@, fg(Color::Magenta)), (" by "@, no_style())] + signature_line(Some(&p.0)),
            None => Seq::empty(),
        };
        assert(a =~= seq![(t.short_id@, fg(Color::Yellow))] + tg);
        assert(line(out@) =~= tag_display(*t, level));
    }
    out
}

} // verus!
