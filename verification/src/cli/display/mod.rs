//! Building blocks for the styled lines the subcommands print.

use vstd::prelude::*;

use crate::text::{dec, line, push_span, push_str, u64_text, Color, Span, Style};

pub mod commit;
pub mod diff;
pub mod time;

verus! {

/// `n` in decimal.
pub fn usize_text(n: usize) -> (res: String)
    ensures
        res@ == dec(n as nat),
{
    u64_text(n as u64)
}

/// `c` followed by `n` in decimal.
pub fn prefixed_number(c: char, n: usize) -> (res: String)
    ensures
        res@ == seq![c] + dec(n as nat),
{
    let mut s = String::new();
    s.push(c);
    let d = usize_text(n);
    s.append(d.as_str());
    assert(s@ =~= seq![c] + dec(n as nat));
    s
}

pub open spec fn green() -> Style {
    Style { color: Color::Green, bold: false, dim: false }
}

pub open spec fn red() -> Style {
    Style { color: Color::Red, bold: false, dim: false }
}

pub open spec fn no_style() -> Style {
    Style { color: Color::Default, bold: false, dim: false }
}

pub open spec fn dim() -> Style {
    Style { color: Color::Default, bold: false, dim: true }
}

pub open spec fn fg(c: Color) -> Style {
    Style { color: c, bold: false, dim: false }
}

/// `+plus -minus`, the plus part green and the minus part red.
pub open spec fn plus_minus_line(plus: nat, minus: nat) -> Seq<(Seq<char>, Style)> {
    seq![(seq!['+'] + dec(plus), green()), (seq![' '], no_style()), (seq!['-'] + dec(minus), red())]
}

/// Displays two numbers like `+p -m` where the first part is green and the
/// second part is red. This is used to print ahead/behind and
/// insertions/deletions.
pub fn display_plus_minus(plus: usize, minus: usize) -> (res: Vec<Span>)
    ensures
        line(res@) == plus_minus_line(plus as nat, minus as nat),
{
    let mut out: Vec<Span> = Vec::new();
    push_span(&mut out, prefixed_number('+', plus), Style::fg(Color::Green));
    let mut sp = String::new();
    sp.push(' ');
    push_span(&mut out, sp, Style::none());
    push_span(&mut out, prefixed_number('-', minus), Style::fg(Color::Red));
    assert(line(out@) =~= plus_minus_line(plus as nat, minus as nat));
    out
}

/// A commit signature: who authored or committed something.
#[derive(Debug)]
pub struct Person {
    pub name: String,
    pub email: String,
}

/// The displayed signature: name and email, or a note that there is none.
pub open spec fn signature_line(signature: Option<&Person>) -> Seq<(Seq<char>, Style)> {
    match signature {
        Some(p) => seq![(p.name@, fg(Color::Cyan)), (seq![' '], no_style()), (p.email@, dim())],
        None => seq![("No user info"@, red())],
    }
}

/// Displays the name in cyan and the email dimmed, or "No user info" in red
/// when there is no configured signature.
pub fn display_signature(signature: Option<&Person>) -> (res: Vec<Span>)
    ensures
        line(res@) == signature_line(signature),
{
    let mut out: Vec<Span> = Vec::new();
    match signature {
        Some(p) => {
            push_str(&mut out, p.name.as_str(), Style::fg(Color::Cyan));
            let mut sp = String::new();
            sp.push(' ');
            push_span(&mut out, sp, Style::none());
            push_str(&mut out, p.email.as_str(), Style::dimmed());
        },
        None => {
            push_str(&mut out, "No user info", Style::fg(Color::Red));
        },
    }
    out
}

/// Displays a (shortened) object id in yellow.
pub fn display_hash(short_id: &str) -> (res: Vec<Span>)
    ensures
        line(res@) == seq![(short_id@, fg(Color::Yellow))],
{
    let mut out: Vec<Span> = Vec::new();
    push_str(&mut out, short_id, Style::fg(Color::Yellow));
    out
}

} // verus!
