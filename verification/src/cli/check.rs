//! `check`: reports how a branch stands against its upstream and its base.

use vstd::prelude::*;

use crate::cli::display::{fg, green, no_style, red};
use crate::cli::error::CliError;
use crate::cli::push::PushCheckStatus;
use crate::cli::status::Styled;
use crate::text::{append_spans, line, push_span, push_str, Color, Span, Style};

verus! {

/// Options of `check`.
#[derive(Debug)]
pub struct Args {
    /// The base to use for the branch
    pub base: Option<String>,
    /// The branch to check
    pub branch: Option<String>,
}

/// The message when no branch is named and HEAD is not on one.
pub open spec fn not_on_branch_msg() -> Seq<char> {
    "Not currently on a branch! You can switch to a branch or specify one manually\nas the last argument."@
}

/// How a check's outcome reads.
pub open spec fn status_text(s: PushCheckStatus) -> Styled {
    match s {
        PushCheckStatus::NoBranch => seq![("non-existent"@, no_style())],
        PushCheckStatus::Forced => seq![("ignored"@, no_style())],
        PushCheckStatus::UpToDate | PushCheckStatus::Ahead => seq![("up to date"@, green())],
        PushCheckStatus::Behind => seq![("fast-forwardable"@, green()), ("\n  This is automatic when pushing or syncing"@, no_style())],
        PushCheckStatus::Diverged => seq![("diverged"@, red()),
            ("\n  You'll have to bring in the upstream changes before pushing"@, no_style())],
    }
}

/// Whether two outcomes mean the same to the user: being ahead reads as up
/// to date.
pub open spec fn same_meaning(a: PushCheckStatus, b: PushCheckStatus) -> bool {
    a == b || ((a == PushCheckStatus::UpToDate || a == PushCheckStatus::Ahead)
        && (b == PushCheckStatus::UpToDate || b == PushCheckStatus::Ahead))
}

/// Outcomes read differently unless they mean the same: the text is "up to
/// date" (in green) only when the branch is up to date or ahead, red only
/// when it has diverged, and a divergence reads "diverged" with advice.
pub proof fn lemma_status_texts_tell_outcomes_apart(a: PushCheckStatus, b: PushCheckStatus)
    ensures
        status_text(a) == status_text(b) <==> same_meaning(a, b),
        status_text(a).len() > 0,
        status_text(a)[0] == ("up to date"@, green()) <==> (a == PushCheckStatus::UpToDate || a == PushCheckStatus::Ahead),
        status_text(a)[0].1 == red() <==> a == PushCheckStatus::Diverged,
        a == PushCheckStatus::Diverged ==> status_text(a)[0].0 == "diverged"@ && status_text(a).len() == 2,
{
    reveal_strlit("non-existent");
    reveal_strlit("ignored");
    reveal_strlit("up to date");
    reveal_strlit("fast-forwardable");
    reveal_strlit("diverged");
    let ta = status_text(a);
    let tb = status_text(b);
    assert("up to date"@.len() == 10);
    if a == PushCheckStatus::Behind {
        assert(ta[0].0.len() == 16);
    }
    if a == PushCheckStatus::NoBranch {
        assert(ta[0].0.len() == 12);
    }
    if a == PushCheckStatus::Forced {
        assert(ta[0].0.len() == 7);
    }
    if a == PushCheckStatus::Diverged {
        assert(ta[0].0.len() == 8);
    }
    if ta == tb && !same_meaning(a, b) {
        assert(ta[0] == tb[0]);
        assert(ta[0].0.len() == tb[0].0.len());
    }
}

/// Displays a check's outcome.
pub fn display_status(s: PushCheckStatus) -> (res: Vec<Span>)
    ensures
        line(res@) == status_text(s),
{
    let mut out: Vec<Span> = Vec::new();
    match s {
        PushCheckStatus::NoBranch => push_str(&mut out, "non-existent", Style::none()),
        PushCheckStatus::Forced => push_str(&mut out, "ignored", Style::none()),
        PushCheckStatus::UpToDate | PushCheckStatus::Ahead => push_str(&mut out, "up to date", Style::fg(Color::Green)),
        PushCheckStatus::Behind => {
            push_str(&mut out, "fast-forwardable", Style::fg(Color::Green));
            push_str(&mut out, "\n  This is automatic when pushing or syncing", Style::none());
        },
        PushCheckStatus::Diverged => {
            push_str(&mut out, "diverged", Style::fg(Color::Red));
            push_str(&mut out, "\n  You'll have to bring in the upstream changes before pushing", Style::none());
        },
    }
    assert(line(out@) =~= status_text(s));
    out
}

/// `Against upstream <name>: <status>` (or `Against base`).
pub open spec fn against_line(upstream: bool, name: Seq<char>, s: PushCheckStatus) -> Styled {
    seq![
        (if upstream { "Against upstream"@ } else { "Against base"@ }, fg(if upstream { Color::Blue } else { Color::Magenta })),
        (seq![' '] + name + ": "@, no_style()),
    ] + status_text(s)
}

/// Reports a check against the upstream (`upstream`) or the base.
pub fn display_against(upstream: bool, name: &str, s: PushCheckStatus) -> (res: Vec<Span>)
    ensures
        line(res@) == against_line(upstream, name@, s),
{
    let mut out: Vec<Span> = Vec::new();
    if upstream {
        push_str(&mut out, "Against upstream", Style::fg(Color::Blue));
    } else {
        push_str(&mut out, "Against base", Style::fg(Color::Magenta));
    }
    let mut mid = String::new();
    mid.push(' ');
    mid.append(name);
    mid.append(": ");
    assert(mid@ =~= seq![' '] + name@ + ": "@);
    push_span(&mut out, mid, Style::none());
    append_spans(&mut out, display_status(s));
    out
}

/// `Checking <branch>…`.
pub fn display_checking(name: &str) -> (res: Vec<Span>)
    ensures
        line(res@) == seq![("Checking "@, no_style()), (name@, fg(Color::Cyan)), ("\u{2026}"@, no_style())],
{
    let mut out: Vec<Span> = Vec::new();
    push_str(&mut out, "Checking ", Style::none());
    push_str(&mut out, name, Style::fg(Color::Cyan));
    push_str(&mut out, "\u{2026}", Style::none());
    out
}

/// The error when no branch is named and HEAD is not on one.
pub fn not_on_branch() -> (res: CliError)
    ensures
        res matches CliError::Generic(m) && m@ == not_on_branch_msg(),
{
    CliError::Generic(String::from_str("Not currently on a branch! You can switch to a branch or specify one manually\nas the last argument."))
}

} // verus!
