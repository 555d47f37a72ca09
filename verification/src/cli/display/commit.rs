//! Formatted info about a commit.

use vstd::prelude::*;

use crate::cli::display::time::{display_time, display_time_relative, formatted_time, relative_from, DisplayTimeOptions, GitTime};
use crate::cli::display::{display_hash, display_signature, signature_line, Person};
use crate::cli::error::CliError;
use crate::text::{append_spans, line, lines, push_span, push_str, str_eq, text_lines, views, Color, Span, Style};

verus! {

/// How much of a commit message to show.
#[derive(Clone, Copy, PartialEq, Eq, Structural, Debug)]
pub enum CommitMessageLevel {
    Hidden,
    Subject,
    Full,
}

/// Options for [display_commit].
#[derive(Debug)]
pub struct DisplayCommitOptions {
    pub time: DisplayTimeOptions,
    pub message: CommitMessageLevel,
}

/// What the display code reads of a commit.
#[derive(Debug)]
pub struct CommitInfo {
    /// The shortened object id
    pub short_id: String,
    pub time: GitTime,
    pub author: Person,
    pub committer: Person,
    /// The subject line, if the message has one
    pub summary: Option<String>,
    pub message: String,
}

/// A styled line with every part dimmed, its color and weight kept.
pub open spec fn dim_all(l: Seq<(Seq<char>, Style)>) -> Seq<(Seq<char>, Style)> {
    l.map_values(|p: (Seq<char>, Style)| (p.0, Style { color: p.1.color, bold: p.1.bold, dim: true }))
}

/// Copies a line with every span dimmed.
fn dimmed(spans: Vec<Span>) -> (res: Vec<Span>)
    ensures
        line(res@) == dim_all(line(spans@)),
        res@.len() == spans@.len(),
        forall|i: int| 0 <= i < res@.len() ==> (#[trigger] res@[i]).text@ == spans@[i].text@ && res@[i].style.dim
            && res@[i].style.color == spans@[i].style.color && res@[i].style.bold == spans@[i].style.bold,
{
    let mut out: Vec<Span> = Vec::new();
    let mut spans = spans;
    let ghost orig = spans@;
    let mut rev: Vec<Span> = Vec::new();
    while spans.len() > 0
        invariant
            spans@.len() + rev@.len() == orig.len(),
            spans@ == orig.subrange(0, spans@.len() as int),
            forall|i: int| 0 <= i < rev@.len() ==> (#[trigger] rev@[i]).text@ == orig[orig.len() - 1 - i].text@
                && rev@[i].style.dim && rev@[i].style.color == orig[orig.len() - 1 - i].style.color
                && rev@[i].style.bold == orig[orig.len() - 1 - i].style.bold,
        decreases spans.len(),
    {
        let s = spans.pop().unwrap();
        let st = Style { color: s.style.color, bold: s.style.bold, dim: true };
        rev.push(Span { text: s.text, style: st });
    }
    while rev.len() > 0
        invariant
            rev@.len() + out@.len() == orig.len(),
            forall|i: int| 0 <= i < rev@.len() ==> (#[trigger] rev@[i]).text@ == orig[orig.len() - 1 - i].text@
                && rev@[i].style.dim && rev@[i].style.color == orig[orig.len() - 1 - i].style.color
                && rev@[i].style.bold == orig[orig.len() - 1 - i].style.bold,
            forall|i: int| 0 <= i < out@.len() ==> (#[trigger] out@[i]).text@ == orig[i].text@ && out@[i].style.dim
                && out@[i].style.color == orig[i].style.color && out@[i].style.bold == orig[i].style.bold,
        decreases rev.len(),
    {
        let s = rev.pop().unwrap();
        out.push(s);
    }
    assert(line(out@) =~= dim_all(line(orig)));
    out
}

/// The message lines of a commit, each on a new line indented by two spaces.
pub open spec fn indented_lines(ls: Seq<Seq<char>>) -> Seq<(Seq<char>, Style)>
    decreases ls.len(),
{
    if ls.len() == 0 {
        Seq::empty()
    } else {
        indented_lines(ls.drop_last()) + seq![("\n  "@, Style { color: Color::Default, bold: false, dim: false }), (ls.last(), Style { color: Color::Default, bold: false, dim: false })]
    }
}

/// Appends each line on a new line indented by two spaces.
pub fn push_indented_lines(out: &mut Vec<Span>, ls: Vec<String>)
    ensures
        line(final(out)@) == line(old(out)@) + indented_lines(views(ls@)),
{
    let mut i: usize = 0;
    while i < ls.len()
        invariant
            i <= ls.len(),
            line(out@) == line(old(out)@) + indented_lines(views(ls@.subrange(0, i as int))),
        decreases ls.len() - i,
    {
        push_str(out, "\n  ", Style::none());
        push_str(out, ls[i].as_str(), Style::none());
        proof {
            let s = views(ls@.subrange(0, i + 1));
            assert(s.drop_last() =~= views(ls@.subrange(0, i as int)));
            assert(line(out@) =~= line(old(out)@) + indented_lines(s));
        }
        i = i + 1;
    }
    assert(ls@.subrange(0, ls.len() as int) =~= ls@);
}

/// The part naming the committer, dimmed, when it is not the author.
pub open spec fn committer_part(c: CommitInfo) -> Seq<(Seq<char>, Style)> {
    if c.author.name@ != c.committer.name@ {
        seq![("\n  "@, plain_style()), ("Committed by"@, dim_style()), (" "@, plain_style())]
            + dim_all(signature_line(Some(&c.committer)))
    } else {
        Seq::empty()
    }
}

pub open spec fn plain_style() -> Style {
    Style { color: Color::Default, bold: false, dim: false }
}

pub open spec fn dim_style() -> Style {
    Style { color: Color::Default, bold: false, dim: true }
}

/// The display of a commit shown at time text `when`: hash, time, author
/// (and committer), then the message as the level asks; `None` when the
/// subject is asked for and the commit has none.
pub open spec fn commit_display(c: CommitInfo, when: Seq<char>, level: CommitMessageLevel) -> Option<Seq<(Seq<char>, Style)>> {
    let head = seq![
        (c.short_id@, Style { color: Color::Yellow, bold: false, dim: false }),
        (" "@, plain_style()),
        (when, Style { color: Color::Magenta, bold: false, dim: false }),
        (" by "@, plain_style()),
    ] + signature_line(Some(&c.author)) + committer_part(c);
    match level {
        CommitMessageLevel::Hidden => Some(head),
        CommitMessageLevel::Subject => match c.summary {
            Some(s) => Some(head + seq![("\n\n  "@, plain_style()), (s@, plain_style())]),
            None => None,
        },
        CommitMessageLevel::Full => Some(head + seq![("\n"@, plain_style())] + indented_lines(text_lines(c.message@))),
    }
}

/// Whether `when` is how the options show the time: how long ago it was at
/// some moment, or the time formatted with the options' format.
pub open spec fn time_shown(t: GitTime, options: DisplayTimeOptions, when: Seq<char>) -> bool {
    if options.relative {
        exists|now: i64| when == #[trigger] relative_from(now, t.seconds)
    } else {
        formatted_time(t.seconds, (t.offset_minutes * 60) as i32, options.fmt@) == Some(when)
    }
}

/// Displays a commit with its time already put as text (`when`).
pub fn display_commit_at(commit: &CommitInfo, when: &str, level: CommitMessageLevel) -> (res: Result<Vec<Span>, CliError>)
    ensures
        commit_display(*commit, when@, level) matches Some(l) ==> (res matches Ok(spans) && line(spans@) == l),
        commit_display(*commit, when@, level) is None ==> (res matches Err(CliError::Generic(m)) && m@ == "Failed to get commit subject"@),
{
    let mut out = display_hash(commit.short_id.as_str());
    push_str(&mut out, " ", Style::none());
    push_str(&mut out, when, Style::fg(Color::Magenta));
    push_str(&mut out, " by ", Style::none());
    append_spans(&mut out, display_signature(Some(&commit.author)));
    let ghost sig_end = line(out@);
    if !str_eq(commit.author.name.as_str(), commit.committer.name.as_str()) {
        push_str(&mut out, "\n  ", Style::none());
        push_str(&mut out, "Committed by", Style::dimmed());
        push_str(&mut out, " ", Style::none());
        append_spans(&mut out, dimmed(display_signature(Some(&commit.committer))));
    }
    let ghost before = line(out@);
    assert(before =~= sig_end + committer_part(*commit));
    match level {
        CommitMessageLevel::Hidden => {},
        CommitMessageLevel::Subject => {
            match &commit.summary {
                Some(s) => {
                    push_str(&mut out, "\n\n  ", Style::none());
                    push_str(&mut out, s.as_str(), Style::none());
                },
                None => {
                    return Err(CliError::Generic(String::from_str("Failed to get commit subject")));
                },
            }
        },
        CommitMessageLevel::Full => {
            push_str(&mut out, "\n", Style::none());
            let ls = lines(commit.message.as_str());
            push_indented_lines(&mut out, ls);
        },
    }
    Ok(out)
}

/// Displays formatted info about a commit: the short hash, the time and the
/// author (and the committer when it differs), then as much of the message as
/// the options ask for.
///
/// ```txt
/// 1234567 Apr 14, 2025 at 5:46 PM by Author Name
///
///   subject
///
///   body
/// ```
pub fn display_commit(commit: &CommitInfo, options: &DisplayCommitOptions) -> (res: Result<Vec<Span>, CliError>)
    requires
        -35791394 <= commit.time.offset_minutes <= 35791394,
    ensures
        res matches Ok(spans) ==> exists|when: Seq<char>| #[trigger] time_shown(commit.time, options.time, when)
            && commit_display(*commit, when, options.message) == Some(line(spans@)),
        options.message == CommitMessageLevel::Subject && commit.summary is None ==> res is Err,
        !options.time.relative ==> (res is Ok <==> (
            formatted_time(commit.time.seconds, (commit.time.offset_minutes * 60) as i32, options.time.fmt@) is Some
            && !(options.message == CommitMessageLevel::Subject && commit.summary is None))),
{
    let t = display_time(&commit.time, &options.time)?;
    assert(time_shown(commit.time, options.time, t@));
    display_commit_at(commit, t.as_str(), options.message)
}

/// A very concise format meant to be displayed on one line:
/// `abcd123 (Author Name, 5 minutes ago) implemented change`. The hash is
/// yellow, the parenthesized author/time dim and the subject plain.
pub fn display_commit_compact(commit: &CommitInfo) -> (res: Result<Vec<Span>, CliError>)
    requires
        commit.summary is Some,
    ensures
        res matches Err(e) ==> (e matches CliError::Generic(m) && m@ == "Failed to get current time"@),
        res matches Ok(spans) ==> exists|when: Seq<char>| (exists|now: i64| when == #[trigger] relative_from(now, commit.time.seconds))
            && line(spans@) == seq![
            (commit.short_id@, Style { color: Color::Yellow, bold: false, dim: false }),
            (" "@, Style { color: Color::Default, bold: false, dim: false }),
            ("("@ + commit.author.name@ + ", "@ + when + ")"@, Style { color: Color::Default, bold: false, dim: true }),
            (" "@, Style { color: Color::Default, bold: false, dim: false }),
            (commit.summary->0@, Style { color: Color::Default, bold: false, dim: false }),
        ],
{
    let when = display_time_relative(&commit.time)?;
    let mut out = display_hash(commit.short_id.as_str());
    push_str(&mut out, " ", Style::none());
    let mut paren = String::from_str("(");
    paren.append(commit.author.name.as_str());
    paren.append(", ");
    paren.append(when.as_str());
    paren.append(")");
    push_span(&mut out, paren, Style::dimmed());
    push_str(&mut out, " ", Style::none());
    match &commit.summary {
        Some(s) => push_str(&mut out, s.as_str(), Style::none()),
        None => {},
    }
    proof {
        assert(line(out@) =~= seq![
            (commit.short_id@, Style { color: Color::Yellow, bold: false, dim: false }),
            (" "@, Style { color: Color::Default, bold: false, dim: false }),
            ("("@ + commit.author.name@ + ", "@ + when@ + ")"@, Style { color: Color::Default, bold: false, dim: true }),
            (" "@, Style { color: Color::Default, bold: false, dim: false }),
            (commit.summary->0@, Style { color: Color::Default, bold: false, dim: false }),
        ]);
    }
    Ok(out)
}

} // verus!
