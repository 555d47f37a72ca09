//! The status report: where the repo is checked out, which operation is under
//! way and what changed in the workdir.

use vstd::prelude::*;

use crate::cli::display::commit::{indented_lines, push_indented_lines};
use crate::cli::display::diff::{
    bracketed, dim_brackets, display_summary, file_summary_line, files_lines, status_icon, summary_header_line,
    DiffFileSummary, DiffSummary, FileStatus,
};
use crate::cli::display::{
    display_hash, display_plus_minus, display_signature, dim, fg, green, no_style, plus_minus_line, red,
    signature_line, usize_text, Person,
};
use crate::text::{
    append_spans, dec, join_lines, join_spans, line, lines_of, push_span, push_str, render, rendered,
    str_eq, trim_prefix, trim_prefix_opt, truncate, truncated, views, Color, Span, Style, occurs_in,
    lemma_occurs_in_concat, lemma_occurs_in_self,
};

verus! {

/// A styled line as plain values.
pub type Styled = Seq<(Seq<char>, Style)>;

/// `icon` with nerd font icons on, `text` without.
pub open spec fn nf(nerdfont: bool, icon: Seq<char>, text: Seq<char>) -> Seq<char> {
    if nerdfont { icon } else { text }
}

/// The version a commit belongs to and how many commits it is past it.
#[derive(Debug)]
pub struct VersionInfo {
    pub name: String,
    pub since: usize,
}

/// What the normal header reads of the checked out ref.
#[derive(Debug)]
pub enum HeadState {
    /// On a branch without commits; `target` is the ref HEAD points to.
    NoCommits { target: String },
    /// On a local branch, with its ahead/behind counts against its upstream
    /// and its base, its current version and its number of wips.
    Branch {
        name: String,
        upstream: Option<(usize, usize)>,
        base: Option<(usize, usize)>,
        version: Option<VersionInfo>,
        wips: usize,
    },
    /// On a remote branch, with ahead/behind against its local branch.
    Remote { name: String, local: Option<(usize, usize)>, version: Option<VersionInfo> },
    /// On a tag. For a version tag `prev` is the previous version and the
    /// commits since it; for any other tag `version` is the current version.
    Tag { name: String, version_tag: bool, prev: Option<VersionInfo>, version: Option<VersionInfo> },
    /// On a detached commit.
    Commit { short_id: String, version: Option<VersionInfo> },
}

/// `ver: v1.2.3` in yellow, then ` +n` in green when the commit is past it.
pub open spec fn version_extra(name: Seq<char>, since: nat, nerdfont: bool) -> Styled {
    seq![(nf(nerdfont, seq!['\u{f02b}'], "ver:"@) + seq![' '] + name, fg(Color::Yellow))]
        + (if since > 0 { seq![(" +"@ + dec(since), green())] } else { Seq::empty() })
}

pub open spec fn opt_version_extra(v: Option<VersionInfo>, nerdfont: bool) -> Seq<Styled> {
    match v {
        Some(v) => seq![version_extra(v.name@, v.since as nat, nerdfont)],
        None => Seq::empty(),
    }
}

/// A labelled ahead/behind pair, e.g. `up: +1 -0`.
pub open spec fn labelled_counts(label: Seq<char>, color: Color, ab: (usize, usize)) -> Styled {
    seq![(label, fg(color)), (seq![' '], no_style())] + plus_minus_line(ab.0 as nat, ab.1 as nat)
}

/// The bracketed extras shown after the name of the checked out ref.
pub open spec fn head_extras(h: HeadState, nerdfont: bool) -> Seq<Styled> {
    match h {
        HeadState::NoCommits { .. } => Seq::empty(),
        HeadState::Branch { upstream, base, version, wips, .. } =>
            (match upstream {
                Some(ab) => seq![labelled_counts(nf(nerdfont, seq!['\u{eaa1}'], "up:"@), Color::Blue, ab)],
                None => Seq::empty(),
            })
            + (match base {
                Some(ab) => seq![labelled_counts(nf(nerdfont, seq!['\u{f126}'], "base:"@), Color::Magenta, ab)],
                None => Seq::empty(),
            })
            + opt_version_extra(version, nerdfont)
            + (if wips > 0 {
                seq![seq![(nf(nerdfont, seq!['\u{f125a}'], "wips:"@) + seq![' '] + dec(wips as nat), fg(Color::Cyan))]]
            } else {
                Seq::empty()
            }),
        HeadState::Remote { local, version, .. } =>
            (match local {
                Some(ab) => seq![plus_minus_line(ab.0 as nat, ab.1 as nat)],
                None => Seq::empty(),
            })
            + opt_version_extra(version, nerdfont),
        HeadState::Tag { version_tag, version, .. } =>
            if version_tag { Seq::empty() } else { opt_version_extra(version, nerdfont) },
        HeadState::Commit { version, .. } => opt_version_extra(version, nerdfont),
    }
}

/// ` [a | b | c]` for a nonempty list of extras.
pub open spec fn extras_part(extras: Seq<Styled>) -> Styled {
    if extras.len() == 0 {
        Seq::empty()
    } else {
        seq![(seq![' '], no_style())] + bracketed(join_lines(extras, seq![(" | "@, dim())]))
    }
}

/// The first line of the normal header: what is checked out, then its extras.
pub open spec fn head_line(h: HeadState, nerdfont: bool) -> Styled {
    match h {
        HeadState::NoCommits { target } => seq![
            ("On branch "@, no_style()),
            (trim_prefix(target@, "refs/heads/"@), green()),
            (seq!['\n'], no_style()),
            (nf(nerdfont, seq!['\u{eafc}', ' '], Seq::empty()) + "No commits yet"@, dim()),
        ],
        HeadState::Branch { name, .. } =>
            seq![("On branch "@, no_style()), (name@, green())] + extras_part(head_extras(h, nerdfont)),
        HeadState::Remote { name, .. } =>
            seq![("On upstream "@, no_style()), (name@, green())] + extras_part(head_extras(h, nerdfont)),
        HeadState::Tag { name, version_tag, prev, .. } =>
            seq![("On tag "@, no_style()), (name@, green())]
            + (match prev {
                Some(p) => if version_tag {
                    seq![
                        (seq![' '], no_style()),
                        (seq!['('], dim()),
                        (seq!['+'] + dec(p.since as nat), green()),
                        (" since "@, no_style()),
                        (p.name@, fg(Color::Yellow)),
                        (seq![')'], dim()),
                    ]
                } else {
                    Seq::empty()
                },
                None => Seq::empty(),
            })
            + extras_part(head_extras(h, nerdfont)),
        HeadState::Commit { short_id, .. } =>
            seq![("On commit "@, no_style()), (short_id@, fg(Color::Yellow))] + extras_part(head_extras(h, nerdfont)),
    }
}

fn nf_text(nerdfont: bool, icon: &str, text: &str) -> (res: String)
    ensures
        res@ == nf(nerdfont, icon@, text@),
{
    if nerdfont { String::from_str(icon) } else { String::from_str(text) }
}

/// Displays the current version of a commit.
pub fn display_version_extra(v: &VersionInfo, nerdfont: bool) -> (res: Vec<Span>)
    ensures
        line(res@) == version_extra(v.name@, v.since as nat, nerdfont),
{
    let mut out: Vec<Span> = Vec::new();
    proof {
        reveal_strlit("\u{f02b}");
        assert("\u{f02b}"@ =~= seq!['\u{f02b}']);
    }
    let mut label = nf_text(nerdfont, "\u{f02b}", "ver:");
    label.push(' ');
    label.append(v.name.as_str());
    assert(label@ =~= nf(nerdfont, seq!['\u{f02b}'], "ver:"@) + seq![' '] + v.name@);
    push_span(&mut out, label, Style::fg(Color::Yellow));
    let ghost a = line(out@);
    if v.since > 0 {
        let mut s = String::from_str(" +");
        s.append(usize_text(v.since).as_str());
        assert(s@ =~= " +"@ + dec(v.since as nat));
        push_span(&mut out, s, Style::fg(Color::Green));
    }
    assert(line(out@) =~= version_extra(v.name@, v.since as nat, nerdfont));
    out
}

fn push_opt_version(extras: &mut Vec<Vec<Span>>, v: &Option<VersionInfo>, nerdfont: bool)
    ensures
        lines_of(final(extras)@) == lines_of(old(extras)@) + opt_version_extra(*v, nerdfont),
{
    match v {
        Some(v) => extras.push(display_version_extra(v, nerdfont)),
        None => {},
    }
    assert(lines_of(extras@) =~= lines_of(old(extras)@) + opt_version_extra(*v, nerdfont));
}

fn labelled(label: String, color: Color, ab: (usize, usize)) -> (res: Vec<Span>)
    ensures
        line(res@) == labelled_counts(label@, color, ab),
{
    let mut out: Vec<Span> = Vec::new();
    push_span(&mut out, label, Style::fg(color));
    proof {
        reveal_strlit(" ");
        assert(" "@ =~= seq![' ']);
    }
    push_str(&mut out, " ", Style::none());
    append_spans(&mut out, display_plus_minus(ab.0, ab.1));
    assert(line(out@) =~= labelled_counts(label@, color, ab));
    out
}

/// Builds the extras of the checked out ref.
pub fn display_head_extras(h: &HeadState, nerdfont: bool) -> (res: Vec<Vec<Span>>)
    ensures
        lines_of(res@) == head_extras(*h, nerdfont),
{
    let mut extras: Vec<Vec<Span>> = Vec::new();
    proof {
        reveal_strlit("\u{eaa1}");
        reveal_strlit("\u{f126}");
        reveal_strlit("\u{f125a}");
        assert("\u{eaa1}"@ =~= seq!['\u{eaa1}']);
        assert("\u{f126}"@ =~= seq!['\u{f126}']);
        assert("\u{f125a}"@ =~= seq!['\u{f125a}']);
    }
    match h {
        HeadState::NoCommits { .. } => {},
        HeadState::Branch { upstream, base, version, wips, .. } => {
            if let Some(ab) = upstream {
                extras.push(labelled(nf_text(nerdfont, "\u{eaa1}", "up:"), Color::Blue, *ab));
            }
            let ghost e1 = lines_of(extras@);
            if let Some(ab) = base {
                extras.push(labelled(nf_text(nerdfont, "\u{f126}", "base:"), Color::Magenta, *ab));
            }
            let ghost e2 = lines_of(extras@);
            push_opt_version(&mut extras, version, nerdfont);
            let ghost e3 = lines_of(extras@);
            if *wips > 0 {
                let mut w = nf_text(nerdfont, "\u{f125a}", "wips:");
                w.push(' ');
                w.append(usize_text(*wips).as_str());
                assert(w@ =~= nf(nerdfont, seq!['\u{f125a}'], "wips:"@) + seq![' '] + dec(*wips as nat));
                let mut l: Vec<Span> = Vec::new();
                push_span(&mut l, w, Style::fg(Color::Cyan));
                let ghost ll = line(l@);
                assert(ll =~= seq![(nf(nerdfont, seq!['\u{f125a}'], "wips:"@) + seq![' '] + dec(*wips as nat), fg(Color::Cyan))]);
                extras.push(l);
                assert(lines_of(extras@) =~= e3.push(ll));
            }
            proof {
                let up = match *upstream {
                    Some(ab) => seq![labelled_counts(nf(nerdfont, seq!['\u{eaa1}'], "up:"@), Color::Blue, ab)],
                    None => Seq::<Styled>::empty(),
                };
                let bs = match *base {
                    Some(ab) => seq![labelled_counts(nf(nerdfont, seq!['\u{f126}'], "base:"@), Color::Magenta, ab)],
                    None => Seq::<Styled>::empty(),
                };
                assert(e1 =~= up);
                assert(e2 =~= up + bs);
                assert(e3 =~= up + bs + opt_version_extra(*version, nerdfont));
                let wp = if *wips > 0 {
                    seq![seq![(nf(nerdfont, seq!['\u{f125a}'], "wips:"@) + seq![' '] + dec(*wips as nat), fg(Color::Cyan))]]
                } else {
                    Seq::<Styled>::empty()
                };
                assert(lines_of(extras@) =~= e3 + wp);
                assert(lines_of(extras@) =~= head_extras(*h, nerdfont));
            }
        },
        HeadState::Remote { local, version, .. } => {
            if let Some(ab) = local {
                extras.push(display_plus_minus(ab.0, ab.1));
            }
            let ghost e1 = lines_of(extras@);
            push_opt_version(&mut extras, version, nerdfont);
            proof {
                let lc = match *local {
                    Some(ab) => seq![plus_minus_line(ab.0 as nat, ab.1 as nat)],
                    None => Seq::<Styled>::empty(),
                };
                assert(e1 =~= lc);
                assert(lines_of(extras@) =~= head_extras(*h, nerdfont));
            }
        },
        HeadState::Tag { version_tag, version, .. } => {
            if !*version_tag {
                push_opt_version(&mut extras, version, nerdfont);
            }
            assert(lines_of(extras@) =~= head_extras(*h, nerdfont));
        },
        HeadState::Commit { version, .. } => {
            push_opt_version(&mut extras, version, nerdfont);
            assert(lines_of(extras@) =~= head_extras(*h, nerdfont));
        },
    }
    extras
}

fn push_extras(out: &mut Vec<Span>, extras: Vec<Vec<Span>>)
    ensures
        line(final(out)@) == line(old(out)@) + extras_part(lines_of(extras@)),
{
    if extras.len() > 0 {
        let ghost e = lines_of(extras@);
        proof {
            reveal_strlit(" ");
            assert(" "@ =~= seq![' ']);
        }
        push_str(out, " ", Style::none());
        let joined = join_spans(extras, " | ", Style::dimmed());
        append_spans(out, dim_brackets(joined));
        proof {
            assert(line(out@) =~= line(old(out)@) + extras_part(e));
        }
    } else {
        assert(lines_of(extras@) =~= Seq::<Styled>::empty());
        assert(line(out@) =~= line(old(out)@) + extras_part(lines_of(extras@)));
    }
}

/// Displays the first line of the normal header: what is checked out (branch,
/// upstream, tag or commit) and, in brackets, its upstream/base counts,
/// version and wips.
pub fn display_head_line(h: &HeadState, nerdfont: bool) -> (res: Vec<Span>)
    ensures
        line(res@) == head_line(*h, nerdfont),
{
    let mut out: Vec<Span> = Vec::new();
    proof {
        reveal_strlit(" ");
        reveal_strlit("(");
        reveal_strlit(")");
        reveal_strlit("+");
        reveal_strlit("\n");
        reveal_strlit("");
        reveal_strlit("\u{eafc} ");
        assert(" "@ =~= seq![' ']);
        assert("("@ =~= seq!['(']);
        assert(")"@ =~= seq![')']);
        assert("+"@ =~= seq!['+']);
        assert("\n"@ =~= seq!['\n']);
        assert("\u{eafc} "@ =~= seq!['\u{eafc}', ' ']);
        assert(""@ =~= Seq::<char>::empty());
    }
    match h {
        HeadState::NoCommits { target } => {
            push_str(&mut out, "On branch ", Style::none());
            push_span(&mut out, trim_prefix_opt(target.as_str(), "refs/heads/"), Style::fg(Color::Green));
            push_str(&mut out, "\n", Style::none());
            let mut msg = nf_text(nerdfont, "\u{eafc} ", "");
            msg.append("No commits yet");
            assert(msg@ =~= nf(nerdfont, seq!['\u{eafc}', ' '], Seq::empty()) + "No commits yet"@);
            push_span(&mut out, msg, Style::dimmed());
            assert(line(out@) =~= head_line(*h, nerdfont));
        },
        HeadState::Branch { name, .. } => {
            push_str(&mut out, "On branch ", Style::none());
            push_str(&mut out, name.as_str(), Style::fg(Color::Green));
            push_extras(&mut out, display_head_extras(h, nerdfont));
            assert(line(out@) =~= head_line(*h, nerdfont));
        },
        HeadState::Remote { name, .. } => {
            push_str(&mut out, "On upstream ", Style::none());
            push_str(&mut out, name.as_str(), Style::fg(Color::Green));
            push_extras(&mut out, display_head_extras(h, nerdfont));
            assert(line(out@) =~= head_line(*h, nerdfont));
        },
        HeadState::Tag { name, version_tag, prev, .. } => {
            push_str(&mut out, "On tag ", Style::none());
            push_str(&mut out, name.as_str(), Style::fg(Color::Green));
            let ghost a = line(out@);
            if *version_tag {
                if let Some(p) = prev {
                    push_str(&mut out, " ", Style::none());
                    push_str(&mut out, "(", Style::dimmed());
                    let mut since = String::from_str("+");
                    since.append(usize_text(p.since).as_str());
                    assert(since@ =~= seq!['+'] + dec(p.since as nat));
                    push_span(&mut out, since, Style::fg(Color::Green));
                    push_str(&mut out, " since ", Style::none());
                    push_str(&mut out, p.name.as_str(), Style::fg(Color::Yellow));
                    push_str(&mut out, ")", Style::dimmed());
                }
            }
            let ghost b = line(out@);
            push_extras(&mut out, display_head_extras(h, nerdfont));
            proof {
                let mid = match prev {
                    Some(p) => if *version_tag {
                        seq![
                            (seq![' '], no_style()),
                            (seq!['('], dim()),
                            (seq!['+'] + dec(p.since as nat), green()),
                            (" since "@, no_style()),
                            (p.name@, fg(Color::Yellow)),
                            (seq![')'], dim()),
                        ]
                    } else {
                        Seq::empty()
                    },
                    None => Seq::empty(),
                };
                assert(b =~= a + mid);
                assert(line(out@) =~= head_line(*h, nerdfont));
            }
        },
        HeadState::Commit { short_id, .. } => {
            push_str(&mut out, "On commit ", Style::none());
            append_spans(&mut out, display_hash(short_id.as_str()));
            push_extras(&mut out, display_head_extras(h, nerdfont));
            assert(line(out@) =~= head_line(*h, nerdfont));
        },
    }
    out
}


/// A string cut to the terminal width, when there is one.
pub open spec fn cut(s: Seq<char>, width: Option<usize>, tail: Seq<char>) -> Seq<char> {
    match width {
        Some(w) => truncated(s, w, tail),
        None => s,
    }
}

/// The tail that marks a truncated line: a dim ellipsis.
pub open spec fn ellipsis(colors: bool) -> Seq<char> {
    rendered(seq![(seq!['\u{2026}'], dim())], colors)
}

/// The authorship line of the normal header.
pub open spec fn authorship_line(p: &Person, nerdfont: bool) -> Styled {
    seq![
        (seq!['\n'], no_style()),
        (nf(nerdfont, seq!['\u{f007}', ' '], Seq::empty()) + p.name@, fg(Color::Cyan)),
        (seq![' '], no_style()),
        (p.email@, dim()),
    ]
}

/// The commit line under the first line: a detached commit gets the commit
/// icon in front of it.
pub open spec fn commit_line_of(h: HeadState, commit_line: Styled, nerdfont: bool) -> Styled {
    if h is Commit && nerdfont {
        seq![(seq!['\u{eafc}', ' '], no_style())] + commit_line
    } else {
        commit_line
    }
}

/// The normal header as text: the first line, then (with any commits) the
/// commit line cut to the terminal width, then the authorship line.
pub open spec fn normal_header_text(
    h: HeadState,
    commit_line: Styled,
    author: Option<&Person>,
    nerdfont: bool,
    colors: bool,
    width: Option<usize>,
) -> Seq<char> {
    rendered(head_line(h, nerdfont), colors)
        + (if h is NoCommits {
            Seq::empty()
        } else {
            seq!['\n'] + cut(rendered(commit_line_of(h, commit_line, nerdfont), colors), width, ellipsis(colors))
        })
        + (match author {
            Some(p) => rendered(authorship_line(p, nerdfont), colors),
            None => Seq::empty(),
        })
}

fn render_ellipsis(colors: bool) -> (res: String)
    ensures
        res@ == ellipsis(colors),
{
    let mut t: Vec<Span> = Vec::new();
    let mut e = String::new();
    e.push('\u{2026}');
    assert(e@ =~= seq!['\u{2026}']);
    push_span(&mut t, e, Style::dimmed());
    assert(line(t@) =~= seq![(seq!['\u{2026}'], dim())]);
    render(&t, colors)
}

/// Renders a line and cuts it to `width`, when there is one.
pub fn render_cut(spans: &Vec<Span>, colors: bool, width: Option<usize>) -> (res: String)
    ensures
        res@ == cut(rendered(line(spans@), colors), width, ellipsis(colors)),
{
    let s = render(spans, colors);
    match width {
        Some(w) => {
            let tail = render_ellipsis(colors);
            truncate(s.as_str(), w, tail.as_str())
        },
        None => s,
    }
}

/// Displays a header when there is no other active operation (e.g. a rebase
/// or merge conflict): what is checked out with its extras, the commit it
/// points to (cut to `width`, the terminal width when printing to one) and,
/// when `author` is given, who commits in this repo. `commit_line` is the
/// compact display of the checked out commit; a branch without commits has
/// none and it is not shown.
pub fn display_normal_header(
    h: &HeadState,
    commit_line: Vec<Span>,
    author: Option<&Person>,
    nerdfont: bool,
    colors: bool,
    width: Option<usize>,
) -> (res: String)
    ensures
        res@ == normal_header_text(*h, line(commit_line@), author, nerdfont, colors, width),
{
    let head = display_head_line(h, nerdfont);
    let mut out = render(&head, colors);
    let ghost a = out@;
    let no_commits = match h {
        HeadState::NoCommits { .. } => true,
        _ => false,
    };
    if !no_commits {
        let ghost cl = line(commit_line@);
        let is_commit = match h {
            HeadState::Commit { .. } => true,
            _ => false,
        };
        let mut full: Vec<Span> = Vec::new();
        if is_commit && nerdfont {
            let mut icon = String::new();
            icon.push('\u{eafc}');
            icon.push(' ');
            assert(icon@ =~= seq!['\u{eafc}', ' ']);
            push_span(&mut full, icon, Style::none());
        }
        let ghost pre = line(full@);
        append_spans(&mut full, commit_line);
        assert(line(full@) =~= pre + cl);
        assert(line(full@) =~= commit_line_of(*h, cl, nerdfont));
        out.push('\n');
        let c = render_cut(&full, colors, width);
        out.append(c.as_str());
    }
    let ghost b = out@;
    match author {
        Some(p) => {
            let mut l: Vec<Span> = Vec::new();
            let mut nl = String::new();
            nl.push('\n');
            push_span(&mut l, nl, Style::none());
            let mut name = String::new();
            if nerdfont {
                name.push('\u{f007}');
                name.push(' ');
            }
            name.append(p.name.as_str());
            assert(name@ =~= nf(nerdfont, seq!['\u{f007}', ' '], Seq::empty()) + p.name@);
            push_span(&mut l, name, Style::fg(Color::Cyan));
            let mut sp = String::new();
            sp.push(' ');
            push_span(&mut l, sp, Style::none());
            push_str(&mut l, p.email.as_str(), Style::dimmed());
            assert(line(l@) =~= authorship_line(p, nerdfont));
            let r = render(&l, colors);
            out.append(r.as_str());
        },
        None => {},
    }
    proof {
        let mid = if h is NoCommits {
            Seq::empty()
        } else {
            seq!['\n'] + cut(rendered(commit_line_of(*h, line(commit_line@), nerdfont), colors), width, ellipsis(colors))
        };
        assert(b =~= a + mid);
        assert(out@ =~= normal_header_text(*h, line(commit_line@), author, nerdfont, colors, width));
    }
    out
}

/// `Conflicts - n files` and one line per conflict, `Conflicts - none` while
/// an operation that can conflict is under way, else nothing.
pub open spec fn conflicts_part(conflicts: Seq<Seq<char>>, conflictable: bool) -> Styled {
    if conflicts.len() > 0 {
        seq![
            ("Conflicts"@, fg(Color::Yellow)),
            (" - "@, no_style()),
            (dec(conflicts.len()), fg(Color::Cyan)),
            (" files"@, no_style()),
        ] + indented_lines(conflicts)
    } else if conflictable {
        seq![("Conflicts"@, fg(Color::Yellow)), (" - "@, no_style()), ("none"@, green())]
    } else {
        Seq::empty()
    }
}

/// A labelled diff summary paragraph, set off from an earlier paragraph by a
/// blank line.
pub open spec fn changes_part(label: Seq<char>, st: Style, summary: DiffSummary, nerdfont: bool, first: bool) -> Styled {
    (if first { Seq::empty() } else { seq![("\n\n"@, no_style())] })
        + seq![(label, st), (" - "@, no_style())]
        + summary_header_line(summary.num_files as nat, summary.insertions as nat, summary.deletions as nat)
        + files_lines(summary.files@, nerdfont)
}

/// The file status paragraphs: conflicts, then staged changes, then unstaged
/// changes, each only when there is something to show.
pub open spec fn file_statuses(
    conflicts: Seq<Seq<char>>,
    conflictable: bool,
    staged: DiffSummary,
    unstaged: DiffSummary,
    nerdfont: bool,
) -> Styled {
    let first = conflicts.len() == 0 && !conflictable;
    conflicts_part(conflicts, conflictable)
        + (if staged.files@.len() > 0 { changes_part("Staged"@, green(), staged, nerdfont, first) } else { Seq::empty() })
        + (if unstaged.files@.len() > 0 {
            changes_part("Unstaged"@, red(), unstaged, nerdfont, first && staged.files@.len() == 0)
        } else {
            Seq::empty()
        })
}

/// A diff summary as its paragraph shows it: the header line, then a line
/// per file.
pub open spec fn summary_part(summary: DiffSummary, nerdfont: bool) -> Styled {
    summary_header_line(summary.num_files as nat, summary.insertions as nat, summary.deletions as nat)
        + files_lines(summary.files@, nerdfont)
}

/// Each kind of change is shown under its own label: when there are staged
/// changes, a green `Staged - ` followed by the staged summary and files
/// occurs in the report; when there are unstaged changes, the report ends
/// with a red `Unstaged - ` followed by the unstaged summary and files; and
/// with neither conflicts nor changes there is nothing to report.
pub proof fn lemma_file_statuses_label_their_own_changes(
    conflicts: Seq<Seq<char>>,
    conflictable: bool,
    staged: DiffSummary,
    unstaged: DiffSummary,
    nerdfont: bool,
)
    ensures
        staged.files@.len() > 0 ==> occurs_in(
            seq![("Staged"@, green()), (" - "@, no_style())] + summary_part(staged, nerdfont),
            file_statuses(conflicts, conflictable, staged, unstaged, nerdfont)),
        unstaged.files@.len() > 0 ==> ({
            let t = seq![("Unstaged"@, red()), (" - "@, no_style())] + summary_part(unstaged, nerdfont);
            let fs = file_statuses(conflicts, conflictable, staged, unstaged, nerdfont);
            t.len() <= fs.len() && fs.subrange(fs.len() - t.len(), fs.len() as int) == t
        }),
        conflicts.len() == 0 && !conflictable && staged.files@.len() == 0 && unstaged.files@.len() == 0
            ==> file_statuses(conflicts, conflictable, staged, unstaged, nerdfont).len() == 0,
        conflicts.len() > 0 || conflictable ==> file_statuses(conflicts, conflictable, staged, unstaged, nerdfont)[0]
            == ("Conflicts"@, fg(Color::Yellow)),
        conflicts.len() > 0 ==> file_statuses(conflicts, conflictable, staged, unstaged, nerdfont)[2]
            == (dec(conflicts.len()), fg(Color::Cyan)),
        conflicts.len() == 0 && conflictable ==> file_statuses(conflicts, conflictable, staged, unstaged, nerdfont)[2]
            == ("none"@, green()),
        conflicts.len() > 0 ==> occurs_in(indented_lines(conflicts),
            file_statuses(conflicts, conflictable, staged, unstaged, nerdfont)),
{
    let first = conflicts.len() == 0 && !conflictable;
    let c = conflicts_part(conflicts, conflictable);
    let sp = if staged.files@.len() > 0 { changes_part("Staged"@, green(), staged, nerdfont, first) } else { Seq::empty() };
    let up = if unstaged.files@.len() > 0 {
        changes_part("Unstaged"@, red(), unstaged, nerdfont, first && staged.files@.len() == 0)
    } else {
        Seq::empty()
    };
    let fs = file_statuses(conflicts, conflictable, staged, unstaged, nerdfont);
    assert(fs == c + sp + up);
    if staged.files@.len() > 0 {
        let t = seq![("Staged"@, green()), (" - "@, no_style())] + summary_part(staged, nerdfont);
        let gap: Styled = if first { Seq::empty() } else { seq![("\n\n"@, no_style())] };
        assert(sp =~= gap + t);
        lemma_occurs_in_self(t);
        lemma_occurs_in_concat(t, gap, t);
        lemma_occurs_in_concat(t, c, sp);
        lemma_occurs_in_concat(t, c + sp, up);
    }
    if unstaged.files@.len() > 0 {
        let t = seq![("Unstaged"@, red()), (" - "@, no_style())] + summary_part(unstaged, nerdfont);
        let gap: Styled = if first && staged.files@.len() == 0 { Seq::empty() } else { seq![("\n\n"@, no_style())] };
        assert(up =~= gap + t);
        assert(fs =~= (c + sp + gap) + t);
        assert(fs.subrange(fs.len() - t.len(), fs.len() as int) =~= t);
    }
    if first && staged.files@.len() == 0 && unstaged.files@.len() == 0 {
        assert(c.len() == 0);
    }
    if conflicts.len() > 0 {
        let il = indented_lines(conflicts);
        let hd = seq![
            ("Conflicts"@, fg(Color::Yellow)),
            (" - "@, no_style()),
            (dec(conflicts.len()), fg(Color::Cyan)),
            (" files"@, no_style()),
        ];
        assert(c == hd + il);
        lemma_occurs_in_self(il);
        lemma_occurs_in_concat(il, hd, il);
        lemma_occurs_in_concat(il, c, sp);
        lemma_occurs_in_concat(il, c + sp, up);
    }
}

fn push_changes(out: &mut Vec<Span>, label: &str, st: Style, summary: &DiffSummary, nerdfont: bool, first: bool)
    ensures
        line(final(out)@) == line(old(out)@) + changes_part(label@, st, *summary, nerdfont, first),
{
    if !first {
        push_str(out, "\n\n", Style::none());
    }
    let ghost a = line(out@);
    push_str(out, label, st);
    push_str(out, " - ", Style::none());
    append_spans(out, display_summary(summary, nerdfont));
    proof {
        let gap = if first { Seq::empty() } else { seq![("\n\n"@, no_style())] };
        assert(a =~= line(old(out)@) + gap);
        assert(line(out@) =~= line(old(out)@) + changes_part(label@, st, *summary, nerdfont, first));
    }
}

/// Builds the conflicted, staged and unstaged changes into printable
/// paragraphs. `conflicts` holds the displayed conflicts; `conflictable` is
/// whether an operation that can conflict (merge, rebase, ...) is under way.
pub fn display_file_statuses(
    conflicts: Vec<String>,
    conflictable: bool,
    staged: &DiffSummary,
    unstaged: &DiffSummary,
    nerdfont: bool,
) -> (res: Vec<Span>)
    ensures
        line(res@) == file_statuses(views(conflicts@), conflictable, *staged, *unstaged, nerdfont),
{
    let ghost cv = views(conflicts@);
    let mut out: Vec<Span> = Vec::new();
    let mut first = true;
    if conflicts.len() > 0 {
        first = false;
        push_str(&mut out, "Conflicts", Style::fg(Color::Yellow));
        push_str(&mut out, " - ", Style::none());
        push_span(&mut out, usize_text(conflicts.len()), Style::fg(Color::Cyan));
        push_str(&mut out, " files", Style::none());
        push_indented_lines(&mut out, conflicts);
    } else if conflictable {
        first = false;
        push_str(&mut out, "Conflicts", Style::fg(Color::Yellow));
        push_str(&mut out, " - ", Style::none());
        push_str(&mut out, "none", Style::fg(Color::Green));
    }
    assert(line(out@) =~= conflicts_part(cv, conflictable));
    let ghost a = line(out@);
    if !staged.is_empty() {
        push_changes(&mut out, "Staged", Style::fg(Color::Green), staged, nerdfont, first);
        first = false;
    }
    let ghost b = line(out@);
    if !unstaged.is_empty() {
        push_changes(&mut out, "Unstaged", Style::fg(Color::Red), unstaged, nerdfont, first);
    }
    proof {
        let f0 = cv.len() == 0 && !conflictable;
        let sp = if staged.files@.len() > 0 { changes_part("Staged"@, green(), *staged, nerdfont, f0) } else { Seq::empty() };
        assert(b =~= a + sp);
        assert(line(out@) =~= file_statuses(cv, conflictable, *staged, *unstaged, nerdfont));
    }
    out
}

/// A section title of the status guide.
pub open spec fn guide_title(t: Seq<char>) -> Styled {
    seq![(t + seq!['\n'], no_style())]
}

/// One entry of the status guide: the letter in its color, then its meaning.
pub open spec fn guide_entry(letter: char, st: Style, meaning: Seq<char>) -> Styled {
    seq![("  "@, no_style()), (seq![letter], st), (seq![' '] + meaning + seq!['\n'], no_style())]
}

/// The guide to what each status letter means.
pub open spec fn status_guide_text() -> Styled {
    guide_title("Meaning of each file status"@)
        + guide_entry('A', green(), "Added"@)
        + guide_entry('D', red(), "Deleted"@)
        + guide_entry('M', fg(Color::Yellow), "Modified"@)
        + guide_entry('U', fg(Color::Cyan), "Untracked"@)
        + guide_entry('X', red(), "Conflicted"@)
        + guide_title("These display the old and new name"@)
        + guide_entry('R', fg(Color::Magenta), "Renamed"@)
        + guide_entry('C', fg(Color::Magenta), "Copied"@)
        + guide_title("These appear under conflicts"@)
        + guide_entry('-', dim(), "None (file not present)"@)
        + guide_title("These generally won't appear in regular statuses"@)
        + guide_entry('=', dim(), "Unmodified"@)
        + guide_entry('I', dim(), "Ignored"@)
        + guide_entry('T', fg(Color::Yellow), "Typechange"@)
        + guide_entry('?', red(), "Unreadable"@)
}

/// What the guide says a status means.
pub open spec fn status_meaning(s: FileStatus) -> Seq<char> {
    match s {
        FileStatus::Added => "Added"@,
        FileStatus::Deleted => "Deleted"@,
        FileStatus::Modified => "Modified"@,
        FileStatus::Untracked => "Untracked"@,
        FileStatus::Conflicted => "Conflicted"@,
        FileStatus::Renamed => "Renamed"@,
        FileStatus::Copied => "Copied"@,
        FileStatus::Unmodified => "Unmodified"@,
        FileStatus::Ignored => "Ignored"@,
        FileStatus::Typechange => "Typechange"@,
        FileStatus::Unreadable => "Unreadable"@,
    }
}

/// Where the guide's entry for a status starts.
pub open spec fn guide_position(s: FileStatus) -> int {
    match s {
        FileStatus::Added => 1,
        FileStatus::Deleted => 4,
        FileStatus::Modified => 7,
        FileStatus::Untracked => 10,
        FileStatus::Conflicted => 13,
        FileStatus::Renamed => 17,
        FileStatus::Copied => 20,
        FileStatus::Unmodified => 28,
        FileStatus::Ignored => 31,
        FileStatus::Typechange => 34,
        FileStatus::Unreadable => 37,
    }
}

/// The status guide explains the letters the file summaries use: for the
/// status of any changed file, the guide has an entry with the letter, in
/// the color, that the file's line starts with (then a space), and that
/// status's meaning.
pub proof fn lemma_guide_explains_file_letters(f: DiffFileSummary)
    ensures
        ({
            let g = status_guide_text();
            let k = guide_position(f.status);
            let icon = status_icon(f.status, false);
            &&& icon.0.len() == 1
            &&& 0 <= k && k + 3 <= g.len()
            &&& g.subrange(k, k + 3) == guide_entry(icon.0[0], icon.1, status_meaning(f.status))
            &&& file_summary_line(f, false)[0] == (seq![icon.0[0]], icon.1)
            &&& file_summary_line(f, false)[1] == (seq![' '], no_style())
        }),
{
    let g = status_guide_text();
    let k = guide_position(f.status);
    let icon = status_icon(f.status, false);
    assert(icon.0 =~= seq![icon.0[0]]);
    assert(g.len() == 40);
    assert(g.subrange(k, k + 3) =~= guide_entry(icon.0[0], icon.1, status_meaning(f.status)));
}

fn push_title(out: &mut Vec<Span>, t: &str)
    ensures
        line(final(out)@) == line(old(out)@) + guide_title(t@),
{
    let mut s = String::from_str(t);
    s.push('\n');
    assert(s@ =~= t@ + seq!['\n']);
    push_span(out, s, Style::none());
    assert(line(out@) =~= line(old(out)@) + guide_title(t@));
}

fn push_entry(out: &mut Vec<Span>, letter: char, st: Style, meaning: &str)
    ensures
        line(final(out)@) == line(old(out)@) + guide_entry(letter, st, meaning@),
{
    push_str(out, "  ", Style::none());
    let mut l = String::new();
    l.push(letter);
    assert(l@ =~= seq![letter]);
    push_span(out, l, st);
    let mut m = String::new();
    m.push(' ');
    m.append(meaning);
    m.push('\n');
    assert(m@ =~= seq![' '] + meaning@ + seq!['\n']);
    push_span(out, m, Style::none());
    assert(line(out@) =~= line(old(out)@) + guide_entry(letter, st, meaning@));
}

/// Guide for what each status letter means.
pub fn status_guide() -> (res: Vec<Span>)
    ensures
        line(res@) == status_guide_text(),
{
    let mut out: Vec<Span> = Vec::new();
    push_title(&mut out, "Meaning of each file status");
    push_entry(&mut out, 'A', Style::fg(Color::Green), "Added");
    push_entry(&mut out, 'D', Style::fg(Color::Red), "Deleted");
    push_entry(&mut out, 'M', Style::fg(Color::Yellow), "Modified");
    push_entry(&mut out, 'U', Style::fg(Color::Cyan), "Untracked");
    push_entry(&mut out, 'X', Style::fg(Color::Red), "Conflicted");
    push_title(&mut out, "These display the old and new name");
    push_entry(&mut out, 'R', Style::fg(Color::Magenta), "Renamed");
    push_entry(&mut out, 'C', Style::fg(Color::Magenta), "Copied");
    push_title(&mut out, "These appear under conflicts");
    push_entry(&mut out, '-', Style::dimmed(), "None (file not present)");
    push_title(&mut out, "These generally won't appear in regular statuses");
    push_entry(&mut out, '=', Style::dimmed(), "Unmodified");
    push_entry(&mut out, 'I', Style::dimmed(), "Ignored");
    push_entry(&mut out, 'T', Style::fg(Color::Yellow), "Typechange");
    push_entry(&mut out, '?', Style::fg(Color::Red), "Unreadable");
    assert(line(out@) =~= status_guide_text());
    out
}

/// The signature of a subrepo, on a new indented line, when it differs from
/// the parent's; the note that there is none when the subrepo has none.
pub open spec fn different_signature(parent: Option<&Person>, child: Option<&Person>) -> Styled {
    match child {
        Some(c) => match parent {
            Some(p) => if p.name@ == c.name@ && p.email@ == c.email@ {
                Seq::empty()
            } else {
                seq![("\n  "@, no_style())] + signature_line(Some(c))
            },
            None => seq![("\n  "@, no_style())] + signature_line(Some(c)),
        },
        None => seq![("\n  "@, no_style())] + signature_line(None),
    }
}

/// Displays the signature of a subrepo (tabbed on a new line) only if it
/// differs from the parent's.
pub fn display_different_signature(parent: Option<&Person>, child: Option<&Person>) -> (res: Vec<Span>)
    ensures
        line(res@) == different_signature(parent, child),
{
    let mut out: Vec<Span> = Vec::new();
    match child {
        Some(c) => {
            let same = match parent {
                Some(p) => str_eq(p.name.as_str(), c.name.as_str()) && str_eq(p.email.as_str(), c.email.as_str()),
                None => false,
            };
            if !same {
                push_str(&mut out, "\n  ", Style::none());
                append_spans(&mut out, display_signature(Some(c)));
            }
        },
        None => {
            push_str(&mut out, "\n  ", Style::none());
            append_spans(&mut out, display_signature(None));
        },
    }
    assert(line(out@) =~= different_signature(parent, child));
    out
}


/// An operation under way in the repo, with what its header shows.
#[derive(Debug)]
pub enum Operation {
    /// Rebasing `branch` onto `onto`, at step `step` of `total`.
    Rebase { branch: String, onto: String, step: usize, total: usize },
    /// Merging `from` into `current`.
    Merge { current: String, from: String },
    /// Cherry-picking `commit` onto `onto`.
    Pick { commit: String, onto: String },
    /// Reverting the changes of `commit` onto `onto`.
    Revert { commit: String, onto: String },
    /// Bisecting on `current`, started from `start`.
    Bisect { current: String, start: String },
}

/// The header line of an operation under way.
pub open spec fn operation_line(op: Operation) -> Styled {
    match op {
        Operation::Rebase { branch, onto, step, total } => seq![
            ("Rebasing"@, fg(Color::Yellow)),
            (seq![' '], no_style()),
            (branch@, fg(Color::Blue)),
            (" onto "@, no_style()),
            (onto@, fg(Color::Magenta)),
            (seq![' '], no_style()),
            (seq!['('] + dec(step as nat) + seq!['/'] + dec(total as nat) + seq![')'], dim()),
        ],
        Operation::Merge { current, from } => seq![
            ("Merging"@, fg(Color::Yellow)),
            (seq![' '], no_style()),
            (current@, fg(Color::Blue)),
            (" into "@, no_style()),
            (from@, fg(Color::Magenta)),
        ],
        Operation::Pick { commit, onto } => seq![
            ("Picking"@, fg(Color::Yellow)),
            (seq![' '], no_style()),
            (commit@, fg(Color::Blue)),
            (" onto "@, no_style()),
            (onto@, fg(Color::Magenta)),
        ],
        Operation::Revert { commit, onto } => seq![
            ("Reverting"@, fg(Color::Yellow)),
            (" changes from "@, no_style()),
            (commit@, fg(Color::Blue)),
            (" onto "@, no_style()),
            (onto@, fg(Color::Magenta)),
        ],
        Operation::Bisect { current, start } => seq![
            ("Bisecting"@, fg(Color::Yellow)),
            (" on "@, no_style()),
            (current@, fg(Color::Blue)),
            (seq![' '], no_style()),
            ("(started from "@ + start@ + seq![')'], dim()),
        ],
    }
}

/// What stands between an operation's header and the authorship: a new line
/// for a bisect, ` as ` for the others.
pub open spec fn authorship_prefix(op: Operation) -> Seq<char> {
    if op is Bisect { seq!['\n'] } else { " as "@ }
}

/// The header of an operation, followed by the authorship when it is shown.
pub open spec fn operation_header(op: Operation, show_authorship: bool, signature: Option<&Person>) -> Styled {
    operation_line(op)
        + (if show_authorship {
            seq![(authorship_prefix(op), no_style())] + signature_line(signature)
        } else {
            Seq::empty()
        })
}

/// Displays the header of an operation under way: a rebase with its progress,
/// a merge, a cherry-pick, a revert or a bisect, then (when the user's config
/// shows authorship) who is committing.
pub fn display_operation_header(op: &Operation, show_authorship: bool, signature: Option<&Person>) -> (res: Vec<Span>)
    ensures
        line(res@) == operation_header(*op, show_authorship, signature),
{
    let mut out: Vec<Span> = Vec::new();
    proof {
        reveal_strlit(" ");
        reveal_strlit("\n");
        assert(" "@ =~= seq![' ']);
        assert("\n"@ =~= seq!['\n']);
    }
    match op {
        Operation::Rebase { branch, onto, step, total } => {
            push_str(&mut out, "Rebasing", Style::fg(Color::Yellow));
            push_str(&mut out, " ", Style::none());
            push_str(&mut out, branch.as_str(), Style::fg(Color::Blue));
            push_str(&mut out, " onto ", Style::none());
            push_str(&mut out, onto.as_str(), Style::fg(Color::Magenta));
            push_str(&mut out, " ", Style::none());
            let mut p = String::new();
            p.push('(');
            p.append(usize_text(*step).as_str());
            p.push('/');
            p.append(usize_text(*total).as_str());
            p.push(')');
            assert(p@ =~= seq!['('] + dec(*step as nat) + seq!['/'] + dec(*total as nat) + seq![')']);
            push_span(&mut out, p, Style::dimmed());
        },
        Operation::Merge { current, from } => {
            push_str(&mut out, "Merging", Style::fg(Color::Yellow));
            push_str(&mut out, " ", Style::none());
            push_str(&mut out, current.as_str(), Style::fg(Color::Blue));
            push_str(&mut out, " into ", Style::none());
            push_str(&mut out, from.as_str(), Style::fg(Color::Magenta));
        },
        Operation::Pick { commit, onto } => {
            push_str(&mut out, "Picking", Style::fg(Color::Yellow));
            push_str(&mut out, " ", Style::none());
            push_str(&mut out, commit.as_str(), Style::fg(Color::Blue));
            push_str(&mut out, " onto ", Style::none());
            push_str(&mut out, onto.as_str(), Style::fg(Color::Magenta));
        },
        Operation::Revert { commit, onto } => {
            push_str(&mut out, "Reverting", Style::fg(Color::Yellow));
            push_str(&mut out, " changes from ", Style::none());
            push_str(&mut out, commit.as_str(), Style::fg(Color::Blue));
            push_str(&mut out, " onto ", Style::none());
            push_str(&mut out, onto.as_str(), Style::fg(Color::Magenta));
        },
        Operation::Bisect { current, start } => {
            push_str(&mut out, "Bisecting", Style::fg(Color::Yellow));
            push_str(&mut out, " on ", Style::none());
            push_str(&mut out, current.as_str(), Style::fg(Color::Blue));
            push_str(&mut out, " ", Style::none());
            let mut p = String::from_str("(started from ");
            p.append(start.as_str());
            p.push(')');
            assert(p@ =~= "(started from "@ + start@ + seq![')']);
            push_span(&mut out, p, Style::dimmed());
        },
    }
    assert(line(out@) =~= operation_line(*op));
    if show_authorship {
        let is_bisect = match op {
            Operation::Bisect { .. } => true,
            _ => false,
        };
        if is_bisect {
            push_str(&mut out, "\n", Style::none());
        } else {
            push_str(&mut out, " as ", Style::none());
        }
        append_spans(&mut out, display_signature(signature));
    }
    assert(line(out@) =~= operation_header(*op, show_authorship, signature));
    out
}

/// How a subrepo's checked out commit relates to the commit its parent
/// expects (submodules only).
#[derive(Clone, Copy, PartialEq, Eq, Structural, Debug)]
pub enum Tracking {
    /// Nothing to show.
    Unknown,
    /// Ahead/behind of the commit the parent records.
    Counts(usize, usize),
    /// The parent records no commit for it.
    Untracked,
}

/// What a subrepo has checked out.
#[derive(Debug)]
pub struct SubrepoHead {
    /// The branch, when a branch is checked out.
    pub branch: Option<String>,
    /// Ahead/behind of the branch against its upstream, when shown.
    pub upstream: Option<(usize, usize)>,
    /// The displayed time of the checked out commit.
    pub time: String,
    /// The subject of the commit (or its message when it has none).
    pub summary: String,
}

/// What the status line of a subproject or submodule reads.
#[derive(Debug)]
pub struct SubrepoStatus {
    pub name: String,
    /// Whether its repo could be opened.
    pub initialized: bool,
    /// Whether its workdir has changes.
    pub dirty: bool,
    pub tracking: Tracking,
    pub head: Option<SubrepoHead>,
}

/// ` [+a -b]` or ` untracked` for a submodule.
pub open spec fn tracking_part(t: Tracking) -> Styled {
    match t {
        Tracking::Counts(a, b) => seq![(seq![' '], no_style())] + bracketed(plus_minus_line(a as nat, b as nat)),
        Tracking::Untracked => seq![(seq![' '], no_style()), ("untracked"@, red())],
        Tracking::Unknown => Seq::empty(),
    }
}

/// ` on branch [+a -b]` (when on a branch), then ` time · subject`.
pub open spec fn subrepo_head_part(h: SubrepoHead) -> Styled {
    (match h.branch {
        Some(b) => seq![(" on "@, no_style()), (b@, green())]
            + (match h.upstream {
                Some(ab) => seq![(seq![' '], no_style())] + bracketed(plus_minus_line(ab.0 as nat, ab.1 as nat)),
                None => Seq::empty(),
            }),
        None => Seq::empty(),
    }) + seq![(seq![' '], no_style()), (h.time@, no_style()), (" \u{b7} "@, no_style()), (h.summary@, no_style())]
}

/// The status line of a subrepo, before it is cut to the terminal width.
pub open spec fn subrepo_line(s: SubrepoStatus) -> Styled {
    seq![(s.name@, fg(Color::Cyan))]
        + (if !s.initialized {
            seq![(seq![' '], no_style()), ("not initialized"@, dim())]
        } else {
            (if s.dirty { seq![(seq![' '], no_style()), (seq!['\u{25cf}'], fg(Color::Yellow))] } else { Seq::empty() })
            + tracking_part(s.tracking)
            + (match s.head {
                Some(h) => subrepo_head_part(h),
                None => Seq::empty(),
            })
        })
}

fn push_tracking(out: &mut Vec<Span>, t: Tracking)
    ensures
        line(final(out)@) == line(old(out)@) + tracking_part(t),
{
    proof {
        reveal_strlit(" ");
        assert(" "@ =~= seq![' ']);
    }
    match t {
        Tracking::Counts(x, y) => {
            push_str(out, " ", Style::none());
            append_spans(out, dim_brackets(display_plus_minus(x, y)));
        },
        Tracking::Untracked => {
            push_str(out, " ", Style::none());
            push_str(out, "untracked", Style::fg(Color::Red));
        },
        Tracking::Unknown => {},
    }
    assert(line(out@) =~= line(old(out)@) + tracking_part(t));
}

fn push_subrepo_head(out: &mut Vec<Span>, h: &SubrepoHead)
    ensures
        line(final(out)@) == line(old(out)@) + subrepo_head_part(*h),
{
    proof {
        reveal_strlit(" ");
        assert(" "@ =~= seq![' ']);
    }
    match &h.branch {
        Some(br) => {
            push_str(out, " on ", Style::none());
            push_str(out, br.as_str(), Style::fg(Color::Green));
            match h.upstream {
                Some(ab) => {
                    push_str(out, " ", Style::none());
                    append_spans(out, dim_brackets(display_plus_minus(ab.0, ab.1)));
                },
                None => {},
            }
        },
        None => {},
    }
    let ghost a = line(out@);
    push_str(out, " ", Style::none());
    push_str(out, h.time.as_str(), Style::none());
    push_str(out, " \u{b7} ", Style::none());
    push_str(out, h.summary.as_str(), Style::none());
    proof {
        let br = match &h.branch {
            Some(b) => seq![(" on "@, no_style()), (b@, green())]
                + (match h.upstream {
                    Some(ab) => seq![(seq![' '], no_style())] + bracketed(plus_minus_line(ab.0 as nat, ab.1 as nat)),
                    None => Seq::empty(),
                }),
            None => Seq::empty(),
        };
        assert(a =~= line(old(out)@) + br);
        assert(line(out@) =~= line(old(out)@) + subrepo_head_part(*h));
    }
}

/// Displays the one-line status of a subproject or submodule: its name, then
/// whether it is initialized, dirty, how it tracks its parent, what branch it
/// is on and the commit it points to.
pub fn display_subrepo_line(s: &SubrepoStatus) -> (res: Vec<Span>)
    ensures
        line(res@) == subrepo_line(*s),
{
    let mut out: Vec<Span> = Vec::new();
    proof {
        reveal_strlit(" ");
        reveal_strlit("\u{25cf}");
        assert(" "@ =~= seq![' ']);
        assert("\u{25cf}"@ =~= seq!['\u{25cf}']);
    }
    push_str(&mut out, s.name.as_str(), Style::fg(Color::Cyan));
    let ghost a = line(out@);
    if !s.initialized {
        push_str(&mut out, " ", Style::none());
        push_str(&mut out, "not initialized", Style::dimmed());
        assert(line(out@) =~= subrepo_line(*s));
        return out;
    }
    if s.dirty {
        push_str(&mut out, " ", Style::none());
        push_str(&mut out, "\u{25cf}", Style::fg(Color::Yellow));
    }
    let ghost b = line(out@);
    push_tracking(&mut out, s.tracking);
    let ghost c = line(out@);
    match &s.head {
        Some(h) => push_subrepo_head(&mut out, h),
        None => {},
    }
    proof {
        let dirty = if s.dirty { seq![(seq![' '], no_style()), (seq!['\u{25cf}'], fg(Color::Yellow))] } else { Seq::empty() };
        assert(b =~= a + dirty);
        let hp = match &s.head {
            Some(h) => subrepo_head_part(*h),
            None => Seq::empty(),
        };
        assert(line(out@) =~= c + hp);
        assert(line(out@) =~= subrepo_line(*s));
    }
    out
}

/// The status of a subrepo as text: its line, cut to `width` when printing to
/// a terminal, then `signature` (its authorship, when shown and different
/// from the parent's).
pub fn render_subrepo_status(s: &SubrepoStatus, signature: &Vec<Span>, colors: bool, width: Option<usize>) -> (res: String)
    ensures
        res@ == (if s.initialized && s.head is Some {
            cut(rendered(subrepo_line(*s), colors), width, ellipsis(colors)) + rendered(line(signature@), colors)
        } else {
            rendered(subrepo_line(*s), colors)
        }),
{
    let l = display_subrepo_line(s);
    if s.initialized && s.head.is_some() {
        let mut out = render_cut(&l, colors, width);
        let sig = render(signature, colors);
        out.append(sig.as_str());
        out
    } else {
        render(&l, colors)
    }
}


/// Options of the status subcommand. `None` defers to the user's config.
#[derive(Clone, Copy, PartialEq, Eq, Structural, Debug)]
pub struct StatusArgs {
    /// Hides untracked files from output
    pub no_untracked: Option<bool>,
    /// Hides feature subprojects from output
    pub no_projects: Option<bool>,
    /// Hides git submodules from output
    pub no_modules: Option<bool>,
}

impl StatusArgs {
    /// Whether subprojects are hidden, given whether the config shows them.
    pub fn hide_projects(&self, config_shows: bool) -> (res: bool)
        ensures
            res == (match self.no_projects {
                Some(h) => h,
                None => !config_shows,
            }),
    {
        match self.no_projects {
            Some(h) => h,
            None => !config_shows,
        }
    }

    /// Whether submodules are hidden, given whether the config shows them.
    pub fn hide_modules(&self, config_shows: bool) -> (res: bool)
        ensures
            res == (match self.no_modules {
                Some(h) => h,
                None => !config_shows,
            }),
    {
        match self.no_modules {
            Some(h) => h,
            None => !config_shows,
        }
    }

    /// Whether untracked files are shown, given whether the config shows them.
    pub fn show_untracked(&self, config_shows: bool) -> (res: bool)
        ensures
            res == (match self.no_untracked {
                Some(h) => !h,
                None => config_shows,
            }),
    {
        match self.no_untracked {
            Some(h) => !h,
            None => config_shows,
        }
    }
}

/// `Resolved - ` and the summary of a cherry-pick's resolved changes, or
/// nothing when there are none.
pub open spec fn resolved_part(summary: DiffSummary, nerdfont: bool) -> Styled {
    if summary.files@.len() == 0 {
        Seq::empty()
    } else {
        seq![("Resolved"@, green()), (" - "@, no_style())]
            + summary_header_line(summary.num_files as nat, summary.insertions as nat, summary.deletions as nat)
            + files_lines(summary.files@, nerdfont)
    }
}

/// Displays the changes a cherry-pick has resolved so far.
pub fn display_resolved(summary: &DiffSummary, nerdfont: bool) -> (res: Vec<Span>)
    ensures
        line(res@) == resolved_part(*summary, nerdfont),
{
    let mut out: Vec<Span> = Vec::new();
    if !summary.is_empty() {
        push_str(&mut out, "Resolved", Style::fg(Color::Green));
        push_str(&mut out, " - ", Style::none());
        append_spans(&mut out, display_summary(summary, nerdfont));
    }
    assert(line(out@) =~= resolved_part(*summary, nerdfont));
    out
}

/// The main repo's report: the header, then the advice and the changes, each
/// in a paragraph of its own when there is any.
pub open spec fn main_repo_report(header: Seq<char>, advice: Option<Seq<char>>, changes: Seq<char>) -> Seq<char> {
    header
        + (match advice {
            Some(a) => "\n\n"@ + a,
            None => Seq::empty(),
        })
        + (if changes.len() == 0 { Seq::empty() } else { "\n\n"@ + changes })
}

/// Lays out the main repo's status from its rendered parts.
pub fn display_main_repo(header: &str, advice: Option<&str>, changes: &str) -> (res: String)
    ensures
        res@ == main_repo_report(header@, match advice {
            Some(a) => Some(a@),
            None => None,
        }, changes@),
{
    let mut out = String::from_str(header);
    let ghost h = out@;
    match advice {
        Some(a) => {
            out.append("\n\n");
            out.append(a);
        },
        None => {},
    }
    let ghost b = out@;
    if changes.unicode_len() > 0 {
        out.append("\n\n");
        out.append(changes);
    }
    proof {
        let av = match advice {
            Some(a) => Some(a@),
            None => None,
        };
        let adv = match av {
            Some(a) => "\n\n"@ + a,
            None => Seq::empty(),
        };
        assert(b =~= h + adv);
        assert(out@ =~= main_repo_report(header@, av, changes@));
    }
    out
}

} // verus!
