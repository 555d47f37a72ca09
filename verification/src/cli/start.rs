//! `start`: builds a new branch's name from words and a template, and
//! reports its creation.

use vstd::prelude::*;

use crate::cli::display::{dim, green, no_style};
use crate::cli::error::CliError;
use crate::cli::status::Styled;
use crate::text::{join, joined, line, push_span, push_str, str_eq, views, Color, Span, Style};

verus! {

/// Options of `start`.
#[derive(Debug)]
pub struct Args {
    /// Display the branch name, after joining args and performing template
    /// replacements
    pub dry_run: bool,
    /// The separator to use when joining words
    pub sep: Option<String>,
    /// Format specifier for branch name
    pub format: Option<String>,
    /// Which base branch to start from
    pub from: Option<String>,
    /// Whether to stay on the current branch
    pub stay: bool,
    /// Words to join together as branch name
    pub words: Vec<String>,
}

/// The message when no base is named and no branch is checked out.
pub open spec fn not_on_branch_msg() -> Seq<char> {
    "Not currently on a branch! You can switch to a branch or specify one manually\nwith the \"--from <BRANCH>\" option."@
}

/// The message when the template uses the user and none is configured.
pub open spec fn no_user_msg() -> Seq<char> {
    "No value for feature.user. Set it with \"git config feature.user <username>\"."@
}

/// What a template's variables stand for.
#[derive(Debug)]
pub struct TemplateVars {
    /// `%s`: the words joined by the separator
    pub main: String,
    /// `%(user)`: the configured user, if any
    pub user: Option<String>,
    /// `%(base)`: the base branch's name
    pub base: String,
    /// `%(sep)`: the separator
    pub sep: String,
}

/// The first index at or after `start` holding `c`.
pub open spec fn first_from(t: Seq<char>, start: int, c: char) -> Option<int>
    decreases t.len() - start,
{
    if start < 0 || start >= t.len() {
        None
    } else if t[start] == c {
        Some(start)
    } else {
        first_from(t, start + 1, c)
    }
}

/// The value of a long variable: `Ok(Some(v))` for a known one, `Err(())`
/// for the user when none is set, `Ok(None)` for an unknown name (which is
/// left as written).
pub open spec fn long_var(name: Seq<char>, user: Option<Seq<char>>, base: Seq<char>, sep: Seq<char>) -> Result<Option<Seq<char>>, ()> {
    if name == "user"@ {
        match user {
            Some(u) => Ok(Some(u)),
            None => Err(()),
        }
    } else if name == "base"@ {
        Ok(Some(base))
    } else if name == "sep"@ {
        Ok(Some(sep))
    } else {
        Ok(None)
    }
}

/// The user as plain values.
pub open spec fn opt_view(u: Option<String>) -> Option<Seq<char>> {
    match u {
        Some(s) => Some(s@),
        None => None,
    }
}

/// The template from index `i` on, with its variables replaced: `%%` is a
/// literal `%`, `%s` the words, `%(name)` a long variable; anything else is
/// kept. `None` when the user is used but not set.
pub open spec fn expand_from(t: Seq<char>, main: Seq<char>, user: Option<Seq<char>>, base: Seq<char>, sep: Seq<char>, i: int) -> Option<Seq<char>>
    decreases t.len() - i, 1int,
{
    if i < 0 || i >= t.len() {
        Some(Seq::empty())
    } else if t[i] == '%' && i + 1 < t.len() && t[i + 1] == '%' {
        match expand_from(t, main, user, base, sep, i + 2) {
            Some(r) => Some(seq!['%'] + r),
            None => None,
        }
    } else if t[i] == '%' && i + 1 < t.len() && t[i + 1] == 's' {
        match expand_from(t, main, user, base, sep, i + 2) {
            Some(r) => Some(main + r),
            None => None,
        }
    } else if t[i] == '%' && i + 1 < t.len() && t[i + 1] == '(' && first_from(t, i + 2, ')') is Some {
        let k = first_from(t, i + 2, ')')->0;
        if k <= i || k >= t.len() {
            None
        } else {
            match long_var(t.subrange(i + 2, k), user, base, sep) {
                Err(_) => None,
                Ok(v) => match expand_from(t, main, user, base, sep, k + 1) {
                    Some(r) => Some(match v {
                        Some(v) => v,
                        None => t.subrange(i, k + 1),
                    } + r),
                    None => None,
                },
            }
        }
    } else {
        match expand_from(t, main, user, base, sep, i + 1) {
            Some(r) => Some(seq![t[i]] + r),
            None => None,
        }
    }
}

proof fn lemma_first_from_bounds(t: Seq<char>, start: int, c: char)
    requires
        0 <= start,
    ensures
        first_from(t, start, c) matches Some(k) ==> start <= k < t.len() && t[k] == c
            && forall|j: int| start <= j < k ==> t[j] != c,
        first_from(t, start, c) is None ==> forall|j: int| start <= j < t.len() ==> t[j] != c,
    decreases t.len() - start,
{
    if start < t.len() && t[start] != c {
        lemma_first_from_bounds(t, start + 1, c);
    }
}

fn find_from(t: &str, start: usize, c: char) -> (res: Option<usize>)
    requires
        start <= t@.len(),
    ensures
        (match res { Some(k) => Some(k as int), None => None }) == first_from(t@, start as int, c),
{
    let n = t.unicode_len();
    let mut k = start;
    while k < n
        invariant
            start <= k <= n,
            n == t@.len(),
            first_from(t@, start as int, c) == first_from(t@, k as int, c),
        decreases n - k,
    {
        if t.get_char(k) == c {
            return Some(k);
        }
        k = k + 1;
    }
    None
}

/// Replaces a template's variables (see [expand_from]); the user is only
/// needed when the template uses it.
pub fn expand_template(t: &str, vars: &TemplateVars) -> (res: Result<String, CliError>)
    ensures
        expand_from(t@, vars.main@, opt_view(vars.user), vars.base@, vars.sep@, 0) matches Some(r) ==> (res matches Ok(s) && s@ == r),
        expand_from(t@, vars.main@, opt_view(vars.user), vars.base@, vars.sep@, 0) is None ==> (res matches Err(CliError::Generic(m)) && m@ == no_user_msg()),
{
    let n = t.unicode_len();
    let mut out = String::new();
    let mut i: usize = 0;
    while i < n
        invariant
            i <= n,
            n == t@.len(),
            expand_from(t@, vars.main@, opt_view(vars.user), vars.base@, vars.sep@, 0) == (match expand_from(t@, vars.main@, opt_view(vars.user), vars.base@, vars.sep@, i as int) {
                Some(r) => Some(out@ + r),
                None => None,
            }),
        decreases n - i,
    {
        let c = t.get_char(i);
        let next = if i + 1 < n { Some(t.get_char(i + 1)) } else { None };
        if c == '%' && next == Some('%') {
            out.push('%');
            i = i + 2;
        } else if c == '%' && next == Some('s') {
            out.append(vars.main.as_str());
            i = i + 2;
        } else if c == '%' && next == Some('(') && find_from(t, i + 2, ')').is_some() {
            let k = match find_from(t, i + 2, ')') { Some(k) => k, None => i };
            proof {
                lemma_first_from_bounds(t@, i + 2, ')');
            }
            let name = crate::text::substring(t, i + 2, k);
            if str_eq(name.as_str(), "user") {
                match &vars.user {
                    Some(u) => out.append(u.as_str()),
                    None => {
                        return Err(CliError::Generic(String::from_str("No value for feature.user. Set it with \"git config feature.user <username>\".")));
                    },
                }
            } else if str_eq(name.as_str(), "base") {
                out.append(vars.base.as_str());
            } else if str_eq(name.as_str(), "sep") {
                out.append(vars.sep.as_str());
            } else {
                let raw = crate::text::substring(t, i, k + 1);
                out.append(raw.as_str());
            }
            i = k + 1;
        } else {
            out.push(c);
            i = i + 1;
        }
    }
    Ok(out)
}

impl Args {
    /// The separator: the one given, else the configured one.
    pub fn separator(&self, config_sep: &str) -> (res: String)
        ensures
            res@ == (match self.sep { Some(s) => s@, None => config_sep@ }),
    {
        match &self.sep {
            Some(s) => s.clone(),
            None => String::from_str(config_sep),
        }
    }

    /// Builds the branch name: the words joined by the separator, then put
    /// through the template given, else the configured one; without a
    /// template (or with an empty one) the joined words are the name.
    pub fn build_branch_name(&self, config_sep: &str, config_template: Option<&str>, base: &str, user: Option<String>)
        -> (res: Result<String, CliError>)
        ensures
            ({
                let sep = match self.sep { Some(s) => s@, None => config_sep@ };
                let main = joined(views(self.words@), sep);
                let template = match self.format {
                    Some(f) => Some(f@),
                    None => match config_template { Some(t) => Some(t@), None => None },
                };
                match template {
                    Some(t) => if t.len() == 0 {
                        res matches Ok(s) && s@ == main
                    } else {
                        match expand_from(t, main, opt_view(user), base@, sep, 0) {
                            Some(r) => res matches Ok(s) && s@ == r,
                            None => res matches Err(CliError::Generic(m)) && m@ == no_user_msg(),
                        }
                    },
                    None => res matches Ok(s) && s@ == main,
                }
            }),
    {
        let sep = self.separator(config_sep);
        let main = join(&self.words, sep.as_str());
        let template: Option<String> = match &self.format {
            Some(f) => Some(f.clone()),
            None => match config_template {
                Some(t) => Some(String::from_str(t)),
                None => None,
            },
        };
        match template {
            None => Ok(main),
            Some(t) => {
                if t.unicode_len() == 0 {
                    return Ok(main);
                }
                let vars = TemplateVars { main, user, base: String::from_str(base), sep };
                expand_template(t.as_str(), &vars)
            },
        }
    }
}


/// `Created <branch> (from <base>)`.
pub open spec fn creation_line(branch: Seq<char>, base: Seq<char>) -> Styled {
    seq![("Created"@, green()), (seq![' '] + branch + seq![' '], no_style()), ("(from "@ + base + seq![')'], dim())]
}

/// Reports the created branch.
pub fn display_branch_creation(branch: &str, base: &str) -> (res: Vec<Span>)
    ensures
        line(res@) == creation_line(branch@, base@),
{
    let mut out: Vec<Span> = Vec::new();
    push_str(&mut out, "Created", Style::fg(Color::Green));
    let mut mid = String::new();
    mid.push(' ');
    mid.append(branch);
    mid.push(' ');
    assert(mid@ =~= seq![' '] + branch@ + seq![' ']);
    push_span(&mut out, mid, Style::none());
    let mut from = String::from_str("(from ");
    from.append(base);
    from.push(')');
    assert(from@ =~= "(from "@ + base@ + seq![')']);
    push_span(&mut out, from, Style::dimmed());
    out
}

/// The note printed before a dry run's report.
pub fn dry_run_note() -> (res: Vec<Span>)
    ensures
        line(res@) == seq![("Running in dry-run mode, no branch will be created"@, dim())],
{
    let mut out: Vec<Span> = Vec::new();
    push_str(&mut out, "Running in dry-run mode, no branch will be created", Style::dimmed());
    out
}

/// The error when no base is named and no branch is checked out.
pub fn not_on_branch() -> (res: CliError)
    ensures
        res matches CliError::Generic(m) && m@ == not_on_branch_msg(),
{
    CliError::Generic(String::from_str("Not currently on a branch! You can switch to a branch or specify one manually\nwith the \"--from <BRANCH>\" option."))
}

/// The base recorded for the new branch: the base's upstream when it has
/// one, else the base itself (both as full ref names).
pub fn feature_base_name(base_refname: &str, base_upstream: Option<&str>) -> (res: String)
    ensures
        res@ == (match base_upstream { Some(u) => u@, None => base_refname@ }),
{
    match base_upstream {
        Some(u) => String::from_str(u),
        None => String::from_str(base_refname),
    }
}

} // verus!
