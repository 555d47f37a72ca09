//! Feature projects: other git repos included as subprojects of this repo.

use vstd::prelude::*;

use crate::cli::display::{fg, green, no_style, red};
use crate::cli::error::CliError;
use crate::cli::status::Styled;
use crate::text::{line, push_span, push_str, starts_with, views, Color, Span, Style};

verus! {

/// Options of `project add`.
#[derive(Debug)]
pub struct AddArgs {
    /// The repo url
    pub url: Option<String>,
    /// The path where the subproject will reside, relative to this repo.
    pub path: Option<String>,
    /// The name of the project
    pub name: String,
}

/// Options of `project remove`.
#[derive(Debug)]
pub struct RemoveArgs {
    /// The name of the project
    pub name: String,
}

/// Options of `project list`.
#[derive(Clone, Copy, PartialEq, Eq, Structural, Debug)]
pub struct ListArgs {}

/// Options of `project each`.
#[derive(Debug)]
pub struct EachArgs {
    /// Filter projects by prefix of name (comma-separate for multiple)
    pub filter: Vec<String>,
    /// The command to run, and its arguments
    pub args: Vec<String>,
}

/// The project subcommands.
#[derive(Debug)]
pub enum ProjectCommand {
    Add(AddArgs),
    Remove(RemoveArgs),
    List(ListArgs),
    Each(EachArgs),
}

impl AddArgs {
    /// Reports the created project: its name, where it lives and where it
    /// came from.
    pub fn report(name: &str, path: &str, url: &str) -> (res: Vec<Vec<Span>>)
        ensures
            res@.len() == 3,
            line(res@[0]@) == seq![("Created"@, green()), (" project "@, no_style()), (name@, fg(Color::Cyan))],
            line(res@[1]@) == seq![("  in "@, no_style()), ("./"@ + path@, fg(Color::Blue))],
            line(res@[2]@) == seq![("  from "@, no_style()), (url@, fg(Color::Magenta))],
    {
        let mut a: Vec<Span> = Vec::new();
        push_str(&mut a, "Created", Style::fg(Color::Green));
        push_str(&mut a, " project ", Style::none());
        push_str(&mut a, name, Style::fg(Color::Cyan));
        let mut b: Vec<Span> = Vec::new();
        push_str(&mut b, "  in ", Style::none());
        let mut p = String::from_str("./");
        p.append(path);
        push_span(&mut b, p, Style::fg(Color::Blue));
        let mut c: Vec<Span> = Vec::new();
        push_str(&mut c, "  from ", Style::none());
        push_str(&mut c, url, Style::fg(Color::Magenta));
        let mut out: Vec<Vec<Span>> = Vec::new();
        out.push(a);
        out.push(b);
        out.push(c);
        out
    }
}

impl RemoveArgs {
    /// Reports the removed project, or the error when there is no project by
    /// that name.
    pub fn run(&self, found: bool) -> (res: Result<Vec<Span>, CliError>)
        ensures
            !found ==> (res matches Err(CliError::Generic(m)) && m@ == "Failed to find project named \""@ + self.name@ + "\""@),
            found ==> (res matches Ok(l) && line(l@) == seq![("Removed"@, red()), (seq![' '] + self.name@, no_style())]),
    {
        if !found {
            let mut m = String::from_str("Failed to find project named \"");
            m.append(self.name.as_str());
            m.append("\"");
            return Err(CliError::Generic(m));
        }
        let mut out: Vec<Span> = Vec::new();
        push_str(&mut out, "Removed", Style::fg(Color::Red));
        let mut n = String::new();
        n.push(' ');
        n.append(self.name.as_str());
        push_span(&mut out, n, Style::none());
        Ok(out)
    }
}

impl ListArgs {
    /// The lines of one listed project: its name, url and path.
    pub fn project_lines(name: &str, url: &str, path: &str) -> (res: Vec<Vec<Span>>)
        ensures
            res@.len() == 3,
            line(res@[0]@) == seq![(name@, fg(Color::Cyan))],
            line(res@[1]@) == seq![("  url = "@ + url@, no_style())],
            line(res@[2]@) == seq![("  path = "@ + path@, no_style())],
    {
        let mut a: Vec<Span> = Vec::new();
        push_str(&mut a, name, Style::fg(Color::Cyan));
        let mut b: Vec<Span> = Vec::new();
        let mut u = String::from_str("  url = ");
        u.append(url);
        push_span(&mut b, u, Style::none());
        let mut c: Vec<Span> = Vec::new();
        let mut p = String::from_str("  path = ");
        p.append(path);
        push_span(&mut c, p, Style::none());
        let mut out: Vec<Vec<Span>> = Vec::new();
        out.push(a);
        out.push(b);
        out.push(c);
        out
    }
}

/// Whether `each` runs in a project: with no filters in every one, else in
/// those whose name starts with one of the filters.
pub open spec fn selected(name: Seq<char>, filters: Seq<Seq<char>>) -> bool {
    filters.len() == 0 || exists|i: int| 0 <= i < filters.len() && filters[i].is_prefix_of(name)
}

impl EachArgs {
    /// Whether the command runs in the project named `name`.
    pub fn selects(&self, name: &str) -> (res: bool)
        ensures
            res == selected(name@, views(self.filter@)),
    {
        if self.filter.len() == 0 {
            return true;
        }
        let mut i: usize = 0;
        while i < self.filter.len()
            invariant
                i <= self.filter@.len(),
                self.filter@.len() > 0,
                forall|j: int| 0 <= j < i ==> !self.filter@[j]@.is_prefix_of(name@),
            decreases self.filter@.len() - i,
        {
            if starts_with(name, self.filter[i].as_str()) {
                assert(views(self.filter@)[i as int] == self.filter@[i as int]@);
                return true;
            }
            i = i + 1;
        }
        assert forall|j: int| 0 <= j < views(self.filter@).len() implies !(#[trigger] views(self.filter@)[j]).is_prefix_of(name@) by {
            assert(views(self.filter@)[j] == self.filter@[j]@);
        }
        false
    }

    /// The command and its arguments; without a command it is an error.
    pub fn command(&self) -> (res: Result<(String, Vec<String>), CliError>)
        ensures
            self.args@.len() == 0 ==> (res matches Err(CliError::Generic(m)) && m@ == "Must specify a command!"@),
            self.args@.len() > 0 ==> (res matches Ok(c) && c.0@ == self.args@[0]@
                && views(c.1@) == views(self.args@).drop_first()),
    {
        if self.args.len() == 0 {
            return Err(CliError::Generic(String::from_str("Must specify a command!")));
        }
        let cmd = self.args[0].clone();
        let mut rest: Vec<String> = Vec::new();
        let mut i: usize = 1;
        while i < self.args.len()
            invariant
                1 <= i <= self.args@.len(),
                rest@.len() == i - 1,
                forall|k: int| 0 <= k < rest@.len() ==> (#[trigger] rest@[k])@ == self.args@[k + 1]@,
            decreases self.args@.len() - i,
        {
            rest.push(self.args[i].clone());
            i = i + 1;
        }
        assert(views(rest@) =~= views(self.args@).drop_first());
        Ok((cmd, rest))
    }

    /// The title of a project's run: its name, bold cyan.
    pub fn title(name: &str) -> (res: Vec<Span>)
        ensures
            line(res@) == seq![(name@, Style { color: Color::Cyan, bold: true, dim: false })],
    {
        let mut out: Vec<Span> = Vec::new();
        push_str(&mut out, name, Style::bold(Color::Cyan));
        out
    }

    /// The outcome of a project's run: `name succeeded`, or `name failed`
    /// and the exit status.
    pub fn outcome(name: &str, success: bool, status: &str) -> (res: Vec<Span>)
        ensures
            success ==> line(res@) == seq![(name@, fg(Color::Cyan)), (seq![' '], no_style()), ("succeeded"@, green())],
            !success ==> line(res@) == seq![(name@, fg(Color::Cyan)), (seq![' '], no_style()), ("failed"@, red()),
                (seq![' '] + status@, no_style())],
    {
        let mut out: Vec<Span> = Vec::new();
        push_str(&mut out, name, Style::fg(Color::Cyan));
        let mut sp = String::new();
        sp.push(' ');
        push_span(&mut out, sp, Style::none());
        if success {
            push_str(&mut out, "succeeded", Style::fg(Color::Green));
        } else {
            push_str(&mut out, "failed", Style::fg(Color::Red));
            let mut st = String::new();
            st.push(' ');
            st.append(status);
            push_span(&mut out, st, Style::none());
        }
        out
    }

    /// The error when a project's command could not be run.
    pub fn run_failed(name: &str, path: &str) -> (res: CliError)
        ensures
            res matches CliError::Generic(m) && m@ == "Failed to run project '"@ + name@ + "' (path: "@ + path@ + ")"@,
    {
        let mut m = String::from_str("Failed to run project '");
        m.append(name);
        m.append("' (path: ");
        m.append(path);
        m.append(")");
        CliError::Generic(m)
    }
}

} // verus!
