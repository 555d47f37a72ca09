//! The older project subcommand: add a project (opening or cloning its repo,
//! recording it in the config and in .gitignore), or remove one.

use vstd::prelude::*;

use crate::cli::display::{fg, no_style};
use crate::cli::error::CliError;
use crate::cli::status::Styled;
use crate::cli::config_doc::{
    doc_entries, document_text, has_nested, nested_str, parse_config, remove_nested, toml_parse, without, written_as,
    TomlVal,
};
use crate::text::{line, lines, push_span, push_str, str_eq, text_lines, views, Color, Span, Style};

verus! {

/// Options of `project add`.
#[derive(Debug)]
pub struct AddArgs {
    /// The repo url of the project
    pub url: Option<String>,
    /// The path to the subproject root, relative to the superproject root.
    pub path: Option<String>,
    /// The name of the project
    pub name: String,
}

/// Options of `project rm`.
#[derive(Debug)]
pub struct RmArgs {
    /// Also delete the repo dir (irreversible)
    pub delete: bool,
    /// The name of the project
    pub name: String,
}

/// The project subcommands.
#[derive(Debug)]
pub enum ProjectCommand {
    Add(AddArgs),
    Rm(RmArgs),
}

/// How a project is added.
#[derive(Debug)]
pub enum AddMode {
    /// Open the repo already at this path
    Existing(String),
    /// Clone `url` into `path`, creating the directory (and its parents when
    /// `parents`)
    Clone { url: String, path: String, parents: bool },
}

impl AddArgs {
    /// Decides how to add the project: without a url the repo must already
    /// exist (at the path given, else in a directory named after the
    /// project); with one it is cloned there.
    pub fn mode(&self) -> (res: AddMode)
        ensures
            self.url is None ==> (res matches AddMode::Existing(p) && p@ == (match self.path {
                Some(p) => p@,
                None => self.name@,
            })),
            self.url matches Some(u) ==> (res matches AddMode::Clone { url, path, parents } && url@ == u@
                && path@ == (match self.path { Some(p) => p@, None => self.name@ })
                && parents == self.path is Some),
    {
        match (&self.url, &self.path) {
            (None, None) => AddMode::Existing(self.name.clone()),
            (None, Some(p)) => AddMode::Existing(p.clone()),
            (Some(u), None) => AddMode::Clone { url: u.clone(), path: self.name.clone(), parents: false },
            (Some(u), Some(p)) => AddMode::Clone { url: u.clone(), path: p.clone(), parents: true },
        }
    }
}

/// `No repo found at path: <path>`.
pub fn no_repo(path: &str) -> (res: CliError)
    ensures
        res matches CliError::Generic(m) && m@ == "No repo found at path: "@ + path@,
{
    let mut m = String::from_str("No repo found at path: ");
    m.append(path);
    CliError::Generic(m)
}

/// The url of an existing project: its first remote's; an error without one.
pub fn remote_url(first_remote_url: Option<&str>) -> (res: Result<String, CliError>)
    ensures
        first_remote_url matches Some(u) ==> (res matches Ok(s) && s@ == u@),
        first_remote_url is None ==> (res matches Err(CliError::Generic(m)) && m@ == "Couldn't find a remote url to use!"@),
{
    match first_remote_url {
        Some(u) => Ok(String::from_str(u)),
        None => Err(CliError::Generic(String::from_str("Couldn't find a remote url to use!"))),
    }
}

/// The .gitignore after adding an entry: the old content, ended by a line
/// break when it had content without one, then the entry on its own line.
pub open spec fn gitignore_with(existing: Seq<char>, entry: Seq<char>) -> Seq<char> {
    existing
        + (if existing.len() > 0 && existing.last() != '\n' { seq!['\n'] } else { Seq::empty() })
        + entry + seq!['\n']
}

/// Adds an entry to the content of a .gitignore.
pub fn add_to_gitignore(existing: &str, entry: &str) -> (res: String)
    ensures
        res@ == gitignore_with(existing@, entry@),
{
    let mut out = String::from_str(existing);
    let n = existing.unicode_len();
    if n > 0 && existing.get_char(n - 1) != '\n' {
        out.push('\n');
    }
    out.append(entry);
    out.push('\n');
    out
}

/// `Added <entry> to .gitignore`.
pub fn display_gitignore_added(entry: &str) -> (res: Vec<Span>)
    ensures
        line(res@) == seq![("Added "@, no_style()), (entry@, fg(Color::Cyan)), (" to .gitignore"@, no_style())],
{
    let mut out: Vec<Span> = Vec::new();
    push_str(&mut out, "Added ", Style::none());
    push_str(&mut out, entry, Style::fg(Color::Cyan));
    push_str(&mut out, " to .gitignore", Style::none());
    out
}

/// The keys under which a project is recorded in the config, with their
/// values: `projects.<name>.url` and `projects.<name>.path`.
pub fn config_entries(name: &str, url: &str, path: &str) -> (res: Vec<(Vec<String>, String)>)
    ensures
        res@.len() == 2,
        crate::text::views(res@[0].0@) == seq!["projects"@, name@, "url"@],
        res@[0].1@ == url@,
        crate::text::views(res@[1].0@) == seq!["projects"@, name@, "path"@],
        res@[1].1@ == path@,
{
    let mut k1: Vec<String> = Vec::new();
    k1.push(String::from_str("projects"));
    k1.push(String::from_str(name));
    k1.push(String::from_str("url"));
    let mut k2: Vec<String> = Vec::new();
    k2.push(String::from_str("projects"));
    k2.push(String::from_str(name));
    k2.push(String::from_str("path"));
    assert(crate::text::views(k1@) =~= seq!["projects"@, name@, "url"@]);
    assert(crate::text::views(k2@) =~= seq!["projects"@, name@, "path"@]);
    let mut out: Vec<(Vec<String>, String)> = Vec::new();
    out.push((k1, String::from_str(url)));
    out.push((k2, String::from_str(path)));
    out
}

/// The .gitignore after removing an entry: every other line, each ended by
/// a line break.
pub open spec fn lines_without(ls: Seq<Seq<char>>, entry: Seq<char>) -> Seq<char>
    decreases ls.len(),
{
    if ls.len() == 0 {
        Seq::empty()
    } else {
        lines_without(ls.drop_last(), entry) + (if ls.last() == entry { Seq::empty() } else { ls.last() + seq!['\n'] })
    }
}

/// Removes an entry's lines from the content of a .gitignore.
pub fn remove_from_gitignore(existing: &str, entry: &str) -> (res: String)
    ensures
        res@ == lines_without(text_lines(existing@), entry@),
{
    let ls = lines(existing);
    let mut out = String::new();
    let mut i: usize = 0;
    while i < ls.len()
        invariant
            i <= ls@.len(),
            views(ls@) == text_lines(existing@),
            out@ == lines_without(views(ls@).subrange(0, i as int), entry@),
        decreases ls@.len() - i,
    {
        let ghost s = views(ls@).subrange(0, i + 1);
        assert(s.drop_last() =~= views(ls@).subrange(0, i as int));
        if !str_eq(ls[i].as_str(), entry) {
            out.append(ls[i].as_str());
            out.push('\n');
        }
        i = i + 1;
    }
    assert(views(ls@).subrange(0, ls@.len() as int) =~= views(ls@));
    out
}

/// What removing a project writes: the new config text, the new .gitignore
/// text, and the project directory to delete, if asked to.
#[derive(Debug)]
pub struct RmPlan {
    pub config: String,
    pub gitignore: String,
    pub delete_dir: Option<String>,
}

/// Where a project lives: its recorded path, else its name.
pub open spec fn project_path(es: Map<Seq<Seq<char>>, TomlVal>, name: Seq<char>) -> Seq<char> {
    if es.contains_key(seq!["projects"@, name, "path"@]) && es[seq!["projects"@, name, "path"@]] is Str {
        es[seq!["projects"@, name, "path"@]]->Str_0
    } else {
        name
    }
}

impl RmArgs {
    /// Removes all traces of the project from this repo, given the texts of
    /// its config file and .gitignore: its entry under `projects` goes from
    /// the config and its path's lines from the .gitignore; its directory is
    /// deleted only with `--delete`. A config that is not TOML is an error;
    /// when it records no such project there is nothing to do (`None`).
    pub fn run(&self, config: &str, gitignore: &str) -> (res: Result<Option<RmPlan>, CliError>)
        ensures
            match toml_parse(config@) {
                Err(m) => res matches Err(CliError::Config(c)) && c@ == m,
                Ok(es) => if !es.contains_key(seq!["projects"@, self.name@]) {
                    res matches Ok(None)
                } else {
                    res matches Ok(Some(p)) && {
                        let path = project_path(es, self.name@);
                        &&& written_as(p.config@, if es.contains_key(seq!["projects"@]) && es[seq!["projects"@]] is Table {
                            without(es, seq!["projects"@, self.name@])
                        } else {
                            es
                        })
                        &&& p.gitignore@ == lines_without(text_lines(gitignore@), path)
                        &&& (self.delete ==> (p.delete_dir matches Some(d) && d@ == path))
                        &&& (!self.delete ==> p.delete_dir is None)
                    }
                },
            },
    {
        let mut doc = parse_config(config)?;
        let ghost es = doc_entries(doc);
        if !has_nested(&doc, "projects", self.name.as_str()) {
            return Ok(None);
        }
        let path = match nested_str(&doc, "projects", self.name.as_str(), "path") {
            Some(p) => p,
            None => self.name.clone(),
        };
        remove_nested(&mut doc, "projects", self.name.as_str());
        let new_config = document_text(&doc);
        let new_ignore = remove_from_gitignore(gitignore, path.as_str());
        let delete_dir = if self.delete { Some(path) } else { None };
        Ok(Some(RmPlan { config: new_config, gitignore: new_ignore, delete_dir }))
    }
}

} // verus!
