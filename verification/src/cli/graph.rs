//! `graph`: a one-line-per-commit graph of all branches, through `git log`.

use vstd::prelude::*;

use crate::text::views;

verus! {

/// Options of `graph`.
#[derive(Debug)]
pub struct Args {
    /// The format passed to git log
    pub format: Option<String>,
}

/// The arguments of the `git log` call, with `--pretty=<format>` when a
/// format is set.
pub open spec fn graph_args(format: Option<Seq<char>>) -> Seq<Seq<char>> {
    seq!["log"@, "--graph"@, "--all"@, "--color=always"@] + match format {
        Some(f) => seq!["--pretty="@ + f],
        None => Seq::empty(),
    }
}

impl Args {
    /// The format to use: the one given on the command line, else the one
    /// configured (if any).
    pub fn chosen_format(&self, configured: Option<String>) -> (res: Option<String>)
        ensures
            res == match self.format {
                Some(f) => Some(f),
                None => configured,
            },
    {
        match &self.format {
            Some(f) => Some(f.clone()),
            None => configured,
        }
    }
}

/// The arguments of the `git log` call that draws the graph.
pub fn git_args(format: Option<String>) -> (res: Vec<String>)
    ensures
        views(res@) == graph_args(match format {
            Some(f) => Some(f@),
            None => None,
        }),
{
    let mut v: Vec<String> = Vec::new();
    v.push(String::from_str("log"));
    v.push(String::from_str("--graph"));
    v.push(String::from_str("--all"));
    v.push(String::from_str("--color=always"));
    match format {
        Some(f) => {
            let mut p = String::from_str("--pretty=");
            p.append(f.as_str());
            v.push(p);
            assert(views(v@) =~= graph_args(Some(f@)));
        },
        None => {
            assert(views(v@) =~= graph_args(None));
        },
    }
    v
}

} // verus!
