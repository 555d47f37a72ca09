//! `log`: all commits, untruncated, through `git log`.

use vstd::prelude::*;

use crate::text::views;

verus! {

/// Options of `log`.
#[derive(Debug)]
pub struct Args {
    /// The format passed to git log
    pub format: Option<String>,
}

impl Args {
    /// The arguments of the `git log` call: `log --all --pretty=<format>`,
    /// with the format given on the command line, else `configured`.
    pub fn git_args(&self, configured: &str) -> (res: Vec<String>)
        ensures
            views(res@) == seq!["log"@, "--all"@, "--pretty="@ + match self.format {
                Some(f) => f@,
                None => configured@,
            }],
    {
        let mut v: Vec<String> = Vec::new();
        v.push(String::from_str("log"));
        v.push(String::from_str("--all"));
        let mut p = String::from_str("--pretty=");
        match &self.format {
            Some(f) => p.append(f.as_str()),
            None => p.append(configured),
        }
        v.push(p);
        proof {
            let f = match &self.format {
                Some(f) => f@,
                None => configured@,
            };
            assert(views(v@) =~= seq!["log"@, "--all"@, "--pretty="@ + f]);
        }
        v
    }
}

} // verus!
