//! `version-log`: the git log since the last version reachable from a
//! revision.

use vstd::prelude::*;

use crate::cli::error::CliError;
use crate::text::{i64_text, int_dec, views};

verus! {

/// Options of `version-log`.
#[derive(Debug)]
pub struct VersionLogArgs {
    /// The commit to start from
    pub rev: Option<String>,
}

/// The revision to start from: the one given, else `HEAD`.
pub open spec fn start_rev(a: VersionLogArgs) -> Seq<char> {
    match a.rev {
        Some(r) => r@,
        None => "HEAD"@,
    }
}

/// The message when no version is reachable from the revision.
pub open spec fn no_version_msg(rev: Seq<char>) -> Seq<char> {
    "Failed to find a version reachable from "@ + rev
}

/// How an exit code reads in the failure message: `Some(<code>)`, or
/// `None` when the process was ended by a signal.
pub open spec fn exit_code_text(code: Option<i32>) -> Seq<char> {
    match code {
        Some(c) => "Some("@ + int_dec(c as int) + ")"@,
        None => "None"@,
    }
}

impl VersionLogArgs {
    /// The revision to start from.
    pub fn revision(&self) -> (res: String)
        ensures
            res@ == start_rev(*self),
    {
        match &self.rev {
            Some(r) => r.clone(),
            None => String::from_str("HEAD"),
        }
    }

    /// The arguments of the `git log` call, given the name of the last
    /// version reachable from the revision (`version`): `log <version>..<rev>`,
    /// the commits since that version up to the revision given, or
    /// `log <version>..` (up to HEAD) without one. Without a version it is an
    /// error.
    pub fn run(&self, version: Option<String>) -> (res: Result<Vec<String>, CliError>)
        ensures
            match version {
                Some(v) => res matches Ok(a) && views(a@) == seq!["log"@, v@ + ".."@ + match self.rev {
                    Some(r) => r@,
                    None => Seq::<char>::empty(),
                }],
                None => res matches Err(CliError::Generic(m)) && m@ == no_version_msg(start_rev(*self)),
            },
    {
        match version {
            Some(v) => {
                let mut a: Vec<String> = Vec::new();
                a.push(String::from_str("log"));
                let mut range = v;
                range.append("..");
                match &self.rev {
                    Some(r) => range.append(r.as_str()),
                    None => {},
                }
                a.push(range);
                proof {
                    let end = match &self.rev {
                        Some(r) => r@,
                        None => Seq::<char>::empty(),
                    };
                    assert(views(a@) =~= seq!["log"@, v@ + ".."@ + end]);
                }
                Ok(a)
            },
            None => {
                let mut m = String::from_str("Failed to find a version reachable from ");
                let r = self.revision();
                m.append(r.as_str());
                Err(CliError::Generic(m))
            },
        }
    }
}

/// The error when `git log` exits unsuccessfully with `code`.
pub fn git_failed(code: Option<i32>) -> (res: CliError)
    ensures
        res matches CliError::Generic(m) && m@ == "Git failed with exit status: "@ + exit_code_text(code),
{
    let mut m = String::from_str("Git failed with exit status: ");
    match code {
        Some(c) => {
            m.append("Some(");
            let t = i64_text(c as i64);
            m.append(t.as_str());
            m.append(")");
        },
        None => m.append("None"),
    }
    CliError::Generic(m)
}

} // verus!
