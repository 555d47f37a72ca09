//! The error type of the subcommands, one variant per kind of failure.

use vstd::prelude::*;

verus! {

/// Enumeration of all error types, each mapped to a nonzero return code.
#[derive(Debug)]
pub enum CliError {
    /// Generic/unknown error
    Generic(String),
    /// A process that was spawned failed to complete or returned an error
    Process(String),
    /// An error with the config file
    Config(String),
    /// An error with the database file
    Database(String),
    /// An error with libgit
    Git(String),
    /// Precommit hooks failed
    Precommit(String),
    /// Push safety checks failed
    Push(String),
}

impl CliError {
    /// The message carried by the error.
    pub open spec fn spec_message(&self) -> Seq<char> {
        match self {
            CliError::Generic(m) => m@,
            CliError::Process(m) => m@,
            CliError::Config(m) => m@,
            CliError::Database(m) => m@,
            CliError::Git(m) => m@,
            CliError::Precommit(m) => m@,
            CliError::Push(m) => m@,
        }
    }

    /// The text the error is displayed as: its message.
    pub fn message(&self) -> (res: String)
        ensures
            res@ == self.spec_message(),
    {
        match self {
            CliError::Generic(m) => m.clone(),
            CliError::Process(m) => m.clone(),
            CliError::Config(m) => m.clone(),
            CliError::Database(m) => m.clone(),
            CliError::Git(m) => m.clone(),
            CliError::Precommit(m) => m.clone(),
            CliError::Push(m) => m.clone(),
        }
    }

    /// The exit code of each kind of error: its position, counting from 1.
    pub open spec fn spec_code(&self) -> u8 {
        match self {
            CliError::Generic(_) => 1u8,
            CliError::Process(_) => 2u8,
            CliError::Config(_) => 3u8,
            CliError::Database(_) => 4u8,
            CliError::Git(_) => 5u8,
            CliError::Precommit(_) => 6u8,
            CliError::Push(_) => 7u8,
        }
    }

    /// The process exit code of the error.
    pub fn code(&self) -> (res: u8)
        ensures
            res == self.spec_code(),
    {
        match self {
            CliError::Generic(_) => 1,
            CliError::Process(_) => 2,
            CliError::Config(_) => 3,
            CliError::Database(_) => 4,
            CliError::Git(_) => 5,
            CliError::Precommit(_) => 6,
            CliError::Push(_) => 7,
        }
    }
}

/// Whether two errors are of the same kind, whatever their messages.
pub open spec fn same_kind(a: CliError, b: CliError) -> bool {
    ||| (a is Generic && b is Generic)
    ||| (a is Process && b is Process)
    ||| (a is Config && b is Config)
    ||| (a is Database && b is Database)
    ||| (a is Git && b is Git)
    ||| (a is Precommit && b is Precommit)
    ||| (a is Push && b is Push)
}

/// Every error exits with a nonzero code, and the code tells the kind of
/// error: two errors share a code exactly when they are of the same kind.
pub proof fn lemma_exit_codes_nonzero_and_distinct(a: CliError, b: CliError)
    ensures
        a.spec_code() != 0,
        (a.spec_code() == b.spec_code()) <==> same_kind(a, b),
{
}

/// A generic error with a copy of `msg`.
pub fn generic(msg: &str) -> (res: CliError)
    ensures
        res matches CliError::Generic(m) && m@ == msg@,
{
    CliError::Generic(String::from_str(msg))
}

} // verus!
