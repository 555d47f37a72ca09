//! The error type of the process-level failures: a generic error, a failed
//! subprocess or a bad config file.

use vstd::prelude::*;

verus! {

#[verifier::external_type_specification]
#[verifier::external_body]
pub struct ExIoError(std::io::Error);

#[verifier::external_type_specification]
#[verifier::external_body]
pub struct ExFromUtf8Error(std::string::FromUtf8Error);

/// Formats an `std::io::Error` with its `Display` impl. Nothing is stated
/// of the text: for an operating-system error it is the system's own
/// description, which differs between machines.
#[verifier::external_body]
fn format_io_error(e: &std::io::Error) -> (res: String) {
    format!("{}", e)
}

/// Formats an `std::string::FromUtf8Error` with its `Display` impl. Nothing
/// is stated of the text, which describes where the bytes stopped being
/// UTF-8.
#[verifier::external_body]
fn format_utf8_error(e: &std::string::FromUtf8Error) -> (res: String) {
    format!("{}", e)
}

/// Enumeration of all error types, mapped to a nonzero return code.
#[derive(Debug)]
pub enum CliError {
    /// Generic/unknown error
    Generic(String),
    /// A process that was spawned failed to complete or returned an error
    SubprocessFailed(String),
    /// An error with the config file, by its message
    ConfigError(String),
}

impl CliError {
    /// The message carried by the error.
    pub open spec fn spec_message(&self) -> Seq<char> {
        match self {
            CliError::Generic(m) => m@,
            CliError::SubprocessFailed(m) => m@,
            CliError::ConfigError(m) => m@,
        }
    }

    /// The text the error is displayed as: its message.
    pub fn message(&self) -> (res: String)
        ensures
            res@ == self.spec_message(),
    {
        match self {
            CliError::Generic(m) => m.clone(),
            CliError::SubprocessFailed(m) => m.clone(),
            CliError::ConfigError(m) => m.clone(),
        }
    }

    /// The process exit code of the error: its position, counting from 1.
    pub fn code(&self) -> (res: u8)
        ensures
            res == self.spec_code(),
    {
        match self {
            CliError::Generic(_) => 1,
            CliError::SubprocessFailed(_) => 2,
            CliError::ConfigError(_) => 3,
        }
    }

    /// The exit code of each kind of error: its position, counting from 1.
    pub open spec fn spec_code(&self) -> u8 {
        match self {
            CliError::Generic(_) => 1u8,
            CliError::SubprocessFailed(_) => 2u8,
            CliError::ConfigError(_) => 3u8,
        }
    }

    /// An I/O error becomes a generic error with its text.
    pub fn from_io(e: &std::io::Error) -> (res: CliError)
        ensures
            res is Generic,
    {
        CliError::Generic(format_io_error(e))
    }

    /// A config error becomes a config error with its message.
    pub fn from_config(message: String) -> (res: CliError)
        ensures
            res matches CliError::ConfigError(m) && m@ == message@,
    {
        CliError::ConfigError(message)
    }

    /// Output of a subprocess that is not UTF-8 becomes a subprocess failure
    /// with the conversion error's text.
    pub fn from_utf8(e: &std::string::FromUtf8Error) -> (res: CliError)
        ensures
            res is SubprocessFailed,
    {
        CliError::SubprocessFailed(format_utf8_error(e))
    }
}

/// Every error exits with a nonzero code, and two errors share a code
/// exactly when they are of the same kind.
pub proof fn lemma_exit_codes_nonzero_and_distinct(a: CliError, b: CliError)
    ensures
        a.spec_code() != 0,
        (a.spec_code() == b.spec_code()) <==> (
            (a is Generic && b is Generic)
            || (a is SubprocessFailed && b is SubprocessFailed)
            || (a is ConfigError && b is ConfigError)),
{
}

} // verus!
