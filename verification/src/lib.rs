//! Verified core of the `feature` git workflow tool: the decisions, tables and
//! text layouts behind each subcommand, separated from repository access and
//! terminal input/output.

pub mod cli;
pub mod text;
