//! The config subcommand: create a config file, read keys, print the schema.

use vstd::prelude::*;

pub mod create;
pub mod get;
pub mod schema;

use crate::cli::config::create::CreateArgs;
use crate::cli::config::get::GetArgs;
use crate::cli::config::schema::SchemaArgs;

verus! {

/// Which config file to use.
#[derive(Clone, Copy, PartialEq, Eq, Structural, Debug)]
pub enum WhichConfig {
    /// Local project config file
    Local,
    /// Global project config file
    Global,
}

/// The config subcommands.
#[derive(Debug)]
pub enum ConfigCommand {
    /// Creates a config file with default values
    Create(CreateArgs),
    /// Get the value of some config keys. These are the values that feature
    /// will use at runtime
    Get(GetArgs),
    /// Prints an entire schema of the config to stdout
    Schema(SchemaArgs),
}

/// Options of the config subcommand.
#[derive(Debug)]
pub struct ConfigArgs {
    /// Which config file to use
    pub which: WhichConfig,
    /// Shorthand for --which=global
    pub global: bool,
    pub command: ConfigCommand,
}

/// What a config subcommand goes on to do.
#[derive(Clone, Copy, PartialEq, Eq, Structural, Debug)]
pub enum ConfigTask {
    /// Create the given config file
    Create(WhichConfig),
    /// Print the requested keys of the loaded config
    Get,
    /// Print the schema
    Schema,
}

impl ConfigArgs {
    /// The config file the options pick: `--global` wins over `--which`.
    pub fn which(&self) -> (res: WhichConfig)
        ensures
            res == (if self.global { WhichConfig::Global } else { self.which }),
    {
        if self.global { WhichConfig::Global } else { self.which }
    }

    /// Picks the subcommand to run, with the config file a `create` is for.
    pub fn run(&self) -> (res: ConfigTask)
        ensures
            res == (match self.command {
                ConfigCommand::Create(_) => ConfigTask::Create(if self.global { WhichConfig::Global } else { self.which }),
                ConfigCommand::Get(_) => ConfigTask::Get,
                ConfigCommand::Schema(_) => ConfigTask::Schema,
            }),
    {
        match &self.command {
            ConfigCommand::Create(_) => ConfigTask::Create(self.which()),
            ConfigCommand::Get(_) => ConfigTask::Get,
            ConfigCommand::Schema(_) => ConfigTask::Schema,
        }
    }
}

} // verus!
