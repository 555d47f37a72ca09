//! The subcommands of the tool, each reduced to what it decides and lays out.

pub mod base;
pub mod branch_list;
pub mod branches;
pub mod check;
pub mod commit;
pub mod complete;
pub mod config;
pub mod config_cmd;
pub mod config_command;
pub mod config_doc;
pub mod config_keys;
pub mod db_cmd;
pub mod def;
pub mod diff;
pub mod display;
pub mod end;
pub mod error;
pub mod errors;
pub mod graph;
pub mod list;
pub mod log;
pub mod project;
pub mod project_cmd;
pub mod protect;
pub mod prune;
pub mod push;
pub mod show;
pub mod squash;
pub mod start;
pub mod stash;
pub mod status;
pub mod sync;
pub mod tag;
pub mod tags;
pub mod term;
pub mod update;
pub mod version_log;
pub mod wip;
