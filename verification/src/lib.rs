//! The logic of DSH Desktop: which runtime is started, how runtimes and the
//! application are updated, and how the terminal command is installed.
//!
//! Files, processes, windows and the clock are not touched here. Where the logic
//! alternates with such work, a function takes what happened and says what is to
//! be done next.

pub mod app_updater;
pub mod command;
pub mod global_install;
pub mod host;
pub mod launch;
pub mod menu;
pub mod node_path;
pub mod npm;
pub mod path_prefix;
pub mod paths;
pub mod profiles;
pub mod runtime;
pub mod runtime_commands;
pub mod runtime_update;
pub mod schedule;
pub mod shell;
pub mod staging;
pub mod startup;
pub mod system_runtime;
pub mod system_tools;
pub mod system_update;
pub mod terminal_command;
pub mod text;
pub mod trim;
pub mod update_loop;
pub mod version;
