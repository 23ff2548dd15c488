//! `ds`: package-argument parsing, version picking and command-line
//! decisions for the Entropic package manager, with their contracts.

pub mod text;
pub mod version;
pub mod host;
pub mod error_context;
pub mod package_arg;
pub mod packument;
pub mod pick_version;
pub mod dstopic_package_arg;
pub mod package_arg_types;
pub mod config_options;
pub mod dstopic_config;
pub mod commands;
pub mod dstopic_commands;
pub mod cli;
