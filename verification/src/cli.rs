//! The top-level commands of `ds` and `dstopic`: their subcommands, and
//! the configuration sources they load before running one.

use vstd::prelude::*;
use crate::commands::{ConfigCmd, HelloCmd, PingCmd};
use crate::config_options::{ConfigOptions, ConfigOptionsView};
use crate::dstopic_commands;

verus! {

/// The subcommands of `ds`.
#[derive(Debug, Clone, PartialEq, Eq)]
pub enum DsCmd {
    /// Say hello to something.
    Hello(HelloCmd),
    /// Configuration subcommands.
    Config(ConfigCmd),
    /// Ping an Entropic server.
    Ping(PingCmd),
}

/// `ds`: manage your Entropic packages.
#[derive(Debug, Clone, PartialEq, Eq)]
pub struct Ds {
    /// A file to read configuration values from.
    pub config: Option<String>,
    pub subcommand: DsCmd,
}

/// The value of an optional string.
pub open spec fn opt_view(o: Option<String>) -> Option<Seq<char>> {
    match o {
        Some(s) => Some(s@),
        None => None,
    }
}

/// The sources to load, from the default options `base`: only the given
/// file and the environment where a file was given, else the defaults.
pub open spec fn load_options(config: Option<Seq<char>>, base: ConfigOptionsView) -> ConfigOptionsView {
    if config is Some {
        ConfigOptionsView { local: false, global_config_file: config, ..base }
    } else {
        base
    }
}

/// The options for a `--config` file, from the defaults.
fn options_for(config: &Option<String>, base: ConfigOptions) -> (r: ConfigOptions)
    ensures
        r@ == load_options(opt_view(*config), base@),
{
    match config {
        Some(file) => base.local(false).global_config_file(Some(file.clone())),
        None => base,
    }
}

impl Ds {
    /// The configuration sources to load before running the subcommand.
    pub fn load(&self, base: ConfigOptions) -> (r: ConfigOptions)
        ensures
            r@ == load_options(opt_view(self.config), base@),
    {
        options_for(&self.config, base)
    }
}

/// The subcommands of `dstopic`.
#[derive(Debug, Clone, PartialEq, Eq)]
pub enum DstopicCmd {
    /// Say hello to something.
    Hello(dstopic_commands::HelloCmd),
    /// Configuration subcommands.
    Config(dstopic_commands::ConfigCmd),
}

/// `dstopic`: manage your Entropic packages.
#[derive(Debug, Clone, PartialEq, Eq)]
pub struct Dstopic {
    /// A file to read configuration values from.
    pub config: Option<String>,
    pub subcommand: DstopicCmd,
}

impl Dstopic {
    /// The configuration sources to load before running the subcommand.
    pub fn load(&self, base: ConfigOptions) -> (r: ConfigOptions)
        ensures
            r@ == load_options(opt_view(self.config), base@),
    {
        options_for(&self.config, base)
    }
}

} // verus!
