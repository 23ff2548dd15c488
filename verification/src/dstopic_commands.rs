//! The decisions of the `dstopic` subcommands: what `hello` prints and what
//! `config get` answers for the value it finds.

use vstd::prelude::*;
use crate::error_context::{debug_text, str_debug};

verus! {

/// Why a `dstopic` subcommand failed.
#[derive(Debug, Clone, PartialEq, Eq)]
pub enum CommandError {
    /// The subcommand exists but does nothing yet.
    NotImplemented,
    /// The configuration has no value for the key.
    NoValue(String),
}

impl CommandError {
    /// The message of the error, as its display.
    pub fn message(&self) -> (r: String)
        ensures
            r@ == match self {
                CommandError::NotImplemented => "Command not yet implemented."@,
                CommandError::NoValue(k) => "No value set for key: "@ + str_debug(k@),
            },
    {
        match self {
            CommandError::NotImplemented => "Command not yet implemented.".to_owned(),
            CommandError::NoValue(k) => {
                let d = debug_text(k);
                let mut r = "No value set for key: ".to_owned();
                r.append(&d);
                r
            },
        }
    }
}

/// `dstopic hello`: greets someone, the world by default.
#[derive(Debug, Clone, PartialEq, Eq)]
pub struct HelloCmd {
    pub arg: Option<String>,
}

/// A `dstopic` command: runs and gives what it prints.
pub trait Command: Sized {
    fn execute(self) -> Result<String, CommandError>;
}

impl Command for HelloCmd {
    /// Prints `Hello, <arg or world>` and a line feed.
    fn execute(self) -> (r: Result<String, CommandError>)
        ensures
            r matches Ok(out) && out@ == "Hello, "@ + match self.arg {
                Some(a) => a@,
                None => "world"@,
            } + "\n"@,
    {
        let mut r = "Hello, ".to_owned();
        match &self.arg {
            Some(a) => r.append(a),
            None => r.append("world"),
        }
        r.append("\n");
        Ok(r)
    }
}

/// Where `dstopic config` reads from.
#[derive(Debug, Clone, PartialEq, Eq)]
pub struct ConfigOpts {
    pub local: bool,
    pub global: bool,
}

/// `dstopic config`: gets, sets or removes a configuration value.
#[derive(Debug, Clone, PartialEq, Eq)]
pub enum ConfigCmd {
    Get { key: String, opts: ConfigOpts },
    SetValue { key: String, value: String, opts: ConfigOpts },
    Rm { key: String, opts: ConfigOpts },
}

impl ConfigCmd {
    /// What the subcommand prints, given the value the configuration has
    /// for `get`'s key: the value and a line feed, or an error where there
    /// is none; `set` and `rm` are not implemented.
    pub fn execute(self, value: Option<String>) -> (r: Result<String, CommandError>)
        ensures
            match self {
                ConfigCmd::Get { key, .. } => match value {
                    Some(v) => r matches Ok(out) && out@ == v@ + "\n"@,
                    None => r == Err::<String, CommandError>(CommandError::NoValue(key)),
                },
                _ => r == Err::<String, CommandError>(CommandError::NotImplemented),
            },
    {
        match self {
            ConfigCmd::Get { key, .. } => match value {
                Some(v) => {
                    let mut out = v;
                    out.append("\n");
                    Ok(out)
                },
                None => Err(CommandError::NoValue(key)),
            },
            ConfigCmd::SetValue { .. } => Err(CommandError::NotImplemented),
            ConfigCmd::Rm { .. } => Err(CommandError::NotImplemented),
        }
    }
}

} // verus!
