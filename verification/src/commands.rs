//! The decisions of the `ds` subcommands: how command-line flags and
//! configured values combine, which configuration a `config get` reads,
//! what `hello` prints, how `ping` judges a response, and what `shell`
//! names its patch script and exits with.

use vstd::prelude::*;
use crate::config_options::{
    ConfigOptions,
    ConfigOptionsView,
    SourceView,
    optional_file,
    path_ancestors,
    plan_of,
    rc_files,
};

verus! {

/// Why a subcommand cannot run.
#[derive(Debug, Clone, PartialEq, Eq)]
pub enum CommandError {
    /// The subcommand exists but does nothing yet.
    NotImplemented,
    /// The registry to use, given here, is not a URL.
    InvalidRegistryUrl(String),
}

impl CommandError {
    /// The message of the error, as its display.
    pub fn message(&self) -> (r: String)
        ensures
            r@ == match self {
                CommandError::NotImplemented => "Command not yet implemented."@,
                CommandError::InvalidRegistryUrl(_) => "Failed to parse registry URL"@,
            },
    {
        match self {
            CommandError::NotImplemented => "Command not yet implemented.".to_owned(),
            CommandError::InvalidRegistryUrl(_) => "Failed to parse registry URL".to_owned(),
        }
    }
}

/// `ds hello`: greets someone.
#[derive(Debug, Clone, PartialEq, Eq)]
pub struct HelloCmd {
    /// Who to say hello to.
    pub arg: String,
    /// Whether to greet enthusiastically.
    pub enthusiastic: bool,
}

/// A value given on the command line wins; otherwise a configured value
/// replaces the default.
pub open spec fn layered<T>(current: T, occurrences: u64, configured: Option<T>) -> T {
    if occurrences == 0 && configured is Some {
        configured.unwrap()
    } else {
        current
    }
}

impl HelloCmd {
    /// Takes `hello.enthusiastic` from the configuration unless the flag
    /// was given (`occurrences` times) on the command line.
    pub fn layer_config(&mut self, occurrences: u64, configured: Option<bool>)
        ensures
            final(self).arg == old(self).arg,
            final(self).enthusiastic == layered(old(self).enthusiastic, occurrences, configured),
    {
        if occurrences == 0 {
            if let Some(v) = configured {
                self.enthusiastic = v;
            }
        }
    }

    /// What the command prints: `Hello, <arg>`, then `!` if enthusiastic,
    /// then a line feed.
    pub fn execute(&self) -> (r: String)
        ensures
            r@ == "Hello, "@ + self.arg@ + if self.enthusiastic {
                "!\n"@
            } else {
                "\n"@
            },
    {
        let mut r = "Hello, ".to_owned();
        r.append(&self.arg);
        if self.enthusiastic {
            r.append("!\n");
        } else {
            r.append("\n");
        }
        r
    }
}

/// Where `ds config` reads from.
#[derive(Debug, Clone, PartialEq, Eq)]
pub struct ConfigOpts {
    /// Only the local files.
    pub local: bool,
    /// Only the global file.
    pub global: bool,
    /// A file to read in place of the global one.
    pub config: Option<String>,
}

/// `ds config`: gets, sets or removes a configuration value.
#[derive(Debug, Clone, PartialEq, Eq)]
pub enum ConfigCmd {
    Get { key: String, opts: ConfigOpts },
    SetValue { key: String, value: String, opts: ConfigOpts },
    Rm { key: String, opts: ConfigOpts },
}

/// A configuration read: the key to print and the sources to read it from.
#[derive(Debug, Clone, PartialEq, Eq)]
pub struct ConfigRead {
    pub key: String,
    pub options: ConfigOptions,
}

/// The value of an optional string.
pub open spec fn opt_view(o: Option<String>) -> Option<Seq<char>> {
    match o {
        Some(s) => Some(s@),
        None => None,
    }
}

/// The sources that `config get` reads, from the default options `base`:
/// only the given file; else only the global file; else only the local
/// files; else all of them with the environment.
pub open spec fn read_options(config: Option<Seq<char>>, global: bool, local: bool, base: ConfigOptionsView) -> ConfigOptionsView {
    if config is Some {
        ConfigOptionsView { env: false, local: false, global_config_file: config, ..base }
    } else if global {
        ConfigOptionsView { env: false, local: false, global: true, ..base }
    } else if local {
        ConfigOptionsView { env: false, local: true, global: false, ..base }
    } else {
        ConfigOptionsView { env: true, local: true, global: true, ..base }
    }
}

/// What `config get` reads: with `--config`, only that file (where the
/// global file is on in `base`); with `--global`, only the global file;
/// with `--local`, only the local files; with none of them, the global
/// file, the local files and the environment. The working directory and
/// the global file's place are those of `base`.
pub proof fn lemma_config_get_sources(
    config: Option<Seq<char>>,
    global: bool,
    local: bool,
    base: ConfigOptionsView,
)
    ensures
        ({
            let o = read_options(config, global, local, base);
            let local_files = match base.local_config_dir {
                Some(d) => rc_files(path_ancestors(d)),
                None => Seq::<SourceView>::empty(),
            };
            let global_file = match base.global_config_file {
                Some(f) => seq![optional_file(f)],
                None => Seq::<SourceView>::empty(),
            };
            &&& o.local_config_dir == base.local_config_dir
            &&& config matches Some(f) ==> !o.env && !o.local && o.global == base.global
                && o.global_config_file == config && plan_of(o) == (if base.global {
                seq![optional_file(f)]
            } else {
                Seq::<SourceView>::empty()
            })
            &&& config is None && global ==> !o.env && !o.local && o.global
                && o.global_config_file == base.global_config_file && plan_of(o) == global_file
            &&& config is None && !global && local ==> !o.env && o.local && !o.global
                && o.global_config_file == base.global_config_file && plan_of(o) == local_files
            &&& config is None && !global && !local ==> o.env && o.local && o.global
                && o.global_config_file == base.global_config_file && plan_of(o) == global_file
                + local_files + seq![SourceView::Environment { prefix: "ds_config"@ }]
        }),
{
    let o = read_options(config, global, local, base);
    let local_files = match base.local_config_dir {
        Some(d) => rc_files(path_ancestors(d)),
        None => Seq::<SourceView>::empty(),
    };
    let global_file = match base.global_config_file {
        Some(f) => seq![optional_file(f)],
        None => Seq::<SourceView>::empty(),
    };
    if config is None && !global && local {
        assert(plan_of(o) =~= local_files);
    }
    if config is None && global {
        assert(plan_of(o) =~= global_file);
    }
    if config is Some {
        assert(plan_of(o) =~= (if base.global {
            seq![optional_file(config.unwrap())]
        } else {
            Seq::<SourceView>::empty()
        }));
    }
}

/// Chooses the sources for `config get`.
fn config_read(key: String, opts: ConfigOpts, base: ConfigOptions) -> (r: ConfigRead)
    ensures
        r.key == key,
        r.options@ == read_options(opt_view(opts.config), opts.global, opts.local, base@),
{
    let options = if opts.config.is_some() {
        base.env(false).local(false).global_config_file(opts.config)
    } else if opts.global {
        base.env(false).local(false).global(true)
    } else if opts.local {
        base.env(false).local(true).global(false)
    } else {
        base.env(true).local(true).global(true)
    };
    ConfigRead { key, options }
}

impl ConfigCmd {
    /// For `get`, takes the `--config` file given on the command line (or
    /// none); the other subcommands are left as they are.
    pub fn layer_config(&mut self, config: Option<String>)
        ensures
            match (*old(self), *final(self)) {
                (ConfigCmd::Get { key: k0, opts: o0 }, ConfigCmd::Get { key: k1, opts: o1 }) => k1
                    == k0 && o1.local == o0.local && o1.global == o0.global && o1.config == config,
                (ConfigCmd::Get { .. }, _) => false,
                (a, b) => a == b,
            },
    {
        if let ConfigCmd::Get { opts, .. } = self {
            opts.config = config;
        }
    }

    /// What the subcommand does: `get` reads a key from the sources chosen
    /// from its options and the defaults `base`; `set` and `rm` are not
    /// implemented.
    pub fn execute(self, base: ConfigOptions) -> (r: Result<ConfigRead, CommandError>)
        ensures
            match self {
                ConfigCmd::Get { key, opts } => r matches Ok(read) && read.key == key
                    && read.options@ == read_options(
                    opt_view(opts.config),
                    opts.global,
                    opts.local,
                    base@,
                ),
                _ => r == Err::<ConfigRead, CommandError>(CommandError::NotImplemented),
            },
    {
        match self {
            ConfigCmd::Get { key, opts } => Ok(config_read(key, opts, base)),
            ConfigCmd::SetValue { .. } => Err(CommandError::NotImplemented),
            ConfigCmd::Rm { .. } => Err(CommandError::NotImplemented),
        }
    }
}

/// The lowercase hexadecimal SHA-256 digest of the data, as ssri's
/// `Integrity::from(..).to_hex()` gives it.
pub uninterp spec fn sri_hex(data: Seq<u8>) -> Seq<char>;

/// Calls `ssri::Integrity::from` on the data and takes the hex digest of
/// `to_hex`. Claims that the result is what `sri_hex` names.
#[verifier::external_body]
fn integrity_hex(data: &[u8]) -> (r: String)
    ensures
        r@ == sri_hex(data@),
{
    ssri::Integrity::from(data).to_hex().1
}

/// `ds shell`: runs Node with the patch script preloaded.
#[derive(Debug, Clone, PartialEq, Eq)]
pub struct ShellCmd {
    /// The Node binary.
    pub node: String,
    /// Where to keep the patch script.
    pub data_dir: Option<String>,
    /// The arguments for Node.
    pub args: Vec<String>,
}

impl ShellCmd {
    /// Takes `node` and `data_dir` from the configuration unless they were
    /// given on the command line.
    pub fn layer_config(
        &mut self,
        node_occurrences: u64,
        data_dir_occurrences: u64,
        configured_node: Option<String>,
        configured_data_dir: Option<String>,
    )
        ensures
            final(self).args == old(self).args,
            final(self).node == layered(old(self).node, node_occurrences, configured_node),
            final(self).data_dir == layered(
                old(self).data_dir,
                data_dir_occurrences,
                match configured_data_dir {
                    Some(d) => Some(Some(d)),
                    None => None,
                },
            ),
    {
        if node_occurrences == 0 {
            if let Some(node) = configured_node {
                self.node = node;
            }
        }
        if data_dir_occurrences == 0 {
            if let Some(d) = configured_data_dir {
                self.data_dir = Some(d);
            }
        }
    }
}

/// The file name of the patch script: `dstopic-` and the hex digest of its
/// content, so that each version of the script gets its own file.
pub fn dstopic_script_name(script: &[u8]) -> (r: String)
    ensures
        r@ == "dstopic-"@ + sri_hex(script@),
{
    let hex = integrity_hex(script);
    let mut r = "dstopic-".to_owned();
    r.append(&hex);
    r
}

/// The status `ds shell` exits with after Node ends: Node's, or 1 where
/// Node was killed; `None` (carry on) where that is zero or less.
pub fn shell_exit_status(code: Option<i32>) -> (r: Option<i32>)
    ensures
        r == match code {
            Some(c) => if c > 0 {
                Some(c)
            } else {
                None::<i32>
            },
            None => Some(1i32),
        },
{
    let c = match code {
        Some(c) => c,
        None => 1,
    };
    if c > 0 {
        Some(c)
    } else {
        None
    }
}

/// How the url crate writes a URL that it parses from a text (`None` where
/// it does not parse).
pub uninterp spec fn url_serialization(text: Seq<char>) -> Option<Seq<char>>;

/// Calls `url::Url::parse` and writes the result with `to_string`. Claims
/// that the result is what `url_serialization` names.
#[verifier::external_body]
fn serialize_url(text: &str) -> (r: Option<String>)
    ensures
        opt_view(r) == url_serialization(text@),
{
    match url::Url::parse(text) {
        Ok(u) => Some(u.to_string()),
        Err(_) => None,
    }
}

/// `ds ping`: asks a registry whether it is up.
#[derive(Debug, Clone, PartialEq, Eq)]
pub struct PingCmd {
    /// The registry's URL, as the url crate writes it.
    pub registry: String,
    /// Whether to write the result as JSON.
    pub json: bool,
}

impl PingCmd {
    /// Unless a registry was given on the command line, takes the
    /// configured one, or `https://registry.entropic.dev`; fails where that
    /// does not parse as a URL.
    pub fn layer_config(&mut self, occurrences: u64, configured: Option<String>) -> (r: Result<
        (),
        CommandError,
    >)
        ensures
            final(self).json == old(self).json,
            occurrences != 0 ==> r is Ok && final(self).registry == old(self).registry,
            occurrences == 0 ==> {
                let text = match configured {
                    Some(c) => c@,
                    None => "https://registry.entropic.dev"@,
                };
                match url_serialization(text) {
                    Some(u) => r is Ok && final(self).registry@ == u,
                    None => r matches Err(CommandError::InvalidRegistryUrl(t)) && t@ == text
                        && final(self).registry == old(self).registry,
                }
            },
    {
        if occurrences == 0 {
            let text = match configured {
                Some(c) => c,
                None => "https://registry.entropic.dev".to_owned(),
            };
            match serialize_url(&text) {
                Some(u) => {
                    self.registry = u;
                },
                None => {
                    return Err(CommandError::InvalidRegistryUrl(text));
                },
            }
        }
        Ok(())
    }

    /// Judges the registry's response. A status below 400 is a success.
    /// Otherwise the ping fails with the error message of the JSON body
    /// where it has one, else with the body's text; where the body could
    /// not be read, the failure names the reason instead.
    pub fn check_response(
        &self,
        status: u16,
        error_message: Option<String>,
        body: Result<String, String>,
    ) -> (r: Result<(), PingError>)
        ensures
            status < 400 ==> r is Ok,
            status >= 400 ==> match (error_message, body) {
                (Some(m), _) => r matches Err(e) && e@ == PingErrorView::Failed {
                    registry: self.registry@,
                    message: m@,
                },
                (None, Ok(b)) => r matches Err(e) && e@ == PingErrorView::Failed {
                    registry: self.registry@,
                    message: b@,
                },
                (None, Err(reason)) => r matches Err(e) && e@ == PingErrorView::NoBody(reason@),
            },
    {
        if status < 400 {
            return Ok(());
        }
        match error_message {
            Some(m) => Err(PingError::Failed { registry: self.registry.clone(), message: m }),
            None => match body {
                Ok(b) => Err(PingError::Failed { registry: self.registry.clone(), message: b }),
                Err(reason) => Err(PingError::NoBody(reason)),
            },
        }
    }
}

/// Why a ping failed.
#[derive(Debug, Clone, PartialEq, Eq)]
pub enum PingError {
    /// The registry answered with an error; `message` says what it was.
    Failed { registry: String, message: String },
    /// The body of an error response could not be read, for the reason
    /// given.
    NoBody(String),
}

/// The value of a `PingError`.
pub enum PingErrorView {
    Failed { registry: Seq<char>, message: Seq<char> },
    NoBody(Seq<char>),
}

impl View for PingError {
    type V = PingErrorView;

    open spec fn view(&self) -> PingErrorView {
        match self {
            PingError::Failed { registry, message } => PingErrorView::Failed {
                registry: registry@,
                message: message@,
            },
            PingError::NoBody(reason) => PingErrorView::NoBody(reason@),
        }
    }
}

/// The message of a failed ping.
pub open spec fn ping_error_message(e: PingErrorView) -> Seq<char> {
    match e {
        PingErrorView::Failed { registry, message } => "Ping failed for "@ + registry + ": "@
            + message,
        PingErrorView::NoBody(reason) => "Failed to get response body: "@ + reason,
    }
}

impl PingError {
    /// The message of the error, as its display.
    pub fn message(&self) -> (r: String)
        ensures
            r@ == ping_error_message(self@),
    {
        match self {
            PingError::Failed { registry, message } => {
                let mut r = crate::text::concat("Ping failed for ", registry);
                r.append(": ");
                r.append(message);
                r
            },
            PingError::NoBody(reason) => crate::text::concat("Failed to get response body: ", reason),
        }
    }
}

} // verus!
