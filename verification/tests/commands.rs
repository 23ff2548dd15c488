use ds::cli::{Ds, DsCmd, Dstopic, DstopicCmd};
use ds::commands::{
    dstopic_script_name, shell_exit_status, CommandError, ConfigCmd, ConfigOpts, HelloCmd,
    PingCmd, PingError, ShellCmd,
};
use ds::config_options::{ConfigOptions, ConfigSource};
use ds::dstopic_commands;
use ds::dstopic_commands::Command;
use ds::dstopic_config;
use ds::error_context::DsErrContext;

fn file(name: &str) -> ConfigSource {
    ConfigSource::File { name: name.into(), required: false }
}

fn env() -> ConfigSource {
    ConfigSource::Environment { prefix: "ds_config".into() }
}

#[test]
fn hello_greets() {
    let mut cmd = HelloCmd { arg: "world".into(), enthusiastic: false };
    assert_eq!(cmd.execute(), "Hello, world\n");
    cmd.layer_config(0, Some(true));
    assert_eq!(cmd.execute(), "Hello, world!\n");
    cmd.layer_config(1, Some(false));
    assert!(cmd.enthusiastic);
    let dh = dstopic_commands::HelloCmd { arg: None };
    assert_eq!(Command::execute(dh).unwrap(), "Hello, world\n");
    let named = dstopic_commands::HelloCmd { arg: Some("you".into()) };
    assert_eq!(Command::execute(named).unwrap(), "Hello, you\n");
}

#[test]
fn config_plan_for_local_files() {
    let opts = ConfigOptions::new(Some("/a/b".into()), None).env(false).global(false);
    assert_eq!(
        opts.load_plan(),
        vec![file("/dsrc"), file("/.dsrc"), file("/a/dsrc"), file("/a/.dsrc"), file("/a/b/dsrc"), file("/a/b/.dsrc")]
    );
}

#[test]
fn config_plan_global_and_env() {
    let opts = ConfigOptions::new(None, Some("/home/u/.config/ds".into())).local(false);
    assert_eq!(opts.load_plan(), vec![file("/home/u/.config/ds/dsrc.toml"), env()]);
    let none = ConfigOptions::new(None, None).local(false).global(false).env(false);
    assert_eq!(none.load_plan(), vec![]);
    let dir = ConfigOptions::new(None, None)
        .env(false)
        .global(false)
        .local_config_dir(Some("/x".into()))
        .global_config_file(Some("/g".into()));
    assert_eq!(dir.load_plan(), vec![file("/dsrc"), file("/.dsrc"), file("/x/dsrc"), file("/x/.dsrc")]);
}

#[test]
fn dstopic_config_plans() {
    assert_eq!(dstopic_config::new(None, None), vec![env()]);
    assert_eq!(
        dstopic_config::new_at("/w".into(), Some("/cfg".into())),
        vec![file("/cfg/ds"), file("/ds"), file("/w/ds"), env()]
    );
}

#[test]
fn config_get_reads_the_chosen_sources() {
    let base = ConfigOptions::new(Some("/w".into()), Some("/cfg".into()));
    let opts = ConfigOpts { local: false, global: false, config: None };
    let mut cmd = ConfigCmd::Get { key: "store".into(), opts };
    cmd.layer_config(Some("/my.toml".into()));
    let read = cmd.execute(base.clone()).unwrap();
    assert_eq!(read.key, "store");
    assert_eq!(read.options.load_plan(), vec![file("/my.toml")]);
    let global = ConfigCmd::Get {
        key: "k".into(),
        opts: ConfigOpts { local: false, global: true, config: None },
    };
    assert_eq!(global.execute(base.clone()).unwrap().options.load_plan(), vec![file("/cfg/dsrc.toml")]);
    let rm = ConfigCmd::Rm { key: "k".into(), opts: ConfigOpts { local: false, global: false, config: None } };
    let err = rm.execute(base).unwrap_err();
    assert_eq!(err, CommandError::NotImplemented);
    assert_eq!(err.message(), "Command not yet implemented.");
}

#[test]
fn dstopic_config_get() {
    let opts = dstopic_commands::ConfigOpts { local: false, global: false };
    let get = dstopic_commands::ConfigCmd::Get { key: "store".into(), opts: opts.clone() };
    assert_eq!(get.clone().execute(Some("v".into())).unwrap(), "v\n");
    let err = get.execute(None).unwrap_err();
    assert_eq!(err.message(), "No value set for key: \"store\"");
}

#[test]
fn top_level_load_options() {
    let base = ConfigOptions::new(Some("/w".into()), Some("/cfg".into()));
    let ds = Ds {
        config: Some("/f".into()),
        subcommand: DsCmd::Hello(HelloCmd { arg: "x".into(), enthusiastic: false }),
    };
    assert_eq!(ds.load(base.clone()).load_plan(), vec![file("/f"), env()]);
    let dstopic = Dstopic {
        config: None,
        subcommand: DstopicCmd::Hello(dstopic_commands::HelloCmd { arg: None }),
    };
    assert_eq!(dstopic.load(base.clone()), base);
}

#[test]
fn shell_decisions() {
    let mut sh = ShellCmd { node: "node".into(), data_dir: None, args: vec![] };
    sh.layer_config(0, 1, Some("/usr/bin/node".into()), Some("/d".into()));
    assert_eq!(sh.node, "/usr/bin/node");
    assert_eq!(sh.data_dir, None);
    assert_eq!(
        dstopic_script_name(b"hello"),
        "dstopic-2cf24dba5fb0a30e26e83b2ac5b9e29e1b161e5c1fa7425e73043362938b9824"
    );
    assert_eq!(shell_exit_status(Some(0)), None);
    assert_eq!(shell_exit_status(Some(3)), Some(3));
    assert_eq!(shell_exit_status(None), Some(1));
}

#[test]
fn ping_decisions() {
    let mut ping = PingCmd { registry: "https://example.com/".into(), json: false };
    ping.layer_config(0, None).unwrap();
    assert_eq!(ping.registry, "https://registry.entropic.dev/");
    assert_eq!(
        ping.layer_config(0, Some("not a url".into())),
        Err(CommandError::InvalidRegistryUrl("not a url".into()))
    );
    assert_eq!(
        CommandError::InvalidRegistryUrl("not a url".into()).message(),
        "Failed to parse registry URL"
    );
    ping.layer_config(1, Some("https://other.dev".into())).unwrap();
    assert_eq!(ping.registry, "https://registry.entropic.dev/");
    assert_eq!(ping.check_response(200, None, Ok("hello".into())), Ok(()));
    assert_eq!(ping.check_response(399, None, Err("closed".into())), Ok(()));
    let err = ping.check_response(500, Some("down".into()), Ok("body".into())).unwrap_err();
    assert_eq!(err.message(), "Ping failed for https://registry.entropic.dev/: down");
    let err = ping.check_response(400, None, Ok("teapot".into())).unwrap_err();
    assert_eq!(
        err,
        PingError::Failed {
            registry: "https://registry.entropic.dev/".into(),
            message: "teapot".into()
        }
    );
    assert_eq!(err.message(), "Ping failed for https://registry.entropic.dev/: teapot");
    let err = ping.check_response(404, None, Err("connection reset".into())).unwrap_err();
    assert_eq!(err, PingError::NoBody("connection reset".into()));
    assert_eq!(err.message(), "Failed to get response body: connection reset");
}

#[test]
fn error_messages() {
    assert_eq!(
        DsErrContext::DS1003("/tmp/x".into()).message(),
        "DS1003: Failed to create data directory at `\"/tmp/x\"`"
    );
    assert_eq!(
        DsErrContext::DS1018 { input: "a".into(), msg: "b".into() }.message(),
        "DS1018: Package arg `a` failed to parse:\nb"
    );
    assert_eq!(DsErrContext::DS1007.message(), "DS1007: Neither a name nor a spec were passed in. Failed to resolve.");
}
