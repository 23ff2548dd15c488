use ds::host::Host;
use ds::package_arg::{ArgError, PackageArg};
use ds::version::{Version, VersionReq};

fn example_host() -> Option<Host> {
    Some(Host::Domain("example.com".to_owned()))
}

#[test]
fn enoparse_from_string_bad_arg() {
    let res = PackageArg::from_string("foo");
    assert!(res
        .err()
        .unwrap()
        .message()
        .contains("Invalid registry arg string: `foo`"));
}

#[test]
fn enoparse_from_string_tag_no_host() {
    let res = PackageArg::from_string("foo/bar");
    assert!(res.is_err());
}

#[test]
fn enoparse_from_string_alias_no_host() {
    let res = PackageArg::from_string("hi@pkg:hey/there@^1.2.3");
    assert!(res.is_err())
}

#[test]
fn registry_tag_with_host() {
    let res = PackageArg::from_string("example.com/hey/there@next").unwrap();
    assert_eq!(
        res,
        PackageArg::Tag {
            name: "hey/there".into(),
            tag: "next".into(),
            host: example_host(),
        }
    );
}

#[test]
fn registry_implicit_latest() {
    let res = PackageArg::from_string("example.com/hey/there").unwrap();
    assert_eq!(
        res,
        PackageArg::Tag {
            name: "hey/there".into(),
            tag: "latest".into(),
            host: example_host(),
        }
    );
}

#[test]
fn registry_version_and_range() {
    let res = PackageArg::from_string("example.com/hey/there@1.2.3").unwrap();
    assert_eq!(
        res,
        PackageArg::Version {
            name: "hey/there".into(),
            version: Version::parse("1.2.3").unwrap(),
            host: example_host(),
        }
    );
    let res = PackageArg::from_string("example.com/hey/there@^1.2.3").unwrap();
    assert_eq!(
        res,
        PackageArg::Range {
            name: "hey/there".into(),
            range: VersionReq::parse("^1.2.3").unwrap(),
            host: example_host(),
        }
    );
}

#[test]
fn alias_with_host() {
    let res = PackageArg::from_string("hi@pkg:example.com/hey/there@^1.2.3").unwrap();
    assert_eq!(
        res,
        PackageArg::Alias {
            name: "hi".into(),
            package: Box::new(PackageArg::Range {
                name: "hey/there".into(),
                range: VersionReq::parse("^1.2.3").unwrap(),
                host: example_host(),
            }),
        }
    );
    assert!(res.is_registry());
}

#[test]
fn legacy_names() {
    let res = PackageArg::from_string("example.com/legacy/there@next").unwrap();
    assert_eq!(
        res,
        PackageArg::Tag { name: "legacy/there".into(), tag: "next".into(), host: example_host() }
    );
    let res = PackageArg::from_string("example.com/LEGACY/hey/there").unwrap();
    assert_eq!(
        res,
        PackageArg::Tag {
            name: "LEGACY/hey/there".into(),
            tag: "latest".into(),
            host: example_host(),
        }
    );
    assert!(PackageArg::from_string("example.com/hey/you/there@next").is_err());
}

#[test]
fn legacy_scoped_name_keeps_its_at() {
    let res = PackageArg::from_string("example.com/legacy/@scope/pkg@1.0.0").unwrap();
    assert_eq!(
        res,
        PackageArg::Version {
            name: "legacy/@scope/pkg".into(),
            version: Version::parse("1.0.0").unwrap(),
            host: example_host(),
        }
    );
}

#[test]
fn directories() {
    assert_eq!(
        PackageArg::from_string("./foo").unwrap(),
        PackageArg::Dir { name: None, path: "./foo".into() }
    );
    assert_eq!(
        PackageArg::from_string("foo@/abs/dir").unwrap(),
        PackageArg::Dir { name: Some("foo".into()), path: "/abs/dir".into() }
    );
    assert_eq!(
        PackageArg::from_string("FILE:thing").unwrap(),
        PackageArg::Dir { name: None, path: "FILE:thing".into() }
    );
    assert_eq!(
        PackageArg::from_string("c:\\dir").unwrap(),
        PackageArg::Dir { name: None, path: "c:\\dir".into() }
    );
    assert!(!PackageArg::from_string("./foo").unwrap().is_registry());
}

#[test]
fn split_failures() {
    let err = PackageArg::from_string("@foo").unwrap_err();
    assert_eq!(err, ArgError::Invalid("@foo".into()));
    assert_eq!(err.message(), "Invalid package arg: @foo");
    assert_eq!(
        PackageArg::from_string("a/b/c@x\ny"),
        Err(ArgError::Invalid("a/b/c@x\ny".into()))
    );
    let err = PackageArg::resolve(None, Some("1.0.0".into())).unwrap_err();
    assert_eq!(err, ArgError::SpecWithoutName("1.0.0".into()));
    assert_eq!(err.message(), "Tried to resolve a registry spec (1.0.0) without a name.");
    let err = PackageArg::resolve(None, None).unwrap_err();
    assert_eq!(err, ArgError::Empty);
    assert_eq!(err.message(), "Neither a name nor a spec were passed in. Failed to resolve.");
    let err = PackageArg::from_string("foo").unwrap_err();
    assert_eq!(err, ArgError::InvalidRegistry("foo".into()));
    assert_eq!(err.message(), "Invalid registry arg string: `foo`");
}

#[test]
fn from_str_and_validate_name() {
    let parsed: PackageArg = "example.com/a/b@2.0.0".parse().unwrap();
    assert!(parsed.is_registry());
    assert_eq!(PackageArg::validate_name("anything at all").unwrap(), "anything at all");
}
