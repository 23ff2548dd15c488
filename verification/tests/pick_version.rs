use ds::package_arg::PackageArg;
use ds::packument::{now, timestamp_from_epoch_offset, Packument, Timestamp};
use ds::pick_version::{Picker, PickerError};
use ds::version::{Version, VersionReq};
use ssri::Integrity;

fn packument(versions: &[(&str, &str)], tags: &[(&str, &str)]) -> Packument {
    let mut p = Packument::default();
    for (v, i) in versions {
        p.versions.insert(Version::parse(v).unwrap(), i.parse().unwrap());
    }
    for (t, v) in tags {
        p.tags.insert(t.to_string(), Version::parse(v).unwrap());
    }
    p
}

fn four_versions(tags: &[(&str, &str)]) -> Packument {
    packument(
        &[
            ("1.0.0", "sha256-100"),
            ("1.0.1", "sha256-101"),
            ("1.0.2", "sha256-102"),
            ("2.0.0", "sha256-200"),
        ],
        tags,
    )
}

fn range(r: &str) -> PackageArg {
    PackageArg::Range { host: None, name: "foo".into(), range: VersionReq::parse(r).unwrap() }
}

#[test]
fn basic_carat_range() {
    let packument = four_versions(&[]);
    let sri = Picker::new().pick(&packument, &range("^1.0.0")).unwrap();
    assert_eq!(sri, "sha256-102".parse::<Integrity>().unwrap());
}

#[test]
fn basic_tilde_range() {
    let packument = four_versions(&[]);
    let sri = Picker::new().pick(&packument, &range("~1.0.0")).unwrap();
    assert_eq!(sri, "sha256-102".parse::<Integrity>().unwrap());
}

#[test]
fn basic_math_range() {
    let packument = four_versions(&[]);
    let sri = Picker::new().pick(&packument, &range("<2.0.0")).unwrap();
    assert_eq!(sri, "sha256-102".parse::<Integrity>().unwrap());
}

#[test]
fn basic_version_match() {
    let packument = four_versions(&[]);
    let sri = Picker::new()
        .pick(
            &packument,
            &PackageArg::Version {
                host: None,
                name: "foo".into(),
                version: Version::parse("1.0.1").unwrap(),
            },
        )
        .unwrap();
    assert_eq!(sri, "sha256-101".parse::<Integrity>().unwrap());
}

#[test]
fn basic_tag_match() {
    let packument = four_versions(&[("latest", "1.0.1")]);
    let sri = Picker::new()
        .pick(
            &packument,
            &PackageArg::Tag { host: None, name: "foo".into(), tag: "latest".into() },
        )
        .unwrap();
    assert_eq!(sri, "sha256-101".parse::<Integrity>().unwrap());
}

#[test]
fn tag_match_with_custom_default_tag() {
    let packument = four_versions(&[("something", "1.0.1"), ("latest", "1.0.2")]);
    let sri = Picker::new()
        .default_tag("something".into())
        .pick(
            &packument,
            &PackageArg::Tag { host: None, name: "foo".into(), tag: "something".into() },
        )
        .unwrap();
    assert_eq!(sri, "sha256-101".parse::<Integrity>().unwrap());
}

#[test]
fn star_range_uses_default_tag() {
    let packument = packument(
        &[
            ("1.0.0-pre.0", "sha256-100b0"),
            ("1.0.0-pre.1", "sha256-100b1"),
            ("2.0.0-beta.0", "sha256-200b0"),
            ("2.0.0-beta.1", "sha256-200b1"),
        ],
        &[("latest", "1.0.0-pre.0"), ("beta", "2.0.0-beta.0")],
    );
    let sri = Picker::new()
        .default_tag("beta".into())
        .pick(
            &packument,
            &PackageArg::Range { host: None, name: "foo".into(), range: VersionReq::star() },
        )
        .unwrap();
    assert_eq!(sri, "sha256-200b0".parse::<Integrity>().unwrap());
    let sri = Picker::new().pick(&packument, &range("*")).unwrap();
    assert_eq!(sri, "sha256-100b0".parse::<Integrity>().unwrap());
}

#[test]
fn error_if_no_match() {
    let packument = four_versions(&[]);
    let sri = Picker::new().pick(&packument, &range("^2.0.1"));
    assert!(sri.is_err());
}

#[test]
fn error_if_no_versions() {
    let packument = Packument::default();
    let sri = Picker::new().pick(&packument, &range("^1.0.0"));
    assert!(sri.is_err());
}

#[test]
fn default_tag_wins_when_the_range_accepts_it() {
    let packument = four_versions(&[("latest", "1.0.0")]);
    let sri = Picker::new().pick(&packument, &range("^1.0.0")).unwrap();
    assert_eq!(sri, "sha256-100".parse::<Integrity>().unwrap());
}

#[test]
fn aliases_pick_what_they_stand_for() {
    let packument = four_versions(&[]);
    let wanted = PackageArg::Alias { name: "bar".into(), package: Box::new(range("^1.0.0")) };
    let sri = Picker::new().pick(&packument, &wanted).unwrap();
    assert_eq!(sri, "sha256-102".parse::<Integrity>().unwrap());
}

#[test]
fn picker_errors() {
    let packument = four_versions(&[]);
    let dir = PackageArg::Dir { name: None, path: "./x".into() };
    let err = Picker::new().pick(&packument, &dir).unwrap_err();
    assert_eq!(err.error, PickerError::InvalidPackageArg);
    assert_eq!(
        err.message(),
        "Received an unexpected PackageArg type: Dir { name: None, path: \"./x\" }"
    );
    let tag = PackageArg::Tag { host: None, name: "foo".into(), tag: "nope".into() };
    let err = Picker::new().pick(&packument, &tag).unwrap_err();
    assert_eq!(err.error, PickerError::NoVersion);
    assert_eq!(
        err.message(),
        "No versions could be found because Tag { host: None, name: \"foo\", tag: \"nope\" } \
         did not match any existing versions"
    );
    let missing = PackageArg::Version {
        host: None,
        name: "foo".into(),
        version: Version::parse("3.0.0").unwrap(),
    };
    let err = Picker::new().pick(&packument, &missing).unwrap_err();
    assert_eq!(err.error, PickerError::NoVersion);
    assert!(err.message().starts_with("No versions could be found because Version {"));
    let aliased = PackageArg::Alias { name: "bar".into(), package: Box::new(tag) };
    let err = Picker::new().pick(&packument, &aliased).unwrap_err();
    assert_eq!(
        err.message(),
        "No versions could be found because Tag { host: None, name: \"foo\", tag: \"nope\" } \
         did not match any existing versions"
    );
    let mut empty = Packument::default();
    empty.name = "foo".into();
    let err = Picker::new().pick(&empty, &dir).unwrap_err();
    assert_eq!(err.error, PickerError::NoVersion);
    assert_eq!(err.message(), "No versions were present in the packument for foo");
}

#[test]
fn maps_replace_on_insert() {
    let mut p = four_versions(&[("latest", "1.0.0")]);
    p.versions.insert(Version::parse("1.0.0").unwrap(), "sha256-xyz".parse().unwrap());
    p.tags.insert("latest".into(), Version::parse("2.0.0").unwrap());
    assert_eq!(p.versions.len(), 4);
    assert_eq!(
        p.versions.get(&Version::parse("1.0.0").unwrap()),
        Some(&"sha256-xyz".parse::<Integrity>().unwrap())
    );
    assert_eq!(p.tags.get("latest"), Some(&Version::parse("2.0.0").unwrap()));
    assert!(p.tags.get("beta").is_none());
}

#[test]
fn picker_error_messages() {
    assert_eq!(PickerError::NoVersion.message(), "No matching version.");
    assert_eq!(
        PickerError::InvalidPackageArg.message(),
        "Only Version, Tag, Range, and Alias package args are supported."
    );
    assert_eq!(
        ds::package_arg::PackageArgError::ParseError.message(),
        "Failed to parse package arg."
    );
}

#[test]
fn timestamps_from_the_clock() {
    assert_eq!(timestamp_from_epoch_offset(Ok((5, 7))), Timestamp { secs: 5, nanos: 7 });
    assert_eq!(
        timestamp_from_epoch_offset(Err((1, 250_000_000))),
        Timestamp { secs: -2, nanos: 750_000_000 }
    );
    assert_eq!(timestamp_from_epoch_offset(Err((3, 0))), Timestamp { secs: -3, nanos: 0 });
    assert_eq!(timestamp_from_epoch_offset(Ok((u64::MAX, 0))), Timestamp { secs: i64::MAX, nanos: 0 });
    assert_eq!(
        timestamp_from_epoch_offset(Err((u64::MAX, 1))),
        Timestamp { secs: i64::MIN, nanos: 999_999_999 }
    );
    let t = now();
    assert!(t.nanos < 1_000_000_000);
    assert!(t.secs > 1_500_000_000);
}
