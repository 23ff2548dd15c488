use ds::version::{Version, VersionReq};

#[test]
fn versions_parse_and_order() {
    let a = Version::parse("1.0.0-alpha").unwrap();
    let b = Version::parse("1.0.0").unwrap();
    let c = Version::parse("1.10.0").unwrap();
    assert_eq!(a.order(&b), -1);
    assert_eq!(c.order(&b), 1);
    assert_eq!(b.order(&b.clone()), 0);
    assert!(b.same(&Version::parse("1.0.0").unwrap()));
    assert!(!b.same(&c));
    assert!(Version::parse("1.0").is_none());
    assert!(Version::parse("latest").is_none());
}

#[test]
fn requirements_parse_and_match() {
    let r = VersionReq::parse(">=1.2, <2").unwrap();
    assert!(r.matches(&Version::parse("1.5.0").unwrap()));
    assert!(!r.matches(&Version::parse("2.0.0").unwrap()));
    assert!(!r.matches(&Version::parse("1.1.9").unwrap()));
    assert!(VersionReq::parse("latest").is_none());
    let star = VersionReq::parse("*").unwrap();
    assert!(star.is_empty());
    assert!(star.same(&VersionReq::star()));
    assert!(!star.same(&r));
    assert!(VersionReq::star().matches(&Version::parse("9.9.9").unwrap()));
    assert!(!VersionReq::star().matches(&Version::parse("1.0.0-pre").unwrap()));
}

#[test]
fn requirements_compare_operators_and_clone() {
    let ge = VersionReq::parse(">=1.2").unwrap();
    let lt = VersionReq::parse("<1.2").unwrap();
    assert!(!ge.same(&lt));
    assert!(ge.same(&VersionReq::parse(">= 1.2").unwrap()));
    let copy = ge.clone();
    assert!(copy.same(&ge));
    assert_eq!(copy, ge);
}
