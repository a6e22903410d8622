use tanoshi::errors::SourceError;
use tanoshi::version::{has_newer, parse_version, version_newer};

#[test]
fn parse_plain_version() {
    let v = parse_version("1.2.3").unwrap();
    assert_eq!(v.major, 1);
    assert_eq!(v.minor, 2);
    assert_eq!(v.patch, 3);
    assert_eq!(v.pre, "");
}

#[test]
fn parse_version_with_pre_release() {
    let v = parse_version("10.20.30-alpha.1").unwrap();
    assert_eq!(v.major, 10);
    assert_eq!(v.minor, 20);
    assert_eq!(v.patch, 30);
    assert_eq!(v.pre, "alpha.1");
}

#[test]
fn parse_rejects_empty_string() {
    assert_eq!(parse_version("").unwrap_err(), SourceError::VersionParseError);
}

#[test]
fn parse_rejects_two_components() {
    assert_eq!(parse_version("1.0").unwrap_err(), SourceError::VersionParseError);
}

#[test]
fn parse_rejects_non_digits() {
    assert_eq!(parse_version("a.b.c").unwrap_err(), SourceError::VersionParseError);
}

#[test]
fn parse_rejects_empty_component() {
    assert_eq!(parse_version("1..3").unwrap_err(), SourceError::VersionParseError);
    assert_eq!(parse_version(".1.3").unwrap_err(), SourceError::VersionParseError);
    assert_eq!(parse_version("1.2.").unwrap_err(), SourceError::VersionParseError);
}

#[test]
fn parse_rejects_empty_pre_release() {
    assert_eq!(parse_version("1.2.3-").unwrap_err(), SourceError::VersionParseError);
}

#[test]
fn parse_rejects_component_overflow() {
    assert_eq!(
        parse_version("18446744073709551616.0.0").unwrap_err(),
        SourceError::VersionParseError
    );
}

#[test]
fn parse_accepts_component_at_limit() {
    let v = parse_version("18446744073709551615.0.0").unwrap();
    assert_eq!(v.major, u64::MAX);
}

#[test]
fn newer_on_minor_bump() {
    assert_eq!(has_newer("1.0.0", "1.1.0").unwrap(), true);
}

#[test]
fn equal_versions_are_not_newer() {
    assert_eq!(has_newer("1.1.0", "1.1.0").unwrap(), false);
}

#[test]
fn downgrade_is_not_newer() {
    assert_eq!(has_newer("1.1.0", "1.0.9").unwrap(), false);
}

#[test]
fn release_is_newer_than_its_pre_release() {
    assert_eq!(has_newer("1.0.0-alpha", "1.0.0").unwrap(), true);
    assert_eq!(has_newer("1.0.0", "1.0.0-alpha").unwrap(), false);
}

#[test]
fn pre_releases_compare_lexicographically() {
    assert_eq!(has_newer("1.0.0-alpha", "1.0.0-beta").unwrap(), true);
    assert_eq!(has_newer("1.0.0-beta", "1.0.0-alpha").unwrap(), false);
}

#[test]
fn unparsable_side_fails_has_newer() {
    assert_eq!(has_newer("x", "1.0.0").unwrap_err(), SourceError::VersionParseError);
    assert_eq!(has_newer("1.0.0", "").unwrap_err(), SourceError::VersionParseError);
}

#[test]
fn version_newer_compares_patch() {
    let a = parse_version("2.3.4").unwrap();
    let b = parse_version("2.3.5").unwrap();
    assert!(version_newer(&a, &b));
    assert!(!version_newer(&b, &a));
    assert!(!version_newer(&a, &a));
}

#[test]
fn pre_release_prefix_precedes_its_extension() {
    assert_eq!(has_newer("1.0.0-a", "1.0.0-ab").unwrap(), true);
    assert_eq!(has_newer("1.0.0-ab", "1.0.0-a").unwrap(), false);
    assert_eq!(has_newer("1.0.0-ab", "1.0.0-ab").unwrap(), false);
}
