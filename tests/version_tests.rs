use task_condition::version::{is_newer, parse_version_triple};

fn s(v: &str) -> String {
    v.to_string()
}

#[test]
fn parses_full_and_short_versions() {
    assert_eq!(parse_version_triple("1.72.0"), Some((1, 72, 0)));
    assert_eq!(parse_version_triple("1.72"), Some((1, 72, 0)));
    assert_eq!(parse_version_triple("3"), Some((3, 0, 0)));
    assert_eq!(parse_version_triple("0.0.18446744073709551615"), Some((0, 0, u64::MAX)));
}

#[test]
fn rejects_malformed_versions() {
    assert_eq!(parse_version_triple(""), None);
    assert_eq!(parse_version_triple("1..2"), None);
    assert_eq!(parse_version_triple("1.2."), None);
    assert_eq!(parse_version_triple("1.2.3.4"), None);
    assert_eq!(parse_version_triple("1.x.0"), None);
    assert_eq!(parse_version_triple("1.72.0-nightly"), None);
    assert_eq!(parse_version_triple("18446744073709551616"), None);
}

#[test]
fn newer_compares_components_numerically() {
    assert!(is_newer(&s("1.10.0"), &s("1.9.0"), true));
    assert!(!is_newer(&s("1.9.0"), &s("1.10.0"), true));
    assert!(is_newer(&s("2.0.0"), &s("1.99.99"), true));
    assert!(is_newer(&s("1.0.1"), &s("1.0.0"), true));
    assert!(is_newer(&s("1.10"), &s("1.9.5"), true));
}

#[test]
fn newer_on_equal_versions() {
    assert!(!is_newer(&s("1.10.0"), &s("1.10.0"), true));
    assert!(is_newer(&s("1.10.0"), &s("1.10.0"), false));
    assert!(is_newer(&s("1.10"), &s("1.10.0"), false));
    assert!(!is_newer(&s("1.10"), &s("1.10.0"), true));
}

#[test]
fn newer_fails_closed_on_malformed() {
    assert!(!is_newer(&s("abc"), &s("1.0.0"), true));
    assert!(!is_newer(&s("2.0.0"), &s("abc"), false));
    assert!(!is_newer(&s("abc"), &s("abc"), false));
}
