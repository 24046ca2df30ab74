use burncloud_auto_update::strip_version_prefix;
use burncloud_auto_update::version_differs;
use burncloud_auto_update::version_requires_update;

#[test]
fn strip_removes_one_lowercase_v() {
    assert_eq!(strip_version_prefix("v1.0.0"), "1.0.0");
    assert_eq!(strip_version_prefix("v"), "");
}

#[test]
fn strip_is_case_sensitive() {
    assert_eq!(strip_version_prefix("V1.0.0"), "V1.0.0");
}

#[test]
fn strip_is_idempotent_on_singly_prefixed_strings() {
    let once = strip_version_prefix("v1.0.0");
    let twice = strip_version_prefix(&once);
    assert_eq!(twice, once);

    let plain_once = strip_version_prefix("1.0.0");
    let plain_twice = strip_version_prefix(&plain_once);
    assert_eq!(plain_twice, plain_once);
}

#[test]
fn strip_leaves_empty_and_unprefixed_strings() {
    assert_eq!(strip_version_prefix(""), "");
    assert_eq!(strip_version_prefix("1.2.3"), "1.2.3");
}

#[test]
fn semantic_ordering_decides_when_both_parse() {
    assert!(version_requires_update("1.2.3", "1.2.4"));
    assert!(!version_requires_update("1.2.4", "1.2.3"));
    assert!(!version_requires_update("1.2.3", "1.2.3"));
}

#[test]
fn semantic_ordering_is_not_string_ordering() {
    // An older release with a lexicographically different tag: the smart
    // comparison must say no update, where plain inequality would say yes.
    assert!(!version_requires_update("1.10.0", "1.9.0"));
    // Pre-release precedence: a pre-release is below its release.
    assert!(version_requires_update("1.0.0-alpha", "1.0.0"));
    assert!(!version_requires_update("1.0.0", "1.0.0-beta"));
}

#[test]
fn leading_v_is_stripped_before_comparing() {
    assert!(version_requires_update("v1.0.0", "v1.0.1"));
    assert!(!version_requires_update("v1.0.0", "1.0.0"));
    assert!(!version_requires_update("1.0.0", "v1.0.0"));
}

#[test]
fn unparseable_tag_falls_back_to_inequality() {
    assert!(version_requires_update("1.0.0", "latest"));
    assert!(version_requires_update("1.0.0", "r123"));
    assert!(!version_requires_update("latest", "latest"));
    assert!(version_requires_update("r123", "r124"));
}

#[test]
fn basic_comparison_reports_any_difference() {
    assert!(version_differs("2.0.0", "v1.0.0"));
    assert!(version_differs("1.0.0", "1.0.1"));
    assert!(!version_differs("1.0.0", "v1.0.0"));
    assert!(!version_differs("x", "x"));
}
