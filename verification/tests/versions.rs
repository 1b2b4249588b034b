use singboard::version::{is_newer, parse_version, strip_version_prefix};

#[test]
fn parses_plain_and_prefixed_versions() {
    assert_eq!(parse_version("3.2.4"), Some((3, 2, 4)));
    assert_eq!(parse_version("v3.2.4"), Some((3, 2, 4)));
    assert_eq!(parse_version(" 3.2.4 "), Some((3, 2, 4)));
    assert_eq!(parse_version("3.2"), Some((3, 2, 0)));
    assert_eq!(parse_version("3.2.4-beta1"), Some((3, 2, 4)));
}

#[test]
fn rejects_unparsable_versions() {
    assert_eq!(parse_version(""), None);
    assert_eq!(parse_version("nightly"), None);
    assert_eq!(parse_version("3"), None);
}

#[test]
fn compares_numerically_not_lexically() {
    assert!(is_newer("3.10.0", "3.2.4"));
    assert!(is_newer("v3.2.5", "3.2.4"));
    assert!(is_newer("4.0.0", "3.99.99"));
}

#[test]
fn same_or_older_is_not_newer() {
    assert!(!is_newer("3.2.4", "3.2.4"));
    assert!(!is_newer("v3.2.4", "3.2.4"));
    assert!(!is_newer("3.2.3", "3.2.4"));
    assert!(!is_newer("2.9.9", "3.0.0"));
}

#[test]
fn unparsable_falls_back_to_string_inequality() {
    assert!(is_newer("nightly", "3.2.4"));
    assert!(!is_newer("nightly", "nightly"));
    assert!(!is_newer("vnightly", "nightly"));
}

#[test]
fn version_numbers_follow_u64_parsing() {
    assert_eq!(parse_version("+1.+2.3"), Some((1, 2, 3)));
    assert_eq!(parse_version("-1.2.3"), None);
    assert_eq!(parse_version("+.2.3"), None);
    assert_eq!(parse_version("18446744073709551615.0.1"), Some((u64::MAX, 0, 1)));
    assert_eq!(parse_version("18446744073709551616.0.1"), None);
    assert_eq!(parse_version("1.18446744073709551616"), None);
}

#[test]
fn third_field_contributes_leading_digits_only() {
    assert_eq!(parse_version("1.2.3.4"), Some((1, 2, 3)));
    assert_eq!(parse_version("1.2.beta"), None);
    assert_eq!(parse_version("1.2."), None);
    assert_eq!(parse_version("1.2.+3"), None);
    assert_eq!(parse_version("1.2.007rc"), Some((1, 2, 7)));
    assert_eq!(parse_version("1..3"), None);
}

#[test]
fn surrounding_whitespace_and_v_letters_are_ignored() {
    assert_eq!(parse_version("\t\u{3000}V1.0\n"), Some((1, 0, 0)));
    assert_eq!(parse_version("vvV2.1.0"), Some((2, 1, 0)));
    assert_eq!(parse_version("v 2.1.0"), None);
    assert_eq!(parse_version("2 .1"), None);
}

#[test]
fn v_prefix_does_not_change_version() {
    for s in ["3.2.4", "3.2", "1.0.0-rc1", "nightly", "", "12.x"] {
        let prefixed = format!("v{}", s);
        assert_eq!(parse_version(&prefixed), parse_version(s));
    }
}

#[test]
fn newer_is_irreflexive_asymmetric_and_transitive() {
    let versions = ["1.0.0", "1.0.1", "1.1", "2.0.0", "v10.0.0", "3.2.4-beta"];
    for a in versions {
        assert!(!is_newer(a, a));
        for b in versions {
            assert!(!(is_newer(a, b) && is_newer(b, a)));
            if parse_version(a) != parse_version(b) {
                assert!(is_newer(a, b) || is_newer(b, a));
            }
            for c in versions {
                if is_newer(a, b) && is_newer(b, c) {
                    assert!(is_newer(a, c));
                }
            }
        }
    }
}

#[test]
fn unparsable_v_tag_is_newer_than_itself() {
    assert!(is_newer("vnightly", "vnightly"));
    assert!(is_newer(" nightly ", "nightly x"));
    assert!(!is_newer(" nightly ", "nightly"));
}

#[test]
fn mixed_parsable_and_unparsable_compare_as_text() {
    assert!(is_newer("3.2.4", "nightly"));
    assert!(!is_newer("v3.x", "3.x"));
}

#[test]
fn version_prefix_is_stripped_for_display() {
    assert_eq!(strip_version_prefix("v1.14.0"), "1.14.0");
    assert_eq!(strip_version_prefix("Vv1"), "1");
    assert_eq!(strip_version_prefix("1.0"), "1.0");
    assert_eq!(strip_version_prefix(" v1"), " v1");
}

#[test]
fn decimal_versions_parse_back() {
    for (a, b, c) in [(0u64, 0u64, 0u64), (3, 10, 7), (u64::MAX, 1, 99), (120, 0, u64::MAX)] {
        assert_eq!(parse_version(&format!("{}.{}.{}", a, b, c)), Some((a, b, c)));
        assert_eq!(parse_version(&format!("v{}.{}.{}", a, b, c)), Some((a, b, c)));
        assert_eq!(parse_version(&format!("{}.{}", a, b)), Some((a, b, 0)));
    }
}
