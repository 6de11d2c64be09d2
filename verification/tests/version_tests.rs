use algorithmia::algorithm::Version;

#[test]
fn version_minor_round_trips() {
    assert_eq!(Version::from_str("0.1").render(), "0.1");
    assert!(matches!(Version::from_str("0.1"), Version::Minor(0, 1)));
}

#[test]
fn version_hash_round_trips_verbatim() {
    assert_eq!(Version::from_str("abc123").render(), "abc123");
    assert!(matches!(Version::from_str("abc123"), Version::Hash(_)));
}

#[test]
fn version_revision_round_trips() {
    assert_eq!(Version::from_str("1.2.3").render(), "1.2.3");
    assert!(matches!(Version::from_str("1.2.3"), Version::Revision(1, 2, 3)));
}

#[test]
fn version_major_round_trips() {
    assert_eq!(Version::from_str("7").render(), "7");
    assert!(matches!(Version::from_str("7"), Version::Major(7)));
}

#[test]
fn version_four_numeric_parts_is_a_hash() {
    let v = Version::from_str("1.2.3.4");
    assert!(matches!(v, Version::Hash(_)));
    assert_eq!(v.render(), "1.2.3.4");
}

#[test]
fn version_with_non_numeric_part_is_a_hash() {
    let v = Version::from_str("1.2.x");
    assert!(matches!(v, Version::Hash(_)));
    assert_eq!(v.render(), "1.2.x");
}

#[test]
fn version_overflowing_number_is_a_hash() {
    let v = Version::from_str("4294967296");
    assert!(matches!(v, Version::Hash(_)));
    assert_eq!(v.render(), "4294967296");
    assert!(matches!(Version::from_str("4294967295"), Version::Major(4294967295)));
}

#[test]
fn version_empty_parts_are_a_hash() {
    assert!(matches!(Version::from_str(""), Version::Hash(_)));
    assert!(matches!(Version::from_str("1."), Version::Hash(_)));
    assert!(matches!(Version::from_str(".1"), Version::Hash(_)));
}

#[test]
fn version_latest_string_stays_an_opaque_token() {
    let v = Version::from_str("latest");
    assert!(matches!(v, Version::Hash(_)));
    assert_eq!(v.render(), "latest");
}

#[test]
fn version_sign_characters_are_not_numeric() {
    assert!(matches!(Version::from_str("+1"), Version::Hash(_)));
    assert!(matches!(Version::from_str("-1"), Version::Hash(_)));
}

#[test]
fn version_latest_renders() {
    assert_eq!(Version::Latest.render(), "latest");
}

#[test]
fn version_zero_renders() {
    assert_eq!(Version::Major(0).render(), "0");
    assert_eq!(Version::Minor(10, 20).render(), "10.20");
}
