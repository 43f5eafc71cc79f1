use xelis_vanity::policy::{matches_placement, Placement};

#[test]
fn placement_from_str_parses() {
    assert_eq!(Placement::from_str("prefix"), Ok(Placement::Prefix));
    assert_eq!(Placement::from_str("suffix"), Ok(Placement::Suffix));
    assert_eq!(Placement::from_str("anywhere"), Ok(Placement::Anywhere));
}

#[test]
fn placement_from_str_rejects_unknown() {
    assert!(Placement::from_str("middle").is_err());
    assert!(Placement::from_str("").is_err());
    assert!(Placement::from_str("Prefix").is_err());
}

#[test]
fn placement_to_string_names() {
    assert_eq!(Placement::Prefix.to_string(), "prefix");
    assert_eq!(Placement::Suffix.to_string(), "suffix");
    assert_eq!(Placement::Anywhere.to_string(), "anywhere");
}

#[test]
fn prefix_matches_only_at_start() {
    assert!(matches_placement(Placement::Prefix, "xel:acdef", "xel:ac"));
    assert!(matches_placement(Placement::Prefix, "xel:acdef", "x"));
    assert!(!matches_placement(Placement::Prefix, "xel:acdef", "el:ac"));
    assert!(!matches_placement(Placement::Prefix, "xel:acdef", "cdef"));
}

#[test]
fn suffix_matches_only_at_end() {
    assert!(matches_placement(Placement::Suffix, "xel:acdef", "def"));
    assert!(matches_placement(Placement::Suffix, "xel:acdef", "f"));
    assert!(!matches_placement(Placement::Suffix, "xel:acdef", "xel:"));
    assert!(!matches_placement(Placement::Suffix, "xel:acdef", "acd"));
}

#[test]
fn anywhere_matches_at_any_position() {
    // at position 0
    assert!(matches_placement(Placement::Anywhere, "abxyz", "ab"));
    // in the middle
    assert!(matches_placement(Placement::Anywhere, "xaby", "ab"));
    // at the very end
    assert!(matches_placement(Placement::Anywhere, "xyzab", "ab"));
    // absent
    assert!(!matches_placement(Placement::Anywhere, "xyzq", "ab"));
    // present only split up
    assert!(!matches_placement(Placement::Anywhere, "a-b", "ab"));
}

#[test]
fn pattern_longer_than_address_never_matches() {
    assert!(!matches_placement(Placement::Prefix, "xel", "xel:ac"));
    assert!(!matches_placement(Placement::Suffix, "ac", "acdef"));
    assert!(!matches_placement(Placement::Anywhere, "", "a"));
}

#[test]
fn empty_pattern_matches_everywhere() {
    assert!(matches_placement(Placement::Prefix, "xel:acdef", ""));
    assert!(matches_placement(Placement::Suffix, "xel:acdef", ""));
    assert!(matches_placement(Placement::Anywhere, "", ""));
}

#[test]
fn whole_address_as_pattern_matches() {
    assert!(matches_placement(Placement::Prefix, "xel:ac", "xel:ac"));
    assert!(matches_placement(Placement::Suffix, "xel:ac", "xel:ac"));
    assert!(matches_placement(Placement::Anywhere, "xel:ac", "xel:ac"));
}
