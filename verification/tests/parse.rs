use rush::cli::{HoldRange, HoldRangeError};

#[test]
fn parse_plain_range() {
    assert_eq!(
        HoldRange::parse("10..50"),
        Ok(HoldRange { min_ms: 10, max_ms: 50 })
    );
}

#[test]
fn parse_inclusive_range() {
    assert_eq!(
        HoldRange::parse("1000..=2000"),
        Ok(HoldRange { min_ms: 1000, max_ms: 2000 })
    );
}

#[test]
fn parse_degenerate_range() {
    assert_eq!(
        HoldRange::parse("1000..1000"),
        Ok(HoldRange { min_ms: 1000, max_ms: 1000 })
    );
}

#[test]
fn parse_trims_surrounding_whitespace() {
    assert_eq!(
        HoldRange::parse("  5..7\t\n"),
        Ok(HoldRange { min_ms: 5, max_ms: 7 })
    );
}

#[test]
fn parse_accepts_leading_plus() {
    assert_eq!(
        HoldRange::parse("+5..+9"),
        Ok(HoldRange { min_ms: 5, max_ms: 9 })
    );
}

#[test]
fn parse_missing_separator() {
    assert_eq!(HoldRange::parse("100"), Err(HoldRangeError::MissingSeparator));
    assert_eq!(HoldRange::parse(""), Err(HoldRangeError::MissingSeparator));
    assert_eq!(HoldRange::parse("100.200"), Err(HoldRangeError::MissingSeparator));
}

#[test]
fn parse_invalid_minimum() {
    assert_eq!(HoldRange::parse("a..5"), Err(HoldRangeError::InvalidMin));
    assert_eq!(HoldRange::parse("..5"), Err(HoldRangeError::InvalidMin));
    assert_eq!(HoldRange::parse("+..5"), Err(HoldRangeError::InvalidMin));
    assert_eq!(HoldRange::parse("1 0..5"), Err(HoldRangeError::InvalidMin));
}

#[test]
fn parse_invalid_maximum() {
    assert_eq!(HoldRange::parse("5.."), Err(HoldRangeError::InvalidMax));
    assert_eq!(HoldRange::parse("5..=x"), Err(HoldRangeError::InvalidMax));
    assert_eq!(HoldRange::parse("5..-7"), Err(HoldRangeError::InvalidMax));
}

#[test]
fn parse_inverted_range() {
    assert_eq!(HoldRange::parse("9..3"), Err(HoldRangeError::Inverted));
    assert_eq!(HoldRange::parse("100..=99"), Err(HoldRangeError::Inverted));
}

#[test]
fn parse_largest_value() {
    assert_eq!(
        HoldRange::parse("18446744073709551615..18446744073709551615"),
        Ok(HoldRange { min_ms: u64::MAX, max_ms: u64::MAX })
    );
}

#[test]
fn parse_value_too_large() {
    assert_eq!(
        HoldRange::parse("18446744073709551616..18446744073709551617"),
        Err(HoldRangeError::InvalidMin)
    );
    assert_eq!(
        HoldRange::parse("1..99999999999999999999"),
        Err(HoldRangeError::InvalidMax)
    );
}

#[test]
fn parse_splits_at_first_inclusive_separator() {
    // The inclusive separator wins even when a plain one comes first, so the
    // minimum text here is "1..2", which is not a number.
    assert_eq!(HoldRange::parse("1..2..=3"), Err(HoldRangeError::InvalidMin));
    // With no inclusive separator, the split happens at the first "..".
    assert_eq!(HoldRange::parse("1..2..3"), Err(HoldRangeError::InvalidMax));
}
