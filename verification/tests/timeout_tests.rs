use shopvac::timeout::parse_timeout;

#[test]
fn plain_seconds() {
    assert_eq!(parse_timeout("10s").unwrap().millis, 10_000);
}

#[test]
fn milliseconds() {
    assert_eq!(parse_timeout("250ms").unwrap().millis, 250);
}

#[test]
fn minutes() {
    assert_eq!(parse_timeout("5m").unwrap().millis, 300_000);
}

#[test]
fn surrounding_white_space_accepted() {
    assert_eq!(parse_timeout("  42s ").unwrap().millis, 42_000);
    assert_eq!(parse_timeout("\t7m\n").unwrap().millis, 420_000);
}

#[test]
fn bare_zero_accepted_without_unit() {
    assert_eq!(parse_timeout("0").unwrap().millis, 0);
    assert_eq!(parse_timeout(" 0 ").unwrap().millis, 0);
    assert_eq!(parse_timeout("00").unwrap().millis, 0);
}

#[test]
fn nonzero_magnitude_requires_a_unit() {
    assert!(parse_timeout("7").is_err());
    assert!(parse_timeout(" 10 ").is_err());
}

#[test]
fn malformed_strings_rejected() {
    assert!(parse_timeout("").is_err());
    assert!(parse_timeout("s").is_err());
    assert!(parse_timeout("10x").is_err());
    assert!(parse_timeout("1mss").is_err());
    assert!(parse_timeout("10 s").is_err());
    assert!(parse_timeout("-5s").is_err());
    assert!(parse_timeout("1.5s").is_err());
}

#[test]
fn magnitude_at_the_unsigned_64_bit_limit() {
    assert_eq!(
        parse_timeout("18446744073709551615ms").unwrap().millis,
        18_446_744_073_709_551_615,
    );
    assert!(parse_timeout("18446744073709551616ms").is_err());
}

#[test]
fn leading_zeros_do_not_change_the_value() {
    assert_eq!(parse_timeout("0000000000000000000000010s").unwrap().millis, 10_000);
}

#[test]
fn default_argument_shape_parses() {
    // The controller's command line defaults to this string.
    assert_eq!(parse_timeout("10s").unwrap().millis, 10_000);
}
