use samousse::text::{concat3, parse_u64, u64_to_string};

#[test]
fn parse_simple_number() {
    assert_eq!(parse_u64("123"), Some(123));
    assert_eq!(parse_u64("0"), Some(0));
    assert_eq!(parse_u64("53102824"), Some(53102824));
}

#[test]
fn parse_leading_zeros() {
    assert_eq!(parse_u64("007"), Some(7));
}

#[test]
fn parse_rejects_empty_and_junk() {
    assert_eq!(parse_u64(""), None);
    assert_eq!(parse_u64("12a3"), None);
    assert_eq!(parse_u64("-5"), None);
    assert_eq!(parse_u64("+5"), None);
    assert_eq!(parse_u64(" 5"), None);
    assert_eq!(parse_u64("é9"), None);
}

#[test]
fn parse_bounds() {
    assert_eq!(parse_u64("18446744073709551615"), Some(u64::MAX));
    assert_eq!(parse_u64("18446744073709551616"), None);
    assert_eq!(parse_u64("99999999999999999999999"), None);
}

#[test]
fn format_round_trip() {
    assert_eq!(u64_to_string(0), "0");
    assert_eq!(u64_to_string(907), "907");
    assert_eq!(u64_to_string(u64::MAX), "18446744073709551615");
    assert_eq!(parse_u64(&u64_to_string(123456789)), Some(123456789));
}

#[test]
fn concat_three_parts() {
    assert_eq!(concat3("User ", "42", " is streaming"), "User 42 is streaming");
    assert_eq!(concat3("", "", ""), "");
}
