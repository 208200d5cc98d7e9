use metlink_notices::text::{
    contains, matches_at, parse_short_number, same_text, starts_with, to_decimal, to_two_digits,
    trim,
};

#[test]
fn prefixes_and_infixes_are_found() {
    assert!(starts_with("Bus 3", "Bus"));
    assert!(!starts_with("A Bus", "Bus"));
    assert!(starts_with("Bus", ""));
    assert!(!starts_with("Bu", "Bus"));
    assert!(contains("see https://t.co/x", "https://t.co/"));
    assert!(!contains("see https://t.c", "https://t.co/"));
    assert!(contains("", ""));
    assert!(contains("abc", "c"));
    assert!(matches_at("abcabc", "bc", 4));
    assert!(!matches_at("abcabc", "bc", 5));
    assert!(!matches_at("abc", "", 4));
    assert!(matches_at("abc", "", 3));
}

#[test]
fn positions_count_characters_not_bytes() {
    assert!(matches_at("Māori Rd", "ori", 2));
    assert!(contains("Ōtaki to Waikanae", "to"));
    assert!(same_text("Pāuatahanui", "Pāuatahanui"));
    assert!(!same_text("am", "pm"));
    assert!(!same_text("am", "a"));
}

#[test]
fn numbers_are_written_in_decimal() {
    assert_eq!(to_decimal(0), "0");
    assert_eq!(to_decimal(7), "7");
    assert_eq!(to_decimal(10), "10");
    assert_eq!(to_decimal(4_294_967_295), "4294967295");
    assert_eq!(to_two_digits(0), "00");
    assert_eq!(to_two_digits(5), "05");
    assert_eq!(to_two_digits(59), "59");
    assert_eq!(to_two_digits(100), "100");
}

#[test]
fn short_numbers_are_read() {
    assert_eq!(parse_short_number("0"), Some(0));
    assert_eq!(parse_short_number("05"), Some(5));
    assert_eq!(parse_short_number("30"), Some(30));
    assert_eq!(parse_short_number("999999999"), Some(999_999_999));
    assert_eq!(parse_short_number("1000000000"), None);
    assert_eq!(parse_short_number(""), None);
    assert_eq!(parse_short_number("3a"), None);
    assert_eq!(parse_short_number("-3"), None);
    assert_eq!(parse_short_number(" 3"), None);
}

#[test]
fn spaces_around_a_text_are_removed() {
    assert_eq!(trim("  Lyall Bay \t"), "Lyall Bay");
    assert_eq!(trim("Lyall Bay"), "Lyall Bay");
    assert_eq!(trim("   "), "");
    assert_eq!(trim(""), "");
    assert_eq!(trim("\n x \r\n"), "x");
    assert_eq!(trim(" Ōtaki "), "Ōtaki");
}
