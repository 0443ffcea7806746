use nh::text::{copy_of, join_path, parse_flag, parse_number, same_text};

#[test]
fn same_text_compares_every_character() {
    assert!(same_text("", ""));
    assert!(same_text("FLAKE", "FLAKE"));
    assert!(!same_text("FLAKE", "FLAKES"));
    assert!(!same_text("FLAKE", "FLAKe"));
    assert!(!same_text("", "x"));
    assert!(same_text("µs", "µs"));
}

#[test]
fn copy_of_copies_the_text() {
    assert_eq!(copy_of(&Some(String::from("x"))), Some(String::from("x")));
    assert_eq!(copy_of(&None), None);
}

#[test]
fn parse_number_reads_decimal_numerals() {
    assert_eq!(parse_number("0", u64::MAX), Some(0));
    assert_eq!(parse_number("7", u64::MAX), Some(7));
    assert_eq!(parse_number("30", u64::MAX), Some(30));
    assert_eq!(parse_number("0030", u64::MAX), Some(30));
    assert_eq!(parse_number("1234567890", u64::MAX), Some(1234567890));
}

#[test]
fn parse_number_takes_a_plus_sign() {
    assert_eq!(parse_number("+5", u64::MAX), Some(5));
    assert_eq!(parse_number("+", u64::MAX), None);
    assert_eq!(parse_number("++5", u64::MAX), None);
    assert_eq!(parse_number("5+", u64::MAX), None);
}

#[test]
fn parse_number_refuses_what_is_no_numeral() {
    assert_eq!(parse_number("", u64::MAX), None);
    assert_eq!(parse_number("-1", u64::MAX), None);
    assert_eq!(parse_number("1.5", u64::MAX), None);
    assert_eq!(parse_number(" 1", u64::MAX), None);
    assert_eq!(parse_number("1 ", u64::MAX), None);
    assert_eq!(parse_number("ten", u64::MAX), None);
    assert_eq!(parse_number("1_000", u64::MAX), None);
    assert_eq!(parse_number("٣", u64::MAX), None);
}

#[test]
fn parse_number_stops_at_the_limit() {
    assert_eq!(parse_number("18446744073709551615", u64::MAX), Some(u64::MAX));
    assert_eq!(parse_number("18446744073709551616", u64::MAX), None);
    assert_eq!(parse_number("99999999999999999999999", u64::MAX), None);
    assert_eq!(parse_number("4294967295", 0xffff_ffff), Some(4294967295));
    assert_eq!(parse_number("4294967296", 0xffff_ffff), None);
    assert_eq!(parse_number("10", 9), None);
    assert_eq!(parse_number("9", 9), Some(9));
    assert_eq!(parse_number("0", 0), Some(0));
    assert_eq!(parse_number("1", 0), None);
}

#[test]
fn parse_flag_knows_true_and_false_only() {
    assert_eq!(parse_flag("true"), Some(true));
    assert_eq!(parse_flag("false"), Some(false));
    assert_eq!(parse_flag("1"), None);
    assert_eq!(parse_flag("0"), None);
    assert_eq!(parse_flag(""), None);
    assert_eq!(parse_flag("True"), None);
    assert_eq!(parse_flag("yes"), None);
}

#[test]
fn join_path_puts_one_separator_between() {
    assert_eq!(join_path("/home/alice", ".config/nixos"), "/home/alice/.config/nixos");
    assert_eq!(join_path("/home/alice/", ".config/nixos"), "/home/alice/.config/nixos");
    assert_eq!(join_path("/", "etc"), "/etc");
    assert_eq!(join_path("", "etc"), "etc");
    assert_eq!(join_path("relative", "x"), "relative/x");
}
