use nh::Duration;

fn span(secs: u64, subsec_nanos: u32) -> Option<Duration> {
    Some(Duration { secs, subsec_nanos })
}

#[test]
fn duration_zero_hours_is_the_empty_span() {
    assert_eq!(Duration::parse("0h"), Some(Duration::zero()));
    assert_eq!(Duration::parse("0"), Some(Duration::zero()));
    assert!(Duration::zero().is_zero());
    assert_eq!(Duration::zero(), Duration { secs: 0, subsec_nanos: 0 });
}

#[test]
fn duration_adds_up_its_spans() {
    assert_eq!(Duration::parse("2h 37min"), span(9420, 0));
    assert_eq!(Duration::parse("1hour 12min 5s"), span(4325, 0));
    assert_eq!(Duration::parse("32ms"), span(0, 32_000_000));
    assert_eq!(Duration::parse("4.2s"), span(4, 200_000_000));
    assert_eq!(Duration::parse("1week"), span(604_800, 0));
    assert_eq!(Duration::parse("30d"), span(2_592_000, 0));
    assert_eq!(Duration::parse("12h 5min 2ns"), span(12 * 3600 + 5 * 60, 2));
    assert_eq!(Duration::parse("1500ms"), span(1, 500_000_000));
}

#[test]
fn duration_is_not_zero_when_it_has_nanoseconds_only() {
    let parsed = Duration::parse("1ns").unwrap();
    assert_eq!(parsed, Duration { secs: 0, subsec_nanos: 1 });
    assert!(!parsed.is_zero());
}

#[test]
fn duration_refuses_what_is_no_span() {
    assert_eq!(Duration::parse(""), None);
    assert_eq!(Duration::parse("   "), None);
    assert_eq!(Duration::parse("abc"), None);
    assert_eq!(Duration::parse("12"), None);
    assert_eq!(Duration::parse("12 parsecs"), None);
    assert_eq!(Duration::parse("-1h"), None);
    assert_eq!(Duration::parse("1h!"), None);
}

#[test]
fn duration_reads_up_to_eleven_digits() {
    assert_eq!(Duration::parse("12345678901s"), span(12_345_678_901, 0));
    assert_eq!(Duration::parse("99999999999y"), span(99_999_999_999 * 31_557_600, 0));
    assert_eq!(Duration::parse("123456h 78901s"), span(123_456 * 3600 + 78_901, 0));
}

#[test]
fn duration_refuses_more_than_eleven_digits() {
    assert_eq!(nh::MAX_DURATION_DIGITS, 11);
    assert_eq!(Duration::parse("123456789012s"), None);
    assert_eq!(Duration::parse("123456h 789012s"), None);
    assert_eq!(Duration::parse("18446744073709551615s 1000ms"), None);
    assert_eq!(Duration::parse("000000000000s"), None);
}
