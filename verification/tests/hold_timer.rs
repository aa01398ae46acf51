use apollo_fusion::decimal::{parse_field, push_decimal};
use apollo_fusion::hold::{
    format_start, hold_delay, parse_start, read_start, remaining_hold, StartRecord, Time,
    DEFAULT_DELAY_SECS,
};

fn t(secs: u64, nanos: u32) -> Time {
    Time { secs, nanos }
}

fn field(text: &str, max: u64) -> u64 {
    parse_field(text.as_bytes(), 0, text.len(), max)
}

#[test]
fn default_delay_is_forty_five_minutes() {
    assert_eq!(DEFAULT_DELAY_SECS, 45 * 60);
    assert_eq!(hold_delay(None), 2700);
    assert_eq!(hold_delay(Some(0)), 0);
    assert_eq!(hold_delay(Some(600)), 600);
    assert_eq!(hold_delay(Some(-1)), u64::MAX);
}

#[test]
fn half_an_hour_into_a_hold_of_forty_five_minutes() {
    let now = t(1_565_042_843, 250);
    let start = t(now.secs - 1800, 250);
    assert_eq!(remaining_hold(start, now, 2700), Some(t(900, 0)));
}

#[test]
fn remaining_hold_counts_nanoseconds() {
    assert_eq!(remaining_hold(t(100, 0), t(100, 0), 10), Some(t(10, 0)));
    assert_eq!(remaining_hold(t(100, 0), t(100, 1), 10), Some(t(9, 999_999_999)));
    assert_eq!(remaining_hold(t(100, 900_000_000), t(101, 100_000_000), 10), Some(t(9, 800_000_000)));
    assert_eq!(remaining_hold(t(100, 0), t(109, 999_999_999), 10), Some(t(0, 1)));
}

#[test]
fn hold_that_is_over_leaves_nothing() {
    assert_eq!(remaining_hold(t(100, 0), t(110, 0), 10), None);
    assert_eq!(remaining_hold(t(100, 0), t(110, 1), 10), None);
    assert_eq!(remaining_hold(t(100, 0), t(5000, 0), 2700), None);
    assert_eq!(remaining_hold(t(100, 0), t(100, 0), 0), None);
}

#[test]
fn clock_before_the_start_leaves_nothing() {
    assert_eq!(remaining_hold(t(100, 0), t(99, 999_999_999), 2700), None);
    assert_eq!(remaining_hold(t(1_565_042_843, 0), t(12, 0), 2700), None);
}

#[test]
fn remaining_hold_at_the_limits() {
    assert_eq!(remaining_hold(t(0, 0), t(0, 0), u64::MAX), Some(t(u64::MAX, 0)));
    assert_eq!(
        remaining_hold(t(u64::MAX, u32::MAX), t(u64::MAX, u32::MAX), 1),
        Some(t(1, 0))
    );
    assert_eq!(remaining_hold(t(0, u32::MAX), t(4, 294_967_295), 1), Some(t(1, 0)));
    assert_eq!(remaining_hold(t(0, u32::MAX), t(5, 0), 1), Some(t(0, 294_967_295)));
}

#[test]
fn fields_are_decimal_numbers() {
    assert_eq!(field("0", u64::MAX), 0);
    assert_eq!(field("7", u64::MAX), 7);
    assert_eq!(field("1565042843", u64::MAX), 1_565_042_843);
    assert_eq!(field("007", u64::MAX), 7);
    assert_eq!(field("+12", u64::MAX), 12);
    assert_eq!(field("18446744073709551615", u64::MAX), u64::MAX);
    assert_eq!(field("4294967295", 0xffff_ffff), 0xffff_ffff);
}

#[test]
fn malformed_fields_count_as_zero() {
    for text in ["", "+", "-1", "12a", "a12", " 12", "12 ", "1.5", "++1", "1+", "١٢"] {
        assert_eq!(field(text, u64::MAX), 0, "{:?}", text);
    }
    assert_eq!(field("18446744073709551616", u64::MAX), 0);
    assert_eq!(field("99999999999999999999999", u64::MAX), 0);
    assert_eq!(field("4294967296", 0xffff_ffff), 0);
    assert_eq!(field("9", 8), 0);
    assert_eq!(field("8", 8), 8);
}

#[test]
fn field_is_read_from_within_a_text() {
    let text = b"ab123cd";
    assert_eq!(parse_field(text, 2, 5, u64::MAX), 123);
    assert_eq!(parse_field(text, 2, 2, u64::MAX), 0);
    assert_eq!(parse_field(text, 1, 5, u64::MAX), 0);
    assert_eq!(parse_field(text, 0, 7, u64::MAX), 0);
}

#[test]
fn decimal_text_is_the_shortest() {
    for (n, text) in [
        (0u64, "0"),
        (9, "9"),
        (10, "10"),
        (1_565_042_843, "1565042843"),
        (u64::MAX, "18446744073709551615"),
    ] {
        let mut out = b"x".to_vec();
        push_decimal(&mut out, n);
        assert_eq!(out, format!("x{}", text).into_bytes());
    }
}

#[test]
fn record_is_seconds_dot_nanoseconds() {
    assert_eq!(parse_start(b"1565042843.123456789"), Some(t(1_565_042_843, 123_456_789)));
    assert_eq!(parse_start(b"1565042843.5"), Some(t(1_565_042_843, 5)));
    assert_eq!(parse_start(b"12.0"), Some(t(12, 0)));
    assert_eq!(parse_start(b"0.7"), Some(t(0, 7)));
    assert_eq!(format_start(t(1_565_042_843, 5)), b"1565042843.5".to_vec());
    assert_eq!(format_start(t(0, 0)), b"0.0".to_vec());
    assert_eq!(format_start(t(u64::MAX, u32::MAX)), b"18446744073709551615.4294967295".to_vec());
}

#[test]
fn record_reads_back() {
    for at in [t(1, 0), t(0, 1), t(1_565_042_843, 999_999_999), t(u64::MAX, u32::MAX), t(10, 10)] {
        assert_eq!(parse_start(&format_start(at)), Some(at));
    }
    assert_eq!(parse_start(&format_start(t(0, 0))), None);
}

#[test]
fn record_without_a_time() {
    for text in ["", "1565042843", ".", "0.0", "abc.def", "0.abc", "x.0", "00.000"] {
        assert_eq!(parse_start(text.as_bytes()), None, "{:?}", text);
    }
}

#[test]
fn damaged_pieces_count_as_zero() {
    assert_eq!(parse_start(b"abc.5"), Some(t(0, 5)));
    assert_eq!(parse_start(b"12.xyz"), Some(t(12, 0)));
    assert_eq!(parse_start(b"12."), Some(t(12, 0)));
    assert_eq!(parse_start(b".12"), Some(t(0, 12)));
    assert_eq!(parse_start(b"12.4294967296"), Some(t(12, 0)));
    assert_eq!(parse_start(b"18446744073709551616.3"), Some(t(0, 3)));
    assert_eq!(parse_start(b"1.2.3"), Some(t(1, 2)));
    assert_eq!(parse_start(b"1..3"), Some(t(1, 0)));
    assert_eq!(parse_start(b"+1.+2"), Some(t(1, 2)));
}

#[test]
fn start_record_from_the_store() {
    assert_eq!(read_start(None), StartRecord::Unset);
    assert_eq!(read_start(Some(b"")), StartRecord::Corrupt);
    assert_eq!(read_start(Some(b"garbage")), StartRecord::Corrupt);
    assert_eq!(read_start(Some(b"0.0")), StartRecord::Corrupt);
    assert_eq!(read_start(Some(b"15.25")), StartRecord::At(t(15, 25)));
}

#[test]
fn whole_seconds() {
    assert_eq!(Time::from_secs(2700), t(2700, 0));
}
