use ice::text::{decimal_text, signed_decimal_text, two_digit_text, zero_padded_text};
use ice::time::{local_time, DayPart, DisplayMode, Time};

#[test]
fn day_parts_cover_the_day() {
    for hour in 0u32..24 {
        let expected = if (9..20).contains(&hour) {
            DayPart::Day
        } else if (6..9).contains(&hour) {
            DayPart::Evening
        } else {
            DayPart::Night
        };
        assert_eq!(DayPart::classify(hour), expected);
        assert_eq!(DayPart::classify(hour), DayPart::classify(hour));
    }
}

#[test]
fn day_part_uses_local_hour() {
    // 05:30 UTC is 10:30 five hours east and 22:30 seven hours west.
    let ts = 19_800i64;
    assert_eq!(DayPart::at(ts, 5 * 3600), Some(DayPart::Day));
    assert_eq!(DayPart::at(ts, -7 * 3600), Some(DayPart::Night));
    assert_eq!(DayPart::at(ts, 86_400), None);
}

#[test]
fn local_time_fields() {
    // 1971-01-01 05:01:01 UTC, three hours east.
    let t = local_time(365 * 86_400 + 5 * 3600 + 61, 3 * 3600).unwrap();
    assert_eq!((t.year, t.month, t.day, t.hour, t.minute, t.second), (1971, 1, 1, 8, 1, 1));
    let before_epoch = local_time(-1, 0).unwrap();
    assert_eq!((before_epoch.year, before_epoch.month, before_epoch.day), (1969, 12, 31));
    assert_eq!((before_epoch.hour, before_epoch.minute, before_epoch.second), (23, 59, 59));
    assert!(local_time(0, -86_400).is_none());
    assert!(local_time(i64::MAX, 0).is_none());
}

#[test]
fn clock_formats() {
    let t = local_time(1_700_000_000, 3 * 3600).unwrap(); // 2023-11-14 22:13:20 UTC
    assert_eq!(Time::new(t).to_string(), "01:13");
    assert_eq!(Time::new(t).set_display_mode(DisplayMode::TimeWithSeconds).to_string(), "1:13:20");
    assert_eq!(Time::new(t).set_display_mode(DisplayMode::TimeDate).to_string(), "15.11.2023 1:13");
    assert_eq!(
        Time::new(t).set_display_mode(DisplayMode::TimeWithSecondsDate).to_string(),
        "15.11.2023 1:13:20"
    );
    assert_eq!(DisplayMode::default(), DisplayMode::TimeDefault);
}

#[test]
fn decimal_rendering() {
    assert_eq!(decimal_text(0), "0");
    assert_eq!(decimal_text(907), "907");
    assert_eq!(decimal_text(u64::MAX), "18446744073709551615");
    assert_eq!(signed_decimal_text(-42), "-42");
    assert_eq!(signed_decimal_text(i64::MIN), "-9223372036854775808");
    assert_eq!(two_digit_text(7), "07");
    assert_eq!(two_digit_text(123), "123");
    assert_eq!(zero_padded_text(42, 6), "000042");
    assert_eq!(zero_padded_text(1234567, 6), "1234567");
}
