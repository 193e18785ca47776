use chrono::{Duration, TimeZone, Utc};
use usage_segment::numtext::{parse_decimal_centi, render_centi, round_percent, u64_to_string};
use usage_segment::segment::{str_eq_ignore_ascii_case, ResetFormat, ResetPeriod, UsageSegment};
use usage_segment::timefmt::{clock_label_from_fields, format_duration_from};

#[test]
fn reset_period_parses_expected_values() {
    assert!(matches!(
        ResetPeriod::try_from("session"),
        Ok(ResetPeriod::Session)
    ));
    assert!(matches!(
        ResetPeriod::try_from("WEEKLY"),
        Ok(ResetPeriod::Weekly)
    ));
    assert!(ResetPeriod::try_from("invalid").is_err());
}

#[test]
fn reset_format_parses_expected_values() {
    assert!(matches!(
        ResetFormat::try_from("time"),
        Ok(ResetFormat::Time)
    ));
    assert!(matches!(
        ResetFormat::try_from("DURATION"),
        Ok(ResetFormat::Duration)
    ));
    assert!(ResetFormat::try_from("invalid").is_err());
}

#[test]
fn duration_under_one_minute_is_now() {
    let reset_at = (Utc::now() + Duration::seconds(30)).to_rfc3339();
    let display = UsageSegment::format_reset_duration(Some(&reset_at));

    assert_eq!(display, "now");
}

#[test]
fn case_insensitive_compare() {
    assert!(str_eq_ignore_ascii_case("SESSION", "session"));
    assert!(str_eq_ignore_ascii_case("Weekly", "weekly"));
    assert!(str_eq_ignore_ascii_case("", ""));
    assert!(!str_eq_ignore_ascii_case("monthly", "session"));
    assert!(!str_eq_ignore_ascii_case("session ", "session"));
}

#[test]
fn enum_names() {
    assert_eq!(ResetPeriod::Session.as_str(), "session");
    assert_eq!(ResetPeriod::Weekly.as_str(), "weekly");
    assert_eq!(ResetFormat::Time.as_str(), "time");
    assert_eq!(ResetFormat::Duration.as_str(), "duration");
}

#[test]
fn icon_buckets_cover_all_ranges() {
    assert_eq!(UsageSegment::get_circle_icon(0), "\u{f0a9e}");
    assert_eq!(UsageSegment::get_circle_icon(12), "\u{f0a9e}");
    assert_eq!(UsageSegment::get_circle_icon(13), "\u{f0a9f}");
    assert_eq!(UsageSegment::get_circle_icon(25), "\u{f0a9f}");
    assert_eq!(UsageSegment::get_circle_icon(26), "\u{f0aa0}");
    assert_eq!(UsageSegment::get_circle_icon(37), "\u{f0aa0}");
    assert_eq!(UsageSegment::get_circle_icon(38), "\u{f0aa1}");
    assert_eq!(UsageSegment::get_circle_icon(50), "\u{f0aa1}");
    assert_eq!(UsageSegment::get_circle_icon(51), "\u{f0aa2}");
    assert_eq!(UsageSegment::get_circle_icon(62), "\u{f0aa2}");
    assert_eq!(UsageSegment::get_circle_icon(63), "\u{f0aa3}");
    assert_eq!(UsageSegment::get_circle_icon(75), "\u{f0aa3}");
    assert_eq!(UsageSegment::get_circle_icon(76), "\u{f0aa4}");
    assert_eq!(UsageSegment::get_circle_icon(87), "\u{f0aa4}");
    assert_eq!(UsageSegment::get_circle_icon(88), "\u{f0aa5}");
    assert_eq!(UsageSegment::get_circle_icon(100), "\u{f0aa5}");
    assert_eq!(UsageSegment::get_circle_icon(250), "\u{f0aa5}");
}

#[test]
fn icon_never_moves_down() {
    let mut last = UsageSegment::get_circle_icon(0);
    for p in 0..=110u64 {
        let icon = UsageSegment::get_circle_icon(p);
        assert!(icon.chars().next().unwrap() >= last.chars().next().unwrap());
        last = icon;
    }
}

#[test]
fn decimal_rendering() {
    assert_eq!(u64_to_string(0), "0");
    assert_eq!(u64_to_string(7), "7");
    assert_eq!(u64_to_string(10), "10");
    assert_eq!(u64_to_string(305), "305");
    assert_eq!(u64_to_string(u64::MAX), "18446744073709551615");
}

#[test]
fn utilization_parsing() {
    assert_eq!(parse_decimal_centi("42"), Some(4200));
    assert_eq!(parse_decimal_centi("42.0"), Some(4200));
    assert_eq!(parse_decimal_centi("42.5"), Some(4250));
    assert_eq!(parse_decimal_centi("42.55"), Some(4255));
    assert_eq!(parse_decimal_centi("42.559"), Some(4255));
    assert_eq!(parse_decimal_centi("0.05"), Some(5));
    assert_eq!(parse_decimal_centi("42."), Some(4200));
    assert_eq!(parse_decimal_centi("0"), Some(0));
    assert_eq!(parse_decimal_centi(""), None);
    assert_eq!(parse_decimal_centi("."), None);
    assert_eq!(parse_decimal_centi(".5"), None);
    assert_eq!(parse_decimal_centi("abc"), None);
    assert_eq!(parse_decimal_centi("-1"), None);
    assert_eq!(parse_decimal_centi("1e3"), None);
    assert_eq!(parse_decimal_centi("4 2"), None);
    assert_eq!(parse_decimal_centi("1.2.3"), None);
    assert_eq!(parse_decimal_centi("999999999999999999999"), None);
}

#[test]
fn utilization_rendering() {
    assert_eq!(render_centi(4200), "42");
    assert_eq!(render_centi(4250), "42.5");
    assert_eq!(render_centi(4255), "42.55");
    assert_eq!(render_centi(5), "0.05");
    assert_eq!(render_centi(50), "0.5");
    assert_eq!(render_centi(0), "0");
    assert_eq!(render_centi(10000), "100");
}

#[test]
fn utilization_text_round_trip() {
    for c in [0u64, 5, 50, 99, 100, 4200, 4250, 4255, 10000, 25549] {
        assert_eq!(parse_decimal_centi(&render_centi(c)), Some(c));
    }
}

#[test]
fn percent_rounding() {
    assert_eq!(round_percent(4200), 42);
    assert_eq!(round_percent(4249), 42);
    assert_eq!(round_percent(4250), 43);
    assert_eq!(round_percent(0), 0);
    assert_eq!(round_percent(25449), 254);
    assert_eq!(round_percent(25450), 255);
    assert_eq!(round_percent(99999), 255);
}

#[test]
fn countdown_exact_values() {
    let now = 1_000_000i64;
    assert_eq!(format_duration_from(now + 30, now), "now");
    assert_eq!(format_duration_from(now + 59, now), "now");
    assert_eq!(format_duration_from(now + 60, now), "1m");
    assert_eq!(format_duration_from(now + 90 * 60, now), "1h 30m");
    assert_eq!(format_duration_from(now + 50 * 3600, now), "2d 2h");
    assert_eq!(format_duration_from(now + 3 * 86400 + 5 * 3600, now), "3d 5h");
    assert_eq!(format_duration_from(now + 59 * 60, now), "59m");
    assert_eq!(format_duration_from(now - 500, now), "now");
}

#[test]
fn countdown_text_unparsable() {
    assert_eq!(UsageSegment::format_reset_duration(None), "?");
    assert_eq!(UsageSegment::format_reset_duration(Some("garbage")), "?");
}

#[test]
fn clock_label_rounds_past_45_minutes() {
    assert_eq!(clock_label_from_fields(10, 21, 17, 50, 10, 21, 18), "10-21-18");
    assert_eq!(clock_label_from_fields(10, 21, 17, 45, 10, 21, 18), "10-21-17");
    assert_eq!(clock_label_from_fields(12, 31, 23, 46, 1, 1, 0), "1-1-0");
}

#[test]
fn reset_time_uses_next_hour_past_45_minutes() {
    let local = chrono::Local.with_ymd_and_hms(2024, 5, 10, 12, 50, 0).unwrap();
    let text = local.to_rfc3339();
    assert_eq!(UsageSegment::format_reset_time(Some(&text)), "5-10-13");

    let earlier = chrono::Local.with_ymd_and_hms(2024, 5, 10, 12, 40, 0).unwrap();
    let text = earlier.to_rfc3339();
    assert_eq!(UsageSegment::format_reset_time(Some(&text)), "5-10-12");
}

#[test]
fn reset_time_unparsable() {
    assert_eq!(UsageSegment::format_reset_time(None), "?");
    assert_eq!(UsageSegment::format_reset_time(Some("not a time")), "?");
}
