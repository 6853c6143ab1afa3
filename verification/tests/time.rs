use miku_ui::time::{
    days_from_civil, format_duration, human_age_from_rfc3339, human_duration_seconds, parse_date,
    parse_rfc3339_utc_seconds, parse_utc_time, rfc3339_utc_seconds_checked,
};

#[test]
fn rfc3339_timestamps_become_unix_seconds() {
    assert_eq!(parse_rfc3339_utc_seconds("2026-05-18T10:00:00Z"), Some(1_779_098_400));
    assert_eq!(parse_rfc3339_utc_seconds("1970-01-01T00:00:00Z"), Some(0));
    assert_eq!(parse_rfc3339_utc_seconds("  2026-05-18T10:00:00.750Z  "), Some(1_779_098_400));
    assert_eq!(parse_rfc3339_utc_seconds("1969-12-31T23:59:59Z"), Some(-1));
}

#[test]
fn leap_seconds_count_as_the_last_second() {
    assert_eq!(
        parse_rfc3339_utc_seconds("2016-12-31T23:59:60Z"),
        parse_rfc3339_utc_seconds("2016-12-31T23:59:59Z")
    );
}

#[test]
fn malformed_timestamps_do_not_parse() {
    assert_eq!(parse_rfc3339_utc_seconds("2026-05-18 10:00:00Z"), None);
    assert_eq!(parse_rfc3339_utc_seconds("2026-05-18T10:00:00"), None);
    assert_eq!(parse_rfc3339_utc_seconds("2026-13-18T10:00:00Z"), None);
    assert_eq!(parse_rfc3339_utc_seconds("2026-05-32T10:00:00Z"), None);
    assert_eq!(parse_rfc3339_utc_seconds("2026-05-18T24:00:00Z"), None);
    assert_eq!(parse_rfc3339_utc_seconds("2026-05-18T10:60:00Z"), None);
    assert_eq!(parse_rfc3339_utc_seconds("2026-05-18T10:00:61Z"), None);
    assert_eq!(parse_rfc3339_utc_seconds("2026-05-18-01T10:00:00Z"), None);
    assert_eq!(parse_rfc3339_utc_seconds("2026-05-18T10:00:00:00Z"), None);
    assert_eq!(parse_rfc3339_utc_seconds("yesterday"), None);
    assert_eq!(rfc3339_utc_seconds_checked(""), None);
}

#[test]
fn dates_and_times_split_into_fields() {
    assert_eq!(parse_date("2026-05-18"), Some((2026, 5, 18)));
    assert_eq!(parse_date("2026-02-31"), Some((2026, 2, 31)));
    assert_eq!(parse_date("2026-00-10"), None);
    assert_eq!(parse_date("2026-05"), None);
    assert_eq!(parse_utc_time("10:04:05Z"), Some((10, 4, 5)));
    assert_eq!(parse_utc_time("10:04:05.999Z"), Some((10, 4, 5)));
    assert_eq!(parse_utc_time("23:59:60Z"), Some((23, 59, 59)));
    assert_eq!(parse_utc_time("10:04:05"), None);
    assert_eq!(parse_utc_time("10:04Z"), None);
}

#[test]
fn civil_days_count_from_the_epoch() {
    assert_eq!(days_from_civil(1970, 1, 1), 0);
    assert_eq!(days_from_civil(2000, 3, 1), 11_017);
    assert_eq!(days_from_civil(1969, 12, 31), -1);
    assert_eq!(days_from_civil(2024, 2, 29), 19_782);
    assert_eq!(days_from_civil(1600, 1, 1), -135_140);
}

#[test]
fn durations_use_their_largest_whole_unit() {
    assert_eq!(human_duration_seconds(0), "0 seconds");
    assert_eq!(human_duration_seconds(1), "1 second");
    assert_eq!(human_duration_seconds(59), "59 seconds");
    assert_eq!(human_duration_seconds(60), "1 minute");
    assert_eq!(human_duration_seconds(3_599), "59 minutes");
    assert_eq!(human_duration_seconds(3_600), "1 hour");
    assert_eq!(human_duration_seconds(86_399), "23 hours");
    assert_eq!(human_duration_seconds(86_400), "1 day");
    assert_eq!(human_duration_seconds(10 * 86_400 + 5), "10 days");
    assert_eq!(human_duration_seconds(-5), "0 days");
    assert_eq!(format_duration(1, "day"), "1 day");
    assert_eq!(format_duration(-2, "hour"), "-2 hours");
}

#[test]
fn ages_are_measured_from_now() {
    let start: i64 = 1_779_098_400;
    assert_eq!(human_age_from_rfc3339("2026-05-18T10:00:00Z", start + 7_200).as_deref(), Some("2 hours ago"));
    assert_eq!(human_age_from_rfc3339("2026-05-18T10:00:00Z", start - 30).as_deref(), Some("0 seconds ago"));
    assert_eq!(human_age_from_rfc3339("not a time", start), None);
}

#[test]
fn next_calendar_day_is_one_day_later() {
    assert_eq!(days_from_civil(1970, 1, 1), 0);
    assert_eq!(days_from_civil(1969, 12, 31), -1);
    assert_eq!(days_from_civil(2024, 2, 29) + 1, days_from_civil(2024, 3, 1));
    assert_eq!(days_from_civil(2023, 2, 28) + 1, days_from_civil(2023, 3, 1));
    assert_eq!(days_from_civil(2000, 2, 29) + 1, days_from_civil(2000, 3, 1));
    assert_eq!(days_from_civil(1900, 2, 28) + 1, days_from_civil(1900, 3, 1));
    assert_eq!(days_from_civil(2025, 12, 31) + 1, days_from_civil(2026, 1, 1));
    assert_eq!(days_from_civil(2025, 4, 30) + 1, days_from_civil(2025, 5, 1));
    assert_eq!(days_from_civil(-1, 2, 28) + 1, days_from_civil(-1, 3, 1));
    assert_eq!(days_from_civil(0, 2, 29) + 1, days_from_civil(0, 3, 1));
    assert_eq!(days_from_civil(-4, 2, 29) + 1, days_from_civil(-4, 3, 1));
}
