use poolcar::time::{
    format_relative_time, stamp_text, wib_clock_text, wib_date_bounds, wib_datetime_text,
    wib_day_window, Stamp,
};

#[test]
fn wib_day_of_the_epoch() {
    assert_eq!(wib_day_window(0), (-25200, 61199));
}

#[test]
fn wib_day_holds_now() {
    for now in [1_700_000_000i64, -1, 61199, 61200, -25200, -25201, 1_709_627_400] {
        let (start, end) = wib_day_window(now);
        assert!(start <= now && now <= end);
        assert_eq!(end - start, 86399);
        assert_eq!((start + 25200).rem_euclid(86400), 0);
    }
    assert_eq!(wib_day_window(1_700_000_000), (1_699_981_200, 1_700_067_599));
}

#[test]
fn wib_date_bounds_of_a_date() {
    assert_eq!(wib_date_bounds("2024-01-15"), Some((1_705_251_600, 1_705_337_999)));
    assert_eq!(wib_date_bounds("2024-13-01"), None);
    assert_eq!(wib_date_bounds("15/01/2024"), None);
    assert_eq!(wib_date_bounds(""), None);
}

#[test]
fn todays_date_gives_todays_window() {
    let now = 1_700_000_000i64;
    // 2023-11-14 22:13:20 UTC is 2023-11-15 05:13:20 in WIB.
    assert_eq!(wib_date_bounds("2023-11-15"), Some(wib_day_window(now)));
}

#[test]
fn wib_readings() {
    assert_eq!(wib_datetime_text(0).as_deref(), Some("1970-01-01 07:00:00"));
    assert_eq!(wib_clock_text(0).as_deref(), Some("07:00:00"));
    assert_eq!(wib_datetime_text(1_709_627_400).as_deref(), Some("2024-03-05 15:30:00"));
    assert_eq!(wib_datetime_text(i64::MAX), None);
    assert_eq!(wib_clock_text(i64::MAX - 100), None);
}

#[test]
fn stamps_display_like_chrono() {
    assert_eq!(stamp_text(Stamp { secs: 0, nanos: 0 }).as_deref(), Some("1970-01-01 00:00:00"));
    assert_eq!(
        stamp_text(Stamp { secs: 1_709_627_400, nanos: 500_000_000 }).as_deref(),
        Some("2024-03-05 08:30:00.500")
    );
    assert_eq!(stamp_text(Stamp { secs: i64::MAX, nanos: 0 }), None);
}

#[test]
fn relative_times() {
    assert_eq!(format_relative_time(-5), "Just now");
    assert_eq!(format_relative_time(0), "Just now");
    assert_eq!(format_relative_time(59), "Just now");
    assert_eq!(format_relative_time(60), "1 min ago");
    assert_eq!(format_relative_time(119), "1 min ago");
    assert_eq!(format_relative_time(120), "2 mins ago");
    assert_eq!(format_relative_time(3599), "59 mins ago");
    assert_eq!(format_relative_time(3600), "1 hour ago");
    assert_eq!(format_relative_time(7200), "2 hours ago");
    assert_eq!(format_relative_time(86399), "23 hours ago");
    assert_eq!(format_relative_time(86400), "1 day ago");
    assert_eq!(format_relative_time(172800), "2 days ago");
    assert_eq!(format_relative_time(i64::MAX), format!("{} days ago", i64::MAX / 86400));
}
