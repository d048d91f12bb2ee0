use poolcar::chart::{
    chart_error_reply, chart_reply, chart_step, take_history, take_latest, ChartAction, ChartError,
    ChartEvent, ChartHistoryPayload, ChartPayload, LatestRead,
};
use poolcar::error::MqttError;
use poolcar::time::Stamp;
use poolcar::auth::AuthenticatedUser;
use poolcar::dashboard::{
    count_or_zero, dashboard_error, dashboard_page, format_activities, format_activity,
    payload_index, ActivityKind, ActivityRow, DashboardCounts, LiveParts,
};
use poolcar::models::{PayloadConnection, PayloadDateTime, PayloadNetwork, PayloadSatellites, PayloadStats};
use poolcar::tracking::{
    all_within, audit_round_entries, audit_row_ids, first_within, hardware_test_columns, history_key, last_audit_key,
    last_occurrences, live_key, live_report_key, reported_position, should_audit, take_report,
    LastPlace, LiveRead,
    ReportCounters, ReportFetch,
};

fn at(secs: i64) -> Stamp {
    Stamp { secs, nanos: 0 }
}

fn row(finished: bool, created_at: i64, contact: Option<&str>, kind: ActivityKind) -> ActivityRow {
    ActivityRow { finished, created_at: at(created_at), contact_name: contact.map(|c| c.to_string()), kind }
}

#[test]
fn activity_labels() {
    assert_eq!(ActivityKind::Delivery.label(), "Delivery");
    assert_eq!(ActivityKind::Meeting.label(), "Meeting");
    assert_eq!(ActivityKind::TrialT1.label(), "Trial T1");
}

#[test]
fn activities_in_words() {
    let f = format_activity(row(false, 1000, Some("PT Maju"), ActivityKind::TrialT1), at(1000 + 7200));
    assert!(f.is_active);
    assert_eq!(f.time_ago, "2 hours ago");
    assert_eq!(f.contact_name, "PT Maju");
    assert_eq!(f.activity_type, "Trial T1");
    let f = format_activity(row(true, 5000, None, ActivityKind::Delivery), at(4000));
    assert!(!f.is_active);
    assert_eq!(f.time_ago, "Just now");
    assert_eq!(f.contact_name, "Unknown Contact");
}

#[test]
fn activity_list_keeps_its_order() {
    let rows = vec![
        row(false, 0, Some("A"), ActivityKind::Meeting),
        row(true, 0, Some("B"), ActivityKind::Delivery),
        row(false, 0, None, ActivityKind::TrialT1),
    ];
    let list = format_activities(rows, at(86400 * 3));
    let names: Vec<&str> = list.iter().map(|f| f.contact_name.as_str()).collect();
    assert_eq!(names, vec!["A", "B", "Unknown Contact"]);
    assert!(list.iter().all(|f| f.time_ago == "3 days ago"));
    assert!(format_activities(vec![], at(0)).is_empty());
}

fn s(v: &str) -> Option<String> {
    Some(v.to_string())
}

#[test]
fn the_first_dashboard_error_is_shown() {
    assert_eq!(dashboard_error(s("db"), s("r"), s("t"), s("k")).as_deref(), Some("db"));
    assert_eq!(dashboard_error(None, s("refused"), None, None).as_deref(), Some("Redis connection failed: refused"));
    assert_eq!(dashboard_error(None, None, s("x"), s("y")).as_deref(), Some("Failed to get active trips: x"));
    assert_eq!(dashboard_error(None, None, None, s("y")).as_deref(), Some("Failed to get trackers: y"));
    assert_eq!(dashboard_error(None, None, None, None), None);
}

#[test]
fn payload_lookup_by_tracker() {
    let ids = vec![4u32, 7, 4];
    assert_eq!(payload_index(&ids, 4), Some(0));
    assert_eq!(payload_index(&ids, 7), Some(1));
    assert_eq!(payload_index(&ids, 5), None);
    assert_eq!(payload_index(&vec![u32::MAX], -1), Some(0));
}

#[test]
fn tracker_keys() {
    assert_eq!(live_key(12), "tracker:12:live");
    assert_eq!(history_key(3), "tracker:3:history");
    assert_eq!(last_audit_key(-1), "tracker:-1:last_audit_location");
}

#[test]
fn different_trackers_have_different_keys() {
    let keys: Vec<String> = [1i64, 11, 111, -1, -11, 0].iter().map(|&i| live_key(i)).collect();
    for i in 0..keys.len() {
        for j in 0..keys.len() {
            assert_eq!(i == j, keys[i] == keys[j]);
        }
    }
}

#[test]
fn reports_without_a_valid_position_stop() {
    assert_eq!(live_report_key(9, true), Ok("tracker:9:live".to_string()));
    assert_eq!(live_report_key(9, false), Err("Location is not valid.".to_string()));
}

#[test]
fn a_report_finishes_at_most_the_first_trip_in_reach() {
    assert_eq!(first_within(&vec![false, true, true]), Some(1));
    assert_eq!(first_within(&vec![true]), Some(0));
    assert_eq!(first_within(&vec![false, false]), None);
    assert_eq!(first_within(&vec![]), None);
}

#[test]
fn hardware_test_row_columns() {
    let r = ReportCounters {
        id: 3_000_000_000,
        uptime: 10,
        connection: PayloadConnection { interval: 1, retries: 2, sequence_id: 3, iteration_id: 4 },
        network: PayloadNetwork { rssi: Some(20), lac: s("lac"), ci: None },
        location_age: Some(5),
        location_valid: true,
        altitude_age: None,
        altitude_valid: false,
        speed_age: Some(1),
        speed_valid: true,
        course_age: None,
        course_valid: false,
        datetime: PayloadDateTime {
            iso8601: s("2024-03-05T08:30:00Z"),
            year: Some(2024),
            month: Some(3),
            day: Some(5),
            hour: Some(8),
            minute: None,
            second: Some(0),
            centisecond: Some(12),
            age: Some(3),
            valid: true,
        },
        satellites: PayloadSatellites { visible: Some(9), used: Some(7), carrier_to_noise: None, age: Some(2), valid: true },
        dop_age: Some(6),
        dop_valid: false,
        stats: PayloadStats { chars_processed: Some(100), sentences_with_fix: Some(5), failed_checksum: None, passed_checksum: Some(9) },
    };
    let c = hardware_test_columns(r);
    assert_eq!(c.tracker_id, 3_000_000_000u32 as i32);
    assert_eq!((c.uptime, c.connection_interval, c.connection_retries), (10, 1, 2));
    assert_eq!((c.connection_sequence_id, c.connection_iteration_id), (3, 4));
    assert_eq!((c.network_rssi, c.network_lac.as_deref(), c.network_ci.as_deref()), (Some(20), Some("lac"), None));
    assert_eq!((c.location_age, c.location_valid, c.altitude_valid, c.speed_valid), (Some(5), 1, 0, 1));
    assert_eq!((c.course_valid, c.datetime_valid, c.satellites_valid, c.dop_valid), (0, 1, 1, 0));
    assert_eq!((c.datetime_month, c.datetime_day, c.datetime_hour, c.datetime_minute), (Some(3), Some(5), Some(8), None));
    assert_eq!((c.datetime_second, c.datetime_centisecond, c.datetime_age, c.datetime_year), (Some(0), Some(12), Some(3), Some(2024)));
    assert_eq!((c.satellites_visible, c.satellites_used, c.satellites_carrier_to_noise), (Some(9), Some(7), None));
    assert_eq!((c.stats_chars_processed, c.stats_failed_checksum, c.stats_passed_checksum), (Some(100), None, Some(9)));
    assert_eq!(c.datetime_iso8601.as_deref(), Some("2024-03-05T08:30:00Z"));
}

#[test]
fn chart_failures_say_which_step() {
    assert_eq!(ChartError::TrackerIds("x".to_string()).message(), "Failed to fetch tracker IDs: x");
    assert_eq!(ChartError::StoreConnection("y".to_string()).message(), "Failed to get Redis connection: y");
    assert_eq!(ChartError::History("z".to_string()).message(), "Failed to get tracker history from Redis: z");
    assert_eq!(ChartError::Parse("w".to_string()).message(), "Failed to parse tracker payload: w");
}

#[test]
fn chart_socket_steps() {
    assert!(matches!(chart_step(ChartEvent::Text), ChartAction::SendChartData));
    assert!(matches!(chart_step(ChartEvent::Ping(vec![1, 2])), ChartAction::Pong(d) if d == vec![1, 2]));
    assert!(matches!(chart_step(ChartEvent::Other), ChartAction::Wait));
    assert!(matches!(chart_step(ChartEvent::Close), ChartAction::Stop));
    assert!(matches!(chart_step(ChartEvent::Failed), ChartAction::Stop));
    assert!(matches!(chart_step(ChartEvent::Ended), ChartAction::Stop));
}

#[test]
fn chart_replies() {
    let r = chart_reply(Ok(s("[]")));
    assert_eq!(r.text.as_deref(), Some("[]"));
    assert!(r.stop_if_unsent);
    let r = chart_reply(Ok(None));
    assert!(r.text.is_none() && !r.stop_if_unsent);
    let r = chart_reply(Err("Failed to get Redis connection: \"down\"".to_string()));
    assert_eq!(r.text.as_deref(), Some("{\"error\":\"Failed to get Redis connection: \\\"down\\\"\"}"));
    assert!(!r.stop_if_unsent);
    assert_eq!(chart_error_reply("a\nb"), "{\"error\":\"a\\nb\"}");
}

#[test]
fn audit_rounds_leave_out_malformed_reports() {
    let reads = vec![LiveRead::Report, LiveRead::Malformed, LiveRead::Absent, LiveRead::Unreadable, LiveRead::Report];
    assert_eq!(audit_round_entries(&reads), vec![(0, true), (2, false), (3, false), (4, true)]);
    assert!(audit_round_entries(&vec![]).is_empty());
}

#[test]
fn audits_skip_trackers_that_stayed_put() {
    assert!(should_audit(true, LastPlace::Unknown));
    assert!(should_audit(true, LastPlace::Far));
    assert!(!should_audit(true, LastPlace::Near));
    assert!(!should_audit(false, LastPlace::Far));
    assert!(!should_audit(false, LastPlace::Unknown));
}

#[test]
fn later_entries_replace_earlier_ones() {
    assert_eq!(last_occurrences(&vec![3, 5, 3, 7, 5]), vec![(3, 2), (7, 3), (5, 4)]);
    assert_eq!(last_occurrences(&vec![1, 1, 1]), vec![(1, 2)]);
    assert!(last_occurrences(&vec![]).is_empty());
}

#[test]
fn pages_take_reports_in_order() {
    let mut shown: Vec<u32> = vec![];
    assert_eq!(take_report(&mut shown, ReportFetch::Parsed(4), true), None);
    assert_eq!(take_report(&mut shown, ReportFetch::Missing, true), None);
    assert_eq!(take_report(&mut shown, ReportFetch::Unparsable, true), None);
    assert_eq!(take_report(&mut shown, ReportFetch::Parsed(9), true), None);
    assert_eq!(shown, vec![4, 9]);
    assert_eq!(take_report(&mut shown, ReportFetch::Failed("down".into()), false), None);
    assert_eq!(take_report(&mut shown, ReportFetch::Failed("down".into()), true), Some("down".to_string()));
    assert_eq!(shown, vec![4, 9]);
}

#[test]
fn reports_need_both_coordinates() {
    assert!(reported_position(true, true).is_ok());
    assert!(matches!(reported_position(true, false), Err(MqttError::InvalidLocation)));
    assert!(matches!(reported_position(false, true), Err(MqttError::InvalidLocation)));
    assert!(matches!(reported_position(false, false), Err(MqttError::InvalidLocation)));
}

#[test]
fn latest_chart_entries() {
    let mut g: Vec<ChartPayload<u8>> = vec![];
    assert!(take_latest(&mut g, 1, LatestRead::Parsed(7)).is_none());
    assert!(take_latest(&mut g, 2, LatestRead::Empty).is_none());
    assert!(take_latest(&mut g, 3, LatestRead::Unparsable).is_none());
    let got: Vec<(i32, Option<u8>)> = g.iter().map(|p| (p.tracker_id, p.payload)).collect();
    assert_eq!(got, vec![(1, Some(7)), (2, None), (3, None)]);
    let e = take_latest(&mut g, 4, LatestRead::Failed("down".into())).unwrap();
    assert_eq!(e.message(), "Failed to get tracker history from Redis: down");
    assert_eq!(g.len(), 3);
}

#[test]
fn chart_histories() {
    let mut g: Vec<ChartHistoryPayload<u8>> = vec![];
    assert!(take_history(&mut g, 1, Ok(vec![Ok(1), Ok(2)])).is_none());
    assert!(take_history(&mut g, 2, Ok(vec![])).is_none());
    assert_eq!(g.len(), 2);
    assert_eq!((g[0].tracker_id, g[0].payload.clone()), (1, vec![1, 2]));
    assert_eq!((g[1].tracker_id, g[1].payload.len()), (2, 0));
    let e = take_history(&mut g, 3, Ok(vec![Ok(1), Err("bad json".into()), Err("worse".into())])).unwrap();
    assert_eq!(e.message(), "Failed to parse tracker payload: bad json");
    let e = take_history(&mut g, 4, Err("timeout".into())).unwrap();
    assert_eq!(e.message(), "Failed to get tracker history from Redis: timeout");
    assert_eq!(g.len(), 2);
}

#[test]
fn activity_ages_count_whole_seconds_toward_zero() {
    let a = ActivityRow {
        finished: false,
        created_at: Stamp { secs: 1000, nanos: 500_000_000 },
        contact_name: None,
        kind: ActivityKind::Meeting,
    };
    let now = Stamp { secs: 1060, nanos: 400_000_000 };
    assert_eq!(format_activity(a, now).time_ago, "Just now");
    let a = ActivityRow {
        finished: false,
        created_at: Stamp { secs: 1000, nanos: 500_000_000 },
        contact_name: None,
        kind: ActivityKind::Meeting,
    };
    assert_eq!(format_activity(a, Stamp { secs: 1060, nanos: 500_000_000 }).time_ago, "1 min ago");
}

#[test]
fn failed_counts_show_zero() {
    assert_eq!(count_or_zero(Ok(7)), 7);
    assert_eq!(count_or_zero(Err("db".to_string())), 0);
}

fn counts() -> DashboardCounts {
    DashboardCounts {
        active_activities_today: 1,
        all_activities_today: 2,
        assigned_cars: 3,
        all_cars: 4,
        total_trackers: 5,
        car_checks_today: 6,
    }
}

fn sari() -> AuthenticatedUser {
    AuthenticatedUser { username: "sari".into(), role: "Admin".into(), token: "t".into() }
}

#[test]
fn dashboard_with_everything_fetched() {
    let live: LiveParts<u8, u16, u32> = LiveParts { trips: Ok(vec![9]), trackers: Ok(vec![1, 2]), payloads: vec![10] };
    let t = dashboard_page(&sari(), counts(), Ok(vec![]), Ok(live));
    assert_eq!((t.username.as_str(), t.role.as_str()), ("sari", "Admin"));
    assert_eq!((t.active_activities_today, t.all_cars, t.car_checks_today), (1, 4, 6));
    assert_eq!((t.trackers, t.tracker_payloads, t.active_trips), (vec![1, 2], vec![10], vec![9]));
    assert!(t.error.is_none());
}

#[test]
fn dashboard_when_steps_fail() {
    let t = dashboard_page::<u8, u16, u32>(&sari(), counts(), Err("db".into()), Err("refused".into()));
    assert_eq!(t.error.as_deref(), Some("db"));
    assert!(t.trackers.is_empty() && t.tracker_payloads.is_empty() && t.active_trips.is_empty());
    assert!(t.activities.is_empty());
    let t = dashboard_page::<u8, u16, u32>(&sari(), counts(), Ok(vec![]), Err("refused".into()));
    assert_eq!(t.error.as_deref(), Some("Redis connection failed: refused"));
    let live: LiveParts<u8, u16, u32> = LiveParts { trips: Err("x".into()), trackers: Err("y".into()), payloads: vec![3] };
    let t = dashboard_page(&sari(), counts(), Ok(vec![]), Ok(live));
    assert_eq!(t.error.as_deref(), Some("Failed to get active trips: x"));
    assert!(t.trackers.is_empty() && t.tracker_payloads.is_empty() && t.active_trips.is_empty());
    let live: LiveParts<u8, u16, u32> = LiveParts { trips: Ok(vec![4]), trackers: Err("y".into()), payloads: vec![] };
    let t = dashboard_page(&sari(), counts(), Ok(vec![]), Ok(live));
    assert_eq!(t.error.as_deref(), Some("Failed to get trackers: y"));
    assert_eq!(t.active_trips, vec![4]);
}

#[test]
fn audit_rows_pass_the_car_through_a_byte() {
    let r = audit_row_ids(Some(7), 3);
    assert_eq!((r.car_id, r.tracker_id), (Some(7), 3));
    let r = audit_row_ids(Some(300), 255);
    assert_eq!((r.car_id, r.tracker_id), (Some(44), 255));
    assert_eq!(audit_row_ids(None, 1).car_id, None);
}

#[test]
fn a_report_picks_every_activity_in_reach() {
    assert_eq!(all_within(&vec![false, true, true, false, true]), vec![1, 2, 4]);
    assert!(all_within(&vec![false, false]).is_empty());
    assert!(all_within(&vec![]).is_empty());
}

#[test]
fn chart_error_replies_escape_like_serde_json() {
    for m in ["plain", "quote \" and \\ back", "tab\tline\nret\rff\u{c}bs\u{8}", "ctl\u{1}\u{1f}", "ünï \u{7f}"] {
        let expected = format!("{{\"error\":{}}}", serde_json::to_string(m).unwrap());
        assert_eq!(chart_error_reply(m), expected);
    }
    assert_eq!(chart_error_reply("\u{1}"), "{\"error\":\"\\u0001\"}");
    assert_eq!(chart_error_reply("\u{1b}"), "{\"error\":\"\\u001b\"}");
}
