use poolcar::auth::AuthenticatedUser;
use poolcar::csv_export::AuditRecord;
use poolcar::models::page_window;
use poolcar::pages::{
    admin_page_guard, audit_export_query, audit_page_query, audit_page_shown, audit_page_unlisted,
    audit_page_unqueried, available_trackers, car_kind_from_form, car_values, cars_page,
    contact_kind_from_form, contacts_page, format_audit_record, history_after_store, history_page,
    invalid_recorded_at, monitoring_page_guard, status_kind_from_form, status_not_found,
    status_values, trackers_page, AuditTarget, CarForm, CarKind, CarRecord, CarStatusForm,
    ContactKind, CsvResponse, PageError, StatusKind, TrackerRecord,
};

fn user(role: &str) -> AuthenticatedUser {
    AuthenticatedUser { username: "sari".to_string(), role: role.to_string(), token: "t".to_string() }
}

#[test]
fn administration_pages_are_for_admins() {
    assert!(admin_page_guard(&user("Admin")).is_ok());
    assert_eq!(admin_page_guard(&user("Security")), Err(PageError::Forbidden));
    assert_eq!(admin_page_guard(&user("Employee")), Err(PageError::Forbidden));
    assert_eq!(PageError::Forbidden.status(), 403);
    assert_eq!(PageError::InternalServerError.status(), 500);
}

#[test]
fn monitoring_pages_are_closed_to_security() {
    assert!(monitoring_page_guard(&user("Admin")).is_ok());
    assert!(monitoring_page_guard(&user("Employee")).is_ok());
    assert_eq!(monitoring_page_guard(&user("Security")), Err(PageError::Forbidden));
}

#[test]
fn form_choices() {
    assert_eq!(car_kind_from_form("Delivery"), CarKind::Delivery);
    assert_eq!(car_kind_from_form("Passenger"), CarKind::Passenger);
    assert_eq!(car_kind_from_form("delivery"), CarKind::Passenger);
    assert_eq!(contact_kind_from_form("Supplier"), ContactKind::Supplier);
    assert_eq!(contact_kind_from_form("anything"), ContactKind::Consumer);
    assert_eq!(status_kind_from_form("Departure"), StatusKind::Departure);
    assert_eq!(status_kind_from_form("Return"), StatusKind::Return);
    assert_eq!(status_kind_from_form(""), StatusKind::Return);
}

#[test]
fn car_form_values() {
    let form = CarForm {
        name: "Hiace".to_string(),
        police_number: "B 9 X".to_string(),
        car_type: "Delivery".to_string(),
        tracker_id: Some(4),
    };
    let v = car_values(&form, 1_700_000_000);
    assert_eq!(v.name, "Hiace");
    assert_eq!(v.police_number, "B 9 X");
    assert_eq!(v.active, 1);
    assert_eq!(v.car_type, CarKind::Delivery);
    assert_eq!(v.tracker_id, Some(4));
    assert_eq!(v.stamped_at, 1_700_000_000);
}

fn tracker(id: i32) -> TrackerRecord {
    TrackerRecord { tracker_id: id, name: format!("GPS {}", id), created_at: 0, updated_at: 0, deleted_at: None }
}

fn car_with(id: i32, tracker_id: Option<i32>) -> CarRecord {
    CarRecord {
        car_id: id,
        name: format!("Car {}", id),
        police_number: "B 1".to_string(),
        active: 1,
        car_type: CarKind::Passenger,
        tracker_id,
        created_at: 0,
        updated_at: 0,
        deleted_at: None,
    }
}

fn ids(ts: &[TrackerRecord]) -> Vec<i32> {
    ts.iter().map(|t| t.tracker_id).collect()
}

#[test]
fn free_trackers_are_offered() {
    let cars = vec![car_with(1, Some(2)), car_with(2, None), car_with(3, Some(4))];
    let trackers = vec![tracker(1), tracker(2), tracker(3), tracker(4), tracker(5)];
    assert_eq!(ids(&available_trackers(&cars, &None, &trackers)), vec![1, 3, 5]);
}

#[test]
fn the_edited_cars_tracker_stays_offered() {
    let cars = vec![car_with(1, Some(2)), car_with(3, Some(4))];
    let trackers = vec![tracker(1), tracker(2), tracker(3), tracker(4)];
    let editing = Some(car_with(3, Some(4)));
    assert_eq!(ids(&available_trackers(&cars, &editing, &trackers)), vec![1, 3, 4]);
    let editing_bare = Some(car_with(9, None));
    assert_eq!(ids(&available_trackers(&cars, &editing_bare, &trackers)), vec![1, 3]);
}

#[test]
fn list_pages_carry_the_window() {
    let w = page_window(Some(9), 3);
    let t = trackers_page(&user("Admin"), vec![], Some(tracker(2)), w);
    assert_eq!((t.current_page, t.total_pages), (3, 3));
    assert_eq!(t.pages, vec![1, 2, 3]);
    assert_eq!(t.username, "sari");
    assert_eq!(t.editing_tracker.map(|x| x.tracker_id), Some(2));
    let c = contacts_page(&user("Admin"), vec![], None, page_window(None, 0));
    assert_eq!((c.current_page, c.total_pages), (1, 1));
    assert_eq!(c.pages, vec![1]);
    let h = history_page(&user("Admin"), vec![], vec![car_with(1, None)], None, page_window(Some(2), 4), Some("oops".to_string()));
    assert_eq!((h.current_page, h.total_pages, h.cars.len()), (2, 4, 1));
    assert_eq!(h.error.as_deref(), Some("oops"));
    let cp = cars_page(&user("Admin"), vec![], vec![tracker(1)], None);
    assert_eq!(cp.available_trackers.len(), 1);
    assert_eq!(cp.role, "Admin");
}

#[test]
fn history_form_messages() {
    let v = invalid_recorded_at(Some(3), Some(2));
    assert_eq!((v.edit, v.page), (Some(3), Some(2)));
    assert_eq!(v.error.as_deref(), Some("Invalid Recorded At date/time format."));
    let v = status_not_found(42, None);
    assert_eq!(v.edit, Some(42));
    assert_eq!(v.error.as_deref(), Some("Status record with ID 42 not found."));
    let v = status_not_found(-7, Some(1));
    assert_eq!(v.error.as_deref(), Some("Status record with ID -7 not found."));
}

#[test]
fn history_after_a_store() {
    let v = history_after_store(Some(5), Some(2), Ok(()));
    assert_eq!((v.edit, v.page, v.error), (None, Some(2), None));
    let v = history_after_store(Some(5), Some(2), Err("duplicate".to_string()));
    assert_eq!((v.edit, v.page, v.error.as_deref()), (Some(5), Some(2), Some("duplicate")));
}

#[test]
fn status_form_reading() {
    let form = CarStatusForm {
        car_id: 8,
        gas_level: "50".to_string(),
        kilometres: "1200.5".to_string(),
        status_type: "Departure".to_string(),
        recorded_at: "2024-03-05T08:30".to_string(),
    };
    let v = status_values(&form, 99).unwrap();
    assert_eq!((v.car_id, v.status_type, v.recorded_at, v.stamped_at), (8, StatusKind::Departure, 1_709_627_400, 99));
    let bad = CarStatusForm { recorded_at: "2024-03-05 08:30".to_string(), ..form };
    assert!(status_values(&bad, 99).is_none());
}

fn some(s: &str) -> Option<String> {
    Some(s.to_string())
}

#[test]
fn audit_page_queries_need_every_choice() {
    let q = audit_page_query(&some("tracker"), Some(3), &some("2024-01-15")).unwrap();
    assert_eq!(q.target, AuditTarget::Tracker(3));
    assert_eq!(q.window, Some((1_705_251_600, 1_705_337_999)));
    let q = audit_page_query(&some("car"), Some(5), &some("not a date")).unwrap();
    assert_eq!(q.target, AuditTarget::Car(5));
    assert_eq!(q.window, None);
    let q = audit_page_query(&some("other"), Some(5), &some("2024-01-15")).unwrap();
    assert_eq!(q.target, AuditTarget::All);
    assert!(audit_page_query(&None, Some(3), &some("2024-01-15")).is_none());
    assert!(audit_page_query(&some("car"), None, &some("2024-01-15")).is_none());
    assert!(audit_page_query(&some("car"), Some(3), &None).is_none());
}

#[test]
fn audit_export_queries() {
    let q = audit_export_query(&some("car"), Some(5), &None);
    assert_eq!((q.target, q.window), (AuditTarget::Car(5), None));
    let q = audit_export_query(&None, Some(5), &some("2024-01-15"));
    assert_eq!((q.target, q.window), (AuditTarget::All, Some((1_705_251_600, 1_705_337_999))));
}

#[test]
fn export_and_page_agree_on_a_full_selection() {
    for (c, t, d) in [("tracker", 3, "2024-01-15"), ("car", 1, "bad"), ("x", 2, "2023-11-15")] {
        let p = audit_page_query(&some(c), Some(t), &some(d)).unwrap();
        let e = audit_export_query(&some(c), Some(t), &some(d));
        assert_eq!((p.target, p.window), (e.target, e.window));
    }
}

fn record(recorded: i64) -> AuditRecord {
    AuditRecord {
        audit_id: 1,
        car_id: Some(2),
        tracker_id: 3,
        latitude: "-6.2".to_string(),
        longitude: "106.8".to_string(),
        recorded_at: recorded,
        created_at: recorded,
    }
}

#[test]
fn audit_records_in_wib() {
    let f = format_audit_record(&record(1_709_627_400)).unwrap();
    assert_eq!(f.recorded_at_wib, "2024-03-05 15:30:00");
    assert_eq!(f.time_wib, "15:30:00");
    assert_eq!(f.created_at_wib, "2024-03-05 15:30:00");
    assert_eq!((f.audit_id, f.car_id, f.tracker_id), (1, Some(2), 3));
    assert_eq!((f.latitude.as_str(), f.longitude.as_str()), ("-6.2", "106.8"));
    assert!(format_audit_record(&record(i64::MAX)).is_none());
}

#[test]
fn audit_page_outcomes() {
    let u = user("Employee");
    let t = audit_page_unlisted(&u, vec![], "db down".to_string());
    assert_eq!(t.error.as_deref(), Some("db down"));
    assert!(t.cars.is_empty() && t.audit_records.is_empty() && t.selected_choice.is_none());
    let t = audit_page_unqueried(&u, vec![tracker(1)], vec![], "car".to_string(), 2, "2024-01-15".to_string(), "q".to_string());
    assert_eq!(t.selected_choice.as_deref(), Some("car"));
    assert_eq!(t.selected_target, Some(2));
    assert_eq!(t.trackers.len(), 1);
    let t = audit_page_shown(&u, vec![], vec![], some("car"), Some(2), None, &vec![record(0), record(60)]).unwrap();
    assert_eq!(t.audit_records.len(), 2);
    assert_eq!(t.audit_records[1].time_wib, "07:01:00");
    assert!(t.error.is_none());
    assert_eq!(
        audit_page_shown(&u, vec![], vec![], None, None, None, &vec![record(i64::MAX)]).err(),
        Some(PageError::InternalServerError)
    );
}

#[test]
fn audit_download_header() {
    let r = CsvResponse(vec![]);
    assert_eq!(r.disposition(), "attachment; filename=\"audit_export.csv\"");
}
