use poolcar::auth_utils::SessionClaims;
use poolcar::error::{AppError, MqttError, TasksError};
use poolcar::middleware::{require_admin, require_employee, require_security};
use poolcar::models::{
    page_window, CarTypeWithCount, CarWithTracker, GetCarsResponse, ContactTypeWithCount, GetCarTypesResponse,
    GetContactTypesResponse, GetUserRolesResponse, PaginationParams, UserRoleWithDetails,
};

fn claims(role: &str) -> SessionClaims {
    SessionClaims { username: "u".to_string(), role_name: role.to_string(), exp: 0 }
}

#[test]
fn role_guards() {
    let admin = claims("Admin");
    let sec = claims("Security");
    let emp = claims("Employee");
    assert!(require_admin(Some(&admin)).is_ok());
    assert!(require_security(Some(&admin)).is_ok());
    assert!(require_employee(Some(&admin)).is_ok());
    assert!(matches!(require_admin(Some(&sec)), Err(AppError::Forbidden)));
    assert!(require_security(Some(&sec)).is_ok());
    assert!(matches!(require_employee(Some(&sec)), Err(AppError::Forbidden)));
    assert!(matches!(require_security(Some(&emp)), Err(AppError::Forbidden)));
    assert!(require_employee(Some(&emp)).is_ok());
    assert!(matches!(require_admin(None), Err(AppError::Unauthorized)));
    assert!(matches!(require_security(None), Err(AppError::Unauthorized)));
    assert!(matches!(require_employee(None), Err(AppError::Unauthorized)));
}

#[test]
fn error_answers() {
    let cases: Vec<(AppError, u16, &str, &str)> = vec![
        (AppError::DatabaseError("d".into()), 500, "Database error occurred", "Internal server error"),
        (AppError::RedisPoolError("p".into()), 500, "Cache service error", "Internal server error"),
        (AppError::RedisError("r".into()), 500, "Cache service error", "Internal server error"),
        (AppError::CsvError("c".into()), 500, "CSV export error", "Internal server error"),
        (AppError::ParseJsonError("j".into()), 400, "Invalid JSON format", "Internal server error"),
        (AppError::HashError("h".into()), 500, "Password hashing error", "Internal server error"),
        (AppError::StdIoError("i".into()), 500, "File I/O error", "Internal server error"),
        (AppError::ReqwestError("q".into()), 500, "HTTP request error", "Internal server error"),
        (AppError::MissingField, 400, "Missing required field", "Missing field"),
        (AppError::WrongCredentials, 401, "Invalid credentials", "Wrong credentials"),
        (AppError::InvalidToken, 401, "Invalid or expired token", "Invalid token"),
        (AppError::EncodingError, 500, "Token encoding error", "Internal server error"),
        (AppError::NotFound, 404, "Resource not found", "Not found"),
        (AppError::Internal("x".into()), 500, "Internal server error", "Internal server error"),
        (AppError::Unauthorized, 401, "Unauthorized", "Unauthorized"),
        (AppError::Forbidden, 403, "Forbidden", "Forbidden"),
    ];
    for (e, status, message, display) in cases {
        assert_eq!(e.status_code(), status, "{:?}", e);
        assert_eq!(e.client_message(), message, "{:?}", e);
        assert_eq!(e.display_text(), display, "{:?}", e);
    }
}

#[test]
fn error_log_lines() {
    assert_eq!(AppError::DatabaseError("boom".into()).log_line().as_deref(), Some("Database error: boom"));
    assert_eq!(AppError::HashError("bad".into()).log_line().as_deref(), Some("Hashing error bad"));
    assert_eq!(AppError::Internal("x".into()).log_line().as_deref(), Some("Internal error: x"));
    assert_eq!(AppError::NotFound.log_line(), None);
}

#[test]
fn database_errors() {
    assert!(matches!(AppError::from_database(true, "gone".into()), AppError::NotFound));
    assert!(matches!(AppError::from_database(false, "gone".into()), AppError::DatabaseError(d) if d == "gone"));
}

#[test]
fn task_error_texts() {
    assert_eq!(MqttError::InvalidLocation.display_text(), "Location is not valid");
    assert_eq!(MqttError::ParseJsonError("x".into()).display_text(), "Failed to parse MQTT payload to JSON");
    assert_eq!(MqttError::DatabaseError("x".into()).display_text(), "Database error");
    assert_eq!(TasksError::RedisError("x".into()).display_text(), "Redis error");
    assert_eq!(TasksError::ParseJsonError("x".into()).display_text(), "Failed to parse JSON");
}

#[test]
fn listing_offsets() {
    assert_eq!(PaginationParams { page: None, limit: None }.limit_offset(), (5, 0));
    assert_eq!(PaginationParams { page: Some(0), limit: Some(0) }.limit_offset(), (1, 0));
    assert_eq!(PaginationParams { page: Some(3), limit: Some(20) }.limit_offset(), (20, 10));
    assert_eq!(PaginationParams { page: Some(2), limit: None }.limit_offset(), (5, 5));
}

#[test]
fn page_windows() {
    let w = page_window(None, 0);
    assert_eq!((w.current_page, w.total_pages, w.fetch_index), (1, 1, 0));
    assert_eq!(w.pages, vec![1]);
    let w = page_window(Some(7), 4);
    assert_eq!((w.current_page, w.total_pages, w.fetch_index), (4, 4, 3));
    assert_eq!(w.pages, vec![1, 2, 3, 4]);
    let w = page_window(Some(2), 4);
    assert_eq!((w.current_page, w.fetch_index), (2, 1));
    let w = page_window(Some(0), 4);
    assert_eq!((w.current_page, w.fetch_index), (0, 0));
}

#[test]
fn listing_responses_count_their_rows() {
    let r = GetCarTypesResponse::new(vec![CarTypeWithCount { car_type_id: 1, name: "Bus".into(), car_count: 3 }]);
    assert_eq!(r.car_type_count, 1);
    let r = GetContactTypesResponse::new(vec![]);
    assert_eq!(r.contact_type_count, 0);
    let r = GetUserRolesResponse::new(vec![
        UserRoleWithDetails { user_role_id: 1, name: "Admin".into(), user_count: Some(1) },
        UserRoleWithDetails { user_role_id: 2, name: "Security".into(), user_count: None },
    ]);
    assert_eq!(r.user_role_count, 2);
}

#[test]
fn error_bodies() {
    assert_eq!(AppError::NotFound.response_body(), "{\"message\":\"Resource not found\",\"status\":\"error\"}");
    let b = AppError::Internal("disk /var/lib/x full".into()).response_body();
    assert_eq!(b, "{\"message\":\"Internal server error\",\"status\":\"error\"}");
    let v: serde_json::Value = serde_json::from_str(&AppError::WrongCredentials.response_body()).unwrap();
    assert_eq!(v["status"], "error");
    assert_eq!(v["message"], "Invalid credentials");
    assert_eq!(v.as_object().unwrap().len(), 2);
}

#[test]
fn car_listing_counts_its_cars() {
    let car = CarWithTracker {
        car_id: 1,
        name: "A".into(),
        police_number: "B".into(),
        active: true,
        car_type_id: 1,
        car_type_name: "T".into(),
        tracker_id: None,
        tracker_name: None,
    };
    let r = GetCarsResponse::new(vec![car]);
    assert_eq!(r.car_count, 1);
    assert_eq!(GetCarsResponse::new(vec![]).car_count, 0);
}
