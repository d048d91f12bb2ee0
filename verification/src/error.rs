//! Error types, and the HTTP answer each error is given.
//!
//! Errors that wrap a failure of a database, cache, parser or client hold
//! the text of that failure, as its `Debug` rendering gives it.
use vstd::prelude::*;
use vstd::string::*;

verus! {

/// Error types of the HTTP API.
///
/// Instead of answering the client with the raw error, each error is logged
/// to stderr where it carries details, and the client gets a status code and
/// a fixed message.
#[derive(Debug)]
pub enum AppError {
    DatabaseError(String),
    RedisPoolError(String),
    RedisError(String),
    CsvError(String),
    ParseJsonError(String),
    HashError(String),
    StdIoError(String),
    ReqwestError(String),
    MissingField,
    WrongCredentials,
    InvalidToken,
    EncodingError,
    NotFound,
    Internal(String),
    Unauthorized,
    Forbidden,
}

/// The HTTP status an error is answered with.
pub open spec fn status_of(e: &AppError) -> u16 {
    match e {
        AppError::ParseJsonError(_) => 400,
        AppError::MissingField => 400,
        AppError::WrongCredentials => 401,
        AppError::InvalidToken => 401,
        AppError::Unauthorized => 401,
        AppError::Forbidden => 403,
        AppError::NotFound => 404,
        _ => 500,
    }
}

/// The message the client is given for an error.
pub open spec fn client_message_of(e: &AppError) -> Seq<char> {
    match e {
        AppError::DatabaseError(_) => "Database error occurred"@,
        AppError::RedisPoolError(_) => "Cache service error"@,
        AppError::RedisError(_) => "Cache service error"@,
        AppError::CsvError(_) => "CSV export error"@,
        AppError::ParseJsonError(_) => "Invalid JSON format"@,
        AppError::HashError(_) => "Password hashing error"@,
        AppError::StdIoError(_) => "File I/O error"@,
        AppError::ReqwestError(_) => "HTTP request error"@,
        AppError::MissingField => "Missing required field"@,
        AppError::WrongCredentials => "Invalid credentials"@,
        AppError::InvalidToken => "Invalid or expired token"@,
        AppError::EncodingError => "Token encoding error"@,
        AppError::NotFound => "Resource not found"@,
        AppError::Internal(_) => "Internal server error"@,
        AppError::Unauthorized => "Unauthorized"@,
        AppError::Forbidden => "Forbidden"@,
    }
}

/// The line logged to stderr for an error that carries details.
pub open spec fn log_line_of(e: &AppError) -> Option<Seq<char>> {
    match e {
        AppError::DatabaseError(d) => Some("Database error: "@ + d@),
        AppError::RedisPoolError(d) => Some("Redis pool error: "@ + d@),
        AppError::RedisError(d) => Some("Redis error: "@ + d@),
        AppError::CsvError(d) => Some("CSV error: "@ + d@),
        AppError::ParseJsonError(d) => Some("JSON parsing error: "@ + d@),
        AppError::HashError(d) => Some("Hashing error "@ + d@),
        AppError::StdIoError(d) => Some("Standard input error "@ + d@),
        AppError::ReqwestError(d) => Some("Reqwest error "@ + d@),
        AppError::Internal(d) => Some("Internal error: "@ + d@),
        _ => None,
    }
}

/// The JSON body an error is answered with: an object whose `status` is
/// `error` and whose `message` is the client message, members in the order
/// `serde_json` writes an object's keys (sorted). No client message holds a
/// quote or a backslash, so the message stands in the body as it is.
pub open spec fn response_body_of(e: &AppError) -> Seq<char> {
    "{\"message\":\""@ + client_message_of(e) + "\",\"status\":\"error\"}"@
}

/// The text an error displays.
pub open spec fn display_of(e: &AppError) -> Seq<char> {
    match e {
        AppError::MissingField => "Missing field"@,
        AppError::WrongCredentials => "Wrong credentials"@,
        AppError::InvalidToken => "Invalid token"@,
        AppError::NotFound => "Not found"@,
        AppError::Unauthorized => "Unauthorized"@,
        AppError::Forbidden => "Forbidden"@,
        _ => "Internal server error"@,
    }
}

impl AppError {
    /// The error of a failed database call: a missing row is `NotFound`,
    /// any other failure a `DatabaseError` with its details.
    pub fn from_database(row_not_found: bool, detail: String) -> (e: AppError)
        ensures
            row_not_found ==> e == AppError::NotFound,
            !row_not_found ==> e == AppError::DatabaseError(detail),
    {
        if row_not_found {
            AppError::NotFound
        } else {
            AppError::DatabaseError(detail)
        }
    }

    /// The HTTP status this error is answered with.
    pub fn status_code(&self) -> (s: u16)
        ensures
            s == status_of(self),
    {
        match self {
            AppError::ParseJsonError(_) => 400,
            AppError::MissingField => 400,
            AppError::WrongCredentials => 401,
            AppError::InvalidToken => 401,
            AppError::Unauthorized => 401,
            AppError::Forbidden => 403,
            AppError::NotFound => 404,
            _ => 500,
        }
    }

    /// The message the client is given.
    pub fn client_message(&self) -> (m: &'static str)
        ensures
            m@ == client_message_of(self),
    {
        match self {
            AppError::DatabaseError(_) => "Database error occurred",
            AppError::RedisPoolError(_) => "Cache service error",
            AppError::RedisError(_) => "Cache service error",
            AppError::CsvError(_) => "CSV export error",
            AppError::ParseJsonError(_) => "Invalid JSON format",
            AppError::HashError(_) => "Password hashing error",
            AppError::StdIoError(_) => "File I/O error",
            AppError::ReqwestError(_) => "HTTP request error",
            AppError::MissingField => "Missing required field",
            AppError::WrongCredentials => "Invalid credentials",
            AppError::InvalidToken => "Invalid or expired token",
            AppError::EncodingError => "Token encoding error",
            AppError::NotFound => "Resource not found",
            AppError::Internal(_) => "Internal server error",
            AppError::Unauthorized => "Unauthorized",
            AppError::Forbidden => "Forbidden",
        }
    }

    /// The JSON body this error is answered with.
    pub fn response_body(&self) -> (b: String)
        ensures
            b@ == response_body_of(self),
    {
        let mut b = String::from_str("{\"message\":\"");
        b.append(self.client_message());
        b.append("\",\"status\":\"error\"}");
        b
    }

    /// The line to log to stderr, for errors that carry details.
    pub fn log_line(&self) -> (l: Option<String>)
        ensures
            match l {
                Some(s) => log_line_of(self) == Some(s@),
                None => log_line_of(self) is None,
            },
    {
        match self {
            AppError::DatabaseError(d) => Some(String::from_str("Database error: ").concat(d.as_str())),
            AppError::RedisPoolError(d) => Some(String::from_str("Redis pool error: ").concat(d.as_str())),
            AppError::RedisError(d) => Some(String::from_str("Redis error: ").concat(d.as_str())),
            AppError::CsvError(d) => Some(String::from_str("CSV error: ").concat(d.as_str())),
            AppError::ParseJsonError(d) => Some(String::from_str("JSON parsing error: ").concat(d.as_str())),
            AppError::HashError(d) => Some(String::from_str("Hashing error ").concat(d.as_str())),
            AppError::StdIoError(d) => Some(String::from_str("Standard input error ").concat(d.as_str())),
            AppError::ReqwestError(d) => Some(String::from_str("Reqwest error ").concat(d.as_str())),
            AppError::Internal(d) => Some(String::from_str("Internal error: ").concat(d.as_str())),
            _ => None,
        }
    }

    /// The text this error displays.
    pub fn display_text(&self) -> (m: &'static str)
        ensures
            m@ == display_of(self),
    {
        match self {
            AppError::MissingField => "Missing field",
            AppError::WrongCredentials => "Wrong credentials",
            AppError::InvalidToken => "Invalid token",
            AppError::NotFound => "Not found",
            AppError::Unauthorized => "Unauthorized",
            AppError::Forbidden => "Forbidden",
            _ => "Internal server error",
        }
    }
}

/// How errors are answered: a malformed request body or a missing field is
/// the client's fault (400), a refused identity is 401, a refused role 403,
/// a missing resource 404, and every failure of a service behind the API is
/// the server's (500). Each error that carries details of such a failure is
/// logged, and no other is.
pub proof fn law_error_answers(e: &AppError)
    ensures
        status_of(e) == 400 <==> (e is ParseJsonError || e is MissingField),
        status_of(e) == 401 <==> (e is WrongCredentials || e is InvalidToken || e is Unauthorized),
        status_of(e) == 403 <==> e is Forbidden,
        status_of(e) == 404 <==> e is NotFound,
        status_of(e) == 400 || status_of(e) == 401 || status_of(e) == 403 || status_of(e) == 404
            || status_of(e) == 500,
        log_line_of(e) is Some <==> (status_of(e) == 500 && !(e is EncodingError)) || e is ParseJsonError,
{
}

/// Error types of the MQTT payload handler.
#[derive(Debug)]
pub enum MqttError {
    DatabaseError(String),
    RedisPoolError(String),
    RedisError(String),
    ParseJsonError(String),
    InvalidLocation,
}

/// The text an MQTT handler error displays.
pub open spec fn mqtt_display_of(e: &MqttError) -> Seq<char> {
    match e {
        MqttError::DatabaseError(_) => "Database error"@,
        MqttError::RedisPoolError(_) => "Redis pool error"@,
        MqttError::RedisError(_) => "Redis error"@,
        MqttError::ParseJsonError(_) => "Failed to parse MQTT payload to JSON"@,
        MqttError::InvalidLocation => "Location is not valid"@,
    }
}

impl MqttError {
    /// The text this error displays.
    pub fn display_text(&self) -> (m: &'static str)
        ensures
            m@ == mqtt_display_of(self),
    {
        match self {
            MqttError::DatabaseError(_) => "Database error",
            MqttError::RedisPoolError(_) => "Redis pool error",
            MqttError::RedisError(_) => "Redis error",
            MqttError::ParseJsonError(_) => "Failed to parse MQTT payload to JSON",
            MqttError::InvalidLocation => "Location is not valid",
        }
    }
}

/// Error types of the other background tasks.
#[derive(Debug)]
pub enum TasksError {
    DatabaseError(String),
    RedisPoolError(String),
    RedisError(String),
    ParseJsonError(String),
}

/// The text a background task error displays.
pub open spec fn tasks_display_of(e: &TasksError) -> Seq<char> {
    match e {
        TasksError::DatabaseError(_) => "Database error"@,
        TasksError::RedisPoolError(_) => "Redis pool error"@,
        TasksError::RedisError(_) => "Redis error"@,
        TasksError::ParseJsonError(_) => "Failed to parse JSON"@,
    }
}

impl TasksError {
    /// The text this error displays.
    pub fn display_text(&self) -> (m: &'static str)
        ensures
            m@ == tasks_display_of(self),
    {
        match self {
            TasksError::DatabaseError(_) => "Database error",
            TasksError::RedisPoolError(_) => "Redis pool error",
            TasksError::RedisError(_) => "Redis error",
            TasksError::ParseJsonError(_) => "Failed to parse JSON",
        }
    }
}

} // verus!
