use warehouse_management_system_backend::errors::AppError;

fn all() -> Vec<AppError> {
    vec![
        AppError::InvalidCredentials("wrong password".to_string()),
        AppError::InvalidToken,
        AppError::Forbidden,
        AppError::Unauthorized,
        AppError::NotFound("User".to_string()),
        AppError::Conflict("Email".to_string()),
        AppError::Validation("bad".to_string()),
        AppError::InsufficientStock { product_id: 3, available: -1, requested: 10 },
        AppError::Database("connection reset".to_string()),
        AppError::Internal("boom".to_string()),
        AppError::ServiceUnavailable("Database connection failed".to_string()),
    ]
}

#[test]
fn status_codes() {
    let codes: Vec<u16> = all().iter().map(|e| e.status_code()).collect();
    assert_eq!(codes, vec![401, 401, 403, 401, 404, 409, 422, 422, 500, 500, 503]);
}

#[test]
fn error_codes() {
    let codes: Vec<&str> = all().iter().map(|e| e.error_code()).collect();
    assert_eq!(codes, vec![
        "INVALID_CREDENTIALS", "INVALID_TOKEN", "FORBIDDEN", "UNAUTHORIZED", "NOT_FOUND", "CONFLICT",
        "VALIDATION_ERROR", "INSUFFICIENT_STOCK", "DATABASE_ERROR", "INTERNAL_SERVER_ERROR", "SERVICE_UNAVAILABLE",
    ]);
}

#[test]
fn messages() {
    let msgs: Vec<String> = all().iter().map(|e| e.message()).collect();
    assert_eq!(msgs, vec![
        "Invalid credentials: wrong password",
        "Token is invalid or expired",
        "You are not authorized to perform this action",
        "Authentication required",
        "User not found",
        "Email already exists",
        "Validation error: bad",
        "Insufficient stock for product 3: available -1, requested 10",
        "Database error",
        "Internal server error",
        "Service unavailable: Database connection failed",
    ]);
}

#[test]
fn internal_details_are_hidden_from_clients() {
    assert_eq!(AppError::Database("password=hunter2".to_string()).client_message(), "An internal error ocurred");
    assert_eq!(AppError::Internal("stack".to_string()).client_message(), "An internal error ocurred");
    assert_eq!(AppError::NotFound("Role".to_string()).client_message(), "Role not found");
}

#[test]
fn server_errors() {
    let flags: Vec<bool> = all().iter().map(|e| e.is_server_error()).collect();
    assert_eq!(flags, vec![false, false, false, false, false, false, false, false, true, true, true]);
}
