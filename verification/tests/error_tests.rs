use user_service::errors::AppError;

#[test]
fn database_error_maps_to_server_failure() {
    let err = AppError::DatabaseError("connection reset".to_string());
    assert_eq!(err.status_code(), 500);
    assert_eq!(err.error_body(), "connection reset");
    assert_eq!(err.message(), "Database error: connection reset");
}

#[test]
fn not_found_maps_to_fixed_message() {
    let err = AppError::NotFound;
    assert_eq!(err.status_code(), 404);
    assert_eq!(err.error_body(), "Resource not found");
    assert_eq!(err.message(), "Resource not found");
}
