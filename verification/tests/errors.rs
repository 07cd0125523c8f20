use auth_core::errors::{AppError, DatabaseFault, ErrorResponse, Severity, StorageFault, TokenFault};

fn storage(unique: bool, foreign_key: bool, message: &str) -> AppError {
    AppError::SqlxError(StorageFault {
        database: Some(DatabaseFault {
            unique_violation: unique,
            foreign_key_violation: foreign_key,
            message: message.to_string(),
        }),
        detail: format!("error returned from database: {}", message),
    })
}

fn rendered(e: AppError) -> (u16, String) {
    let ErrorResponse { status, body, .. } = e.into_response();
    (status, body)
}

#[test]
fn storage_conflict_is_409_with_storage_message() {
    let (status, body) = rendered(storage(true, false, "duplicate key"));
    assert_eq!(status, 409);
    assert_eq!(body, "{\"error\":\"Resource already exists. duplicate key\"}");
}

#[test]
fn storage_unique_takes_precedence_over_foreign_key() {
    let e = storage(true, true, "both");
    assert_eq!(e.status_code(), 409);
    assert_eq!(e.client_message(), "Resource already exists. both");
}

#[test]
fn storage_constraint_violation_is_400() {
    let (status, body) = rendered(storage(false, true, "fk_user"));
    assert_eq!(status, 400);
    assert_eq!(body, "{\"error\":\"Invalid reference to another resource. fk_user\"}");
}

#[test]
fn storage_other_is_500_and_generic() {
    let response = storage(false, false, "relation \"users\" does not exist").into_response();
    assert_eq!(response.status, 500);
    assert_eq!(response.body, "{\"error\":\"Database error\"}");
    assert_eq!(response.severity, Severity::Error);
    assert!(response.log_line.contains("relation \"users\" does not exist"));
    assert!(!response.body.contains("users"));
}

#[test]
fn storage_failure_outside_the_engine_is_500() {
    let e = AppError::SqlxError(StorageFault { database: None, detail: "pool timed out".to_string() });
    let response = e.into_response();
    assert_eq!(response.status, 500);
    assert_eq!(response.body, "{\"error\":\"Database error\"}");
    assert_eq!(response.log_line, "Database error: pool timed out");
}

#[test]
fn auth_failures_are_401_and_generic() {
    let (status, body) = rendered(AppError::AuthError("unknown user bob".to_string()));
    assert_eq!(status, 401);
    assert_eq!(body, "{\"error\":\"Invalid credentials\"}");
    let (status, body) = rendered(AppError::InvalidCredentials);
    assert_eq!(status, 401);
    assert_eq!(body, "{\"error\":\"Invalid credentials\"}");
}

#[test]
fn token_failures_are_401_and_generic() {
    for fault in [
        TokenFault::Malformed,
        TokenFault::InvalidSignature,
        TokenFault::Expired,
    ] {
        let response = AppError::JwtError(fault).into_response();
        assert_eq!(response.status, 401);
        assert_eq!(response.body, "{\"error\":\"Invalid or expired token\"}");
        assert_eq!(response.severity, Severity::Warn);
    }
}

#[test]
fn token_failure_log_lines() {
    assert_eq!(AppError::JwtError(TokenFault::Malformed).to_string(), "JWT error: malformed token");
    assert_eq!(
        AppError::JwtError(TokenFault::InvalidSignature).to_string(),
        "JWT error: invalid signature"
    );
    assert_eq!(AppError::JwtError(TokenFault::Expired).to_string(), "JWT error: token expired");
}

#[test]
fn missing_credentials_is_400() {
    assert_eq!(rendered(AppError::MissingCredentials), (400, "{\"error\":\"Missing credentials\"}".to_string()));
}

#[test]
fn unauthorized_is_401() {
    assert_eq!(rendered(AppError::Unauthorized), (401, "{\"error\":\"Unauthorized\"}".to_string()));
}

#[test]
fn forbidden_is_403() {
    assert_eq!(rendered(AppError::Forbidden), (403, "{\"error\":\"Forbidden\"}".to_string()));
}

#[test]
fn not_found_is_404_with_resource_message() {
    assert_eq!(
        rendered(AppError::NotFound("User 7 not found".to_string())),
        (404, "{\"error\":\"User 7 not found\"}".to_string())
    );
}

#[test]
fn conflict_is_409_with_detail() {
    assert_eq!(
        rendered(AppError::Conflict("Email already registered".to_string())),
        (409, "{\"error\":\"Email already registered\"}".to_string())
    );
}

#[test]
fn validation_failed_is_400() {
    let e = AppError::ValidationError(vec!["Invalid email format".to_string()]);
    assert_eq!(rendered(e), (400, "{\"error\":\"Validation failed\"}".to_string()));
}

#[test]
fn hashing_error_is_500_and_generic() {
    let response = AppError::PasswordHashError("salt invalid".to_string()).into_response();
    assert_eq!(response.status, 500);
    assert_eq!(response.body, "{\"error\":\"Internal server error (hash)\"}");
    assert_eq!(response.severity, Severity::Error);
    assert_eq!(response.log_line, "Password hashing error: salt invalid");
}

#[test]
fn internal_error_is_500_and_generic() {
    let response = AppError::InternalServerError("worker panicked".to_string()).into_response();
    assert_eq!(response.status, 500);
    assert_eq!(response.content_type, "application/json");
    assert_eq!(response.body, "{\"error\":\"Internal server error\"}");
    assert_eq!(response.severity, Severity::Error);
    assert_eq!(response.log_line, "Internal server error: worker panicked");
}

#[test]
fn config_and_migration_errors_are_500() {
    assert_eq!(
        rendered(AppError::ConfigError("environment variable not found".to_string())),
        (500, "{\"error\":\"Configuration error\"}".to_string())
    );
    assert_eq!(
        rendered(AppError::MigrateError("version 3 missing".to_string())),
        (500, "{\"error\":\"Database migration error\"}".to_string())
    );
}

#[test]
fn body_is_json_with_the_key_error() {
    let all = vec![
        storage(true, false, "x"),
        storage(false, true, "x"),
        storage(false, false, "x"),
        AppError::ConfigError("x".to_string()),
        AppError::MigrateError("x".to_string()),
        AppError::AuthError("x".to_string()),
        AppError::InvalidCredentials,
        AppError::PasswordHashError("x".to_string()),
        AppError::JwtError(TokenFault::Expired),
        AppError::MissingCredentials,
        AppError::Unauthorized,
        AppError::Forbidden,
        AppError::NotFound("x".to_string()),
        AppError::Conflict("x".to_string()),
        AppError::ValidationError(vec![]),
        AppError::InternalServerError("x".to_string()),
    ];
    for e in all {
        let message = e.client_message();
        let status = e.status_code();
        let response = e.into_response();
        assert_eq!(response.status, status);
        let parsed: serde_json::Value = serde_json::from_str(&response.body).unwrap();
        let object = parsed.as_object().unwrap();
        assert_eq!(object.len(), 1);
        assert_eq!(object.get("error").and_then(|v| v.as_str()), Some(message.as_str()));
    }
}

#[test]
fn message_is_escaped_in_the_body() {
    let (status, body) = rendered(AppError::NotFound("the \"best\" one\n".to_string()));
    assert_eq!(status, 404);
    assert_eq!(body, "{\"error\":\"the \\\"best\\\" one\\n\"}");
}

#[test]
fn severity_is_error_exactly_for_500() {
    assert_eq!(AppError::Forbidden.log_severity(), Severity::Warn);
    assert_eq!(AppError::NotFound("x".to_string()).log_severity(), Severity::Warn);
    assert_eq!(storage(true, false, "x").log_severity(), Severity::Warn);
    assert_eq!(storage(false, false, "x").log_severity(), Severity::Error);
    assert_eq!(AppError::ConfigError("x".to_string()).log_severity(), Severity::Error);
}

#[test]
fn validation_log_line_joins_the_field_messages() {
    let none = AppError::ValidationError(vec![]);
    assert_eq!(none.to_string(), "Validation error: ");
    let one = AppError::ValidationError(vec!["Invalid email format".to_string()]);
    assert_eq!(one.to_string(), "Validation error: Invalid email format");
    let two = AppError::ValidationError(vec![
        "Invalid email format".to_string(),
        "Password must be at least 8 characters".to_string(),
    ]);
    assert_eq!(
        two.to_string(),
        "Validation error: Invalid email format; Password must be at least 8 characters"
    );
    assert_eq!(two.client_message(), "Validation failed");
    assert_eq!(
        auth_core::errors::join_messages(&vec!["a".to_string(), "b".to_string(), "c".to_string()]),
        "a; b; c"
    );
}
