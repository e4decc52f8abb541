use expenses_backend::{
    AppError, AuthError, DatabaseError, ExpenseError, GroupError, UserError, ValidationError,
};

#[test]
fn auth_error_status_codes() {
    assert_eq!(AuthError::InvalidCredentials.status_code(), 401);
    assert_eq!(AuthError::UserNotFound.status_code(), 401);
    assert_eq!(AuthError::TokenExpired.status_code(), 401);
    assert_eq!(AuthError::InvalidToken.status_code(), 401);
    assert_eq!(AuthError::InsufficientPermissions.status_code(), 403);
    assert_eq!(AuthError::DatabaseError("boom".to_string()).status_code(), 500);
    assert_eq!(AuthError::JwtError("boom".to_string()).status_code(), 500);
    assert_eq!(AuthError::PasswordHashError("boom".to_string()).status_code(), 500);
    assert_eq!(AuthError::MissingJwtSecret.status_code(), 500);
}

#[test]
fn auth_error_client_server_split() {
    assert!(AuthError::InvalidCredentials.is_client_error());
    assert!(!AuthError::InvalidCredentials.is_server_error());
    assert!(AuthError::InsufficientPermissions.is_client_error());
    assert!(AuthError::MissingJwtSecret.is_server_error());
    assert!(!AuthError::MissingJwtSecret.is_client_error());
    assert!(AuthError::JwtError("boom".to_string()).is_server_error());
}

#[test]
fn auth_error_codes() {
    assert_eq!(AuthError::InvalidCredentials.error_code(), "AUTH_INVALID_CREDENTIALS");
    assert_eq!(AuthError::UserNotFound.error_code(), "AUTH_USER_NOT_FOUND");
    assert_eq!(AuthError::DatabaseError("x".to_string()).error_code(), "AUTH_DATABASE_ERROR");
    assert_eq!(AuthError::JwtError("x".to_string()).error_code(), "AUTH_JWT_ERROR");
    assert_eq!(AuthError::PasswordHashError("x".to_string()).error_code(), "AUTH_PASSWORD_ERROR");
    assert_eq!(AuthError::MissingJwtSecret.error_code(), "AUTH_CONFIG_ERROR");
    assert_eq!(AuthError::TokenExpired.error_code(), "AUTH_TOKEN_EXPIRED");
    assert_eq!(AuthError::InvalidToken.error_code(), "AUTH_INVALID_TOKEN");
    assert_eq!(
        AuthError::InsufficientPermissions.error_code(),
        "AUTH_INSUFFICIENT_PERMISSIONS"
    );
}

#[test]
fn domain_error_status_codes() {
    assert_eq!(DatabaseError::NotFound.status_code(), 404);
    assert_eq!(DatabaseError::QueryFailed("q".to_string()).status_code(), 500);
    assert_eq!(DatabaseError::ConnectionFailed("c".to_string()).status_code(), 500);
    assert_eq!(ExpenseError::NotFound.status_code(), 404);
    assert_eq!(ExpenseError::InvalidAmount("a".to_string()).status_code(), 400);
    assert_eq!(ExpenseError::DuplicateExpense.status_code(), 400);
    assert_eq!(ExpenseError::InsufficientFunds.status_code(), 402);
    assert_eq!(ExpenseError::CalculationError("c".to_string()).status_code(), 500);
    assert_eq!(GroupError::NotFound.status_code(), 404);
    assert_eq!(GroupError::NotAMember.status_code(), 403);
    assert_eq!(GroupError::InsufficientPermissions.status_code(), 403);
    assert_eq!(GroupError::AlreadyMember.status_code(), 400);
    assert_eq!(GroupError::GroupFull.status_code(), 400);
    assert_eq!(UserError::NotFound.status_code(), 404);
    assert_eq!(UserError::EmailAlreadyExists.status_code(), 409);
    assert_eq!(UserError::UsernameAlreadyExists.status_code(), 409);
    assert_eq!(UserError::InvalidCredentials.status_code(), 401);
    assert_eq!(UserError::Unauthorized.status_code(), 401);
    assert_eq!(ValidationError::RequiredField("f".to_string()).status_code(), 400);
    assert_eq!(ValidationError::InvalidRange("r".to_string()).status_code(), 400);
}

#[test]
fn app_error_delegates_and_wraps() {
    assert_eq!(AppError::from(AuthError::InvalidCredentials).status_code(), 401);
    assert_eq!(AppError::from(DatabaseError::NotFound).status_code(), 404);
    assert_eq!(
        AppError::from(ValidationError::RequiredField("f".to_string())).status_code(),
        400
    );
    assert_eq!(AppError::from(ExpenseError::InsufficientFunds).status_code(), 402);
    assert_eq!(AppError::from(UserError::EmailAlreadyExists).status_code(), 409);
    assert_eq!(AppError::from(GroupError::NotAMember).status_code(), 403);
    assert_eq!(AppError::Internal("i".to_string()).status_code(), 500);
    assert_eq!(AppError::NotFound("n".to_string()).status_code(), 404);
    assert_eq!(AppError::BadRequest("b".to_string()).status_code(), 400);
    assert_eq!(AppError::Forbidden("f".to_string()).status_code(), 403);
    assert_eq!(
        AppError::from(GroupError::NotAMember),
        AppError::Group(GroupError::NotAMember)
    );
}
