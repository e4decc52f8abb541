//! Failures of authentication and authorization.

use vstd::prelude::*;

verus! {

#[derive(Clone, Debug, PartialEq, Eq)]
pub enum AuthError {
    InvalidCredentials,
    UserNotFound,
    DatabaseError(String),
    JwtError(String),
    PasswordHashError(String),
    MissingJwtSecret,
    TokenExpired,
    InvalidToken,
    InsufficientPermissions,
}

impl AuthError {
    /// The HTTP status this failure maps to.
    pub open spec fn status_code_spec(&self) -> u16 {
        match self {
            AuthError::InvalidCredentials => 401,
            AuthError::UserNotFound => 401,
            AuthError::TokenExpired => 401,
            AuthError::InvalidToken => 401,
            AuthError::InsufficientPermissions => 403,
            AuthError::DatabaseError(_) => 500,
            AuthError::JwtError(_) => 500,
            AuthError::PasswordHashError(_) => 500,
            AuthError::MissingJwtSecret => 500,
        }
    }

    pub fn status_code(&self) -> (code: u16)
        ensures
            code == self.status_code_spec(),
    {
        match self {
            AuthError::InvalidCredentials
            | AuthError::UserNotFound
            | AuthError::TokenExpired
            | AuthError::InvalidToken => 401,
            AuthError::InsufficientPermissions => 403,
            AuthError::DatabaseError(_)
            | AuthError::JwtError(_)
            | AuthError::PasswordHashError(_)
            | AuthError::MissingJwtSecret => 500,
        }
    }

    /// A failure the caller can mend: one this taxonomy maps below the
    /// server-error range.
    pub fn is_client_error(&self) -> (r: bool)
        ensures
            r == (self.status_code_spec() < 500),
    {
        self.status_code() < 500
    }

    /// The complement of `is_client_error`.
    pub fn is_server_error(&self) -> (r: bool)
        ensures
            r == (self.status_code_spec() >= 500),
    {
        !self.is_client_error()
    }

    /// The stable machine-readable code for each failure.
    pub open spec fn error_code_spec(&self) -> Seq<char> {
        match self {
            AuthError::InvalidCredentials => "AUTH_INVALID_CREDENTIALS"@,
            AuthError::UserNotFound => "AUTH_USER_NOT_FOUND"@,
            AuthError::DatabaseError(_) => "AUTH_DATABASE_ERROR"@,
            AuthError::JwtError(_) => "AUTH_JWT_ERROR"@,
            AuthError::PasswordHashError(_) => "AUTH_PASSWORD_ERROR"@,
            AuthError::MissingJwtSecret => "AUTH_CONFIG_ERROR"@,
            AuthError::TokenExpired => "AUTH_TOKEN_EXPIRED"@,
            AuthError::InvalidToken => "AUTH_INVALID_TOKEN"@,
            AuthError::InsufficientPermissions => "AUTH_INSUFFICIENT_PERMISSIONS"@,
        }
    }

    pub fn error_code(&self) -> (code: &'static str)
        ensures
            code@ == self.error_code_spec(),
    {
        match self {
            AuthError::InvalidCredentials => "AUTH_INVALID_CREDENTIALS",
            AuthError::UserNotFound => "AUTH_USER_NOT_FOUND",
            AuthError::DatabaseError(_) => "AUTH_DATABASE_ERROR",
            AuthError::JwtError(_) => "AUTH_JWT_ERROR",
            AuthError::PasswordHashError(_) => "AUTH_PASSWORD_ERROR",
            AuthError::MissingJwtSecret => "AUTH_CONFIG_ERROR",
            AuthError::TokenExpired => "AUTH_TOKEN_EXPIRED",
            AuthError::InvalidToken => "AUTH_INVALID_TOKEN",
            AuthError::InsufficientPermissions => "AUTH_INSUFFICIENT_PERMISSIONS",
        }
    }
}

} // verus!
