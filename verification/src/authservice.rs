//! The account service's decision logic: the checks that precede a
//! registration and the credential check at the heart of a login.
//! Fetching and storing accounts is the surrounding layer's work; it
//! hands the stored record in and takes plain results back.

use vstd::prelude::*;
use vstd::string::StrSliceExecFns;

use crate::auth::{bcrypt_verifies, verify_password};
use crate::errors::{AppError, AppResult, AuthError, ValidationError};
use crate::models::{user_response_of, User, UserResponse};

verus! {

pub struct AuthService;

impl AuthService {
    /// The registration prechecks: every field present and a password
    /// of at least eight characters.
    pub fn validate_registration(email: &str, username: &str, password: &str) -> (r: AppResult<()>)
        ensures
            match r {
                Ok(()) => email@.len() > 0 && username@.len() > 0 && password@.len() >= 8,
                Err(e) => {
                    &&& e matches AppError::Validation(ve)
                    &&& if email@.len() == 0 || username@.len() == 0 || password@.len() == 0 {
                        ve matches ValidationError::RequiredField(f) && f@
                            == "email, username, and password"@
                    } else {
                        &&& password@.len() < 8
                        &&& ve matches ValidationError::InvalidFormat(f) && f@
                            == "password must be at least 8 characters"@
                    }
                },
            },
    {
        if email.is_empty() || username.is_empty() || password.is_empty() {
            return Err(
                AppError::Validation(
                    ValidationError::RequiredField("email, username, and password".to_owned()),
                ),
            );
        }
        if password.unicode_len() < 8 {
            return Err(
                AppError::Validation(
                    ValidationError::InvalidFormat("password must be at least 8 characters".to_owned()),
                ),
            );
        }
        Ok(())
    }

    /// The credential check of a login: the attempt succeeds exactly
    /// when bcrypt accepts the password against the stored hash, and
    /// a rejected attempt learns nothing beyond "invalid credentials".
    pub fn authenticate(user: &User, password: &str) -> (r: AppResult<UserResponse>)
        ensures
            match r {
                Ok(response) => {
                    &&& bcrypt_verifies(password@, user.password_hash@)
                    &&& response.id == user.id
                    &&& response.email@ == user.email@
                    &&& response.username@ == user.username@
                    &&& response.is_admin == (user.is_admin matches Some(flag) && flag)
                },
                Err(e) => {
                    ||| (e == AppError::Auth(AuthError::InvalidCredentials) && !bcrypt_verifies(
                        password@,
                        user.password_hash@,
                    ))
                    ||| e matches AppError::Auth(AuthError::PasswordHashError(_))
                },
            },
    {
        let is_valid = verify_password(password, user.password_hash.as_str())?;
        if !is_valid {
            return Err(AppError::Auth(AuthError::InvalidCredentials));
        }
        Ok(user_response_of(user))
    }
}

} // verus!
