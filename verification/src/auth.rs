//! Credential hashing, token claims and the authorization checks the
//! request handlers run before touching a group's ledger.
//!
//! Password hashing and verification go through the bcrypt crate
//! behind trusted wrappers; issuing and checking the signed token
//! itself is transport-layer work and stays outside the core, which
//! only builds and inspects the claims.

use vstd::prelude::*;
use vstd::string::StrSliceExecFns;

use crate::errors::{AppError, AuthError};
use crate::models::{Id, User};

verus! {

/// How long an issued token lives: 24 hours, in seconds.
pub const TOKEN_LIFETIME_SECONDS: i64 = 86_400;

/// What a signed token certifies about its bearer.
#[derive(Clone, Debug)]
pub struct Claims {
    pub user_id: Id,
    pub email: String,
    pub username: String,
    pub is_admin: bool,
    pub exp: i64,
}

/// Builds the claims a token for `user` certifies, expiring one token
/// lifetime after `now_ts` (seconds since the Unix epoch).
pub fn claims_for_user(user: &User, now_ts: i64) -> (claims: Claims)
    requires
        now_ts <= i64::MAX - TOKEN_LIFETIME_SECONDS,
    ensures
        claims.user_id == user.id,
        claims.email@ == user.email@,
        claims.username@ == user.username@,
        claims.is_admin == (user.is_admin matches Some(flag) && flag),
        claims.exp == now_ts + TOKEN_LIFETIME_SECONDS,
{
    let is_admin = match user.is_admin {
        Some(flag) => flag,
        None => false,
    };
    Claims {
        user_id: user.id,
        email: user.email.clone(),
        username: user.username.clone(),
        is_admin,
        exp: now_ts + TOKEN_LIFETIME_SECONDS,
    }
}

/// Gate an operation on the admin flag of the verified claims.
pub fn require_admin(claims: &Claims) -> (r: Result<(), AppError>)
    ensures
        match r {
            Ok(()) => claims.is_admin,
            Err(e) => !claims.is_admin && e == AppError::Auth(AuthError::InsufficientPermissions),
        },
{
    if claims.is_admin {
        Ok(())
    } else {
        Err(AppError::Auth(AuthError::InsufficientPermissions))
    }
}

/// An authorization header that carries a bearer token: the scheme
/// word, a space, then the token.
pub open spec fn bearer_prefix(header: Seq<char>) -> bool {
    header.len() >= 7 && header.subrange(0, 7) == "Bearer "@
}

/// Splits the token out of an authorization header, refusing headers
/// that do not carry the bearer scheme.
pub fn bearer_token(header: &str) -> (r: Result<&str, AppError>)
    ensures
        match r {
            Ok(token) => bearer_prefix(header@) && token@ == header@.subrange(
                7,
                header@.len() as int,
            ),
            Err(e) => !bearer_prefix(header@) && e == AppError::Auth(AuthError::InvalidCredentials),
        },
{
    proof {
        reveal_strlit("Bearer ");
    }
    let len = header.unicode_len();
    if len < 7 {
        return Err(AppError::Auth(AuthError::InvalidCredentials));
    }
    if header.get_char(0) != 'B' || header.get_char(1) != 'e' || header.get_char(2) != 'a'
        || header.get_char(3) != 'r' || header.get_char(4) != 'e' || header.get_char(5) != 'r'
        || header.get_char(6) != ' ' {
        proof {
            assert(forall|i: int| 0 <= i < 7 ==> header@.subrange(0, 7)[i] == header@[i]);
        }
        return Err(AppError::Auth(AuthError::InvalidCredentials));
    }
    proof {
        assert(header@.subrange(0, 7) =~= "Bearer "@);
    }
    Ok(header.substring_char(7, len))
}

/// What bcrypt's verification concludes for a password and a stored
/// hash; a function of the two strings alone.
pub uninterp spec fn bcrypt_verifies(password: Seq<char>, hash: Seq<char>) -> bool;

/// Relies on bcrypt::hash: on success the result is the 60-character
/// hash string of the freshly salted password, which bcrypt::verify
/// then accepts for that same password.
#[verifier::external_body]
fn bcrypt_hash_call(password: &str) -> (r: Result<String, String>)
    ensures
        r matches Ok(hash) ==> hash@.len() == 60 && bcrypt_verifies(password@, hash@),
{
    bcrypt::hash(password, bcrypt::DEFAULT_COST).map_err(|e| format!("{}", e))
}

/// Relies on bcrypt::verify: deterministic in the password and the
/// hash string alone.
#[verifier::external_body]
fn bcrypt_verify_call(password: &str, hash: &str) -> (r: Result<bool, String>)
    ensures
        r matches Ok(matched) ==> matched == bcrypt_verifies(password@, hash@),
{
    bcrypt::verify(password, hash).map_err(|e| format!("{}", e))
}

/// Hashes a password for storage.  On success the hash is 60
/// characters and verifies against the password it was made from.
pub fn hash_password(password: &str) -> (r: Result<String, AppError>)
    ensures
        r matches Ok(hash) ==> hash@.len() == 60 && bcrypt_verifies(password@, hash@),
        r matches Err(e) ==> e matches AppError::Auth(AuthError::PasswordHashError(_)),
{
    match bcrypt_hash_call(password) {
        Ok(hash) => Ok(hash),
        Err(message) => Err(AppError::Auth(AuthError::PasswordHashError(message))),
    }
}

/// Checks a password against a stored hash.
pub fn verify_password(password: &str, hash: &str) -> (r: Result<bool, AppError>)
    ensures
        r matches Ok(matched) ==> matched == bcrypt_verifies(password@, hash@),
        r matches Err(e) ==> e matches AppError::Auth(AuthError::PasswordHashError(_)),
{
    match bcrypt_verify_call(password, hash) {
        Ok(matched) => Ok(matched),
        Err(message) => Err(AppError::Auth(AuthError::PasswordHashError(message))),
    }
}

} // verus!
