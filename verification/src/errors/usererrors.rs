//! Failures of user lookup and account creation.

use vstd::prelude::*;

verus! {

#[derive(Clone, Copy, Debug, PartialEq, Eq, Structural)]
pub enum UserError {
    NotFound,
    EmailAlreadyExists,
    UsernameAlreadyExists,
    InvalidCredentials,
    Unauthorized,
}

impl UserError {
    /// The HTTP status this failure maps to.
    pub open spec fn status_code_spec(&self) -> u16 {
        match self {
            UserError::NotFound => 404,
            UserError::EmailAlreadyExists => 409,
            UserError::UsernameAlreadyExists => 409,
            UserError::InvalidCredentials => 401,
            UserError::Unauthorized => 401,
        }
    }

    pub fn status_code(&self) -> (code: u16)
        ensures
            code == self.status_code_spec(),
    {
        match self {
            UserError::NotFound => 404,
            UserError::EmailAlreadyExists | UserError::UsernameAlreadyExists => 409,
            UserError::InvalidCredentials | UserError::Unauthorized => 401,
        }
    }
}

} // verus!
