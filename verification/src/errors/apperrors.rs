//! The top of the error taxonomy: every failure a request handler can
//! surface, with conversions from each domain error.

use vstd::prelude::*;

use crate::errors::autherrors::AuthError;
use crate::errors::dberrors::DatabaseError;
use crate::errors::expenseerrors::ExpenseError;
use crate::errors::grouperrors::GroupError;
use crate::errors::usererrors::UserError;
use crate::errors::validationerrors::ValidationError;

verus! {

#[derive(Clone, Debug, PartialEq, Eq)]
pub enum AppError {
    Auth(AuthError),
    Database(DatabaseError),
    Validation(ValidationError),
    Expense(ExpenseError),
    User(UserError),
    Group(GroupError),
    Internal(String),
    NotFound(String),
    BadRequest(String),
    Forbidden(String),
}

pub type AppResult<T> = Result<T, AppError>;

impl AppError {
    /// The HTTP status this failure maps to, delegating to the domain
    /// error where there is one.
    pub open spec fn status_code_spec(&self) -> u16 {
        match self {
            AppError::Auth(err) => err.status_code_spec(),
            AppError::Database(err) => err.status_code_spec(),
            AppError::Validation(err) => err.status_code_spec(),
            AppError::Expense(err) => err.status_code_spec(),
            AppError::User(err) => err.status_code_spec(),
            AppError::Group(err) => err.status_code_spec(),
            AppError::Internal(_) => 500,
            AppError::NotFound(_) => 404,
            AppError::BadRequest(_) => 400,
            AppError::Forbidden(_) => 403,
        }
    }

    pub fn status_code(&self) -> (code: u16)
        ensures
            code == self.status_code_spec(),
    {
        match self {
            AppError::Auth(err) => err.status_code(),
            AppError::Database(err) => err.status_code(),
            AppError::Validation(err) => err.status_code(),
            AppError::Expense(err) => err.status_code(),
            AppError::User(err) => err.status_code(),
            AppError::Group(err) => err.status_code(),
            AppError::Internal(_) => 500,
            AppError::NotFound(_) => 404,
            AppError::BadRequest(_) => 400,
            AppError::Forbidden(_) => 403,
        }
    }
}

impl From<AuthError> for AppError {
    fn from(err: AuthError) -> Self {
        AppError::Auth(err)
    }
}

impl vstd::std_specs::convert::FromSpecImpl<AuthError> for AppError {
    open spec fn obeys_from_spec() -> bool {
        true
    }

    open spec fn from_spec(err: AuthError) -> Self {
        AppError::Auth(err)
    }
}

impl From<DatabaseError> for AppError {
    fn from(err: DatabaseError) -> Self {
        AppError::Database(err)
    }
}

impl vstd::std_specs::convert::FromSpecImpl<DatabaseError> for AppError {
    open spec fn obeys_from_spec() -> bool {
        true
    }

    open spec fn from_spec(err: DatabaseError) -> Self {
        AppError::Database(err)
    }
}

impl From<ValidationError> for AppError {
    fn from(err: ValidationError) -> Self {
        AppError::Validation(err)
    }
}

impl vstd::std_specs::convert::FromSpecImpl<ValidationError> for AppError {
    open spec fn obeys_from_spec() -> bool {
        true
    }

    open spec fn from_spec(err: ValidationError) -> Self {
        AppError::Validation(err)
    }
}

impl From<ExpenseError> for AppError {
    fn from(err: ExpenseError) -> Self {
        AppError::Expense(err)
    }
}

impl vstd::std_specs::convert::FromSpecImpl<ExpenseError> for AppError {
    open spec fn obeys_from_spec() -> bool {
        true
    }

    open spec fn from_spec(err: ExpenseError) -> Self {
        AppError::Expense(err)
    }
}

impl From<UserError> for AppError {
    fn from(err: UserError) -> Self {
        AppError::User(err)
    }
}

impl vstd::std_specs::convert::FromSpecImpl<UserError> for AppError {
    open spec fn obeys_from_spec() -> bool {
        true
    }

    open spec fn from_spec(err: UserError) -> Self {
        AppError::User(err)
    }
}

impl From<GroupError> for AppError {
    fn from(err: GroupError) -> Self {
        AppError::Group(err)
    }
}

impl vstd::std_specs::convert::FromSpecImpl<GroupError> for AppError {
    open spec fn obeys_from_spec() -> bool {
        true
    }

    open spec fn from_spec(err: GroupError) -> Self {
        AppError::Group(err)
    }
}

} // verus!
