//! Shared data types of the expense-splitting core: identifiers,
//! users, groups, ledger records and the request payloads with their
//! validation rules.
//!
//! Monetary amounts are fixed-point decimals with two decimal places,
//! held as a signed count of minor currency units (cents).  Floating
//! point never appears: it would let per-member shares drift away from
//! the exact zero-sum reconciliation the engine guarantees.

use vstd::prelude::*;
use vstd::string::StrSliceExecFns;

use crate::errors::{AppError, AppResult, ValidationError};

verus! {

/// Largest amount a single expense or payment may carry, in cents
/// (999,999.99 in major units), matching the request validation rules.
pub const MAX_AMOUNT_CENTS: i64 = 99_999_999;

/// An amount a ledger record may carry: strictly positive and within
/// the validation cap.
pub open spec fn valid_amount(cents: i64) -> bool {
    0 < cents <= MAX_AMOUNT_CENTS
}

/// An opaque 128-bit identifier for users, groups, expenses and
/// payments.  The surrounding layer maps its UUIDs onto this type.
#[derive(Clone, Copy, Debug, PartialEq, Eq, Hash, Structural)]
pub struct Id {
    pub value: u128,
}

/// A member of a group, as the ledger store reports it: identity plus
/// display name.
#[derive(Clone, Debug)]
pub struct Member {
    pub id: Id,
    pub username: String,
}

/// A stored user account.
#[derive(Clone, Debug)]
pub struct User {
    pub id: Id,
    pub email: String,
    pub username: String,
    pub password_hash: String,
    pub is_admin: Option<bool>,
    pub created_at: Option<i64>,
}

/// The public projection of a user: everything but the credential.
#[derive(Clone, Debug, PartialEq, Eq)]
pub struct UserResponse {
    pub id: Id,
    pub email: String,
    pub username: String,
    pub is_admin: bool,
}

/// Projects a stored user onto its public form; a missing admin flag
/// means an ordinary user.
pub fn user_response_of(user: &User) -> (response: UserResponse)
    ensures
        response.id == user.id,
        response.email@ == user.email@,
        response.username@ == user.username@,
        response.is_admin == (user.is_admin matches Some(flag) && flag),
{
    let is_admin = match user.is_admin {
        Some(flag) => flag,
        None => false,
    };
    UserResponse {
        id: user.id,
        email: user.email.clone(),
        username: user.username.clone(),
        is_admin,
    }
}

/// A group of members sharing expenses.
#[derive(Clone, Debug)]
pub struct Group {
    pub id: Id,
    pub name: String,
    pub created_by: Id,
    pub created_at: i64,
}

/// A recorded outlay by one member, split equally across the group.
#[derive(Clone, Debug)]
pub struct Expense {
    pub id: Id,
    pub group_id: Id,
    pub paid_by: Id,
    pub amount_cents: i64,
    pub description: String,
    pub created_at: i64,
}

/// An expense joined with its payer's display name.
#[derive(Clone, Debug)]
pub struct ExpenseResponse {
    pub id: Id,
    pub group_id: Id,
    pub paid_by: Id,
    pub amount_cents: i64,
    pub description: String,
    pub created_at: i64,
    pub username: String,
}

/// A recorded transfer between two members settling part of their
/// balance.  Well-formed payments never pay their own sender.
#[derive(Clone, Debug)]
pub struct Payment {
    pub id: Id,
    pub group_id: Id,
    pub from_user_id: Id,
    pub to_user_id: Id,
    pub amount_cents: i64,
    pub created_at: i64,
}

/// A member's derived net position: positive means the group owes the
/// member, negative means the member owes the group.  Never stored;
/// recomputed from the ledgers on every query.
#[derive(Clone, Debug, PartialEq, Eq)]
pub struct Balance {
    pub user_id: Id,
    pub username: String,
    pub balance_cents: i64,
}

/// Whether some character of `s` is `c`.
fn str_contains_char(s: &str, c: char) -> (r: bool)
    ensures
        r == s@.contains(c),
{
    let len = s.unicode_len();
    let mut i: usize = 0;
    while i < len
        invariant
            len == s@.len(),
            i <= len,
            forall|j: int| 0 <= j < i ==> s@[j] != c,
        decreases len - i,
    {
        if s.get_char(i) == c {
            return true;
        }
        i += 1;
    }
    false
}

/// What uuid::Uuid::parse_str concludes for a string: whether it is a
/// well-formed UUID in any of the textual forms the parser admits; a
/// function of the string alone.
pub uninterp spec fn is_uuid_str(s: Seq<char>) -> bool;

/// Relies on uuid::Uuid::parse_str: a pure, deterministic parser of
/// the string.
#[verifier::external_body]
fn uuid_parse_ok(s: &str) -> (r: bool)
    ensures
        r == is_uuid_str(s@),
{
    uuid::Uuid::parse_str(s).is_ok()
}

/// A registration request.
#[derive(Clone, Debug)]
pub struct CreateUser {
    pub email: String,
    pub username: String,
    pub password: String,
}

impl CreateUser {
    /// Admits exactly the requests with every field present, a
    /// password of at least eight characters and a plausible email
    /// address, and names the first rule a refused request broke.
    pub fn validate(&self) -> (r: AppResult<()>)
        ensures
            match r {
                Ok(()) => self.email@.len() > 0 && self.username@.len() > 0
                    && self.password@.len() >= 8 && self.email@.contains('@'),
                Err(e) => {
                    &&& e matches AppError::Validation(ve)
                    &&& if self.email@.len() == 0 {
                        ve matches ValidationError::RequiredField(f) && f@ == "email"@
                    } else if self.username@.len() == 0 {
                        ve matches ValidationError::RequiredField(f) && f@ == "username"@
                    } else if self.password@.len() == 0 {
                        ve matches ValidationError::RequiredField(f) && f@ == "password"@
                    } else if self.password@.len() < 8 {
                        ve matches ValidationError::InvalidFormat(f) && f@
                            == "password must be at least 8 characters"@
                    } else {
                        &&& !self.email@.contains('@')
                        &&& ve matches ValidationError::InvalidFormat(f) && f@
                            == "valid email address"@
                    }
                },
            },
    {
        if self.email.as_str().is_empty() {
            return Err(AppError::Validation(ValidationError::RequiredField("email".to_owned())));
        }
        if self.username.as_str().is_empty() {
            return Err(AppError::Validation(ValidationError::RequiredField("username".to_owned())));
        }
        if self.password.as_str().is_empty() {
            return Err(AppError::Validation(ValidationError::RequiredField("password".to_owned())));
        }
        if self.password.as_str().unicode_len() < 8 {
            return Err(
                AppError::Validation(
                    ValidationError::InvalidFormat("password must be at least 8 characters".to_owned()),
                ),
            );
        }
        if !str_contains_char(self.email.as_str(), '@') {
            return Err(
                AppError::Validation(ValidationError::InvalidFormat("valid email address".to_owned())),
            );
        }
        Ok(())
    }
}

/// A login attempt.
#[derive(Clone, Debug)]
pub struct LoginRequest {
    pub email: String,
    pub password: String,
}

impl LoginRequest {
    /// Admits exactly the attempts with both fields present, and names
    /// the first missing one otherwise.
    pub fn validate(&self) -> (r: AppResult<()>)
        ensures
            match r {
                Ok(()) => self.email@.len() > 0 && self.password@.len() > 0,
                Err(e) => {
                    &&& e matches AppError::Validation(ve)
                    &&& if self.email@.len() == 0 {
                        ve matches ValidationError::RequiredField(f) && f@ == "email"@
                    } else {
                        &&& self.password@.len() == 0
                        &&& ve matches ValidationError::RequiredField(f) && f@ == "password"@
                    }
                },
            },
    {
        if self.email.as_str().is_empty() {
            return Err(AppError::Validation(ValidationError::RequiredField("email".to_owned())));
        }
        if self.password.as_str().is_empty() {
            return Err(AppError::Validation(ValidationError::RequiredField("password".to_owned())));
        }
        Ok(())
    }
}

/// A request to create a group with an initial member set.
#[derive(Clone, Debug)]
pub struct CreateGroup {
    pub name: String,
    pub user_ids: Vec<Id>,
}

impl CreateGroup {
    /// Admits exactly the requests with a name of at most 255
    /// characters and at least one member.
    pub fn validate(&self) -> (r: AppResult<()>)
        ensures
            match r {
                Ok(()) => 0 < self.name@.len() <= 255 && self.user_ids@.len() > 0,
                Err(e) => {
                    &&& e matches AppError::Validation(ve)
                    &&& if self.name@.len() == 0 {
                        ve matches ValidationError::RequiredField(f) && f@ == "group name"@
                    } else if self.user_ids@.len() == 0 {
                        ve matches ValidationError::RequiredField(f) && f@
                            == "at least one user ID"@
                    } else {
                        &&& self.name@.len() > 255
                        &&& ve matches ValidationError::InvalidFormat(f) && f@
                            == "group name must be less than 255 characters"@
                    }
                },
            },
    {
        if self.name.as_str().is_empty() {
            return Err(AppError::Validation(ValidationError::RequiredField("group name".to_owned())));
        }
        if self.user_ids.len() == 0 {
            return Err(
                AppError::Validation(ValidationError::RequiredField("at least one user ID".to_owned())),
            );
        }
        if self.name.as_str().unicode_len() > 255 {
            return Err(
                AppError::Validation(
                    ValidationError::InvalidFormat(
                        "group name must be less than 255 characters".to_owned(),
                    ),
                ),
            );
        }
        Ok(())
    }
}

/// A request to record an expense, its amount already in cents.
#[derive(Clone, Debug)]
pub struct CreateExpense {
    pub amount_cents: i64,
    pub description: String,
}

impl CreateExpense {
    /// Admits exactly the requests with a positive amount within the
    /// cap and a description of 1 to 500 characters.
    pub fn validate(&self) -> (r: AppResult<()>)
        ensures
            match r {
                Ok(()) => valid_amount(self.amount_cents) && 0 < self.description@.len() <= 500,
                Err(e) => {
                    &&& e matches AppError::Validation(ve)
                    &&& if self.description@.len() == 0 {
                        ve matches ValidationError::RequiredField(f) && f@ == "description"@
                    } else if self.amount_cents <= 0 {
                        ve matches ValidationError::InvalidFormat(f) && f@
                            == "amount must be greater than 0"@
                    } else if self.amount_cents > MAX_AMOUNT_CENTS {
                        ve matches ValidationError::InvalidFormat(f) && f@
                            == "amount must be less than 1,000,000"@
                    } else {
                        &&& self.description@.len() > 500
                        &&& ve matches ValidationError::InvalidFormat(f) && f@
                            == "description must be less than 500 characters"@
                    }
                },
            },
    {
        if self.description.as_str().is_empty() {
            return Err(
                AppError::Validation(ValidationError::RequiredField("description".to_owned())),
            );
        }
        if self.amount_cents <= 0 {
            return Err(
                AppError::Validation(
                    ValidationError::InvalidFormat("amount must be greater than 0".to_owned()),
                ),
            );
        }
        if self.amount_cents > MAX_AMOUNT_CENTS {
            return Err(
                AppError::Validation(
                    ValidationError::InvalidFormat("amount must be less than 1,000,000".to_owned()),
                ),
            );
        }
        if self.description.as_str().unicode_len() > 500 {
            return Err(
                AppError::Validation(
                    ValidationError::InvalidFormat(
                        "description must be less than 500 characters".to_owned(),
                    ),
                ),
            );
        }
        Ok(())
    }
}

/// A request to record a payment to another member, its amount already
/// in cents.
#[derive(Clone, Debug)]
pub struct CreatePayment {
    pub to_user_id: String,
    pub amount_cents: i64,
}

impl CreatePayment {
    /// Admits exactly the requests with a positive amount within the
    /// cap and a recipient given as a well-formed UUID string.
    pub fn validate(&self) -> (r: AppResult<()>)
        ensures
            match r {
                Ok(()) => self.to_user_id@.len() > 0 && valid_amount(self.amount_cents)
                    && is_uuid_str(self.to_user_id@),
                Err(e) => {
                    &&& e matches AppError::Validation(ve)
                    &&& if self.to_user_id@.len() == 0 {
                        ve matches ValidationError::RequiredField(f) && f@ == "to_user_id"@
                    } else if self.amount_cents <= 0 {
                        ve matches ValidationError::InvalidFormat(f) && f@
                            == "payment amount must be greater than 0"@
                    } else if self.amount_cents > MAX_AMOUNT_CENTS {
                        ve matches ValidationError::InvalidFormat(f) && f@
                            == "payment amount must be less than 1,000,000"@
                    } else {
                        &&& !is_uuid_str(self.to_user_id@)
                        &&& ve matches ValidationError::InvalidFormat(f) && f@
                            == "valid UUID for to_user_id"@
                    }
                },
            },
    {
        if self.to_user_id.as_str().is_empty() {
            return Err(
                AppError::Validation(ValidationError::RequiredField("to_user_id".to_owned())),
            );
        }
        if self.amount_cents <= 0 {
            return Err(
                AppError::Validation(
                    ValidationError::InvalidFormat("payment amount must be greater than 0".to_owned()),
                ),
            );
        }
        if self.amount_cents > MAX_AMOUNT_CENTS {
            return Err(
                AppError::Validation(
                    ValidationError::InvalidFormat(
                        "payment amount must be less than 1,000,000".to_owned(),
                    ),
                ),
            );
        }
        if !uuid_parse_ok(self.to_user_id.as_str()) {
            return Err(
                AppError::Validation(
                    ValidationError::InvalidFormat("valid UUID for to_user_id".to_owned()),
                ),
            );
        }
        Ok(())
    }
}

} // verus!
