//! Failures reported by the ledger store.  The store itself is an
//! outside collaborator; these variants carry its reports into the
//! core's error taxonomy.

use vstd::prelude::*;

verus! {

#[derive(Clone, Debug, PartialEq, Eq)]
pub enum DatabaseError {
    ConnectionFailed(String),
    QueryFailed(String),
    TransactionFailed(String),
    ConstraintViolation(String),
    NotFound,
}

impl DatabaseError {
    /// The HTTP status this failure maps to: a missing record is the
    /// caller's problem, everything else is the server's.
    pub open spec fn status_code_spec(&self) -> u16 {
        match self {
            DatabaseError::NotFound => 404,
            _ => 500,
        }
    }

    pub fn status_code(&self) -> (code: u16)
        ensures
            code == self.status_code_spec(),
    {
        match self {
            DatabaseError::NotFound => 404,
            _ => 500,
        }
    }
}

} // verus!
