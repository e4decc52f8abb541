//! Failures of request validation.  Every variant carries the field or
//! format the request fell short of.

use vstd::prelude::*;

verus! {

#[derive(Clone, Debug, PartialEq, Eq)]
pub enum ValidationError {
    RequiredField(String),
    InvalidFormat(String),
    InvalidLength(String),
    InvalidRange(String),
}

impl ValidationError {
    /// Every validation failure is the client's: a bad request.
    pub open spec fn status_code_spec(&self) -> u16 {
        400
    }

    pub fn status_code(&self) -> (code: u16)
        ensures
            code == self.status_code_spec(),
    {
        400
    }
}

} // verus!
