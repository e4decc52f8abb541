//! Failures of group operations, the membership gate's among them.

use vstd::prelude::*;

verus! {

#[derive(Clone, Copy, Debug, PartialEq, Eq, Structural)]
pub enum GroupError {
    NotFound,
    NotAMember,
    AlreadyMember,
    InsufficientPermissions,
    GroupFull,
}

impl GroupError {
    /// The HTTP status this failure maps to.
    pub open spec fn status_code_spec(&self) -> u16 {
        match self {
            GroupError::NotFound => 404,
            GroupError::NotAMember => 403,
            GroupError::InsufficientPermissions => 403,
            GroupError::AlreadyMember => 400,
            GroupError::GroupFull => 400,
        }
    }

    pub fn status_code(&self) -> (code: u16)
        ensures
            code == self.status_code_spec(),
    {
        match self {
            GroupError::NotFound => 404,
            GroupError::NotAMember | GroupError::InsufficientPermissions => 403,
            GroupError::AlreadyMember | GroupError::GroupFull => 400,
        }
    }
}

} // verus!
