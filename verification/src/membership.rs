//! The membership gate: the authorization predicate that every ledger
//! read or mutation must pass.

use vstd::prelude::*;

use crate::errors::{AppError, GroupError, ValidationError};
use crate::models::{Id, Member};

verus! {

/// Whether some member of `members` carries the identity `id`.
pub open spec fn has_member(members: Seq<Member>, id: Id) -> bool {
    exists|i: int| 0 <= i < members.len() && members[i].id == id
}

/// Whether the member list names each identity at most once, as a
/// member set must.
pub open spec fn distinct_ids(members: Seq<Member>) -> bool {
    forall|i: int, j: int|
        0 <= i < j < members.len() ==> members[i].id != members[j].id
}

/// Is the given user a member of the group whose member list this is?
pub fn is_member(members: &Vec<Member>, user_id: Id) -> (r: bool)
    ensures
        r == has_member(members@, user_id),
{
    let mut i: usize = 0;
    while i < members.len()
        invariant
            i <= members@.len(),
            forall|j: int| 0 <= j < i ==> members@[j].id != user_id,
        decreases members@.len() - i,
    {
        if members[i].id == user_id {
            return true;
        }
        i += 1;
    }
    false
}

/// Gate an operation on membership: non-members are turned away with
/// the precise failure reason and the operation must not proceed.
pub fn require_member(members: &Vec<Member>, user_id: Id) -> (r: Result<(), GroupError>)
    ensures
        match r {
            Ok(()) => has_member(members@, user_id),
            Err(e) => !has_member(members@, user_id) && e == GroupError::NotAMember,
        },
{
    if is_member(members, user_id) {
        Ok(())
    } else {
        Err(GroupError::NotAMember)
    }
}

/// Gate a payment: both parties must be members of the group and a
/// member cannot pay itself.  Membership is checked first, then the
/// self-payment rule, as the recording path does.
pub fn authorize_payment(members: &Vec<Member>, from: Id, to: Id) -> (r: Result<(), AppError>)
    ensures
        match r {
            Ok(()) => has_member(members@, from) && has_member(members@, to) && from != to,
            Err(e) => {
                if !has_member(members@, from) || !has_member(members@, to) {
                    e == AppError::Group(GroupError::NotAMember)
                } else {
                    &&& from == to
                    &&& e matches AppError::Validation(ValidationError::InvalidFormat(f)) && f@
                        == "cannot make payment to yourself"@
                }
            },
        },
{
    let from_member = is_member(members, from);
    let to_member = is_member(members, to);
    if !from_member || !to_member {
        return Err(AppError::Group(GroupError::NotAMember));
    }
    if from == to {
        return Err(
            AppError::Validation(
                ValidationError::InvalidFormat("cannot make payment to yourself".to_owned()),
            ),
        );
    }
    Ok(())
}

/// Runtime check of the member-set precondition, for callers whose
/// member list arrives from outside the core.
pub fn member_ids_distinct(members: &Vec<Member>) -> (r: bool)
    ensures
        r == distinct_ids(members@),
{
    let mut i: usize = 0;
    while i < members.len()
        invariant
            i <= members@.len(),
            forall|p: int, q: int| 0 <= p < q < members@.len() && p < i ==> members@[p].id != members@[q].id,
        decreases members@.len() - i,
    {
        let mut j: usize = i + 1;
        while j < members.len()
            invariant
                i < j <= members@.len(),
                i < members@.len(),
                forall|q: int| i < q < j ==> members@[i as int].id != members@[q].id,
            decreases members@.len() - j,
        {
            if members[i].id == members[j].id {
                return false;
            }
            j += 1;
        }
        i += 1;
    }
    true
}

} // verus!
