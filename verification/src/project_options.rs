//! What may be done with a project, and by whom.

use vstd::prelude::*;
use crate::error::{NOT_FOUND, UNAUTHORIZED};
use crate::object_id::ObjectId;

verus! {

/// The owner of a project, if the project was found.
pub open spec fn owner_of(owner: Option<ObjectId>) -> Option<Seq<u8>> {
    match owner {
        Some(owner) => Some(owner@),
        None => None,
    }
}

/// The verdict on a request of `user_id` to delete a project whose owner is
/// `owner`, or which was not found.
pub open spec fn deletion(owner: Option<Seq<u8>>, user_id: Seq<u8>) -> Result<(), u16> {
    match owner {
        None => Err(NOT_FOUND),
        Some(owner) => if owner == user_id {
            Ok(())
        } else {
            Err(UNAUTHORIZED)
        },
    }
}

/// Decides whether `user_id` may delete a project: only its owner may, and
/// only a project that exists.
pub fn delete_project(owner: Option<ObjectId>, user_id: ObjectId) -> (verdict: Result<(), u16>)
    ensures
        verdict == deletion(owner_of(owner), user_id@),
{
    match owner {
        None => Err(NOT_FOUND),
        Some(owner) => {
            if owner.same(&user_id) {
                Ok(())
            } else {
                Err(UNAUTHORIZED)
            }
        },
    }
}

/// The identifiers among the entries of a contributors list; an entry that
/// is no identifier is passed over.
pub open spec fn identifiers(entries: Seq<Option<ObjectId>>) -> Seq<ObjectId>
    decreases entries.len(),
{
    if entries.len() == 0 {
        Seq::empty()
    } else if entries.last() is Some {
        identifiers(entries.drop_last()).push(entries.last().unwrap())
    } else {
        identifiers(entries.drop_last())
    }
}

/// The users from whose lists a deleted project is to be removed: every
/// entry of its contributors list that is an identifier, in order.
pub fn remove_project_from_contributors_lists(contributors: &Vec<Option<ObjectId>>) -> (users: Vec<
    ObjectId,
>)
    ensures
        users@ == identifiers(contributors@),
{
    let mut users: Vec<ObjectId> = Vec::new();
    let mut i: usize = 0;
    proof {
        assert(contributors@.take(0) =~= Seq::<Option<ObjectId>>::empty());
    }
    while i < contributors.len()
        invariant
            i <= contributors.len(),
            users@ == identifiers(contributors@.take(i as int)),
        decreases contributors.len() - i,
    {
        proof {
            let next = contributors@.take(i + 1);
            assert(next.drop_last() =~= contributors@.take(i as int));
            assert(next.last() == contributors@[i as int]);
        }
        match contributors[i] {
            Some(user_id) => {
                users.push(user_id);
            },
            None => {},
        }
        i += 1;
    }
    proof {
        assert(contributors@.take(contributors.len() as int) =~= contributors@);
    }
    users
}

} // verus!
