//! Looking up a group by its Planning Center id.
use vstd::prelude::*;

use crate::model::database::Group;

verus! {

/// Answer of a group lookup.
pub enum GetGroupResult<E> {
    Success(Group),
    NotFound,
    MoreThanOneFound,
    GroupDeleted,
    UnknownDatabaseError(E),
}

/// The answer a lookup gives for the rows its query returned.
pub open spec fn group_lookup(rows: Seq<Group>) -> GetGroupResult<()> {
    if rows.len() == 0 {
        GetGroupResult::NotFound
    } else if rows.len() > 1 {
        GetGroupResult::MoreThanOneFound
    } else if rows[0].is_deleted {
        GetGroupResult::GroupDeleted
    } else {
        GetGroupResult::Success(rows[0])
    }
}

/// Answers a group lookup from the rows the query by Planning Center id
/// returned: a single row that is not marked deleted is the group.
pub fn by_planning_center_id<E>(query: Result<Vec<Group>, E>) -> (result: GetGroupResult<E>)
    ensures
        match query {
            Err(e) => result == GetGroupResult::<E>::UnknownDatabaseError(e),
            Ok(rows) => match group_lookup(rows@) {
                GetGroupResult::Success(g) => result == GetGroupResult::<E>::Success(g),
                GetGroupResult::NotFound => result is NotFound,
                GetGroupResult::MoreThanOneFound => result is MoreThanOneFound,
                GetGroupResult::GroupDeleted => result is GroupDeleted,
                GetGroupResult::UnknownDatabaseError(_) => false,
            },
        },
{
    match query {
        Err(e) => GetGroupResult::UnknownDatabaseError(e),
        Ok(rows) => {
            let mut rows = rows;
            if rows.len() == 0 {
                GetGroupResult::NotFound
            } else if rows.len() > 1 {
                GetGroupResult::MoreThanOneFound
            } else if rows[0].is_deleted {
                GetGroupResult::GroupDeleted
            } else {
                GetGroupResult::Success(rows.remove(0))
            }
        },
    }
}

} // verus!
