//! Looking up a user by its Planning Center id.
use vstd::prelude::*;

use crate::model::database::User;

verus! {

/// Answer of a user lookup.
pub enum GetUserResult<E> {
    Success(User),
    NotFound,
    MoreThanOneFound,
    UserDeleted,
    UnknownDatabaseError(E),
}

/// The answer a lookup gives for the rows its query returned.
pub open spec fn user_lookup(rows: Seq<User>) -> GetUserResult<()> {
    if rows.len() == 0 {
        GetUserResult::NotFound
    } else if rows.len() > 1 {
        GetUserResult::MoreThanOneFound
    } else if rows[0].is_deleted {
        GetUserResult::UserDeleted
    } else {
        GetUserResult::Success(rows[0])
    }
}

/// Answers a user lookup from the rows the query by Planning Center id
/// returned: a single row that is not marked deleted is the user.
pub fn by_planning_center_id<E>(query: Result<Vec<User>, E>) -> (result: GetUserResult<E>)
    ensures
        match query {
            Err(e) => result == GetUserResult::<E>::UnknownDatabaseError(e),
            Ok(rows) => match user_lookup(rows@) {
                GetUserResult::Success(g) => result == GetUserResult::<E>::Success(g),
                GetUserResult::NotFound => result is NotFound,
                GetUserResult::MoreThanOneFound => result is MoreThanOneFound,
                GetUserResult::UserDeleted => result is UserDeleted,
                GetUserResult::UnknownDatabaseError(_) => false,
            },
        },
{
    match query {
        Err(e) => GetUserResult::UnknownDatabaseError(e),
        Ok(rows) => {
            let mut rows = rows;
            if rows.len() == 0 {
                GetUserResult::NotFound
            } else if rows.len() > 1 {
                GetUserResult::MoreThanOneFound
            } else if rows[0].is_deleted {
                GetUserResult::UserDeleted
            } else {
                GetUserResult::Success(rows.remove(0))
            }
        },
    }
}

} // verus!
