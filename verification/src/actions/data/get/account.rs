//! Looking up a linked account by its id.
use vstd::prelude::*;

use crate::model::database::Account;

verus! {

/// Answer of an account lookup.
pub enum GetAccountResult<E> {
    Success(Account),
    NotFound,
    MoreThanOneFound,
    UnknownDatabaseError(E),
}

/// Answers an account lookup from the rows the query by id returned.
pub fn by_id<E>(query: Result<Vec<Account>, E>) -> (result: GetAccountResult<E>)
    ensures
        match query {
            Err(e) => result == GetAccountResult::<E>::UnknownDatabaseError(e),
            Ok(rows) => if rows.len() == 0 {
                result is NotFound
            } else if rows.len() > 1 {
                result is MoreThanOneFound
            } else {
                result == GetAccountResult::<E>::Success(rows@[0])
            },
        },
{
    match query {
        Err(e) => GetAccountResult::UnknownDatabaseError(e),
        Ok(rows) => {
            let mut rows = rows;
            if rows.len() == 0 {
                GetAccountResult::NotFound
            } else if rows.len() > 1 {
                GetAccountResult::MoreThanOneFound
            } else {
                GetAccountResult::Success(rows.remove(0))
            }
        },
    }
}

} // verus!
