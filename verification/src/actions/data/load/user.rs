//! Importing users.
use vstd::prelude::*;

use crate::model::database::{is_imported_user, imported_planning_center_id, User};
use crate::model::{excel, json};

verus! {

/// The records of a user import, by the kind of file they came from.
pub enum UserRecords {
    Excel(Vec<excel::User>),
    Json(Vec<json::User>),
}

/// Turns every imported record into a user, in order.
pub fn from(records: &UserRecords) -> (users: Vec<User>)
    ensures
        match records {
            UserRecords::Excel(items) => users.len() == items.len() && forall|i: int| 0 <= i < items.len()
                ==> is_imported_user(#[trigger] users@[i], items@[i].first_name@, items@[i].last_name@, Seq::empty())
                    && users@[i].first_name@ == items@[i].first_name@ && users@[i].last_name@ == items@[i].last_name@,
            UserRecords::Json(items) => users.len() == items.len() && forall|i: int| 0 <= i < items.len()
                ==> is_imported_user(#[trigger] users@[i], items@[i].first_name@, items@[i].last_name@, imported_planning_center_id(items@[i].planning_center_id))
                    && users@[i].first_name@ == items@[i].first_name@ && users@[i].last_name@ == items@[i].last_name@,
        },
{
    let mut users: Vec<User> = Vec::new();
    match records {
        UserRecords::Excel(items) => {
            let mut i: usize = 0;
            while i < items.len()
                invariant
                    i <= items.len(),
                    users.len() == i,
                    forall|k: int| 0 <= k < i ==> is_imported_user(#[trigger] users@[k], items@[k].first_name@, items@[k].last_name@, Seq::empty())
                        && users@[k].first_name@ == items@[k].first_name@ && users@[k].last_name@ == items@[k].last_name@,
                decreases items.len() - i,
            {
                users.push(User::from_excel(&items[i]));
                i = i + 1;
            }
        },
        UserRecords::Json(items) => {
            let mut i: usize = 0;
            while i < items.len()
                invariant
                    i <= items.len(),
                    users.len() == i,
                    forall|k: int| 0 <= k < i ==> is_imported_user(#[trigger] users@[k], items@[k].first_name@, items@[k].last_name@, imported_planning_center_id(items@[k].planning_center_id))
                        && users@[k].first_name@ == items@[k].first_name@ && users@[k].last_name@ == items@[k].last_name@,
                decreases items.len() - i,
            {
                users.push(User::from_json(&items[i]));
                i = i + 1;
            }
        },
    }
    users
}

} // verus!
