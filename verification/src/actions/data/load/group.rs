//! Importing groups.
use vstd::prelude::*;

use crate::model::database::{is_imported_group, imported_planning_center_id, Group};
use crate::model::{excel, json};

verus! {

/// The records of a group import, by the kind of file they came from.
pub enum GroupRecords {
    Excel(Vec<excel::Group>),
    Json(Vec<json::Group>),
}

/// Turns every imported record into a group, in order.
pub fn from(records: GroupRecords) -> (groups: Vec<Group>)
    ensures
        match records {
            GroupRecords::Excel(items) => groups.len() == items.len() && forall|i: int| 0 <= i < items.len()
                ==> is_imported_group(#[trigger] groups@[i], items@[i].name@, Seq::empty(), items@[i].positions),
            GroupRecords::Json(items) => groups.len() == items.len() && forall|i: int| 0 <= i < items.len()
                ==> is_imported_group(#[trigger] groups@[i], items@[i].name@, imported_planning_center_id(items@[i].planning_center_id), items@[i].required as i32),
        },
{
    let mut groups: Vec<Group> = Vec::new();
    match records {
        GroupRecords::Excel(items) => {
            let mut i: usize = 0;
            while i < items.len()
                invariant
                    i <= items.len(),
                    groups.len() == i,
                    forall|k: int| 0 <= k < i ==> is_imported_group(#[trigger] groups@[k], items@[k].name@, Seq::empty(), items@[k].positions),
                decreases items.len() - i,
            {
                groups.push(Group::from_excel(&items[i]));
                i = i + 1;
            }
        },
        GroupRecords::Json(items) => {
            let mut i: usize = 0;
            while i < items.len()
                invariant
                    i <= items.len(),
                    groups.len() == i,
                    forall|k: int| 0 <= k < i ==> is_imported_group(#[trigger] groups@[k], items@[k].name@, imported_planning_center_id(items@[k].planning_center_id), items@[k].required as i32),
                decreases items.len() - i,
            {
                groups.push(Group::from_json(&items[i]));
                i = i + 1;
            }
        },
    }
    groups
}

} // verus!
