//! What the group webhooks store.
use vstd::prelude::*;

use crate::actions::data::get::group::{group_lookup, GetGroupResult};
use crate::ids::{spec_uuid_v5_oid, uuid_v5_oid};
use crate::model::database::{is_imported_group, Group};

pub mod events;
pub mod membership;

verus! {

/// A group as an event creates it: identified by its name, no positions yet,
/// not deleted.
pub open spec fn is_new_group(g: Group, planning_center_id: Seq<char>, name: Seq<char>) -> bool {
    &&& g.id == spec_uuid_v5_oid(name)
    &&& g.planning_center_id@ == planning_center_id
    &&& g.name@ == name
    &&& g.positions == 0
    &&& !g.is_deleted
}

/// `g` marked deleted, all else unchanged.
pub open spec fn marked_deleted(g: Group) -> Group {
    Group { is_deleted: true, ..g }
}

/// The group a creation event stores. The event must carry the group's fields.
pub fn created_group(created: events::Group) -> (group: Group)
    requires
        created.data.attributes is Some,
    ensures
        is_new_group(group, created.data.id@, created.data.attributes->0.name@),
{
    let data = created.data;
    let name = match data.attributes {
        Some(attributes) => attributes.name,
        None => String::new(),
    };
    Group {
        id: uuid_v5_oid(name.as_str()),
        name,
        positions: 0,
        planning_center_id: data.id,
        is_deleted: false,
    }
}

/// The group an update event stores, given the lookup of its Planning
/// Center id: a stored group takes the new name, an unknown group is created;
/// a failed lookup, several groups or a deleted group store nothing. The
/// event must carry the group's fields where a group is stored.
pub fn updated_group<E>(lookup: GetGroupResult<E>, updated: events::Group) -> (group: Option<Group>)
    requires
        (lookup is Success || lookup is NotFound) ==> updated.data.attributes is Some,
    ensures
        match lookup {
            GetGroupResult::Success(stored) => group matches Some(g)
                && g.id == stored.id
                && g.planning_center_id == stored.planning_center_id
                && g.name@ == updated.data.attributes->0.name@
                && g.positions == stored.positions
                && g.is_deleted == stored.is_deleted,
            GetGroupResult::NotFound => group matches Some(g)
                && is_new_group(g, updated.data.id@, updated.data.attributes->0.name@),
            _ => group is None,
        },
{
    match lookup {
        GetGroupResult::Success(stored) => {
            let mut g = stored;
            g.name = match updated.data.attributes {
                Some(attributes) => attributes.name,
                None => String::new(),
            };
            Some(g)
        },
        GetGroupResult::NotFound => Some(created_group(updated)),
        _ => None,
    }
}

/// The group a deletion event stores, given the lookup of its Planning
/// Center id: the stored group marked deleted; nothing otherwise.
pub fn deleted_group<E>(lookup: GetGroupResult<E>) -> (group: Option<Group>)
    ensures
        match lookup {
            GetGroupResult::Success(stored) => {
                &&& group == Some(marked_deleted(stored))
                &&& group matches Some(g) && g.id == stored.id && g.planning_center_id == stored.planning_center_id
                    && g.name == stored.name && g.positions == stored.positions && g.is_deleted
            },
            _ => group is None,
        },
{
    match lookup {
        GetGroupResult::Success(stored) => {
            let mut g = stored;
            g.is_deleted = true;
            Some(g)
        },
        _ => None,
    }
}

/// A group created by an event and a group imported from a file under the
/// same name get the same id, so an import and the webhooks agree on a group.
pub proof fn lemma_group_ids_follow_the_name(
    created: Group,
    imported: Group,
    name: Seq<char>,
    event_planning_center_id: Seq<char>,
    imported_planning_center_id: Seq<char>,
    positions: i32,
)
    requires
        is_new_group(created, event_planning_center_id, name),
        is_imported_group(imported, name, imported_planning_center_id, positions),
    ensures
        created.id == imported.id,
{
}

/// Marking a group deleted keeps the group: the same id, Planning Center id,
/// name and positions, so the deletion lands on the stored row.
pub proof fn lemma_deletion_keeps_the_group(g: Group)
    ensures
        marked_deleted(g).id == g.id,
        marked_deleted(g).planning_center_id == g.planning_center_id,
        marked_deleted(g).name == g.name,
        marked_deleted(g).positions == g.positions,
        marked_deleted(g).is_deleted,
{
}

/// Once a deletion event has stored a group, looking that group up again
/// answers that it is deleted.
pub proof fn lemma_deleted_group_stays_deleted(stored: Group)
    ensures
        group_lookup(seq![marked_deleted(stored)]) is GroupDeleted,
{
}

} // verus!
