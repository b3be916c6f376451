//! What the membership webhook stores: the member and the group, taken from
//! the service's records or fetched from Planning Center, and the membership
//! with its first ticket.
use vstd::prelude::*;

use crate::actions::data::get::group::GetGroupResult;
use crate::actions::data::get::user::GetUserResult;
use crate::api::webhooks::groups::is_new_group;
use crate::ids::{spec_uuid_v5_oid, uuid_to_string, uuid_v5_oid};
use crate::model::database::{membership_id, Group, GroupAssignment, PlanningCenterAccessTokens, User};
use crate::planning_center;

pub mod events;

verus! {

/// Where a record comes from after a lookup in the service's records.
pub enum Lookup<T> {
    Found(T),
    FetchFromPlanningCenter,
    Failed,
}

/// A stored, live user is used; an unknown one is fetched from Planning
/// Center; a failed lookup, several users or a deleted user fail.
pub fn person_source<E>(lookup: GetUserResult<E>) -> (source: Lookup<User>)
    ensures
        match lookup {
            GetUserResult::Success(u) => source == Lookup::Found(u),
            GetUserResult::NotFound => source is FetchFromPlanningCenter,
            _ => source is Failed,
        },
{
    match lookup {
        GetUserResult::Success(u) => Lookup::Found(u),
        GetUserResult::NotFound => Lookup::FetchFromPlanningCenter,
        _ => Lookup::Failed,
    }
}

/// A stored, live group is used; an unknown one is fetched from Planning
/// Center; a failed lookup, several groups or a deleted group fail.
pub fn group_source<E>(lookup: GetGroupResult<E>) -> (source: Lookup<Group>)
    ensures
        match lookup {
            GetGroupResult::Success(g) => source == Lookup::Found(g),
            GetGroupResult::NotFound => source is FetchFromPlanningCenter,
            _ => source is Failed,
        },
{
    match lookup {
        GetGroupResult::Success(g) => Lookup::Found(g),
        GetGroupResult::NotFound => Lookup::FetchFromPlanningCenter,
        _ => Lookup::Failed,
    }
}

/// The user stored for a person fetched from Planning Center: identified by
/// the name-based UUID of the Planning Center id, not deleted.
pub fn user_from_person(person: planning_center::people::v2::Person) -> (user: User)
    ensures
        user.id == spec_uuid_v5_oid(person.id@),
        user.planning_center_id == person.id,
        user.first_name == person.attributes.first_name,
        user.last_name == person.attributes.last_name,
        !user.is_deleted,
{
    let id = uuid_v5_oid(person.id.as_str());
    User {
        id,
        planning_center_id: person.id,
        first_name: person.attributes.first_name,
        last_name: person.attributes.last_name,
        is_deleted: false,
    }
}

/// The group stored for a group fetched from Planning Center: identified by
/// its name, no positions yet, not deleted.
pub fn group_from_planning_center(group: planning_center::group::v2::Group) -> (stored: Group)
    ensures
        is_new_group(stored, group.id@, group.attributes.name@),
{
    let name = group.attributes.name;
    Group {
        id: uuid_v5_oid(name.as_str()),
        planning_center_id: group.id,
        name,
        positions: 0,
        is_deleted: false,
    }
}

/// The membership of a user in a group as the webhook stores it: identified
/// by the two ids, with one ticket.
pub fn group_assignment_for(user: &User, group: &Group) -> (membership: GroupAssignment)
    ensures
        membership.id == membership_id(user.id, group.id),
        membership.group_id == group.id,
        membership.user_id == user.id,
        membership.tickets == 1,
{
    let mut name = uuid_to_string(user.id);
    let group_text = uuid_to_string(group.id);
    name.append(group_text.as_str());
    GroupAssignment { id: uuid_v5_oid(name.as_str()), group_id: group.id, user_id: user.id, tickets: 1 }
}

/// Whether an account's tokens have expired at the UNIX time `now`.
pub fn token_expired(tokens: &PlanningCenterAccessTokens, now: i64) -> (expired: bool)
    ensures
        expired == (tokens.expires_at < now),
{
    tokens.expires_at < now
}

} // verus!
