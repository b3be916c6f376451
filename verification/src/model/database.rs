//! Rows of the service's own tables. Identifiers are UUIDs held as
//! big-endian `u128` values.
use crate::date_time::Timestamp;
use crate::ids::{hyphenated, spec_uuid_v5_oid, uuid_to_string, uuid_v5_oid};
use crate::model::{excel, json};
use crate::text::{decimal_text, i32_to_string};
use vstd::prelude::*;

verus! {

/// A volunteer.
#[derive(Clone, Debug)]
pub struct User {
    pub id: u128,
    pub planning_center_id: String,
    pub first_name: String,
    pub last_name: String,
    pub is_deleted: bool,
}

/// A service group with a number of positions to fill on each date.
#[derive(Clone, Debug)]
pub struct Group {
    pub id: u128,
    pub planning_center_id: String,
    pub name: String,
    pub positions: i32,
    pub is_deleted: bool,
}

/// Membership of a user in a group, with the user's lottery tickets.
#[derive(Clone, Copy, Debug)]
pub struct GroupAssignment {
    pub id: u128,
    pub user_id: u128,
    pub group_id: u128,
    pub tickets: i32,
}

/// A user serving a group on one date.
#[derive(Clone, Copy, Debug)]
pub struct ServiceDate {
    pub id: u128,
    pub group_assignment_id: u128,
    pub tickets_consumed: i32,
    pub for_date: Timestamp,
}

/// A Planning Center account linked to the service.
#[derive(Clone, Debug)]
pub struct Account {
    pub id: u128,
    pub planning_center_id: String,
    pub access_token: String,
    pub refresh_token: String,
}

/// OAuth tokens of a Planning Center account; `expires_at` is a UNIX time
/// in seconds.
#[derive(Clone, Debug)]
pub struct PlanningCenterAccessTokens {
    pub id: u128,
    pub planning_center_id: String,
    pub access_token: String,
    pub refresh_token: String,
    pub expires_at: i64,
}

/// The name a user's id is derived from when the import gives no
/// Planning Center id: first and last name separated by a space.
pub open spec fn full_name(first_name: Seq<char>, last_name: Seq<char>) -> Seq<char> {
    first_name + seq![' '] + last_name
}

/// The Planning Center id an import record carries: its decimal form, or
/// empty when there is none.
pub open spec fn imported_planning_center_id(id: Option<i32>) -> Seq<char> {
    match id {
        Some(n) => decimal_text(n as int),
        None => Seq::empty(),
    }
}

/// The identifier of the membership of a user in a group: the name-based
/// UUID of the user's id followed by the group's id.
pub open spec fn membership_id(user_id: u128, group_id: u128) -> u128 {
    spec_uuid_v5_oid(hyphenated(user_id) + hyphenated(group_id))
}

/// A group as an import creates it: identified by its name, not deleted.
pub open spec fn is_imported_group(g: Group, name: Seq<char>, planning_center_id: Seq<char>, positions: i32) -> bool {
    &&& g.id == spec_uuid_v5_oid(name)
    &&& g.planning_center_id@ == planning_center_id
    &&& g.name@ == name
    &&& g.positions == positions
    &&& !g.is_deleted
}

/// A user as an import creates it: identified by the full name, not deleted.
pub open spec fn is_imported_user(u: User, first_name: Seq<char>, last_name: Seq<char>, planning_center_id: Seq<char>) -> bool {
    &&& u.id == spec_uuid_v5_oid(full_name(first_name, last_name))
    &&& u.planning_center_id@ == planning_center_id
    &&& u.first_name@ == first_name
    &&& u.last_name@ == last_name
    &&& !u.is_deleted
}

/// An imported user keeps the first and last name of its record, in their
/// places, and is identified by "first last".
pub proof fn lemma_imported_user_keeps_the_names(u: User, first_name: Seq<char>, last_name: Seq<char>, planning_center_id: Seq<char>)
    requires
        is_imported_user(u, first_name, last_name, planning_center_id),
    ensures
        u.first_name@ == first_name,
        u.last_name@ == last_name,
        u.id == spec_uuid_v5_oid(first_name + seq![' '] + last_name),
        u.planning_center_id@ == planning_center_id,
        !u.is_deleted,
{
}

/// An imported group keeps the name of its record and is identified by it.
pub proof fn lemma_imported_group_keeps_the_name(g: Group, name: Seq<char>, planning_center_id: Seq<char>, positions: i32)
    requires
        is_imported_group(g, name, planning_center_id, positions),
    ensures
        g.name@ == name,
        g.id == spec_uuid_v5_oid(name),
        g.planning_center_id@ == planning_center_id,
        g.positions == positions,
        !g.is_deleted,
{
}

/// The memberships an import creates for a user: one per listed group name,
/// in order, each with one ticket.
pub open spec fn imported_memberships(first_name: Seq<char>, last_name: Seq<char>, groups: Seq<Seq<char>>) -> Seq<GroupAssignment> {
    let user_id = spec_uuid_v5_oid(full_name(first_name, last_name));
    groups.map_values(
        |name: Seq<char>|
            GroupAssignment {
                id: membership_id(user_id, spec_uuid_v5_oid(name)),
                user_id,
                group_id: spec_uuid_v5_oid(name),
                tickets: 1,
            },
    )
}

/// Derives the id of a user from the first and last name.
fn full_name_id(first_name: &String, last_name: &String) -> (id: u128)
    ensures
        id == spec_uuid_v5_oid(full_name(first_name@, last_name@)),
{
    let mut name = first_name.clone();
    name.append(" ");
    name.append(last_name.as_str());
    proof {
        reveal_strlit(" ");
        assert(name@ =~= full_name(first_name@, last_name@));
    }
    uuid_v5_oid(name.as_str())
}

/// The Planning Center id of an import record as text.
fn planning_center_id_text(id: Option<i32>) -> (text: String)
    ensures
        text@ == imported_planning_center_id(id),
{
    match id {
        Some(n) => i32_to_string(n),
        None => String::new(),
    }
}

/// The memberships of a user in the named groups, one ticket each.
fn memberships_of(first_name: &String, last_name: &String, groups: &Vec<String>) -> (memberships: Vec<GroupAssignment>)
    ensures
        memberships@ == imported_memberships(first_name@, last_name@, groups@.map_values(|g: String| g@)),
{
    let user_id = full_name_id(first_name, last_name);
    let mut memberships: Vec<GroupAssignment> = Vec::new();
    let mut i: usize = 0;
    while i < groups.len()
        invariant
            i <= groups.len(),
            user_id == spec_uuid_v5_oid(full_name(first_name@, last_name@)),
            memberships@ == imported_memberships(first_name@, last_name@, groups@.take(i as int).map_values(|g: String| g@)),
        decreases groups.len() - i,
    {
        let group_id = uuid_v5_oid(groups[i].as_str());
        let mut name = uuid_to_string(user_id);
        let group_text = uuid_to_string(group_id);
        name.append(group_text.as_str());
        let id = uuid_v5_oid(name.as_str());
        memberships.push(GroupAssignment { id, user_id, group_id, tickets: 1 });
        assert(groups@.take(i + 1).map_values(|g: String| g@) =~= groups@.take(i as int).map_values(|g: String| g@).push(groups@[i as int]@));
        assert(memberships@ =~= imported_memberships(first_name@, last_name@, groups@.take(i + 1).map_values(|g: String| g@)));
        i = i + 1;
    }
    assert(groups@.take(groups.len() as int) =~= groups@);
    memberships
}

impl Group {
    /// A group from a spreadsheet row: no Planning Center id.
    pub fn from_excel(item: &excel::Group) -> (g: Group)
        ensures
            is_imported_group(g, item.name@, Seq::empty(), item.positions),
            g.name@ == item.name@,
            g.id == spec_uuid_v5_oid(item.name@),
            g.positions == item.positions,
            !g.is_deleted,
    {
        Group {
            id: uuid_v5_oid(item.name.as_str()),
            planning_center_id: String::new(),
            name: item.name.clone(),
            positions: item.positions,
            is_deleted: false,
        }
    }

    /// A group from a JSON record: its `required` count is the number of positions.
    pub fn from_json(item: &json::Group) -> (g: Group)
        ensures
            is_imported_group(g, item.name@, imported_planning_center_id(item.planning_center_id), item.required as i32),
            g.name@ == item.name@,
            g.id == spec_uuid_v5_oid(item.name@),
            g.planning_center_id@ == imported_planning_center_id(item.planning_center_id),
            g.positions == item.required as i32,
            !g.is_deleted,
    {
        Group {
            id: uuid_v5_oid(item.name.as_str()),
            planning_center_id: planning_center_id_text(item.planning_center_id),
            name: item.name.clone(),
            positions: item.required as i32,
            is_deleted: false,
        }
    }
}

impl User {
    /// A user from a spreadsheet row: no Planning Center id.
    pub fn from_excel(item: &excel::User) -> (u: User)
        ensures
            is_imported_user(u, item.first_name@, item.last_name@, Seq::empty()),
            u.first_name@ == item.first_name@,
            u.last_name@ == item.last_name@,
            u.id == spec_uuid_v5_oid(item.first_name@ + seq![' '] + item.last_name@),
            u.planning_center_id@ == Seq::<char>::empty(),
            !u.is_deleted,
    {
        User {
            id: full_name_id(&item.first_name, &item.last_name),
            planning_center_id: String::new(),
            first_name: item.first_name.clone(),
            last_name: item.last_name.clone(),
            is_deleted: false,
        }
    }

    /// A user from a JSON record.
    pub fn from_json(item: &json::User) -> (u: User)
        ensures
            is_imported_user(u, item.first_name@, item.last_name@, imported_planning_center_id(item.planning_center_id)),
            u.first_name@ == item.first_name@,
            u.last_name@ == item.last_name@,
            u.id == spec_uuid_v5_oid(item.first_name@ + seq![' '] + item.last_name@),
            u.planning_center_id@ == imported_planning_center_id(item.planning_center_id),
            !u.is_deleted,
    {
        User {
            id: full_name_id(&item.first_name, &item.last_name),
            planning_center_id: planning_center_id_text(item.planning_center_id),
            first_name: item.first_name.clone(),
            last_name: item.last_name.clone(),
            is_deleted: false,
        }
    }
}

impl GroupAssignment {
    /// The memberships of a spreadsheet user in the groups the row lists.
    pub fn from_excel(item: &excel::User) -> (memberships: Vec<GroupAssignment>)
        ensures
            memberships@ == imported_memberships(item.first_name@, item.last_name@, item.groups@.map_values(|g: String| g@)),
    {
        memberships_of(&item.first_name, &item.last_name, &item.groups)
    }

    /// The memberships of a JSON user in the groups the record lists.
    pub fn from_json(item: &json::User) -> (memberships: Vec<GroupAssignment>)
        ensures
            memberships@ == imported_memberships(item.first_name@, item.last_name@, item.groups@.map_values(|g: String| g@)),
    {
        memberships_of(&item.first_name, &item.last_name, &item.groups)
    }
}

} // verus!
