//! Payload of the membership events.
use vstd::prelude::*;

verus! {

/// A membership event.
pub struct MembershipPayload {
    pub data: MembershipData,
}

/// A membership: its id and the group and person it links.
pub struct MembershipData {
    pub id: String,
    pub relationships: MembershipRelationships,
}

/// The group and the person of a membership.
pub struct MembershipRelationships {
    pub group: Group,
    pub person: Person,
}

/// The group of a membership.
pub struct Group {
    pub data: RelationshipData,
}

/// The person of a membership.
pub struct Person {
    pub data: RelationshipData,
}

/// A reference to a Planning Center record.
pub struct RelationshipData {
    pub id: String,
    pub relationship_type: String,
}

} // verus!
