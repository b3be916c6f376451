//! Payload of the group events.
use vstd::prelude::*;

verus! {

/// A group event.
pub struct Group {
    pub data: GroupData,
}

/// The group an event is about: its Planning Center id and, when sent, its fields.
pub struct GroupData {
    pub id: String,
    pub attributes: Option<GroupAttributes>,
}

/// The fields of a group event.
pub struct GroupAttributes {
    pub name: String,
}

} // verus!
