//! Version 2 of the Groups API: a group record.
use vstd::prelude::*;

verus! {

/// The body of a successful group request.
pub struct GroupResponse {
    pub data: Group,
    pub included: Vec<String>,
    pub meta: Meta,
}

/// A group.
pub struct Group {
    pub id: String,
    pub group_type: String,
    pub attributes: Attributes,
    pub relationships: Relationships,
    pub links: Links,
}

/// The fields of a group.
pub struct Attributes {
    pub archived_at: Option<String>,
    pub contact_email: Option<String>,
    pub created_at: String,
    pub description: Option<String>,
    pub events_visibility: String,
    pub header_image: HeaderImage,
    pub location_type_preference: String,
    pub memberships_count: i32,
    pub name: String,
    pub public_church_center_web_url: Option<String>,
    pub schedule: Option<String>,
    pub virtual_location_url: Option<String>,
}

/// Image links of a group.
pub struct HeaderImage {
    pub thumbnail: Option<String>,
    pub medium: Option<String>,
    pub original: Option<String>,
}

/// Relationships of a group.
pub struct Relationships {
    pub group_type: GroupType,
    pub location: Location,
}

/// The group type a group belongs to.
pub struct GroupType {
    pub id: String,
    pub group_type: String,
}

/// The location of a group (the API's fields are not read).
pub struct Location {}

/// Links of a group.
pub struct Links {
    pub enrollment: String,
    pub events: Option<String>,
    pub group_type: Option<String>,
    pub location: Option<String>,
    pub memberships: Option<String>,
    pub people: Option<String>,
    pub resources: Option<String>,
    pub tags: Option<String>,
    pub self_: Option<String>,
    pub html: Option<String>,
}

/// Response facts of a group request.
pub struct Meta {
    pub onboarding: bool,
    pub can_include: Vec<String>,
    pub parent: MetaParent,
}

/// The parent record of a response.
pub struct MetaParent {
    pub id: String,
    pub parent_type: String,
}

/// The address of a group.
pub fn group_endpoint(group_id: &str) -> (url: String)
    ensures
        url@ == "https://api.planningcenteronline.com/groups/v2/groups/"@ + group_id@,
{
    let mut url = String::from_str("https://api.planningcenteronline.com/groups/v2/groups/");
    url.append(group_id);
    url
}

} // verus!
