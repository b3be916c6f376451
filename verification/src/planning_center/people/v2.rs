//! Version 2 of the People API: a person record.
use vstd::prelude::*;

use crate::date_time::Timestamp;
use crate::planning_center::Meta;

verus! {

/// The body of a successful person request.
pub struct PersonResponse {
    pub data: Person,
    pub included: Vec<String>,
    pub meta: Meta,
}

/// A person.
pub struct Person {
    pub id: String,
    pub me_type: String,
    pub attributes: Attributes,
    pub relationships: Relationships,
    pub links: Links,
}

/// The fields of a person.
pub struct Attributes {
    pub accounting_administrator: bool,
    pub anniversary: Option<String>,
    pub avatar: String,
    pub birthdate: Option<String>,
    pub can_create_forms: bool,
    pub can_email_lists: bool,
    pub child: bool,
    pub created_at: String,
    pub demographic_avatar_url: String,
    pub directory_status: String,
    pub first_name: String,
    pub gender: Option<String>,
    pub given_name: Option<String>,
    pub grade: Option<String>,
    pub graduation_year: Option<String>,
    pub inactivated_at: Option<Timestamp>,
    pub last_name: String,
    pub medical_notes: Option<String>,
    pub membership: Option<String>,
    pub middle_name: Option<String>,
    pub name: String,
    pub nickname: Option<String>,
    pub passed_background_check: bool,
    pub people_permissions: String,
    pub remote_id: Option<String>,
    pub school_type: Option<String>,
    pub site_administrator: bool,
    pub status: String,
    pub updated_at: String,
}

/// Relationships of a person.
pub struct Relationships {
    pub primary_campus: PrimaryCampus,
    pub gender: Gender,
}

/// The campus a person belongs to, if any.
pub struct PrimaryCampus {
    pub data: Option<CampusData>,
}

/// A reference to a campus.
pub struct CampusData {
    pub id: String,
    pub campus_type: String,
}

/// The gender record of a person, if any.
pub struct Gender {
    pub data: Option<GenderData>,
}

/// A reference to a gender record.
pub struct GenderData {
    pub id: String,
    pub gender_type: String,
}

/// Links of a person.
pub struct Links {
    pub self_: String,
    pub addresses: Option<String>,
    pub apps: Option<String>,
    pub connected_people: Option<String>,
    pub emails: Option<String>,
    pub field_data: Option<String>,
    pub household_memberships: Option<String>,
    pub households: Option<String>,
    pub inactive_reason: Option<String>,
    pub marital_status: Option<String>,
    pub message_groups: Option<String>,
    pub messages: Option<String>,
    pub name_prefix: Option<String>,
    pub name_suffix: Option<String>,
    pub notes: Option<String>,
    pub organization: Option<String>,
    pub person_apps: Option<String>,
    pub phone_numbers: Option<String>,
    pub platform_notifications: Option<String>,
    pub primary_campus: Option<String>,
    pub school: Option<String>,
    pub social_profiles: Option<String>,
    pub workflow_cards: Option<String>,
    pub workflow_shares: Option<String>,
    pub html: Option<String>,
}

/// The address of the signed-in person.
pub const ME_ENDPOINT: &'static str = "https://api.planningcenteronline.com/people/v2/me";

/// The address of a person.
pub fn person_endpoint(person_id: &str) -> (url: String)
    ensures
        url@ == "https://api.planningcenteronline.com/people/v2/people/"@ + person_id@,
{
    let mut url = String::from_str("https://api.planningcenteronline.com/people/v2/people/");
    url.append(person_id);
    url
}

} // verus!
