//! The Services API: team records and their addresses.
use vstd::prelude::*;

use crate::planning_center::{Meta, Type, TypeVec};

verus! {

/// The body of a successful team request.
pub struct TeamResponse {
    pub data: TeamData,
    pub included: Vec<String>,
    pub meta: Meta,
}

/// A team.
pub struct TeamData {
    pub _type: String,
    pub id: String,
    pub attributes: TeamAttributes,
    pub relationships: TeamRelationships,
    pub links: TeamLinks,
}

/// The fields of a team.
pub struct TeamAttributes {
    pub archived_at: Option<String>,
    pub assigned_directly: bool,
    pub created_at: Option<String>,
    pub default_prepare_notifications: bool,
    pub default_status: Option<String>,
    pub last_plan_from: Option<String>,
    pub name: Option<String>,
    pub rehearsal_team: bool,
    pub schedule_to: Option<String>,
    pub secure_team: bool,
    pub sequence: Option<String>,
    pub stage_color: Option<String>,
    pub stage_variant: Option<String>,
    pub updated_at: Option<String>,
    pub viewers_see: i32,
}

/// Relationships of a team.
pub struct TeamRelationships {
    pub service_type: Type,
    pub default_responds_to: Type,
}

/// Links of a team.
pub struct TeamLinks {
    pub people: Option<String>,
    pub person_team_position_assignments: Option<String>,
    pub plan_people: Option<String>,
    pub service_type: Option<String>,
    pub team_leaders: Option<String>,
    pub team_positions: Option<String>,
    pub _self: Option<String>,
}

/// The body of a successful request for a team's positions.
pub struct TeamPositionsResponse {
    pub links: TeamPositionsLinks,
    pub data: Vec<TeamPositionData>,
    pub included: Vec<String>,
    pub meta: Meta,
}

/// Links of a team's positions.
pub struct TeamPositionsLinks {
    pub _self: String,
}

/// A position of a team.
pub struct TeamPositionData {
    pub _type: String,
    pub id: String,
    pub attributes: TeamPositionAttributes,
    pub relationships: TeamPositionRelationships,
    pub links: TeamPositionLinks,
}

/// Links of a team position.
pub struct TeamPositionLinks {
    pub _self: String,
}

/// The fields of a team position.
pub struct TeamPositionAttributes {
    pub name: String,
    pub negative_tag_groups: Option<Vec<String>>,
    pub sequence: Option<String>,
    pub tag_groups: Option<Vec<String>>,
    pub tags: Option<Vec<String>>,
}

/// Relationships of a team position.
pub struct TeamPositionRelationships {
    pub team: Type,
    pub attachment_types: TypeVec,
    pub tags: TypeVec,
}

/// The body of a successful request for the people assigned to a position.
pub struct TeamPositionsAssignmentResponse {
    pub links: TeamPositionAssignmentLinks,
    pub data: Vec<TeamPositionsAssignmentData>,
    pub included: Vec<String>,
    pub meta: Meta,
}

/// The assignment of a person to a team position.
pub struct TeamPositionsAssignmentData {
    pub _type: String,
    pub id: String,
    pub attributes: TeamPositionAssignmentAttributes,
    pub relationships: TeamPositionAssignmentRelationships,
    pub links: TeamPositionAssignmentDataLinks,
}

/// The fields of a position assignment.
pub struct TeamPositionAssignmentAttributes {
    pub created_at: Option<String>,
    pub preferred_weeks: Vec<String>,
    pub schedule_preference: Option<String>,
    pub updated_at: Option<String>,
}

/// Relationships of a position assignment.
pub struct TeamPositionAssignmentRelationships {
    pub person: Type,
    pub team_position: Type,
    pub time_preference_options: TypeVec,
}

/// Links of the position assignments.
pub struct TeamPositionAssignmentLinks {
    pub _self: String,
}

/// Links of a position assignment.
pub struct TeamPositionAssignmentDataLinks {
    pub _self: String,
}

/// The address of a team.
pub fn team_endpoint(team_id: &str) -> (url: String)
    ensures
        url@ == "https://api.planningcenteronline.com/services/v2/teams/"@ + team_id@,
{
    let mut url = String::from_str("https://api.planningcenteronline.com/services/v2/teams/");
    url.append(team_id);
    url
}

/// The address of a team's positions.
pub fn team_positions_endpoint(team_id: &str) -> (url: String)
    ensures
        url@ == "https://api.planningcenteronline.com/services/v2/teams/"@ + team_id@ + "/team_positions"@,
{
    let mut url = team_endpoint(team_id);
    url.append("/team_positions");
    url
}

/// The address of the people assigned to a position of a team.
pub fn person_team_position_assignments_endpoint(team_id: &str, team_position_id: &str) -> (url: String)
    ensures
        url@ == "https://api.planningcenteronline.com/services/v2/teams/"@ + team_id@ + "/team_positions/"@
            + team_position_id@ + "/person_team_position_assignments"@,
{
    let mut url = team_endpoint(team_id);
    url.append("/team_positions/");
    url.append(team_position_id);
    url.append("/person_team_position_assignments");
    url
}

} // verus!
