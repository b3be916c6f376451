use services_grouping::actions::data::get::group::{by_planning_center_id, GetGroupResult};
use services_grouping::actions::data::get::user::GetUserResult;
use services_grouping::api::webhooks::groups::events::{Group as GroupEvent, GroupAttributes, GroupData};
use services_grouping::api::webhooks::groups::membership::{
    group_assignment_for, group_source, person_source, token_expired, Lookup,
};
use services_grouping::api::webhooks::groups::{created_group, deleted_group, updated_group};
use services_grouping::model::database::{Group, PlanningCenterAccessTokens, User};

// name-based UUID of "Worship Team" in the OID namespace
const WORSHIP_TEAM_ID: u128 = 0xa30bff533b5051c0bd200e64d9b1f22b;

fn event(name: Option<&str>) -> GroupEvent {
    GroupEvent {
        data: GroupData {
            id: "pc-77".to_string(),
            attributes: name.map(|n| GroupAttributes { name: n.to_string() }),
        },
    }
}

fn stored(is_deleted: bool) -> Group {
    Group { id: 5, planning_center_id: "pc-77".to_string(), name: "Old".to_string(), positions: 3, is_deleted }
}

#[test]
fn created_group_is_named_by_its_id() {
    let g = created_group(event(Some("Worship Team")));
    assert_eq!(g.id, WORSHIP_TEAM_ID);
    assert_eq!(g.name, "Worship Team");
    assert_eq!(g.planning_center_id, "pc-77");
    assert_eq!(g.positions, 0);
    assert!(!g.is_deleted);
    assert_eq!((g.id >> 76) & 0xf, 5);
}

#[test]
fn update_renames_a_stored_group() {
    let g = updated_group::<String>(GetGroupResult::Success(stored(false)), event(Some("New"))).unwrap();
    assert_eq!(g.id, 5);
    assert_eq!(g.name, "New");
    assert_eq!(g.positions, 3);
}

#[test]
fn update_creates_an_unknown_group() {
    let g = updated_group::<String>(GetGroupResult::NotFound, event(Some("Worship Team"))).unwrap();
    assert_eq!(g.id, WORSHIP_TEAM_ID);
    assert_eq!(g.positions, 0);
}

#[test]
fn update_stores_nothing_after_a_failed_lookup() {
    assert!(updated_group::<String>(GetGroupResult::GroupDeleted, event(None)).is_none());
    assert!(updated_group::<String>(GetGroupResult::MoreThanOneFound, event(None)).is_none());
    assert!(updated_group::<String>(GetGroupResult::UnknownDatabaseError("e".to_string()), event(None)).is_none());
}

#[test]
fn deletion_marks_the_group_and_a_later_lookup_sees_it_deleted() {
    let g = deleted_group::<String>(GetGroupResult::Success(stored(false))).unwrap();
    assert!(g.is_deleted);
    assert_eq!(g.name, "Old");
    assert!(matches!(by_planning_center_id::<String>(Ok(vec![g])), GetGroupResult::GroupDeleted));
    assert!(deleted_group::<String>(GetGroupResult::NotFound).is_none());
    assert!(deleted_group::<String>(GetGroupResult::GroupDeleted).is_none());
}

#[test]
fn membership_starts_with_one_ticket() {
    let user = User {
        id: 173494581434739991694611655425964974573,
        planning_center_id: "p".to_string(),
        first_name: "Jane".to_string(),
        last_name: "Doe".to_string(),
        is_deleted: false,
    };
    let group = Group { id: WORSHIP_TEAM_ID, planning_center_id: "g".to_string(), name: "Worship Team".to_string(), positions: 1, is_deleted: false };
    let m = group_assignment_for(&user, &group);
    assert_eq!(m.tickets, 1);
    assert_eq!(m.user_id, user.id);
    assert_eq!(m.group_id, group.id);
    assert_eq!(m.id, 192055019176185210176850137800001608247);
}

#[test]
fn lookups_decide_where_records_come_from() {
    assert!(matches!(person_source::<u8>(GetUserResult::NotFound), Lookup::FetchFromPlanningCenter));
    assert!(matches!(person_source::<u8>(GetUserResult::UserDeleted), Lookup::Failed));
    assert!(matches!(person_source::<u8>(GetUserResult::MoreThanOneFound), Lookup::Failed));
    assert!(matches!(person_source::<u8>(GetUserResult::UnknownDatabaseError(1)), Lookup::Failed));
    assert!(matches!(group_source::<u8>(GetGroupResult::Success(stored(false))), Lookup::Found(Group { id: 5, .. })));
    assert!(matches!(group_source::<u8>(GetGroupResult::NotFound), Lookup::FetchFromPlanningCenter));
    assert!(matches!(group_source::<u8>(GetGroupResult::GroupDeleted), Lookup::Failed));
}

#[test]
fn tokens_expire_strictly_after_their_time() {
    let tokens = PlanningCenterAccessTokens {
        id: 1,
        planning_center_id: "p".to_string(),
        access_token: "a".to_string(),
        refresh_token: "r".to_string(),
        expires_at: 100,
    };
    assert!(!token_expired(&tokens, 99));
    assert!(!token_expired(&tokens, 100));
    assert!(token_expired(&tokens, 101));
}
