use services_grouping::actions::data::load::group::{from as groups_from, GroupRecords};
use services_grouping::actions::data::load::group_assignment::from as memberships_from;
use services_grouping::actions::data::load::user::{from as users_from, UserRecords};
use services_grouping::api::endpoints::parse_request_dates;
use services_grouping::api::requests::GenerateAssignmentRequests;
use services_grouping::model::{excel, json};

const WORSHIP_TEAM_ID: u128 = 0xa30bff533b5051c0bd200e64d9b1f22b;
const JANE_DOE_ID: u128 = 0x8285d748fc1b5e8eab6f1e576f0d21ed;

#[test]
fn spreadsheet_groups_are_named_by_their_id() {
    let groups = groups_from(GroupRecords::Excel(vec![excel::Group { name: "Worship Team".to_string(), positions: 4 }]));
    assert_eq!(groups.len(), 1);
    assert_eq!(groups[0].id, WORSHIP_TEAM_ID);
    assert_eq!(groups[0].positions, 4);
    assert_eq!(groups[0].planning_center_id, "");
    assert!(!groups[0].is_deleted);
}

#[test]
fn json_groups_take_their_required_count() {
    let groups = groups_from(GroupRecords::Json(vec![
        json::Group { planning_center_id: Some(-42), name: "Worship Team".to_string(), required: 2 },
        json::Group { planning_center_id: None, name: "ab".to_string(), required: -1 },
    ]));
    assert_eq!(groups[0].planning_center_id, "-42");
    assert_eq!(groups[0].positions, 2);
    assert_eq!(groups[1].planning_center_id, "");
    assert_eq!(groups[1].id, 0x31d0536e1fa65212a3c649019cc834d6);
    assert_eq!(groups[1].positions, -1);
}

#[test]
fn imported_users_are_named_by_their_full_name() {
    let users = users_from(&UserRecords::Json(vec![json::User {
        planning_center_id: Some(12345),
        first_name: "Jane".to_string(),
        last_name: "Doe".to_string(),
        groups: vec![],
    }]));
    assert_eq!(users[0].id, JANE_DOE_ID);
    assert_eq!(users[0].planning_center_id, "12345");
    let users = users_from(&UserRecords::Excel(vec![excel::User {
        first_name: "Jane".to_string(),
        last_name: "Doe".to_string(),
        groups: vec![],
    }]));
    assert_eq!(users[0].id, JANE_DOE_ID);
    assert_eq!(users[0].planning_center_id, "");
}

#[test]
fn imported_memberships_match_the_membership_webhook() {
    let records = UserRecords::Excel(vec![
        excel::User { first_name: "Jane".to_string(), last_name: "Doe".to_string(), groups: vec!["Worship Team".to_string(), "ab".to_string()] },
        excel::User { first_name: "No".to_string(), last_name: "Groups".to_string(), groups: vec![] },
    ]);
    let memberships = memberships_from(&records);
    assert_eq!(memberships.len(), 2);
    assert_eq!(memberships[0].user_id, JANE_DOE_ID);
    assert_eq!(memberships[0].group_id, WORSHIP_TEAM_ID);
    assert_eq!(memberships[0].tickets, 1);
    assert_eq!(memberships[0].id, 192055019176185210176850137800001608247);
    assert_eq!(memberships[1].group_id, 0x31d0536e1fa65212a3c649019cc834d6);
}

#[test]
fn request_dates_are_read_in_the_service_format() {
    let dates = parse_request_dates(&GenerateAssignmentRequests {
        dates: vec!["2024-01-07 10:00:00".to_string(), "1969-12-31 23:59:59".to_string()],
    })
    .unwrap();
    assert_eq!(dates.len(), 2);
    assert_eq!(dates[0].secs, 1704621600);
    assert_eq!(dates[0].nanos, 0);
    assert_eq!(dates[1].secs, -1);
}

#[test]
fn a_malformed_date_rejects_the_request() {
    assert!(parse_request_dates(&GenerateAssignmentRequests {
        dates: vec!["2024-01-07 10:00:00".to_string(), "2024-02-30 10:00:00".to_string()],
    })
    .is_none());
    assert!(parse_request_dates(&GenerateAssignmentRequests { dates: vec!["tomorrow".to_string()] }).is_none());
    assert!(parse_request_dates(&GenerateAssignmentRequests { dates: vec![] }).unwrap().is_empty());
}

#[test]
fn planning_center_ids_are_written_in_decimal() {
    let groups = groups_from(GroupRecords::Json(vec![
        json::Group { planning_center_id: Some(i32::MIN), name: "a".to_string(), required: 1 },
        json::Group { planning_center_id: Some(0), name: "b".to_string(), required: 1 },
        json::Group { planning_center_id: Some(i32::MAX), name: "c".to_string(), required: 1 },
        json::Group { planning_center_id: Some(1070), name: "d".to_string(), required: 1 },
    ]));
    assert_eq!(groups[0].planning_center_id, "-2147483648");
    assert_eq!(groups[1].planning_center_id, "0");
    assert_eq!(groups[2].planning_center_id, "2147483647");
    assert_eq!(groups[3].planning_center_id, "1070");
}
