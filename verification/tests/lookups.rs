use services_grouping::actions::data::get::account::{by_id as account_by_id, GetAccountResult};
use services_grouping::actions::data::get::group::{by_planning_center_id as group_by_id, GetGroupResult};
use services_grouping::actions::data::get::planning_center_access_tokens::{
    by_id as tokens_by_id, GetPlanningCenterAccessTokensResult,
};
use services_grouping::actions::data::get::user::{by_planning_center_id as user_by_id, GetUserResult};
use services_grouping::model::database::{Account, Group, PlanningCenterAccessTokens, User};

fn group(name: &str, is_deleted: bool) -> Group {
    Group { id: 1, planning_center_id: "pc".to_string(), name: name.to_string(), positions: 2, is_deleted }
}

fn user(first: &str, is_deleted: bool) -> User {
    User { id: 2, planning_center_id: "pc".to_string(), first_name: first.to_string(), last_name: "Doe".to_string(), is_deleted }
}

#[test]
fn group_lookup_answers() {
    assert!(matches!(group_by_id::<String>(Ok(vec![])), GetGroupResult::NotFound));
    assert!(matches!(group_by_id::<String>(Ok(vec![group("a", false), group("b", false)])), GetGroupResult::MoreThanOneFound));
    assert!(matches!(group_by_id::<String>(Ok(vec![group("a", true)])), GetGroupResult::GroupDeleted));
    match group_by_id::<String>(Ok(vec![group("a", false)])) {
        GetGroupResult::Success(g) => assert_eq!(g.name, "a"),
        _ => panic!("expected the group"),
    }
    match group_by_id::<String>(Err("down".to_string())) {
        GetGroupResult::UnknownDatabaseError(e) => assert_eq!(e, "down"),
        _ => panic!("expected the error"),
    }
}

#[test]
fn user_lookup_answers() {
    assert!(matches!(user_by_id::<String>(Ok(vec![])), GetUserResult::NotFound));
    assert!(matches!(user_by_id::<String>(Ok(vec![user("a", false), user("b", true)])), GetUserResult::MoreThanOneFound));
    assert!(matches!(user_by_id::<String>(Ok(vec![user("a", true)])), GetUserResult::UserDeleted));
    match user_by_id::<String>(Ok(vec![user("Jane", false)])) {
        GetUserResult::Success(u) => assert_eq!(u.first_name, "Jane"),
        _ => panic!("expected the user"),
    }
    assert!(matches!(user_by_id::<u8>(Err(3)), GetUserResult::UnknownDatabaseError(3)));
}

#[test]
fn account_lookup_answers() {
    let account = |id: u128| Account {
        id,
        planning_center_id: "pc".to_string(),
        access_token: "a".to_string(),
        refresh_token: "r".to_string(),
    };
    assert!(matches!(account_by_id::<u8>(Ok(vec![])), GetAccountResult::NotFound));
    assert!(matches!(account_by_id::<u8>(Ok(vec![account(1), account(2)])), GetAccountResult::MoreThanOneFound));
    assert!(matches!(account_by_id::<u8>(Ok(vec![account(9)])), GetAccountResult::Success(Account { id: 9, .. })));
    assert!(matches!(account_by_id::<u8>(Err(1)), GetAccountResult::UnknownDatabaseError(1)));
}

#[test]
fn token_lookup_answers() {
    let tokens = |id: u128| PlanningCenterAccessTokens {
        id,
        planning_center_id: "pc".to_string(),
        access_token: "a".to_string(),
        refresh_token: "r".to_string(),
        expires_at: 10,
    };
    assert!(matches!(tokens_by_id::<u8>(Ok(vec![])), GetPlanningCenterAccessTokensResult::NotFound));
    assert!(matches!(tokens_by_id::<u8>(Ok(vec![tokens(1), tokens(1)])), GetPlanningCenterAccessTokensResult::MoreThanOneFound));
    assert!(matches!(
        tokens_by_id::<u8>(Ok(vec![tokens(4)])),
        GetPlanningCenterAccessTokensResult::Success(PlanningCenterAccessTokens { id: 4, expires_at: 10, .. })
    ));
    assert!(matches!(tokens_by_id::<u8>(Err(2)), GetPlanningCenterAccessTokensResult::UnknownDatabaseError(2)));
}
