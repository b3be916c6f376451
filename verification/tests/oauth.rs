use services_grouping::model::database::PlanningCenterAccessTokens;
use services_grouping::oauth::endpoints::{session_account, tokens_from_login, with_refreshed_tokens};
use services_grouping::oauth::model::{Account, AccountTokens};
use services_grouping::planning_center::group::v2::group_endpoint;
use services_grouping::planning_center::oauth::{
    auth_request, refresh_request, token_result, AuthorizationToken, TokenResponse, TOKEN_ENDPOINT,
};
use services_grouping::planning_center::services::{
    person_team_position_assignments_endpoint, team_endpoint, team_positions_endpoint,
};
use services_grouping::planning_center::PlanningCenterError;
use services_grouping::ApplicationConfiguration;

fn configuration() -> ApplicationConfiguration {
    ApplicationConfiguration {
        domain: "https://grouping.example.org".to_string(),
        planning_center_id: "client-id".to_string(),
        planning_center_secret: "client-secret".to_string(),
        encryption_key: "key".to_string(),
    }
}

fn issued(created_at: i64, expires_in: i64) -> AuthorizationToken {
    AuthorizationToken {
        access_token: "acc".to_string(),
        token_type: "bearer".to_string(),
        expires_in,
        refresh_token: "ref".to_string(),
        scope: None,
        created_at,
    }
}

#[test]
fn authorization_request_redirects_to_the_callback() {
    let r = auth_request(&configuration(), "the-code".to_string());
    assert_eq!(r.grant_type, "authorization_code");
    assert_eq!(r.code, "the-code");
    assert_eq!(r.client_id, "client-id");
    assert_eq!(r.client_secret, "client-secret");
    assert_eq!(r.redirect_uri, "https://grouping.example.org/oauth/callback");
    assert_eq!(TOKEN_ENDPOINT, "https://api.planningcenteronline.com/oauth/token");
}

#[test]
fn refresh_request_carries_the_refresh_token() {
    let r = refresh_request(&configuration(), "old-refresh".to_string());
    assert_eq!(r.grant_type, "refresh_token");
    assert_eq!(r.refresh_token, "old-refresh");
    assert_eq!(r.client_id, "client-id");
    assert_eq!(r.client_secret, "client-secret");
}

#[test]
fn issued_tokens_expire_after_their_lifetime() {
    let account = token_result(TokenResponse::Success(issued(1_700_000_000, 7200))).unwrap();
    assert_eq!(account.access_token, "acc");
    assert_eq!(account.refresh_token, "ref");
    assert_eq!(account.expires_at, 1_700_007_200);
}

#[test]
fn expiry_is_held_to_the_range() {
    assert_eq!(token_result(TokenResponse::Success(issued(i64::MAX - 5, 100))).unwrap().expires_at, i64::MAX);
    assert_eq!(token_result(TokenResponse::Success(issued(i64::MIN + 5, -100))).unwrap().expires_at, i64::MIN);
}

#[test]
fn error_answers_stay_errors() {
    let e = token_result(TokenResponse::Error(PlanningCenterError {
        error: "invalid_grant".to_string(),
        error_description: "expired".to_string(),
    }))
    .unwrap_err();
    assert_eq!(e.error, "invalid_grant");
}

#[test]
fn login_tokens_are_identified_by_the_planning_center_id() {
    let t = tokens_from_login("12345".to_string(), Account { access_token: "a".to_string(), refresh_token: "r".to_string(), expires_at: 9 });
    assert_eq!(t.id, 0xbf547c8b06745afe97add6e7556e56fa);
    assert_eq!(t.planning_center_id, "12345");
    assert_eq!(t.expires_at, 9);
    let s = session_account(&t, AccountTokens { access_token: "ea".to_string(), refresh_token: "er".to_string(), expires_at: 9 });
    assert_eq!(s.id, t.id);
    assert_eq!(s.access_token, "ea");
    assert_eq!(s.refresh_token, "er");
}

#[test]
fn refresh_keeps_the_account() {
    let t = PlanningCenterAccessTokens {
        id: 3,
        planning_center_id: "p".to_string(),
        access_token: "old".to_string(),
        refresh_token: "old-r".to_string(),
        expires_at: 1,
    };
    let r = with_refreshed_tokens(t, Account { access_token: "new".to_string(), refresh_token: "new-r".to_string(), expires_at: 50 });
    assert_eq!(r.id, 3);
    assert_eq!(r.planning_center_id, "p");
    assert_eq!(r.access_token, "new");
    assert_eq!(r.refresh_token, "new-r");
    assert_eq!(r.expires_at, 50);
}

#[test]
fn planning_center_addresses() {
    assert_eq!(group_endpoint("88"), "https://api.planningcenteronline.com/groups/v2/groups/88");
    assert_eq!(team_endpoint("t1"), "https://api.planningcenteronline.com/services/v2/teams/t1");
    assert_eq!(team_positions_endpoint("t1"), "https://api.planningcenteronline.com/services/v2/teams/t1/team_positions");
    assert_eq!(
        person_team_position_assignments_endpoint("t1", "p2"),
        "https://api.planningcenteronline.com/services/v2/teams/t1/team_positions/p2/person_team_position_assignments"
    );
}
