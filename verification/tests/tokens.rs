use services_grouping::actions::data::get::planning_center_access_tokens::{
    get_decrypted_tokens_for_account, DecryptAccountTokensResult, GetPlanningCenterAccessTokensResult,
};
use services_grouping::actions::data::save::planning_center_access_tokens::encrypt_tokens;
use services_grouping::model::database::PlanningCenterAccessTokens;
use services_grouping::ApplicationConfiguration;

fn configuration(key: &str) -> ApplicationConfiguration {
    ApplicationConfiguration {
        domain: "https://example.org".to_string(),
        planning_center_id: "client".to_string(),
        planning_center_secret: "secret".to_string(),
        encryption_key: key.to_string(),
    }
}

fn tokens() -> PlanningCenterAccessTokens {
    PlanningCenterAccessTokens {
        id: 42,
        planning_center_id: "12345".to_string(),
        access_token: "access-Ünïcode-token".to_string(),
        refresh_token: "refresh-token".to_string(),
        expires_at: 1_700_000_000,
    }
}

#[test]
fn stored_tokens_decrypt_to_the_plain_tokens() {
    let config = configuration("key-1");
    let (stored, handed_out) = encrypt_tokens(&tokens(), &config);
    assert_ne!(stored.access_token, "access-Ünïcode-token");
    assert_ne!(stored.refresh_token, "refresh-token");
    assert_eq!(handed_out.access_token, stored.access_token);
    assert_eq!(handed_out.expires_at, 1_700_000_000);
    match get_decrypted_tokens_for_account::<String>(GetPlanningCenterAccessTokensResult::Success(stored), &config) {
        DecryptAccountTokensResult::Success(t) => {
            assert_eq!(t.id, 42);
            assert_eq!(t.planning_center_id, "12345");
            assert_eq!(t.access_token, "access-Ünïcode-token");
            assert_eq!(t.refresh_token, "refresh-token");
            assert_eq!(t.expires_at, 1_700_000_000);
        }
        _ => panic!("expected the decrypted tokens"),
    }
}

#[test]
fn encryption_is_deterministic_per_key() {
    let (a, _) = encrypt_tokens(&tokens(), &configuration("key-1"));
    let (b, _) = encrypt_tokens(&tokens(), &configuration("key-1"));
    let (c, _) = encrypt_tokens(&tokens(), &configuration("key-2"));
    assert_eq!(a.access_token, b.access_token);
    assert_ne!(a.access_token, c.access_token);
}

#[test]
fn text_that_is_not_base64_cannot_be_decrypted() {
    let mut stored = tokens();
    stored.access_token = "not base64!".to_string();
    assert!(matches!(
        get_decrypted_tokens_for_account::<String>(GetPlanningCenterAccessTokensResult::Success(stored), &configuration("k")),
        DecryptAccountTokensResult::UnableToDecryptTokens
    ));
}

#[test]
fn lookup_failures_are_passed_on() {
    let config = configuration("k");
    assert!(matches!(
        get_decrypted_tokens_for_account::<String>(GetPlanningCenterAccessTokensResult::NotFound, &config),
        DecryptAccountTokensResult::NoAccountFound
    ));
    assert!(matches!(
        get_decrypted_tokens_for_account::<String>(GetPlanningCenterAccessTokensResult::MoreThanOneFound, &config),
        DecryptAccountTokensResult::MoreThanOneAccountFound
    ));
    match get_decrypted_tokens_for_account::<String>(GetPlanningCenterAccessTokensResult::UnknownDatabaseError("e".to_string()), &config) {
        DecryptAccountTokensResult::UnknownDatabaseError(e) => assert_eq!(e, "e"),
        _ => panic!("expected the error"),
    }
}
