//! The records the OAuth endpoints build from Planning Center's answers.
use vstd::prelude::*;

use crate::ids::{spec_uuid_v5_oid, uuid_v5_oid};
use crate::model::database::PlanningCenterAccessTokens;
use crate::oauth::model::{Account, AccountTokens};

verus! {

/// The tokens of a user who just signed in: the account is identified by
/// the name-based UUID of its Planning Center id.
pub fn tokens_from_login(planning_center_id: String, issued: Account) -> (tokens: PlanningCenterAccessTokens)
    ensures
        tokens.id == spec_uuid_v5_oid(planning_center_id@),
        tokens.planning_center_id == planning_center_id,
        tokens.access_token == issued.access_token,
        tokens.refresh_token == issued.refresh_token,
        tokens.expires_at == issued.expires_at,
{
    let id = uuid_v5_oid(planning_center_id.as_str());
    PlanningCenterAccessTokens {
        id,
        planning_center_id,
        access_token: issued.access_token,
        refresh_token: issued.refresh_token,
        expires_at: issued.expires_at,
    }
}

/// The account kept in the session: the account's id and Planning Center
/// id with its tokens in their stored (encrypted) form.
pub fn session_account(tokens: &PlanningCenterAccessTokens, encrypted: AccountTokens) -> (account: PlanningCenterAccessTokens)
    ensures
        account.id == tokens.id,
        account.planning_center_id == tokens.planning_center_id,
        account.access_token == encrypted.access_token,
        account.refresh_token == encrypted.refresh_token,
        account.expires_at == encrypted.expires_at,
{
    PlanningCenterAccessTokens {
        id: tokens.id,
        planning_center_id: tokens.planning_center_id.clone(),
        access_token: encrypted.access_token,
        refresh_token: encrypted.refresh_token,
        expires_at: encrypted.expires_at,
    }
}

/// The account's tokens after a refresh: same account, the new tokens and
/// their expiry.
pub fn with_refreshed_tokens(tokens: PlanningCenterAccessTokens, refreshed: Account) -> (renewed: PlanningCenterAccessTokens)
    ensures
        renewed.id == tokens.id,
        renewed.planning_center_id == tokens.planning_center_id,
        renewed.access_token == refreshed.access_token,
        renewed.refresh_token == refreshed.refresh_token,
        renewed.expires_at == refreshed.expires_at,
{
    PlanningCenterAccessTokens {
        id: tokens.id,
        planning_center_id: tokens.planning_center_id,
        access_token: refreshed.access_token,
        refresh_token: refreshed.refresh_token,
        expires_at: refreshed.expires_at,
    }
}

} // verus!
