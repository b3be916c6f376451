//! Encrypting an account's tokens before they are stored.
use vstd::prelude::*;

use crate::crypto::{encrypt_str_to_base64, spec_encrypt};
use crate::model::database::PlanningCenterAccessTokens;
use crate::oauth::model::AccountTokens;
use crate::ApplicationConfiguration;

verus! {

/// Encrypts both tokens with the configured key. Returns the record to store
/// (same id, Planning Center id and expiry) and the encrypted tokens as they
/// are handed out.
pub fn encrypt_tokens(
    tokens: &PlanningCenterAccessTokens,
    configuration: &ApplicationConfiguration,
) -> (encrypted: (PlanningCenterAccessTokens, AccountTokens))
    ensures
        encrypted.0.id == tokens.id,
        encrypted.0.planning_center_id@ == tokens.planning_center_id@,
        encrypted.0.access_token@ == spec_encrypt(configuration.encryption_key@, tokens.access_token@),
        encrypted.0.refresh_token@ == spec_encrypt(configuration.encryption_key@, tokens.refresh_token@),
        encrypted.0.expires_at == tokens.expires_at,
        encrypted.1.access_token@ == encrypted.0.access_token@,
        encrypted.1.refresh_token@ == encrypted.0.refresh_token@,
        encrypted.1.expires_at == tokens.expires_at,
{
    let access = encrypt_str_to_base64(configuration.encryption_key.as_str(), tokens.access_token.as_str());
    let refresh = encrypt_str_to_base64(configuration.encryption_key.as_str(), tokens.refresh_token.as_str());
    let record = PlanningCenterAccessTokens {
        id: tokens.id,
        planning_center_id: tokens.planning_center_id.clone(),
        access_token: access.clone(),
        refresh_token: refresh.clone(),
        expires_at: tokens.expires_at,
    };
    let handed_out = AccountTokens { access_token: access, refresh_token: refresh, expires_at: tokens.expires_at };
    (record, handed_out)
}

} // verus!
