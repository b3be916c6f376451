//! Looking up and decrypting the stored tokens of an account.
use vstd::prelude::*;

use crate::crypto::{decrypt_base64_to_string, spec_decrypt, spec_encrypt};
use crate::model::database::PlanningCenterAccessTokens;
use crate::ApplicationConfiguration;

verus! {

/// Answer of a token lookup.
pub enum GetPlanningCenterAccessTokensResult<E> {
    Success(PlanningCenterAccessTokens),
    NotFound,
    MoreThanOneFound,
    UnknownDatabaseError(E),
}

/// Answer of a lookup followed by decryption.
pub enum DecryptAccountTokensResult<E> {
    UnknownDatabaseError(E),
    MoreThanOneAccountFound,
    NoAccountFound,
    UnableToDecryptTokens,
    Success(PlanningCenterAccessTokens),
}

/// Answers a token lookup from the rows the query by account id returned.
pub fn by_id<E>(query: Result<Vec<PlanningCenterAccessTokens>, E>) -> (result: GetPlanningCenterAccessTokensResult<E>)
    ensures
        match query {
            Err(e) => result == GetPlanningCenterAccessTokensResult::<E>::UnknownDatabaseError(e),
            Ok(rows) => if rows.len() == 0 {
                result is NotFound
            } else if rows.len() > 1 {
                result is MoreThanOneFound
            } else {
                result == GetPlanningCenterAccessTokensResult::<E>::Success(rows@[0])
            },
        },
{
    match query {
        Err(e) => GetPlanningCenterAccessTokensResult::UnknownDatabaseError(e),
        Ok(rows) => {
            let mut rows = rows;
            if rows.len() == 0 {
                GetPlanningCenterAccessTokensResult::NotFound
            } else if rows.len() > 1 {
                GetPlanningCenterAccessTokensResult::MoreThanOneFound
            } else {
                GetPlanningCenterAccessTokensResult::Success(rows.remove(0))
            }
        },
    }
}

/// Decrypts both tokens of a stored record with the configured key. The
/// answer is a success exactly when both decrypt; it keeps the id, the
/// Planning Center id and the expiry of the record. Tokens that were
/// encrypted under the same key come back as they were.
pub fn get_decrypted_tokens_for_account<E>(
    lookup: GetPlanningCenterAccessTokensResult<E>,
    configuration: &ApplicationConfiguration,
) -> (result: DecryptAccountTokensResult<E>)
    ensures
        match lookup {
            GetPlanningCenterAccessTokensResult::UnknownDatabaseError(e) => result
                == DecryptAccountTokensResult::<E>::UnknownDatabaseError(e),
            GetPlanningCenterAccessTokensResult::MoreThanOneFound => result is MoreThanOneAccountFound,
            GetPlanningCenterAccessTokensResult::NotFound => result is NoAccountFound,
            GetPlanningCenterAccessTokensResult::Success(stored) => {
                let key = configuration.encryption_key@;
                match (spec_decrypt(key, stored.access_token@), spec_decrypt(key, stored.refresh_token@)) {
                    (Some(access), Some(refresh)) => result matches DecryptAccountTokensResult::Success(t)
                        && t.id == stored.id
                        && t.planning_center_id@ == stored.planning_center_id@
                        && t.access_token@ == access
                        && t.refresh_token@ == refresh
                        && t.expires_at == stored.expires_at,
                    _ => result is UnableToDecryptTokens,
                }
            },
        },
        lookup matches GetPlanningCenterAccessTokensResult::Success(stored) ==> forall|access: Seq<char>, refresh: Seq<char>|
            #![trigger spec_encrypt(configuration.encryption_key@, access), spec_encrypt(configuration.encryption_key@, refresh)]
            stored.access_token@ == spec_encrypt(configuration.encryption_key@, access)
                && stored.refresh_token@ == spec_encrypt(configuration.encryption_key@, refresh)
                ==> (result matches DecryptAccountTokensResult::Success(t) && t.access_token@ == access && t.refresh_token@ == refresh),
{
    match lookup {
        GetPlanningCenterAccessTokensResult::UnknownDatabaseError(e) => DecryptAccountTokensResult::UnknownDatabaseError(e),
        GetPlanningCenterAccessTokensResult::MoreThanOneFound => DecryptAccountTokensResult::MoreThanOneAccountFound,
        GetPlanningCenterAccessTokensResult::NotFound => DecryptAccountTokensResult::NoAccountFound,
        GetPlanningCenterAccessTokensResult::Success(account) => {
            let access = decrypt_base64_to_string(configuration.encryption_key.as_str(), account.access_token.as_str());
            let refresh = decrypt_base64_to_string(configuration.encryption_key.as_str(), account.refresh_token.as_str());
            match (access, refresh) {
                (Some(access_token), Some(refresh_token)) => DecryptAccountTokensResult::Success(PlanningCenterAccessTokens {
                    id: account.id,
                    planning_center_id: account.planning_center_id,
                    access_token,
                    refresh_token,
                    expires_at: account.expires_at,
                }),
                _ => DecryptAccountTokensResult::UnableToDecryptTokens,
            }
        },
    }
}

} // verus!
