//! The OAuth token exchange with Planning Center: the request bodies the
//! service sends and what it makes of the answer.
use vstd::prelude::*;

use crate::oauth::model::Account;
use crate::planning_center::PlanningCenterError;
use crate::ApplicationConfiguration;

verus! {

/// The endpoint both token requests are sent to.
pub const TOKEN_ENDPOINT: &'static str = "https://api.planningcenteronline.com/oauth/token";

/// Body of the request that trades an authorization code for tokens.
pub struct AuthRequest {
    pub grant_type: String,
    pub code: String,
    pub client_id: String,
    pub client_secret: String,
    pub redirect_uri: String,
}

/// Body of the request that trades a refresh token for new tokens.
pub struct RefreshRequest {
    pub grant_type: String,
    pub refresh_token: String,
    pub client_id: String,
    pub client_secret: String,
}

/// Tokens as Planning Center issues them; `created_at` is a UNIX time and
/// `expires_in` a number of seconds.
pub struct AuthorizationToken {
    pub access_token: String,
    pub token_type: String,
    pub expires_in: i64,
    pub refresh_token: String,
    pub scope: Option<String>,
    pub created_at: i64,
}

/// The answer of a token request: tokens, or an error body.
pub enum TokenResponse {
    Success(AuthorizationToken),
    Error(PlanningCenterError),
}

/// The time tokens stop being valid: issue time plus lifetime, held to the
/// range of `i64`.
pub open spec fn expiry(created_at: i64, expires_in: i64) -> i64 {
    let t = created_at + expires_in;
    if t > i64::MAX {
        i64::MAX
    } else if t < i64::MIN {
        i64::MIN
    } else {
        t as i64
    }
}

/// The request that trades the authorization code `code` for tokens; the
/// redirect address is the service's `oauth/callback`.
pub fn auth_request(config: &ApplicationConfiguration, code: String) -> (request: AuthRequest)
    ensures
        request.grant_type@ == "authorization_code"@,
        request.code@ == code@,
        request.client_id@ == config.planning_center_id@,
        request.client_secret@ == config.planning_center_secret@,
        request.redirect_uri@ == config.domain@ + "/"@ + "oauth/callback"@,
{
    let mut redirect_uri = config.domain.clone();
    redirect_uri.append("/");
    redirect_uri.append("oauth/callback");
    AuthRequest {
        grant_type: String::from_str("authorization_code"),
        code,
        client_id: config.planning_center_id.clone(),
        client_secret: config.planning_center_secret.clone(),
        redirect_uri,
    }
}

/// The request that trades the refresh token `refresh` for new tokens.
pub fn refresh_request(config: &ApplicationConfiguration, refresh: String) -> (request: RefreshRequest)
    ensures
        request.grant_type@ == "refresh_token"@,
        request.refresh_token@ == refresh@,
        request.client_id@ == config.planning_center_id@,
        request.client_secret@ == config.planning_center_secret@,
{
    RefreshRequest {
        grant_type: String::from_str("refresh_token"),
        refresh_token: refresh,
        client_id: config.planning_center_id.clone(),
        client_secret: config.planning_center_secret.clone(),
    }
}

/// The issue time plus the lifetime, held to the range of `i64`.
fn expires_at(created_at: i64, expires_in: i64) -> (t: i64)
    ensures
        t == expiry(created_at, expires_in),
{
    if expires_in > 0 && created_at > i64::MAX - expires_in {
        i64::MAX
    } else if expires_in < 0 && created_at < i64::MIN - expires_in {
        i64::MIN
    } else {
        created_at + expires_in
    }
}

/// The tokens of a successful answer, with their expiry; an error answer
/// stays an error.
pub fn token_result(response: TokenResponse) -> (result: Result<Account, PlanningCenterError>)
    ensures
        match response {
            TokenResponse::Success(token) => result matches Ok(account)
                && account.access_token == token.access_token
                && account.refresh_token == token.refresh_token
                && account.expires_at == expiry(token.created_at, token.expires_in),
            TokenResponse::Error(error) => result == Err::<Account, PlanningCenterError>(error),
        },
{
    match response {
        TokenResponse::Success(token) => Ok(Account {
            access_token: token.access_token,
            refresh_token: token.refresh_token,
            expires_at: expires_at(token.created_at, token.expires_in),
        }),
        TokenResponse::Error(error) => Err(error),
    }
}

} // verus!
