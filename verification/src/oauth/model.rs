//! Tokens as Planning Center issues them and as the service hands them out.
use vstd::prelude::*;

verus! {

/// Tokens issued by Planning Center; `expires_at` is a UNIX time in seconds.
#[derive(Clone, Debug)]
pub struct Account {
    pub access_token: String,
    pub refresh_token: String,
    pub expires_at: i64,
}

/// Tokens of an account in their stored (encrypted) form.
#[derive(Clone, Debug)]
pub struct AccountTokens {
    pub access_token: String,
    pub refresh_token: String,
    pub expires_at: i64,
}

} // verus!
