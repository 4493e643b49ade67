//! The bearer token returned by the provider's token endpoint.

use vstd::prelude::*;

verus! {

/// A bearer token: the credential presented on authenticated API calls.
/// `refresh_token` is empty when the provider issued none; a refresh
/// response that omits it keeps the previous value.
#[derive(Clone, Debug)]
pub struct OAuthToken {
    pub access_token: String,
    pub token_type: String,
    pub expires_in: usize,
    pub scope: String,
    pub refresh_token: String,
}

/// The value the token takes for `refresh_token` when the provider's
/// response omits that field.
pub fn empty_string() -> (s: String)
    ensures
        s@ == Seq::<char>::empty(),
{
    String::new()
}

} // verus!
