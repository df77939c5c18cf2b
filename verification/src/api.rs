//! The authenticated handle to the remote API: the host it talks to and the
//! token it sends. The HTTP transport around it is the caller's concern.

use vstd::prelude::*;
use crate::store::CredentialStore;
use crate::store::get_user_config;

verus! {

/// What an authenticated API call needs: the host, and the token to send in
/// the `Authorization` header.
pub struct OSApi {
    pub api_host: String,
    pub access_token: String,
    pub token_type: String,
}

impl OSApi {
    /// A handle from its parts.
    pub fn new(api_host: String, access_token: String, token_type: String) -> (r: OSApi)
        ensures
            r.api_host == api_host,
            r.access_token == access_token,
            r.token_type == token_type,
    {
        OSApi { api_host, access_token, token_type }
    }
}

/// The API handle for the stored user, or `None` when nobody is logged in.
pub fn create_os_api(store: &CredentialStore) -> (r: Option<OSApi>)
    requires
        (match store.user_config {
            Some(c) => c.api_config.host is None ==> !(c.api_config.env is Dev),
            None => true,
        }),
    ensures
        match store.user_config {
            None => r is None,
            Some(c) => {
                &&& r is Some
                &&& r->0.api_host@ == c.api_config.spec_resolved_host()
                &&& r->0.access_token@ == c.access_token@
                &&& r->0.token_type@ == c.token_type@
            },
        },
{
    match get_user_config(store) {
        None => None,
        Some(config) => {
            let host = config.api_config.host().to_owned();
            Some(OSApi::new(host, config.access_token, config.token_type))
        },
    }
}

/// What an authenticated API answer means for the caller.
#[derive(Clone, Copy, Debug, PartialEq, Eq, Structural)]
pub enum ApiDisposition {
    /// The call succeeded; the body is the result.
    Success,
    /// The token is not (or no longer) valid: re-run the auth session and
    /// retry, rather than surfacing an error.
    NotAuthenticated,
    /// The call failed with this status.
    Failed,
}

/// Classify an authenticated API call's HTTP status. A 401 is always "not
/// authenticated" and never a generic failure, so the caller can re-trigger
/// the auth session transparently.
pub fn classify_api_status(status: u16) -> (r: ApiDisposition)
    ensures
        r is Success <==> status < 300,
        r is NotAuthenticated <==> status == 401,
        r is Failed <==> (status >= 300 && status != 401),
{
    if status < 300 {
        ApiDisposition::Success
    } else if status == 401 {
        ApiDisposition::NotAuthenticated
    } else {
        ApiDisposition::Failed
    }
}

} // verus!
