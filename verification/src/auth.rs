//! OAuth2 device-code flow: wire-level request and response records, the
//! authentication environments with their fixed hosts and audiences, and the
//! login configuration.

use vstd::prelude::*;
use vstd::string::*;
use crate::strutil::ascii_upper;
use crate::strutil::char_to_string;
use crate::strutil::is_space;
use crate::strutil::spec_ascii_upper;
use crate::strutil::spec_is_space;
use crate::strutil::spec_first_nonspace_at;
use crate::strutil::spec_has_nonspace;
use crate::strutil::spec_last_word_start_at;
use crate::strutil::spec_word_start_at;

verus! {

/// Body of a `POST {authHost}/oauth/token` request.
pub struct TokenRequest {
    pub grant_type: String,
    pub device_code: String,
    pub client_id: String,
}

/// Body of a successful token response.
pub struct TokenResponse {
    pub access_token: String,
    pub token_type: String,
    pub expires_in: u64,
    pub refresh_token: Option<String>,
    pub scope: Option<String>,
}

/// A user as the remote service reports it.
pub struct UserInfo {
    pub email: String,
    pub full_name: Option<String>,
}

/// Body of a `POST {authHost}/oauth/device/code` request.
pub struct DeviceCodeRequest {
    pub client_id: String,
    pub scope: String,
    pub audience: String,
}

/// A device-code challenge as the auth server issues it. The `device_code`
/// is a secret consumed only by the poll loop; `user_code` and the
/// verification URIs are surfaced to the user.
pub struct DeviceCodeResponse {
    pub device_code: String,
    pub user_code: String,
    pub verification_uri: String,
    pub verification_uri_complete: String,
    pub expires_in: u64,
    pub interval: u64,
}

/// Token material owned by the credential store after a successful exchange.
pub struct AuthData {
    pub access_token: String,
    pub refresh_token: Option<String>,
    pub token_type: String,
    pub expires_in: u64,
    pub scope: Option<String>,
}

/// OAuth scopes the client may request.
#[derive(Clone, Copy, Debug, PartialEq, Eq, Structural)]
pub enum AuthScope {
    Openid,
    Email,
    OfflineAccess,
}

impl AuthScope {
    /// The scope's name on the wire.
    pub open spec fn spec_str(self) -> Seq<char> {
        match self {
            AuthScope::Openid => "openid"@,
            AuthScope::Email => "email"@,
            AuthScope::OfflineAccess => "offline_access"@,
        }
    }

    /// The scope's name on the wire.
    pub fn as_str(self) -> (r: &'static str)
        ensures
            r@ == self.spec_str(),
    {
        match self {
            AuthScope::Openid => "openid",
            AuthScope::Email => "email",
            AuthScope::OfflineAccess => "offline_access",
        }
    }
}

/// Authentication environments. Each maps to a fixed base host and audience;
/// no arbitrary hosts can be configured.
#[derive(Clone, Copy, Debug, PartialEq, Eq, Structural)]
pub enum AuthEnv {
    Dev,
    Prod,
}

impl AuthEnv {
    /// Base host of the environment's auth provider.
    pub open spec fn spec_host(self) -> Seq<char> {
        match self {
            AuthEnv::Dev => "https://login.osdevenv.net"@,
            AuthEnv::Prod => "https://login.openspace.ai"@,
        }
    }

    /// Audience value sent with device-code requests for this environment.
    pub open spec fn spec_audience(self) -> Seq<char> {
        match self {
            AuthEnv::Dev => "openspace-dev.ai"@,
            AuthEnv::Prod => "openspace.ai"@,
        }
    }

    /// Base host of the environment's auth provider.
    pub fn get_host(&self) -> (r: &'static str)
        ensures
            r@ == self.spec_host(),
    {
        match self {
            AuthEnv::Dev => "https://login.osdevenv.net",
            AuthEnv::Prod => "https://login.openspace.ai",
        }
    }

    /// Audience value sent with device-code requests for this environment.
    pub fn get_audience(&self) -> (r: &'static str)
        ensures
            r@ == self.spec_audience(),
    {
        match self {
            AuthEnv::Dev => "openspace-dev.ai",
            AuthEnv::Prod => "openspace.ai",
        }
    }

    /// Device-code endpoint: `{host}/oauth/device/code`.
    pub fn get_auth_url(&self) -> (r: String)
        ensures
            r@ == self.spec_host() + "/oauth/device/code"@,
    {
        self.get_host().to_owned().concat("/oauth/device/code")
    }

    /// Token endpoint: `{host}/oauth/token`.
    pub fn get_token_url(&self) -> (r: String)
        ensures
            r@ == self.spec_host() + "/oauth/token"@,
    {
        self.get_host().to_owned().concat("/oauth/token")
    }
}

/// Configuration of the device-code login flow.
pub struct LoginConfig {
    pub client_id: String,
    pub auth_env: AuthEnv,
    pub scope: AuthScope,
}

impl Default for LoginConfig {
    /// The development login configuration assumed when none is stored.
    fn default() -> (r: Self)
        ensures
            r.client_id@ == "37lfJRh96Q9MT86n7MigrFcRLBsNxIXD"@,
            r.auth_env == AuthEnv::Dev,
            r.scope == AuthScope::Email,
    {
        LoginConfig {
            client_id: "37lfJRh96Q9MT86n7MigrFcRLBsNxIXD".to_owned(),
            auth_env: AuthEnv::Dev,
            scope: AuthScope::Email,
        }
    }
}

impl LoginConfig {
    /// A login configuration from its parts.
    pub fn new(client_id: String, auth_env: AuthEnv, scope: AuthScope) -> (r: LoginConfig)
        ensures
            r.client_id == client_id,
            r.auth_env == auth_env,
            r.scope == scope,
    {
        LoginConfig { client_id, auth_env, scope }
    }
}

/// The initials drawn from a name whose first word starts at `i0` and whose
/// last word starts at `j0`: one upper-cased letter for a single word, two
/// for several.
pub open spec fn spec_initials_of(v: Seq<char>, i0: int, j0: int) -> Seq<char> {
    if i0 == j0 {
        seq![spec_ascii_upper(v[i0])]
    } else {
        seq![spec_ascii_upper(v[i0]), spec_ascii_upper(v[j0])]
    }
}

/// The initials shown for a user: the first character of the first and last
/// words of the name, upper-cased (ASCII), or the single character of a
/// one-word name, or `"OS"` when there is no name to draw from.
pub fn get_user_initials(full_name: Option<String>) -> (r: String)
    ensures
        match full_name {
            None => r@ == "OS"@,
            Some(name) => if spec_has_nonspace(name@) {
                exists|i0: int, j0: int|
                    {
                        &&& spec_first_nonspace_at(name@, i0)
                        &&& spec_last_word_start_at(name@, j0)
                        &&& r@ == spec_initials_of(name@, i0, j0)
                    }
            } else {
                r@ == "OS"@
            },
        },
{
    match full_name {
        None => "OS".to_owned(),
        Some(name) => {
            let s = name.as_str();
            let n = s.unicode_len();
            let mut i: usize = 0;
            while i < n && is_space(s.get_char(i))
                invariant
                    i <= n,
                    n == s@.len(),
                    forall|k: int| 0 <= k < i ==> spec_is_space(#[trigger] s@[k]),
                decreases n - i,
            {
                i += 1;
            }
            if i == n {
                assert(!spec_has_nonspace(name@));
                return "OS".to_owned();
            }
            let i0 = i;
            assert(spec_first_nonspace_at(name@, i0 as int));
            let mut j: usize = i0;
            let mut k: usize = i0 + 1;
            while k < n
                invariant
                    n == s@.len(),
                    i0 < n,
                    i0 <= j < n,
                    i0 + 1 <= k <= n,
                    j < k,
                    spec_word_start_at(s@, j as int),
                    forall|t: int| j < t < k ==> !spec_word_start_at(s@, t),
                decreases n - k,
            {
                if !is_space(s.get_char(k)) && is_space(s.get_char(k - 1)) {
                    j = k;
                }
                k += 1;
            }
            assert(spec_last_word_start_at(name@, j as int));
            let c0 = ascii_upper(s.get_char(i0));
            if j == i0 {
                let r = char_to_string(c0);
                assert(r@ == spec_initials_of(name@, i0 as int, j as int));
                r
            } else {
                let c1 = ascii_upper(s.get_char(j));
                let second = char_to_string(c1);
                let r = char_to_string(c0).concat(second.as_str());
                assert(r@ =~= spec_initials_of(name@, i0 as int, j as int));
                r
            }
        },
    }
}

} // verus!
