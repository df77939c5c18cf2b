//! Service configuration: the API environments with their fixed hosts, the
//! per-user API configuration, and the stored user and OAuth records.

use vstd::prelude::*;
use vstd::string::*;
use crate::auth::AuthEnv;
use crate::auth::AuthScope;

verus! {

/// Regions the upload API is served from. `Dev` names no host of its own and
/// must not be asked for one.
#[derive(Clone, Copy, Debug, PartialEq, Eq, Structural)]
pub enum ApiEnv {
    Local,
    Dev,
    CAN,
    EU,
    GOV,
    JPN,
    KSA,
    UK,
    US,
    SGP,
}

impl ApiEnv {
    /// Base host the environment's API is reached at. `Dev` has none.
    pub open spec fn spec_host(self) -> Seq<char> {
        match self {
            ApiEnv::Local => "http://localhost:8080"@,
            ApiEnv::CAN => "https://can.openspace.ai"@,
            ApiEnv::EU => "https://eu.openspace.ai"@,
            ApiEnv::GOV => "https://gov.openspace.ai"@,
            ApiEnv::JPN => "https://jpn.openspace.ai"@,
            ApiEnv::KSA => "https://ksa.openspace.ai"@,
            ApiEnv::UK => "https://uk.openspace.ai"@,
            ApiEnv::US => "https://openspace.ai"@,
            ApiEnv::SGP => "https://sgp.openspace.ai"@,
            ApiEnv::Dev => ""@,
        }
    }

    /// Base host the environment's API is reached at.
    pub fn get_host(&self) -> (r: &'static str)
        requires
            !(self is Dev),
        ensures
            r@ == self.spec_host(),
    {
        match self {
            ApiEnv::Local => "http://localhost:8080",
            ApiEnv::CAN => "https://can.openspace.ai",
            ApiEnv::EU => "https://eu.openspace.ai",
            ApiEnv::GOV => "https://gov.openspace.ai",
            ApiEnv::JPN => "https://jpn.openspace.ai",
            ApiEnv::KSA => "https://ksa.openspace.ai",
            ApiEnv::UK => "https://uk.openspace.ai",
            ApiEnv::US => "https://openspace.ai",
            ApiEnv::SGP => "https://sgp.openspace.ai",
            ApiEnv::Dev => "",
        }
    }
}

/// The API host of the default environment.
pub fn get_api_host() -> (r: &'static str)
    ensures
        r@ == ApiEnv::Local.spec_host(),
{
    ApiEnv::Local.get_host()
}

/// Which API host a user talks to: an environment, with an optional explicit
/// host that overrides the environment's fixed one.
pub struct ApiConfig {
    pub env: ApiEnv,
    pub host: Option<String>,
}

impl ApiConfig {
    /// The host this configuration resolves to: the explicit override if one
    /// is set, otherwise the environment's fixed host.
    pub open spec fn spec_resolved_host(self) -> Seq<char> {
        match self.host {
            Some(h) => h@,
            None => self.env.spec_host(),
        }
    }

    /// The explicit host override, if any.
    pub open spec fn spec_host_override(self) -> Option<Seq<char>> {
        match self.host {
            Some(h) => Some(h@),
            None => None,
        }
    }

    /// A configuration from an environment and an optional explicit host.
    pub fn new(env: ApiEnv, url: Option<String>) -> (r: ApiConfig)
        ensures
            r.env == env,
            r.spec_host_override() == match url {
                Some(u) => Some(u@),
                None => None::<Seq<char>>,
            },
    {
        ApiConfig { env, host: url }
    }

    /// The host this configuration resolves to.
    pub fn host(&self) -> (r: &str)
        requires
            self.host is None ==> !(self.env is Dev),
        ensures
            r@ == self.spec_resolved_host(),
    {
        match &self.host {
            Some(h) => h.as_str(),
            None => self.env.get_host(),
        }
    }

    /// A copy of this configuration.
    pub fn duplicate(&self) -> (r: ApiConfig)
        ensures
            r.env == self.env,
            r.spec_host_override() == self.spec_host_override(),
    {
        let host = match &self.host {
            Some(h) => Some(h.clone()),
            None => None,
        };
        ApiConfig { env: self.env, host }
    }
}

impl Default for ApiConfig {
    /// The local development configuration: the `Local` environment with its
    /// host given explicitly.
    fn default() -> (r: Self)
        ensures
            r.env == ApiEnv::Local,
            r.spec_host_override() == Some("http://localhost:8080"@),
    {
        ApiConfig { env: ApiEnv::Local, host: Some("http://localhost:8080".to_owned()) }
    }
}

/// The stored record of an authenticated user.
pub struct UserConfig {
    pub access_token: String,
    pub token_type: String,
    pub api_config: ApiConfig,
}

/// The stored OAuth login configuration.
pub struct OAuthConfig {
    pub client_id: String,
    pub env: AuthEnv,
    pub scope: AuthScope,
}

} // verus!
