use openspace_sync::auth::{get_user_initials, AuthEnv, AuthScope, DeviceCodeResponse, LoginConfig};
use openspace_sync::config::OAuthConfig;
use openspace_sync::poll::{
    build_device_code_request, classify_token_error, PollDecision, PollPhase, PollState,
    TokenPollOutcome, SLOW_DOWN_EXTRA_SECS,
};

fn challenge(expires_in: u64, interval: u64) -> DeviceCodeResponse {
    DeviceCodeResponse {
        device_code: "dc-314159".to_string(),
        user_code: "ABCD-EFGH".to_string(),
        verification_uri: "https://login.osdevenv.net/activate".to_string(),
        verification_uri_complete: "https://login.osdevenv.net/activate?user_code=ABCD-EFGH"
            .to_string(),
        expires_in,
        interval,
    }
}

#[test]
fn first_poll_waits_a_full_interval() {
    let s = PollState::new(&challenge(600, 5), "client-1", 1000);
    assert_eq!(s.interval, 5);
    assert_eq!(s.expires_at, 1600);
    // Never poll immediately: the whole first interval must pass.
    assert!(matches!(s.decision(1000), PollDecision::Wait));
    assert!(matches!(s.decision(1004), PollDecision::Wait));
    assert!(matches!(s.decision(1005), PollDecision::Poll));
}

#[test]
fn pending_keeps_the_normal_interval() {
    let mut s = PollState::new(&challenge(600, 5), "client-1", 1000);
    s.on_response(1005, TokenPollOutcome::AuthorizationPending);
    assert!(matches!(s.phase, PollPhase::AwaitingAuthorization));
    assert!(matches!(s.decision(1009), PollDecision::Wait));
    assert!(matches!(s.decision(1010), PollDecision::Poll));
}

#[test]
fn slow_down_adds_five_seconds() {
    let mut s = PollState::new(&challenge(600, 5), "client-1", 1000);
    s.on_response(1005, TokenPollOutcome::SlowDown);
    // Next request no earlier than interval + 5 after the answer.
    assert_eq!(SLOW_DOWN_EXTRA_SECS, 5);
    assert!(matches!(s.decision(1014), PollDecision::Wait));
    assert!(matches!(s.decision(1015), PollDecision::Poll));
}

#[test]
fn expiry_wins_over_everything() {
    let mut s = PollState::new(&challenge(600, 5), "client-1", 1000);
    s.on_response(1005, TokenPollOutcome::AuthorizationPending);
    // Once the wall clock passes expires_at the only decision is Expired,
    // whatever was still in flight.
    assert!(matches!(s.decision(1601), PollDecision::Expired));
    s.expire();
    assert!(matches!(s.phase, PollPhase::Expired));
}

#[test]
fn success_and_failure_are_terminal() {
    let mut s = PollState::new(&challenge(600, 5), "client-1", 1000);
    s.on_response(1005, TokenPollOutcome::Success);
    assert!(matches!(s.phase, PollPhase::Authenticated));

    let mut s = PollState::new(&challenge(600, 5), "client-1", 1000);
    s.on_response(1005, TokenPollOutcome::OtherError);
    assert!(matches!(s.phase, PollPhase::Failed));
}

#[test]
fn token_errors_are_classified_by_body() {
    assert!(matches!(
        classify_token_error("{\"error\":\"authorization_pending\"}"),
        TokenPollOutcome::AuthorizationPending
    ));
    assert!(matches!(
        classify_token_error("{\"error\":\"slow_down\"}"),
        TokenPollOutcome::SlowDown
    ));
    assert!(matches!(
        classify_token_error("{\"error\":\"invalid_grant\"}"),
        TokenPollOutcome::OtherError
    ));
    assert!(matches!(classify_token_error(""), TokenPollOutcome::OtherError));
}

#[test]
fn token_request_carries_the_device_code_grant() {
    let s = PollState::new(&challenge(600, 5), "client-1", 1000);
    let req = s.build_token_request();
    assert_eq!(req.grant_type, "urn:ietf:params:oauth:grant-type:device_code");
    assert_eq!(req.device_code, "dc-314159");
    assert_eq!(req.client_id, "client-1");
}

#[test]
fn device_code_request_uses_the_environment() {
    let config = OAuthConfig {
        client_id: "client-1".to_string(),
        env: AuthEnv::Prod,
        scope: AuthScope::Email,
    };
    let req = build_device_code_request(&config);
    assert_eq!(req.client_id, "client-1");
    assert_eq!(req.scope, "email");
    assert_eq!(req.audience, "openspace.ai");
}

#[test]
fn auth_env_hosts_and_urls() {
    assert_eq!(AuthEnv::Dev.get_host(), "https://login.osdevenv.net");
    assert_eq!(AuthEnv::Prod.get_host(), "https://login.openspace.ai");
    assert_eq!(AuthEnv::Dev.get_audience(), "openspace-dev.ai");
    assert_eq!(AuthEnv::Prod.get_audience(), "openspace.ai");
    assert_eq!(
        AuthEnv::Dev.get_auth_url(),
        "https://login.osdevenv.net/oauth/device/code"
    );
    assert_eq!(AuthEnv::Prod.get_token_url(), "https://login.openspace.ai/oauth/token");
}

#[test]
fn auth_scopes_on_the_wire() {
    assert_eq!(AuthScope::Openid.as_str(), "openid");
    assert_eq!(AuthScope::Email.as_str(), "email");
    assert_eq!(AuthScope::OfflineAccess.as_str(), "offline_access");
}

#[test]
fn login_config_construction() {
    let c = LoginConfig::new("id-1".to_string(), AuthEnv::Prod, AuthScope::Openid);
    assert_eq!(c.client_id, "id-1");
    assert!(matches!(c.auth_env, AuthEnv::Prod));
    assert!(matches!(c.scope, AuthScope::Openid));
    let d = LoginConfig::default();
    assert!(matches!(d.auth_env, AuthEnv::Dev));
    assert!(matches!(d.scope, AuthScope::Email));
}

#[test]
fn initials_from_names() {
    assert_eq!(get_user_initials(None), "OS");
    assert_eq!(get_user_initials(Some("".to_string())), "OS");
    assert_eq!(get_user_initials(Some("   ".to_string())), "OS");
    assert_eq!(get_user_initials(Some("ada".to_string())), "A");
    assert_eq!(get_user_initials(Some("Ada Lovelace".to_string())), "AL");
    assert_eq!(get_user_initials(Some("  ada  m.  lovelace  ".to_string())), "AL");
    assert_eq!(get_user_initials(Some("grace".to_string())), "G");
}
