//! The device-code poll loop's state machine.
//!
//! The caller owns the clock, the HTTP transport and the sleep; this module
//! owns every decision: when a token request may be sent, how an answer
//! changes the state, and when the challenge has expired. Times are seconds
//! of wall clock.

use vstd::prelude::*;
use crate::auth::DeviceCodeRequest;
use crate::auth::DeviceCodeResponse;
use crate::auth::TokenRequest;
use crate::config::OAuthConfig;
use crate::strutil::spec_str_contains;
use crate::strutil::str_contains;

verus! {

/// Extra delay in seconds a `slow_down` answer adds before the next request.
pub const SLOW_DOWN_EXTRA_SECS: u64 = 5;

/// Phase of one device-code flow. `Authenticated`, `Expired` and `Failed`
/// are terminal.
#[derive(Clone, Copy, Debug, PartialEq, Eq, Structural)]
pub enum PollPhase {
    AwaitingAuthorization,
    Authenticated,
    Expired,
    Failed,
}

/// What a token-endpoint answer means for the flow.
#[derive(Clone, Copy, Debug, PartialEq, Eq, Structural)]
pub enum TokenPollOutcome {
    /// HTTP success: the token was granted.
    Success,
    /// The user has not approved yet; keep polling at the normal interval.
    AuthorizationPending,
    /// Keep polling, but wait an extra `SLOW_DOWN_EXTRA_SECS` first.
    SlowDown,
    /// Any other error body or status: the flow has failed.
    OtherError,
}

/// What the loop should do next.
#[derive(Clone, Copy, Debug, PartialEq, Eq, Structural)]
pub enum PollDecision {
    /// Too early: sleep until `next_poll_at`.
    Wait,
    /// Send a token request now.
    Poll,
    /// The challenge has expired: fail with a device-code-expired error.
    Expired,
}

/// The state of one running device-code flow.
pub struct PollState {
    pub device_code: String,
    pub client_id: String,
    pub interval: u64,
    pub issued_at: u64,
    pub expires_at: u64,
    pub next_poll_at: u64,
    pub phase: PollPhase,
}

impl PollState {
    /// The pacing invariant: no request is ever allowed before one full
    /// interval after the device code was issued.
    pub open spec fn wf(self) -> bool {
        self.next_poll_at as int >= self.issued_at as int + self.interval as int
    }

    /// Start the flow for `challenge` at wall-clock time `now`: the first
    /// request must wait at least one interval, and the challenge expires
    /// `expires_in` seconds from now.
    pub fn new(challenge: &DeviceCodeResponse, client_id: &str, now: u64) -> (r: PollState)
        requires
            now as int + challenge.expires_in as int <= u64::MAX as int,
            now as int + challenge.interval as int <= u64::MAX as int,
        ensures
            r.device_code@ == challenge.device_code@,
            r.client_id@ == client_id@,
            r.interval == challenge.interval,
            r.issued_at == now,
            r.expires_at == now + challenge.expires_in,
            r.next_poll_at == now + challenge.interval,
            r.phase is AwaitingAuthorization,
            r.wf(),
    {
        PollState {
            device_code: challenge.device_code.clone(),
            client_id: client_id.to_owned(),
            interval: challenge.interval,
            issued_at: now,
            expires_at: now + challenge.expires_in,
            next_poll_at: now + challenge.interval,
            phase: PollPhase::AwaitingAuthorization,
        }
    }

    /// What the loop should do at wall-clock time `now`.
    pub open spec fn spec_decision(self, now: u64) -> PollDecision {
        if now > self.expires_at {
            PollDecision::Expired
        } else if now >= self.next_poll_at {
            PollDecision::Poll
        } else {
            PollDecision::Wait
        }
    }

    /// Decide what the loop does at wall-clock time `now`. Expiry wins over
    /// everything else; a request is only allowed once `next_poll_at` has
    /// been reached.
    pub fn decision(&self, now: u64) -> (d: PollDecision)
        requires
            self.phase is AwaitingAuthorization,
        ensures
            d == self.spec_decision(now),
    {
        if now > self.expires_at {
            PollDecision::Expired
        } else if now >= self.next_poll_at {
            PollDecision::Poll
        } else {
            PollDecision::Wait
        }
    }

    /// The state after a token-endpoint answer of kind `k` received at time
    /// `now`.
    pub open spec fn spec_after_response(self, now: u64, k: TokenPollOutcome) -> PollState {
        match k {
            TokenPollOutcome::Success => PollState { phase: PollPhase::Authenticated, ..self },
            TokenPollOutcome::AuthorizationPending => PollState {
                next_poll_at: (now + self.interval) as u64,
                ..self
            },
            TokenPollOutcome::SlowDown => PollState {
                next_poll_at: (now + self.interval + SLOW_DOWN_EXTRA_SECS) as u64,
                ..self
            },
            TokenPollOutcome::OtherError => PollState { phase: PollPhase::Failed, ..self },
        }
    }

    /// Apply a token-endpoint answer of kind `k`, received at time `now`, to
    /// the flow.
    pub fn on_response(&mut self, now: u64, k: TokenPollOutcome)
        requires
            old(self).wf(),
            old(self).phase is AwaitingAuthorization,
            now >= old(self).next_poll_at,
            now as int + old(self).interval as int + SLOW_DOWN_EXTRA_SECS as int <= u64::MAX as int,
        ensures
            *final(self) == old(self).spec_after_response(now, k),
            final(self).wf(),
    {
        proof {
            assert(now >= old(self).issued_at);
        }
        match k {
            TokenPollOutcome::Success => {
                self.phase = PollPhase::Authenticated;
            },
            TokenPollOutcome::AuthorizationPending => {
                self.next_poll_at = now + self.interval;
            },
            TokenPollOutcome::SlowDown => {
                self.next_poll_at = now + self.interval + SLOW_DOWN_EXTRA_SECS;
            },
            TokenPollOutcome::OtherError => {
                self.phase = PollPhase::Failed;
            },
        }
    }

    /// Mark the flow expired: the device code's lifetime has run out before
    /// a terminal result was reached.
    pub fn expire(&mut self)
        requires
            old(self).phase is AwaitingAuthorization,
        ensures
            *final(self) == (PollState { phase: PollPhase::Expired, ..*old(self) }),
    {
        self.phase = PollPhase::Expired;
    }

    /// The token request this flow sends on each poll.
    pub fn build_token_request(&self) -> (r: TokenRequest)
        ensures
            r.grant_type@ == "urn:ietf:params:oauth:grant-type:device_code"@,
            r.device_code@ == self.device_code@,
            r.client_id@ == self.client_id@,
    {
        TokenRequest {
            grant_type: "urn:ietf:params:oauth:grant-type:device_code".to_owned(),
            device_code: self.device_code.clone(),
            client_id: self.client_id.clone(),
        }
    }
}

/// The device-code request sent to start a flow for `config`.
pub fn build_device_code_request(config: &OAuthConfig) -> (r: DeviceCodeRequest)
    ensures
        r.client_id@ == config.client_id@,
        r.scope@ == config.scope.spec_str(),
        r.audience@ == config.env.spec_audience(),
{
    DeviceCodeRequest {
        client_id: config.client_id.clone(),
        scope: config.scope.as_str().to_owned(),
        audience: config.env.get_audience().to_owned(),
    }
}

/// Classify the error body of a non-success token answer:
/// `authorization_pending` keeps polling, `slow_down` keeps polling with an
/// extra delay, anything else fails the flow.
pub fn classify_token_error(body: &str) -> (r: TokenPollOutcome)
    ensures
        r is AuthorizationPending <==> spec_str_contains(body@, "authorization_pending"@),
        r is SlowDown <==> (!spec_str_contains(body@, "authorization_pending"@)
            && spec_str_contains(body@, "slow_down"@)),
        r is OtherError <==> (!spec_str_contains(body@, "authorization_pending"@)
            && !spec_str_contains(body@, "slow_down"@)),
        !(r is Success),
{
    if str_contains(body, "authorization_pending") {
        TokenPollOutcome::AuthorizationPending
    } else if str_contains(body, "slow_down") {
        TokenPollOutcome::SlowDown
    } else {
        TokenPollOutcome::OtherError
    }
}

/// The poll loop never sends a token request before at least one full
/// `interval` has elapsed since the device code was issued.
pub proof fn lemma_first_poll_after_interval(s: PollState, now: u64)
    requires
        s.wf(),
        s.spec_decision(now) is Poll,
    ensures
        now as int >= s.issued_at as int + s.interval as int,
{
}

/// Ordinary pacing: after an `authorization_pending` answer received at
/// time `t`, no further request is sent before `t + interval`.
pub proof fn lemma_pending_keeps_interval(s: PollState, t: u64, now: u64)
    requires
        s.wf(),
        t as int + s.interval as int <= u64::MAX as int,
        s.spec_after_response(t, TokenPollOutcome::AuthorizationPending).spec_decision(now)
            is Poll,
    ensures
        now as int >= t as int + s.interval as int,
{
}

/// After a `slow_down` answer received at time `t`, no further request is
/// sent before `t + interval + SLOW_DOWN_EXTRA_SECS`.
pub proof fn lemma_slow_down_backoff(s: PollState, t: u64, now: u64)
    requires
        s.wf(),
        t as int + s.interval as int + SLOW_DOWN_EXTRA_SECS as int <= u64::MAX as int,
        s.spec_after_response(t, TokenPollOutcome::SlowDown).spec_decision(now) is Poll,
    ensures
        now as int >= t as int + s.interval as int + SLOW_DOWN_EXTRA_SECS as int,
{
}

/// If the wall clock exceeds `expires_at`, the flow expires: the decision is
/// `Expired` whatever else holds of the state, in particular whether or not
/// a poll response is still pending.
pub proof fn lemma_expiry_wins(s: PollState, now: u64)
    requires
        now > s.expires_at,
    ensures
        s.spec_decision(now) is Expired,
{
}

} // verus!
