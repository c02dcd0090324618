//! The device login flow: how often and how long the client polls, and what
//! it does with each answer.

use vstd::prelude::*;
use crate::api::{CliAuthPollResponse, CliAuthUser};
use crate::config::AuthConfig;
use crate::text::same_text;

verus! {

/// The longest time the client waits for the user to approve a login.
pub const MAX_POLL_DURATION_SECS: u64 = 600;

/// Why a login ends without credentials.
#[derive(Debug)]
pub enum LoginError {
    /// The code expired before the user approved it.
    CodeExpired,
    /// The server approved the login but sent no token.
    NoToken,
    /// The server approved the login but sent no user.
    NoUser,
    /// The server answered with a status the client does not know.
    UnexpectedStatus { status: String },
    /// The user did not approve within the polling budget.
    TimedOut,
}

/// What to do after one poll.
#[derive(Debug)]
pub enum PollDecision {
    /// Wait and poll again.
    KeepWaiting,
    /// Stop: the login failed.
    Fail(LoginError),
    /// Stop: store these credentials.
    Save(AuthConfig),
}

/// The polling schedule: the pause between polls and how many polls are left.
/// Every pause is `interval_secs` long, and all pauses together never exceed
/// `MAX_POLL_DURATION_SECS`.
pub struct LoginPoll {
    interval_secs: u64,
    attempts: u64,
    remaining: u64,
}

/// The pause between polls for a server-suggested interval: at least a second.
pub open spec fn poll_interval(suggested: u64) -> u64 {
    if suggested == 0 { 1 } else { suggested }
}

/// How many polls fit in the budget for a server-suggested interval.
pub open spec fn poll_budget(suggested: u64) -> u64 {
    (MAX_POLL_DURATION_SECS / poll_interval(suggested)) as u64
}

impl LoginPoll {
    /// The schedule is consistent: the pause is at least a second, and the polls
    /// started and still allowed are exactly those that fit in the budget.
    pub closed spec fn wf(self) -> bool {
        &&& self.interval_secs >= 1
        &&& self.attempts + self.remaining == (MAX_POLL_DURATION_SECS as int) / (self.interval_secs as int)
    }

    /// The pause between polls, in seconds.
    pub closed spec fn spec_interval(self) -> u64 {
        self.interval_secs
    }

    /// The polls started so far.
    pub closed spec fn spec_attempts(self) -> u64 {
        self.attempts
    }

    /// The polls still allowed.
    pub closed spec fn spec_remaining(self) -> u64 {
        self.remaining
    }

    /// The schedule for a server-suggested interval (`interval` seconds, at
    /// least one), with as many polls as fit in `MAX_POLL_DURATION_SECS`.
    pub fn new(suggested_interval: u64) -> (p: LoginPoll)
        ensures
            p.spec_interval() == poll_interval(suggested_interval),
            p.spec_attempts() == 0,
            p.spec_remaining() == poll_budget(suggested_interval),
            p.wf(),
    {
        let interval_secs = if suggested_interval == 0 { 1 } else { suggested_interval };
        LoginPoll { interval_secs, attempts: 0, remaining: MAX_POLL_DURATION_SECS / interval_secs }
    }

    /// The pause between polls, in seconds.
    pub fn interval_secs(&self) -> (r: u64)
        ensures
            r == self.spec_interval(),
    {
        self.interval_secs
    }

    /// The polls started so far.
    pub fn attempts(&self) -> (r: u64)
        ensures
            r == self.spec_attempts(),
    {
        self.attempts
    }

    /// The polls still allowed.
    pub fn remaining(&self) -> (r: u64)
        ensures
            r == self.spec_remaining(),
    {
        self.remaining
    }

    /// Starts the next poll: returns the pause to wait before it, or `None` when
    /// the budget is spent and the login has timed out.
    pub fn next_wait(&mut self) -> (r: Option<u64>)
        requires
            old(self).wf(),
        ensures
            final(self).wf(),
            old(self).spec_remaining() == 0 ==> r is None && *final(self) == *old(self),
            old(self).spec_remaining() > 0 ==> r == Some(old(self).spec_interval())
                && final(self).spec_interval() == old(self).spec_interval()
                && final(self).spec_attempts() == old(self).spec_attempts() + 1
                && final(self).spec_remaining() == old(self).spec_remaining() - 1,
    {
        if self.remaining == 0 {
            None
        } else {
            self.remaining = self.remaining - 1;
            self.attempts = self.attempts + 1;
            Some(self.interval_secs)
        }
    }
}

/// Every schedule keeps the time waited so far, and the time it may still
/// wait, within `MAX_POLL_DURATION_SECS`.
pub proof fn lemma_wait_within_budget(p: LoginPoll)
    requires
        p.wf(),
    ensures
        p.spec_interval() >= 1,
        (p.spec_attempts() + p.spec_remaining()) * p.spec_interval() <= MAX_POLL_DURATION_SECS,
        p.spec_attempts() * p.spec_interval() <= MAX_POLL_DURATION_SECS,
{
    let i = p.interval_secs as int;
    let n = p.attempts + p.remaining;
    assert(n * i <= MAX_POLL_DURATION_SECS) by (nonlinear_arith)
        requires
            i >= 1,
            n == MAX_POLL_DURATION_SECS as int / i,
    ;
    assert(p.attempts * i <= n * i) by (nonlinear_arith)
        requires
            i >= 1,
            p.attempts <= n,
    ;
}

/// The schedule honours the server: the pause is never shorter than the
/// interval the server asked for, nor shorter than a second, and it is exactly
/// one of the two (the larger); the number of polls is the most whose pauses
/// fit in `MAX_POLL_DURATION_SECS`.
pub proof fn lemma_schedule_follows_server(suggested: u64)
    ensures
        poll_interval(suggested) >= suggested,
        poll_interval(suggested) >= 1,
        poll_interval(suggested) == suggested || poll_interval(suggested) == 1,
        poll_budget(suggested) * poll_interval(suggested) <= MAX_POLL_DURATION_SECS,
        (poll_budget(suggested) + 1) * poll_interval(suggested) > MAX_POLL_DURATION_SECS,
{
    let i = poll_interval(suggested) as int;
    let b = poll_budget(suggested) as int;
    assert(b == 600int / i);
    assert(b * i <= 600int && (b + 1) * i > 600int) by (nonlinear_arith)
        requires
            i >= 1,
            b == 600int / i,
    ;
}

/// The answer to one poll: "pending" means wait, "expired" ends the login,
/// "authorized" stores the token and user it carries (and fails without them),
/// and any other status ends the login.
pub open spec fn poll_decision_spec(resp: CliAuthPollResponse, d: PollDecision) -> bool {
    if resp.status@ == "pending"@ {
        d is KeepWaiting
    } else if resp.status@ == "expired"@ {
        d matches PollDecision::Fail(LoginError::CodeExpired)
    } else if resp.status@ == "authorized"@ {
        match (resp.token, resp.user) {
            (None, _) => d matches PollDecision::Fail(LoginError::NoToken),
            (Some(_), None) => d matches PollDecision::Fail(LoginError::NoUser),
            (Some(t), Some(u)) => d matches PollDecision::Save(a) && a.token@ == t@
                && a.username@ == u.username@,
        }
    } else {
        d matches PollDecision::Fail(LoginError::UnexpectedStatus { status }) && status@
            == resp.status@
    }
}

/// Decides what to do with the answer to a poll.
pub fn decide_poll(resp: CliAuthPollResponse) -> (d: PollDecision)
    ensures
        poll_decision_spec(resp, d),
{
    if same_text(resp.status.as_str(), "pending") {
        PollDecision::KeepWaiting
    } else if same_text(resp.status.as_str(), "expired") {
        PollDecision::Fail(LoginError::CodeExpired)
    } else if same_text(resp.status.as_str(), "authorized") {
        match resp.token {
            None => PollDecision::Fail(LoginError::NoToken),
            Some(token) => match resp.user {
                None => PollDecision::Fail(LoginError::NoUser),
                Some(user) => PollDecision::Save(AuthConfig { token, username: user.username }),
            },
        }
    } else {
        PollDecision::Fail(LoginError::UnexpectedStatus { status: resp.status })
    }
}

/// Decides what to do when a poll could not be completed (the request failed
/// or was refused): the client warns and keeps waiting.
pub fn decide_failed_poll() -> (d: PollDecision)
    ensures
        d is KeepWaiting,
{
    PollDecision::KeepWaiting
}

} // verus!
