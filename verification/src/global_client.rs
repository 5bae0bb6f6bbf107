//! The session manager: the credentials, whether the session is believed
//! valid, and what to do before and after each call of the protocol client.

use vstd::prelude::*;
use vstd::string::StringExecFns;

use crate::config::Config;
use crate::text::chars_of;
use crate::text::contains_text;
use crate::text::find_text;
use crate::text::lemma_contains_iff_found;
use crate::text::lowercased;
use crate::text::to_lowercase;
use crate::AppError;

verus! {

/// The message of an error tells of a failed authentication: in lower case
/// it holds one of `unauthorized`, `401`, `登录`, `认证`, `session`,
/// `cookie`, `code 401`, `code 403`.
pub open spec fn is_auth_text(message: Seq<char>) -> bool {
    let m = lowercased(message);
    ||| contains_text(m, "unauthorized"@)
    ||| contains_text(m, "401"@)
    ||| contains_text(m, "登录"@)
    ||| contains_text(m, "认证"@)
    ||| contains_text(m, "session"@)
    ||| contains_text(m, "cookie"@)
    ||| contains_text(m, "code 401"@)
    ||| contains_text(m, "code 403"@)
}

fn holds(hay: &[char], needle: &str) -> (b: bool)
    ensures
        b == contains_text(hay@, needle@),
{
    let n = chars_of(needle);
    proof {
        lemma_contains_iff_found(hay@, needle@);
    }
    find_text(hay, n.as_slice()).is_some()
}

/// Whether the error tells of a failed authentication, by its message.
pub fn is_auth_error(error: &AppError) -> (b: bool)
    ensures
        b == is_auth_text(error.text()),
{
    let message = error.message();
    let lower = to_lowercase(message.as_str());
    let m = chars_of(lower.as_str());
    holds(m.as_slice(), "unauthorized") || holds(m.as_slice(), "401") || holds(
        m.as_slice(),
        "登录",
    ) || holds(m.as_slice(), "认证") || holds(m.as_slice(), "session") || holds(
        m.as_slice(),
        "cookie",
    ) || holds(m.as_slice(), "code 401") || holds(m.as_slice(), "code 403")
}

/// Which attempt of a call an answer belongs to.
#[derive(Debug, Clone, Copy, PartialEq, Eq, Structural)]
pub enum Attempt {
    /// The first attempt.
    First,
    /// The one attempt that follows a repair of the session.
    Retry,
}

/// What follows an attempt of a call.
#[derive(Debug)]
pub enum AfterAttempt<T> {
    /// The call is over with this result.
    Return(Result<T, AppError>),
    /// The session is to be repaired, and the call attempted once more.
    Relogin,
}

/// The session manager: the credentials, the host of the image CDN, and
/// whether the session is believed valid.
#[derive(Debug, Clone, PartialEq, Eq)]
pub struct GlobalJmClient {
    pub username: String,
    pub password: String,
    pub image_domain: String,
    pub session_valid: bool,
}

impl GlobalJmClient {
    /// The session manager for the configured account, given how the first
    /// login ended: with a valid session where it succeeded, and with the
    /// login's error where it failed.
    pub fn new(config: &Config, login: Result<(), AppError>) -> (r: Result<Self, AppError>)
        ensures
            match login {
                Ok(()) => r matches Ok(client) && client.username@ == config.jm_username@
                    && client.password@ == config.jm_password@ && client.image_domain@
                    == config.image_domain@ && client.session_valid,
                Err(e) => r == Err::<Self, AppError>(e),
            },
    {
        match login {
            Ok(()) => Ok(
                GlobalJmClient {
                    username: config.jm_username.clone(),
                    password: config.jm_password.clone(),
                    image_domain: config.image_domain.clone(),
                    session_valid: true,
                },
            ),
            Err(e) => Err(e),
        }
    }

    /// The host of the image CDN.
    pub fn image_domain(&self) -> (r: &str)
        ensures
            r@ == self.image_domain@,
    {
        self.image_domain.as_str()
    }

    /// Whether a login is due: before a call, and again inside the
    /// exclusive section of a repair, where another caller may have
    /// restored the session in the meantime.
    pub fn needs_login(&self) -> (b: bool)
        ensures
            b == !self.session_valid,
    {
        !self.session_valid
    }

    /// Takes note of how a login ended: a success makes the session valid,
    /// a failure leaves it as it was and is handed on.
    pub fn login_finished(&mut self, login: Result<(), AppError>) -> (r: Result<(), AppError>)
        ensures
            r == login,
            final(self).session_valid == (old(self).session_valid || login is Ok),
            final(self).username == old(self).username,
            final(self).password == old(self).password,
            final(self).image_domain == old(self).image_domain,
    {
        if login.is_ok() {
            self.session_valid = true;
        }
        login
    }

    /// Marks the session as invalid.
    pub fn mark_session_invalid(&mut self)
        ensures
            !final(self).session_valid,
            final(self).username == old(self).username,
            final(self).password == old(self).password,
            final(self).image_domain == old(self).image_domain,
    {
        self.session_valid = false;
    }

    /// Decides what follows an attempt of a call. A success ends the call.
    /// A failure of the first attempt that tells of a failed
    /// authentication marks the session invalid and asks for a repair and
    /// one more attempt. Every other failure ends the call unchanged, and
    /// so does whatever the retry brings.
    pub fn after_attempt<T>(&mut self, attempt: Attempt, result: Result<T, AppError>) -> (r:
        AfterAttempt<T>)
        ensures
            final(self).username == old(self).username,
            final(self).password == old(self).password,
            final(self).image_domain == old(self).image_domain,
            match (attempt, result) {
                (Attempt::First, Err(e)) if is_auth_text(e.text()) => {
                    &&& r is Relogin
                    &&& !final(self).session_valid
                },
                _ => {
                    &&& r == AfterAttempt::Return(result)
                    &&& final(self).session_valid == old(self).session_valid
                },
            },
    {
        match attempt {
            Attempt::Retry => AfterAttempt::Return(result),
            Attempt::First => match result {
                Ok(v) => AfterAttempt::Return(Ok(v)),
                Err(e) => {
                    if is_auth_error(&e) {
                        self.mark_session_invalid();
                        AfterAttempt::Relogin
                    } else {
                        AfterAttempt::Return(Err(e))
                    }
                },
            },
        }
    }
}

/// What the world outside reports back to a call through the session
/// manager.
#[derive(Debug)]
pub enum CallEvent<T> {
    /// The call begins.
    Begin,
    /// The exclusive section of the repair was entered.
    Exclusive,
    /// How the login ended.
    LoggedIn(Result<(), AppError>),
    /// How the attempt ended.
    Answered(Result<T, AppError>),
}

/// What a call through the session manager asks the world outside to do
/// next.
#[derive(Debug)]
pub enum CallAction<T> {
    /// Enter the exclusive section of the repair, and stay in it until the
    /// next attempt is asked for.
    Enter,
    /// Log in with the credentials of the session manager.
    Login,
    /// Leave the exclusive section if inside, and attempt the call.
    Attempt,
    /// Leave the exclusive section if inside. The call is over with this
    /// result.
    Return(Result<T, AppError>),
}

/// Where a call through the session manager stands.
#[derive(Debug, Clone, Copy, PartialEq, Eq, Structural)]
pub enum CallPhase {
    /// Nothing was done yet.
    Ready,
    /// The exclusive section is being entered, before the attempt named.
    Entering(Attempt),
    /// A login is under way, before the attempt named.
    LoggingIn(Attempt),
    /// The attempt named is under way.
    Attempting(Attempt),
    /// The call is over.
    Done,
}

/// The message for an event that does not answer the action before it.
pub open spec fn unexpected_call_event_text() -> Seq<char> {
    "会话调用收到了意外的事件"@
}

/// One step of a call leads from the phase `before` to the phase `after`
/// and asks for `action`, while the session goes from valid or not,
/// `valid_before`, to valid or not, `valid_after`. A call is attempted at
/// once where the session is valid. Where it is not, the exclusive section
/// is entered, and a login is made only if the session is still invalid
/// inside: another caller may have repaired it. A login that fails ends
/// the call. A first attempt that fails with an error that tells of a
/// failed authentication marks the session invalid and leads through the
/// same repair to the one retry. Whatever the retry brings ends the call,
/// and so does every other result.
pub open spec fn call_step<T>(
    valid_before: bool,
    before: CallPhase,
    event: CallEvent<T>,
    valid_after: bool,
    after: CallPhase,
    action: CallAction<T>,
) -> bool {
    match (before, event) {
        (CallPhase::Ready, CallEvent::Begin) => {
            &&& valid_after == valid_before
            &&& if valid_before {
                after == CallPhase::Attempting(Attempt::First) && action is Attempt
            } else {
                after == CallPhase::Entering(Attempt::First) && action is Enter
            }
        },
        (CallPhase::Entering(attempt), CallEvent::Exclusive) => {
            &&& valid_after == valid_before
            &&& if valid_before {
                after == CallPhase::Attempting(attempt) && action is Attempt
            } else {
                after == CallPhase::LoggingIn(attempt) && action is Login
            }
        },
        (CallPhase::LoggingIn(attempt), CallEvent::LoggedIn(Ok(()))) => {
            &&& valid_after
            &&& after == CallPhase::Attempting(attempt)
            &&& action is Attempt
        },
        (CallPhase::LoggingIn(_), CallEvent::LoggedIn(Err(e))) => {
            &&& valid_after == valid_before
            &&& after == CallPhase::Done
            &&& action == CallAction::<T>::Return(Err(e))
        },
        (CallPhase::Attempting(Attempt::First), CallEvent::Answered(Err(e))) if is_auth_text(
            e.text(),
        ) => {
            &&& !valid_after
            &&& after == CallPhase::Entering(Attempt::Retry)
            &&& action is Enter
        },
        (CallPhase::Attempting(_), CallEvent::Answered(result)) => {
            &&& valid_after == valid_before
            &&& after == CallPhase::Done
            &&& action == CallAction::Return(result)
        },
        _ => {
            &&& valid_after == valid_before
            &&& after == CallPhase::Done
            &&& action matches CallAction::Return(Err(e))
            &&& e@ == (crate::ErrorKind::Internal, unexpected_call_event_text())
        },
    }
}

impl GlobalJmClient {
    /// Makes one step of a call to the protocol client: takes the event
    /// that answers the action before, and gives the next phase and the
    /// next action. The three calls for a comic, for a chapter and for a
    /// scramble id all go this way.
    pub fn call<T>(&mut self, phase: CallPhase, event: CallEvent<T>) -> (r: (
        CallPhase,
        CallAction<T>,
    ))
        ensures
            final(self).username == old(self).username,
            final(self).password == old(self).password,
            final(self).image_domain == old(self).image_domain,
            call_step(
                old(self).session_valid,
                phase,
                event,
                final(self).session_valid,
                r.0,
                r.1,
            ),
    {
        match (phase, event) {
            (CallPhase::Ready, CallEvent::Begin) => {
                if self.needs_login() {
                    (CallPhase::Entering(Attempt::First), CallAction::Enter)
                } else {
                    (CallPhase::Attempting(Attempt::First), CallAction::Attempt)
                }
            },
            (CallPhase::Entering(attempt), CallEvent::Exclusive) => {
                if self.needs_login() {
                    (CallPhase::LoggingIn(attempt), CallAction::Login)
                } else {
                    (CallPhase::Attempting(attempt), CallAction::Attempt)
                }
            },
            (CallPhase::LoggingIn(attempt), CallEvent::LoggedIn(login)) => {
                match self.login_finished(login) {
                    Ok(()) => (CallPhase::Attempting(attempt), CallAction::Attempt),
                    Err(e) => (CallPhase::Done, CallAction::Return(Err(e))),
                }
            },
            (CallPhase::Attempting(attempt), CallEvent::Answered(result)) => {
                match self.after_attempt(attempt, result) {
                    AfterAttempt::Return(r) => (CallPhase::Done, CallAction::Return(r)),
                    AfterAttempt::Relogin => (
                        CallPhase::Entering(Attempt::Retry),
                        CallAction::Enter,
                    ),
                }
            },
            _ => (
                CallPhase::Done,
                CallAction::Return(
                    Err(AppError::Internal(String::from_str("会话调用收到了意外的事件"))),
                ),
            ),
        }
    }
}

/// A repair is shared: a caller that enters the exclusive section after
/// another caller has repaired the session is not asked to log in, and
/// goes on to its attempt.
pub proof fn lemma_repair_is_shared<T>(
    attempt: Attempt,
    valid_after: bool,
    after: CallPhase,
    action: CallAction<T>,
)
    requires
        call_step(
            true,
            CallPhase::Entering(attempt),
            CallEvent::<T>::Exclusive,
            valid_after,
            after,
            action,
        ),
    ensures
        valid_after,
        after == CallPhase::Attempting(attempt),
        action is Attempt,
{
}

/// A call is retried once and no more: whatever the retry brings ends the
/// call, with no further login, and leaves the session as it is.
pub proof fn lemma_retry_is_final<T>(
    valid_before: bool,
    result: Result<T, AppError>,
    valid_after: bool,
    after: CallPhase,
    action: CallAction<T>,
)
    requires
        call_step(
            valid_before,
            CallPhase::Attempting(Attempt::Retry),
            CallEvent::Answered(result),
            valid_after,
            after,
            action,
        ),
    ensures
        valid_after == valid_before,
        after == CallPhase::Done,
        action == CallAction::Return(result),
{
}

/// How many logins a burst of failed calls performs. Each caller of the
/// burst enters the exclusive section of the repair in its turn, logs in
/// if the session is not valid by then, as `call_step` has it, and leaves
/// it valid if its login succeeded; `outcomes` tells for each caller
/// whether its login would.
pub open spec fn burst_logins(session_valid: bool, outcomes: Seq<bool>) -> nat
    decreases outcomes.len(),
{
    if outcomes.len() == 0 {
        0
    } else {
        let here: nat = if session_valid {
            0
        } else {
            1
        };
        here + burst_logins(session_valid || outcomes[0], outcomes.drop_first())
    }
}

/// The number of logins in `outcomes` that fail.
pub open spec fn failed_logins(outcomes: Seq<bool>) -> nat
    decreases outcomes.len(),
{
    if outcomes.len() == 0 {
        0
    } else {
        let here: nat = if outcomes[0] {
            0
        } else {
            1
        };
        here + failed_logins(outcomes.drop_first())
    }
}

/// A burst of failed calls shares one login: beyond the logins that fail
/// there is at most one, and none where the session is valid already.
pub proof fn lemma_one_login_per_burst(session_valid: bool, outcomes: Seq<bool>)
    ensures
        burst_logins(session_valid, outcomes) <= failed_logins(outcomes) + 1,
        session_valid ==> burst_logins(session_valid, outcomes) == 0,
    decreases outcomes.len(),
{
    if outcomes.len() > 0 {
        lemma_one_login_per_burst(session_valid || outcomes[0], outcomes.drop_first());
        lemma_one_login_per_burst(true, outcomes.drop_first());
    }
}

} // verus!
