//! Credentials of a signed-in session and the policy that re-authenticates a
//! request whose token the server no longer accepts.

use vstd::prelude::*;

verus! {

/// HTTP status of a rejected token or bad credentials.
pub const STATUS_UNAUTHORIZED: u16 = 401;

/// HTTP status of an account the server refuses.
pub const STATUS_FORBIDDEN: u16 = 403;

/// The user's playback preferences, as the server stores them.
#[derive(Debug)]
pub struct UserPreferences {
    pub audio_language_preference: Option<String>,
    pub play_default_audio_track: bool,
    /// A language code, or "none" for no subtitles.
    pub subtitle_language_preference: String,
}

/// What signing in yields; replaced as a whole on re-authentication.
#[derive(Debug)]
pub struct Credentials {
    pub access_token: String,
    pub user_id: String,
    pub preferences: UserPreferences,
}

/// Why signing in failed.
#[derive(Debug, Clone, Copy, PartialEq, Eq, Structural)]
pub enum AuthError {
    /// Bad user name or password.
    Unauthorized,
    /// The account may not use the server.
    Forbidden,
}

impl AuthError {
    /// The message shown for the error.
    pub fn message(&self) -> (r: String)
        ensures
            *self == AuthError::Unauthorized ==> r@ == "401: Invalid username or password"@,
            *self == AuthError::Forbidden ==> r@ == "403: Access to server denied"@,
    {
        match self {
            AuthError::Unauthorized => String::from_str("401: Invalid username or password"),
            AuthError::Forbidden => String::from_str("403: Access to server denied"),
        }
    }
}

/// The outcome of a sign-in answered with `status`; on `Ok` the body holds
/// the credentials.
pub open spec fn auth_outcome(status: u16) -> Result<(), AuthError> {
    if status == STATUS_UNAUTHORIZED {
        Err(AuthError::Unauthorized)
    } else if status == STATUS_FORBIDDEN {
        Err(AuthError::Forbidden)
    } else {
        Ok(())
    }
}

/// Classifies the status of a sign-in response.
pub fn check_auth_status(status: u16) -> (r: Result<(), AuthError>)
    ensures
        r == auth_outcome(status),
{
    if status == STATUS_UNAUTHORIZED {
        Err(AuthError::Unauthorized)
    } else if status == STATUS_FORBIDDEN {
        Err(AuthError::Forbidden)
    } else {
        Ok(())
    }
}

/// What to do with the response to an authenticated request.
#[derive(Debug, Clone, Copy, PartialEq, Eq, Structural)]
pub enum RequestStep {
    /// Hand the response to the caller.
    Deliver,
    /// Sign in again, then send the same request once more.
    Reauthenticate,
    /// The renewed token was refused too: fail with `Unauthorized`.
    Reject,
}

/// The next step and whether a re-authentication has happened since.
pub open spec fn request_step(retried: bool, status: u16) -> (bool, RequestStep) {
    if status != STATUS_UNAUTHORIZED {
        (retried, RequestStep::Deliver)
    } else if !retried {
        (true, RequestStep::Reauthenticate)
    } else {
        (true, RequestStep::Reject)
    }
}

/// Re-authentications a run of responses leads to.
pub open spec fn reauthentications(retried: bool, statuses: Seq<u16>) -> nat
    decreases statuses.len(),
{
    if statuses.len() == 0 {
        0
    } else {
        let (next, step) = request_step(retried, statuses[0]);
        (if step == RequestStep::Reauthenticate {
            1nat
        } else {
            0nat
        }) + reauthentications(next, statuses.drop_first())
    }
}

/// One request on its way: whether it has already been retried with a new token.
pub struct RequestAttempt {
    pub retried: bool,
}

impl RequestAttempt {
    /// A request sent for the first time.
    pub fn new() -> (r: RequestAttempt)
        ensures
            !r.retried,
    {
        RequestAttempt { retried: false }
    }

    /// Decides what follows a response with `status`.
    pub fn on_status(&mut self, status: u16) -> (r: RequestStep)
        ensures
            (final(self).retried, r) == request_step(old(self).retried, status),
    {
        if status != STATUS_UNAUTHORIZED {
            RequestStep::Deliver
        } else if !self.retried {
            self.retried = true;
            RequestStep::Reauthenticate
        } else {
            RequestStep::Reject
        }
    }
}

/// A request refused for its token succeeds after one re-authentication when
/// the retry is accepted; a second refusal is an error, with no further retry.
pub proof fn lemma_retry_once(first: u16, second: u16)
    requires
        first == STATUS_UNAUTHORIZED,
    ensures
        request_step(false, first) == (true, RequestStep::Reauthenticate),
        second != STATUS_UNAUTHORIZED ==> request_step(true, second).1 == RequestStep::Deliver,
        second == STATUS_UNAUTHORIZED ==> request_step(true, second).1 == RequestStep::Reject,
{
}

/// Whatever the server answers, one request is re-authenticated at most once.
pub proof fn lemma_at_most_one_reauthentication(retried: bool, statuses: Seq<u16>)
    ensures
        reauthentications(retried, statuses) <= 1,
        retried ==> reauthentications(retried, statuses) == 0,
    decreases statuses.len(),
{
    if statuses.len() > 0 {
        let (next, step) = request_step(retried, statuses[0]);
        lemma_at_most_one_reauthentication(next, statuses.drop_first());
        lemma_at_most_one_reauthentication(true, statuses.drop_first());
    }
}

} // verus!
