//! Logging in and out: the session is renewed before the user's id is
//! written into it, and purged on logout. The caller performs each session
//! operation that a step asks for and hands back what came of it.
use crate::authentication::{AuthError, StoreError, UserId};
use uuid::Uuid;
use vstd::prelude::*;

verus! {

/// Where a user lands after logging in.
pub const DASHBOARD_PATH: &'static str = "/admin/dashboard";

/// Why a login failed.
#[derive(Debug, Clone, Copy, PartialEq, Eq, Structural)]
pub enum LoginError {
    /// The credentials were not accepted.
    AuthError,
    /// The store, the worker pool or the session store failed.
    UnexpectedError,
}

/// The flash message shown on the login page after a failure.
pub open spec fn login_error_message(e: LoginError) -> Seq<char> {
    match e {
        LoginError::AuthError => "Authentication failed"@,
        LoginError::UnexpectedError => "Something went wrong"@,
    }
}

impl LoginError {
    /// The status code that the error stands for: 401 for rejected
    /// credentials, 500 otherwise.
    pub fn status_code(&self) -> (r: u16)
        ensures
            *self is AuthError ==> r == 401,
            *self is UnexpectedError ==> r == 500,
    {
        match self {
            LoginError::AuthError => 401,
            LoginError::UnexpectedError => 500,
        }
    }

    /// The message flashed on the login page; it never names the cause.
    pub fn message(&self) -> (r: String)
        ensures
            r@ == login_error_message(*self),
    {
        match self {
            LoginError::AuthError => String::from_str("Authentication failed"),
            LoginError::UnexpectedError => String::from_str("Something went wrong"),
        }
    }
}

/// What the caller does next while logging a user in.
#[derive(Debug, Clone, Copy)]
pub enum LoginStep {
    /// Renew the session token, then call `session_renewed`.
    RenewSession(UserId),
    /// Write the user's id into the renewed session and pass the answer to
    /// `session_inserted`.
    InsertUserId(UserId),
    /// Redirect (303) to `DASHBOARD_PATH`.
    EnterDashboard,
    /// Flash the error's message and redirect (303) to the login page.
    Reject(LoginError),
}

/// The first step after the credentials were validated. A renewal comes
/// first, so that a session token planted before login is never the one that
/// carries the user's identity.
pub fn login(validated: Result<UserId, AuthError>) -> (r: LoginStep)
    ensures
        validated is Ok ==> r == LoginStep::RenewSession(validated->Ok_0),
        validated == Err::<UserId, AuthError>(AuthError::InvalidCredentials) ==> r
            == LoginStep::Reject(LoginError::AuthError),
        validated is Err && validated->Err_0 is Unexpected ==> r == LoginStep::Reject(
            LoginError::UnexpectedError,
        ),
{
    match validated {
        Ok(user_id) => LoginStep::RenewSession(user_id),
        Err(AuthError::InvalidCredentials) => LoginStep::Reject(LoginError::AuthError),
        Err(AuthError::Unexpected(_)) => LoginStep::Reject(LoginError::UnexpectedError),
    }
}

/// The step after the session token was renewed.
pub fn session_renewed(user_id: UserId) -> (r: LoginStep)
    ensures
        r == LoginStep::InsertUserId(user_id),
{
    LoginStep::InsertUserId(user_id)
}

/// The step after the user's id was written into the session, or failed to be.
pub fn session_inserted(inserted: Result<(), StoreError>) -> (r: LoginStep)
    ensures
        inserted is Ok ==> r == LoginStep::EnterDashboard,
        inserted is Err ==> r == LoginStep::Reject(LoginError::UnexpectedError),
{
    match inserted {
        Ok(()) => LoginStep::EnterDashboard,
        Err(_) => LoginStep::Reject(LoginError::UnexpectedError),
    }
}

/// How a logout request is answered. The caller purges the session in every
/// case; purging a session that does not exist does nothing.
#[derive(Debug, Clone, Copy, PartialEq, Eq, Structural)]
pub enum LogoutOutcome {
    /// The user was logged in: flash a confirmation, redirect to the login page.
    LoggedOut,
    /// Nobody was logged in: redirect to the login page.
    NotLoggedIn,
    /// The session store failed: answer with a 500.
    SessionFailure,
}

/// The message flashed after a logout.
pub open spec fn logout_message() -> Seq<char> {
    "You have successfully logged out."@
}

/// Decides the answer to a logout request from what the session store holds
/// as `user_id`.
pub fn admin_logout(session_user: Result<Option<Uuid>, StoreError>) -> (r: LogoutOutcome)
    ensures
        session_user is Err ==> r == LogoutOutcome::SessionFailure,
        session_user == Ok::<Option<Uuid>, StoreError>(None) ==> r == LogoutOutcome::NotLoggedIn,
        (session_user is Ok && session_user->Ok_0 is Some) ==> r == LogoutOutcome::LoggedOut,
{
    match session_user {
        Err(_) => LogoutOutcome::SessionFailure,
        Ok(None) => LogoutOutcome::NotLoggedIn,
        Ok(Some(_)) => LogoutOutcome::LoggedOut,
    }
}

impl LogoutOutcome {
    /// The confirmation to flash, if any.
    pub fn message(&self) -> (r: Option<String>)
        ensures
            *self is LoggedOut ==> r is Some && r->0@ == logout_message(),
            !(*self is LoggedOut) ==> r is None,
    {
        match self {
            LogoutOutcome::LoggedOut => Some(String::from_str("You have successfully logged out.")),
            _ => None,
        }
    }
}

} // verus!
