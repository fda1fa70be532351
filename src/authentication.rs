//! Credential validation and the authorization gate in front of protected routes.
use crate::password::{
    argon2_accepts, is_hash_of, is_phc, verification, verify_password_hash, VerifyError,
};
use crate::secret::{secret_text, SecretString};
use uuid::Uuid;
use vstd::prelude::*;

verus! {

#[verifier::external_type_specification]
#[verifier::external_body]
pub struct ExUuid(Uuid);

/// Where a visitor who is not logged in is sent.
pub const LOGIN_PATH: &'static str = "/login";

/// A well-formed Argon2id hash (default cost) of a password nobody knows.
/// Unknown usernames are checked against it, so that they cost as much time
/// as a wrong password for a known one.
pub const DUMMY_PASSWORD_HASH: &'static str =
    "$argon2id$v=19$m=19456,t=2,p=1$gZiV/M1gPc22ElAH/Jh1Hw$CWOrkoo7oJBQ/iyh7uJ0LO2aLEfrHwTWllSAxT0zRno";

/// The identity of a logged-in user, attached to one request.
#[derive(Clone, Copy, Debug)]
pub struct UserId(pub Uuid);

impl UserId {
    /// The user's id.
    pub fn uuid(&self) -> (r: Uuid)
        ensures
            r == self.0,
    {
        self.0
    }
}

/// A username and password submitted for one request.
pub struct Credentials {
    pub username: String,
    pub password: SecretString,
}

/// The row that the credential store holds for a username.
pub struct StoredCredential {
    pub user_id: Uuid,
    pub password_hash: SecretString,
}

/// The credential store or the session store could not be reached or answered
/// with an error.
#[derive(Debug, Clone, Copy, PartialEq, Eq, Structural)]
pub struct StoreError;

/// How the worker pool that runs hashing off the request threads failed.
#[derive(Debug, Clone, Copy, PartialEq, Eq, Structural)]
pub enum OffloadError {
    /// The pool dropped the task, as it does while shutting down.
    Cancelled,
    /// The task panicked.
    WorkerFailed,
}

/// The internal cause of an unexpected failure: for the logs, never for the client.
#[derive(Debug, Clone, Copy, PartialEq, Eq, Structural)]
pub enum UnexpectedCause {
    /// The credential store failed.
    StoreFailed,
    /// The hash stored for the user is not a PHC string.
    MalformedStoredHash,
    /// The worker pool failed.
    Offload(OffloadError),
}

/// Why credentials were not accepted.
#[derive(Debug, Clone, Copy, PartialEq, Eq, Structural)]
pub enum AuthError {
    /// Unknown username or wrong password; which of the two is never told.
    InvalidCredentials,
    /// The store, the worker pool or the stored hash failed.
    Unexpected(UnexpectedCause),
}

/// What validating `password` yields, given what the store answered for the username.
pub open spec fn validation(
    password: Seq<char>,
    lookup: Result<Option<StoredCredential>, StoreError>,
) -> Result<UserId, AuthError> {
    match lookup {
        Err(_) => Err(AuthError::Unexpected(UnexpectedCause::StoreFailed)),
        Ok(None) => Err(AuthError::InvalidCredentials),
        Ok(Some(row)) => match verification(password, secret_text(row.password_hash)) {
            Ok(()) => Ok(UserId(row.user_id)),
            Err(VerifyError::Mismatch) => Err(AuthError::InvalidCredentials),
            Err(VerifyError::MalformedHash) => Err(
                AuthError::Unexpected(UnexpectedCause::MalformedStoredHash),
            ),
        },
    }
}

/// The hash that the submitted password is checked against: the stored one,
/// or the dummy one when the username is unknown.
pub fn hash_to_check(row: &Option<StoredCredential>) -> (r: SecretString)
    ensures
        row is Some ==> secret_text(r) == secret_text(row->0.password_hash),
        row is None ==> secret_text(r) == DUMMY_PASSWORD_HASH@,
{
    match row {
        Some(row) => SecretString::new(row.password_hash.expose_secret().clone()),
        None => SecretString::new(String::from_str(DUMMY_PASSWORD_HASH)),
    }
}

/// Validates `credentials` against what the store answered for
/// `credentials.username`. A password hash is verified on every path that
/// reached the store, an unknown username included.
pub fn validate_credentials(
    credentials: &Credentials,
    lookup: Result<Option<StoredCredential>, StoreError>,
) -> (r: Result<UserId, AuthError>)
    ensures
        r == validation(secret_text(credentials.password), lookup),
{
    let row = match lookup {
        Err(_) => return Err(AuthError::Unexpected(UnexpectedCause::StoreFailed)),
        Ok(row) => row,
    };
    let expected = hash_to_check(&row);
    let checked = verify_password_hash(&expected, &credentials.password);
    match row {
        None => Err(AuthError::InvalidCredentials),
        Some(row) => match checked {
            Ok(()) => Ok(UserId(row.user_id)),
            Err(VerifyError::Mismatch) => Err(AuthError::InvalidCredentials),
            Err(VerifyError::MalformedHash) => Err(
                AuthError::Unexpected(UnexpectedCause::MalformedStoredHash),
            ),
        },
    }
}

/// The result of a validation that ran on the worker pool: a failure of the
/// pool itself is an unexpected error.
pub fn settle_offloaded(outcome: Result<Result<UserId, AuthError>, OffloadError>) -> (r: Result<
    UserId,
    AuthError,
>)
    ensures
        outcome is Err ==> r == Err::<UserId, AuthError>(
            AuthError::Unexpected(UnexpectedCause::Offload(outcome->Err_0)),
        ),
        outcome is Ok ==> r == outcome->Ok_0,
{
    match outcome {
        Ok(validated) => validated,
        Err(e) => Err(AuthError::Unexpected(UnexpectedCause::Offload(e))),
    }
}

/// An unknown username is always answered with `InvalidCredentials`,
/// whatever the password.
pub proof fn lemma_unknown_username_rejected(password: Seq<char>)
    ensures
        validation(password, Ok(None)) == Err::<UserId, AuthError>(AuthError::InvalidCredentials),
{
}

/// A password that verifies against the stored hash yields the stored user's
/// id; one that does not, against a well-formed hash, yields
/// `InvalidCredentials`.
pub proof fn lemma_stored_hash_decides(password: Seq<char>, row: StoredCredential)
    ensures
        is_hash_of(password, secret_text(row.password_hash)) ==> validation(password, Ok(Some(row)))
            == Ok::<UserId, AuthError>(UserId(row.user_id)),
        is_phc(secret_text(row.password_hash)) && !argon2_accepts(
            password,
            secret_text(row.password_hash),
        ) ==> validation(password, Ok(Some(row))) == Err::<UserId, AuthError>(
            AuthError::InvalidCredentials,
        ),
{
}

/// What the authorization gate does with one request.
#[derive(Debug, Clone, Copy)]
pub enum GateOutcome {
    /// Hand the user's id to the protected handler and run it.
    Authorized(UserId),
    /// Answer with a 303 redirect to `LOGIN_PATH`: the visitor has not logged in.
    RedirectToLogin,
    /// Answer with a 500: the session store failed.
    ServerError,
}

/// The authorization gate, given what the session store holds as `user_id`
/// for the request's session.
pub fn reject_anonymous_users(session_user: Result<Option<Uuid>, StoreError>) -> (r: GateOutcome)
    ensures
        session_user is Err ==> r is ServerError,
        session_user == Ok::<Option<Uuid>, StoreError>(None) ==> r is RedirectToLogin,
        session_user is Ok && session_user->Ok_0 is Some ==> r == GateOutcome::Authorized(
            UserId(session_user->Ok_0->0),
        ),
{
    match session_user {
        Err(_) => GateOutcome::ServerError,
        Ok(None) => GateOutcome::RedirectToLogin,
        Ok(Some(user_id)) => GateOutcome::Authorized(UserId(user_id)),
    }
}

} // verus!
