//! Changing one's password: the form's rules, re-verification of the current
//! password, and a fresh hash for the new one. The caller performs the store
//! and session work that each step asks for and hands back what came of it.
use crate::authentication::{StoreError, LOGIN_PATH};
use crate::password::{
    has_default_cost, hash_password, is_hash_of, verification, verify_password_hash, VerifyError,
    MAX_HASHABLE_CHARS,
};
use crate::secret::{secret_text, SecretString};
use vstd::prelude::*;

verus! {

/// Where the password form lives; rejections send the user back there.
pub const PASSWORD_FORM_PATH: &'static str = "/admin/password";

/// The fewest characters a new password may have.
pub const MIN_PASSWORD_CHARS: usize = 12;

/// The most characters a new password may have.
pub const MAX_PASSWORD_CHARS: usize = 128;

/// The password-change form.
pub struct FormData {
    pub current_password: SecretString,
    pub new_password: SecretString,
    pub new_password_check: SecretString,
}

/// Why a password change was turned down; shown to the user, not an error.
#[derive(Debug, Clone, Copy, PartialEq, Eq, Structural)]
pub enum Rejection {
    /// The two new-password fields differ.
    PasswordsDiffer,
    /// The new password has fewer than 12 or more than 128 characters.
    InvalidLength,
    /// The current password does not verify against the stored hash.
    WrongCurrentPassword,
}

/// How a password change that ran to its end came out.
#[derive(Debug, Clone, Copy, PartialEq, Eq, Structural)]
pub enum ChangeOutcome {
    Rejected(Rejection),
    /// The new hash is stored; the session must be purged.
    Changed,
}

/// The store failed, or the stored hash is not a PHC string, or hashing failed.
#[derive(Debug, Clone, Copy, PartialEq, Eq, Structural)]
pub struct ChangeError;

/// What the caller does next.
pub enum ChangeStep {
    /// Fetch the user's stored hash and pass the answer to `check_current_password`.
    FetchStoredHash,
    /// Store this hash as the user's new one and pass the answer to `finish_password_change`.
    PersistHash(SecretString),
    /// Stop with this result.
    Done(Result<ChangeOutcome, ChangeError>),
}

/// The flash message that goes with a rejection.
pub open spec fn rejection_message(r: Rejection) -> Seq<char> {
    match r {
        Rejection::PasswordsDiffer => "You entered two different new passwords - the field values must match."@,
        Rejection::InvalidLength => "New password length must be at least 12 and at most 128 characters."@,
        Rejection::WrongCurrentPassword => "The current password is incorrect."@,
    }
}

/// The flash message shown once the password has been changed.
pub open spec fn changed_message() -> Seq<char> {
    "Your password has been changed."@
}

/// The rule that the new password breaks, if any: the two fields must agree,
/// and the password must have 12 to 128 characters.
pub open spec fn form_rejection(new_password: Seq<char>, new_password_check: Seq<char>) -> Option<Rejection> {
    if new_password != new_password_check {
        Some(Rejection::PasswordsDiffer)
    } else if !(MIN_PASSWORD_CHARS <= new_password.len() <= MAX_PASSWORD_CHARS) {
        Some(Rejection::InvalidLength)
    } else {
        None
    }
}

/// The step that the form itself leads to.
pub open spec fn first_step(new_password: Seq<char>, new_password_check: Seq<char>) -> ChangeStep {
    match form_rejection(new_password, new_password_check) {
        Some(rejection) => ChangeStep::Done(Ok(ChangeOutcome::Rejected(rejection))),
        None => ChangeStep::FetchStoredHash,
    }
}

/// `step` may follow once the store answered `stored` for the user's hash:
/// a failure, a rejection, or, when the current password verifies, a new
/// hash to store that the new password verifies against and that carries
/// the fixed cost. The new hash has a random salt, so it is not fixed by the
/// inputs; only a new password too long to hash ends in a failure there.
pub open spec fn step_after_stored_hash(
    current_password: Seq<char>,
    new_password: Seq<char>,
    stored: Result<Seq<char>, StoreError>,
    step: ChangeStep,
) -> bool {
    match stored {
        Err(_) => step == ChangeStep::Done(Err(ChangeError)),
        Ok(phc) => match verification(current_password, phc) {
            Err(VerifyError::MalformedHash) => step == ChangeStep::Done(Err(ChangeError)),
            Err(VerifyError::Mismatch) => step == ChangeStep::Done(
                Ok(ChangeOutcome::Rejected(Rejection::WrongCurrentPassword)),
            ),
            Ok(()) => ({
                &&& step is PersistHash
                &&& is_hash_of(new_password, secret_text(step->PersistHash_0))
                &&& has_default_cost(secret_text(step->PersistHash_0))
            }) || (new_password.len() > MAX_HASHABLE_CHARS && step == ChangeStep::Done(
                Err(ChangeError),
            )),
        },
    }
}

/// The step once the store answered `persisted` for the new hash.
pub open spec fn step_after_persist(persisted: Result<(), StoreError>) -> ChangeStep {
    match persisted {
        Ok(()) => ChangeStep::Done(Ok(ChangeOutcome::Changed)),
        Err(_) => ChangeStep::Done(Err(ChangeError)),
    }
}

impl Rejection {
    /// The flash message for this rejection.
    pub fn message(&self) -> (r: String)
        ensures
            r@ == rejection_message(*self),
    {
        match self {
            Rejection::PasswordsDiffer => String::from_str(
                "You entered two different new passwords - the field values must match.",
            ),
            Rejection::InvalidLength => String::from_str(
                "New password length must be at least 12 and at most 128 characters.",
            ),
            Rejection::WrongCurrentPassword => String::from_str("The current password is incorrect."),
        }
    }
}

impl ChangeOutcome {
    /// Whether the session must be purged, so that the user logs in again
    /// with the new password.
    pub open spec fn spec_purges_session(&self) -> bool {
        *self is Changed
    }

    /// Whether the session must be purged.
    #[verifier::when_used_as_spec(spec_purges_session)]
    pub fn purges_session(&self) -> (r: bool)
        ensures
            r == self.spec_purges_session(),
    {
        match self {
            ChangeOutcome::Changed => true,
            ChangeOutcome::Rejected(_) => false,
        }
    }

    /// The flash message to show.
    pub fn message(&self) -> (r: String)
        ensures
            match *self {
                ChangeOutcome::Rejected(rejection) => r@ == rejection_message(rejection),
                ChangeOutcome::Changed => r@ == changed_message(),
            },
    {
        match self {
            ChangeOutcome::Rejected(rejection) => rejection.message(),
            ChangeOutcome::Changed => String::from_str("Your password has been changed."),
        }
    }

    /// Where the user is redirected: back to the form after a rejection, to
    /// the login page after a change.
    pub open spec fn spec_location(&self) -> Seq<char> {
        match *self {
            ChangeOutcome::Changed => LOGIN_PATH@,
            ChangeOutcome::Rejected(_) => PASSWORD_FORM_PATH@,
        }
    }

    /// Where the user is redirected (303).
    pub fn location(&self) -> (r: &'static str)
        ensures
            r@ == self.spec_location(),
    {
        match self {
            ChangeOutcome::Changed => LOGIN_PATH,
            ChangeOutcome::Rejected(_) => PASSWORD_FORM_PATH,
        }
    }
}

/// Starts a password change: checks the form's rules before anything is read
/// or written.
pub fn change_password(form: &FormData) -> (r: ChangeStep)
    ensures
        r == first_step(secret_text(form.new_password), secret_text(form.new_password_check)),
{
    let new_password = form.new_password.expose_secret();
    if !new_password.eq(form.new_password_check.expose_secret()) {
        return ChangeStep::Done(Ok(ChangeOutcome::Rejected(Rejection::PasswordsDiffer)));
    }
    let chars: usize = new_password.as_str().unicode_len();
    if chars < MIN_PASSWORD_CHARS || chars > MAX_PASSWORD_CHARS {
        return ChangeStep::Done(Ok(ChangeOutcome::Rejected(Rejection::InvalidLength)));
    }
    ChangeStep::FetchStoredHash
}

/// Verifies the current password against the stored hash (always, with the
/// real hash comparison) and, if it matches, hashes the new password.
pub fn check_current_password(form: &FormData, stored: Result<SecretString, StoreError>) -> (r:
    ChangeStep)
    ensures
        step_after_stored_hash(
            secret_text(form.current_password),
            secret_text(form.new_password),
            match stored {
                Ok(h) => Ok(secret_text(h)),
                Err(e) => Err(e),
            },
            r,
        ),
{
    let stored = match stored {
        Err(_) => return ChangeStep::Done(Err(ChangeError)),
        Ok(stored) => stored,
    };
    match verify_password_hash(&stored, &form.current_password) {
        Err(VerifyError::MalformedHash) => ChangeStep::Done(Err(ChangeError)),
        Err(VerifyError::Mismatch) => ChangeStep::Done(
            Ok(ChangeOutcome::Rejected(Rejection::WrongCurrentPassword)),
        ),
        Ok(()) => match hash_password(&form.new_password) {
            Ok(new_hash) => ChangeStep::PersistHash(new_hash),
            Err(_) => ChangeStep::Done(Err(ChangeError)),
        },
    }
}

/// Ends a password change once the store has answered for the new hash.
pub fn finish_password_change(persisted: Result<(), StoreError>) -> (r: ChangeStep)
    ensures
        r == step_after_persist(persisted),
{
    match persisted {
        Ok(()) => ChangeStep::Done(Ok(ChangeOutcome::Changed)),
        Err(_) => ChangeStep::Done(Err(ChangeError)),
    }
}

/// A form whose fields differ, or whose new password has fewer than 12 or
/// more than 128 characters, is rejected at once: nothing is fetched and no
/// hash is stored.
pub proof fn lemma_form_rules_reject(new_password: Seq<char>, new_password_check: Seq<char>)
    requires
        new_password != new_password_check || new_password.len() < 12 || new_password.len() > 128,
    ensures
        first_step(new_password, new_password_check) is Done,
        first_step(new_password, new_password_check)->Done_0 is Ok,
        first_step(new_password, new_password_check)->Done_0->Ok_0 is Rejected,
{
}

/// With a valid form and a current password that verifies, a new hash is
/// stored: one that the new password verifies against, with the fixed cost.
/// Once it is stored the change succeeds, the user is sent to the login page
/// and the session is purged.
pub proof fn lemma_change_stores_new_hash(
    current_password: Seq<char>,
    new_password: Seq<char>,
    stored: Seq<char>,
    step: ChangeStep,
)
    requires
        first_step(new_password, new_password) is FetchStoredHash,
        verification(current_password, stored) == Ok::<(), VerifyError>(()),
        step_after_stored_hash(current_password, new_password, Ok(stored), step),
    ensures
        step is PersistHash,
        verification(new_password, secret_text(step->PersistHash_0)) == Ok::<(), VerifyError>(()),
        has_default_cost(secret_text(step->PersistHash_0)),
        step_after_persist(Ok(())) == ChangeStep::Done(Ok(ChangeOutcome::Changed)),
        ChangeOutcome::Changed.purges_session(),
        ChangeOutcome::Changed.spec_location() == LOGIN_PATH@,
{
}

} // verus!
