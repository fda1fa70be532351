//! Publishing a newsletter issue: who receives it, and how its failures are
//! answered.
use crate::authentication::AuthError;
use crate::basic_auth::{BasicAuthError, BASIC_CHALLENGE};
use crate::domain::subscriber_email::{is_valid_email, SubscriberEmail};
use vstd::prelude::*;

verus! {

/// A confirmed subscriber whose stored address is valid.
#[derive(Debug)]
pub struct ConfirmedSubscriber {
    pub email: SubscriberEmail,
}

/// Why publishing failed.
#[derive(Debug, Clone, Copy, PartialEq, Eq, Structural)]
pub enum PublishError {
    /// The caller's credentials are missing, malformed or wrong.
    AuthError,
    /// The store or the e-mail service failed.
    UnexpectedError,
}

/// The stored addresses that pass the e-mail check, in their stored order.
pub open spec fn valid_addresses(stored: Seq<Seq<char>>) -> Seq<Seq<char>>
    decreases stored.len(),
{
    if stored.len() == 0 {
        Seq::empty()
    } else {
        let rest = valid_addresses(stored.drop_last());
        if is_valid_email(stored.last()) {
            rest.push(stored.last())
        } else {
            rest
        }
    }
}

/// The recipients of an issue, from the addresses stored for confirmed
/// subscribers; an address that no longer passes the check is skipped.
pub fn confirmed_subscribers(stored_emails: &Vec<String>) -> (r: Vec<ConfirmedSubscriber>)
    ensures
        r@.map_values(|s: ConfirmedSubscriber| s.email@) == valid_addresses(
            stored_emails@.map_values(|e: String| e@),
        ),
{
    let ghost stored = stored_emails@.map_values(|e: String| e@);
    let mut recipients: Vec<ConfirmedSubscriber> = Vec::new();
    let mut i: usize = 0;
    while i < stored_emails.len()
        invariant
            i <= stored_emails@.len(),
            stored == stored_emails@.map_values(|e: String| e@),
            recipients@.map_values(|s: ConfirmedSubscriber| s.email@) == valid_addresses(
                stored.take(i as int),
            ),
        decreases stored_emails@.len() - i,
    {
        assert(stored.take(i + 1).drop_last() =~= stored.take(i as int));
        match SubscriberEmail::parse(stored_emails[i].clone()) {
            Ok(email) => {
                recipients.push(ConfirmedSubscriber { email });
            },
            Err(_) => {},
        }
        assert(recipients@.map_values(|s: ConfirmedSubscriber| s.email@) =~= valid_addresses(
            stored.take(i + 1),
        ));
        i = i + 1;
    }
    assert(stored.take(i as int) =~= stored);
    recipients
}

impl PublishError {
    /// A malformed `Authorization` header is a failed authentication.
    pub fn from_basic_auth(_e: BasicAuthError) -> (r: PublishError)
        ensures
            r == PublishError::AuthError,
    {
        PublishError::AuthError
    }

    /// Rejected credentials are a failed authentication; anything else is unexpected.
    pub fn from_auth(e: AuthError) -> (r: PublishError)
        ensures
            e is InvalidCredentials ==> r == PublishError::AuthError,
            e is Unexpected ==> r == PublishError::UnexpectedError,
    {
        match e {
            AuthError::InvalidCredentials => PublishError::AuthError,
            AuthError::Unexpected(_) => PublishError::UnexpectedError,
        }
    }

    /// The status code of the answer: 401 or 500.
    pub fn status_code(&self) -> (r: u16)
        ensures
            *self is AuthError ==> r == 401,
            *self is UnexpectedError ==> r == 500,
    {
        match self {
            PublishError::AuthError => 401,
            PublishError::UnexpectedError => 500,
        }
    }

    /// The `WWW-Authenticate` challenge that goes with the answer: only a
    /// failed authentication carries one.
    pub fn challenge(&self) -> (r: Option<&'static str>)
        ensures
            *self is AuthError ==> r == Some(BASIC_CHALLENGE),
            *self is UnexpectedError ==> r is None,
    {
        match self {
            PublishError::AuthError => Some(BASIC_CHALLENGE),
            PublishError::UnexpectedError => None,
        }
    }
}

} // verus!
