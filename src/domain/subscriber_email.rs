use validator::ValidateEmail;
use vstd::prelude::*;

verus! {

/// Whether `validator`'s e-mail check accepts the text.
pub uninterp spec fn is_valid_email(s: Seq<char>) -> bool;

/// Relies on `ValidateEmail::validate_email` for `String` (validator): the
/// verdict depends on the text alone, and an empty text or one without `@`
/// is refused.
#[verifier::external_body]
fn validate_email(s: &String) -> (r: bool)
    ensures
        r == is_valid_email(s@),
        s@.len() == 0 ==> !r,
        !s@.contains('@') ==> !r,
{
    s.validate_email()
}

/// A subscriber's e-mail address, as accepted by `SubscriberEmail::parse`.
#[derive(Debug)]
pub struct SubscriberEmail(String);

impl View for SubscriberEmail {
    type V = Seq<char>;

    closed spec fn view(&self) -> Seq<char> {
        self.0@
    }
}

/// The error text for a rejected address.
pub open spec fn invalid_email_message() -> Seq<char> {
    "Invalid email"@
}

impl SubscriberEmail {
    /// Accepts `s` as an e-mail address, or refuses it.
    pub fn parse(s: String) -> (r: Result<SubscriberEmail, String>)
        ensures
            r is Ok <==> is_valid_email(s@),
            r is Ok ==> r->Ok_0@ == s@,
            r is Err ==> r->Err_0@ == invalid_email_message(),
    {
        if validate_email(&s) {
            Ok(SubscriberEmail(s))
        } else {
            Err(String::from_str("Invalid email"))
        }
    }

    /// The address's text.
    pub fn as_str(&self) -> (r: &str)
        ensures
            r@ == self@,
    {
        self.0.as_str()
    }
}

} // verus!
