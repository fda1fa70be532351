//! Secret strings: passwords travel inside `secrecy::Secret`, which never
//! prints its payload and hands it out only through an explicit call.
use secrecy::{ExposeSecret, Secret};
use vstd::prelude::*;

verus! {

/// A string that is never printed: it holds a `secrecy::Secret<String>`, which
/// wipes its buffer on drop, and shows its text only through `expose_secret`.
#[verifier::external_body]
pub struct SecretString {
    inner: Secret<String>,
}

/// The text that a secret string holds.
pub uninterp spec fn secret_text(s: SecretString) -> Seq<char>;

/// Relies on `secrecy::Secret::new`: the new secret holds exactly the given string.
#[verifier::external_body]
fn wrap_secret(s: String) -> (r: SecretString)
    ensures
        secret_text(r) == s@,
{
    SecretString { inner: Secret::new(s) }
}

/// Relies on `ExposeSecret::expose_secret` of `secrecy::Secret`: it hands back
/// the string that the secret holds.
#[verifier::external_body]
fn expose_inner(s: &SecretString) -> (r: &String)
    ensures
        r@ == secret_text(*s),
{
    s.inner.expose_secret()
}

impl SecretString {
    /// Moves `s` into a new secret.
    pub fn new(s: String) -> (r: SecretString)
        ensures
            secret_text(r) == s@,
    {
        wrap_secret(s)
    }

    /// The text of the secret; the one place where it is shown.
    pub fn expose_secret(&self) -> (r: &String)
        ensures
            r@ == secret_text(*self),
    {
        expose_inner(self)
    }
}

} // verus!
