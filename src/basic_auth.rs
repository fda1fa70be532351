//! The `Authorization: Basic` header of the stateless API: base64 of
//! `username:password`.
use crate::authentication::Credentials;
use crate::secret::{secret_text, SecretString};
use base64::Engine;
use vstd::prelude::*;
use vstd::utf8::{decode_utf8, valid_utf8};

verus! {

#[verifier::external_type_specification]
#[verifier::external_body]
pub struct ExDecodeError(base64::DecodeError);

/// The bytes that `base64::engine::general_purpose::STANDARD` decodes the
/// text into, or `None` where it refuses the text.
pub uninterp spec fn standard_base64_decoded(text: Seq<u8>) -> Option<Seq<u8>>;

/// Relies on `Engine::decode` of `base64::engine::general_purpose::STANDARD`
/// (standard alphabet, canonical padding): the result depends on the text alone.
#[verifier::external_body]
fn decode_standard_base64(text: &[u8]) -> (r: Result<Vec<u8>, base64::DecodeError>)
    ensures
        r is Ok <==> standard_base64_decoded(text@) is Some,
        r is Ok ==> r->Ok_0@ == standard_base64_decoded(text@)->0,
{
    base64::engine::general_purpose::STANDARD.decode(text)
}

/// Relies on `String::from_utf8`: it succeeds exactly on well-formed UTF-8,
/// and then holds the characters that the bytes encode.
#[verifier::external_body]
fn utf8_string(bytes: Vec<u8>) -> (r: Option<String>)
    ensures
        r is Some <==> valid_utf8(bytes@),
        r is Some ==> r->0@ == decode_utf8(bytes@),
{
    String::from_utf8(bytes).ok()
}

/// The challenge that goes with a 401 on the Basic-Auth path, as the value of
/// the `WWW-Authenticate` header.
pub const BASIC_CHALLENGE: &'static str = "Basic realm=\"publish\"";

/// Why an `Authorization` header does not carry Basic credentials.
#[derive(Debug, Clone, Copy, PartialEq, Eq, Structural)]
pub enum BasicAuthError {
    /// The request has no `Authorization` header.
    MissingHeader,
    /// The header value holds a byte that is neither visible ASCII nor a tab.
    NotVisibleAscii,
    /// The value does not start with `Basic `.
    NotBasicScheme,
    /// What follows `Basic ` is not standard base64.
    NotBase64,
    /// The decoded bytes are not UTF-8.
    NotUtf8,
    /// The decoded text has no `:` between username and password.
    MissingPassword,
}

/// A byte that a header value may hold and still be read as text: visible
/// ASCII or a horizontal tab.
pub open spec fn is_visible_ascii(b: u8) -> bool {
    b == 9 || (32 <= b && b < 127)
}

/// The scheme prefix `Basic `, as bytes.
pub open spec fn basic_scheme() -> Seq<u8> {
    seq![66u8, 97u8, 115u8, 105u8, 99u8, 32u8]
}

/// The bytes that a header value's base64 payload decodes to, or why there
/// are none.
pub open spec fn basic_payload(header: Option<Seq<u8>>) -> Result<Seq<u8>, BasicAuthError> {
    match header {
        None => Err(BasicAuthError::MissingHeader),
        Some(h) => if !(forall|i: int| 0 <= i < h.len() ==> is_visible_ascii(#[trigger] h[i])) {
            Err(BasicAuthError::NotVisibleAscii)
        } else if !(h.len() >= 6 && h.take(6) == basic_scheme()) {
            Err(BasicAuthError::NotBasicScheme)
        } else {
            match standard_base64_decoded(h.skip(6)) {
                None => Err(BasicAuthError::NotBase64),
                Some(bytes) => Ok(bytes),
            }
        },
    }
}

/// `text` holds a `:`.
pub open spec fn has_colon(text: Seq<char>) -> bool {
    exists|k: int| 0 <= k < text.len() && text[k] == ':'
}

/// `text` is `username:password`, split at its first `:`.
pub open spec fn splits_at_first_colon(text: Seq<char>, username: Seq<char>, password: Seq<char>) -> bool {
    &&& text == username + seq![':'] + password
    &&& forall|k: int| 0 <= k < username.len() ==> username[k] != ':'
}

fn all_visible_ascii(h: &[u8]) -> (r: bool)
    ensures
        r == (forall|i: int| 0 <= i < h@.len() ==> is_visible_ascii(#[trigger] h@[i])),
{
    let mut i: usize = 0;
    while i < h.len()
        invariant
            i <= h@.len(),
            forall|j: int| 0 <= j < i ==> is_visible_ascii(#[trigger] h@[j]),
        decreases h@.len() - i,
    {
        let b: u8 = h[i];
        if !(b == 9 || (32 <= b && b < 127)) {
            return false;
        }
        i = i + 1;
    }
    true
}

fn starts_with_basic_scheme(h: &[u8]) -> (r: bool)
    ensures
        r == (h@.len() >= 6 && h@.take(6) == basic_scheme()),
{
    if h.len() < 6 {
        return false;
    }
    let r = h[0] == 66 && h[1] == 97 && h[2] == 115 && h[3] == 105 && h[4] == 99 && h[5] == 32;
    assert(r ==> h@.take(6) =~= basic_scheme());
    r
}

/// The position of the first `:` in `text`, if any.
fn first_colon(text: &str) -> (r: Option<usize>)
    ensures
        r is None ==> !has_colon(text@),
        r is Some ==> r->0 < text@.len() && text@[r->0 as int] == ':'
            && forall|k: int| 0 <= k < r->0 ==> text@[k] != ':',
{
    let n: usize = text.unicode_len();
    let mut i: usize = 0;
    while i < n
        invariant
            n == text@.len(),
            i <= n,
            forall|k: int| 0 <= k < i ==> text@[k] != ':',
        decreases n - i,
    {
        if text.get_char(i) == ':' {
            return Some(i);
        }
        i = i + 1;
    }
    None
}

/// `r` is what the decoded payload `bytes` yields: an error unless they are
/// UTF-8 text with a `:`, else the username before the first `:` and the
/// password after it.
pub open spec fn credentials_from_bytes(bytes: Seq<u8>, r: Result<Credentials, BasicAuthError>) -> bool {
    if !valid_utf8(bytes) {
        r == Err::<Credentials, BasicAuthError>(BasicAuthError::NotUtf8)
    } else if !has_colon(decode_utf8(bytes)) {
        r == Err::<Credentials, BasicAuthError>(BasicAuthError::MissingPassword)
    } else {
        r is Ok && splits_at_first_colon(
            decode_utf8(bytes),
            r->Ok_0.username@,
            secret_text(r->Ok_0.password),
        )
    }
}

/// Reads `username:password` from the decoded payload of a Basic header.
pub fn credentials_from_decoded(bytes: Vec<u8>) -> (r: Result<Credentials, BasicAuthError>)
    ensures
        credentials_from_bytes(bytes@, r),
{
    let text = match utf8_string(bytes) {
        None => return Err(BasicAuthError::NotUtf8),
        Some(text) => text,
    };
    let text = text.as_str();
    let n: usize = text.unicode_len();
    match first_colon(text) {
        None => Err(BasicAuthError::MissingPassword),
        Some(i) => {
            let username = String::from_str(text.substring_char(0, i));
            let password = String::from_str(text.substring_char(i + 1, n));
            assert(text@ =~= username@ + seq![':'] + password@);
            Ok(Credentials { username, password: SecretString::new(password) })
        },
    }
}

/// Reads Basic credentials from the raw value of the `Authorization` header
/// (`None` when the request has none). Every input gives `Ok` or an error.
pub fn basic_authentication(header: Option<&[u8]>) -> (r: Result<Credentials, BasicAuthError>)
    ensures
        ({
            let h = match header {
                Some(h) => Some(h@),
                None => None,
            };
            match basic_payload(h) {
                Err(e) => r == Err::<Credentials, BasicAuthError>(e),
                Ok(bytes) => credentials_from_bytes(bytes, r),
            }
        }),
{
    let h = match header {
        None => return Err(BasicAuthError::MissingHeader),
        Some(h) => h,
    };
    if !all_visible_ascii(h) {
        return Err(BasicAuthError::NotVisibleAscii);
    }
    if !starts_with_basic_scheme(h) {
        return Err(BasicAuthError::NotBasicScheme);
    }
    let payload = &h[6..h.len()];
    let bytes = match decode_standard_base64(payload) {
        Err(_) => return Err(BasicAuthError::NotBase64),
        Ok(bytes) => bytes,
    };
    credentials_from_decoded(bytes)
}

} // verus!
