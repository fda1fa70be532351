use zero2prod::basic_auth::{
    basic_authentication, credentials_from_decoded, BasicAuthError, BASIC_CHALLENGE,
};

fn parse(header: &str) -> Result<(String, String), BasicAuthError> {
    basic_authentication(Some(header.as_bytes()))
        .map(|c| (c.username, c.password.expose_secret().clone()))
}

#[test]
fn alice_and_her_secret_are_read() {
    // "YWxpY2U6c2VjcmV0" is base64 of "alice:secret"
    let c = parse("Basic YWxpY2U6c2VjcmV0").unwrap();
    assert_eq!(c, ("alice".to_string(), "secret".to_string()));
}

#[test]
fn the_text_is_split_at_the_first_colon() {
    // base64 of "bob:pa:ss"
    assert_eq!(parse("Basic Ym9iOnBhOnNz").unwrap(), ("bob".to_string(), "pa:ss".to_string()));
    // base64 of ":pw"
    assert_eq!(parse("Basic OnB3").unwrap(), (String::new(), "pw".to_string()));
}

#[test]
fn a_missing_header_is_an_error() {
    assert_eq!(basic_authentication(None).err(), Some(BasicAuthError::MissingHeader));
}

#[test]
fn a_header_without_the_basic_prefix_is_an_error() {
    assert_eq!(parse("YWxpY2U6c2VjcmV0").unwrap_err(), BasicAuthError::NotBasicScheme);
    assert_eq!(parse("Bearer YWxpY2U6c2VjcmV0").unwrap_err(), BasicAuthError::NotBasicScheme);
    assert_eq!(parse("basic YWxpY2U6c2VjcmV0").unwrap_err(), BasicAuthError::NotBasicScheme);
}

#[test]
fn a_non_base64_payload_is_an_error() {
    assert_eq!(parse("Basic not*base64!").unwrap_err(), BasicAuthError::NotBase64);
}

#[test]
fn a_payload_without_a_colon_is_an_error() {
    // base64 of "alicesecret"
    assert_eq!(parse("Basic YWxpY2VzZWNyZXQ=").unwrap_err(), BasicAuthError::MissingPassword);
}

#[test]
fn a_payload_that_is_not_utf8_is_an_error() {
    // base64 of the single byte 0xff
    assert_eq!(parse("Basic /w==").unwrap_err(), BasicAuthError::NotUtf8);
}

#[test]
fn a_header_with_invisible_bytes_is_an_error() {
    let header: &[u8] = b"Basic YWxpY2U6c2VjcmV0\x7f";
    assert_eq!(basic_authentication(Some(header)).err(), Some(BasicAuthError::NotVisibleAscii));
}

#[test]
fn the_challenge_names_the_publish_realm() {
    assert_eq!(BASIC_CHALLENGE, "Basic realm=\"publish\"");
}

#[test]
fn decoded_bytes_are_split_at_the_first_colon() {
    let c = credentials_from_decoded(b"alice:se:cret".to_vec()).unwrap();
    assert_eq!(c.username, "alice");
    assert_eq!(c.password.expose_secret(), "se:cret");
    let c = credentials_from_decoded("jürgen:pässword".as_bytes().to_vec()).unwrap();
    assert_eq!(c.username, "jürgen");
    assert_eq!(c.password.expose_secret(), "pässword");
}

#[test]
fn decoded_bytes_without_a_colon_or_not_utf8_are_errors() {
    assert_eq!(credentials_from_decoded(b"alice".to_vec()).err(), Some(BasicAuthError::MissingPassword));
    assert_eq!(credentials_from_decoded(Vec::new()).err(), Some(BasicAuthError::MissingPassword));
    assert_eq!(credentials_from_decoded(vec![0x61, 0x3a, 0xc3]).err(), Some(BasicAuthError::NotUtf8));
}
