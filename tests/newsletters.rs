use zero2prod::authentication::{AuthError, UnexpectedCause};
use zero2prod::basic_auth::BasicAuthError;
use zero2prod::newsletters::{confirmed_subscribers, PublishError};

#[test]
fn invalid_stored_addresses_are_skipped_in_order() {
    let stored = vec![
        "ursula_le_guin@gmail.com".to_string(),
        "not an address".to_string(),
        String::new(),
        "a.b@c.de".to_string(),
    ];
    let recipients = confirmed_subscribers(&stored);
    let addresses: Vec<&str> = recipients.iter().map(|s| s.email.as_str()).collect();
    assert_eq!(addresses, vec!["ursula_le_guin@gmail.com", "a.b@c.de"]);
}

#[test]
fn no_stored_addresses_means_no_recipients() {
    assert!(confirmed_subscribers(&Vec::new()).is_empty());
}

#[test]
fn publish_errors_map_to_status_and_challenge() {
    assert_eq!(PublishError::from_basic_auth(BasicAuthError::NotBase64), PublishError::AuthError);
    assert_eq!(PublishError::from_auth(AuthError::InvalidCredentials), PublishError::AuthError);
    assert_eq!(PublishError::from_auth(AuthError::Unexpected(UnexpectedCause::MalformedStoredHash)), PublishError::UnexpectedError);
    assert_eq!(PublishError::AuthError.status_code(), 401);
    assert_eq!(PublishError::UnexpectedError.status_code(), 500);
    assert_eq!(PublishError::AuthError.challenge(), Some("Basic realm=\"publish\""));
    assert_eq!(PublishError::UnexpectedError.challenge(), None);
}
