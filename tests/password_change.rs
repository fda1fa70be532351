use zero2prod::authentication::StoreError;
use zero2prod::password::{hash_password, verify_password_hash, VerifyError};
use zero2prod::password_change::{
    change_password, check_current_password, finish_password_change, ChangeOutcome, ChangeStep,
    FormData, Rejection, PASSWORD_FORM_PATH,
};
use zero2prod::secret::SecretString;

fn secret(s: &str) -> SecretString {
    SecretString::new(s.to_string())
}

fn form(current: &str, new: &str, check: &str) -> FormData {
    FormData {
        current_password: secret(current),
        new_password: secret(new),
        new_password_check: secret(check),
    }
}

fn rejection(step: ChangeStep) -> Option<Rejection> {
    match step {
        ChangeStep::Done(Ok(ChangeOutcome::Rejected(r))) => Some(r),
        _ => None,
    }
}

#[test]
fn differing_new_passwords_are_rejected() {
    let step = change_password(&form("old password!", "abcdefghijkl", "abcdefghijkM"));
    assert_eq!(rejection(step), Some(Rejection::PasswordsDiffer));
}

#[test]
fn new_passwords_of_11_or_129_characters_are_rejected() {
    let short = "a".repeat(11);
    let long = "a".repeat(129);
    assert_eq!(rejection(change_password(&form("x", &short, &short))), Some(Rejection::InvalidLength));
    assert_eq!(rejection(change_password(&form("x", &long, &long))), Some(Rejection::InvalidLength));
}

#[test]
fn length_counts_characters_not_bytes() {
    // 12 characters, 24 bytes
    let twelve = "é".repeat(12);
    assert!(matches!(change_password(&form("x", &twelve, &twelve)), ChangeStep::FetchStoredHash));
    // 128 characters, 256 bytes
    let most = "é".repeat(128);
    assert!(matches!(change_password(&form("x", &most, &most)), ChangeStep::FetchStoredHash));
    let eleven = "é".repeat(11);
    assert_eq!(rejection(change_password(&form("x", &eleven, &eleven))), Some(Rejection::InvalidLength));
}

#[test]
fn a_wrong_current_password_is_rejected() {
    let stored = hash_password(&secret("the old password")).unwrap();
    let step = check_current_password(
        &form("not the old password", "a new password!", "a new password!"),
        Ok(stored),
    );
    assert_eq!(rejection(step), Some(Rejection::WrongCurrentPassword));
}

#[test]
fn a_failing_store_or_malformed_hash_is_an_error() {
    let f = form("the old password", "a new password!", "a new password!");
    assert!(matches!(check_current_password(&f, Err(StoreError)), ChangeStep::Done(Err(_))));
    assert!(matches!(check_current_password(&f, Ok(secret("garbage"))), ChangeStep::Done(Err(_))));
}

#[test]
fn a_valid_change_stores_a_hash_of_the_new_password_only() {
    let old = "the old password";
    let new = "a brand new password";
    let stored = hash_password(&secret(old)).unwrap();
    let step = check_current_password(&form(old, new, new), Ok(stored));
    let new_hash = match step {
        ChangeStep::PersistHash(h) => h,
        _ => panic!("expected a new hash to store"),
    };
    assert!(new_hash.expose_secret().starts_with("$argon2id$v=19$m=19456,t=2,p=1$"));
    assert_eq!(verify_password_hash(&new_hash, &secret(new)), Ok(()));
    assert_eq!(verify_password_hash(&new_hash, &secret(old)), Err(VerifyError::Mismatch));
}

#[test]
fn a_stored_hash_ends_the_change_and_purges_the_session() {
    match finish_password_change(Ok(())) {
        ChangeStep::Done(Ok(outcome)) => {
            assert_eq!(outcome, ChangeOutcome::Changed);
            assert!(outcome.purges_session());
            assert_eq!(outcome.location(), "/login");
            assert_eq!(outcome.message(), "Your password has been changed.");
        }
        _ => panic!("expected the change to succeed"),
    }
    assert!(matches!(finish_password_change(Err(StoreError)), ChangeStep::Done(Err(_))));
}

#[test]
fn rejections_keep_the_session_and_return_to_the_form() {
    let outcome = ChangeOutcome::Rejected(Rejection::InvalidLength);
    assert!(!outcome.purges_session());
    assert_eq!(outcome.location(), PASSWORD_FORM_PATH);
    assert_eq!(PASSWORD_FORM_PATH, "/admin/password");
}

#[test]
fn rejection_messages() {
    assert_eq!(
        Rejection::PasswordsDiffer.message(),
        "You entered two different new passwords - the field values must match."
    );
    assert_eq!(
        Rejection::InvalidLength.message(),
        "New password length must be at least 12 and at most 128 characters."
    );
    assert_eq!(Rejection::WrongCurrentPassword.message(), "The current password is incorrect.");
}
