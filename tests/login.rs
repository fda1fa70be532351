use uuid::Uuid;
use zero2prod::authentication::{AuthError, StoreError, UnexpectedCause, UserId};
use zero2prod::login::{
    admin_logout, login, session_inserted, session_renewed, LoginError, LoginStep, LogoutOutcome,
    DASHBOARD_PATH,
};

#[test]
fn a_login_renews_the_session_before_writing_the_user_id() {
    let user_id = Uuid::new_v4();
    let first = login(Ok(UserId(user_id)));
    let u = match first {
        LoginStep::RenewSession(u) => u,
        other => panic!("expected a renewal first, got {other:?}"),
    };
    assert_eq!(u.uuid(), user_id);
    match session_renewed(u) {
        LoginStep::InsertUserId(u) => assert_eq!(u.uuid(), user_id),
        other => panic!("expected the id to be written next, got {other:?}"),
    }
    assert!(matches!(session_inserted(Ok(())), LoginStep::EnterDashboard));
    assert_eq!(DASHBOARD_PATH, "/admin/dashboard");
}

#[test]
fn failed_logins_are_rejected() {
    assert!(matches!(
        login(Err(AuthError::InvalidCredentials)),
        LoginStep::Reject(LoginError::AuthError)
    ));
    assert!(matches!(
        login(Err(AuthError::Unexpected(UnexpectedCause::StoreFailed))),
        LoginStep::Reject(LoginError::UnexpectedError)
    ));
    assert!(matches!(
        session_inserted(Err(StoreError)),
        LoginStep::Reject(LoginError::UnexpectedError)
    ));
}

#[test]
fn login_errors_map_to_status_and_message() {
    assert_eq!(LoginError::AuthError.status_code(), 401);
    assert_eq!(LoginError::UnexpectedError.status_code(), 500);
    assert_eq!(LoginError::AuthError.message(), "Authentication failed");
    assert_eq!(LoginError::UnexpectedError.message(), "Something went wrong");
}

#[test]
fn logout_outcomes() {
    assert_eq!(admin_logout(Ok(Some(Uuid::new_v4()))), LogoutOutcome::LoggedOut);
    assert_eq!(admin_logout(Ok(None)), LogoutOutcome::NotLoggedIn);
    assert_eq!(admin_logout(Err(StoreError)), LogoutOutcome::SessionFailure);
    assert_eq!(
        LogoutOutcome::LoggedOut.message(),
        Some("You have successfully logged out.".to_string())
    );
    assert_eq!(LogoutOutcome::NotLoggedIn.message(), None);
}
