use harm::auth::{
    default_user, page_login_check, AuthError, BackendRudimentary, Credentials, LoginAction,
    LoginEvent, LoginReply, User, DEFAULT_PASSWORD, DEFAULT_USERNAME, DEFAULT_USER_ID,
};

fn creds(name: &str, password: &str) -> Credentials {
    Credentials::new(name.to_string(), password.to_string())
}

#[test]
fn admin_admin_logs_in_as_the_built_in_user() {
    let backend = BackendRudimentary {};
    let user = backend.authenticate(creds("admin", "admin")).unwrap().expect("a user");
    assert_eq!(user.id(), 1);
    assert!(user.session_auth_hash().is_empty());
    assert_eq!(DEFAULT_USERNAME, "admin");
    assert_eq!(DEFAULT_PASSWORD, "admin");
}

#[test]
fn other_credentials_find_no_user() {
    let backend = BackendRudimentary {};
    assert!(backend.authenticate(creds("admin", "wrong")).unwrap().is_none());
    assert!(backend.authenticate(creds("root", "admin")).unwrap().is_none());
    assert!(backend.authenticate(creds("", "")).unwrap().is_none());
    assert!(backend.authenticate(creds("Admin", "admin")).unwrap().is_none());
}

#[test]
fn get_user_knows_only_id_one() {
    let backend = BackendRudimentary {};
    let user = backend.get_user(&DEFAULT_USER_ID).unwrap().expect("a user");
    assert_eq!(user.id(), 1);
    assert!(matches!(backend.get_user(&2), Err(AuthError::InvalidCredentials)));
    assert!(matches!(backend.get_user(&0), Err(AuthError::InvalidCredentials)));
}

#[test]
fn an_authenticated_user_is_found_again() {
    let backend = BackendRudimentary {};
    let user = backend.authenticate(creds("admin", "admin")).unwrap().unwrap();
    let again = backend.get_user(&user.id()).unwrap().unwrap();
    assert_eq!(again.id(), user.id());
    assert_eq!(again.session_auth_hash(), user.session_auth_hash());
}

#[test]
fn users_and_credentials_keep_their_values() {
    let user = User::new(7, vec![1, 2, 3]);
    assert_eq!(user.id(), 7);
    assert_eq!(user.session_auth_hash(), &[1, 2, 3]);
    let c = creds("me", "pw");
    assert_eq!(c.username(), "me");
    assert_eq!(c.password(), "pw");
    assert_eq!(default_user().id(), 1);
}

#[test]
fn auth_error_messages() {
    assert_eq!(AuthError::InvalidCredentials.message(), "Invalid credentials");
    assert_eq!(AuthError::UserNotFound.message(), "User not found");
}

#[test]
fn login_form_decisions() {
    match page_login_check(LoginEvent::Authenticated(Ok(Some(default_user())))) {
        LoginAction::StartSession(user) => assert_eq!(user.id(), 1),
        _ => panic!("a known user starts a session"),
    }
    assert!(matches!(
        page_login_check(LoginEvent::Authenticated(Ok(None))),
        LoginAction::Respond(LoginReply::Unauthorized)
    ));
    assert!(matches!(
        page_login_check(LoginEvent::Authenticated(Err(AuthError::UserNotFound))),
        LoginAction::Respond(LoginReply::InternalServerError)
    ));
    assert!(matches!(
        page_login_check(LoginEvent::SessionStarted(false)),
        LoginAction::Respond(LoginReply::InternalServerError)
    ));
    match page_login_check(LoginEvent::SessionStarted(true)) {
        LoginAction::Respond(LoginReply::Redirect(path)) => assert_eq!(path, "/login_success"),
        _ => panic!("a started session is sent on"),
    }
}

#[test]
fn login_reply_statuses() {
    assert_eq!(LoginReply::Unauthorized.status(), 401);
    assert_eq!(LoginReply::InternalServerError.status(), 500);
    assert_eq!(LoginReply::Redirect("/x".to_string()).status(), 303);
}
