//! Authentication: one built-in user, and the decisions of the login form.
use vstd::prelude::*;

verus! {

/// A user that can hold a session.
#[derive(Debug, Clone)]
pub struct User {
    id: u32,
    pw_hash: Vec<u8>,
}

/// A user as plain values: the id and the hash that ties a session to the
/// password.
pub struct UserView {
    pub id: u32,
    pub pw_hash: Seq<u8>,
}

impl View for User {
    type V = UserView;

    closed spec fn view(&self) -> UserView {
        UserView { id: self.id, pw_hash: self.pw_hash@ }
    }
}

impl User {
    /// The user with the given id and password hash.
    pub fn new(id: u32, pw_hash: Vec<u8>) -> (res: User)
        ensures
            res@ == (UserView { id, pw_hash: pw_hash@ }),
    {
        User { id, pw_hash }
    }

    /// The user's id.
    pub fn id(&self) -> (res: u32)
        ensures
            res == self@.id,
    {
        self.id
    }

    /// The bytes that tie a session to the user's password: a session stays
    /// valid while they do not change.
    pub fn session_auth_hash(&self) -> (res: &[u8])
        ensures
            res@ == self@.pw_hash,
    {
        self.pw_hash.as_slice()
    }
}

/// The name of the one user that can log in.
pub const DEFAULT_USERNAME: &'static str = "admin";

/// The password of the one user that can log in.
pub const DEFAULT_PASSWORD: &'static str = "admin";

/// The id of the one user that can log in.
pub const DEFAULT_USER_ID: u32 = 1;

/// The one user that can log in: id 1, with an empty password hash.
pub open spec fn default_user_view() -> UserView {
    UserView { id: DEFAULT_USER_ID, pw_hash: Seq::empty() }
}

/// The one user that can log in.
pub fn default_user() -> (res: User)
    ensures
        res@ == default_user_view(),
{
    User { id: DEFAULT_USER_ID, pw_hash: Vec::new() }
}

/// What a user types into the login form.
#[derive(Debug, Clone)]
pub struct Credentials {
    username: String,
    password: String,
}

/// Credentials as plain values.
pub struct CredentialsView {
    pub username: Seq<char>,
    pub password: Seq<char>,
}

impl View for Credentials {
    type V = CredentialsView;

    closed spec fn view(&self) -> CredentialsView {
        CredentialsView { username: self.username@, password: self.password@ }
    }
}

impl Credentials {
    /// The credentials with the given name and password.
    pub fn new(username: String, password: String) -> (res: Credentials)
        ensures
            res@ == (CredentialsView { username: username@, password: password@ }),
    {
        Credentials { username, password }
    }

    /// The name typed in.
    pub fn username(&self) -> (res: &String)
        ensures
            res@ == self@.username,
    {
        &self.username
    }

    /// The password typed in.
    pub fn password(&self) -> (res: &String)
        ensures
            res@ == self@.password,
    {
        &self.password
    }
}

/// Whether `credentials` are those of the one user that can log in.
pub open spec fn are_default_credentials(credentials: CredentialsView) -> bool {
    credentials.username == DEFAULT_USERNAME@ && credentials.password == DEFAULT_PASSWORD@
}

/// Errors of authentication.
#[derive(Debug)]
pub enum AuthError {
    InvalidCredentials,
    UserNotFound,
}

impl AuthError {
    /// The text that describes the error.
    pub fn message(&self) -> (res: String)
        ensures
            res@ == match self {
                AuthError::InvalidCredentials => "Invalid credentials"@,
                AuthError::UserNotFound => "User not found"@,
            },
    {
        match self {
            AuthError::InvalidCredentials => "Invalid credentials".to_owned(),
            AuthError::UserNotFound => "User not found".to_owned(),
        }
    }
}

/// The authentication backend: it knows the one built-in user.
#[derive(Clone, Default)]
pub struct BackendRudimentary {}

impl BackendRudimentary {
    /// The user that `credentials` log in as: the built-in user where they
    /// are its name and password, no user otherwise. It never fails.
    pub fn authenticate(&self, credentials: Credentials) -> (res: std::result::Result<
        Option<User>,
        AuthError,
    >)
        ensures
            res matches Ok(found) && (found is Some <==> are_default_credentials(
                credentials@,
            )),
            res matches Ok(Some(user)) ==> user@ == default_user_view(),
    {
        let name = DEFAULT_USERNAME.to_owned();
        let password = DEFAULT_PASSWORD.to_owned();
        if credentials.username != name || credentials.password != password {
            return Ok(None);
        }
        Ok(Some(default_user()))
    }

    /// The user with id `user_id`: the built-in user for its id; any other
    /// id is refused as `InvalidCredentials`.
    pub fn get_user(&self, user_id: &u32) -> (res: std::result::Result<Option<User>, AuthError>)
        ensures
            *user_id == DEFAULT_USER_ID ==> (res matches Ok(Some(user)) && user@
                == default_user_view()),
            *user_id != DEFAULT_USER_ID ==> res matches Err(AuthError::InvalidCredentials),
    {
        if *user_id != DEFAULT_USER_ID {
            return Err(AuthError::InvalidCredentials);
        }
        Ok(Some(default_user()))
    }
}

/// The facts that join the contracts of `authenticate` and `get_user`: the
/// built-in credentials are the ones that `authenticate` accepts, and the
/// user it then gives (`default_user_view`) has `DEFAULT_USER_ID`, the one
/// id for which `get_user` gives that same user. Together with those two
/// contracts this is what lets a session that a login started be restored.
pub proof fn lemma_authenticated_user_is_found_again()
    ensures
        are_default_credentials(
            CredentialsView { username: DEFAULT_USERNAME@, password: DEFAULT_PASSWORD@ },
        ),
        default_user_view().id == DEFAULT_USER_ID,
{
}

/// The page that a successful login leads to.
pub open spec fn login_success_path() -> Seq<char> {
    "/login_success"@
}

/// The answer to a submitted login form.
pub enum LoginReply {
    /// 401: the credentials are not those of a user.
    Unauthorized,
    /// 500: the backend or the session store failed.
    InternalServerError,
    /// 303: go on to the given path.
    Redirect(String),
}

impl LoginReply {
    /// The HTTP status of the answer.
    pub fn status(&self) -> (res: u16)
        ensures
            res == match self {
                LoginReply::Unauthorized => 401u16,
                LoginReply::InternalServerError => 500u16,
                LoginReply::Redirect(_) => 303u16,
            },
    {
        match self {
            LoginReply::Unauthorized => 401,
            LoginReply::InternalServerError => 500,
            LoginReply::Redirect(_) => 303,
        }
    }
}

/// What happened in the handling of a submitted login form.
pub enum LoginEvent {
    /// The backend answered the credentials.
    Authenticated(std::result::Result<Option<User>, AuthError>),
    /// The session store answered the request to log the user in: whether it
    /// succeeded.
    SessionStarted(bool),
}

/// What the handler of the login form does next.
pub enum LoginAction {
    /// Log the user in, then report how that went as `SessionStarted`.
    StartSession(User),
    /// Answer the request; the handling is over.
    Respond(LoginReply),
}

/// The decisions of the login form: an unknown user is refused with 401, a
/// failure of the backend or of the session store answers 500, and a user
/// that was logged in is sent on to the login success page.
pub fn page_login_check(event: LoginEvent) -> (res: LoginAction)
    ensures
        match event {
            LoginEvent::Authenticated(Ok(Some(user))) => res == LoginAction::StartSession(user),
            LoginEvent::Authenticated(Ok(None)) => res == LoginAction::Respond(
                LoginReply::Unauthorized,
            ),
            LoginEvent::Authenticated(Err(_)) => res == LoginAction::Respond(
                LoginReply::InternalServerError,
            ),
            LoginEvent::SessionStarted(false) => res == LoginAction::Respond(
                LoginReply::InternalServerError,
            ),
            LoginEvent::SessionStarted(true) => res matches LoginAction::Respond(
                LoginReply::Redirect(path),
            ) && path@ == login_success_path(),
        },
{
    match event {
        LoginEvent::Authenticated(Ok(Some(user))) => LoginAction::StartSession(user),
        LoginEvent::Authenticated(Ok(None)) => LoginAction::Respond(LoginReply::Unauthorized),
        LoginEvent::Authenticated(Err(_)) => LoginAction::Respond(LoginReply::InternalServerError),
        LoginEvent::SessionStarted(false) => LoginAction::Respond(LoginReply::InternalServerError),
        LoginEvent::SessionStarted(true) => LoginAction::Respond(
            LoginReply::Redirect("/login_success".to_owned()),
        ),
    }
}

} // verus!
