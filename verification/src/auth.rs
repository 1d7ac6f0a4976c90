//! Users, their credentials, and the decisions of signing in.

use vstd::prelude::*;

use crate::error::Error;

verus! {

/// A signed-in user: an identifier given at sign-in, the MediaWiki username,
/// and the OAuth access token that acts on the user's behalf.
#[derive(Clone)]
pub struct User {
    id: u128,
    username: String,
    token: String,
}

impl User {
    /// The identifier of the user.
    pub closed spec fn spec_id(&self) -> u128 {
        self.id
    }

    /// The MediaWiki username of the user.
    pub closed spec fn spec_username(&self) -> Seq<char> {
        self.username@
    }

    /// The access token of the user.
    pub closed spec fn spec_token(&self) -> Seq<char> {
        self.token@
    }

    /// The user with the given identifier, username and access token.
    pub fn new(id: u128, username: String, token: String) -> (r: User)
        ensures
            r.spec_id() == id,
            r.spec_username() == username@,
            r.spec_token() == token@,
    {
        User { id, username, token }
    }

    /// The identifier of the user.
    pub fn id(&self) -> (r: u128)
        ensures
            r == self.spec_id(),
    {
        self.id
    }

    /// The MediaWiki username of the user.
    pub fn username(&self) -> (r: &str)
        ensures
            r@ == self.spec_username(),
    {
        self.username.as_str()
    }

    /// The access token of the user.
    pub fn token(&self) -> (r: &str)
        ensures
            r@ == self.spec_token(),
    {
        self.token.as_str()
    }

    /// The bytes that tie a session to this user: those of the access token,
    /// so that a new token ends the sessions made with the old one.
    pub fn session_auth_hash(&self) -> (r: &[u8])
        ensures
            r@ == vstd::utf8::encode_utf8(self.spec_token()),
    {
        self.token.as_str().as_bytes()
    }
}

/// What a user presents to sign in.
pub enum Credentials {
    /// An access token obtained by hand, for development.
    Developer { token: String },
    /// The answer of the MediaWiki OAuth flow: the authorization code, the CSRF
    /// state kept in the session, and the state that came back with the code.
    Oauth { code: String, old_state: String, new_state: String },
}

impl Credentials {
    /// The credentials of a developer's access token.
    pub fn from_token(token: String) -> (r: Credentials)
        ensures
            r matches Credentials::Developer { token: t } && t@ == token@,
    {
        Credentials::Developer { token }
    }
}

/// The query of the OAuth callback: the authorization code and the CSRF state.
pub struct Authorization {
    pub code: String,
    pub new_state: String,
}

/// Authentication waiting for the access token that the authorization code is exchanged for.
pub struct PendingToken {
    id: u128,
}

/// Authentication waiting for the MediaWiki username of the owner of an access token.
pub struct PendingProfile {
    id: u128,
    token: String,
}

/// What authentication does first with the credentials.
pub enum AuthStart {
    /// Exchange `code` at MediaWiki for an access token and hand it to `pending`.
    ExchangeCode { code: String, pending: PendingToken },
    /// Ask MediaWiki whose access token `pending` holds.
    FetchUsername(PendingProfile),
    /// The credentials are refused: the CSRF state that came back is not the one
    /// kept in the session.
    Refused,
}

impl PendingToken {
    /// The identifier that the user will have.
    pub closed spec fn spec_id(&self) -> u128 {
        self.id
    }

    /// Continues with the access token that the code was exchanged for.
    pub fn token_received(self, token: String) -> (r: PendingProfile)
        ensures
            r.spec_id() == self.spec_id(),
            r.spec_token() == token@,
    {
        PendingProfile { id: self.id, token }
    }
}

impl PendingProfile {
    /// The identifier that the user will have.
    pub closed spec fn spec_id(&self) -> u128 {
        self.id
    }

    /// The access token whose owner is asked for.
    pub closed spec fn spec_token(&self) -> Seq<char> {
        self.token@
    }

    /// The access token whose owner is asked for.
    pub fn token(&self) -> (r: &str)
        ensures
            r@ == self.spec_token(),
    {
        self.token.as_str()
    }

    /// Ends authentication with the username that MediaWiki gave for the token,
    /// if it gave one: the signed-in user, or none when the token is not accepted.
    pub fn username_received(self, username: Option<String>) -> (r: Option<User>)
        ensures
            match username {
                Some(name) => r matches Some(user) && user.spec_id() == self.spec_id()
                    && user.spec_username() == name@ && user.spec_token() == self.spec_token(),
                None => r is None,
            },
    {
        match username {
            Some(name) => Some(User::new(self.id, name, self.token)),
            None => None,
        }
    }
}

/// Starts authenticating with `creds`. A developer token goes straight to the
/// username lookup; an OAuth answer is refused unless its CSRF state is the one
/// kept in the session, and otherwise its code is exchanged for a token. The user
/// that results gets the identifier `id`, drawn afresh by the caller for this sign-in.
pub fn start_authentication(creds: Credentials, id: u128) -> (r: AuthStart)
    ensures
        match creds {
            Credentials::Developer { token } => r matches AuthStart::FetchUsername(p)
                && p.spec_token() == token@ && p.spec_id() == id,
            Credentials::Oauth { code, old_state, new_state } => if old_state@ != new_state@ {
                r is Refused
            } else {
                r matches AuthStart::ExchangeCode { code: c, pending } && c@ == code@
                    && pending.spec_id() == id
            },
        },
{
    match creds {
        Credentials::Developer { token } => AuthStart::FetchUsername(PendingProfile { id, token }),
        Credentials::Oauth { code, old_state, new_state } => {
            if old_state != new_state {
                AuthStart::Refused
            } else {
                AuthStart::ExchangeCode { code, pending: PendingToken { id } }
            }
        },
    }
}

/// The page a signed-in user is sent to.
pub open spec fn profile_path() -> Seq<char> {
    "/auth/profile"@
}

/// The page a visitor is sent to when a page needs a signed-in user.
pub open spec fn login_path() -> Seq<char> {
    "/auth/login"@
}

/// What the login page answers.
pub enum LoginPage {
    /// Redirect to the given path.
    Redirect(String),
    /// Show the login form.
    Form,
}

/// The login page sends a signed-in user to the profile and shows the form to anyone else.
pub fn login_page(signed_in: bool) -> (r: LoginPage)
    ensures
        signed_in ==> (r matches LoginPage::Redirect(path) && path@ == profile_path()),
        !signed_in ==> r is Form,
{
    if signed_in {
        LoginPage::Redirect(String::from_str("/auth/profile"))
    } else {
        LoginPage::Form
    }
}

/// What a sign-in attempt answers.
pub enum LoginReply {
    /// Sign `user` in and redirect to `to`.
    LogIn { user: User, to: String },
    /// Answer 401 Unauthorized with `message`.
    Unauthorized { message: String },
}

/// The message of a refused developer sign-in.
pub open spec fn dev_refusal() -> Seq<char> {
    "Developer authorization failed."@
}

/// The message of a refused Wikimedia sign-in.
pub open spec fn oauth_refusal() -> Seq<char> {
    "Authorization with Wikimedia account failed."@
}

/// The answer to a developer sign-in, given the user that authentication produced, if any.
pub fn login_dev_reply(user: Option<User>) -> (r: LoginReply)
    ensures
        match user {
            Some(u) => r matches LoginReply::LogIn { user: v, to } && v == u && to@ == profile_path(),
            None => r matches LoginReply::Unauthorized { message } && message@ == dev_refusal(),
        },
{
    match user {
        Some(u) => LoginReply::LogIn { user: u, to: String::from_str("/auth/profile") },
        None => LoginReply::Unauthorized {
            message: String::from_str("Developer authorization failed."),
        },
    }
}

/// The answer to the OAuth callback, given the user that authentication produced, if any.
pub fn callback_reply(user: Option<User>) -> (r: LoginReply)
    ensures
        match user {
            Some(u) => r matches LoginReply::LogIn { user: v, to } && v == u && to@ == profile_path(),
            None => r matches LoginReply::Unauthorized { message } && message@ == oauth_refusal(),
        },
{
    match user {
        Some(u) => LoginReply::LogIn { user: u, to: String::from_str("/auth/profile") },
        None => LoginReply::Unauthorized {
            message: String::from_str("Authorization with Wikimedia account failed."),
        },
    }
}

/// The credentials of the OAuth callback: the CSRF state kept in the session,
/// which must be there, with the code and the state that came back.
pub fn callback_credentials(old_state: Option<String>, authorization: Authorization) -> (r: Result<
    Credentials,
    Error,
>)
    ensures
        match old_state {
            None => r matches Err(Error::MissingOriginalState),
            Some(old) => r matches Ok(Credentials::Oauth { code, old_state: o, new_state })
                && code@ == authorization.code@ && o@ == old@
                && new_state@ == authorization.new_state@,
        },
{
    match old_state {
        None => Err(Error::MissingOriginalState),
        Some(old) => Ok(
            Credentials::Oauth {
                code: authorization.code,
                old_state: old,
                new_state: authorization.new_state,
            },
        ),
    }
}

/// A page that needs a signed-in user gets the user, or sends the visitor to the login page.
pub fn require_user(user: Option<User>) -> (r: Result<User, String>)
    ensures
        match user {
            Some(u) => r == Ok::<User, String>(u),
            None => r matches Err(path) && path@ == login_path(),
        },
{
    match user {
        Some(u) => Ok(u),
        None => Err(String::from_str("/auth/login")),
    }
}

/// The login page.
pub struct Login;

/// The developer login page.
pub struct LoginDev;

} // verus!
