//! The decisions of the account and post pages: registering, logging in and out, creating
//! posts, and the fixed redirects. The database work, password hashing and token signing that
//! the pages need are asked for as actions and answered as events.
use vstd::prelude::*;
use vstd::string::StringExecFns;

use crate::cookies::{
    is_session_cookie, refresh_token_cookie, session_removal_cookies, is_removal_cookie,
    CookieSpec, COOKIES_MAX_AGE, COOKIE_JWT, COOKIE_REFRESH, COOKIE_REFRESH_MAX_AGE,
};
use crate::auth::{auth_start, AuthAction};
use crate::errors::{LoginUserError, PostNewError, RegisterUserError, WebError};
use crate::forms::{valid_register_form, AccountRegisterForm, PostNewForm};
use crate::model::{valid_password, valid_username};
use crate::markdown::{render_markdown, rendered_markdown};
use crate::model::{
    valid_markdown, valid_title, Post, MARKDOWN_MAX_LENGTH, MARKDOWN_MIN_LENGTH, TITLE_MAX_LENGTH,
    TITLE_MIN_LENGTH,
};
use crate::text::{signed_decimal, signed_to_decimal, str_eq};
use crate::ids::{parse_uuid, uuid_hyphenated, uuid_parse};
use crate::model::{RefreshToken, User};
use crate::password::{hash_password, PasswordError, ARGON2_MAX_PASSWORD_LENGTH};

verus! {

/// The profile page of a user.
pub open spec fn user_profile_path(username: Seq<char>) -> Seq<char> {
    "/user/"@ + username
}

/// The URL of the profile page of a user.
pub fn user_profile_url(username: &str) -> (url: String)
    ensures
        url@ == user_profile_path(username@),
{
    let mut url = "/user/".to_owned();
    url.append(username);
    url
}

/// The cookies that start a session: the JWT and the refresh token (whose value the session
/// check reads back as the same token).
pub open spec fn are_session_cookies(cookies: Seq<CookieSpec>, jwt: Seq<char>, refresh_token: u128) -> bool {
    &&& cookies.len() == 2
    &&& uuid_parse(cookies[1].value@) == Some(refresh_token)
    &&& is_session_cookie(cookies[0], COOKIE_JWT@, jwt, COOKIES_MAX_AGE as int)
    &&& is_session_cookie(cookies[1], COOKIE_REFRESH@, uuid_hyphenated(refresh_token), COOKIE_REFRESH_MAX_AGE as int)
}

/// The cookies that start a session with this JWT and refresh token.
pub fn session_cookies(jwt: String, refresh_token: u128) -> (cookies: Vec<CookieSpec>)
    ensures
        are_session_cookies(cookies@, jwt@, refresh_token),
{
    let mut cookies = Vec::new();
    cookies.push(crate::jwt::jwt_cookie(jwt));
    cookies.push(refresh_token_cookie(refresh_token));
    cookies
}

/// The refresh cookie that logging in or registering sets is what later resumes the session:
/// a request that carries it but no JWT has the session check look up that very refresh token.
pub proof fn refresh_cookie_resumes_session(cookies: Seq<CookieSpec>, jwt: Seq<char>, refresh_token: u128)
    requires
        are_session_cookies(cookies, jwt, refresh_token),
    ensures
        auth_start(None, Some(cookies[1].value)).1 == AuthAction::LoadRefreshToken(refresh_token),
{
}

// ---------------------------------------------------------------------------------------------
// Registering an account (`POST /account/register`)
// ---------------------------------------------------------------------------------------------

/// Where a registration stands.
#[derive(PartialEq, Eq, Structural)]
pub enum RegisterStage {
    /// Waiting to learn whether the username is still free
    AwaitUsernameCheck,
    /// Waiting to learn whether the invite code is still unused
    AwaitInviteCheck,
    /// Waiting for the account to be created (with its invite consumed and a refresh token)
    AwaitAccount,
    /// Waiting for a JWT for the new account
    AwaitJwt,
    /// The registration is over
    Done,
}

/// The state of one registration.
pub struct RegisterFlow {
    /// Where the registration stands
    pub stage: RegisterStage,
    /// The submitted form
    pub form: AccountRegisterForm,
    /// The invite code of the form, once it has been parsed
    pub invite: u128,
    /// The form has the required formats
    pub form_is_valid: bool,
    /// The username was found free
    pub username_is_available: bool,
    /// The invite code was found unused
    pub invite_is_available: bool,
    /// The hash of the form's password, once it has been hashed
    pub password_hash: Option<String>,
    /// The created account: its user and its refresh token
    pub account: Option<(User, u128)>,
}

/// What a registration needs done next.
pub enum RegisterAction {
    /// Check whether this username is free; answer with [`RegisterEvent::UsernameChecked`]
    CheckUsername(String),
    /// Check whether this invite code is unused; answer with [`RegisterEvent::InviteChecked`]
    CheckInvite(u128),
    /// Create the account with this password hash, consume the invite code and make a refresh
    /// token for the account, all or nothing; answer with [`RegisterEvent::AccountCreated`]
    CreateAccount { username: String, password_hash: String, invite: u128 },
    /// Generate a JWT for this user; answer with [`RegisterEvent::JwtIssued`]
    IssueJwt(i64),
    /// Show the form again, with this error, as `422 Unprocessable Entity`
    Reject(RegisterUserError),
    /// The password could not be hashed: fail the request
    Fail(PasswordError),
    /// The account exists: set the session cookies for this JWT and refresh token, and redirect
    /// to the profile page of this username
    Complete { jwt: String, refresh_token: u128, username: String },
}

/// The answer to a [`RegisterAction`].
pub enum RegisterEvent {
    UsernameChecked(bool),
    InviteChecked(bool),
    AccountCreated { user: User, refresh_token: RefreshToken },
    JwtIssued(String),
}

/// Whether an event answers the action that a registration at this stage asked for.
pub open spec fn register_expects(stage: RegisterStage, event: RegisterEvent) -> bool {
    match event {
        RegisterEvent::UsernameChecked(_) => stage == RegisterStage::AwaitUsernameCheck,
        RegisterEvent::InviteChecked(_) => stage == RegisterStage::AwaitInviteCheck,
        RegisterEvent::AccountCreated { .. } => stage == RegisterStage::AwaitAccount,
        RegisterEvent::JwtIssued(_) => stage == RegisterStage::AwaitJwt,
    }
}

/// The bytes of the password of a registration form (its UTF-8 encoding).
pub open spec fn form_password_bytes(form: AccountRegisterForm) -> Seq<u8> {
    vstd::utf8::encode_utf8(form.password@)
}

/// A password hash that checks as the password of the form.
pub open spec fn hash_of_form_password(form: AccountRegisterForm, hash: Seq<char>) -> bool {
    crate::password::password_check(form_password_bytes(form), Some(hash))
        == Ok::<bool, PasswordError>(true)
}

/// How a registration starts: a form whose invite code is not a UUID is turned away for its
/// invite code, a form without the required formats for its data; otherwise the username is
/// checked.
pub open spec fn register_start(form: AccountRegisterForm) -> (RegisterFlow, RegisterAction) {
    let f = RegisterFlow {
        stage: RegisterStage::Done,
        form,
        invite: 0,
        form_is_valid: false,
        username_is_available: false,
        invite_is_available: false,
        password_hash: None,
        account: None,
    };
    match uuid_parse(form.invite@) {
        None => (f, RegisterAction::Reject(RegisterUserError::InviteCode)),
        Some(invite) => if !valid_register_form(form) {
            (RegisterFlow { invite, ..f }, RegisterAction::Reject(RegisterUserError::InvalidForm))
        } else {
            (
                RegisterFlow { stage: RegisterStage::AwaitUsernameCheck, invite, form_is_valid: true, ..f },
                RegisterAction::CheckUsername(form.username),
            )
        },
    }
}

/// Whether this event is the one on which the registration hashes the form's password: the
/// invite code was found unused, for a valid form whose username is free.
pub open spec fn hashes_on(f: RegisterFlow, event: RegisterEvent) -> bool {
    &&& event matches RegisterEvent::InviteChecked(available) && available
    &&& f.form_is_valid
    &&& f.username_is_available
}

/// One step of a registration, where `hashed` is the hash of the form's password that this step
/// made, if it hashed it (`None` when hashing failed; other steps do not use it).
pub open spec fn register_step(f: RegisterFlow, event: RegisterEvent, hashed: Option<String>) -> (
    RegisterFlow,
    RegisterAction,
) {
    match event {
        RegisterEvent::UsernameChecked(available) => if !available {
            (RegisterFlow { stage: RegisterStage::Done, ..f }, RegisterAction::Reject(RegisterUserError::ExistingUsername))
        } else {
            (
                RegisterFlow { stage: RegisterStage::AwaitInviteCheck, username_is_available: true, ..f },
                RegisterAction::CheckInvite(f.invite),
            )
        },
        RegisterEvent::InviteChecked(available) => if !available {
            (RegisterFlow { stage: RegisterStage::Done, ..f }, RegisterAction::Reject(RegisterUserError::InviteCode))
        } else if f.form_is_valid && f.username_is_available {
            match hashed {
                Some(hash) => (
                    RegisterFlow {
                        stage: RegisterStage::AwaitAccount,
                        invite_is_available: true,
                        password_hash: Some(hash),
                        ..f
                    },
                    RegisterAction::CreateAccount { username: f.form.username, password_hash: hash, invite: f.invite },
                ),
                None => (
                    RegisterFlow { stage: RegisterStage::Done, invite_is_available: true, password_hash: None, ..f },
                    RegisterAction::Fail(PasswordError::Hashing),
                ),
            }
        } else {
            (RegisterFlow { stage: RegisterStage::Done, invite_is_available: true, ..f }, RegisterAction::Reject(RegisterUserError::Unknown))
        },
        RegisterEvent::AccountCreated { user, refresh_token } => (
            RegisterFlow { stage: RegisterStage::AwaitJwt, account: Some((user, refresh_token.refresh_token)), ..f },
            RegisterAction::IssueJwt(user.user_id),
        ),
        RegisterEvent::JwtIssued(jwt) => (
            RegisterFlow { stage: RegisterStage::Done, ..f },
            RegisterAction::Complete {
                jwt,
                refresh_token: f.account->Some_0.1,
                username: f.account->Some_0.0.username,
            },
        ),
    }
}

/// What holds of a registration at every stage.
pub open spec fn register_invariant(f: RegisterFlow) -> bool {
    &&& f.form_is_valid ==> valid_register_form(f.form) && uuid_parse(f.form.invite@) == Some(f.invite)
    &&& f.stage != RegisterStage::Done ==> f.form_is_valid
    &&& f.stage == RegisterStage::AwaitInviteCheck ==> f.username_is_available
    &&& (f.stage == RegisterStage::AwaitAccount || f.stage == RegisterStage::AwaitJwt) ==> {
        &&& f.username_is_available
        &&& f.invite_is_available
        &&& f.password_hash is Some
    }
    // A stored hash is always a hash of the form's password.
    &&& f.password_hash matches Some(h) ==> hash_of_form_password(f.form, h@)
    &&& f.stage == RegisterStage::AwaitJwt ==> f.account is Some
}

impl RegisterFlow {
    /// Starts the registration of a submitted form.
    pub fn start(form: AccountRegisterForm) -> (r: (RegisterFlow, RegisterAction))
        ensures
            r == register_start(form),
            register_invariant(r.0),
    {
        let parsed = parse_uuid(form.invite.as_str());
        let invite = match parsed {
            Some(invite) => invite,
            None => {
                let f = RegisterFlow {
                    stage: RegisterStage::Done,
                    form,
                    invite: 0,
                    form_is_valid: false,
                    username_is_available: false,
                    invite_is_available: false,
                    password_hash: None,
                    account: None,
                };
                return (f, RegisterAction::Reject(RegisterUserError::InviteCode));
            },
        };
        if !form.validate() {
            let f = RegisterFlow {
                stage: RegisterStage::Done,
                form,
                invite,
                form_is_valid: false,
                username_is_available: false,
                invite_is_available: false,
                password_hash: None,
                account: None,
            };
            return (f, RegisterAction::Reject(RegisterUserError::InvalidForm));
        }
        let username = form.username.clone();
        let f = RegisterFlow {
            stage: RegisterStage::AwaitUsernameCheck,
            form,
            invite,
            form_is_valid: true,
            username_is_available: false,
            invite_is_available: false,
            password_hash: None,
            account: None,
        };
        (f, RegisterAction::CheckUsername(username))
    }

    /// Advances the registration with the answer to its last action. When the invite code is
    /// found unused for a valid form with a free username, this step hashes the form's password
    /// (with [`hash_password`]) and asks for the account to be created with that hash.
    pub fn step(self, event: RegisterEvent) -> (r: (RegisterFlow, RegisterAction))
        requires
            register_expects(self.stage, event),
            register_invariant(self),
        ensures
            r == register_step(self, event, r.0.password_hash),
            register_invariant(r.0),
            hashes_on(self, event) ==> (r.0.password_hash is None <==> form_password_bytes(self.form).len()
                > ARGON2_MAX_PASSWORD_LENGTH),
    {
        match event {
            RegisterEvent::UsernameChecked(available) => if !available {
                (RegisterFlow { stage: RegisterStage::Done, ..self }, RegisterAction::Reject(RegisterUserError::ExistingUsername))
            } else {
                let invite = self.invite;
                (
                    RegisterFlow { stage: RegisterStage::AwaitInviteCheck, username_is_available: true, ..self },
                    RegisterAction::CheckInvite(invite),
                )
            },
            RegisterEvent::InviteChecked(available) => if !available {
                (RegisterFlow { stage: RegisterStage::Done, ..self }, RegisterAction::Reject(RegisterUserError::InviteCode))
            } else if self.form_is_valid && self.username_is_available {
                let hashed = hash_password(self.form.password.as_str().as_bytes());
                match hashed {
                    Ok(hash) => {
                        let username = self.form.username.clone();
                        let invite = self.invite;
                        let stored = hash.clone();
                        (
                            RegisterFlow {
                                stage: RegisterStage::AwaitAccount,
                                invite_is_available: true,
                                password_hash: Some(stored),
                                ..self
                            },
                            RegisterAction::CreateAccount { username, password_hash: hash, invite },
                        )
                    },
                    Err(_) => (
                        RegisterFlow {
                            stage: RegisterStage::Done,
                            invite_is_available: true,
                            password_hash: None,
                            ..self
                        },
                        RegisterAction::Fail(PasswordError::Hashing),
                    ),
                }
            } else {
                (
                    RegisterFlow { stage: RegisterStage::Done, invite_is_available: true, ..self },
                    RegisterAction::Reject(RegisterUserError::Unknown),
                )
            },
            RegisterEvent::AccountCreated { user, refresh_token } => {
                let user_id = user.user_id;
                (
                    RegisterFlow { stage: RegisterStage::AwaitJwt, account: Some((user, refresh_token.refresh_token)), ..self },
                    RegisterAction::IssueJwt(user_id),
                )
            },
            RegisterEvent::JwtIssued(jwt) => {
                let (refresh_token, username) = match &self.account {
                    Some(account) => (account.1, account.0.username.clone()),
                    None => (0, String::new()),
                };
                (
                    RegisterFlow { stage: RegisterStage::Done, ..self },
                    RegisterAction::Complete { jwt, refresh_token, username },
                )
            },
        }
    }
}

/// A registration starts in a state where its invariant holds.
pub proof fn register_start_establishes_invariant(form: AccountRegisterForm)
    ensures
        register_invariant(register_start(form).0),
{
}

/// Every step of a registration keeps its invariant, provided that the hash the step made (when
/// it hashes the password) is a hash of the form's password, as [`hash_password`] guarantees.
pub proof fn register_step_preserves_invariant(f: RegisterFlow, event: RegisterEvent, hashed: Option<String>)
    requires
        register_invariant(f),
        register_expects(f.stage, event),
        hashed matches Some(h) ==> hash_of_form_password(f.form, h@),
    ensures
        register_invariant(register_step(f, event, hashed).0),
{
}

/// An account is only created for a form with the required formats, whose username was found
/// free and whose invite code was found unused, with that username and invite code, and with a
/// password hash that checks as the form's password: whoever registered can log in with the
/// password they chose.
pub proof fn account_created_only_after_checks(f: RegisterFlow, event: RegisterEvent, hashed: Option<String>)
    requires
        register_invariant(f),
        register_expects(f.stage, event),
        hashed matches Some(h) ==> hash_of_form_password(f.form, h@),
        register_step(f, event, hashed).1 is CreateAccount,
    ensures
        valid_register_form(f.form),
        f.username_is_available,
        register_step(f, event, hashed).0.invite_is_available,
        register_step(f, event, hashed).1 matches RegisterAction::CreateAccount { username, password_hash, invite }
            && username == f.form.username && uuid_parse(f.form.invite@) == Some(invite)
            && hash_of_form_password(f.form, password_hash@),
{
}

/// A registration goes as follows. A form whose invite code is no UUID is turned away for its
/// invite code; one without the required formats (or whose two passwords differ) for invalid
/// data; otherwise the username is checked. A taken username is turned away as such; otherwise
/// the invite code is checked, and a used or unknown one is turned away for its invite code.
/// Otherwise the account is created with the form's username, its invite code and a hash of its
/// password; then a JWT is issued for the new user, and the registration completes with that
/// JWT, the account's refresh token and the new user's username.
pub proof fn register_runs(
    form: AccountRegisterForm,
    hash: String,
    user: User,
    token: RefreshToken,
    jwt: String,
)
    ensures
        uuid_parse(form.invite@) is None ==> register_start(form).1 == RegisterAction::Reject(
            RegisterUserError::InviteCode,
        ),
        uuid_parse(form.invite@) is Some && !(form.password@ == form.confirm_password@ && valid_username(
            form.username@,
        ) && valid_password(form.password@)) ==> register_start(form).1 == RegisterAction::Reject(
            RegisterUserError::InvalidForm,
        ),
        uuid_parse(form.invite@) is Some && form.password@ == form.confirm_password@
            && valid_username(form.username@) && valid_password(form.password@) ==> {
            let invite = uuid_parse(form.invite@)->Some_0;
            let (f0, a0) = register_start(form);
            let (t1, b1) = register_step(f0, RegisterEvent::UsernameChecked(false), None);
            let (f1, a1) = register_step(f0, RegisterEvent::UsernameChecked(true), None);
            let (t2, b2) = register_step(f1, RegisterEvent::InviteChecked(false), None);
            let (f2, a2) = register_step(f1, RegisterEvent::InviteChecked(true), Some(hash));
            let (f3, a3) = register_step(
                f2,
                RegisterEvent::AccountCreated { user, refresh_token: token },
                None,
            );
            let (f4, a4) = register_step(f3, RegisterEvent::JwtIssued(jwt), None);
            &&& a0 == RegisterAction::CheckUsername(form.username)
            &&& b1 == RegisterAction::Reject(RegisterUserError::ExistingUsername)
            &&& a1 == RegisterAction::CheckInvite(invite)
            &&& b2 == RegisterAction::Reject(RegisterUserError::InviteCode)
            &&& a2 == (RegisterAction::CreateAccount { username: form.username, password_hash: hash, invite })
            &&& a3 == RegisterAction::IssueJwt(user.user_id)
            &&& a4 == (RegisterAction::Complete {
                jwt,
                refresh_token: token.refresh_token,
                username: user.username,
            })
            &&& f4.stage == RegisterStage::Done
        },
{
}

/// Each character takes at most four bytes in UTF-8.
proof fn lemma_utf8_at_most_four_bytes_per_char(chars: Seq<char>)
    ensures
        vstd::utf8::encode_utf8(chars).len() <= 4 * chars.len(),
    decreases chars.len(),
{
    if chars.len() > 0 {
        lemma_utf8_at_most_four_bytes_per_char(chars.drop_first());
    }
}

/// Hashing never fails in a registration: the password of a valid form has at most 200
/// characters, so at most 800 bytes, far below the longest password Argon2 hashes. So a valid
/// form whose username and invite code are available always gets its account created.
pub proof fn valid_form_passwords_always_hash(form: AccountRegisterForm)
    requires
        valid_register_form(form),
    ensures
        form_password_bytes(form).len() <= 4 * crate::model::PASSWORD_MAX_LENGTH,
        form_password_bytes(form).len() <= ARGON2_MAX_PASSWORD_LENGTH,
{
    lemma_utf8_at_most_four_bytes_per_char(form.password@);
}

// ---------------------------------------------------------------------------------------------
// Logging in (`POST /account/login`)
// ---------------------------------------------------------------------------------------------

/// Where a login stands.
#[derive(PartialEq, Eq, Structural)]
pub enum LoginStage {
    /// Waiting for the user with the submitted username
    AwaitUser,
    /// Waiting for a JWT for the user
    AwaitJwt,
    /// Waiting for a new refresh token for the user
    AwaitRefreshToken,
    /// The login is over
    Done,
}

/// The state of one login.
pub struct LoginFlow {
    /// Where the login stands
    pub stage: LoginStage,
    /// The submitted form
    pub form: crate::forms::AccountLoginForm,
    /// The URL to redirect back to after the login, if one was given
    pub redirect: Option<String>,
    /// The user whose password was accepted
    pub user: Option<User>,
    /// The JWT generated for the user
    pub jwt: Option<String>,
}

/// What a login needs done next.
pub enum LoginAction {
    /// Find the user with this username; answer with [`LoginEvent::UserFound`]
    FindUser(String),
    /// Show the login form again, with this error, as `401 Unauthorized`
    Reject(LoginUserError),
    /// The stored password hash is unusable: fail the request
    Fail(PasswordError),
    /// Generate a JWT for this user; answer with [`LoginEvent::JwtIssued`]
    IssueJwt(i64),
    /// Create a refresh token for this user; answer with [`LoginEvent::RefreshTokenCreated`]
    CreateRefreshToken(i64),
    /// Set the session cookies for this JWT and refresh token, and redirect to `redirect`, or to
    /// the profile page of `username` when there is none
    Complete { jwt: String, refresh_token: u128, redirect: Option<String>, username: String },
}

/// The answer to a [`LoginAction`].
pub enum LoginEvent {
    UserFound(Option<User>),
    JwtIssued(String),
    RefreshTokenCreated(RefreshToken),
}

/// Whether an event answers the action that a login at this stage asked for.
pub open spec fn login_expects(stage: LoginStage, event: LoginEvent) -> bool {
    match event {
        LoginEvent::UserFound(_) => stage == LoginStage::AwaitUser,
        LoginEvent::JwtIssued(_) => stage == LoginStage::AwaitJwt,
        LoginEvent::RefreshTokenCreated(_) => stage == LoginStage::AwaitRefreshToken,
    }
}

/// The outcome of checking the submitted password against a user's stored hash.
pub open spec fn login_password_check(form: crate::forms::AccountLoginForm, user: User) -> Result<bool, PasswordError> {
    crate::password::password_check(
        vstd::utf8::encode_utf8(form.password@),
        crate::config::opt_text(user.password_hash),
    )
}

/// One step of a login.
pub open spec fn login_step(f: LoginFlow, event: LoginEvent) -> (LoginFlow, LoginAction) {
    match event {
        LoginEvent::UserFound(None) => (
            LoginFlow { stage: LoginStage::Done, ..f },
            LoginAction::Reject(LoginUserError::IncorrectLogin),
        ),
        LoginEvent::UserFound(Some(user)) => match login_password_check(f.form, user) {
            Err(e) => (LoginFlow { stage: LoginStage::Done, ..f }, LoginAction::Fail(e)),
            Ok(false) => (
                LoginFlow { stage: LoginStage::Done, ..f },
                LoginAction::Reject(LoginUserError::IncorrectLogin),
            ),
            Ok(true) => (
                LoginFlow { stage: LoginStage::AwaitJwt, user: Some(user), ..f },
                LoginAction::IssueJwt(user.user_id),
            ),
        },
        LoginEvent::JwtIssued(jwt) => (
            LoginFlow { stage: LoginStage::AwaitRefreshToken, jwt: Some(jwt), ..f },
            LoginAction::CreateRefreshToken(f.user->Some_0.user_id),
        ),
        LoginEvent::RefreshTokenCreated(token) => (
            LoginFlow { stage: LoginStage::Done, ..f },
            LoginAction::Complete {
                jwt: f.jwt->Some_0,
                refresh_token: token.refresh_token,
                redirect: f.redirect,
                username: f.user->Some_0.username,
            },
        ),
    }
}

/// What holds of a login at every stage: past the user lookup, there is a user whose stored
/// hash accepted the submitted password.
pub open spec fn login_invariant(f: LoginFlow) -> bool {
    &&& (f.stage == LoginStage::AwaitJwt || f.stage == LoginStage::AwaitRefreshToken) ==> {
        &&& f.user is Some
        &&& login_password_check(f.form, f.user->Some_0) == Ok::<bool, PasswordError>(true)
    }
    &&& f.stage == LoginStage::AwaitRefreshToken ==> f.jwt is Some
}

impl LoginFlow {
    /// Starts a login with the submitted form and the URL to come back to.
    pub fn start(form: crate::forms::AccountLoginForm, redirect: Option<String>) -> (r: (LoginFlow, LoginAction))
        ensures
            r.0 == (LoginFlow { stage: LoginStage::AwaitUser, form, redirect, user: None, jwt: None }),
            r.1 == LoginAction::FindUser(form.username),
            login_invariant(r.0),
    {
        let username = form.username.clone();
        (LoginFlow { stage: LoginStage::AwaitUser, form, redirect, user: None, jwt: None }, LoginAction::FindUser(username))
    }

    /// Advances the login with the answer to its last action.
    pub fn step(self, event: LoginEvent) -> (r: (LoginFlow, LoginAction))
        requires
            login_expects(self.stage, event),
            login_invariant(self),
        ensures
            r == login_step(self, event),
            login_invariant(r.0),
            event matches LoginEvent::RefreshTokenCreated(token) ==> r.1 == (LoginAction::Complete {
                jwt: self.jwt->Some_0,
                refresh_token: token.refresh_token,
                redirect: self.redirect,
                username: self.user->Some_0.username,
            }),
            r.0.redirect == self.redirect,
            r.0.form == self.form,
    {
        match event {
            LoginEvent::UserFound(None) => (
                LoginFlow { stage: LoginStage::Done, ..self },
                LoginAction::Reject(LoginUserError::IncorrectLogin),
            ),
            LoginEvent::UserFound(Some(user)) => {
                let hash: Option<&str> = match &user.password_hash {
                    Some(h) => Some(h.as_str()),
                    None => None,
                };
                let verdict = crate::password::verify_password(self.form.password.as_str().as_bytes(), hash);
                match verdict {
                    Err(e) => (LoginFlow { stage: LoginStage::Done, ..self }, LoginAction::Fail(e)),
                    Ok(false) => (
                        LoginFlow { stage: LoginStage::Done, ..self },
                        LoginAction::Reject(LoginUserError::IncorrectLogin),
                    ),
                    Ok(true) => {
                        let user_id = user.user_id;
                        (LoginFlow { stage: LoginStage::AwaitJwt, user: Some(user), ..self }, LoginAction::IssueJwt(user_id))
                    },
                }
            },
            LoginEvent::JwtIssued(jwt) => {
                let user_id = match &self.user {
                    Some(u) => u.user_id,
                    None => 0,
                };
                (
                    LoginFlow { stage: LoginStage::AwaitRefreshToken, jwt: Some(jwt), ..self },
                    LoginAction::CreateRefreshToken(user_id),
                )
            },
            LoginEvent::RefreshTokenCreated(token) => {
                let jwt = match &self.jwt {
                    Some(j) => j.clone(),
                    None => String::new(),
                };
                let username = match &self.user {
                    Some(u) => u.username.clone(),
                    None => String::new(),
                };
                let redirect = match &self.redirect {
                    Some(r) => Some(r.clone()),
                    None => None,
                };
                (
                    LoginFlow { stage: LoginStage::Done, ..self },
                    LoginAction::Complete { jwt, refresh_token: token.refresh_token, redirect, username },
                )
            },
        }
    }
}

/// A login only succeeds for a user whose stored hash accepts the submitted password; in
/// particular an account without a stored hash can never be logged into.
pub proof fn login_completes_only_with_accepted_password(f: LoginFlow, event: LoginEvent)
    requires
        login_invariant(f),
        login_expects(f.stage, event),
        login_step(f, event).1 is Complete,
    ensures
        f.user matches Some(u) && login_password_check(f.form, u) == Ok::<bool, PasswordError>(true)
            && u.password_hash is Some,
{
}

/// A login goes as follows. An unknown username, or a stored hash that does not accept the
/// password, is answered with "incorrect login"; an unusable stored hash fails the request. A
/// password the user's stored hash accepts gets a JWT issued for that user, then a refresh token
/// created for that user, and then completes with that JWT, that refresh token, the user's
/// username and the very redirect the login was started with, so the user is sent back to the
/// page they came from (or to their profile when there is none).
pub proof fn login_runs(
    form: crate::forms::AccountLoginForm,
    redirect: Option<String>,
    user: User,
    jwt: String,
    token: RefreshToken,
)
    ensures
        ({
            let f0 = LoginFlow { stage: LoginStage::AwaitUser, form, redirect, user: None, jwt: None };
            let (f1, a1) = login_step(f0, LoginEvent::UserFound(Some(user)));
            let (f2, a2) = login_step(f1, LoginEvent::JwtIssued(jwt));
            let (f3, a3) = login_step(f2, LoginEvent::RefreshTokenCreated(token));
            &&& login_step(f0, LoginEvent::UserFound(None)).1 == LoginAction::Reject(LoginUserError::IncorrectLogin)
            &&& login_password_check(form, user) == Ok::<bool, PasswordError>(false) ==> a1
                == LoginAction::Reject(LoginUserError::IncorrectLogin)
            &&& login_password_check(form, user) matches Err(e) ==> a1 == LoginAction::Fail(e)
            &&& login_password_check(form, user) == Ok::<bool, PasswordError>(true) ==> {
                &&& a1 == LoginAction::IssueJwt(user.user_id)
                &&& a2 == LoginAction::CreateRefreshToken(user.user_id)
                &&& a3 == (LoginAction::Complete {
                    jwt,
                    refresh_token: token.refresh_token,
                    redirect,
                    username: user.username,
                })
                &&& f3.stage == LoginStage::Done
            }
        }),
{
}

/// A completed login sends the user to the redirect it was started with when there is one,
/// else to the user's own profile page `/user/{username}`.
pub proof fn login_redirects_back(redirect: Option<String>, username: Seq<char>)
    ensures
        redirect matches Some(r) ==> (match redirect {
            Some(r) => r@,
            None => user_profile_path(username),
        }) == r@,
        user_profile_path(username) == "/user/"@ + username,
{
}

/// Where a login sends the user when it succeeds: the URL it was given, else the user's profile.
pub fn login_redirect_target(redirect: Option<String>, username: &str) -> (url: String)
    ensures
        url@ == match redirect {
            Some(r) => r@,
            None => user_profile_path(username@),
        },
{
    match redirect {
        Some(r) => r,
        None => user_profile_url(username),
    }
}

// ---------------------------------------------------------------------------------------------
// Creating a post (`POST /post/new`)
// ---------------------------------------------------------------------------------------------

/// What a post submission gives: the rendered HTML of its body, or why it is turned away (a
/// title of the wrong length comes first).
pub open spec fn post_new_outcome(form: PostNewForm) -> Result<Seq<char>, PostNewError> {
    if !valid_title(form.title@) {
        Err(PostNewError::TitleLength)
    } else if !valid_markdown(form.markdown@) {
        Err(PostNewError::MarkdownLength)
    } else {
        Ok(rendered_markdown(form.markdown@))
    }
}

impl PostNewForm {
    /// Checks a post submission and renders its body: the sanitized HTML to store with the
    /// post, or the error to show with the form (`422 Unprocessable Entity`).
    pub fn render(&self) -> (r: Result<String, PostNewError>)
        ensures
            match (r, post_new_outcome(*self)) {
                (Ok(html), Ok(expected)) => html@ == expected,
                (Err(e), Err(expected)) => e == expected,
                _ => false,
            },
            !(TITLE_MIN_LENGTH <= self.title@.len() <= TITLE_MAX_LENGTH) ==> r == Err::<
                String,
                PostNewError,
            >(PostNewError::TitleLength),
            TITLE_MIN_LENGTH <= self.title@.len() <= TITLE_MAX_LENGTH && !(MARKDOWN_MIN_LENGTH
                <= self.markdown@.len() <= MARKDOWN_MAX_LENGTH) ==> r == Err::<String, PostNewError>(
                PostNewError::MarkdownLength,
            ),
            TITLE_MIN_LENGTH <= self.title@.len() <= TITLE_MAX_LENGTH && MARKDOWN_MIN_LENGTH
                <= self.markdown@.len() <= MARKDOWN_MAX_LENGTH ==> (r matches Ok(html) && html@
                == rendered_markdown(self.markdown@)),
    {
        if !Post::validate_title(self.title.as_str()) {
            return Err(PostNewError::TitleLength);
        }
        if !Post::validate_markdown(self.markdown.as_str()) {
            return Err(PostNewError::MarkdownLength);
        }
        Ok(render_markdown(self.markdown.as_str()))
    }
}

/// A post submission is turned away for its title exactly when the title does not have 1 to 200
/// characters; otherwise for its body exactly when the body does not have 1 to 10,000
/// characters; otherwise its body is rendered.
pub proof fn post_submission_by_lengths(form: PostNewForm)
    ensures
        !(1 <= form.title@.len() <= 200) ==> post_new_outcome(form) == Err::<Seq<char>, PostNewError>(
            PostNewError::TitleLength,
        ),
        1 <= form.title@.len() <= 200 && !(1 <= form.markdown@.len() <= 10_000) ==> post_new_outcome(form)
            == Err::<Seq<char>, PostNewError>(PostNewError::MarkdownLength),
        1 <= form.title@.len() <= 200 && 1 <= form.markdown@.len() <= 10_000 ==> post_new_outcome(form)
            == Ok::<Seq<char>, PostNewError>(rendered_markdown(form.markdown@)),
{
}

/// The page of a post.
pub open spec fn post_view_path(post_id: i64) -> Seq<char> {
    "/post/view/"@ + signed_decimal(post_id as int)
}

/// The URL of the page of a post.
pub fn post_view_url(post_id: i64) -> (url: String)
    ensures
        url@ == post_view_path(post_id),
{
    let mut url = "/post/view/".to_owned();
    let id = signed_to_decimal(post_id);
    url.append(id.as_str());
    url
}

// ---------------------------------------------------------------------------------------------
// Logging out (`GET /account/logout`) and fixed redirects
// ---------------------------------------------------------------------------------------------

/// What logging out does.
pub struct LogoutPlan {
    /// The refresh token to delete from the database, if the request carried one
    pub delete_refresh_token: Option<u128>,
    /// The cookies that clear the session from the client
    pub cookies: Vec<CookieSpec>,
    /// Where to send the client afterwards
    pub redirect: String,
}

/// Logging out: the refresh token of the refresh cookie (when it holds a UUID) is deleted,
/// the session cookies are cleared, and the client goes to the home page `/`.
pub fn logout_plan(refresh_cookie: Option<&str>) -> (plan: LogoutPlan)
    ensures
        plan.delete_refresh_token == match refresh_cookie {
            Some(c) => uuid_parse(c@),
            None => None,
        },
        plan.cookies@.len() == 2,
        is_removal_cookie(plan.cookies@[0], COOKIE_JWT@),
        is_removal_cookie(plan.cookies@[1], COOKIE_REFRESH@),
        plan.redirect@ == seq!['/'],
{
    let delete_refresh_token = match refresh_cookie {
        Some(c) => parse_uuid(c),
        None => None,
    };
    proof {
        reveal_strlit("/");
        assert("/"@ =~= seq!['/']);
    }
    LogoutPlan { delete_refresh_token, cookies: session_removal_cookies(), redirect: "/".to_owned() }
}

/// Where a permanently moved path now is: `/robots.txt` is served from `/assets/robots.txt`;
/// any other path is not one of them, an internal error.
pub fn permanent_redirect(path: &str) -> (r: Result<String, WebError>)
    ensures
        path@ == "/robots.txt"@ ==> (r matches Ok(location) && location@ == "/assets/robots.txt"@),
        path@ != "/robots.txt"@ ==> (r matches Err(WebError::InternalServerError(message))
            && message@ == "unimplemented permanent_redirects branch"@),
{
    if str_eq(path, "/robots.txt") {
        Ok("/assets/robots.txt".to_owned())
    } else {
        Err(WebError::InternalServerError("unimplemented permanent_redirects branch".to_owned()))
    }
}

} // verus!
