//! Authentication of requests: the session check that runs on every request, and the
//! decisions of the extractors that require (or forbid) an authenticated user.
use vstd::prelude::*;
use vstd::string::StringSliceAdditionalSpecFns;

use crate::ids::{parse_uuid, uuid_parse};
use crate::jwt::{jwt_cookie, JwtVerdict};
use crate::cookies::{is_session_cookie, CookieSpec, COOKIES_MAX_AGE, COOKIE_JWT};
use crate::model::{RefreshToken, User};

verus! {

/// Authentication context for a request.
#[derive(Clone)]
pub struct Auth {
    /// A possibly authenticated user, if this is `None` then the request was made unauthenticated
    pub user: Option<User>,
}

/// Authentication context for a request where the user *must* be authenticated.
#[derive(Clone)]
pub struct MustAuth {
    /// The definitely authenticated user
    pub user: User,
}

/// Authentication context for a request where the user *must not* be authenticated.
#[derive(Clone)]
pub struct MustNotBeAuthed {}

impl MustAuth {
    /// Turn a [`MustAuth`] into [`Auth`]
    pub fn into_auth(self) -> (auth: Auth)
        ensures
            auth.user == Some(self.user),
    {
        Auth { user: Some(self.user) }
    }
}

impl MustNotBeAuthed {
    /// Turn a [`MustNotBeAuthed`] into [`Auth`]
    pub fn into_auth(self) -> (auth: Auth)
        ensures
            auth.user is None,
    {
        Auth { user: None }
    }
}

// ---------------------------------------------------------------------------------------------
// Percent-encoding of the URL to come back to after logging in
// ---------------------------------------------------------------------------------------------

/// An ASCII letter or digit, as a byte.
pub open spec fn is_alphanumeric_byte(b: u8) -> bool {
    (0x30 <= b <= 0x39) || (0x41 <= b <= 0x5a) || (0x61 <= b <= 0x7a)
}

/// The uppercase hexadecimal digit for a value below sixteen.
pub open spec fn hex_upper(d: nat) -> char {
    if d < 10 {
        crate::text::digit_char(d)
    } else if d == 10 { 'A' }
    else if d == 11 { 'B' }
    else if d == 12 { 'C' }
    else if d == 13 { 'D' }
    else if d == 14 { 'E' }
    else { 'F' }
}

/// Percent-encoding of bytes with `percent_encoding::NON_ALPHANUMERIC`: ASCII letters and
/// digits stay as they are, every other byte becomes `%` and two uppercase hexadecimal digits.
pub open spec fn percent_encoded(bytes: Seq<u8>) -> Seq<char>
    decreases bytes.len(),
{
    if bytes.len() == 0 {
        Seq::empty()
    } else {
        let b = bytes[0];
        let head = if is_alphanumeric_byte(b) {
            seq![b as char]
        } else {
            seq!['%', hex_upper((b / 16) as nat), hex_upper((b % 16) as nat)]
        };
        head + percent_encoded(bytes.drop_first())
    }
}

/// `percent_encoding::utf8_percent_encode(s, NON_ALPHANUMERIC)`, turned into a string.
///
/// Trusted: the result is the percent-encoding of the UTF-8 bytes of `s` in which every byte
/// that is not an ASCII letter or digit is written `%XX` (the crate documents
/// `NON_ALPHANUMERIC` as "everything that is not an ASCII letter or digit" and encodes a byte as
/// `%` and two uppercase hexadecimal digits).
#[verifier::external_body]
fn percent_encode_non_alphanumeric(s: &str) -> (r: String)
    ensures
        r@ == percent_encoded(s.spec_bytes()),
{
    percent_encoding::utf8_percent_encode(s, percent_encoding::NON_ALPHANUMERIC).to_string()
}

/// The login page, to come back to `request_uri` afterwards.
pub open spec fn login_redirect(request_uri: &str) -> Seq<char> {
    "/account/login?redirect="@ + percent_encoded(request_uri.spec_bytes())
}

/// The URL of the login page that sends the user back to `request_uri` after logging in.
pub fn login_redirect_url(request_uri: &str) -> (url: String)
    ensures
        url@ == login_redirect(request_uri),
{
    let mut url = "/account/login?redirect=".to_owned();
    let encoded = percent_encode_non_alphanumeric(request_uri);
    url.append(encoded.as_str());
    url
}

/// The decision of the [`MustAuth`] extractor: the authenticated user, or (when there is none)
/// the URL to redirect to, the login page that comes back to `request_uri`.
pub fn require_auth(auth: Auth, request_uri: &str) -> (r: Result<MustAuth, String>)
    ensures
        match auth.user {
            Some(u) => r == Ok::<MustAuth, String>(MustAuth { user: u }),
            None => r matches Err(url) && url@ == login_redirect(request_uri),
        },
{
    match auth.user {
        Some(user) => Ok(MustAuth { user }),
        None => Err(login_redirect_url(request_uri)),
    }
}

/// The decision of the [`MustNotBeAuthed`] extractor: go ahead when nobody is authenticated,
/// else redirect to the home page `/`.
pub fn require_no_auth(auth: &Auth) -> (r: Result<MustNotBeAuthed, String>)
    ensures
        auth.user is None ==> r is Ok,
        auth.user is Some ==> (r matches Err(url) && url@ == seq!['/']),
{
    match auth.user {
        None => Ok(MustNotBeAuthed {}),
        Some(_) => {
            proof {
                reveal_strlit("/");
                assert("/"@ =~= seq!['/']);
            }
            Err("/".to_owned())
        },
    }
}

// ---------------------------------------------------------------------------------------------
// The session check of every request
// ---------------------------------------------------------------------------------------------

/// Where the session check of a request stands.
#[derive(PartialEq, Eq, Structural)]
pub enum AuthStage {
    /// Waiting for the verdict on the JWT cookie
    AwaitJwtVerdict,
    /// Waiting for the user that a valid JWT names
    AwaitUser,
    /// Waiting for the refresh token that the refresh cookie names
    AwaitRefreshToken,
    /// Waiting for the session to be refreshed with a known refresh token
    AwaitRefresh,
    /// The check is over
    Done,
}

/// The state of the session check of one request.
pub struct AuthFlow {
    /// Where the check stands
    pub stage: AuthStage,
    /// The value of the request's refresh cookie, if it has one
    pub refresh_cookie: Option<String>,
    /// Whether the session is to be refreshed with the refresh cookie
    pub do_refresh: bool,
    /// Whether the session cookies are to be cleared from the client
    pub clear_cookies: bool,
    /// The authenticated user, if any
    pub user: Option<User>,
    /// A freshly generated JWT to hand to the client, if the session was refreshed
    pub new_jwt: Option<String>,
}

/// What the session check needs done next.
pub enum AuthAction {
    /// Check this JWT (signature and expiry) and answer with [`AuthEvent::JwtChecked`]
    ValidateJwt(String),
    /// Load the user with this ID and answer with [`AuthEvent::UserLoaded`]
    LoadUser(i64),
    /// Load the refresh token with this value and answer with [`AuthEvent::RefreshTokenLoaded`]
    LoadRefreshToken(u128),
    /// Mark this refresh token as used, generate a JWT for its user, load that user and answer
    /// with [`AuthEvent::SessionRefreshed`]
    RefreshSession(RefreshToken),
    /// The check is over: its outcome is in the flow's `user`, `clear_cookies` and `new_jwt`
    Finish,
}

/// The answer to an [`AuthAction`].
pub enum AuthEvent {
    /// The verdict on the JWT
    JwtChecked(JwtVerdict),
    /// The user that was looked up, if it exists
    UserLoaded(Option<User>),
    /// The refresh token that was looked up, if it exists
    RefreshTokenLoaded(Option<RefreshToken>),
    /// The session was refreshed: the token's user and the new JWT
    SessionRefreshed { user: User, jwt: String },
}

/// Whether an event answers the action that a flow at this stage asked for.
pub open spec fn expects(stage: AuthStage, event: AuthEvent) -> bool {
    match event {
        AuthEvent::JwtChecked(_) => stage == AuthStage::AwaitJwtVerdict,
        AuthEvent::UserLoaded(_) => stage == AuthStage::AwaitUser,
        AuthEvent::RefreshTokenLoaded(_) => stage == AuthStage::AwaitRefreshToken,
        AuthEvent::SessionRefreshed { .. } => stage == AuthStage::AwaitRefresh,
    }
}

/// After the JWT is dealt with: refresh the session with the refresh cookie when that is due
/// and the cookie holds a UUID; clear the cookies when it is due but the cookie does not.
pub open spec fn refresh_phase(f: AuthFlow) -> (AuthFlow, AuthAction) {
    if f.do_refresh && f.refresh_cookie is Some {
        match uuid_parse(f.refresh_cookie->Some_0@) {
            Some(token) => (AuthFlow { stage: AuthStage::AwaitRefreshToken, ..f }, AuthAction::LoadRefreshToken(token)),
            None => (AuthFlow { stage: AuthStage::Done, clear_cookies: true, ..f }, AuthAction::Finish),
        }
    } else {
        (AuthFlow { stage: AuthStage::Done, ..f }, AuthAction::Finish)
    }
}

/// How the session check starts, given the request's JWT and refresh cookies.
pub open spec fn auth_start(jwt_cookie: Option<String>, refresh_cookie: Option<String>) -> (AuthFlow, AuthAction) {
    let f = AuthFlow {
        stage: AuthStage::AwaitJwtVerdict,
        refresh_cookie,
        do_refresh: refresh_cookie is Some && jwt_cookie is None,
        clear_cookies: false,
        user: None,
        new_jwt: None,
    };
    match jwt_cookie {
        Some(jwt) => (f, AuthAction::ValidateJwt(jwt)),
        None => refresh_phase(f),
    }
}

/// One step of the session check.
pub open spec fn auth_step(f: AuthFlow, event: AuthEvent) -> (AuthFlow, AuthAction) {
    match event {
        AuthEvent::JwtChecked(JwtVerdict::Valid { user_id }) => (
            AuthFlow { stage: AuthStage::AwaitUser, ..f },
            AuthAction::LoadUser(user_id),
        ),
        AuthEvent::JwtChecked(JwtVerdict::Expired) => refresh_phase(AuthFlow { do_refresh: true, ..f }),
        AuthEvent::JwtChecked(JwtVerdict::Invalid) => refresh_phase(
            AuthFlow { clear_cookies: true, do_refresh: false, ..f },
        ),
        AuthEvent::UserLoaded(user) => refresh_phase(AuthFlow { user, ..f }),
        AuthEvent::RefreshTokenLoaded(Some(token)) => (
            AuthFlow { stage: AuthStage::AwaitRefresh, ..f },
            AuthAction::RefreshSession(token),
        ),
        AuthEvent::RefreshTokenLoaded(None) => (
            AuthFlow { stage: AuthStage::Done, clear_cookies: true, ..f },
            AuthAction::Finish,
        ),
        AuthEvent::SessionRefreshed { user, jwt } => (
            AuthFlow { stage: AuthStage::Done, user: Some(user), new_jwt: Some(jwt), ..f },
            AuthAction::Finish,
        ),
    }
}

impl AuthFlow {
    fn refresh_phase_exec(self) -> (r: (AuthFlow, AuthAction))
        ensures
            r == refresh_phase(self),
    {
        let due = self.do_refresh && self.refresh_cookie.is_some();
        if due {
            let parsed = match &self.refresh_cookie {
                Some(value) => parse_uuid(value.as_str()),
                None => None,
            };
            match parsed {
                Some(token) => (
                    AuthFlow { stage: AuthStage::AwaitRefreshToken, ..self },
                    AuthAction::LoadRefreshToken(token),
                ),
                None => (AuthFlow { stage: AuthStage::Done, clear_cookies: true, ..self }, AuthAction::Finish),
            }
        } else {
            (AuthFlow { stage: AuthStage::Done, ..self }, AuthAction::Finish)
        }
    }

    /// Starts the session check of a request with its JWT and refresh cookies (their values).
    pub fn start(jwt_cookie: Option<String>, refresh_cookie: Option<String>) -> (r: (AuthFlow, AuthAction))
        ensures
            r == auth_start(jwt_cookie, refresh_cookie),
    {
        let do_refresh = refresh_cookie.is_some() && jwt_cookie.is_none();
        let f = AuthFlow {
            stage: AuthStage::AwaitJwtVerdict,
            refresh_cookie,
            do_refresh,
            clear_cookies: false,
            user: None,
            new_jwt: None,
        };
        match jwt_cookie {
            Some(jwt) => (f, AuthAction::ValidateJwt(jwt)),
            None => f.refresh_phase_exec(),
        }
    }

    /// Advances the session check with the answer to its last action.
    pub fn step(self, event: AuthEvent) -> (r: (AuthFlow, AuthAction))
        requires
            expects(self.stage, event),
        ensures
            r == auth_step(self, event),
    {
        match event {
            AuthEvent::JwtChecked(JwtVerdict::Valid { user_id }) => (
                AuthFlow { stage: AuthStage::AwaitUser, ..self },
                AuthAction::LoadUser(user_id),
            ),
            AuthEvent::JwtChecked(JwtVerdict::Expired) => AuthFlow { do_refresh: true, ..self }.refresh_phase_exec(),
            AuthEvent::JwtChecked(JwtVerdict::Invalid) => AuthFlow {
                clear_cookies: true,
                do_refresh: false,
                ..self
            }.refresh_phase_exec(),
            AuthEvent::UserLoaded(user) => AuthFlow { user, ..self }.refresh_phase_exec(),
            AuthEvent::RefreshTokenLoaded(Some(token)) => (
                AuthFlow { stage: AuthStage::AwaitRefresh, ..self },
                AuthAction::RefreshSession(token),
            ),
            AuthEvent::RefreshTokenLoaded(None) => (
                AuthFlow { stage: AuthStage::Done, clear_cookies: true, ..self },
                AuthAction::Finish,
            ),
            AuthEvent::SessionRefreshed { user, jwt } => (
                AuthFlow { stage: AuthStage::Done, user: Some(user), new_jwt: Some(jwt), ..self },
                AuthAction::Finish,
            ),
        }
    }

    /// The authentication context the check arrived at.
    pub fn into_auth(self) -> (auth: Auth)
        ensures
            auth.user == self.user,
    {
        Auth { user: self.user }
    }

    /// The cookie carrying the new JWT, when the session was refreshed.
    pub fn new_jwt_cookie(&self) -> (c: Option<CookieSpec>)
        ensures
            self.new_jwt is None ==> c is None,
            self.new_jwt matches Some(jwt) ==> (c matches Some(cookie) && is_session_cookie(
                cookie,
                COOKIE_JWT@,
                jwt@,
                COOKIES_MAX_AGE as int,
            )),
    {
        match &self.new_jwt {
            Some(jwt) => Some(jwt_cookie(jwt.clone())),
            None => None,
        }
    }
}

/// What holds of the session check at every stage.
pub open spec fn auth_flow_invariant(f: AuthFlow) -> bool {
    // Clearing the cookies never goes with an authenticated user or a new JWT.
    &&& f.clear_cookies ==> f.user is None && f.new_jwt is None
    // A new JWT is only handed out at the end, together with its user.
    &&& f.new_jwt is Some ==> f.user is Some && f.stage == AuthStage::Done
    // While the JWT is being dealt with, nothing is decided yet and no refresh is due.
    &&& (f.stage == AuthStage::AwaitJwtVerdict || f.stage == AuthStage::AwaitUser) ==> {
        &&& !f.do_refresh
        &&& f.user is None
        &&& !f.clear_cookies
        &&& f.new_jwt is None
    }
    // A refresh is only under way when it is due and the request has a refresh cookie.
    &&& (f.stage == AuthStage::AwaitRefreshToken || f.stage == AuthStage::AwaitRefresh) ==> {
        &&& f.do_refresh
        &&& f.refresh_cookie is Some
        &&& f.user is None
        &&& !f.clear_cookies
        &&& f.new_jwt is None
    }
}

/// How many more events the session check can take at a stage.
pub open spec fn auth_rank(stage: AuthStage) -> nat {
    match stage {
        AuthStage::AwaitJwtVerdict => 4,
        AuthStage::AwaitUser => 3,
        AuthStage::AwaitRefreshToken => 2,
        AuthStage::AwaitRefresh => 1,
        AuthStage::Done => 0,
    }
}

/// The session check asks for `Finish` exactly when it is over.
pub open spec fn finishes_when_done(r: (AuthFlow, AuthAction)) -> bool {
    r.1 is Finish <==> r.0.stage == AuthStage::Done
}

/// The session check starts in a state where its invariant holds, and asks for `Finish` exactly
/// when it is already over.
pub proof fn auth_start_establishes_invariant(
    jwt_cookie: Option<String>,
    refresh_cookie: Option<String>,
)
    ensures
        auth_flow_invariant(auth_start(jwt_cookie, refresh_cookie).0),
        finishes_when_done(auth_start(jwt_cookie, refresh_cookie)),
{
}

/// Every step of the session check keeps its invariant, asks for `Finish` exactly when it is
/// over, and moves to a later stage, so a check takes at most four events.
pub proof fn auth_step_preserves_invariant(f: AuthFlow, event: AuthEvent)
    requires
        auth_flow_invariant(f),
        expects(f.stage, event),
    ensures
        auth_flow_invariant(auth_step(f, event).0),
        finishes_when_done(auth_step(f, event)),
        auth_rank(auth_step(f, event).0.stage) < auth_rank(f.stage),
{
}

/// A request without session cookies is done at once: unauthenticated, nothing cleared.
pub proof fn no_cookies_means_anonymous()
    ensures
        auth_start(None, None).0.stage == AuthStage::Done,
        auth_start(None, None).0.user is None,
        !auth_start(None, None).0.clear_cookies,
        auth_start(None, None).0.new_jwt is None,
{
}

/// A JWT that is neither valid nor merely expired ends the check: the request is
/// unauthenticated, its session cookies are cleared and no refresh is tried.
pub proof fn invalid_jwt_clears_session(f: AuthFlow)
    requires
        auth_flow_invariant(f),
        f.stage == AuthStage::AwaitJwtVerdict,
    ensures
        auth_step(f, AuthEvent::JwtChecked(JwtVerdict::Invalid)).0.stage == AuthStage::Done,
        auth_step(f, AuthEvent::JwtChecked(JwtVerdict::Invalid)).0.user is None,
        auth_step(f, AuthEvent::JwtChecked(JwtVerdict::Invalid)).0.clear_cookies,
        auth_step(f, AuthEvent::JwtChecked(JwtVerdict::Invalid)).1 is Finish,
{
}

/// A valid JWT authenticates the user it names (when that user exists) and never leads to a
/// refresh or to clearing the cookies.
pub proof fn valid_jwt_authenticates_its_user(f: AuthFlow, user_id: i64, user: Option<User>)
    requires
        auth_flow_invariant(f),
        f.stage == AuthStage::AwaitJwtVerdict,
    ensures
        auth_step(f, AuthEvent::JwtChecked(JwtVerdict::Valid { user_id })).1
            == AuthAction::LoadUser(user_id),
        auth_step(auth_step(f, AuthEvent::JwtChecked(JwtVerdict::Valid { user_id })).0, AuthEvent::UserLoaded(user)).0.stage == AuthStage::Done,
        auth_step(auth_step(f, AuthEvent::JwtChecked(JwtVerdict::Valid { user_id })).0, AuthEvent::UserLoaded(user)).0.user == user,
        !auth_step(auth_step(f, AuthEvent::JwtChecked(JwtVerdict::Valid { user_id })).0, AuthEvent::UserLoaded(user)).0.clear_cookies,
{
}

/// An expired JWT leads to a refresh with the refresh cookie, when the request has one that
/// holds a UUID.
pub proof fn expired_jwt_refreshes(f: AuthFlow)
    requires
        auth_flow_invariant(f),
        f.stage == AuthStage::AwaitJwtVerdict,
        f.refresh_cookie matches Some(c) && uuid_parse(c@) is Some,
    ensures
        auth_step(f, AuthEvent::JwtChecked(JwtVerdict::Expired)).1 == AuthAction::LoadRefreshToken(
            uuid_parse(f.refresh_cookie->Some_0@)->Some_0,
        ),
{
}

/// The session check of a request, from its cookies to its outcome:
/// - with no cookies the request is anonymous and nothing is cleared;
/// - a JWT is checked first; a valid one loads the user it names, and the request is
///   authenticated as that user (if it exists), with no refresh and nothing cleared;
/// - an invalid JWT leaves the request anonymous and clears the cookies, without looking at the
///   refresh cookie;
/// - an expired JWT without a refresh cookie leaves the request anonymous, clearing nothing;
/// - an expired JWT, or no JWT, with a refresh cookie refreshes the session: a refresh cookie
///   that is no UUID, or names no known refresh token, leaves the request anonymous and clears
///   the cookies; a known refresh token is refreshed, and the request is authenticated as its
///   user and gets the new JWT.
pub proof fn session_check_by_cookies(
    jwt: String,
    refresh: String,
    token_value: u128,
    user_id: i64,
    user: Option<User>,
    token: RefreshToken,
    refreshed_user: User,
    new_jwt: String,
)
    ensures
        ({
            let (f, a) = auth_start(None, None);
            a is Finish && f.user is None && !f.clear_cookies && f.new_jwt is None
        }),
        forall|refresh_cookie: Option<String>| {
            let (f0, a0) = #[trigger] auth_start(Some(jwt), refresh_cookie);
            let (f1, a1) = auth_step(f0, AuthEvent::JwtChecked(JwtVerdict::Valid { user_id }));
            let (f2, a2) = auth_step(f1, AuthEvent::UserLoaded(user));
            let (g1, b1) = auth_step(f0, AuthEvent::JwtChecked(JwtVerdict::Invalid));
            &&& a0 == AuthAction::ValidateJwt(jwt)
            &&& a1 == AuthAction::LoadUser(user_id)
            &&& a2 is Finish && f2.user == user && !f2.clear_cookies && f2.new_jwt is None
            &&& b1 is Finish && g1.user is None && g1.clear_cookies && g1.new_jwt is None
        },
        ({
            let (f1, a1) = auth_step(auth_start(Some(jwt), None).0, AuthEvent::JwtChecked(JwtVerdict::Expired));
            a1 is Finish && f1.user is None && !f1.clear_cookies && f1.new_jwt is None
        }),
        uuid_parse(refresh@) is None ==> {
            let (f1, a1) = auth_step(
                auth_start(Some(jwt), Some(refresh)).0,
                AuthEvent::JwtChecked(JwtVerdict::Expired),
            );
            let (g0, b0) = auth_start(None, Some(refresh));
            &&& a1 is Finish && f1.user is None && f1.clear_cookies && f1.new_jwt is None
            &&& b0 is Finish && g0.user is None && g0.clear_cookies && g0.new_jwt is None
        },
        uuid_parse(refresh@) == Some(token_value) ==> {
            let (f1, a1) = auth_step(
                auth_start(Some(jwt), Some(refresh)).0,
                AuthEvent::JwtChecked(JwtVerdict::Expired),
            );
            let (g0, b0) = auth_start(None, Some(refresh));
            let (f2, a2) = auth_step(f1, AuthEvent::RefreshTokenLoaded(None));
            let (f3, a3) = auth_step(f1, AuthEvent::RefreshTokenLoaded(Some(token)));
            let (f4, a4) = auth_step(
                f3,
                AuthEvent::SessionRefreshed { user: refreshed_user, jwt: new_jwt },
            );
            &&& a1 == AuthAction::LoadRefreshToken(token_value)
            &&& b0 == AuthAction::LoadRefreshToken(token_value)
            &&& auth_step(g0, AuthEvent::RefreshTokenLoaded(None)).0.clear_cookies
            &&& a2 is Finish && f2.user is None && f2.clear_cookies && f2.new_jwt is None
            &&& a3 == AuthAction::RefreshSession(token)
            &&& a4 is Finish && f4.user == Some(refreshed_user) && f4.new_jwt == Some(new_jwt)
            &&& !f4.clear_cookies
        },
{
}

} // verus!
