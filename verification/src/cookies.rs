//! The session cookies nbsp sets: what each one holds and its attributes.
use vstd::prelude::*;

use crate::ids::{uuid_hyphenated, uuid_parse, uuid_to_string};

verus! {

/// The cookie name for the JWT.
pub const COOKIE_JWT: &'static str = "jwt";

/// The cookie name for the refresh token.
pub const COOKIE_REFRESH: &'static str = "refresh";

/// The default max age of cookies, in seconds: 30 minutes.
pub const COOKIES_MAX_AGE: i64 = 1800;

/// The max age of the refresh token cookie, in seconds: 30 days.
pub const COOKIE_REFRESH_MAX_AGE: i64 = 2_592_000;

/// A cookie to set on (or remove from) the client, with its attributes.
pub struct CookieSpec {
    /// The cookie's name
    pub name: String,
    /// The cookie's value
    pub value: String,
    /// The `Path` attribute
    pub path: String,
    /// The `HttpOnly` attribute
    pub http_only: bool,
    /// The `Secure` attribute
    pub secure: bool,
    /// Whether the `SameSite` attribute is `Strict`
    pub same_site_strict: bool,
    /// The `Max-Age` attribute, in seconds
    pub max_age_seconds: i64,
    /// Whether this cookie removes the client's cookie of the same name (its value is empty, its
    /// max age zero and its expiry date far in the past)
    pub removal: bool,
}

/// The attributes every nbsp cookie carries: path `/`, `HttpOnly`, `Secure`, `SameSite=Strict`.
pub open spec fn nbsp_cookie_attributes(c: CookieSpec) -> bool {
    &&& c.path@ == seq!['/']
    &&& c.http_only
    &&& c.secure
    &&& c.same_site_strict
}

/// A cookie named `name` holding `value` for `max_age` seconds.
pub open spec fn is_session_cookie(c: CookieSpec, name: Seq<char>, value: Seq<char>, max_age: int) -> bool {
    &&& nbsp_cookie_attributes(c)
    &&& c.name@ == name
    &&& c.value@ == value
    &&& c.max_age_seconds == max_age
    &&& !c.removal
}

/// A cookie that removes the client's cookie named `name`.
pub open spec fn is_removal_cookie(c: CookieSpec, name: Seq<char>) -> bool {
    &&& nbsp_cookie_attributes(c)
    &&& c.name@ == name
    &&& c.value@ == Seq::<char>::empty()
    &&& c.max_age_seconds == 0
    &&& c.removal
}

/// Build a cookie with an optional `max_age` (in seconds) defaulting to [`COOKIES_MAX_AGE`]
pub fn build_cookie(name: &str, value: String, max_age: Option<i64>) -> (c: CookieSpec)
    ensures
        is_session_cookie(
            c,
            name@,
            value@,
            match max_age {
                Some(a) => a as int,
                None => COOKIES_MAX_AGE as int,
            },
        ),
{
    proof {
        reveal_strlit("/");
        assert("/"@ =~= seq!['/']);
    }
    CookieSpec {
        name: name.to_owned(),
        value,
        path: "/".to_owned(),
        http_only: true,
        secure: true,
        same_site_strict: true,
        max_age_seconds: match max_age {
            Some(a) => a,
            None => COOKIES_MAX_AGE,
        },
        removal: false,
    }
}

/// Build a cookie for it to be removed
pub fn removal_cookie(name: &str) -> (c: CookieSpec)
    ensures
        is_removal_cookie(c, name@),
{
    let cookie = build_cookie(name, String::new(), None);
    CookieSpec { value: String::new(), max_age_seconds: 0, removal: true, ..cookie }
}

/// The cookies that clear all known nbsp cookies from the client: removals of the JWT and the
/// refresh token cookies.
pub fn session_removal_cookies() -> (cookies: Vec<CookieSpec>)
    ensures
        cookies@.len() == 2,
        is_removal_cookie(cookies@[0], COOKIE_JWT@),
        is_removal_cookie(cookies@[1], COOKIE_REFRESH@),
{
    let mut cookies = Vec::new();
    cookies.push(removal_cookie(COOKIE_JWT));
    cookies.push(removal_cookie(COOKIE_REFRESH));
    cookies
}

/// The cookie that carries a refresh token (its hyphenated UUID) for 30 days.
pub fn refresh_token_cookie(refresh_token: u128) -> (c: CookieSpec)
    ensures
        is_session_cookie(c, COOKIE_REFRESH@, uuid_hyphenated(refresh_token), COOKIE_REFRESH_MAX_AGE as int),
        uuid_parse(c.value@) == Some(refresh_token),
{
    build_cookie(COOKIE_REFRESH, uuid_to_string(refresh_token), Some(COOKIE_REFRESH_MAX_AGE))
}

/// A removal cookie overwrites the very cookie it removes: it has the same name, path and
/// attributes as the session cookie of that name, so the client replaces that cookie with it.
pub proof fn removal_cookie_matches_session_cookie(
    session: CookieSpec,
    removal: CookieSpec,
    name: Seq<char>,
    value: Seq<char>,
    max_age: int,
)
    requires
        is_session_cookie(session, name, value, max_age),
        is_removal_cookie(removal, name),
    ensures
        removal.name@ == session.name@,
        removal.path@ == session.path@,
        removal.http_only == session.http_only,
        removal.secure == session.secure,
        removal.same_site_strict == session.same_site_strict,
{
}

/// The session cookies: the JWT travels in the cookie `jwt`, for 30 minutes (1800 seconds) unless
/// told otherwise, and the refresh token in the cookie `refresh`, for 30 days (2,592,000
/// seconds); every cookie is sent on every path (`/`) and only over HTTPS, is hidden from
/// scripts and is never sent along from other sites; a removal cookie is empty and expires at once.
pub proof fn session_cookie_rules(c: CookieSpec, name: Seq<char>, value: Seq<char>, max_age: int)
    ensures
        COOKIE_JWT@ == "jwt"@,
        COOKIE_REFRESH@ == "refresh"@,
        COOKIES_MAX_AGE == 1800,
        COOKIE_REFRESH_MAX_AGE == 2_592_000,
        is_session_cookie(c, name, value, max_age) ==> {
            &&& c.name@ == name && c.value@ == value && c.max_age_seconds == max_age
            &&& c.path@ == seq!['/'] && c.http_only && c.secure && c.same_site_strict && !c.removal
        },
        is_removal_cookie(c, name) ==> {
            &&& c.name@ == name && c.value@.len() == 0 && c.max_age_seconds == 0 && c.removal
            &&& c.path@ == seq!['/'] && c.http_only && c.secure && c.same_site_strict
        },
{
}

} // verus!
