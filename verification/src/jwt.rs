//! JSON Web Token claims for nbsp sessions.
//!
//! Signing and checking tokens (the `jsonwebtoken` crate, which serializes these claims with
//! serde) happens around this library; here the claims a session token carries are computed,
//! and the outcome of checking a token is represented.
use vstd::prelude::*;

use crate::cookies::{build_cookie, is_session_cookie, COOKIES_MAX_AGE, COOKIE_JWT};
use crate::cookies::CookieSpec;

verus! {

/// How long a JWT is valid after it is issued, in seconds: 15 minutes.
pub const JWT_EXPIRY_SECONDS: i64 = 900;

/// [`jsonwebtoken`] claims
pub struct JwtClaims {
    /// Subject claim, this will be the user_id
    pub sub: i64,
    /// When the JWT expires (Unix time, seconds)
    pub exp: usize,
    /// When the JWT was issued (Unix time, seconds)
    pub iat: usize,
}

/// The claims of a token issued for `user_id` at Unix time `now` (seconds).
pub open spec fn claims_at(user_id: i64, now: i64) -> JwtClaims {
    JwtClaims {
        sub: user_id,
        exp: (now + JWT_EXPIRY_SECONDS) as usize,
        iat: now as usize,
    }
}

/// The current Unix time in seconds (`chrono::Utc::now().timestamp()`).
///
/// Trusted: nothing is stated of the value, which is the clock's.
#[verifier::external_body]
fn unix_now() -> (t: i64) {
    chrono::Utc::now().timestamp()
}

impl JwtClaims {
    /// The claims of a token issued for `user_id` at Unix time `now` (seconds).
    pub fn issued_at(user_id: i64, now: i64) -> (c: JwtClaims)
        ensures
            c == claims_at(user_id, now),
    {
        let expires: i128 = now as i128 + JWT_EXPIRY_SECONDS as i128;
        JwtClaims { sub: user_id, exp: expires as usize, iat: now as usize }
    }

    /// The claims of a token issued now for `user_id`.
    pub fn issued_now(user_id: i64) -> (c: JwtClaims)
        ensures
            exists|now: i64| c == claims_at(user_id, now),
    {
        let now = unix_now();
        JwtClaims::issued_at(user_id, now)
    }
}

/// What checking a JWT (its signature and its `exp` claim) gave.
pub enum JwtVerdict {
    /// The token is genuine and current; it names this user
    Valid { user_id: i64 },
    /// The token is genuine but has expired
    Expired,
    /// The token is not acceptable for any other reason
    Invalid,
}

/// Why checking a JWT failed, as far as the session check cares.
pub enum JwtCheckError {
    /// The signature is genuine but the token's `exp` has passed (`ErrorKind::ExpiredSignature`)
    ExpiredSignature,
    /// Any other reason (bad signature, malformed token, missing claims, ...)
    Other,
}

/// The verdict on a JWT from the outcome of checking it (its signature and its `exp` claim):
/// the user the claims name when the check passed, `Expired` for an expired token, `Invalid`
/// for any other failure.
pub fn jwt_verdict(checked: Result<JwtClaims, JwtCheckError>) -> (v: JwtVerdict)
    ensures
        match checked {
            Ok(claims) => v == (JwtVerdict::Valid { user_id: claims.sub }),
            Err(JwtCheckError::ExpiredSignature) => v is Expired,
            Err(JwtCheckError::Other) => v is Invalid,
        },
{
    match checked {
        Ok(claims) => JwtVerdict::Valid { user_id: claims.sub },
        Err(JwtCheckError::ExpiredSignature) => JwtVerdict::Expired,
        Err(JwtCheckError::Other) => JwtVerdict::Invalid,
    }
}

/// The cookie that carries a freshly generated JWT.
pub fn jwt_cookie(jwt: String) -> (c: CookieSpec)
    ensures
        is_session_cookie(c, COOKIE_JWT@, jwt@, COOKIES_MAX_AGE as int),
{
    build_cookie(COOKIE_JWT, jwt, Some(COOKIES_MAX_AGE))
}

/// Every token is issued for fifteen minutes: its expiry is its issue time plus
/// [`JWT_EXPIRY_SECONDS`] (for issue times that fit, as Unix seconds, in `usize`).
pub proof fn tokens_expire_fifteen_minutes_after_issue(user_id: i64, now: i64)
    requires
        0 <= now,
        now + 900 <= usize::MAX,
    ensures
        claims_at(user_id, now).exp == claims_at(user_id, now).iat + 900,
        claims_at(user_id, now).iat == now,
        claims_at(user_id, now).sub == user_id,
{
}

} // verus!
