use nbsp::auth::{
    login_redirect_url, require_auth, require_no_auth, Auth, AuthAction, AuthEvent, AuthFlow,
    AuthStage, MustAuth, MustNotBeAuthed,
};
use nbsp::jwt::JwtVerdict;
use nbsp::model::{RefreshToken, User};

const TOKEN: &str = "67e55044-10b1-426f-9247-bb680e5fe0c8";
const TOKEN_VALUE: u128 = 0x67e5504410b1426f9247bb680e5fe0c8;

fn user(id: i64, name: &str) -> User {
    User { user_id: id, username: name.to_string(), created_at: 0, password_hash: None }
}

fn refresh_token(user_id: i64) -> RefreshToken {
    RefreshToken { token_id: 7, user_id, refresh_token: TOKEN_VALUE, created_at: 0, last_used_at: 0 }
}

#[test]
fn no_cookies_is_anonymous() {
    let (flow, action) = AuthFlow::start(None, None);
    assert!(matches!(action, AuthAction::Finish));
    assert!(flow.stage == AuthStage::Done);
    assert!(flow.user.is_none());
    assert!(!flow.clear_cookies);
    assert!(flow.new_jwt_cookie().is_none());
}

#[test]
fn valid_jwt_loads_its_user() {
    let (flow, action) = AuthFlow::start(Some("token".to_string()), Some(TOKEN.to_string()));
    assert!(matches!(action, AuthAction::ValidateJwt(ref t) if t == "token"));
    let (flow, action) = flow.step(AuthEvent::JwtChecked(JwtVerdict::Valid { user_id: 3 }));
    assert!(matches!(action, AuthAction::LoadUser(3)));
    let (flow, action) = flow.step(AuthEvent::UserLoaded(Some(user(3, "bear"))));
    assert!(matches!(action, AuthAction::Finish));
    assert!(!flow.clear_cookies);
    assert_eq!(flow.into_auth().user.unwrap().username, "bear");
}

#[test]
fn invalid_jwt_clears_cookies() {
    let (flow, _) = AuthFlow::start(Some("token".to_string()), Some(TOKEN.to_string()));
    let (flow, action) = flow.step(AuthEvent::JwtChecked(JwtVerdict::Invalid));
    assert!(matches!(action, AuthAction::Finish));
    assert!(flow.clear_cookies);
    assert!(flow.user.is_none());
}

#[test]
fn expired_jwt_refreshes_session() {
    let (flow, _) = AuthFlow::start(Some("token".to_string()), Some(TOKEN.to_string()));
    let (flow, action) = flow.step(AuthEvent::JwtChecked(JwtVerdict::Expired));
    assert!(matches!(action, AuthAction::LoadRefreshToken(TOKEN_VALUE)));
    let (flow, action) = flow.step(AuthEvent::RefreshTokenLoaded(Some(refresh_token(3))));
    assert!(matches!(action, AuthAction::RefreshSession(ref t) if t.user_id == 3));
    let (flow, action) = flow.step(AuthEvent::SessionRefreshed {
        user: user(3, "bear"),
        jwt: "new.jwt".to_string(),
    });
    assert!(matches!(action, AuthAction::Finish));
    let cookie = flow.new_jwt_cookie().unwrap();
    assert_eq!(cookie.name, "jwt");
    assert_eq!(cookie.value, "new.jwt");
    assert_eq!(cookie.max_age_seconds, 1800);
    assert!(!flow.clear_cookies);
    assert_eq!(flow.into_auth().user.unwrap().user_id, 3);
}

#[test]
fn refresh_cookie_without_jwt_refreshes() {
    let (_, action) = AuthFlow::start(None, Some(TOKEN.to_string()));
    assert!(matches!(action, AuthAction::LoadRefreshToken(TOKEN_VALUE)));
}

#[test]
fn unknown_refresh_token_clears_cookies() {
    let (flow, _) = AuthFlow::start(None, Some(TOKEN.to_string()));
    let (flow, action) = flow.step(AuthEvent::RefreshTokenLoaded(None));
    assert!(matches!(action, AuthAction::Finish));
    assert!(flow.clear_cookies);
}

#[test]
fn malformed_refresh_cookie_clears_cookies() {
    let (flow, action) = AuthFlow::start(None, Some("not-a-uuid".to_string()));
    assert!(matches!(action, AuthAction::Finish));
    assert!(flow.clear_cookies);
    assert!(flow.user.is_none());
}

#[test]
fn must_auth_redirects_to_login_with_encoded_uri() {
    let r = require_auth(Auth { user: None }, "/post/view/1?x=a b");
    assert_eq!(r.err().unwrap(), "/account/login?redirect=%2Fpost%2Fview%2F1%3Fx%3Da%20b");
    let r = require_auth(Auth { user: Some(user(1, "bear")) }, "/");
    let MustAuth { user } = r.ok().unwrap();
    assert_eq!(user.user_id, 1);
    assert_eq!(login_redirect_url("é"), "/account/login?redirect=%C3%A9");
}

#[test]
fn must_not_be_authed_redirects_home() {
    assert!(require_no_auth(&Auth { user: None }).is_ok());
    assert_eq!(require_no_auth(&Auth { user: Some(user(1, "bear")) }).err().unwrap(), "/");
    assert!(MustNotBeAuthed {}.into_auth().user.is_none());
    assert_eq!(MustAuth { user: user(2, "x") }.into_auth().user.unwrap().user_id, 2);
}
