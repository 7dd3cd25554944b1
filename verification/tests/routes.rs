use nbsp::cookies::{build_cookie, removal_cookie, session_removal_cookies, COOKIES_MAX_AGE};
use nbsp::errors::{LoginUserError, PostNewError, RegisterUserError, WebError};
use nbsp::forms::{AccountLoginForm, AccountRegisterForm, PostNewForm};
use nbsp::jwt::{jwt_verdict, JwtCheckError, JwtClaims, JwtVerdict, JWT_EXPIRY_SECONDS};
use nbsp::model::{RefreshToken, User};
use nbsp::password::{hash_password, verify_password};
use nbsp::routes::{
    login_redirect_target, logout_plan, permanent_redirect, post_view_url, session_cookies,
    user_profile_url, LoginAction, LoginEvent, LoginFlow, RegisterAction, RegisterEvent,
    RegisterFlow, RegisterStage,
};

const INVITE: &str = "67e55044-10b1-426f-9247-bb680e5fe0c8";
const INVITE_VALUE: u128 = 0x67e5504410b1426f9247bb680e5fe0c8;

fn form(username: &str, password: &str, invite: &str) -> AccountRegisterForm {
    AccountRegisterForm {
        username: username.to_string(),
        password: password.to_string(),
        confirm_password: password.to_string(),
        invite: invite.to_string(),
    }
}

fn user(id: i64, name: &str, hash: Option<String>) -> User {
    User { user_id: id, username: name.to_string(), created_at: 0, password_hash: hash }
}

fn token(user_id: i64, value: u128) -> RefreshToken {
    RefreshToken { token_id: 1, user_id, refresh_token: value, created_at: 0, last_used_at: 0 }
}

#[test]
fn register_happy_path() {
    let (flow, action) = RegisterFlow::start(form("bear", "Password@123", INVITE));
    assert!(matches!(action, RegisterAction::CheckUsername(ref u) if u == "bear"));
    let (flow, action) = flow.step(RegisterEvent::UsernameChecked(true));
    assert!(matches!(action, RegisterAction::CheckInvite(INVITE_VALUE)));
    let (flow, action) = flow.step(RegisterEvent::InviteChecked(true));
    // The account is created with a hash of the form's password.
    let stored = match action {
        RegisterAction::CreateAccount { ref username, ref password_hash, invite } => {
            assert_eq!(username, "bear");
            assert_eq!(invite, INVITE_VALUE);
            assert!(verify_password(b"Password@123", Some(password_hash)).unwrap());
            assert!(!verify_password(b"Password@124", Some(password_hash)).unwrap());
            password_hash.clone()
        }
        _ => panic!("expected the account to be created"),
    };
    assert_eq!(flow.password_hash.as_deref(), Some(stored.as_str()));
    let (flow, action) = flow.step(RegisterEvent::AccountCreated {
        user: user(5, "bear", Some(stored)),
        refresh_token: token(5, 42),
    });
    assert!(matches!(action, RegisterAction::IssueJwt(5)));
    let (flow, action) = flow.step(RegisterEvent::JwtIssued("a.b.c".to_string()));
    assert!(flow.stage == RegisterStage::Done);
    match action {
        RegisterAction::Complete { jwt, refresh_token, username } => {
            assert_eq!(jwt, "a.b.c");
            assert_eq!(refresh_token, 42);
            assert_eq!(user_profile_url(&username), "/user/bear");
        }
        _ => panic!("expected the registration to complete"),
    }
}

#[test]
fn register_rejections() {
    let (_, action) = RegisterFlow::start(form("bear", "Password@123", "not-a-uuid"));
    assert!(matches!(action, RegisterAction::Reject(RegisterUserError::InviteCode)));
    let (_, action) = RegisterFlow::start(form("b", "Password@123", INVITE));
    assert!(matches!(action, RegisterAction::Reject(RegisterUserError::InvalidForm)));
    let mut mismatched = form("bear", "Password@123", INVITE);
    mismatched.confirm_password = "Password@124".to_string();
    let (_, action) = RegisterFlow::start(mismatched);
    assert!(matches!(action, RegisterAction::Reject(RegisterUserError::InvalidForm)));

    let (flow, _) = RegisterFlow::start(form("bear", "Password@123", INVITE));
    let (_, action) = flow.step(RegisterEvent::UsernameChecked(false));
    assert!(matches!(action, RegisterAction::Reject(RegisterUserError::ExistingUsername)));

    let (flow, _) = RegisterFlow::start(form("bear", "Password@123", INVITE));
    let (flow, _) = flow.step(RegisterEvent::UsernameChecked(true));
    let (_, action) = flow.step(RegisterEvent::InviteChecked(false));
    assert!(matches!(action, RegisterAction::Reject(RegisterUserError::InviteCode)));
}

#[test]
fn login_happy_path_and_redirects() {
    let hash = hash_password(b"Password@123").unwrap();
    let login = AccountLoginForm { username: "bear".to_string(), password: "Password@123".to_string() };
    let (flow, action) = LoginFlow::start(login, None);
    assert!(matches!(action, LoginAction::FindUser(ref u) if u == "bear"));
    let (flow, action) = flow.step(LoginEvent::UserFound(Some(user(9, "bear", Some(hash)))));
    assert!(matches!(action, LoginAction::IssueJwt(9)));
    let (flow, action) = flow.step(LoginEvent::JwtIssued("x.y.z".to_string()));
    assert!(matches!(action, LoginAction::CreateRefreshToken(9)));
    let (_, action) = flow.step(LoginEvent::RefreshTokenCreated(token(9, 77)));
    match action {
        LoginAction::Complete { jwt, refresh_token, redirect, username } => {
            assert_eq!(jwt, "x.y.z");
            assert_eq!(refresh_token, 77);
            assert_eq!(login_redirect_target(redirect, &username), "/user/bear");
        }
        _ => panic!("expected the login to complete"),
    }
    assert_eq!(login_redirect_target(Some("/post/new".to_string()), "bear"), "/post/new");
}

#[test]
fn login_rejections() {
    let login = || AccountLoginForm { username: "bear".to_string(), password: "Password@123".to_string() };
    let (flow, _) = LoginFlow::start(login(), None);
    let (_, action) = flow.step(LoginEvent::UserFound(None));
    assert!(matches!(action, LoginAction::Reject(LoginUserError::IncorrectLogin)));

    let (flow, _) = LoginFlow::start(login(), None);
    let (_, action) = flow.step(LoginEvent::UserFound(Some(user(1, "bear", None))));
    assert!(matches!(action, LoginAction::Reject(LoginUserError::IncorrectLogin)));

    let other = hash_password(b"Other@12345").unwrap();
    let (flow, _) = LoginFlow::start(login(), None);
    let (_, action) = flow.step(LoginEvent::UserFound(Some(user(1, "bear", Some(other)))));
    assert!(matches!(action, LoginAction::Reject(LoginUserError::IncorrectLogin)));

    let (flow, _) = LoginFlow::start(login(), None);
    let (_, action) = flow.step(LoginEvent::UserFound(Some(user(1, "bear", Some("garbage".to_string())))));
    assert!(matches!(action, LoginAction::Fail(_)));
}

#[test]
fn session_and_removal_cookies() {
    let cookies = session_cookies("a.b.c".to_string(), 0x67e5504410b1426f9247bb680e5fe0c8);
    assert_eq!(cookies.len(), 2);
    assert_eq!(cookies[0].name, "jwt");
    assert_eq!(cookies[0].value, "a.b.c");
    assert_eq!(cookies[0].max_age_seconds, 1800);
    assert_eq!(cookies[1].name, "refresh");
    assert_eq!(cookies[1].value, INVITE);
    assert_eq!(cookies[1].max_age_seconds, 2_592_000);
    for c in &cookies {
        assert_eq!(c.path, "/");
        assert!(c.http_only && c.secure && c.same_site_strict && !c.removal);
    }

    let c = build_cookie("x", "v".to_string(), None);
    assert_eq!(c.max_age_seconds, COOKIES_MAX_AGE);
    let r = removal_cookie("jwt");
    assert!(r.removal && r.value.is_empty() && r.max_age_seconds == 0 && r.path == "/");
    let cleared = session_removal_cookies();
    assert_eq!(cleared[0].name, "jwt");
    assert_eq!(cleared[1].name, "refresh");
}

#[test]
fn logout_deletes_a_well_formed_refresh_token() {
    let plan = logout_plan(Some(INVITE));
    assert_eq!(plan.delete_refresh_token, Some(INVITE_VALUE));
    assert_eq!(plan.redirect, "/");
    assert!(plan.cookies.iter().all(|c| c.removal));
    assert_eq!(logout_plan(Some("junk")).delete_refresh_token, None);
    assert_eq!(logout_plan(None).delete_refresh_token, None);
}

#[test]
fn post_submissions() {
    let ok = PostNewForm { title: "Hello".to_string(), markdown: "**hi**".to_string() };
    assert_eq!(ok.render().unwrap(), "<p><strong>hi</strong></p>\n");
    let no_title = PostNewForm { title: "".to_string(), markdown: "".to_string() };
    assert_eq!(no_title.render().err(), Some(PostNewError::TitleLength));
    let no_body = PostNewForm { title: "t".to_string(), markdown: "".to_string() };
    assert_eq!(no_body.render().err(), Some(PostNewError::MarkdownLength));
    assert_eq!(post_view_url(42), "/post/view/42");
    assert_eq!(post_view_url(-7), "/post/view/-7");
    assert_eq!(post_view_url(i64::MIN), "/post/view/-9223372036854775808");
    assert_eq!(post_view_url(0), "/post/view/0");
}

#[test]
fn feedback_messages() {
    assert_eq!(
        PostNewError::TitleLength.message(),
        "The title must be at least 1 and at most 200 characters long\n"
    );
    assert_eq!(
        PostNewError::MarkdownLength.message(),
        "The Markdown body must be at least 1 and at most 10000 characters long\n"
    );
    assert_eq!(LoginUserError::IncorrectLogin.message(), "Incorrect username and password\n");
    assert_eq!(
        RegisterUserError::InviteCode.message(),
        "Your invite code is invalid or has already been used\n"
    );
    assert_eq!(
        RegisterUserError::Unknown.message(),
        "An unknown error has occurred, please try again\n"
    );
}

#[test]
fn permanent_redirects() {
    assert_eq!(permanent_redirect("/robots.txt").unwrap(), "/assets/robots.txt");
    match permanent_redirect("/other") {
        Err(WebError::InternalServerError(m)) => assert_eq!(m, "unimplemented permanent_redirects branch"),
        _ => panic!("expected an internal server error"),
    }
}

#[test]
fn jwt_claims_expire_after_fifteen_minutes() {
    let c = JwtClaims::issued_at(3, 1_000_000);
    assert_eq!((c.sub, c.iat, c.exp), (3, 1_000_000, 1_000_900));
    assert_eq!(JWT_EXPIRY_SECONDS, 900);
    let now = JwtClaims::issued_now(4);
    assert_eq!(now.sub, 4);
    assert_eq!(now.exp - now.iat, 900);
    assert!(now.iat > 1_600_000_000);
}

#[test]
fn jwt_check_outcomes_give_verdicts() {
    let claims = JwtClaims::issued_at(9, 1_000);
    assert!(matches!(jwt_verdict(Ok(claims)), JwtVerdict::Valid { user_id: 9 }));
    assert!(matches!(jwt_verdict(Err(JwtCheckError::ExpiredSignature)), JwtVerdict::Expired));
    assert!(matches!(jwt_verdict(Err(JwtCheckError::Other)), JwtVerdict::Invalid));
}
