use nbsp::forms::AccountRegisterForm;
use nbsp::model::{
    Invite, Post, User, UserInviteSettings, MARKDOWN_MAX_LENGTH, PASSWORD_MAX_LENGTH, TITLE_MAX_LENGTH,
    USERNAME_MAX_LENGTH, USERNAME_MIN_LENGTH,
};

#[test]
fn test_user_validate_username() {
    let username = "B";
    assert!(
        !User::validate_username(username),
        "username too short: {username}"
    );

    let username = format!("1{}", "A".repeat(USERNAME_MAX_LENGTH));
    assert!(
        !User::validate_username(&username),
        "username too long: {username}"
    );

    let username = "A".repeat(USERNAME_MIN_LENGTH);
    assert!(
        User::validate_username(&username),
        "username ok min length: {username}"
    );

    let username = "A".repeat(USERNAME_MAX_LENGTH);
    assert!(
        User::validate_username(&username),
        "username ok max length: {username}"
    );

    let username = "_nbsp";
    assert!(
        !User::validate_username(username),
        "username starts with underscore: {username}"
    );

    let username = "nbsp_";
    assert!(
        !User::validate_username(username),
        "username ends with underscore: {username}"
    );

    let username = "n_b_s_p";
    assert!(
        User::validate_username(username),
        "username ok with underscores: {username}"
    );
}

#[test]
fn test_user_validate_password() {
    let password = "B";
    assert!(
        !User::validate_password(password),
        "password too short: {password}"
    );

    let password = format!("1_a{}", "A".repeat(PASSWORD_MAX_LENGTH));
    assert!(
        !User::validate_password(&password),
        "password too long: {password}"
    );

    let password = "1234567_aA";
    assert!(
        User::validate_password(password),
        "password ok min length: {password}"
    );

    let password = "1234567_aA".repeat(20);
    assert!(
        User::validate_password(&password),
        "password ok max length: {password}"
    );

    let password = "123456789_A";
    assert!(
        !User::validate_password(password),
        "password missing lowercase: {password}"
    );

    let password = "123456789a_";
    assert!(
        !User::validate_password(password),
        "password missing uppercase: {password}"
    );

    let password = "abcdefghi_aA";
    assert!(
        !User::validate_password(password),
        "password missing number: {password}"
    );

    let password = "123456789aA";
    assert!(
        !User::validate_password(password),
        "password missing other character: {password}"
    );
}

#[test]
fn username_rejects_other_characters() {
    assert!(!User::validate_username("ab-cd"));
    assert!(!User::validate_username("ab cd"));
    assert!(!User::validate_username("abc\n"));
    assert!(!User::validate_username("ab"));
    assert!(User::validate_username("a_c"));
    // Non-ASCII letters are not in the allowed classes.
    assert!(!User::validate_username("aéb"));
}

#[test]
fn password_other_character_may_be_non_ascii() {
    assert!(User::validate_password("abcdefgh1A€"));
    assert!(!User::validate_password("abcdefgh1AB"));
}

#[test]
fn title_and_markdown_lengths_are_in_characters() {
    assert!(!Post::validate_title(""));
    assert!(Post::validate_title("a"));
    assert!(Post::validate_title(&"a".repeat(TITLE_MAX_LENGTH)));
    assert!(!Post::validate_title(&"a".repeat(TITLE_MAX_LENGTH + 1)));
    // Two-byte characters count once each.
    assert!(Post::validate_title(&"é".repeat(101)));
    assert!(Post::validate_title(&"é".repeat(TITLE_MAX_LENGTH)));
    assert!(!Post::validate_title(&"é".repeat(TITLE_MAX_LENGTH + 1)));

    assert!(!Post::validate_markdown(""));
    assert!(Post::validate_markdown("x"));
    assert!(Post::validate_markdown(&"x".repeat(MARKDOWN_MAX_LENGTH)));
    assert!(!Post::validate_markdown(&"x".repeat(MARKDOWN_MAX_LENGTH + 1)));
    assert!(Post::validate_markdown(&"é".repeat(5001)));
    assert!(Post::validate_markdown(&"é".repeat(MARKDOWN_MAX_LENGTH)));
    assert!(!Post::validate_markdown(&"é".repeat(MARKDOWN_MAX_LENGTH + 1)));
}

#[test]
fn password_length_is_in_characters() {
    // Nine characters (fourteen bytes) are too few.
    assert!(!User::validate_password("ééééé1aA_"));
    assert!(User::validate_password("éééééé1aA_"));
    assert!(User::validate_password(&format!("1aA{}", "é".repeat(197))));
    assert!(!User::validate_password(&format!("1aA{}", "é".repeat(198))));
}

#[test]
fn invite_codes_are_uuids() {
    assert!(Invite::validate_invite("67e55044-10b1-426f-9247-bb680e5fe0c8"));
    assert!(Invite::validate_invite("67e5504410b1426f9247bb680e5fe0c8"));
    assert!(!Invite::validate_invite("not-an-invite"));
    assert!(!Invite::validate_invite(""));
}

fn register_form(username: &str, password: &str, confirm: &str, invite: &str) -> AccountRegisterForm {
    AccountRegisterForm {
        username: username.to_string(),
        password: password.to_string(),
        confirm_password: confirm.to_string(),
        invite: invite.to_string(),
    }
}

#[test]
fn register_form_validation() {
    let invite = "67e55044-10b1-426f-9247-bb680e5fe0c8";
    assert!(register_form("bear", "Password@123", "Password@123", invite).validate());
    assert!(!register_form("bear", "Password@123", "Password@124", invite).validate());
    assert!(!register_form("_bear", "Password@123", "Password@123", invite).validate());
    assert!(!register_form("bear", "password@123", "password@123", invite).validate());
    assert!(!register_form("bear", "Password@123", "Password@123", "nope").validate());
}

#[test]
fn creating_an_invite_uses_up_one_of_the_count() {
    let settings = UserInviteSettings { setting_id: 1, user_id: 7, available_invite_count: 2 };
    let next = settings.after_creating_invite().unwrap();
    assert_eq!((next.setting_id, next.user_id, next.available_invite_count), (1, 7, 1));
    let last = next.after_creating_invite().unwrap();
    assert_eq!(last.available_invite_count, 0);
    assert!(last.after_creating_invite().is_none());
    let negative = UserInviteSettings { setting_id: 1, user_id: 7, available_invite_count: -3 };
    assert!(negative.after_creating_invite().is_none());
}
