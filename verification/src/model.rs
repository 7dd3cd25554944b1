//! The records nbsp keeps (users, posts, invites, refresh tokens, invite settings) and the
//! format rules their user-supplied fields must follow.
//!
//! Timestamps are microseconds since the Unix epoch, in UTC.
use vstd::prelude::*;
use vstd::string::StrSliceExecFns;

use crate::ids::{parse_uuid, uuid_parse};
use crate::patterns::{
    has_char_where, is_ascii_alphanumeric, is_ascii_digit, is_ascii_lowercase, is_ascii_uppercase,
    matches_pattern, username_shape, DIGIT_PATTERN, LOWERCASE_PATTERN, OTHER_CHAR_PATTERN,
    UPPERCASE_PATTERN, USERNAME_PATTERN,
};

verus! {

/// A nbsp user account.
#[derive(Clone)]
pub struct User {
    /// The ID of the user (primary key)
    pub user_id: i64,
    /// The name of the user (unique)
    pub username: String,
    /// When the user account was created
    pub created_at: i64,
    /// The hashed password of the user
    ///
    /// If this is `None` then the user must not be allowed to be logged in as
    pub password_hash: Option<String>,
}

/// A post on nbsp.
pub struct Post {
    /// The ID of the post (primary key)
    pub post_id: i64,
    /// The ID of the user that created the post (foreign key)
    pub creator_user_id: i64,
    /// When the post was created
    pub created_at: i64,
    /// The plaintext title of the post
    pub title: String,
    /// The Markdown source of the post body
    pub markdown_source: String,
    /// The rendered HTML of the post body
    pub html_rendered: String,
}

/// A minimal representation of [`Post`] that only contains the necessary information to show
/// posts in a list.
pub struct PostListItem {
    /// The ID of the post (primary key)
    pub post_id: i64,
    /// The username of the creator of the post
    pub creator_username: String,
    /// When the post was created
    pub created_at: i64,
    /// The plaintext title of the post
    pub title: String,
}

/// An invite to create a nbsp account with.
pub struct Invite {
    /// The ID of the invite (primary key)
    pub invite_id: i64,
    /// The actual invite code to use during account registration
    pub invite_code: u128,
    /// The ID of creator of the invite code
    pub user_creator_id: i64,
    /// When the invite was created
    pub created_at: i64,
    /// The ID of the user that used the code to create their account
    ///
    /// When this is `Some()` the invite code must not be able to be used again
    pub user_consumer_id: Option<i64>,
    /// When the invite was consumed
    ///
    /// When this is `Some()` the invite code must not be able to be used again
    pub consumed_at: Option<i64>,
}

/// A refresh token to automatically refresh JWT authentication with.
pub struct RefreshToken {
    /// The ID of the refresh token (primary key)
    pub token_id: i64,
    /// The ID of the [`User`] the refresh token belongs to
    pub user_id: i64,
    /// The actual contents of the refresh token that will be in the refresh cookie
    pub refresh_token: u128,
    /// When the refresh token was created
    pub created_at: i64,
    /// When the refresh token was last used
    pub last_used_at: i64,
}

/// The user's invite settings.
pub struct UserInviteSettings {
    /// The ID of the user invite setting (primary key)
    pub setting_id: i64,
    /// The ID of the user (foreign key)
    pub user_id: i64,
    /// How many invite codes the user has available to create (defaults to 0)
    pub available_invite_count: i64,
}

/// A username is at least this many characters long.
pub const USERNAME_MIN_LENGTH: usize = 3;
/// A username is at most this many characters long.
pub const USERNAME_MAX_LENGTH: usize = 40;
/// A password is at least this many characters long.
pub const PASSWORD_MIN_LENGTH: usize = 10;
/// A password is at most this many characters long.
pub const PASSWORD_MAX_LENGTH: usize = 200;
/// A post title is at least this many characters long.
pub const TITLE_MIN_LENGTH: usize = 1;
/// A post title is at most this many characters long.
pub const TITLE_MAX_LENGTH: usize = 200;
/// A post's Markdown body is at least this many characters long.
pub const MARKDOWN_MIN_LENGTH: usize = 1;
/// A post's Markdown body is at most this many characters long.
pub const MARKDOWN_MAX_LENGTH: usize = 10_000;

/// A valid username: 3 to 40 characters, and of the shape of [`USERNAME_PATTERN`].
pub open spec fn valid_username(s: Seq<char>) -> bool {
    &&& USERNAME_MIN_LENGTH <= s.len() <= USERNAME_MAX_LENGTH
    &&& username_shape(s)
}

/// A valid password: 10 to 200 characters, with a lowercase letter, an uppercase letter, a digit and a
/// character that is none of these.
pub open spec fn valid_password(s: Seq<char>) -> bool {
    &&& PASSWORD_MIN_LENGTH <= s.len() <= PASSWORD_MAX_LENGTH
    &&& has_char_where(s, |c: char| is_ascii_lowercase(c))
    &&& has_char_where(s, |c: char| is_ascii_uppercase(c))
    &&& has_char_where(s, |c: char| is_ascii_digit(c))
    &&& has_char_where(s, |c: char| !is_ascii_alphanumeric(c))
}

/// A valid post title: 1 to 200 characters.
pub open spec fn valid_title(s: Seq<char>) -> bool {
    TITLE_MIN_LENGTH <= s.len() <= TITLE_MAX_LENGTH
}

/// A valid post body: 1 to 10,000 characters of Markdown.
pub open spec fn valid_markdown(s: Seq<char>) -> bool {
    MARKDOWN_MIN_LENGTH <= s.len() <= MARKDOWN_MAX_LENGTH
}

/// A valid invite code: a text `uuid::Uuid::try_parse` accepts.
pub open spec fn valid_invite(s: Seq<char>) -> bool {
    uuid_parse(s) is Some
}

/// The number of characters (Unicode scalar values) of a text.
fn char_count(s: &str) -> (n: usize)
    ensures
        n == s@.len(),
{
    s.unicode_len()
}

impl User {
    /// Validate a given username matches the expected format
    pub fn validate_username(username: &str) -> (ok: bool)
        ensures
            ok == valid_username(username@),
    {
        let len = char_count(username);
        USERNAME_MIN_LENGTH <= len && len <= USERNAME_MAX_LENGTH && matches_pattern(
            USERNAME_PATTERN,
            username,
        )
    }

    /// Validate a given password matches the expected format
    pub fn validate_password(password: &str) -> (ok: bool)
        ensures
            ok == valid_password(password@),
    {
        let len = char_count(password);
        PASSWORD_MIN_LENGTH <= len && len <= PASSWORD_MAX_LENGTH && matches_pattern(
            LOWERCASE_PATTERN,
            password,
        ) && matches_pattern(UPPERCASE_PATTERN, password) && matches_pattern(
            DIGIT_PATTERN,
            password,
        ) && matches_pattern(OTHER_CHAR_PATTERN, password)
    }
}

impl Post {
    /// Validate a given title matches the expected format
    pub fn validate_title(title: &str) -> (ok: bool)
        ensures
            ok == valid_title(title@),
    {
        let len = char_count(title);
        TITLE_MIN_LENGTH <= len && len <= TITLE_MAX_LENGTH
    }

    /// Validate a given Markdown body matches the expected format
    pub fn validate_markdown(markdown: &str) -> (ok: bool)
        ensures
            ok == valid_markdown(markdown@),
    {
        let len = char_count(markdown);
        MARKDOWN_MIN_LENGTH <= len && len <= MARKDOWN_MAX_LENGTH
    }
}

impl Invite {
    /// Validate a given invite code matches the expected format
    pub fn validate_invite(invite: &str) -> (ok: bool)
        ensures
            ok == valid_invite(invite@),
    {
        parse_uuid(invite).is_some()
    }
}

impl UserInviteSettings {
    /// The settings after the user creates one invite code: one fewer available. `None` when the
    /// user has no invite code left to create, in which case no invite code may be created.
    pub fn after_creating_invite(&self) -> (r: Option<UserInviteSettings>)
        ensures
            r is Some <==> self.available_invite_count > 0,
            r matches Some(next) ==> {
                &&& next.setting_id == self.setting_id
                &&& next.user_id == self.user_id
                &&& next.available_invite_count == self.available_invite_count - 1
            },
    {
        if self.available_invite_count > 0 {
            Some(
                UserInviteSettings {
                    setting_id: self.setting_id,
                    user_id: self.user_id,
                    available_invite_count: self.available_invite_count - 1,
                },
            )
        } else {
            None
        }
    }
}

/// The format rules, with their limits in characters: a username has 3 to 40 characters of the
/// username shape, a password 10 to 200 characters with a lowercase letter, an uppercase letter, a
/// digit and some other character, a post title 1 to 200 characters, and a post body 1 to 10,000
/// characters.
pub proof fn format_rules(s: Seq<char>)
    ensures
        valid_username(s) <==> 3 <= s.len() <= 40 && username_shape(s),
        valid_password(s) <==> {
            &&& 10 <= s.len() <= 200
            &&& exists|i: int| 0 <= i < s.len() && 'a' <= #[trigger] s[i] <= 'z'
            &&& exists|i: int| 0 <= i < s.len() && 'A' <= #[trigger] s[i] <= 'Z'
            &&& exists|i: int| 0 <= i < s.len() && '0' <= #[trigger] s[i] <= '9'
            &&& exists|i: int|
                0 <= i < s.len() && !('a' <= #[trigger] s[i] <= 'z' || 'A' <= s[i] <= 'Z' || '0' <= s[i] <= '9')
        },
        valid_title(s) <==> 1 <= s.len() <= 200,
        valid_markdown(s) <==> 1 <= s.len() <= 10_000,
{
    if has_char_where(s, |c: char| is_ascii_lowercase(c)) {
        let i = choose|i: int| 0 <= i < s.len() && (|c: char| is_ascii_lowercase(c))(#[trigger] s[i]);
        assert('a' <= s[i] <= 'z');
    }
    if exists|i: int| 0 <= i < s.len() && 'a' <= #[trigger] s[i] <= 'z' {
        let i = choose|i: int| 0 <= i < s.len() && 'a' <= #[trigger] s[i] <= 'z';
        assert((|c: char| is_ascii_lowercase(c))(s[i]));
    }
    if has_char_where(s, |c: char| is_ascii_uppercase(c)) {
        let i = choose|i: int| 0 <= i < s.len() && (|c: char| is_ascii_uppercase(c))(#[trigger] s[i]);
        assert('A' <= s[i] <= 'Z');
    }
    if exists|i: int| 0 <= i < s.len() && 'A' <= #[trigger] s[i] <= 'Z' {
        let i = choose|i: int| 0 <= i < s.len() && 'A' <= #[trigger] s[i] <= 'Z';
        assert((|c: char| is_ascii_uppercase(c))(s[i]));
    }
    if has_char_where(s, |c: char| is_ascii_digit(c)) {
        let i = choose|i: int| 0 <= i < s.len() && (|c: char| is_ascii_digit(c))(#[trigger] s[i]);
        assert('0' <= s[i] <= '9');
    }
    if exists|i: int| 0 <= i < s.len() && '0' <= #[trigger] s[i] <= '9' {
        let i = choose|i: int| 0 <= i < s.len() && '0' <= #[trigger] s[i] <= '9';
        assert((|c: char| is_ascii_digit(c))(s[i]));
    }
    if has_char_where(s, |c: char| !is_ascii_alphanumeric(c)) {
        let i = choose|i: int| 0 <= i < s.len() && (|c: char| !is_ascii_alphanumeric(c))(#[trigger] s[i]);
        assert(!('a' <= s[i] <= 'z' || 'A' <= s[i] <= 'Z' || '0' <= s[i] <= '9'));
    }
    if exists|i: int|
        0 <= i < s.len() && !('a' <= #[trigger] s[i] <= 'z' || 'A' <= s[i] <= 'Z' || '0' <= s[i] <= '9') {
        let i = choose|i: int|
            0 <= i < s.len() && !('a' <= #[trigger] s[i] <= 'z' || 'A' <= s[i] <= 'Z' || '0' <= s[i] <= '9');
        assert((|c: char| !is_ascii_alphanumeric(c))(s[i]));
    }
}

} // verus!
