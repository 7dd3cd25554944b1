//! Regular-expression checks on text, through the `regex` crate.
use vstd::prelude::*;

verus! {

/// The shape a username must have: `^[a-zA-Z0-9][a-zA-Z0-9_]+[a-zA-Z0-9]$`.
pub const USERNAME_PATTERN: &'static str = "^[a-zA-Z0-9][a-zA-Z0-9_]+[a-zA-Z0-9]$";

/// A lowercase ASCII letter somewhere in the text.
pub const LOWERCASE_PATTERN: &'static str = "[a-z]";

/// An uppercase ASCII letter somewhere in the text.
pub const UPPERCASE_PATTERN: &'static str = "[A-Z]";

/// An ASCII digit somewhere in the text.
pub const DIGIT_PATTERN: &'static str = "[0-9]";

/// A character that is neither an ASCII letter nor an ASCII digit somewhere in the text.
pub const OTHER_CHAR_PATTERN: &'static str = "[^a-zA-Z0-9]";

pub open spec fn is_ascii_lowercase(c: char) -> bool {
    'a' <= c && c <= 'z'
}

pub open spec fn is_ascii_uppercase(c: char) -> bool {
    'A' <= c && c <= 'Z'
}

pub open spec fn is_ascii_digit(c: char) -> bool {
    '0' <= c && c <= '9'
}

pub open spec fn is_ascii_alphanumeric(c: char) -> bool {
    is_ascii_lowercase(c) || is_ascii_uppercase(c) || is_ascii_digit(c)
}

/// Some character of `s` satisfies the class `class`.
pub open spec fn has_char_where(s: Seq<char>, class: spec_fn(char) -> bool) -> bool {
    exists|i: int| 0 <= i < s.len() && #[trigger] class(s[i])
}

/// `s` has the shape of [`USERNAME_PATTERN`]: at least three characters, ASCII letters, digits
/// and underscores only, and neither starting nor ending with an underscore.
pub open spec fn username_shape(s: Seq<char>) -> bool {
    &&& s.len() >= 3
    &&& is_ascii_alphanumeric(s[0])
    &&& is_ascii_alphanumeric(s[s.len() - 1])
    &&& forall|i: int| 0 < i < s.len() - 1 ==> is_ascii_alphanumeric(#[trigger] s[i]) || s[i] == '_'
}

/// What `regex::Regex::new(pattern)` followed by `Regex::is_match(haystack)` gives: `None`
/// when the pattern does not compile, else whether the pattern matches somewhere in the text.
pub uninterp spec fn regex_match(pattern: Seq<char>, haystack: Seq<char>) -> Option<bool>;

/// Compiles `pattern` with `regex::Regex::new` and runs `Regex::is_match` on `haystack`.
///
/// Trusted: the result is `regex_match` of the two strings; for the five patterns of this
/// module, the regex syntax documentation gives the meaning stated below (a character class
/// `[..]` matches one character of its ranges, `[^..]` one character outside them, `+` one or
/// more repetitions, `^` and `$` the start and end of the whole text).
#[verifier::external_body]
pub(crate) fn regex_is_match(pattern: &str, haystack: &str) -> (r: Option<bool>)
    ensures
        r == regex_match(pattern@, haystack@),
        pattern@ == USERNAME_PATTERN@ ==> r == Some(username_shape(haystack@)),
        pattern@ == LOWERCASE_PATTERN@ ==> r == Some(
            has_char_where(haystack@, |c: char| is_ascii_lowercase(c)),
        ),
        pattern@ == UPPERCASE_PATTERN@ ==> r == Some(
            has_char_where(haystack@, |c: char| is_ascii_uppercase(c)),
        ),
        pattern@ == DIGIT_PATTERN@ ==> r == Some(
            has_char_where(haystack@, |c: char| is_ascii_digit(c)),
        ),
        pattern@ == OTHER_CHAR_PATTERN@ ==> r == Some(
            has_char_where(haystack@, |c: char| !is_ascii_alphanumeric(c)),
        ),
{
    match regex::Regex::new(pattern) {
        Ok(re) => Some(re.is_match(haystack)),
        Err(_) => None,
    }
}

/// Whether `haystack` matches one of this module's patterns.
pub(crate) fn matches_pattern(pattern: &str, haystack: &str) -> (b: bool)
    requires
        pattern@ == USERNAME_PATTERN@ || pattern@ == LOWERCASE_PATTERN@
            || pattern@ == UPPERCASE_PATTERN@ || pattern@ == DIGIT_PATTERN@
            || pattern@ == OTHER_CHAR_PATTERN@,
    ensures
        Some(b) == regex_match(pattern@, haystack@),
        pattern@ == USERNAME_PATTERN@ ==> b == username_shape(haystack@),
        pattern@ == LOWERCASE_PATTERN@ ==> b == has_char_where(haystack@, |c: char| is_ascii_lowercase(c)),
        pattern@ == UPPERCASE_PATTERN@ ==> b == has_char_where(haystack@, |c: char| is_ascii_uppercase(c)),
        pattern@ == DIGIT_PATTERN@ ==> b == has_char_where(haystack@, |c: char| is_ascii_digit(c)),
        pattern@ == OTHER_CHAR_PATTERN@ ==> b == has_char_where(haystack@, |c: char| !is_ascii_alphanumeric(c)),
{
    match regex_is_match(pattern, haystack) {
        Some(b) => b,
        None => false,
    }
}

} // verus!
