//! Errors shown to users as feedback on their forms, and the errors of request handling.
use vstd::prelude::*;
use vstd::string::StringExecFns;

use crate::model::{MARKDOWN_MAX_LENGTH, MARKDOWN_MIN_LENGTH, TITLE_MAX_LENGTH, TITLE_MIN_LENGTH};
use crate::text::{decimal, push_decimal};

verus! {

/// Errors that can happen when a user is registering an account, to be used as a feedback message
#[derive(Debug, PartialEq, Eq, Structural)]
pub enum RegisterUserError {
    /// An invalid invite code, can be an unknown code, already consumed, etc.
    InviteCode,
    /// Invalid form data was submitted, such as username that does not match the required format...
    InvalidForm,
    /// The requested username has already been taken
    ExistingUsername,
    /// Unknown error
    Unknown,
}

/// Errors that can happen when a user is logging into an account, to be used as a feedback message
#[derive(Debug, PartialEq, Eq, Structural)]
pub enum LoginUserError {
    /// Combination of username and password do not match
    IncorrectLogin,
}

/// Errors that can happen when a user creates a new post
#[derive(Debug, PartialEq, Eq, Structural)]
pub enum PostNewError {
    /// Title is too short or too long
    TitleLength,
    /// Markdown is too short or too long
    MarkdownLength,
}

/// All possible errors nbsp can encounter during HTTP requests
#[derive(Debug)]
pub enum WebError {
    /// HTML rendering error, with its description
    Askama(String),
    /// Any custom internal server error
    InternalServerError(String),
}

/// The feedback message for a registration error, one line.
pub open spec fn register_message(e: RegisterUserError) -> Seq<char> {
    match e {
        RegisterUserError::InviteCode => "Your invite code is invalid or has already been used\n"@,
        RegisterUserError::InvalidForm => "Your submitted data does not match the format requirements\n"@,
        RegisterUserError::ExistingUsername => "Your requested username is already in use\n"@,
        RegisterUserError::Unknown => "An unknown error has occurred, please try again\n"@,
    }
}

/// The feedback message for a login error, one line.
pub open spec fn login_message(e: LoginUserError) -> Seq<char> {
    match e {
        LoginUserError::IncorrectLogin => "Incorrect username and password\n"@,
    }
}

/// The feedback message for a post creation error, one line, with the allowed lengths.
pub open spec fn post_new_message(e: PostNewError) -> Seq<char> {
    match e {
        PostNewError::TitleLength => "The title must be at least "@ + decimal(TITLE_MIN_LENGTH as nat)
            + " and at most "@ + decimal(TITLE_MAX_LENGTH as nat) + " characters long\n"@,
        PostNewError::MarkdownLength => "The Markdown body must be at least "@ + decimal(
            MARKDOWN_MIN_LENGTH as nat,
        ) + " and at most "@ + decimal(MARKDOWN_MAX_LENGTH as nat) + " characters long\n"@,
    }
}

impl RegisterUserError {
    /// The feedback message shown to the user
    pub fn message(&self) -> (m: String)
        ensures
            m@ == register_message(*self),
    {
        match self {
            RegisterUserError::InviteCode => "Your invite code is invalid or has already been used\n".to_owned(),
            RegisterUserError::InvalidForm => "Your submitted data does not match the format requirements\n".to_owned(),
            RegisterUserError::ExistingUsername => "Your requested username is already in use\n".to_owned(),
            RegisterUserError::Unknown => "An unknown error has occurred, please try again\n".to_owned(),
        }
    }
}

impl LoginUserError {
    /// The feedback message shown to the user
    pub fn message(&self) -> (m: String)
        ensures
            m@ == login_message(*self),
    {
        match self {
            LoginUserError::IncorrectLogin => "Incorrect username and password\n".to_owned(),
        }
    }
}

impl PostNewError {
    /// The feedback message shown to the user
    pub fn message(&self) -> (m: String)
        ensures
            m@ == post_new_message(*self),
    {
        let (subject, min, max) = match self {
            PostNewError::TitleLength => ("The title must be at least ", TITLE_MIN_LENGTH, TITLE_MAX_LENGTH),
            PostNewError::MarkdownLength => (
                "The Markdown body must be at least ",
                MARKDOWN_MIN_LENGTH,
                MARKDOWN_MAX_LENGTH,
            ),
        };
        let mut m = subject.to_owned();
        push_decimal(&mut m, min as u64);
        m.append(" and at most ");
        push_decimal(&mut m, max as u64);
        m.append(" characters long\n");
        m
    }
}

} // verus!
