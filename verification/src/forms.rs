//! The query parameters and forms that the account and post pages accept.
use vstd::prelude::*;

use crate::model::{valid_invite, valid_password, valid_username, Invite, User};

verus! {

/// Query parameters for `GET /account/register`
pub struct AccountRegisterQueryParams {
    /// An optional invite code to prefill in the account registration form
    pub invite: Option<String>,
}

/// Expected input form for `POST /account/register`
pub struct AccountRegisterForm {
    /// Value of the username form input
    pub username: String,
    /// Value of the password form input
    pub password: String,
    /// Value of the confirm_password form input
    pub confirm_password: String,
    /// Value of the invite form input
    pub invite: String,
}

/// A registration form is valid: both passwords agree, and the username, password and invite
/// code have the required formats.
pub open spec fn valid_register_form(form: AccountRegisterForm) -> bool {
    &&& form.password@ == form.confirm_password@
    &&& valid_username(form.username@)
    &&& valid_password(form.password@)
    &&& valid_invite(form.invite@)
}

impl AccountRegisterForm {
    /// Validate an account registration form input matches all the expected formats
    pub fn validate(&self) -> (ok: bool)
        ensures
            ok == valid_register_form(*self),
    {
        self.password == self.confirm_password && User::validate_username(self.username.as_str())
            && User::validate_password(self.password.as_str()) && Invite::validate_invite(
            self.invite.as_str(),
        )
    }
}

/// Query parameters for `/account/login`
pub struct AccountLoginQueryParams {
    /// An optional URL to redirect back to after the login is done
    pub redirect: Option<String>,
}

/// Expected input form for `POST /account/login`
pub struct AccountLoginForm {
    /// Value of the username form input
    pub username: String,
    /// Value of the password form input
    pub password: String,
}

/// Expected input form for `POST /post/new`
pub struct PostNewForm {
    /// The post's title
    pub title: String,
    /// The post's Markdown body
    pub markdown: String,
}

} // verus!
