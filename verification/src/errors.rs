//! The errors that the operations of this crate report.
use vstd::prelude::*;

verus! {

/// Why an authentication operation failed.
///
/// The variants are deliberately coarse: an unknown account and a wrong
/// secret give the same error.
#[derive(PartialEq, Eq, Debug, Clone, Copy, Structural)]
pub enum AuthError {
    /// Wrong credentials or unknown account.
    LoginError,
    /// A registration could not be completed.
    RegistrationError,
    /// A reset token could not be issued, checked or used.
    ResetError,
    /// The e-mail address is not well formed.
    InvalidEmail,
    /// The password does not meet the length policy.
    InvalidPassword,
    /// The e-mail address already belongs to an account.
    EmailUsed,
    /// The reset token is older than its validity.
    ExpiredToken,
    /// The reset token is not the one that was issued.
    TokenMismatch,
}

impl AuthError {
    /// The text shown to the user for this error.
    pub open spec fn message_text(self) -> Seq<char> {
        match self {
            AuthError::LoginError => "Your login details are incorrect."@,
            AuthError::RegistrationError => "Something went wrong during registration."@,
            AuthError::ResetError => "Something went wrong during password reset."@,
            AuthError::InvalidEmail => "The e-mail address you entered is invalid."@,
            AuthError::InvalidPassword =>
                "Your password must be between 8 and 64 characters long."@,
            AuthError::EmailUsed => "This e-mail address is already used for another account."@,
            AuthError::ExpiredToken => "Reset token is expired."@,
            AuthError::TokenMismatch => "You've entered an ivalid token."@,
        }
    }

    /// The text shown to the user for this error, as a static string.
    pub fn description(&self) -> (text: &'static str)
        ensures
            text@ == self.message_text(),
    {
        match self {
            AuthError::LoginError => "Your login details are incorrect.",
            AuthError::RegistrationError => "Something went wrong during registration.",
            AuthError::ResetError => "Something went wrong during password reset.",
            AuthError::InvalidEmail => "The e-mail address you entered is invalid.",
            AuthError::InvalidPassword => "Your password must be between 8 and 64 characters long.",
            AuthError::EmailUsed => "This e-mail address is already used for another account.",
            AuthError::ExpiredToken => "Reset token is expired.",
            AuthError::TokenMismatch => "You've entered an ivalid token.",
        }
    }

    /// The text shown to the user for this error, as an owned string.
    pub fn message(&self) -> (text: String)
        ensures
            text@ == self.message_text(),
    {
        self.description().to_owned()
    }
}

/// Why a user store could not do what it was asked.
#[derive(PartialEq, Eq, Debug, Clone, Copy, Structural)]
pub enum UserDBError {
    /// A new user could not be stored.
    CreateUserError,
    /// An existing user could not be changed.
    UpdateUserError,
    /// A user could not be fetched.
    GetUserError,
}

impl UserDBError {
    /// The text shown for this error.
    pub open spec fn message_text(self) -> Seq<char> {
        match self {
            UserDBError::CreateUserError => "Unable to create the user."@,
            UserDBError::UpdateUserError => "Unable to update the user."@,
            UserDBError::GetUserError => "Unable to get the user."@,
        }
    }

    /// The text shown for this error, as a static string.
    pub fn description(&self) -> (text: &'static str)
        ensures
            text@ == self.message_text(),
    {
        match self {
            UserDBError::CreateUserError => "Unable to create the user.",
            UserDBError::UpdateUserError => "Unable to update the user.",
            UserDBError::GetUserError => "Unable to get the user.",
        }
    }

    /// The text shown for this error, as an owned string.
    pub fn message(&self) -> (text: String)
        ensures
            text@ == self.message_text(),
    {
        self.description().to_owned()
    }
}

} // verus!
