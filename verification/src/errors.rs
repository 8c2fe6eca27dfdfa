//! The error taxonomy of the authentication core, and the user-facing
//! wording for each category.
//!
//! The wording deliberately stays at the category level: a failed login is
//! always "invalid username or password", whether the username was unknown
//! or the password wrong, so a caller cannot enumerate accounts from the
//! messages.  No variant carries internal state.

use vstd::prelude::*;

verus! {

/// Everything that can go wrong while handling a login, signup or logout
/// request.
#[derive(Clone, Copy, Debug, PartialEq, Eq, Structural)]
pub enum AuthError {
    /// The CSRF cookie and the submitted form token differ, or one of them
    /// is missing.
    CsrfMismatch,
    /// Unknown username or wrong password, merged into one variant on
    /// purpose.
    InvalidCredentials,
    /// The requested username already belongs to a record in the store.
    UsernameTaken,
    /// The two email fields of a registration differ.
    EmailMismatch,
    /// The two password fields of a registration differ.
    PasswordMismatch,
    /// A field is shorter or longer than the server-side policy allows.
    FieldLengthViolation,
    /// The store cannot serve the request; not recoverable within the
    /// request.
    StoreUnavailable,
}

/// The wording shown to the user for each error category.
pub open spec fn spec_user_message(e: AuthError) -> Seq<char> {
    match e {
        AuthError::CsrfMismatch => "request could not be verified, please reload the form and try again"@,
        AuthError::InvalidCredentials => "invalid username or password"@,
        AuthError::UsernameTaken => "username is not available"@,
        AuthError::EmailMismatch => "email addresses do not match"@,
        AuthError::PasswordMismatch => "passwords do not match"@,
        AuthError::FieldLengthViolation => "a field is too short or too long"@,
        AuthError::StoreUnavailable => "service unavailable, please try again later"@,
    }
}

impl AuthError {
    /// The plain string rendered back to the form for this error.
    pub fn user_message(&self) -> (m: &'static str)
        ensures
            m@ == spec_user_message(*self),
    {
        match self {
            AuthError::CsrfMismatch => "request could not be verified, please reload the form and try again",
            AuthError::InvalidCredentials => "invalid username or password",
            AuthError::UsernameTaken => "username is not available",
            AuthError::EmailMismatch => "email addresses do not match",
            AuthError::PasswordMismatch => "passwords do not match",
            AuthError::FieldLengthViolation => "a field is too short or too long",
            AuthError::StoreUnavailable => "service unavailable, please try again later",
        }
    }
}

} // verus!
