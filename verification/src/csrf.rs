//! The double-submit-cookie CSRF guard.
//!
//! When a form-bearing page is served, one fresh token is placed both in a
//! cookie and in a hidden form field.  A forged cross-origin request cannot
//! read or set the cookie, so on submission the guard only has to compare
//! the two copies: if either is absent or they differ, the request is
//! rejected before any credential or store work happens.  The token is not
//! bound to a user or session; it only proves that the submitter could read
//! the issuing page's cookies.

use vstd::prelude::*;

use crate::compare::constant_time_str_eq;
use crate::defs::TOKEN_LEN;
use crate::errors::AuthError;
use crate::token::generate_session_token;
use crate::token::is_b64url_char;

verus! {

/// The double-submit check: the cookie must be present and carry exactly
/// the characters of the submitted form field.
pub open spec fn csrf_ok(cookie: Option<String>, form: Seq<char>) -> bool {
    match cookie {
        Some(c) => c@ == form,
        None => false,
    }
}

/// A fresh CSRF token, ready to be sent once as a cookie and once as a
/// hidden form field of the same page.
pub struct CsrfIssue {
    /// Value for the CSRF cookie.
    pub cookie_value: String,
    /// Value for the hidden form field.
    pub form_value: String,
}

/// Mints one token for a page render and mirrors it into both places the
/// double-submit pattern needs.  A pair issued here always passes
/// `check_csrf`.
pub fn issue_csrf() -> (p: CsrfIssue)
    ensures
        p.cookie_value@ == p.form_value@,
        csrf_ok(Some(p.cookie_value), p.form_value@),
        p.form_value@.len() == TOKEN_LEN,
        forall|i: int| 0 <= i < p.form_value@.len() ==> is_b64url_char(#[trigger] p.form_value@[i]),
{
    let form_value = generate_session_token();
    let cookie_value = form_value.clone();
    CsrfIssue { cookie_value, form_value }
}

/// Rejects a state-changing submission whose cookie token is absent or
/// differs from the form token.  Succeeds exactly on matching pairs; every
/// rejection is `CsrfMismatch`, whatever else the request carries.
pub fn check_csrf(cookie: &Option<String>, form: &str) -> (r: Result<(), AuthError>)
    ensures
        r is Ok <==> csrf_ok(*cookie, form@),
        !csrf_ok(*cookie, form@) ==> r == Result::<(), AuthError>::Err(AuthError::CsrfMismatch),
{
    match cookie {
        Some(c) => {
            if constant_time_str_eq(c.as_str(), form) {
                Ok(())
            } else {
                Err(AuthError::CsrfMismatch)
            }
        },
        None => Err(AuthError::CsrfMismatch),
    }
}

} // verus!
