//! Errors a page request itself can produce (as opposed to a form
//! submission), and the HTTP status each one maps to.

use vstd::prelude::*;

verus! {

/// An error surfaced while serving a page.
#[derive(Clone, Copy, Debug, PartialEq, Eq, Structural)]
pub enum AppPageError {
    /// No route matches the requested path.
    NotFound,
}

impl AppPageError {
    /// The HTTP status code this error is served with.
    pub fn status_code(&self) -> (code: u16)
        ensures
            *self == AppPageError::NotFound ==> code == 404,
    {
        match self {
            AppPageError::NotFound => 404,
        }
    }

    /// The text rendered for this error.
    pub fn message(&self) -> (m: &'static str)
        ensures
            *self == AppPageError::NotFound ==> m@ == "Not Found"@,
    {
        match self {
            AppPageError::NotFound => "Not Found",
        }
    }
}

} // verus!
