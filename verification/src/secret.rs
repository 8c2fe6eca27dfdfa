//! An opaque holder for password material.
//!
//! The wrapped text is reachable only through the equality check below: the
//! type offers no `Display` or `Debug` of its content, so a credential
//! cannot wander into a log line, an error message or a rendered view.

use vstd::prelude::*;

use crate::compare::constant_time_str_eq;

verus! {

/// A password (or other credential) whose content stays out of reach.
pub struct Secret {
    value: String,
}

impl View for Secret {
    type V = Seq<char>;

    closed spec fn view(&self) -> Seq<char> {
        self.value@
    }
}

impl Secret {
    /// Wraps credential text.
    pub fn new(value: String) -> (s: Secret)
        ensures
            s@ == value@,
    {
        Secret { value }
    }

    /// Compares two secrets without an early exit on the first differing
    /// character.
    pub fn matches(&self, other: &Secret) -> (r: bool)
        ensures
            r == (self@ == other@),
    {
        constant_time_str_eq(self.value.as_str(), other.value.as_str())
    }

    /// Number of characters in the secret; used only to hold the wrapped
    /// text to the server-side length policy.
    pub fn char_len(&self) -> (n: usize)
        ensures
            n == self@.len(),
    {
        self.value.as_str().unicode_len()
    }
}

} // verus!
