//! Server-side length policy for registration fields.
//!
//! These bounds are authoritative: any client-side `minlength`/`maxlength`
//! attributes are advisory only, so every bound here is re-checked on the
//! server before a user record is created.

use vstd::prelude::*;

verus! {

/// Fewest characters a username may have.
pub const USERNAME_MIN_LEN: usize = 2;

/// Most characters a username may have.
pub const USERNAME_MAX_LEN: usize = 32;

/// Fewest characters a display name may have.
pub const DISPLAY_NAME_MIN_LEN: usize = 2;

/// Most characters a display name may have.
pub const DISPLAY_NAME_MAX_LEN: usize = 16;

/// Fewest characters a password may have.
pub const PASSWORD_MIN_LEN: usize = 8;

/// Most characters a password may have.
pub const PASSWORD_MAX_LEN: usize = 64;

/// Number of characters in an encoded 128-bit token.
pub const TOKEN_LEN: usize = 22;

} // verus!
