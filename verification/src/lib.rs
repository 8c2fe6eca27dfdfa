//! Session and CSRF core of a server-rendered authentication layer.
//!
//! The crate models the request-independent heart of a login/signup/logout
//! service: generating session and CSRF tokens, validating credentials and
//! registration input against a user store, binding session tokens to user
//! identities, and the double-submit-cookie CSRF defense.  Transport concerns
//! (HTTP, cookies on the wire, rendering) stay outside; every operation takes
//! the cookie values and store handles it needs as explicit arguments.

pub mod compare;
pub mod credentials;
pub mod csrf;
pub mod defs;
pub mod error_page;
pub mod errors;
pub mod flows;
pub mod secret;
pub mod session;
pub mod store;
pub mod token;

