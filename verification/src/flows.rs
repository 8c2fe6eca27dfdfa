//! The three user-facing flows — login, signup, logout — and the
//! per-request resolution of the current user.
//!
//! Each flow is a strict pipeline that stops at the first failure: CSRF
//! check, credential or registration validation, token generation, session
//! issuance, redirect.  No failure path creates a session or a user
//! record.  Every operation takes the cookie values and store handles as
//! explicit arguments; the transport layer around it only moves bytes.

use vstd::prelude::*;

use crate::credentials::registration_error;
use crate::credentials::validate_login;
use crate::credentials::validate_registration;
use crate::csrf::csrf_ok;
use crate::defs::TOKEN_LEN;
use crate::errors::AuthError;
use crate::errors::spec_user_message;
use crate::secret::Secret;
use crate::session::SameSitePolicy;
use crate::session::SessionStore;
use crate::session::cookie_hardened;
use crate::session::destroy_session;
use crate::session::issue_session;
use crate::session::spec_delete;
use crate::session::spec_put;
use crate::session::validate_session;
use crate::store::UserData;
use crate::store::UserRecord;
use crate::store::UserStore;
use crate::store::fetch_profile;
use crate::token::generate_session_token;
use crate::token::is_b64url_char;

verus! {

/// A login form submission, with the CSRF cookie that rode along.
pub struct LoginRequest {
    /// The CSRF cookie of the request, if the browser sent one.
    pub csrf_cookie: Option<String>,
    /// The hidden CSRF form field.
    pub csrf_form: String,
    /// The submitted username.
    pub username: String,
    /// The submitted password.
    pub password: Secret,
}

/// A signup form submission, with the CSRF cookie that rode along.
pub struct SignupRequest {
    /// The CSRF cookie of the request, if the browser sent one.
    pub csrf_cookie: Option<String>,
    /// The hidden CSRF form field.
    pub csrf_form: String,
    /// The requested username.
    pub username: String,
    /// The requested display name.
    pub display_name: String,
    /// The contact address.
    pub email: String,
    /// The contact address, typed a second time.
    pub email_confirmation: String,
    /// The chosen password.
    pub password: Secret,
    /// The chosen password, typed a second time.
    pub password_confirmation: Secret,
}

/// What a flow hands back to the transport layer: where to send the
/// browser, what to render, and the session cookie to set, if any.
pub struct FlowResponse {
    /// Redirect target on success; a failed flow re-renders the form.
    pub redirect: Option<String>,
    /// The user-facing outcome text.
    pub message: String,
    /// A session cookie to set (or, after logout, to clear).
    pub session_cookie: Option<crate::session::SessionCookie>,
}

/// The decision a login submission gets: CSRF first, then the merged
/// credential check.  `None` means a session will be issued.
pub open spec fn login_error(
    users: UserStore,
    csrf_cookie: Option<String>,
    csrf_form: Seq<char>,
    username: Seq<char>,
    password: Seq<char>,
) -> Option<AuthError> {
    if !csrf_ok(csrf_cookie, csrf_form) {
        Some(AuthError::CsrfMismatch)
    } else if !users.credentials_match(username, password) {
        Some(AuthError::InvalidCredentials)
    } else {
        None
    }
}

/// Law: a submission whose cookie token is absent or differs from its form
/// token is decided `CsrfMismatch` — for login and signup alike — whatever
/// the credentials and the other fields hold.
pub proof fn lemma_csrf_mismatch_beats_everything(
    users: UserStore,
    csrf_cookie: Option<String>,
    csrf_form: Seq<char>,
    username: Seq<char>,
    display_name: Seq<char>,
    email: Seq<char>,
    email_confirmation: Seq<char>,
    password: Seq<char>,
    password_confirmation: Seq<char>,
)
    requires
        !csrf_ok(csrf_cookie, csrf_form),
    ensures
        login_error(users, csrf_cookie, csrf_form, username, password) == Some(
            AuthError::CsrfMismatch,
        ),
        registration_error(
            users,
            csrf_cookie,
            csrf_form,
            username,
            display_name,
            email,
            email_confirmation,
            password,
            password_confirmation,
        ) == Some(AuthError::CsrfMismatch),
{
}

/// Handles a login submission.  On failure the session store is untouched,
/// nothing redirects, and the message names only the error's category; on
/// success a fresh random token is bound to the user and delivered in a
/// hardened cookie, and the browser is sent to the landing page.
pub fn login(users: &UserStore, sessions: &mut SessionStore, req: LoginRequest) -> (r:
    FlowResponse)
    requires
        users.wf(),
        old(sessions).wf(),
    ensures
        final(sessions).wf(),
        ({
            let decision = login_error(
                *users,
                req.csrf_cookie,
                req.csrf_form@,
                req.username@,
                req.password@,
            );
            match decision {
                Some(e) => *final(sessions) == *old(sessions) && r.redirect is None
                    && r.session_cookie is None && r.message@ == spec_user_message(e),
                None => ({
                    let uid = users.id_for(req.username@);
                    r.message@ == "Login Successful"@ && (match r.redirect {
                        Some(p) => p@ == "/"@,
                        None => false,
                    }) && (match r.session_cookie {
                        Some(c) => cookie_hardened(c) && !c.expire_now && c.same_site
                            == SameSitePolicy::Strict && c.value@.len() == TOKEN_LEN && (forall|
                            i: int,
                        | 0 <= i < c.value@.len() ==> is_b64url_char(#[trigger] c.value@[i]))
                            && final(sessions).sessions@ == spec_put(
                            old(sessions).sessions@,
                            c.value,
                            uid,
                        ) && final(sessions).session_of(Some(c.value)) == Some(uid) && (forall|
                            t: Seq<char>,
                        |
                            t != c.value@ ==> #[trigger] final(sessions).lookup(t) == old(
                                sessions,
                            ).lookup(t)),
                        None => false,
                    })
                }),
            }
        }),
{
    let user_id = match validate_login(
        users,
        &req.csrf_cookie,
        &req.csrf_form,
        &req.username,
        &req.password,
    ) {
        Ok(id) => id,
        Err(e) => {
            return FlowResponse {
                redirect: None,
                message: e.user_message().to_owned(),
                session_cookie: None,
            };
        },
    };
    let token = generate_session_token();
    let cookie = issue_session(sessions, user_id, token);
    FlowResponse {
        redirect: Some("/".to_owned()),
        message: "Login Successful".to_owned(),
        session_cookie: Some(cookie),
    }
}

/// Handles a signup submission.  On any validation error both stores are
/// exactly as they were; on success exactly one record is created, a
/// session is issued for it at once, and the browser is sent to the
/// landing page.
pub fn signup(users: &mut UserStore, sessions: &mut SessionStore, req: SignupRequest) -> (r:
    FlowResponse)
    requires
        old(users).wf(),
        old(sessions).wf(),
    ensures
        final(users).wf(),
        final(sessions).wf(),
        ({
            let decision = registration_error(
                *old(users),
                req.csrf_cookie,
                req.csrf_form@,
                req.username@,
                req.display_name@,
                req.email@,
                req.email_confirmation@,
                req.password@,
                req.password_confirmation@,
            );
            match decision {
                Some(e) => *final(users) == *old(users) && *final(sessions) == *old(sessions)
                    && r.redirect is None && r.session_cookie is None && r.message@
                    == spec_user_message(e),
                None => ({
                    let uid = old(users).next_id;
                    r.message@ == "Registration Successful"@ && final(users).users@ == old(
                        users,
                    ).users@.push(
                        (UserRecord {
                            user_id: uid,
                            username: req.username,
                            display_name: req.display_name,
                            email: req.email,
                            credential: req.password,
                        }),
                    ) && final(users).next_id == uid + 1 && (match r.redirect {
                        Some(p) => p@ == "/"@,
                        None => false,
                    }) && (match r.session_cookie {
                        Some(c) => cookie_hardened(c) && !c.expire_now && c.same_site
                            == SameSitePolicy::Strict && c.value@.len() == TOKEN_LEN && (forall|
                            i: int,
                        | 0 <= i < c.value@.len() ==> is_b64url_char(#[trigger] c.value@[i]))
                            && final(sessions).sessions@ == spec_put(
                            old(sessions).sessions@,
                            c.value,
                            uid,
                        ) && final(sessions).session_of(Some(c.value)) == Some(uid) && (forall|
                            t: Seq<char>,
                        |
                            t != c.value@ ==> #[trigger] final(sessions).lookup(t) == old(
                                sessions,
                            ).lookup(t)),
                        None => false,
                    })
                }),
            }
        }),
{
    let user_id = match validate_registration(
        users,
        &req.csrf_cookie,
        &req.csrf_form,
        &req.username,
        &req.display_name,
        &req.email,
        &req.email_confirmation,
        req.password,
        &req.password_confirmation,
    ) {
        Ok(id) => id,
        Err(e) => {
            return FlowResponse {
                redirect: None,
                message: e.user_message().to_owned(),
                session_cookie: None,
            };
        },
    };
    let token = generate_session_token();
    let cookie = issue_session(sessions, user_id, token);
    FlowResponse {
        redirect: Some("/".to_owned()),
        message: "Registration Successful".to_owned(),
        session_cookie: Some(cookie),
    }
}

/// Handles a logout.  The binding named by the session cookie is removed —
/// a no-op when there is none — the browser's cookie is cleared, and the
/// browser is sent to the landing page.  Idempotent: logging out twice is
/// not an error.
pub fn logout(sessions: &mut SessionStore, session_cookie: &Option<String>) -> (r: FlowResponse)
    requires
        old(sessions).wf(),
    ensures
        final(sessions).wf(),
        final(sessions).session_of(*session_cookie) == None::<u64>,
        match *session_cookie {
            Some(t) => final(sessions).sessions@ == spec_delete(old(sessions).sessions@, t@) && (
            forall|x: Seq<char>| x != t@ ==> #[trigger] final(sessions).lookup(x) == old(
                sessions,
            ).lookup(x)),
            None => final(sessions).sessions@ == old(sessions).sessions@,
        },
        match r.session_cookie {
            Some(c) => c.expire_now && cookie_hardened(c) && c.value@.len() == 0,
            None => false,
        },
        match r.redirect {
            Some(p) => p@ == "/"@,
            None => false,
        },
        r.message@ == "Logged out"@,
{
    let cookie = destroy_session(sessions, session_cookie);
    FlowResponse {
        redirect: Some("/".to_owned()),
        message: "Logged out".to_owned(),
        session_cookie: Some(cookie),
    }
}

/// Resolves the request's session cookie to the profile of the signed-in
/// user: none when there is no live session, and none when the session
/// points at an id the user store no longer carries.  The credential is
/// not part of the view.
pub fn current_user(
    users: &UserStore,
    sessions: &SessionStore,
    session_cookie: &Option<String>,
) -> (r: Option<UserData>)
    requires
        users.wf(),
        sessions.wf(),
    ensures
        match sessions.session_of(*session_cookie) {
            Some(uid) => (match r {
                Some(d) => users.has_user_id(uid) && d.user_id == uid && d.username@
                    == users.record_for_id(uid).username@ && d.display_name@ == users.record_for_id(
                    uid,
                ).display_name@ && d.email@ == users.record_for_id(uid).email@,
                None => !users.has_user_id(uid),
            }),
            None => r is None,
        },
{
    match validate_session(sessions, session_cookie) {
        Some(uid) => fetch_profile(users, uid),
        None => None,
    }
}

} // verus!
