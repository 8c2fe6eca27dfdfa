use auth_sessions::csrf::issue_csrf;
use auth_sessions::errors::AuthError;
use auth_sessions::flows::current_user;
use auth_sessions::flows::login;
use auth_sessions::flows::logout;
use auth_sessions::flows::signup;
use auth_sessions::flows::LoginRequest;
use auth_sessions::flows::SignupRequest;
use auth_sessions::secret::Secret;
use auth_sessions::session::validate_session;
use auth_sessions::session::SessionStore;
use auth_sessions::store::UserStore;

fn alice_signup_request() -> SignupRequest {
    let pair = issue_csrf();
    SignupRequest {
        csrf_cookie: Some(pair.cookie_value),
        csrf_form: pair.form_value,
        username: String::from("alice"),
        display_name: String::from("Alice"),
        email: String::from("alice@example.com"),
        email_confirmation: String::from("alice@example.com"),
        password: Secret::new(String::from("correct horse battery")),
        password_confirmation: Secret::new(String::from("correct horse battery")),
    }
}

#[test]
fn signup_end_to_end() {
    let mut users = UserStore::new();
    let mut sessions = SessionStore::new();
    let r = signup(&mut users, &mut sessions, alice_signup_request());
    assert_eq!(r.message, "Registration Successful");
    assert_eq!(r.redirect.as_deref(), Some("/"));
    let cookie = r.session_cookie.expect("session cookie set");
    assert!(cookie.http_only && cookie.secure && !cookie.expire_now);
    let alice_id = users.users[0].user_id;
    let jar = Some(cookie.value.clone());
    assert_eq!(validate_session(&sessions, &jar), Some(alice_id));
    let profile = current_user(&users, &sessions, &jar).expect("signed in");
    assert_eq!(profile.user_id, alice_id);
    assert_eq!(profile.username, "alice");
    assert_eq!(profile.display_name, "Alice");
    assert_eq!(profile.email, "alice@example.com");
}

#[test]
fn login_end_to_end_after_signup() {
    let mut users = UserStore::new();
    let mut sessions = SessionStore::new();
    signup(&mut users, &mut sessions, alice_signup_request());
    let pair = issue_csrf();
    let r = login(
        &users,
        &mut sessions,
        LoginRequest {
            csrf_cookie: Some(pair.cookie_value),
            csrf_form: pair.form_value,
            username: String::from("alice"),
            password: Secret::new(String::from("correct horse battery")),
        },
    );
    assert_eq!(r.message, "Login Successful");
    assert_eq!(r.redirect.as_deref(), Some("/"));
    let cookie = r.session_cookie.expect("session cookie set");
    let jar = Some(cookie.value.clone());
    assert_eq!(validate_session(&sessions, &jar), Some(users.users[0].user_id));
}

#[test]
fn failed_logins_wear_the_same_words() {
    let mut users = UserStore::new();
    let mut sessions = SessionStore::new();
    signup(&mut users, &mut sessions, alice_signup_request());
    let sessions_before = sessions.sessions.len();

    let pair = issue_csrf();
    let wrong_password = login(
        &users,
        &mut sessions,
        LoginRequest {
            csrf_cookie: Some(pair.cookie_value),
            csrf_form: pair.form_value,
            username: String::from("alice"),
            password: Secret::new(String::from("not the password 123")),
        },
    );
    let pair = issue_csrf();
    let unknown_user = login(
        &users,
        &mut sessions,
        LoginRequest {
            csrf_cookie: Some(pair.cookie_value),
            csrf_form: pair.form_value,
            username: String::from("bob"),
            password: Secret::new(String::from("correct horse battery")),
        },
    );
    assert_eq!(wrong_password.message, unknown_user.message);
    assert_eq!(wrong_password.message, "invalid username or password");
    assert!(wrong_password.redirect.is_none() && unknown_user.redirect.is_none());
    assert!(wrong_password.session_cookie.is_none() && unknown_user.session_cookie.is_none());
    assert_eq!(sessions.sessions.len(), sessions_before);
}

#[test]
fn csrf_mismatch_beats_valid_credentials() {
    let mut users = UserStore::new();
    let mut sessions = SessionStore::new();
    signup(&mut users, &mut sessions, alice_signup_request());
    let pair = issue_csrf();
    let other = issue_csrf();
    let r = login(
        &users,
        &mut sessions,
        LoginRequest {
            csrf_cookie: Some(pair.cookie_value),
            csrf_form: other.form_value,
            username: String::from("alice"),
            password: Secret::new(String::from("correct horse battery")),
        },
    );
    assert_eq!(r.message, AuthError::CsrfMismatch.user_message());
    assert!(r.session_cookie.is_none());
    assert!(r.redirect.is_none());
}

#[test]
fn signup_error_leaves_both_stores_alone() {
    let mut users = UserStore::new();
    let mut sessions = SessionStore::new();
    let pair = issue_csrf();
    let r = signup(
        &mut users,
        &mut sessions,
        SignupRequest {
            csrf_cookie: Some(pair.cookie_value),
            csrf_form: pair.form_value,
            username: String::from("alice"),
            display_name: String::from("Alice"),
            email: String::from("alice@example.com"),
            email_confirmation: String::from("elsewhere@example.com"),
            password: Secret::new(String::from("correct horse battery")),
            password_confirmation: Secret::new(String::from("correct horse battery")),
        },
    );
    assert_eq!(r.message, AuthError::EmailMismatch.user_message());
    assert!(r.session_cookie.is_none());
    assert_eq!(users.users.len(), 0);
    assert_eq!(sessions.sessions.len(), 0);
}

#[test]
fn logout_clears_the_session() {
    let mut users = UserStore::new();
    let mut sessions = SessionStore::new();
    let r = signup(&mut users, &mut sessions, alice_signup_request());
    let jar = Some(r.session_cookie.expect("session cookie set").value);
    assert!(validate_session(&sessions, &jar).is_some());

    let out = logout(&mut sessions, &jar);
    assert_eq!(out.message, "Logged out");
    assert_eq!(out.redirect.as_deref(), Some("/"));
    let cleared = out.session_cookie.expect("clearing cookie set");
    assert!(cleared.expire_now);
    assert!(cleared.value.is_empty());
    assert_eq!(validate_session(&sessions, &jar), None);
    assert!(current_user(&users, &sessions, &jar).is_none());

    // logging out again is not an error
    let again = logout(&mut sessions, &jar);
    assert!(again.session_cookie.expect("clearing cookie set").expire_now);
}
