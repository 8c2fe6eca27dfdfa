use auth_sessions::credentials::validate_login;
use auth_sessions::credentials::validate_registration;
use auth_sessions::errors::AuthError;
use auth_sessions::secret::Secret;
use auth_sessions::store::UserStore;

fn csrf_pair() -> (Option<String>, String) {
    let pair = auth_sessions::csrf::issue_csrf();
    (Some(pair.cookie_value), pair.form_value)
}

fn store_with_alice() -> UserStore {
    let mut users = UserStore::new();
    let (cookie, form) = csrf_pair();
    let r = validate_registration(
        &mut users,
        &cookie,
        &form,
        &String::from("alice"),
        &String::from("Alice"),
        &String::from("alice@example.com"),
        &String::from("alice@example.com"),
        Secret::new(String::from("correct horse battery")),
        &Secret::new(String::from("correct horse battery")),
    );
    assert!(r.is_ok());
    users
}

#[test]
fn login_with_matching_credentials_returns_the_bound_id() {
    let users = store_with_alice();
    let (cookie, form) = csrf_pair();
    let r = validate_login(
        &users,
        &cookie,
        &form,
        &String::from("alice"),
        &Secret::new(String::from("correct horse battery")),
    );
    assert_eq!(r, Ok(users.users[0].user_id));
}

#[test]
fn wrong_password_and_unknown_user_fail_identically() {
    let users = store_with_alice();
    let (cookie, form) = csrf_pair();
    let wrong_password = validate_login(
        &users,
        &cookie,
        &form,
        &String::from("alice"),
        &Secret::new(String::from("not the password 123")),
    );
    let (cookie2, form2) = csrf_pair();
    let unknown_user = validate_login(
        &users,
        &cookie2,
        &form2,
        &String::from("bob"),
        &Secret::new(String::from("correct horse battery")),
    );
    assert_eq!(wrong_password, Err(AuthError::InvalidCredentials));
    assert_eq!(unknown_user, Err(AuthError::InvalidCredentials));
    assert_eq!(wrong_password, unknown_user);
    assert_eq!(
        AuthError::InvalidCredentials.user_message(),
        "invalid username or password"
    );
}

#[test]
fn login_checks_csrf_before_credentials() {
    let users = store_with_alice();
    let r = validate_login(
        &users,
        &Some(String::from("cookie-token-aaaaaaaaaa")),
        &String::from("form-token-bbbbbbbbbbbb"),
        &String::from("alice"),
        &Secret::new(String::from("correct horse battery")),
    );
    assert_eq!(r, Err(AuthError::CsrfMismatch));
}

#[test]
fn email_mismatch_creates_no_record() {
    let mut users = UserStore::new();
    let (cookie, form) = csrf_pair();
    let r = validate_registration(
        &mut users,
        &cookie,
        &form,
        &String::from("bob"),
        &String::from("Bob"),
        &String::from("bob@example.com"),
        &String::from("bob@example.org"),
        Secret::new(String::from("a fine password")),
        &Secret::new(String::from("a fine password")),
    );
    assert_eq!(r, Err(AuthError::EmailMismatch));
    assert_eq!(users.users.len(), 0);
    assert_eq!(users.next_id, 0);
}

#[test]
fn password_mismatch_creates_no_record() {
    let mut users = UserStore::new();
    let (cookie, form) = csrf_pair();
    let r = validate_registration(
        &mut users,
        &cookie,
        &form,
        &String::from("bob"),
        &String::from("Bob"),
        &String::from("bob@example.com"),
        &String::from("bob@example.com"),
        Secret::new(String::from("a fine password")),
        &Secret::new(String::from("another password")),
    );
    assert_eq!(r, Err(AuthError::PasswordMismatch));
    assert_eq!(users.users.len(), 0);
}

#[test]
fn length_policy_is_enforced_server_side() {
    let cases: [(&str, &str, &str); 5] = [
        ("b", "Bob", "a fine password"),                      // username too short
        ("b23456789012345678901234567890123", "Bob", "a fine password"), // username too long
        ("bob", "B", "a fine password"),                      // display name too short
        ("bob", "Bob", "short"),                              // password too short
        ("bob", "Bob", "0123456789012345678901234567890123456789012345678901234567890123X"), // password too long
    ];
    for (username, display, password) in cases {
        let mut users = UserStore::new();
        let (cookie, form) = csrf_pair();
        let r = validate_registration(
            &mut users,
            &cookie,
            &form,
            &String::from(username),
            &String::from(display),
            &String::from("bob@example.com"),
            &String::from("bob@example.com"),
            Secret::new(String::from(password)),
            &Secret::new(String::from(password)),
        );
        assert_eq!(r, Err(AuthError::FieldLengthViolation));
        assert_eq!(users.users.len(), 0);
    }
}

#[test]
fn boundary_lengths_are_accepted() {
    let mut users = UserStore::new();
    let (cookie, form) = csrf_pair();
    let username = "ab"; // shortest legal username
    let display = "0123456789012345"; // longest legal display name
    let password = "eight ch"; // shortest legal password
    let r = validate_registration(
        &mut users,
        &cookie,
        &form,
        &String::from(username),
        &String::from(display),
        &String::from("a@example.com"),
        &String::from("a@example.com"),
        Secret::new(String::from(password)),
        &Secret::new(String::from(password)),
    );
    assert_eq!(r, Ok(0));
    assert_eq!(users.users.len(), 1);
}

#[test]
fn taken_username_is_rejected_without_a_write() {
    let mut users = store_with_alice();
    let (cookie, form) = csrf_pair();
    let r = validate_registration(
        &mut users,
        &cookie,
        &form,
        &String::from("alice"),
        &String::from("Other Alice"),
        &String::from("other@example.com"),
        &String::from("other@example.com"),
        Secret::new(String::from("a fine password")),
        &Secret::new(String::from("a fine password")),
    );
    assert_eq!(r, Err(AuthError::UsernameTaken));
    assert_eq!(users.users.len(), 1);
}

#[test]
fn exhausted_id_counter_is_store_unavailable() {
    let mut users = UserStore {
        users: Vec::new(),
        next_id: u64::MAX,
    };
    let (cookie, form) = csrf_pair();
    let r = validate_registration(
        &mut users,
        &cookie,
        &form,
        &String::from("bob"),
        &String::from("Bob"),
        &String::from("bob@example.com"),
        &String::from("bob@example.com"),
        Secret::new(String::from("a fine password")),
        &Secret::new(String::from("a fine password")),
    );
    assert_eq!(r, Err(AuthError::StoreUnavailable));
    assert_eq!(users.users.len(), 0);
}

#[test]
fn registration_checks_csrf_first() {
    let mut users = UserStore::new();
    let r = validate_registration(
        &mut users,
        &None,
        &String::from("form-token"),
        &String::from("bob"),
        &String::from("Bob"),
        &String::from("bob@example.com"),
        &String::from("bob@example.org"), // would be EmailMismatch after the guard
        Secret::new(String::from("a fine password")),
        &Secret::new(String::from("a fine password")),
    );
    assert_eq!(r, Err(AuthError::CsrfMismatch));
    assert_eq!(users.users.len(), 0);
}
