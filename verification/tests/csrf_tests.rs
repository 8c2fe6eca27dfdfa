use auth_sessions::csrf::check_csrf;
use auth_sessions::csrf::issue_csrf;
use auth_sessions::errors::AuthError;

#[test]
fn issued_pair_passes_the_guard() {
    let pair = issue_csrf();
    assert_eq!(pair.cookie_value, pair.form_value);
    let r = check_csrf(&Some(pair.cookie_value), &pair.form_value);
    assert_eq!(r, Ok(()));
}

#[test]
fn differing_tokens_are_rejected() {
    let cookie = Some(String::from("one-token-value-aaaaaa"));
    let r = check_csrf(&cookie, "another-token-value-bb");
    assert_eq!(r, Err(AuthError::CsrfMismatch));
}

#[test]
fn absent_cookie_is_rejected() {
    let r = check_csrf(&None, "some-form-token");
    assert_eq!(r, Err(AuthError::CsrfMismatch));
}

#[test]
fn two_issues_give_two_tokens() {
    let a = issue_csrf();
    let b = issue_csrf();
    assert_ne!(a.form_value, b.form_value);
    let r = check_csrf(&Some(a.cookie_value), &b.form_value);
    assert_eq!(r, Err(AuthError::CsrfMismatch));
}
