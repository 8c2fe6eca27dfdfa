use auth_sessions::session::destroy_session;
use auth_sessions::session::issue_session;
use auth_sessions::session::validate_session;
use auth_sessions::session::SameSitePolicy;
use auth_sessions::session::SessionStore;
use auth_sessions::token::generate_session_token;

#[test]
fn issue_then_validate_returns_the_user() {
    let mut store = SessionStore::new();
    let token = generate_session_token();
    let cookie = issue_session(&mut store, 42, token);
    assert!(cookie.http_only);
    assert!(cookie.secure);
    assert_eq!(cookie.same_site, SameSitePolicy::Strict);
    assert!(!cookie.expire_now);
    let r = validate_session(&store, &Some(cookie.value.clone()));
    assert_eq!(r, Some(42));
}

#[test]
fn destroy_then_validate_returns_no_session() {
    let mut store = SessionStore::new();
    let cookie = issue_session(&mut store, 7, generate_session_token());
    let jar = Some(cookie.value.clone());
    let cleared = destroy_session(&mut store, &jar);
    assert!(cleared.expire_now);
    assert!(cleared.value.is_empty());
    assert!(cleared.http_only && cleared.secure);
    assert_eq!(validate_session(&store, &jar), None);
}

#[test]
fn absent_cookie_is_no_session_not_an_error() {
    let store = SessionStore::new();
    assert_eq!(validate_session(&store, &None), None);
}

#[test]
fn unknown_token_degrades_to_logged_out() {
    let mut store = SessionStore::new();
    issue_session(&mut store, 1, generate_session_token());
    let stale = Some(String::from("gECNk3N3yO24xOV3ZZ_ukg"));
    assert_eq!(validate_session(&store, &stale), None);
}

#[test]
fn put_overwrites_last_write_wins() {
    let mut store = SessionStore::new();
    let token = String::from("fixed-token-for-test-x");
    store.put(token.clone(), 1);
    store.put(token.clone(), 2);
    assert_eq!(store.get(&token), Some(2));
    assert_eq!(store.sessions.len(), 1);
}

#[test]
fn delete_is_idempotent_and_keeps_others() {
    let mut store = SessionStore::new();
    let keep = String::from("keep-this-session-aaaa");
    let drop = String::from("drop-this-session-bbbb");
    store.put(keep.clone(), 10);
    store.put(drop.clone(), 20);
    store.delete(&drop);
    store.delete(&drop);
    assert_eq!(store.get(&drop), None);
    assert_eq!(store.get(&keep), Some(10));
    assert_eq!(store.sessions.len(), 1);
}
