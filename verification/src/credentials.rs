//! The credential validator: login against stored records, and the
//! server-side rules a registration must pass before a record is created.
//!
//! The CSRF check always comes first, before any store lookup, so a forged
//! request learns nothing — not even through timing — about which usernames
//! exist.  A failed login is always the one merged `InvalidCredentials`
//! error, whether the username was unknown or the password wrong.

use vstd::prelude::*;

use crate::csrf::check_csrf;
use crate::csrf::csrf_ok;
use crate::defs::DISPLAY_NAME_MAX_LEN;
use crate::defs::DISPLAY_NAME_MIN_LEN;
use crate::defs::PASSWORD_MAX_LEN;
use crate::defs::PASSWORD_MIN_LEN;
use crate::defs::USERNAME_MAX_LEN;
use crate::defs::USERNAME_MIN_LEN;
use crate::errors::AuthError;
use crate::secret::Secret;
use crate::store::UserRecord;
use crate::store::UserStore;

verus! {

/// The username length policy.
pub open spec fn username_len_ok(name: Seq<char>) -> bool {
    USERNAME_MIN_LEN <= name.len() && name.len() <= USERNAME_MAX_LEN
}

/// The display-name length policy.
pub open spec fn display_name_len_ok(name: Seq<char>) -> bool {
    DISPLAY_NAME_MIN_LEN <= name.len() && name.len() <= DISPLAY_NAME_MAX_LEN
}

/// The password length policy.
pub open spec fn password_len_ok(password: Seq<char>) -> bool {
    PASSWORD_MIN_LEN <= password.len() && password.len() <= PASSWORD_MAX_LEN
}

/// Checks a login submission.  The CSRF tokens are compared before any
/// credential work; then the username must be registered and the presented
/// password must equal the stored credential, checked without an early
/// exit.  An unknown username and a wrong password fail identically.
pub fn validate_login(
    users: &UserStore,
    csrf_cookie: &Option<String>,
    csrf_form: &String,
    username: &String,
    password: &Secret,
) -> (r: Result<u64, AuthError>)
    requires
        users.wf(),
    ensures
        !csrf_ok(*csrf_cookie, csrf_form@) ==> r == Result::<u64, AuthError>::Err(
            AuthError::CsrfMismatch,
        ),
        csrf_ok(*csrf_cookie, csrf_form@) && !users.credentials_match(username@, password@) ==> r
            == Result::<u64, AuthError>::Err(AuthError::InvalidCredentials),
        csrf_ok(*csrf_cookie, csrf_form@) && users.credentials_match(username@, password@) ==> r
            == Result::<u64, AuthError>::Ok(users.id_for(username@)),
{
    if let Err(e) = check_csrf(csrf_cookie, csrf_form.as_str()) {
        return Err(e);
    }
    match users.find_user_by_username(username) {
        Some(i) => {
            let record = &users.users[i];
            if record.credential.matches(password) {
                Ok(record.user_id)
            } else {
                Err(AuthError::InvalidCredentials)
            }
        },
        None => Err(AuthError::InvalidCredentials),
    }
}

/// The decision a registration submission gets, in the order the checks
/// run: CSRF first, then the two confirmation fields, then the length
/// policy, then username availability, and last the store's capacity to
/// mint another id.  `None` means a record will be created.
pub open spec fn registration_error(
    users: UserStore,
    csrf_cookie: Option<String>,
    csrf_form: Seq<char>,
    username: Seq<char>,
    display_name: Seq<char>,
    email: Seq<char>,
    email_confirmation: Seq<char>,
    password: Seq<char>,
    password_confirmation: Seq<char>,
) -> Option<AuthError> {
    if !csrf_ok(csrf_cookie, csrf_form) {
        Some(AuthError::CsrfMismatch)
    } else if email != email_confirmation {
        Some(AuthError::EmailMismatch)
    } else if password != password_confirmation {
        Some(AuthError::PasswordMismatch)
    } else if !username_len_ok(username) || !display_name_len_ok(display_name)
        || !password_len_ok(password) {
        Some(AuthError::FieldLengthViolation)
    } else if users.has_username(username) {
        Some(AuthError::UsernameTaken)
    } else if users.next_id == u64::MAX {
        Some(AuthError::StoreUnavailable)
    } else {
        None
    }
}

/// Law: in a submission that passed the CSRF check, differing email fields
/// decide `EmailMismatch` — and, by the contract of
/// [`validate_registration`], the store is left untouched, whatever the
/// other fields hold.
pub proof fn lemma_email_mismatch_rejected(
    users: UserStore,
    csrf_cookie: Option<String>,
    csrf_form: Seq<char>,
    username: Seq<char>,
    display_name: Seq<char>,
    email: Seq<char>,
    email_confirmation: Seq<char>,
    password: Seq<char>,
    password_confirmation: Seq<char>,
)
    requires
        csrf_ok(csrf_cookie, csrf_form),
        email != email_confirmation,
    ensures
        registration_error(
            users,
            csrf_cookie,
            csrf_form,
            username,
            display_name,
            email,
            email_confirmation,
            password,
            password_confirmation,
        ) == Some(AuthError::EmailMismatch),
{
}

/// Law: in a submission that passed the CSRF check and whose email fields
/// agree, differing password fields decide `PasswordMismatch` — and, by
/// the contract of [`validate_registration`], the store is left untouched.
pub proof fn lemma_password_mismatch_rejected(
    users: UserStore,
    csrf_cookie: Option<String>,
    csrf_form: Seq<char>,
    username: Seq<char>,
    display_name: Seq<char>,
    email: Seq<char>,
    email_confirmation: Seq<char>,
    password: Seq<char>,
    password_confirmation: Seq<char>,
)
    requires
        csrf_ok(csrf_cookie, csrf_form),
        email == email_confirmation,
        password != password_confirmation,
    ensures
        registration_error(
            users,
            csrf_cookie,
            csrf_form,
            username,
            display_name,
            email,
            email_confirmation,
            password,
            password_confirmation,
        ) == Some(AuthError::PasswordMismatch),
{
}

/// Checks a registration submission and, when every rule passes, creates
/// the record — exactly one write, with the presented password stored as
/// the credential.  On any error the store is exactly as it was: no
/// partial record is ever observable.
pub fn validate_registration(
    users: &mut UserStore,
    csrf_cookie: &Option<String>,
    csrf_form: &String,
    username: &String,
    display_name: &String,
    email: &String,
    email_confirmation: &String,
    password: Secret,
    password_confirmation: &Secret,
) -> (r: Result<u64, AuthError>)
    requires
        old(users).wf(),
    ensures
        final(users).wf(),
        ({
            let decision = registration_error(
                *old(users),
                *csrf_cookie,
                csrf_form@,
                username@,
                display_name@,
                email@,
                email_confirmation@,
                password@,
                password_confirmation@,
            );
            match decision {
                Some(e) => r == Result::<u64, AuthError>::Err(e) && *final(users) == *old(users),
                None => r == Result::<u64, AuthError>::Ok(old(users).next_id)
                    && final(users).users@ == old(users).users@.push(
                    (UserRecord {
                        user_id: old(users).next_id,
                        username: *username,
                        display_name: *display_name,
                        email: *email,
                        credential: password,
                    }),
                ) && final(users).next_id == old(users).next_id + 1,
            }
        }),
{
    if let Err(e) = check_csrf(csrf_cookie, csrf_form.as_str()) {
        return Err(e);
    }
    if !(*email == *email_confirmation) {
        return Err(AuthError::EmailMismatch);
    }
    if !password.matches(password_confirmation) {
        return Err(AuthError::PasswordMismatch);
    }
    let username_len = username.as_str().unicode_len();
    let display_len = display_name.as_str().unicode_len();
    let password_len = password.char_len();
    if username_len < USERNAME_MIN_LEN || username_len > USERNAME_MAX_LEN || display_len
        < DISPLAY_NAME_MIN_LEN || display_len > DISPLAY_NAME_MAX_LEN || password_len
        < PASSWORD_MIN_LEN || password_len > PASSWORD_MAX_LEN {
        return Err(AuthError::FieldLengthViolation);
    }
    if users.find_user_by_username(username).is_some() {
        return Err(AuthError::UsernameTaken);
    }
    users.create_user(username.clone(), display_name.clone(), email.clone(), password)
}

} // verus!
