//! The rules of the setup and login pages and of the check that guards
//! every protected page. Reading the form, the cookie jar and the database,
//! and answering with a page or a redirect, happen in the program around
//! this library.

use vstd::prelude::*;
use vstd::string::*;

use crate::auth::{argon2_accepts, hash_password, verify_password};
use crate::db::users::User;
use crate::text::{decimal, decimal_text, is_white_space, lemma_trim_shape, trim, trim_spec, utf8_len};

verus! {

/// The fields of the first-run setup form.
pub struct SetupForm {
    pub username: String,
    pub password: String,
}

/// The fields of the login form.
pub struct LoginForm {
    pub username: String,
    pub password: String,
}

/// Where a request goes next.
#[derive(Debug, Clone, Copy, PartialEq, Eq, Structural)]
pub enum Gate {
    /// Serve what was asked for.
    Proceed,
    /// No admin account exists yet: go to `/setup`.
    RedirectToSetup,
    /// Go to `/login`.
    RedirectToLogin,
}

/// Whether an admin account exists, given how many users there are.
pub fn admin_exists(user_count: i64) -> (r: bool)
    ensures
        r == (user_count > 0),
{
    user_count > 0
}

/// The setup page is only for a brand new install: once an admin exists it
/// sends the visitor to the login page.
pub fn setup_page_gate(has_admin: bool) -> (g: Gate)
    ensures
        g == (if has_admin { Gate::RedirectToLogin } else { Gate::Proceed }),
{
    if has_admin {
        Gate::RedirectToLogin
    } else {
        Gate::Proceed
    }
}

/// The login page needs an admin account to log in to: without one it sends
/// the visitor to the setup page.
pub fn login_page_gate(has_admin: bool) -> (g: Gate)
    ensures
        g == (if has_admin { Gate::Proceed } else { Gate::RedirectToSetup }),
{
    if has_admin {
        Gate::Proceed
    } else {
        Gate::RedirectToSetup
    }
}

/// The check that guards every protected page: without an admin account a
/// request goes to setup, a request with a validly signed session cookie proceeds, and any
/// other goes to the login page.
pub fn require_auth_gate(has_admin: bool, has_session: bool) -> (g: Gate)
    ensures
        g == (if !has_admin {
            Gate::RedirectToSetup
        } else if has_session {
            Gate::Proceed
        } else {
            Gate::RedirectToLogin
        }),
{
    if !has_admin {
        Gate::RedirectToSetup
    } else if has_session {
        Gate::Proceed
    } else {
        Gate::RedirectToLogin
    }
}

/// The error shown when the setup form is refused.
pub const SETUP_ERROR: &'static str = "Username is required and password must be at least 8 characters.";

/// The error shown when a login is refused.
pub const LOGIN_ERROR: &'static str = "Invalid username or password.";

/// The fewest bytes a new admin password may have.
pub const MIN_PASSWORD_BYTES: usize = 8;

/// What a submitted setup form leads to.
pub enum SetupOutcome {
    /// An admin exists already: go to the login page.
    RedirectToLogin,
    /// The form is refused: show the setup page again with `error`.
    Invalid { error: String },
    /// Create the admin account with these fields, log it in and go to the dashboard.
    CreateAdmin { username: String, password_hash: String },
}

/// Whether the setup form's fields are refused: the username is empty once
/// trimmed, or the password is shorter than eight bytes of UTF-8.
pub open spec fn spec_setup_refused(form: SetupForm) -> bool {
    trim_spec(form.username@).len() == 0 || utf8_len(form.password@) < MIN_PASSWORD_BYTES
}

/// A setup form is refused exactly when its username is nothing but white
/// space (or empty) or its password has fewer than eight bytes of UTF-8.
pub proof fn lemma_setup_refused_cases(form: SetupForm)
    ensures
        spec_setup_refused(form) <==> (forall|k: int|
            0 <= k < form.username@.len() ==> is_white_space(#[trigger] form.username@[k]))
            || utf8_len(form.password@) < 8,
{
    lemma_trim_shape(form.username@);
}

/// What `setup_submit_outcome` answers to the form `form`.
pub open spec fn spec_setup_outcome(has_admin: bool, form: SetupForm, r: SetupOutcome) -> bool {
    if has_admin {
        r is RedirectToLogin
    } else if spec_setup_refused(form) {
        r matches SetupOutcome::Invalid { error } && error@ == SETUP_ERROR@
    } else {
        r matches SetupOutcome::CreateAdmin { username, password_hash } && username@ == trim_spec(
            form.username@,
        ) && argon2_accepts(password_hash@, form.password@)
    }
}

/// Decides on a submitted setup form: refused once an admin exists, refused
/// with an error when the username is blank or the password too short, and
/// otherwise an admin account with the trimmed username and a hash of the
/// password.
pub fn setup_submit_outcome(has_admin: bool, form: SetupForm) -> (r: SetupOutcome)
    requires
        !has_admin && !spec_setup_refused(form) ==> utf8_len(form.password@) <= 0xFFFF_FFFF,
    ensures
        spec_setup_outcome(has_admin, form, r),
{
    if has_admin {
        return SetupOutcome::RedirectToLogin;
    }
    let username = trim(form.username.as_str());
    if username.as_str().unicode_len() == 0 || form.password.as_str().len() < MIN_PASSWORD_BYTES {
        return SetupOutcome::Invalid { error: String::from_str(SETUP_ERROR) };
    }
    let password_hash = hash_password(form.password.as_str());
    SetupOutcome::CreateAdmin { username, password_hash }
}

/// The username that a login form looks up: the entered one, trimmed.
pub fn login_username(form: &LoginForm) -> (r: String)
    ensures
        r@ == trim_spec(form.username@),
{
    trim(form.username.as_str())
}

/// The user logged in by a login attempt, if any.
pub open spec fn spec_login_outcome(user: Option<User>, password: Seq<char>) -> Option<i64> {
    match user {
        Some(u) => if argon2_accepts(u.password_hash@, password) {
            Some(u.id)
        } else {
            None
        },
        None => None,
    }
}

/// No one is logged in without an account under the entered name, and a
/// login that succeeds logs in that account, exactly when its stored hash
/// accepts the password.
pub proof fn lemma_login_cases(user: Option<User>, password: Seq<char>)
    ensures
        spec_login_outcome(None, password) is None,
        user matches Some(u) ==> (spec_login_outcome(user, password) is Some <==> argon2_accepts(
            u.password_hash@,
            password,
        )),
        spec_login_outcome(user, password) matches Some(id) ==> user matches Some(u) && u.id == id,
{
}

/// Decides a login attempt: the user found under the entered name is logged
/// in when the password checks out against the stored hash; otherwise the
/// login page is shown again with `LOGIN_ERROR`.
pub fn login_outcome(user: Option<User>, password: &str) -> (r: Option<i64>)
    ensures
        r == spec_login_outcome(user, password@),
{
    match user {
        Some(u) => if verify_password(u.password_hash.as_str(), password) {
            Some(u.id)
        } else {
            None
        },
        None => None,
    }
}

/// The value of the session cookie for the user `user_id`: the id in decimal.
pub fn session_value(user_id: i64) -> (r: String)
    ensures
        r@ == decimal_text(user_id as int),
{
    decimal(user_id)
}

/// The account that setup creates can log in: when setup accepts a form and
/// the account is stored under some id, a login with the same username and
/// password looks up that account's name and logs it in.
pub proof fn lemma_setup_then_login(setup: SetupForm, outcome: SetupOutcome, id: i64, login: LoginForm)
    requires
        spec_setup_outcome(false, setup, outcome),
        !spec_setup_refused(setup),
        login.username@ == setup.username@,
        login.password@ == setup.password@,
    ensures
        outcome matches SetupOutcome::CreateAdmin { username, password_hash } && trim_spec(
            login.username@,
        ) == username@ && spec_login_outcome(
            Some(User { id, username, password_hash }),
            login.password@,
        ) == Some(id),
{
}

} // verus!
