//! Logins: the credentials form rules, creating the single login, logging in,
//! and the guards in front of the protected routes.

use vstd::prelude::*;
use argon2::password_hash::rand_core::OsRng;
use argon2::password_hash::{PasswordHash, PasswordHasher, PasswordVerifier, SaltString};
use argon2::Argon2;
use crate::ocr::HeaderText;
use crate::pages::{api_key_box, api_key_box_html};
use crate::text::{contains_char, has_char, str_equal};

verus! {

/// The login form.
pub struct LoginForm {
    pub username: String,
    pub password: String,
}

/// The form that creates the login.
pub struct CreateLogin {
    pub username: String,
    pub password: String,
    pub confirm_password: String,
}

/// The stored login: the user name, the password's Argon2 hash in PHC string
/// form, and the API key.
pub struct Login {
    pub username: String,
    pub password: String,
    pub api_key: String,
}

/// What became of reading the stored login.
pub enum LoginFile {
    /// There is no stored login.
    Missing,
    /// The stored login exists but could not be read or parsed.
    Unreadable,
    Stored(Login),
}

/// Whether Argon2 (default parameters) accepts `password` against the PHC string
/// `phc`; `None` where `phc` is not a PHC string.
pub uninterp spec fn argon2_accepts(password: Seq<char>, phc: Seq<char>) -> Option<bool>;

/// Parses `phc` with `password_hash::PasswordHash::new` and checks `password`'s
/// UTF-8 bytes against it with `Argon2::default().verify_password`. The contract
/// claims the named result, which depends on the two texts alone.
#[verifier::external_body]
fn verify_password(password: &str, phc: &str) -> (r: Option<bool>)
    ensures
        r == argon2_accepts(password@, phc@),
{
    match PasswordHash::new(phc) {
        Ok(h) => Some(Argon2::default().verify_password(password.as_bytes(), &h).is_ok()),
        Err(_) => None,
    }
}

/// Argon2 takes a password of at most `u32::MAX` UTF-8 bytes.
pub open spec fn hashable(password: Seq<char>) -> bool {
    vstd::utf8::encode_utf8(password).len() <= 0xFFFF_FFFF
}

/// Hashes `password`'s UTF-8 bytes with `Argon2::default().hash_password` and a
/// salt drawn by `SaltString::generate` from the operating system's generator,
/// and renders the hash as a PHC string. The contract claims that a hash it gives
/// back accepts the password it was made from, and that hashing succeeds on every
/// password that Argon2 takes: with the default parameters, the generated 16-byte
/// salt and the 32-byte output, the one error left in `hash_password` is a
/// password too long. The salt, and so the string, is left unsaid.
#[verifier::external_body]
fn hash_password(password: &str) -> (r: Option<String>)
    ensures
        r matches Some(h) ==> argon2_accepts(password@, h@) == Some(true),
        hashable(password@) ==> r is Some,
{
    let salt = SaltString::generate(&mut OsRng);
    Argon2::default().hash_password(password.as_bytes(), &salt).ok().map(|h| h.to_string())
}

/// A user name or password is acceptable when it is not empty and has no space.
pub open spec fn acceptable(s: Seq<char>) -> bool {
    s.len() > 0 && !has_char(s, ' ')
}

/// Both credentials are acceptable.
pub fn credentials_acceptable(username: &str, password: &str) -> (r: bool)
    ensures
        r == (acceptable(username@) && acceptable(password@)),
{
    !contains_char(username, ' ') && !username.is_empty() && !contains_char(password, ' ')
        && !password.is_empty()
}

/// What a login creation request leads to.
#[derive(Clone, Copy, Debug, PartialEq, Eq, Structural)]
pub enum CreateLoginStep {
    /// 401: a login exists already.
    Unauthorized,
    /// "Username and password cannot be empty or contain spaces".
    InvalidCredentials,
    /// "Passwords do not match".
    PasswordsDiffer,
    /// The login is to be created.
    Create,
}

/// Decides a login creation request.
pub fn create_login_step(login_exists: bool, form: &CreateLogin) -> (r: CreateLoginStep)
    ensures
        r == create_login_step_result(login_exists, *form),
{
    if login_exists {
        CreateLoginStep::Unauthorized
    } else if !credentials_acceptable(form.username.as_str(), form.password.as_str()) {
        CreateLoginStep::InvalidCredentials
    } else if !str_equal(form.password.as_str(), form.confirm_password.as_str()) {
        CreateLoginStep::PasswordsDiffer
    } else {
        CreateLoginStep::Create
    }
}

/// The login to store for a creation form: its user name, an Argon2 hash of its
/// password, and `api_key`; `None` where hashing fails, which it does only on a
/// password too long for Argon2.
pub fn new_login(form: &CreateLogin, api_key: String) -> (r: Option<Login>)
    ensures
        r matches Some(l) ==> l.username@ == form.username@ && l.api_key@ == api_key@
            && argon2_accepts(form.password@, l.password@) == Some(true),
        hashable(form.password@) ==> r is Some,
{
    match hash_password(form.password.as_str()) {
        Some(h) => Some(Login { username: form.username.clone(), password: h, api_key }),
        None => None,
    }
}

/// How a login request is answered.
#[derive(Clone, Copy, Debug, PartialEq, Eq, Structural)]
pub enum LoginReply {
    /// 401: no login has been created.
    Unauthorized,
    /// "Username and password cannot be empty or contain spaces".
    InvalidCredentials,
    /// "Invalid login".
    InvalidLogin,
    /// 500: the stored login or its hash could not be read.
    ServerError,
    /// The session cookie is set and the visitor sent to `/`.
    LoggedIn,
}

/// The answer to a login attempt with `username` and `password`.
pub open spec fn login_result(file: LoginFile, username: Seq<char>, password: Seq<char>) -> LoginReply {
    match file {
        LoginFile::Missing => LoginReply::Unauthorized,
        _ => if !(acceptable(username) && acceptable(password)) {
            LoginReply::InvalidCredentials
        } else {
            match file {
                LoginFile::Stored(l) => if username != l.username@ {
                    LoginReply::InvalidLogin
                } else {
                    match argon2_accepts(password, l.password@) {
                        None => LoginReply::ServerError,
                        Some(true) => LoginReply::LoggedIn,
                        Some(false) => LoginReply::InvalidLogin,
                    }
                },
                _ => LoginReply::ServerError,
            }
        },
    }
}

/// Checks a login form against the stored login.
pub fn login_attempt(file: &LoginFile, form: &LoginForm) -> (r: LoginReply)
    ensures
        r == login_result(*file, form.username@, form.password@),
{
    if let LoginFile::Missing = file {
        return LoginReply::Unauthorized;
    }
    if !credentials_acceptable(form.username.as_str(), form.password.as_str()) {
        return LoginReply::InvalidCredentials;
    }
    match file {
        LoginFile::Stored(l) => {
            if !str_equal(form.username.as_str(), l.username.as_str()) {
                LoginReply::InvalidLogin
            } else {
                match verify_password(form.password.as_str(), l.password.as_str()) {
                    None => LoginReply::ServerError,
                    Some(true) => LoginReply::LoggedIn,
                    Some(false) => LoginReply::InvalidLogin,
                }
            }
        },
        _ => LoginReply::ServerError,
    }
}

/// The answer of a guard in front of a route.
#[derive(Clone, Copy, Debug, PartialEq, Eq, Structural)]
pub enum AccessAnswer {
    /// The request goes on to the route.
    Pass,
    /// The request goes on, and the answer gets a new session cookie.
    PassWithSession,
    /// 401.
    Unauthorized,
    /// 303 to `/login`.
    RedirectToLogin,
    /// 500: the stored login or the header could not be read.
    ServerError,
}

/// The guard for API routes: a valid session passes; otherwise the `api-auth`
/// header must hold the stored API key.
pub open spec fn api_access_result(
    session_valid: bool,
    api_auth: HeaderText,
    stored_key: Option<Seq<char>>,
) -> AccessAnswer {
    if session_valid {
        AccessAnswer::Pass
    } else {
        match api_auth {
            HeaderText::Absent => AccessAnswer::Unauthorized,
            HeaderText::Text(k) => match stored_key {
                Some(s) => if k@ == s {
                    AccessAnswer::Pass
                } else {
                    AccessAnswer::Unauthorized
                },
                None => AccessAnswer::ServerError,
            },
            HeaderText::NotVisibleAscii => AccessAnswer::ServerError,
        }
    }
}

/// Decides the guard for API routes.
pub fn api_access(session_valid: bool, api_auth: &HeaderText, stored_key: Option<&str>) -> (r: AccessAnswer)
    ensures
        r == api_access_result(
            session_valid,
            *api_auth,
            match stored_key {
                Some(s) => Some(s@),
                None => None,
            },
        ),
{
    if session_valid {
        return AccessAnswer::Pass;
    }
    match api_auth {
        HeaderText::Absent => AccessAnswer::Unauthorized,
        HeaderText::Text(k) => match stored_key {
            Some(s) => if str_equal(k.as_str(), s) {
                AccessAnswer::Pass
            } else {
                AccessAnswer::Unauthorized
            },
            None => AccessAnswer::ServerError,
        },
        HeaderText::NotVisibleAscii => AccessAnswer::ServerError,
    }
}

/// The guard for pages: a valid session passes; a valid login cookie alone passes
/// and gets a session; anything else is sent to log in.
pub fn page_access(auth_valid: bool, session_valid: bool) -> (r: AccessAnswer)
    ensures
        r == (if session_valid {
            AccessAnswer::Pass
        } else if auth_valid {
            AccessAnswer::PassWithSession
        } else {
            AccessAnswer::RedirectToLogin
        }),
{
    if auth_valid || session_valid {
        if session_valid {
            AccessAnswer::Pass
        } else {
            AccessAnswer::PassWithSession
        }
    } else {
        AccessAnswer::RedirectToLogin
    }
}

/// A login attempt succeeds only with the stored user name and a password that
/// the stored hash accepts.
pub proof fn lemma_login_needs_matching_credentials(file: LoginFile, username: Seq<char>, password: Seq<char>)
    ensures
        login_result(file, username, password) == LoginReply::LoggedIn ==> (file matches LoginFile::Stored(l)
            && l.username@ == username && argon2_accepts(password, l.password@) == Some(true)),
{
}

/// The login made from a creation form lets its creator in with the same
/// credentials.
pub proof fn lemma_created_login_admits_creator(form: CreateLogin, l: Login)
    requires
        create_login_step_result(false, form) == CreateLoginStep::Create,
        l.username@ == form.username@,
        argon2_accepts(form.password@, l.password@) == Some(true),
    ensures
        login_result(LoginFile::Stored(l), form.username@, form.password@) == LoginReply::LoggedIn,
{
}

/// The decision that `create_login_step` makes.
pub open spec fn create_login_step_result(login_exists: bool, form: CreateLogin) -> CreateLoginStep {
    if login_exists {
        CreateLoginStep::Unauthorized
    } else if !(acceptable(form.username@) && acceptable(form.password@)) {
        CreateLoginStep::InvalidCredentials
    } else if form.password@ != form.confirm_password@ {
        CreateLoginStep::PasswordsDiffer
    } else {
        CreateLoginStep::Create
    }
}

/// Without a valid session, the API guard passes exactly the requests that carry
/// the stored key.
pub proof fn lemma_api_access_needs_key(api_auth: HeaderText, stored_key: Option<Seq<char>>)
    ensures
        api_access_result(false, api_auth, stored_key) == AccessAnswer::Pass <==> (api_auth matches HeaderText::Text(k)
            && stored_key == Some(k@)),
{
}

/// A key hidden by one `*` for each of its characters.
pub open spec fn masked(key: Seq<char>) -> Seq<char> {
    Seq::new(key.len(), |i: int| '*')
}

/// Hides `key`: one `*` for each of its characters.
pub fn mask_key(key: &str) -> (r: String)
    ensures
        r@ == masked(key@),
{
    proof {
        reveal_strlit("*");
    }
    let n = key.unicode_len();
    let mut r = String::new();
    let mut i: usize = 0;
    while i < n
        invariant
            n == key@.len(),
            i <= n,
            r@ == masked(key@).take(i as int),
        decreases n - i,
    {
        r.append("*");
        proof {
            reveal_strlit("*");
            assert("*"@ =~= seq!['*']);
        }
        i = i + 1;
        assert(r@ =~= masked(key@).take(i as int));
    }
    assert(masked(key@).take(n as int) =~= masked(key@));
    r
}

/// The API key settings box: the key masked, and the key for the copy button.
pub fn api_key_settings_html(key: &str) -> (r: String)
    ensures
        r@ == api_key_box(masked(key@), key@),
{
    let hidden = mask_key(key);
    api_key_box_html(hidden.as_str(), key)
}

/// Renders a cookie without attributes, built with the cookie crate's
/// `Cookie::build((name, value))`, as a `Set-Cookie` value. The contract claims
/// the text `name=value`, which the crate's `Display` writes for a cookie that
/// has no attribute set.
#[verifier::external_body]
fn bare_cookie(name: &str, value: &str) -> (r: String)
    ensures
        r@ == name@ + "="@ + value@,
{
    axum_extra::extract::cookie::Cookie::build((name.to_string(), value.to_string())).to_string()
}

/// The `Set-Cookie` text of a cookie `name=value` with `SameSite=Strict`, the
/// path `path`, and the `HttpOnly` and `Secure` flags where they are set.
pub open spec fn strict_cookie_text(
    name: Seq<char>,
    value: Seq<char>,
    path: Seq<char>,
    http_only: bool,
    secure: bool,
) -> Seq<char> {
    name + "="@ + value + (if http_only {
        "; HttpOnly"@
    } else {
        Seq::<char>::empty()
    }) + "; SameSite=Strict"@ + (if secure {
        "; Secure"@
    } else {
        Seq::<char>::empty()
    }) + "; Path="@ + path
}

/// Renders a cookie built with the cookie crate's `Cookie::build((name, value))`,
/// `.path(path)`, `.http_only(http_only)`, `.secure(secure)` and
/// `.same_site(SameSite::Strict)` as a `Set-Cookie` value. The contract claims the
/// text that the crate's `Display` writes for it: `name=value`, then `HttpOnly`
/// where set, `SameSite=Strict`, `Secure` where set, and the path, each after `; `.
#[verifier::external_body]
fn strict_cookie(name: &str, value: &str, path: &str, http_only: bool, secure: bool) -> (r: String)
    ensures
        r@ == strict_cookie_text(name@, value@, path@, http_only, secure),
{
    axum_extra::extract::cookie::Cookie::build((name.to_string(), value.to_string()))
        .path(path.to_string())
        .http_only(http_only)
        .secure(secure)
        .same_site(axum_extra::extract::cookie::SameSite::Strict)
        .build()
        .to_string()
}

/// The `Set-Cookie` value that hands out a login or session token: sent on every
/// path, hidden from scripts, same-site only, and secure where `secure` asks it.
pub fn token_cookie(name: &str, token: &str, secure: bool) -> (r: String)
    ensures
        r@ == strict_cookie_text(name@, token@, "/"@, true, secure),
{
    strict_cookie(name, token, "/", true, secure)
}

/// The two `Set-Cookie` values of a logout: both tokens overwritten with `0`.
pub fn logout_cookies() -> (r: (String, String))
    ensures
        r.0@ == "AuthToken"@ + "="@ + "0"@,
        r.1@ == "SessionToken"@ + "="@ + "0"@,
{
    (bare_cookie("AuthToken", "0"), bare_cookie("SessionToken", "0"))
}

} // verus!
