use froggi::auth::{
    api_key_settings_html, create_login_step, credentials_acceptable, login_attempt, mask_key,
    new_login, page_access, api_access, CreateLogin, CreateLoginStep, AccessAnswer, LoginFile,
    LoginForm, LoginReply,
};
use froggi::ocr::HeaderText;

fn form(u: &str, p: &str, c: &str) -> CreateLogin {
    CreateLogin { username: u.into(), password: p.into(), confirm_password: c.into() }
}

#[test]
fn credentials_must_be_nonempty_without_spaces() {
    assert!(credentials_acceptable("admin", "pw"));
    assert!(!credentials_acceptable("", "pw"));
    assert!(!credentials_acceptable("ad min", "pw"));
    assert!(!credentials_acceptable("admin", "p w"));
    assert!(!credentials_acceptable("admin", ""));
}

#[test]
fn create_login_steps() {
    assert_eq!(create_login_step(true, &form("a", "b", "b")), CreateLoginStep::Unauthorized);
    assert_eq!(create_login_step(false, &form("a b", "b", "b")), CreateLoginStep::InvalidCredentials);
    assert_eq!(create_login_step(false, &form("a", "b", "c")), CreateLoginStep::PasswordsDiffer);
    assert_eq!(create_login_step(false, &form("a", "b", "b")), CreateLoginStep::Create);
}

#[test]
fn created_login_admits_its_creator() {
    let f = form("admin", "secret", "secret");
    let login = new_login(&f, "KEY".to_string()).expect("hashing works");
    assert_eq!(login.username, "admin");
    assert_eq!(login.api_key, "KEY");
    assert_ne!(login.password, "secret");
    let file = LoginFile::Stored(login);
    let ok = LoginForm { username: "admin".into(), password: "secret".into() };
    assert_eq!(login_attempt(&file, &ok), LoginReply::LoggedIn);
    let wrong = LoginForm { username: "admin".into(), password: "nope".into() };
    assert_eq!(login_attempt(&file, &wrong), LoginReply::InvalidLogin);
    let other = LoginForm { username: "root".into(), password: "secret".into() };
    assert_eq!(login_attempt(&file, &other), LoginReply::InvalidLogin);
}

#[test]
fn login_without_stored_login() {
    let f = LoginForm { username: "a".into(), password: "b".into() };
    assert_eq!(login_attempt(&LoginFile::Missing, &f), LoginReply::Unauthorized);
    assert_eq!(login_attempt(&LoginFile::Unreadable, &f), LoginReply::ServerError);
    let bad = LoginForm { username: "".into(), password: "b".into() };
    assert_eq!(login_attempt(&LoginFile::Unreadable, &bad), LoginReply::InvalidCredentials);
}

#[test]
fn login_with_broken_hash_fails() {
    let file = LoginFile::Stored(froggi::auth::Login {
        username: "a".into(),
        password: "not a phc string".into(),
        api_key: "k".into(),
    });
    let f = LoginForm { username: "a".into(), password: "b".into() };
    assert_eq!(login_attempt(&file, &f), LoginReply::ServerError);
}

#[test]
fn api_guard() {
    let key = HeaderText::Text("k".into());
    assert_eq!(api_access(true, &HeaderText::Absent, None), AccessAnswer::Pass);
    assert_eq!(api_access(false, &HeaderText::Absent, Some("k")), AccessAnswer::Unauthorized);
    assert_eq!(api_access(false, &key, Some("k")), AccessAnswer::Pass);
    assert_eq!(api_access(false, &key, Some("j")), AccessAnswer::Unauthorized);
    assert_eq!(api_access(false, &key, None), AccessAnswer::ServerError);
    assert_eq!(api_access(false, &HeaderText::NotVisibleAscii, Some("k")), AccessAnswer::ServerError);
}

#[test]
fn page_access_gives_sessions() {
    assert_eq!(page_access(true, true), AccessAnswer::Pass);
    assert_eq!(page_access(false, true), AccessAnswer::Pass);
    assert_eq!(page_access(true, false), AccessAnswer::PassWithSession);
    assert_eq!(page_access(false, false), AccessAnswer::RedirectToLogin);
}

#[test]
fn key_is_masked_per_character() {
    assert_eq!(mask_key("abc"), "***");
    assert_eq!(mask_key(""), "");
    assert_eq!(mask_key("äö"), "**");
}

#[test]
fn api_key_box_shows_masked_and_key() {
    let html = api_key_settings_html("AB1");
    assert!(html.starts_with("<div class=\"settings-box-api\">\n        <h6 id=\"api-key\">***</h6>"));
    assert!(html.contains("apiCopy(this, 'AB1')"));
    assert!(html.ends_with("Regenerate Api Key</button>\n        </div>"));
}

#[test]
fn logout_overwrites_both_tokens() {
    let (auth, session) = froggi::auth::logout_cookies();
    assert_eq!(auth, "AuthToken=0");
    assert_eq!(session, "SessionToken=0");
}

#[test]
fn token_cookies_carry_their_attributes() {
    assert_eq!(
        froggi::auth::token_cookie("SessionToken", "abc", false),
        "SessionToken=abc; HttpOnly; SameSite=Strict; Path=/"
    );
    assert_eq!(
        froggi::auth::token_cookie("AuthToken", "xyz", true),
        "AuthToken=xyz; HttpOnly; SameSite=Strict; Secure; Path=/"
    );
}
