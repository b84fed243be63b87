//! Logging in and out.
use vstd::prelude::*;
use vstd::utf8::encode_utf8;

use crate::auth::{sign, signed_claim_token, user_id_claim, verified_token_data, TokenData};
use crate::reply::Reply;
use crate::text::{decimal, hex_of};
use crate::utils::{sha256_of, sha256_str, FormMessage};

verus! {

/// The login form as submitted.
pub struct LoginForm {
    pub username: String,
    pub passwd: String,
}

/// A lad's stored credentials.
pub struct LadCredentials {
    pub id: i64,
    /// Hexadecimal SHA-256 digest of the password.
    pub passwd_hash: String,
}

/// Whether the UTF-8 bytes of `passwd` hash to the stored digest text
/// `passwd_hash`.
pub open spec fn password_ok(passwd: Seq<char>, passwd_hash: Seq<char>) -> bool {
    hex_of(sha256_of(encode_utf8(passwd))) == passwd_hash
}

/// Whether the password's hexadecimal SHA-256 digest is `passwd_hash`.
pub fn password_matches(passwd: &str, passwd_hash: &str) -> (r: bool)
    ensures
        r == password_ok(passwd@, passwd_hash@),
{
    let digest = sha256_str(passwd.as_bytes());
    digest == String::from_str(passwd_hash)
}

/// How a login attempt ends.
pub enum LoginOutcome {
    /// Unknown user or wrong password.
    Denied,
    /// Accepted: the token to hand back in the `token` cookie.
    Granted(String),
}

/// Decides a login attempt for the stored credentials `lad` (`None` where
/// no lad has the name given) and the password typed in. A right password
/// gets the token signed for the lad's id.
pub fn check_login(key: &[u8], lad: Option<&LadCredentials>, passwd: &str) -> (r: LoginOutcome)
    ensures
        match lad {
            None => r is Denied,
            Some(l) => if password_ok(passwd@, l.passwd_hash@) {
                &&& r matches LoginOutcome::Granted(t)
                &&& t@ == signed_claim_token(key@, user_id_claim(), decimal(l.id as int))
                &&& verified_token_data(key@, t@) == Some(TokenData { user_id: l.id })
            } else {
                r is Denied
            },
        },
{
    match lad {
        None => LoginOutcome::Denied,
        Some(l) => {
            if password_matches(passwd, l.passwd_hash.as_str()) {
                LoginOutcome::Granted(sign(key, TokenData { user_id: l.id }))
            } else {
                LoginOutcome::Denied
            }
        },
    }
}

impl LoginOutcome {
    /// The feedback shown on the login form.
    pub fn message(&self) -> (r: FormMessage<'static>)
        ensures
            self is Denied ==> !r.is_success() && r.text()
                == "Your are not allowed here, go away >:("@,
            self is Granted ==> r.is_success() && r.text() == "Login successful :D"@,
    {
        match self {
            LoginOutcome::Granted(_) => FormMessage::Success("Login successful :D"),
            LoginOutcome::Denied => FormMessage::Failure("Your are not allowed here, go away >:("),
        }
    }
}

/// The name of the cookie that holds the login token.
pub fn token_cookie_name() -> (r: &'static str)
    ensures
        r@ == "token"@,
{
    "token"
}

/// The reply to a logout: a fragment that reloads the page.
pub fn logout_reply() -> (r: Reply)
    ensures
        r.is_html(200, "<div hx-on:htmx:load=\"location.reload()\"></div>"@),
{
    Reply::Html {
        status: 200,
        body: String::from_str("<div hx-on:htmx:load=\"location.reload()\"></div>"),
    }
}

} // verus!
