//! The server's own settings: the address it listens on and the cookie its
//! sessions ride on.
use vstd::prelude::*;
use vstd::string::*;

use crate::oauth::routes::media::push_char;

verus! {

/// The character of a decimal digit.
pub open spec fn digit_char(d: nat) -> char {
    (0x30 + d) as char
}

/// The decimal notation of a number, without leading zeros.
pub open spec fn spec_decimal(n: nat) -> Seq<char>
    decreases n,
{
    if n < 10 {
        seq![digit_char(n)]
    } else {
        spec_decimal(n / 10).push(digit_char(n % 10))
    }
}

/// Appends the decimal notation of `n`.
fn append_decimal(s: &mut String, n: u16)
    ensures
        final(s)@ == old(s)@ + spec_decimal(n as nat),
    decreases n,
{
    if n >= 10 {
        append_decimal(s, n / 10);
    }
    let d: u8 = (n % 10) as u8;
    push_char(s, (48u8 + d) as char);
    assert(final(s)@ =~= old(s)@ + spec_decimal(n as nat));
}

/// The address the server listens on: the one it is given, or every interface
/// on `port`.
pub fn listen_address(bind_address: Option<String>, port: u16) -> (r: String)
    ensures
        match bind_address {
            Some(a) => r@ == a@,
            None => r@ == "0.0.0.0:"@ + spec_decimal(port as nat),
        },
{
    match bind_address {
        Some(a) => a,
        None => {
            let mut s = String::from_str("0.0.0.0:");
            append_decimal(&mut s, port);
            s
        },
    }
}

/// The `SameSite` attribute of a cookie, or its absence.
#[derive(Clone, Copy, PartialEq, Eq, Structural, Debug)]
pub enum SameSitePolicy {
    Strict,
    Lax,
    NoRestriction,
    Absent,
}

/// The attributes a cookie is written with. `max_age_seconds` is the
/// lifetime it is given; a lifetime of zero removes the cookie.
pub struct CookieAttributes {
    pub name: String,
    pub path: String,
    pub http_only: bool,
    pub secure: bool,
    pub same_site: SameSitePolicy,
    pub max_age_seconds: i64,
}

/// A cookie's attributes as values: name, path, HTTP-only, secure,
/// `SameSite`, lifetime in seconds.
pub type CookieView = (Seq<char>, Seq<char>, bool, bool, SameSitePolicy, int);

/// The view of a cookie's attributes.
pub open spec fn cookie_view(c: CookieAttributes) -> CookieView {
    (c.name@, c.path@, c.http_only, c.secure, c.same_site, c.max_age_seconds as int)
}

/// The session cookie's attributes.
pub open spec fn spec_session_cookie() -> CookieView {
    (SESSION_COOKIE_NAME@, SESSION_COOKIE_PATH@, true, true, SameSitePolicy::Lax, SESSION_TTL_SECONDS as int)
}

/// The name of the session cookie.
pub const SESSION_COOKIE_NAME: &'static str = "axum_oauth";

/// The path the session cookie is scoped to.
pub const SESSION_COOKIE_PATH: &'static str = "/oauth/";

/// How long a session lives: one day.
pub const SESSION_TTL_SECONDS: i64 = 86400;

/// The session cookie: `axum_oauth` on `/oauth/`, HTTP-only, secure,
/// `SameSite=Lax`, living one day.
pub fn session_cookie() -> (r: CookieAttributes)
    ensures
        cookie_view(r) == spec_session_cookie(),
{
    CookieAttributes {
        name: String::from_str(SESSION_COOKIE_NAME),
        path: String::from_str(SESSION_COOKIE_PATH),
        http_only: true,
        secure: true,
        same_site: SameSitePolicy::Lax,
        max_age_seconds: SESSION_TTL_SECONDS,
    }
}

} // verus!
