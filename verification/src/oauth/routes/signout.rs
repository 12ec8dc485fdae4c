//! Signing out.
use vstd::prelude::*;
use vstd::string::*;

use crate::server::{cookie_view, spec_session_cookie, CookieAttributes, CookieView, SameSitePolicy, SESSION_COOKIE_NAME, SESSION_COOKIE_PATH};

verus! {

/// The attributes of the cookie a sign-out answers with.
pub open spec fn spec_removal_cookie() -> CookieView {
    (SESSION_COOKIE_NAME@, SESSION_COOKIE_PATH@, true, false, SameSitePolicy::Absent, 0)
}

/// The cookie a sign-out answers with removes the session cookie: it has the
/// session cookie's name and path, and a lifetime of zero.
pub proof fn law_removal_targets_session_cookie()
    ensures
        spec_removal_cookie().0 == spec_session_cookie().0,
        spec_removal_cookie().1 == spec_session_cookie().1,
        spec_removal_cookie().5 == 0,
{
}

/// The cookie a sign-out answers with, whether or not the request carried a
/// session: the session cookie's name and path, HTTP-only, with neither
/// `Secure` nor `SameSite`, and a lifetime of zero.
pub fn removal_cookie() -> (r: CookieAttributes)
    ensures
        cookie_view(r) == spec_removal_cookie(),
{
    CookieAttributes {
        name: String::from_str(SESSION_COOKIE_NAME),
        path: String::from_str(SESSION_COOKIE_PATH),
        http_only: true,
        secure: false,
        same_site: SameSitePolicy::Absent,
        max_age_seconds: 0,
    }
}

/// The status a sign-out is answered with.
pub const SIGNED_OUT: u16 = 200;

} // verus!
