//! The OAuth side of the server.
use vstd::prelude::*;
use vstd::string::*;

pub mod error;
pub mod primitives;
pub mod routes;
pub mod sessions;

use crate::oauth::routes::TEXT_PLAIN_UTF8;

verus! {

/// The resource owner's answer to an authorization request.
#[derive(Clone, Copy, PartialEq, Eq, Structural, Debug)]
pub enum Consent {
    Allow,
    Deny,
}

/// The content type an OAuth response is sent with when it carries none of
/// its own: a bodyless response (the authorization redirect, the resource
/// challenge) still announces plain text.
pub fn default_content_type(has_content_type: bool) -> (r: Option<String>)
    ensures
        has_content_type ==> r is None,
        !has_content_type ==> (r matches Some(t) && t@ == TEXT_PLAIN_UTF8@),
{
    if has_content_type {
        None
    } else {
        Some(String::from_str(TEXT_PLAIN_UTF8))
    }
}

} // verus!
