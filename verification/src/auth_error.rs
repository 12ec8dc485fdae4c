//! The JSON error envelope of the resource side: which failures of the
//! `oxide_auth_actix` layer it reports, and how.
use vstd::prelude::*;
use vstd::string::*;

use crate::oauth::error::WebErrorKind;

verus! {

/// A failure to authenticate a resource request.
#[derive(Clone, Debug)]
pub enum AuthError {
    WrongCredentials,
    MissingCredentials,
    InvalidToken,
    Unexecpected(String),
}

/// An error as a value.
pub enum AuthErrorView {
    WrongCredentials,
    MissingCredentials,
    InvalidToken,
    Unexecpected(Seq<char>),
}

/// The value of an error.
pub open spec fn auth_error_view(e: AuthError) -> AuthErrorView {
    match e {
        AuthError::WrongCredentials => AuthErrorView::WrongCredentials,
        AuthError::MissingCredentials => AuthErrorView::MissingCredentials,
        AuthError::InvalidToken => AuthErrorView::InvalidToken,
        AuthError::Unexecpected(s) => AuthErrorView::Unexecpected(s@),
    }
}

/// How an `oxide_auth_actix` failure is reported: failures to read the
/// request are missing credentials, a bad `Authorization` header is an
/// invalid token, and everything else is unexpected.
pub open spec fn spec_from_web_error(e: WebErrorKind) -> AuthErrorView {
    match e {
        WebErrorKind::Endpoint(_) => AuthErrorView::Unexecpected("internal authorization error"@),
        WebErrorKind::Header(d) => AuthErrorView::Unexecpected(d@),
        WebErrorKind::Encoding => AuthErrorView::MissingCredentials,
        WebErrorKind::Form => AuthErrorView::MissingCredentials,
        WebErrorKind::Query => AuthErrorView::MissingCredentials,
        WebErrorKind::Body => AuthErrorView::MissingCredentials,
        WebErrorKind::Authorization => AuthErrorView::InvalidToken,
        WebErrorKind::Canceled => AuthErrorView::Unexecpected("operation canceled"@),
        WebErrorKind::Mailbox => AuthErrorView::Unexecpected("mailbox full"@),
        WebErrorKind::InternalError(Some(d)) => AuthErrorView::Unexecpected(d@),
        WebErrorKind::InternalError(None) => AuthErrorView::Unexecpected("unknown authentication error"@),
    }
}

/// The status and message an error is reported with.
pub open spec fn spec_auth_reply(e: AuthError) -> (u16, Seq<char>) {
    match e {
        AuthError::WrongCredentials => (401, "wrong credentials"@),
        AuthError::MissingCredentials => (400, "missing credentials"@),
        AuthError::InvalidToken => (400, "invalid token"@),
        AuthError::Unexecpected(_) => (500, "unknown internal error"@),
    }
}

impl AuthError {
    /// How an `oxide_auth_actix` failure is reported.
    pub fn from_web_error(e: WebErrorKind) -> (r: AuthError)
        ensures
            auth_error_view(r) == spec_from_web_error(e),
    {
        match e {
            WebErrorKind::Endpoint(_) => AuthError::Unexecpected(
                String::from_str("internal authorization error"),
            ),
            WebErrorKind::Header(d) => AuthError::Unexecpected(d),
            WebErrorKind::Encoding => AuthError::MissingCredentials,
            WebErrorKind::Form => AuthError::MissingCredentials,
            WebErrorKind::Query => AuthError::MissingCredentials,
            WebErrorKind::Body => AuthError::MissingCredentials,
            WebErrorKind::Authorization => AuthError::InvalidToken,
            WebErrorKind::Canceled => AuthError::Unexecpected(String::from_str("operation canceled")),
            WebErrorKind::Mailbox => AuthError::Unexecpected(String::from_str("mailbox full")),
            WebErrorKind::InternalError(opt) => match opt {
                Some(d) => AuthError::Unexecpected(d),
                None => AuthError::Unexecpected(String::from_str("unknown authentication error")),
            },
        }
    }

    /// The status and the message of the `{"error": ...}` envelope this error
    /// is reported with.
    pub fn reply(&self) -> (r: (u16, &'static str))
        ensures
            (r.0, r.1@) == spec_auth_reply(*self),
    {
        match self {
            AuthError::WrongCredentials => (401, "wrong credentials"),
            AuthError::MissingCredentials => (400, "missing credentials"),
            AuthError::InvalidToken => (400, "invalid token"),
            AuthError::Unexecpected(_) => (500, "unknown internal error"),
        }
    }
}

} // verus!
