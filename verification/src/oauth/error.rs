//! The errors the OAuth routes answer with, their messages, and the response
//! each of them turns into.
use vstd::prelude::*;
use vstd::string::*;

use crate::oauth::routes::{lead_with, TEXT_PLAIN_UTF8};

verus! {

/// What went wrong in the `oxide_auth_actix` layer. The details of an
/// endpoint failure and of a header failure are carried as the texts those
/// failures display.
#[derive(Clone, Debug)]
pub enum WebErrorKind {
    Endpoint(String),
    Header(String),
    Encoding,
    Form,
    Query,
    Body,
    Authorization,
    Canceled,
    Mailbox,
    InternalError(Option<String>),
}

/// The message of an `oxide_auth_actix` error.
pub open spec fn spec_web_message(e: WebErrorKind) -> Seq<char> {
    match e {
        WebErrorKind::Endpoint(d) => "Endpoint, "@ + d@,
        WebErrorKind::Header(d) => "Couldn't set header, "@ + d@,
        WebErrorKind::Encoding => "Error decoding request"@,
        WebErrorKind::Form => "Request is not a form"@,
        WebErrorKind::Query => "No query present"@,
        WebErrorKind::Body => "No body present"@,
        WebErrorKind::Authorization => "Request has invalid Authorization headers"@,
        WebErrorKind::Canceled => "Operation canceled"@,
        WebErrorKind::Mailbox => "An actor's mailbox was full"@,
        WebErrorKind::InternalError(None) => "An internal server error occured"@,
        WebErrorKind::InternalError(Some(d)) => "An internal server error occured: "@ + d@,
    }
}

impl WebErrorKind {
    /// The message this error displays.
    pub fn message(&self) -> (r: String)
        ensures
            r@ == spec_web_message(*self),
    {
        match self {
            WebErrorKind::Endpoint(d) => lead_with("Endpoint, ", d.as_str()),
            WebErrorKind::Header(d) => lead_with("Couldn't set header, ", d.as_str()),
            WebErrorKind::Encoding => String::from_str("Error decoding request"),
            WebErrorKind::Form => String::from_str("Request is not a form"),
            WebErrorKind::Query => String::from_str("No query present"),
            WebErrorKind::Body => String::from_str("No body present"),
            WebErrorKind::Authorization => String::from_str("Request has invalid Authorization headers"),
            WebErrorKind::Canceled => String::from_str("Operation canceled"),
            WebErrorKind::Mailbox => String::from_str("An actor's mailbox was full"),
            WebErrorKind::InternalError(None) => String::from_str("An internal server error occured"),
            WebErrorKind::InternalError(Some(d)) => lead_with(
                "An internal server error occured: ",
                d.as_str(),
            ),
        }
    }

    /// Every such error is answered as an internal server error.
    pub fn status_code(&self) -> (r: u16)
        ensures
            r == 500,
    {
        500
    }
}

/// The errors of the OAuth routes.
#[derive(Clone, Debug)]
pub enum Error {
    Database,
    NotFound,
    InvalidKey,
    Hash,
    OAuth { source: WebErrorKind },
    ResourceConflict,
    InternalError,
}

/// The message of an error.
pub open spec fn spec_error_message(e: Error) -> Seq<char> {
    match e {
        Error::Database => "Database error"@,
        Error::NotFound => "Not found"@,
        Error::InvalidKey => "Invalid key"@,
        Error::Hash => "Invalid hash in database"@,
        Error::OAuth { source } => spec_web_message(source),
        Error::InternalError => "Unexpected internal error"@,
        Error::ResourceConflict => "User already exists"@,
    }
}

/// The status an error is answered with.
pub open spec fn spec_error_status(e: Error) -> u16 {
    match e {
        Error::OAuth { .. } => 500,
        Error::ResourceConflict => 409,
        _ => 500,
    }
}

/// The response an error turns into: a status, a content type when there is a
/// body, and the body.
pub struct ErrorReply {
    pub status: u16,
    pub content_type: Option<String>,
    pub body: String,
}

/// The view of an optional text.
pub open spec fn opt_text(s: Option<String>) -> Option<Seq<char>> {
    match s {
        Some(t) => Some(t@),
        None => None,
    }
}

/// The response an error turns into. An `oxide_auth_actix` failure and a
/// conflicting sign-up are answered with their message as plain text; every
/// other error is an empty internal server error.
pub open spec fn spec_error_reply(e: Error) -> (u16, Option<Seq<char>>, Seq<char>) {
    match e {
        Error::OAuth { source } => (500, Some(TEXT_PLAIN_UTF8@), spec_web_message(source)),
        Error::ResourceConflict => (409, Some(TEXT_PLAIN_UTF8@), "User already exists"@),
        _ => (500, None, Seq::empty()),
    }
}

impl Error {
    /// The message this error displays.
    pub fn message(&self) -> (r: String)
        ensures
            r@ == spec_error_message(*self),
    {
        match self {
            Error::Database => String::from_str("Database error"),
            Error::NotFound => String::from_str("Not found"),
            Error::InvalidKey => String::from_str("Invalid key"),
            Error::Hash => String::from_str("Invalid hash in database"),
            Error::OAuth { source } => source.message(),
            Error::InternalError => String::from_str("Unexpected internal error"),
            Error::ResourceConflict => String::from_str("User already exists"),
        }
    }

    /// The status this error is answered with.
    pub fn status_code(&self) -> (r: u16)
        ensures
            r == spec_error_status(*self),
    {
        match self {
            Error::OAuth { source } => source.status_code(),
            Error::ResourceConflict => 409,
            _ => 500,
        }
    }

    /// The response this error turns into.
    pub fn reply(&self) -> (r: ErrorReply)
        ensures
            (r.status, opt_text(r.content_type), r.body@) == spec_error_reply(*self),
    {
        match self {
            Error::OAuth { source } => ErrorReply {
                status: source.status_code(),
                content_type: Some(String::from_str(TEXT_PLAIN_UTF8)),
                body: source.message(),
            },
            Error::ResourceConflict => ErrorReply {
                status: 409,
                content_type: Some(String::from_str(TEXT_PLAIN_UTF8)),
                body: String::from_str("User already exists"),
            },
            _ => ErrorReply { status: 500, content_type: None, body: String::new() },
        }
    }
}

/// Every error is answered with the status it reports, and an error answered
/// with a body answers with its own message as plain text.
pub proof fn law_reply_agrees_with_error(e: Error)
    ensures
        spec_error_reply(e).0 == spec_error_status(e),
        spec_error_reply(e).1 is Some ==> spec_error_reply(e).2 == spec_error_message(e)
            && spec_error_reply(e).1 == Some(TEXT_PLAIN_UTF8@),
{
}

} // verus!
