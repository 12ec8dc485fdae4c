//! The request-side rules of the OAuth routes: how bodies and query strings
//! are judged before a handler runs, and the plain-text rejections that answer
//! a request that fails them.
use vstd::prelude::*;
use vstd::string::*;

pub mod dispatch;
pub mod media;
pub mod oauth;
pub mod session;
pub mod signin;
pub mod signout;
pub mod signup;
pub mod urlencoded;

use crate::oauth::routes::dispatch::HttpMethod;
use crate::oauth::routes::media::{declares_json, declares_urlencoded, header_view, spec_declared, spec_is_json, spec_is_urlencoded};

verus! {

/// The content type of every plain-text answer.
pub const TEXT_PLAIN_UTF8: &'static str = "text/plain; charset=utf-8";

/// The content type a `GET` or `HEAD` query string is restaged under.
pub const FORM_URLENCODED: &'static str = "application/x-www-form-urlencoded";

/// The answer to a form whose body is not declared urlencoded.
pub const FORM_MEDIA_MESSAGE: &'static str = "Form requests must have `Content-Type: application/x-www-form-urlencoded`";

/// The answer to a JSON body that is not declared JSON.
pub const JSON_MEDIA_MESSAGE: &'static str = "Expected request with `Content-Type: application/json`";

/// The lead of the answer to a form body that does not deserialize.
pub const FORM_DECODE_LEAD: &'static str = "Failed to deserialize form body: ";

/// The lead of the answer to a query string that does not deserialize.
pub const QUERY_DECODE_LEAD: &'static str = "Failed to deserialize query string: ";

/// The lead of the answer to JSON that does not fit the target type.
pub const JSON_DATA_LEAD: &'static str = "Failed to deserialize the JSON body into the target type: ";

/// The lead of the answer to a body that is not JSON at all.
pub const JSON_SYNTAX_LEAD: &'static str = "Failed to parse the request body as JSON: ";

/// A request turned away before its handler runs: a status, the content
/// type of its answer (always plain text) and the body it is answered with.
pub struct Rejection {
    pub status: u16,
    pub content_type: String,
    pub message: String,
}

/// A plain-text rejection.
fn plain(status: u16, message: String) -> (r: Rejection)
    ensures
        r.status == status,
        r.content_type@ == TEXT_PLAIN_UTF8@,
        r.message == message,
{
    Rejection { status, content_type: String::from_str(TEXT_PLAIN_UTF8), message }
}

/// A urlencoded form body, deserialized.
pub struct Form<T>(pub T);

impl<T> Form<T> {
    /// The deserialized value.
    pub fn into_inner(self) -> (r: T)
        ensures
            r == self.0,
    {
        self.0
    }
}

/// Where a body stands once it has been read.
pub enum BodyStep {
    /// Reading the payload failed; that failure answers the request.
    ReadFailed,
    /// The body is turned away with this answer.
    Rejected(Rejection),
    /// The body is to be deserialized.
    Decode,
}

/// The judgement of a urlencoded form body: a read failure first, then a
/// missing urlencoded declaration (415).
pub fn form_step(read_ok: bool, content_type: Option<&[u8]>) -> (r: BodyStep)
    ensures
        !read_ok ==> r is ReadFailed,
        read_ok && !(spec_declared(header_view(content_type)) matches Some(m) && spec_is_urlencoded(m))
            ==> (r matches BodyStep::Rejected(j) && j.status == 415 && j.content_type@ == TEXT_PLAIN_UTF8@
                && j.message@ == FORM_MEDIA_MESSAGE@),
        read_ok && (spec_declared(header_view(content_type)) matches Some(m) && spec_is_urlencoded(m))
            ==> r is Decode,
{
    let urlencoded = declares_urlencoded(content_type);
    if !read_ok {
        BodyStep::ReadFailed
    } else if !urlencoded {
        BodyStep::Rejected(plain(415, String::from_str(FORM_MEDIA_MESSAGE)))
    } else {
        BodyStep::Decode
    }
}

/// The judgement of a JSON body: a read failure first, then a missing JSON
/// declaration (415).
pub fn json_step(read_ok: bool, content_type: Option<&[u8]>) -> (r: BodyStep)
    ensures
        !read_ok ==> r is ReadFailed,
        read_ok && !(spec_declared(header_view(content_type)) matches Some(m) && spec_is_json(m))
            ==> (r matches BodyStep::Rejected(j) && j.status == 415 && j.content_type@ == TEXT_PLAIN_UTF8@
                && j.message@ == JSON_MEDIA_MESSAGE@),
        read_ok && (spec_declared(header_view(content_type)) matches Some(m) && spec_is_json(m))
            ==> r is Decode,
{
    let is_json = declares_json(content_type);
    if !read_ok {
        BodyStep::ReadFailed
    } else if !is_json {
        BodyStep::Rejected(plain(415, String::from_str(JSON_MEDIA_MESSAGE)))
    } else {
        BodyStep::Decode
    }
}

/// `lead` followed by `detail`.
pub(crate) fn lead_with(lead: &str, detail: &str) -> (r: String)
    ensures
        r@ == lead@ + detail@,
{
    let mut s = String::from_str(lead);
    s.append(detail);
    s
}

/// The answer to a form body that does not deserialize: 422, naming the failure.
pub fn form_decode_rejection(detail: &str) -> (r: Rejection)
    ensures
        r.status == 422,
        r.content_type@ == TEXT_PLAIN_UTF8@,
        r.message@ == FORM_DECODE_LEAD@ + detail@,
{
    plain(422, lead_with(FORM_DECODE_LEAD, detail))
}

/// The answer to a query string that does not deserialize: 400, naming the failure.
pub fn query_rejection(detail: &str) -> (r: Rejection)
    ensures
        r.status == 400,
        r.content_type@ == TEXT_PLAIN_UTF8@,
        r.message@ == QUERY_DECODE_LEAD@ + detail@,
{
    plain(400, lead_with(QUERY_DECODE_LEAD, detail))
}

/// How a JSON body failed to deserialize, as `serde_json` classifies it.
#[derive(Clone, Copy, PartialEq, Eq, Structural, Debug)]
pub enum JsonFailure {
    Io,
    Syntax,
    Data,
    Eof,
}

/// The answer to a JSON body that does not deserialize: JSON that does not fit
/// the target type is 422, anything else is 400.
pub fn json_decode_rejection(failure: JsonFailure, detail: &str) -> (r: Rejection)
    ensures
        r.content_type@ == TEXT_PLAIN_UTF8@,
        failure == JsonFailure::Data ==> r.status == 422 && r.message@ == JSON_DATA_LEAD@ + detail@,
        failure != JsonFailure::Data ==> r.status == 400 && r.message@ == JSON_SYNTAX_LEAD@ + detail@,
{
    match failure {
        JsonFailure::Data => plain(422, lead_with(JSON_DATA_LEAD, detail)),
        _ => plain(400, lead_with(JSON_SYNTAX_LEAD, detail)),
    }
}

/// A query string restaged as a urlencoded request body.
pub struct Restaged {
    pub content_type: String,
    pub body: String,
}

/// `GET` and `HEAD` requests carry their parameters in the query string; they
/// are handed on with the query as a urlencoded body. Other requests keep
/// their own body.
pub fn restage_query(method: HttpMethod, query: &str) -> (r: Option<Restaged>)
    ensures
        (method == HttpMethod::Get || method == HttpMethod::Head) <==> r is Some,
        r matches Some(x) ==> x.content_type@ == FORM_URLENCODED@ && x.body@ == query@,
{
    if method == HttpMethod::Get || method == HttpMethod::Head {
        Some(Restaged { content_type: String::from_str(FORM_URLENCODED), body: String::from_str(query) })
    } else {
        None
    }
}

/// Where sign-in sends the browser once it succeeds.
pub struct Callback {
    callback: String,
}

impl Default for Callback {
    /// No target.
    fn default() -> (r: Self)
        ensures
            r.view() == Seq::<char>::empty(),
    {
        Callback { callback: String::new() }
    }
}

impl Callback {
    /// The target, as text.
    pub closed spec fn view(&self) -> Seq<char> {
        self.callback@
    }

    /// The target.
    pub fn as_str(&self) -> (r: &str)
        ensures
            r@ == self.view(),
    {
        self.callback.as_str()
    }

    /// The callback to `callback`.
    pub fn from_str(callback: &str) -> (r: Self)
        ensures
            r.view() == callback@,
    {
        Callback { callback: String::from_str(callback) }
    }
}

/// A sign-in form.
#[derive(Clone)]
pub struct LoginForm {
    pub username: String,
    pub password: String,
}

/// A sign-up form.
#[derive(Clone)]
pub struct SignUpForm {
    pub username: String,
    pub password: String,
    pub given_name: String,
}

} // verus!
