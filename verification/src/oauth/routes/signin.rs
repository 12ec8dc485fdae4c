//! The sign-in page and the sign-in decision.
use vstd::prelude::*;
use vstd::string::*;

use crate::oauth::error::Error;
use crate::oauth::routes::Callback;
use crate::oauth::routes::session::AuthUser;
use crate::oauth::routes::urlencoded::{encode_pair, form_pair, law_pair_value_is_recoverable};

verus! {

/// The text of an optional callback; no callback is the empty text.
pub open spec fn spec_query_text(query: Option<&Callback>) -> Seq<char> {
    match query {
        Some(c) => c.view(),
        None => Seq::empty(),
    }
}

/// The query the sign-in page carries on to its form: the callback in the
/// urlencoded form syntax, or nothing.
pub open spec fn spec_page_query(query: Option<&Callback>) -> Seq<char> {
    match query {
        Some(c) => form_pair("callback"@, c.view()),
        None => Seq::empty(),
    }
}

/// The query the sign-in page carries on to its form.
pub fn page_query(query: Option<&Callback>) -> (r: String)
    ensures
        r@ == spec_page_query(query),
        query matches Some(c) ==> r@ == form_pair("callback"@, c.view()),
        query is None ==> r@ == Seq::<char>::empty(),
{
    match query {
        Some(c) => encode_pair("callback", c.as_str()),
        None => String::new(),
    }
}

/// What checking the submitted credentials found.
pub enum SignInCheck {
    /// No user has the submitted name.
    UnknownUser,
    /// The store failed while checking the password.
    StoreFailure,
    /// The user with this id exists and the password does not match.
    WrongPassword { user_id: String },
    /// The user with this id exists and the password matches.
    Accepted { user_id: String },
}

/// How a sign-in is answered.
pub enum SignInReply {
    /// The sign-in page again, with this status and the callback text.
    Page { status: u16, query: String },
    /// A redirect with this status to this location.
    Redirect { status: u16, location: String },
    /// An error.
    Failed(Error),
}

/// The outcome of a sign-in: the user written into the session, if any, and
/// the answer.
pub struct SignInStep {
    pub session_user: Option<AuthUser>,
    pub reply: SignInReply,
}

/// Where a successful sign-in goes: the callback, or `/oauth/` without one.
pub open spec fn spec_signin_target(query: Option<&Callback>) -> Seq<char> {
    if spec_query_text(query).len() == 0 {
        "/oauth/"@
    } else {
        spec_query_text(query)
    }
}

/// A successful sign-in goes to the whole callback it was sent with, and to
/// `/oauth/` when there is no callback or it is empty.
pub proof fn law_signin_goes_to_the_whole_callback(c: Callback)
    ensures
        c.view().len() > 0 ==> spec_signin_target(Some(&c)) == c.view(),
        c.view().len() == 0 ==> spec_signin_target(Some(&c)) == "/oauth/"@,
        spec_signin_target(None) == "/oauth/"@,
{
}

/// The sign-in page carries on the whole callback as one urlencoded pair, and
/// nothing when there is none.
pub proof fn law_page_carries_the_whole_callback(c: Callback)
    ensures
        spec_page_query(Some(&c)) == form_pair("callback"@, c.view()),
        spec_page_query(None) == Seq::<char>::empty(),
{
}

/// The sign-in page loses nothing of the callback: two callbacks give the
/// same page query only when they are equal.
pub proof fn law_page_query_keeps_the_whole_callback(c1: Callback, c2: Callback)
    requires
        spec_page_query(Some(&c1)) == spec_page_query(Some(&c2)),
    ensures
        c1.view() == c2.view(),
{
    law_pair_value_is_recoverable("callback"@, c1.view(), c2.view());
}

/// The id of the user the check found, if it found one.
pub open spec fn spec_found_user(check: SignInCheck) -> Option<Seq<char>> {
    match check {
        SignInCheck::WrongPassword { user_id } => Some(user_id@),
        SignInCheck::Accepted { user_id } => Some(user_id@),
        _ => None,
    }
}

/// The outcome of a sign-in for the submitted `username`. An unknown user
/// never reaches the session; an existing user is written into it, under its
/// record's id and the submitted name, as soon as the password has been
/// checked, whatever the check found. Only a matching password is redirected
/// onward.
pub fn sign_in_step(check: SignInCheck, username: &str, query: Option<&Callback>) -> (r: SignInStep)
    ensures
        match spec_found_user(check) {
            Some(id) => r.session_user matches Some(u) && u.user_id@ == id && u.username@ == username@,
            None => r.session_user is None,
        },
        (check is UnknownUser || check is WrongPassword) ==> (
        r.reply matches SignInReply::Page { status, query: q } && status == 401 && q@
            == spec_query_text(query)),
        check is StoreFailure ==> (r.reply matches SignInReply::Failed(e) && e is Database),
        check is Accepted ==> (r.reply matches SignInReply::Redirect { status, location }
            && status == 303 && location@ == spec_signin_target(query)),
        (check is Accepted && query is Some && query->Some_0.view().len() > 0) ==> (
        r.reply matches SignInReply::Redirect { location, .. } && location@ == query->Some_0.view()),
        (check is Accepted && (query is None || query->Some_0.view().len() == 0)) ==> (
        r.reply matches SignInReply::Redirect { location, .. } && location@ == "/oauth/"@),
        ((check is UnknownUser || check is WrongPassword) && query is Some) ==> (
        r.reply matches SignInReply::Page { query: q, .. } && q@ == query->Some_0.view()),
{
    let text = match query {
        Some(c) => String::from_str(c.as_str()),
        None => String::new(),
    };
    match check {
        SignInCheck::UnknownUser => SignInStep {
            session_user: None,
            reply: SignInReply::Page { status: 401, query: text },
        },
        SignInCheck::StoreFailure => SignInStep {
            session_user: None,
            reply: SignInReply::Failed(Error::Database),
        },
        SignInCheck::WrongPassword { user_id } => SignInStep {
            session_user: Some(AuthUser { user_id, username: String::from_str(username) }),
            reply: SignInReply::Page { status: 401, query: text },
        },
        SignInCheck::Accepted { user_id } => {
            let location = if text.as_str().unicode_len() == 0 {
                String::from_str("/oauth/")
            } else {
                text
            };
            SignInStep {
                session_user: Some(AuthUser { user_id, username: String::from_str(username) }),
                reply: SignInReply::Redirect { status: 303, location },
            }
        },
    }
}

} // verus!
