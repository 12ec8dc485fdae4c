//! The signed-in user of a request, and the redirect to the sign-in page that
//! answers a request without one.
use vstd::prelude::*;
use vstd::string::*;

use crate::oauth::routes::Callback;
use crate::oauth::routes::urlencoded::{encode_pair, form_bytes, form_pair, law_pair_is_one_field, law_pair_value_is_recoverable};
use vstd::utf8::encode_utf8;

verus! {

/// A signed-in user, as the session records it.
#[derive(Clone, Debug)]
pub struct AuthUser {
    pub user_id: String,
    pub username: String,
}

/// The user a request is signed in as.
pub struct Session {
    pub user: AuthUser,
}

/// `s` with every leading occurrence of `p` taken off, one after another.
pub open spec fn strip_all(s: Seq<char>, p: Seq<char>) -> Seq<char>
    decreases s.len(),
{
    if p.len() > 0 && p.len() <= s.len() && s.subrange(0, p.len() as int) == p {
        strip_all(s.subrange(p.len() as int, s.len() as int), p)
    } else {
        s
    }
}

/// Whether `s` begins with `p`.
fn begins_with(s: &str, p: &str) -> (r: bool)
    ensures
        r == (p@.len() <= s@.len() && s@.subrange(0, p@.len() as int) == p@),
{
    let n = s.unicode_len();
    let m = p.unicode_len();
    if m > n {
        return false;
    }
    let mut i: usize = 0;
    while i < m
        invariant
            n == s@.len(),
            m == p@.len(),
            m <= n,
            i <= m,
            forall|j: int| 0 <= j < i ==> s@[j] == p@[j],
        decreases m - i,
    {
        if s.get_char(i) != p.get_char(i) {
            assert(s@.subrange(0, m as int)[i as int] != p@[i as int]);
            return false;
        }
        i = i + 1;
    }
    assert(s@.subrange(0, m as int) =~= p@);
    true
}

/// `s` with every leading occurrence of `p` taken off.
pub fn strip_leading<'a>(s: &'a str, p: &str) -> (r: &'a str)
    ensures
        r@ == strip_all(s@, p@),
{
    let m = p.unicode_len();
    if m == 0 {
        return s;
    }
    let mut cur = s;
    loop
        invariant
            m == p@.len(),
            m > 0,
            strip_all(cur@, p@) == strip_all(s@, p@),
        decreases cur@.len(),
    {
        let n = cur.unicode_len();
        if !begins_with(cur, p) {
            return cur;
        }
        cur = cur.substring_char(m, n);
    }
}

/// The target a request is sent back to after signing in: its path and query
/// with the leading `/oauth` prefixes and then the leading slashes taken off.
pub open spec fn spec_callback_target(path_and_query: Seq<char>) -> Seq<char> {
    strip_all(strip_all(path_and_query, "/oauth"@), "/"@)
}

/// Where a request without a signed-in user is sent: the sign-in page, with
/// the request's own target as its urlencoded `callback`.
pub open spec fn spec_signin_location(path_and_query: Seq<char>) -> Seq<char> {
    "/oauth/signin?"@ + form_pair("callback"@, spec_callback_target(path_and_query))
}

/// Stripping leaves a suffix of the text, which no longer begins with the
/// stripped prefix.
proof fn lemma_strip_all_suffix(s: Seq<char>, p: Seq<char>)
    ensures
        strip_all(s, p).len() <= s.len(),
        strip_all(s, p) == s.subrange(s.len() - strip_all(s, p).len(), s.len() as int),
        !(p.len() > 0 && p.len() <= strip_all(s, p).len() && strip_all(s, p).subrange(0, p.len() as int)
            == p),
    decreases s.len(),
{
    if p.len() > 0 && p.len() <= s.len() && s.subrange(0, p.len() as int) == p {
        let rest = s.subrange(p.len() as int, s.len() as int);
        lemma_strip_all_suffix(rest, p);
        let r = strip_all(rest, p);
        assert(rest.subrange(rest.len() - r.len(), rest.len() as int) =~= s.subrange(
            s.len() - r.len(),
            s.len() as int,
        ));
    } else {
        assert(s.subrange(0, s.len() as int) =~= s);
    }
}

/// The callback target is the request's own path and query with only a
/// leading part taken off: it is a suffix of the path and query, it does not
/// begin with `/`, and a target that does not begin with `/` is kept whole.
pub proof fn law_callback_is_the_rest_of_the_target(path_and_query: Seq<char>)
    ensures
        ({
            let t = spec_callback_target(path_and_query);
            &&& t.len() <= path_and_query.len()
            &&& t == path_and_query.subrange(path_and_query.len() - t.len(), path_and_query.len() as int)
            &&& (t.len() == 0 || t[0] != '/')
            &&& ((path_and_query.len() == 0 || path_and_query[0] != '/') ==> t == path_and_query)
        }),
{
    reveal_strlit("/oauth");
    reveal_strlit("/");
    let pq = path_and_query;
    let a = strip_all(pq, "/oauth"@);
    lemma_strip_all_suffix(pq, "/oauth"@);
    lemma_strip_all_suffix(a, "/"@);
    let t = strip_all(a, "/"@);
    assert(a.subrange(a.len() - t.len(), a.len() as int) =~= pq.subrange(
        pq.len() - t.len(),
        pq.len() as int,
    ));
    assert("/"@ =~= seq!['/']);
    assert("/oauth"@.len() == 6 && "/oauth"@[0] == '/');
    if t.len() > 0 {
        assert(t.subrange(0, 1) =~= seq![t[0]]);
    }
    if pq.len() == 0 || pq[0] != '/' {
        if pq.len() >= 6 {
            assert(pq.subrange(0, 6)[0] == pq[0]);
            assert(pq.subrange(0, 6) != "/oauth"@);
        }
        assert(a == pq);
        if pq.len() >= 1 {
            assert(pq.subrange(0, 1)[0] == pq[0]);
            assert(pq.subrange(0, 1) != "/"@);
        }
        assert(t == pq);
    }
}

/// The sign-in redirect loses nothing of the target: two requests are sent
/// to the same location only when their callback targets are equal.
pub proof fn law_redirect_keeps_the_whole_target(pq1: Seq<char>, pq2: Seq<char>)
    requires
        spec_signin_location(pq1) == spec_signin_location(pq2),
    ensures
        spec_callback_target(pq1) == spec_callback_target(pq2),
{
    let lead = "/oauth/signin?"@;
    let q1 = form_pair("callback"@, spec_callback_target(pq1));
    let q2 = form_pair("callback"@, spec_callback_target(pq2));
    let l = spec_signin_location(pq1);
    assert(q1 =~= l.subrange(lead.len() as int, l.len() as int));
    assert(q2 =~= l.subrange(lead.len() as int, l.len() as int));
    law_pair_value_is_recoverable("callback"@, spec_callback_target(pq1), spec_callback_target(pq2));
}

/// Whatever the request target holds, the sign-in redirect carries it back as
/// a single `callback` field: the query after `/oauth/signin?` holds no `&`,
/// and its one `=` follows the field name.
pub proof fn law_redirect_carries_one_callback(path_and_query: Seq<char>)
    ensures
        ({
            let q = form_pair("callback"@, spec_callback_target(path_and_query));
            &&& spec_signin_location(path_and_query) == "/oauth/signin?"@ + q
            &&& forall|i: int| 0 <= i < q.len() ==> #[trigger] q[i] != '&'
            &&& forall|i: int| 0 <= i < q.len() && #[trigger] q[i] == '=' ==> i
                == form_bytes(encode_utf8("callback"@)).len()
        }),
{
    law_pair_is_one_field("callback"@, spec_callback_target(path_and_query));
}

/// The answer to a request that needs a signed-in user and has none: a
/// `303 See Other` to the sign-in page.
#[derive(Debug)]
pub struct SignInRedirect {
    location: String,
}

impl SignInRedirect {
    /// Where the redirect points.
    pub closed spec fn view(&self) -> Seq<char> {
        self.location@
    }

    /// The redirect for a request with the given path and query.
    pub fn for_request(path_and_query: &str) -> (r: Self)
        ensures
            r.view() == spec_signin_location(path_and_query@),
            r.view() == "/oauth/signin?"@ + form_pair(
                "callback"@,
                strip_all(strip_all(path_and_query@, "/oauth"@), "/"@),
            ),
    {
        let target = strip_leading(strip_leading(path_and_query, "/oauth"), "/");
        let callback = Callback::from_str(target);
        let mut location = String::from_str("/oauth/signin?");
        let query = encode_pair("callback", callback.as_str());
        location.append(query.as_str());
        SignInRedirect { location }
    }

    /// Where the redirect points.
    pub fn location(&self) -> (r: &str)
        ensures
            r@ == self.view(),
    {
        self.location.as_str()
    }

    /// A redirect is always a `303 See Other`.
    pub fn status_code(&self) -> (r: u16)
        ensures
            r == 303,
    {
        303
    }

    /// The message this redirect displays: `redirect to ` and its location.
    pub fn message(&self) -> (r: String)
        ensures
            r@ == "redirect to "@ + self.view(),
    {
        let mut s = String::from_str("redirect to ");
        s.append(self.location.as_str());
        s
    }
}

} // verus!
