//! The routing table: which resource answers which method, and the `Allow`
//! list a method mismatch is answered with.
use vstd::prelude::*;
use vstd::string::*;

verus! {

/// The request methods the server tells apart.
#[derive(Clone, Copy, PartialEq, Eq, Structural, Debug)]
pub enum HttpMethod {
    Get,
    Head,
    Post,
    Put,
    Delete,
    Patch,
    Options,
    Other,
}

/// Every resource the server routes to.
#[derive(Clone, Copy, PartialEq, Eq, Structural, Debug)]
pub enum Route {
    Authorize,
    Refresh,
    Token,
    Client,
    SignIn,
    SignOut,
    SignUp,
    User,
}

/// The methods a route has a handler for, in the order the `Allow` header lists them.
/// `HEAD` has a handler of its own wherever `GET` has one.
pub open spec fn spec_allowed(route: Route) -> Seq<HttpMethod> {
    match route {
        Route::Authorize => seq![HttpMethod::Get, HttpMethod::Head, HttpMethod::Post],
        Route::Refresh => seq![HttpMethod::Get, HttpMethod::Head],
        Route::Token => seq![HttpMethod::Post],
        Route::Client => seq![HttpMethod::Post],
        Route::SignIn => seq![HttpMethod::Get, HttpMethod::Head, HttpMethod::Post],
        Route::SignOut => seq![HttpMethod::Post],
        Route::SignUp => seq![HttpMethod::Post],
        Route::User => seq![HttpMethod::Get, HttpMethod::Head, HttpMethod::Post],
    }
}

/// Whether `route` has a handler for `method`.
pub fn handles(route: Route, method: HttpMethod) -> (r: bool)
    ensures
        r == spec_allowed(route).contains(method),
{
    let r = match route {
        Route::Authorize | Route::SignIn | Route::User => {
            method == HttpMethod::Get || method == HttpMethod::Head || method == HttpMethod::Post
        },
        Route::Refresh => method == HttpMethod::Get || method == HttpMethod::Head,
        Route::Token | Route::Client | Route::SignOut | Route::SignUp => method == HttpMethod::Post,
    };
    proof {
        let s = spec_allowed(route);
        if r {
            let i = if method == HttpMethod::Post { s.len() - 1 } else if method == HttpMethod::Head { 1int } else { 0int };
            assert(s[i] == method);
        } else {
            assert forall|i: int| 0 <= i < s.len() implies s[i] != method by {}
        }
    }
    r
}

/// The name of a method as the `Allow` header spells it.
pub open spec fn spec_method_name(m: HttpMethod) -> Seq<char> {
    match m {
        HttpMethod::Get => "GET"@,
        HttpMethod::Head => "HEAD"@,
        HttpMethod::Post => "POST"@,
        HttpMethod::Put => "PUT"@,
        HttpMethod::Delete => "DELETE"@,
        HttpMethod::Patch => "PATCH"@,
        HttpMethod::Options => "OPTIONS"@,
        HttpMethod::Other => "OTHER"@,
    }
}

/// Method names joined with commas.
pub open spec fn spec_join(ms: Seq<HttpMethod>) -> Seq<char>
    decreases ms.len(),
{
    if ms.len() == 0 {
        Seq::empty()
    } else if ms.len() == 1 {
        spec_method_name(ms[0])
    } else {
        spec_join(ms.drop_last()) + ","@ + spec_method_name(ms.last())
    }
}

/// The `Allow` header a method mismatch on `route` is answered with: exactly
/// the methods the route has a handler for.
pub open spec fn spec_allow_header(route: Route) -> Seq<char> {
    spec_join(spec_allowed(route))
}

/// The `Allow` header of a route.
pub fn allow_header(route: Route) -> (r: String)
    ensures
        r@ == spec_allow_header(route),
{
    let r = match route {
        Route::Authorize | Route::SignIn | Route::User => {
            let mut s = String::from_str("GET");
            s.append(",");
            s.append("HEAD");
            s.append(",");
            s.append("POST");
            s
        },
        Route::Refresh => {
            let mut s = String::from_str("GET");
            s.append(",");
            s.append("HEAD");
            s
        },
        Route::Token | Route::Client | Route::SignOut | Route::SignUp => String::from_str("POST"),
    };
    proof {
        reveal_with_fuel(spec_join, 3);
        let ms = spec_allowed(route);
        if ms.len() == 3 {
            assert(ms.drop_last().drop_last() =~= seq![HttpMethod::Get]);
            assert(ms.drop_last() =~= seq![HttpMethod::Get, HttpMethod::Head]);
        } else if ms.len() == 2 {
            assert(ms.drop_last() =~= seq![HttpMethod::Get]);
        }
    }
    r
}

/// The status a method mismatch is answered with.
pub const METHOD_NOT_ALLOWED: u16 = 405;

/// The scope a route is served under.
pub fn route_scope(route: Route) -> (r: &'static str)
    ensures
        route == Route::User ==> r@ == "/api"@,
        route != Route::User ==> r@ == "/oauth"@,
{
    match route {
        Route::User => "/api",
        _ => "/oauth",
    }
}

/// The path of a route within its scope. A path with a trailing slash is no
/// route.
pub fn route_path(route: Route) -> (r: &'static str)
    ensures
        r@ == match route {
            Route::Authorize => "/authorize"@,
            Route::Refresh => "/refresh"@,
            Route::Token => "/token"@,
            Route::Client => "/client"@,
            Route::SignIn => "/signin"@,
            Route::SignOut => "/signout"@,
            Route::SignUp => "/signup"@,
            Route::User => "/user"@,
        },
{
    match route {
        Route::Authorize => "/authorize",
        Route::Refresh => "/refresh",
        Route::Token => "/token",
        Route::Client => "/client",
        Route::SignIn => "/signin",
        Route::SignOut => "/signout",
        Route::SignUp => "/signup",
        Route::User => "/user",
    }
}

/// Every route.
pub fn all_routes() -> (r: Vec<Route>)
    ensures
        r@ == seq![
            Route::Authorize,
            Route::Refresh,
            Route::Token,
            Route::Client,
            Route::SignIn,
            Route::SignOut,
            Route::SignUp,
            Route::User,
        ],
        forall|x: Route| r@.contains(x),
{
    let r = vec![
        Route::Authorize,
        Route::Refresh,
        Route::Token,
        Route::Client,
        Route::SignIn,
        Route::SignOut,
        Route::SignUp,
        Route::User,
    ];
    proof {
        assert forall|x: Route| r@.contains(x) by {
            let i = match x {
                Route::Authorize => 0int,
                Route::Refresh => 1,
                Route::Token => 2,
                Route::Client => 3,
                Route::SignIn => 4,
                Route::SignOut => 5,
                Route::SignUp => 6,
                Route::User => 7,
            };
            assert(r@[i] == x);
        }
    }
    r
}

/// Wherever `GET` is answered, `HEAD` is answered too, and every route
/// answers at least one method.
pub proof fn law_head_follows_get(route: Route)
    ensures
        spec_allowed(route).contains(HttpMethod::Get) ==> spec_allowed(route).contains(HttpMethod::Head),
        spec_allowed(route).len() > 0,
{
    let s = spec_allowed(route);
    if s.contains(HttpMethod::Get) {
        assert(s[1] == HttpMethod::Head);
    }
}

} // verus!
