use actix_web::cookie::{Cookie, CookieJar};
use axum_oauth::oauth::routes::session::{strip_leading, AuthUser, Session, SignInRedirect};
use axum_oauth::oauth::routes::signin::{page_query, sign_in_step, SignInCheck, SignInReply};
use axum_oauth::oauth::routes::signout::removal_cookie;
use axum_oauth::oauth::routes::signup::sign_up_step;
use axum_oauth::oauth::routes::Callback;
use axum_oauth::oauth::error::Error;
use axum_oauth::oauth::sessions::MemorySessionStore;
use axum_oauth::server::{listen_address, session_cookie, SameSitePolicy};

fn state(pairs: &[(&str, &str)]) -> Vec<(String, String)> {
    pairs.iter().map(|(k, v)| (k.to_string(), v.to_string())).collect()
}

#[test]
fn a_stored_session_loads_until_it_expires() {
    let mut store = MemorySessionStore::new();
    let key = "k1".to_string();
    store.save(key.clone(), state(&[("user", "{\"name\":\"bob\"}")]), 1_000, 500);
    assert_eq!(store.load(&key, 1_000), Some(state(&[("user", "{\"name\":\"bob\"}")])));
    assert_eq!(store.load(&key, 1_499), Some(state(&[("user", "{\"name\":\"bob\"}")])));
    assert_eq!(store.load(&key, 1_500), None);
    // The expired record was dropped: it does not come back.
    assert_eq!(store.load(&key, 0), None);
}

#[test]
fn a_removed_session_cannot_be_replayed() {
    let mut store = MemorySessionStore::new();
    let key = "signed-in".to_string();
    store.save(key.clone(), state(&[("user", "bob")]), 0, 86_400);
    store.remove(&key);
    assert_eq!(store.load(&key, 1), None);
    // Removing a key that is not there is harmless.
    store.remove(&key);
    assert_eq!(store.load(&key, 1), None);
}

#[test]
fn storing_under_a_key_replaces_only_that_record() {
    let mut store = MemorySessionStore::new();
    let a = "a".to_string();
    let b = "b".to_string();
    store.save(a.clone(), state(&[("n", "1")]), 0, 100);
    store.save(b.clone(), state(&[("n", "2")]), 0, 100);
    store.save(a.clone(), state(&[("n", "3")]), 0, 100);
    assert_eq!(store.load(&a, 10), Some(state(&[("n", "3")])));
    assert_eq!(store.load(&b, 10), Some(state(&[("n", "2")])));
    store.remove(&a);
    assert_eq!(store.load(&b, 10), Some(state(&[("n", "2")])));
}

#[test]
fn renewing_moves_only_the_expiry() {
    let mut store = MemorySessionStore::new();
    let key = "k".to_string();
    store.save(key.clone(), state(&[("x", "y")]), 0, 10);
    store.update_ttl(&key, 5, 100);
    assert_eq!(store.load(&key, 50), Some(state(&[("x", "y")])));
    store.update_ttl(&key, 0, 1);
    assert_eq!(store.load(&key, 1), None);
    let missing = "missing".to_string();
    store.update_ttl(&missing, 0, 100);
    assert_eq!(store.load(&missing, 1), None);
}

#[test]
fn a_missing_session_redirects_to_sign_in_with_a_callback() {
    let r = SignInRedirect::for_request("/oauth/authorize?response_type=code&client_id=LocalClient");
    assert_eq!(
        r.location(),
        "/oauth/signin?callback=authorize%3Fresponse_type%3Dcode%26client_id%3DLocalClient"
    );
    assert_eq!(r.status_code(), 303);
    assert_eq!(
        r.message(),
        "redirect to /oauth/signin?callback=authorize%3Fresponse_type%3Dcode%26client_id%3DLocalClient"
    );
    assert_eq!(SignInRedirect::for_request("").location(), "/oauth/signin?callback=");
    assert_eq!(
        SignInRedirect::for_request("/oauth/oauth//x y").location(),
        "/oauth/signin?callback=x+y"
    );
}

#[test]
fn leading_prefixes_are_stripped_repeatedly() {
    assert_eq!(strip_leading("/oauth/oauth/x", "/oauth"), "/x");
    assert_eq!(strip_leading("///x/", "/"), "x/");
    assert_eq!(strip_leading("x/oauth", "/oauth"), "x/oauth");
    assert_eq!(strip_leading("abc", ""), "abc");
    assert_eq!(strip_leading("/oau", "/oauth"), "/oau");
}

#[test]
fn pairs_are_urlencoded_byte_by_byte() {
    let encoded = |s: &str| page_query(Some(&Callback::from_str(s)));
    assert_eq!(encoded("a b"), "callback=a+b");
    assert_eq!(encoded("*-._~!"), "callback=*-._%7E%21");
    assert_eq!(encoded("é"), "callback=%C3%A9");
    assert_eq!(encoded(""), "callback=");
    assert_eq!(encoded("AZaz09"), "callback=AZaz09");
}

#[test]
fn the_sign_in_page_carries_the_callback_on() {
    assert_eq!(page_query(Some(&Callback::from_str("authorize?x=1"))), "callback=authorize%3Fx%3D1");
    assert_eq!(page_query(None), "");
    assert_eq!(Callback::from_str("authorize").as_str(), "authorize");
    assert_eq!(Callback::default().as_str(), "");
}

#[test]
fn an_unknown_user_never_reaches_the_session() {
    let step = sign_in_step(SignInCheck::UnknownUser, "nobody", Some(&Callback::from_str("authorize?a=b")));
    assert!(step.session_user.is_none());
    match step.reply {
        SignInReply::Page { status, query } => {
            assert_eq!(status, 401);
            assert_eq!(query, "authorize?a=b");
        }
        _ => panic!("expected the sign-in page"),
    }
}

#[test]
fn a_wrong_password_still_writes_the_session() {
    let step = sign_in_step(SignInCheck::WrongPassword { user_id: "42".to_string() }, "bob", None);
    let user = step.session_user.expect("the user is written into the session");
    assert_eq!(user.user_id, "42");
    assert_eq!(user.username, "bob");
    match step.reply {
        SignInReply::Page { status, query } => {
            assert_eq!(status, 401);
            assert_eq!(query, "");
        }
        _ => panic!("expected the sign-in page"),
    }
}

#[test]
fn a_successful_sign_in_redirects_to_the_callback() {
    let step = sign_in_step(SignInCheck::Accepted { user_id: "7".to_string() }, "bob", None);
    let user = step.session_user.as_ref().expect("the user is written into the session");
    assert_eq!(user.user_id, "7");
    assert_eq!(user.username, "bob");
    match step.reply {
        SignInReply::Redirect { status, location } => {
            assert_eq!(status, 303);
            assert_eq!(location, "/oauth/");
        }
        _ => panic!("expected a redirect"),
    }
    let empty = Callback::from_str("");
    match sign_in_step(SignInCheck::Accepted { user_id: "7".to_string() }, "bob", Some(&empty)).reply {
        SignInReply::Redirect { location, .. } => assert_eq!(location, "/oauth/"),
        _ => panic!("expected a redirect"),
    }
    let callback = Callback::from_str("authorize?response_type=code");
    match sign_in_step(SignInCheck::Accepted { user_id: "7".to_string() }, "bob", Some(&callback)).reply {
        SignInReply::Redirect { location, .. } => assert_eq!(location, "authorize?response_type=code"),
        _ => panic!("expected a redirect"),
    }
}

#[test]
fn a_store_failure_during_sign_in_is_a_database_error() {
    let step = sign_in_step(SignInCheck::StoreFailure, "bob", None);
    assert!(step.session_user.is_none());
    match step.reply {
        SignInReply::Failed(e) => {
            assert!(matches!(e, Error::Database));
            assert_eq!(e.status_code(), 500);
        }
        _ => panic!("expected an error"),
    }
}

#[test]
fn a_taken_name_is_a_conflict() {
    match sign_up_step(true) {
        Err(e) => {
            assert!(matches!(e, Error::ResourceConflict));
            let reply = e.reply();
            assert_eq!(reply.status, 409);
            assert_eq!(reply.content_type.as_deref(), Some("text/plain; charset=utf-8"));
            assert_eq!(reply.body, "User already exists");
        }
        Ok(_) => panic!("expected a conflict"),
    }
    assert_eq!(sign_up_step(false).ok(), Some(201));
}

#[test]
fn the_session_cookie_lives_a_day_on_oauth() {
    let c = session_cookie();
    assert_eq!(c.name, "axum_oauth");
    assert_eq!(c.path, "/oauth/");
    assert!(c.http_only && c.secure);
    assert_eq!(c.same_site, SameSitePolicy::Lax);
    assert_eq!(c.max_age_seconds, 86400);
}

#[test]
fn the_removal_cookie_targets_the_session_cookie() {
    let r = removal_cookie();
    let c = session_cookie();
    assert_eq!(r.name, c.name);
    assert_eq!(r.path, c.path);
    assert_eq!(r.max_age_seconds, 0);
    assert!(r.http_only);
    assert!(!r.secure);
    assert_eq!(r.same_site, SameSitePolicy::Absent);
}

#[test]
fn the_listen_address_defaults_to_every_interface() {
    assert_eq!(listen_address(None, 3000), "0.0.0.0:3000");
    assert_eq!(listen_address(None, 0), "0.0.0.0:0");
    assert_eq!(listen_address(None, 9), "0.0.0.0:9");
    assert_eq!(listen_address(None, 10), "0.0.0.0:10");
    assert_eq!(listen_address(None, 65535), "0.0.0.0:65535");
    assert_eq!(listen_address(Some("127.0.0.1:0".to_string()), 3000), "127.0.0.1:0");
}

#[test]
fn a_session_names_its_user() {
    let s = Session { user: AuthUser { user_id: "1".to_string(), username: "bob".to_string() } };
    assert_eq!(s.user.username, "bob");
}

#[test]
fn a_hostile_target_stays_one_callback_field() {
    let r = SignInRedirect::for_request("/oauth/authorize?a=1&callback=evil#frag");
    assert_eq!(
        r.location(),
        "/oauth/signin?callback=authorize%3Fa%3D1%26callback%3Devil%23frag"
    );
    let query = &r.location()["/oauth/signin?".len()..];
    assert!(!query.contains('&'));
    assert_eq!(query.matches('=').count(), 1);
}

fn sealed(key: &actix_web::cookie::Key, name: &str, value: &str) -> String {
    let mut jar = CookieJar::new();
    jar.private_mut(key).add(Cookie::new(name.to_string(), value.to_string()));
    jar.get(name).unwrap().value().to_string()
}

#[test]
fn signing_out_destroys_the_session_the_cookie_names() {
    let key = actix_web::cookie::Key::from(&[7u8; 64]);
    let mut store = MemorySessionStore::new();
    let mine = "session-one".to_string();
    let other = "session-two".to_string();
    store.save(mine.clone(), state(&[("user", "bob")]), 0, 1_000);
    store.save(other.clone(), state(&[("user", "alice")]), 0, 1_000);

    let cookie = sealed(&key, "axum_oauth", "session-one");
    store.destroy(key.master(), "axum_oauth", Some(&cookie));
    assert_eq!(store.load(&mine, 1), None);
    assert_eq!(store.load(&other, 1), Some(state(&[("user", "alice")])));
}

#[test]
fn a_cookie_that_does_not_unseal_destroys_nothing() {
    let key = actix_web::cookie::Key::from(&[7u8; 64]);
    let other_key = actix_web::cookie::Key::from(&[9u8; 64]);
    let mut store = MemorySessionStore::new();
    let mine = "session-one".to_string();
    store.save(mine.clone(), state(&[("user", "bob")]), 0, 1_000);

    store.destroy(key.master(), "axum_oauth", None);
    store.destroy(key.master(), "axum_oauth", Some("session-one"));
    store.destroy(key.master(), "axum_oauth", Some(&sealed(&other_key, "axum_oauth", "session-one")));
    store.destroy(key.master(), "axum_oauth", Some(&sealed(&key, "another_name", "session-one")));
    assert_eq!(store.load(&mine, 1), Some(state(&[("user", "bob")])));
}
