use axum_oauth::oauth::routes::dispatch::{allow_header, all_routes, handles, route_path, route_scope, HttpMethod, Route};
use axum_oauth::oauth::routes::media::{
    declared_media_type, declares_json, declares_urlencoded, header_text, is_json_media, is_urlencoded_media, same_text,
    MediaType,
};
use axum_oauth::oauth::routes::{
    form_decode_rejection, form_step, json_decode_rejection, json_step, query_rejection, restage_query, BodyStep,
    Form, JsonFailure, FORM_MEDIA_MESSAGE, JSON_MEDIA_MESSAGE,
};

#[test]
fn header_text_takes_visible_ascii_and_tabs() {
    assert_eq!(header_text(b"text/plain").as_deref(), Some("text/plain"));
    assert_eq!(header_text(b"a\tb").as_deref(), Some("a\tb"));
    assert_eq!(header_text(b"").as_deref(), Some(""));
    assert_eq!(header_text(b"caf\xc3\xa9"), None);
    assert_eq!(header_text(b"a\nb"), None);
    assert_eq!(header_text(&[0x7f]), None);
}

#[test]
fn same_text_compares_characters() {
    assert!(same_text("json", "json"));
    assert!(!same_text("json", "jsonx"));
    assert!(!same_text("json", "JSON"));
    assert!(same_text("", ""));
}

#[test]
fn media_types_are_parsed_in_lower_case() {
    let m = declared_media_type(Some(b"Application/Vnd.Api+JSON; charset=utf-8")).unwrap();
    assert_eq!(m.type_, "application");
    assert_eq!(m.subtype, "vnd.api");
    assert_eq!(m.suffix.as_deref(), Some("json"));
    assert!(declared_media_type(Some(b"not a media type")).is_none());
    assert!(declared_media_type(None).is_none());
}

#[test]
fn json_declarations_accept_plain_and_suffixed_json() {
    assert!(declares_json(Some(b"application/json")));
    assert!(declares_json(Some(b"application/json; charset=utf-8")));
    assert!(declares_json(Some(b"application/problem+json")));
    assert!(declares_json(Some(b"APPLICATION/JSON")));
    assert!(!declares_json(Some(b"text/json")));
    assert!(!declares_json(Some(b"application/x-www-form-urlencoded")));
    assert!(!declares_json(Some(b"json")));
    assert!(!declares_json(None));
}

#[test]
fn urlencoded_declarations_need_the_exact_form_type() {
    assert!(declares_urlencoded(Some(b"application/x-www-form-urlencoded")));
    assert!(declares_urlencoded(Some(b"application/x-www-form-urlencoded; charset=utf-8")));
    assert!(!declares_urlencoded(Some(b"application/json")));
    assert!(!declares_urlencoded(Some(b"multipart/form-data")));
    assert!(!declares_urlencoded(None));
    assert!(!declares_urlencoded(Some(b"application/x-www-form-urlencoded\xff")));
}

#[test]
fn a_form_without_a_content_type_is_unsupported() {
    match form_step(true, None) {
        BodyStep::Rejected(r) => {
            assert_eq!(r.status, 415);
            assert_eq!(r.content_type, "text/plain; charset=utf-8");
            assert_eq!(
                r.message,
                "Form requests must have `Content-Type: application/x-www-form-urlencoded`"
            );
        }
        _ => panic!("expected a rejection"),
    }
    match form_step(true, Some(b"application/json")) {
        BodyStep::Rejected(r) => {
            assert_eq!(r.status, 415);
            assert_eq!(r.message, FORM_MEDIA_MESSAGE);
        }
        _ => panic!("expected a rejection"),
    }
    assert!(matches!(form_step(true, Some(b"application/x-www-form-urlencoded")), BodyStep::Decode));
    assert!(matches!(form_step(false, None), BodyStep::ReadFailed));
    assert!(matches!(form_step(false, Some(b"application/x-www-form-urlencoded")), BodyStep::ReadFailed));
}

#[test]
fn a_json_body_needs_a_json_declaration() {
    match json_step(true, Some(b"text/plain")) {
        BodyStep::Rejected(r) => {
            assert_eq!(r.status, 415);
            assert_eq!(r.message, JSON_MEDIA_MESSAGE);
            assert_eq!(r.message, "Expected request with `Content-Type: application/json`");
        }
        _ => panic!("expected a rejection"),
    }
    assert!(matches!(json_step(true, Some(b"application/json")), BodyStep::Decode));
    assert!(matches!(json_step(false, Some(b"text/plain")), BodyStep::ReadFailed));
}

#[test]
fn decode_failures_name_their_cause() {
    let r = form_decode_rejection("missing field `password`");
    assert_eq!(r.status, 422);
    assert_eq!(r.content_type, "text/plain; charset=utf-8");
    assert_eq!(r.message, "Failed to deserialize form body: missing field `password`");

    let r = query_rejection("missing field `consent`");
    assert_eq!(r.status, 400);
    assert_eq!(r.content_type, "text/plain; charset=utf-8");
    assert_eq!(r.message, "Failed to deserialize query string: missing field `consent`");

    let r = json_decode_rejection(JsonFailure::Data, "given_name: invalid type");
    assert_eq!(r.status, 422);
    assert_eq!(r.content_type, "text/plain; charset=utf-8");
    assert_eq!(
        r.message,
        "Failed to deserialize the JSON body into the target type: given_name: invalid type"
    );
    for failure in [JsonFailure::Syntax, JsonFailure::Eof, JsonFailure::Io] {
        let r = json_decode_rejection(failure, "key must be a string at line 1 column 3");
        assert_eq!(r.status, 400);
        assert_eq!(
            r.message,
            "Failed to parse the request body as JSON: key must be a string at line 1 column 3"
        );
    }
}

#[test]
fn get_and_head_queries_become_form_bodies() {
    for method in [HttpMethod::Get, HttpMethod::Head] {
        let r = restage_query(method, "grant_type=refresh_token&refresh_token=abc").unwrap();
        assert_eq!(r.content_type, "application/x-www-form-urlencoded");
        assert_eq!(r.body, "grant_type=refresh_token&refresh_token=abc");
    }
    for method in [HttpMethod::Post, HttpMethod::Put, HttpMethod::Delete, HttpMethod::Options] {
        assert!(restage_query(method, "a=b").is_none());
    }
}

#[test]
fn form_hands_back_its_value() {
    assert_eq!(Form(7u32).into_inner(), 7);
}

#[test]
fn allow_lists_match_the_handled_methods() {
    assert_eq!(allow_header(Route::SignIn), "GET,HEAD,POST");
    assert_eq!(allow_header(Route::Authorize), "GET,HEAD,POST");
    assert_eq!(allow_header(Route::User), "GET,HEAD,POST");
    assert_eq!(allow_header(Route::Refresh), "GET,HEAD");
    assert_eq!(allow_header(Route::SignUp), "POST");
    assert_eq!(allow_header(Route::SignOut), "POST");
    assert_eq!(allow_header(Route::Token), "POST");
    assert_eq!(allow_header(Route::Client), "POST");

    let names = [
        (HttpMethod::Get, "GET"),
        (HttpMethod::Head, "HEAD"),
        (HttpMethod::Post, "POST"),
        (HttpMethod::Put, "PUT"),
        (HttpMethod::Delete, "DELETE"),
        (HttpMethod::Patch, "PATCH"),
        (HttpMethod::Options, "OPTIONS"),
    ];
    for route in all_routes() {
        let allow = allow_header(route);
        let listed: Vec<&str> = allow.split(',').collect();
        for (method, name) in names {
            assert_eq!(handles(route, method), listed.contains(&name), "{route:?} {name}");
        }
        assert!(!handles(route, HttpMethod::Other));
    }
}

#[test]
fn routes_have_their_paths() {
    assert_eq!(route_scope(Route::User), "/api");
    assert_eq!(route_scope(Route::SignIn), "/oauth");
    assert_eq!(route_path(Route::Authorize), "/authorize");
    assert_eq!(route_path(Route::SignOut), "/signout");
    assert_eq!(route_path(Route::User), "/user");
    assert_eq!(all_routes().len(), 8);
}

fn media(type_: &str, subtype: &str, suffix: Option<&str>) -> MediaType {
    MediaType { type_: type_.to_string(), subtype: subtype.to_string(), suffix: suffix.map(str::to_string) }
}

#[test]
fn json_media_is_application_json_or_a_json_suffix() {
    assert!(is_json_media(&media("application", "json", None)));
    assert!(is_json_media(&media("application", "vnd.api", Some("json"))));
    assert!(is_json_media(&media("application", "json", Some("xml"))));
    assert!(!is_json_media(&media("application", "xml", None)));
    assert!(!is_json_media(&media("text", "json", None)));
    assert!(!is_json_media(&media("text", "plain", Some("json"))));
    assert!(!is_json_media(&media("application", "JSON", None)));
}

#[test]
fn urlencoded_media_is_exactly_the_form_type() {
    assert!(is_urlencoded_media(&media("application", "x-www-form-urlencoded", None)));
    assert!(is_urlencoded_media(&media("application", "x-www-form-urlencoded", Some("json"))));
    assert!(!is_urlencoded_media(&media("application", "json", None)));
    assert!(!is_urlencoded_media(&media("text", "x-www-form-urlencoded", None)));
}
