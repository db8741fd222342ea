use salvo_cors::allow_credentials::AllowCredentials;
use salvo_cors::allow_headers::AllowHeaders;
use salvo_cors::allow_methods::AllowMethods;
use salvo_cors::allow_origin::AllowOrigin;
use salvo_cors::expose_headers::ExposeHeaders;
use salvo_cors::headers::{CorsDecision, CorsHeaderName, CorsRequest};
use salvo_cors::max_age::MaxAge;
use salvo_cors::vary::Vary;
use salvo_cors::{Any, Cors, CorsHandler};

fn b(s: &str) -> Vec<u8> {
    s.as_bytes().to_vec()
}

fn bl(ss: &[&str]) -> Vec<Vec<u8>> {
    ss.iter().map(|s| b(s)).collect()
}

fn get_header(d: &CorsDecision, n: CorsHeaderName) -> Option<Vec<u8>> {
    for e in &d.headers {
        if e.name == n {
            return Some(e.value.clone());
        }
    }
    None
}

fn options_request(origin: Option<&str>, acrm: Option<&str>, acrh: Option<&str>) -> CorsRequest {
    CorsRequest {
        method: b("OPTIONS"),
        origin: origin.map(b),
        request_method: acrm.map(b),
        request_headers: acrh.map(b),
    }
}

fn get_request(origin: Option<&str>) -> CorsRequest {
    CorsRequest {
        method: b("GET"),
        origin: origin.map(b),
        request_method: None,
        request_headers: None,
    }
}

fn salvo_handler() -> CorsHandler {
    Cors::new()
        .allow_origin(AllowOrigin::exact(b("https://salvo.rs")))
        .allow_methods(AllowMethods::list(bl(&["GET", "POST", "OPTIONS"])))
        .allow_headers(AllowHeaders::list(bl(&[
            "CONTENT-TYPE",
            "Access-Control-Request-Method",
            "Access-Control-Allow-Origin",
            "Access-Control-Allow-Headers",
            "Access-Control-Max-Age",
        ])))
        .into_handler()
}

#[test]
fn test_cors() {
    let cors_handler = salvo_handler();

    let res = cors_handler.handle(&options_request(None, None, None), false, false);
    assert!(get_header(&res, CorsHeaderName::AllowMethods).is_none());

    let res = cors_handler.handle(
        &options_request(Some("https://salvo.rs"), Some("POST"), Some("Content-Type")),
        false,
        false,
    );
    assert!(get_header(&res, CorsHeaderName::AllowMethods).is_some());
    assert!(get_header(&res, CorsHeaderName::AllowHeaders).is_some());

    let res = cors_handler.handle(&options_request(None, None, None), false, false);
    assert!(
        get_header(&res, CorsHeaderName::AllowMethods).is_none(),
        "POST, GET, DELETE, OPTIONS"
    );
    assert!(get_header(&res, CorsHeaderName::AllowHeaders).is_none());
}

#[test]
fn preflight_allowed_origin_gets_methods_and_headers() {
    let handler = salvo_handler();
    let res = handler.handle(
        &options_request(Some("https://salvo.rs"), Some("POST"), Some("Content-Type")),
        false,
        false,
    );
    assert_eq!(res.status, Some(204));
    assert!(!res.forward);
    assert_eq!(
        get_header(&res, CorsHeaderName::AllowOrigin),
        Some(b("https://salvo.rs"))
    );
    let methods = get_header(&res, CorsHeaderName::AllowMethods).unwrap();
    assert!(!methods.is_empty());
    assert_eq!(methods, b("GET,POST,OPTIONS"));
    let headers = get_header(&res, CorsHeaderName::AllowHeaders).unwrap();
    assert!(!headers.is_empty());
    assert_eq!(
        headers,
        b("content-type,access-control-request-method,access-control-allow-origin,access-control-allow-headers,access-control-max-age")
    );
}

#[test]
fn preflight_disallowed_origin_gets_no_methods_or_headers() {
    let handler = salvo_handler();
    let res = handler.handle(
        &options_request(Some("https://google.com"), Some("POST"), Some("Content-Type")),
        false,
        false,
    );
    assert_eq!(res.status, Some(204));
    assert!(get_header(&res, CorsHeaderName::AllowOrigin).is_none());
    assert!(get_header(&res, CorsHeaderName::AllowMethods).is_none());
    assert!(get_header(&res, CorsHeaderName::AllowHeaders).is_none());
}

#[test]
fn preflight_without_origin_gets_no_allow_headers_at_all() {
    let handler = salvo_handler();
    let res = handler.handle(&options_request(None, Some("POST"), None), false, false);
    assert_eq!(res.status, Some(204));
    assert!(get_header(&res, CorsHeaderName::AllowOrigin).is_none());
    assert!(get_header(&res, CorsHeaderName::AllowMethods).is_none());
    assert!(get_header(&res, CorsHeaderName::AllowHeaders).is_none());
}

#[test]
fn no_origin_never_emits_allow_origin_except_wildcard() {
    let handler = salvo_handler();
    let res = handler.handle(&get_request(None), false, false);
    assert!(get_header(&res, CorsHeaderName::AllowOrigin).is_none());

    let wildcard = Cors::new().allow_origin(AllowOrigin::from(Any)).into_handler();
    let res = wildcard.handle(&get_request(None), false, false);
    assert_eq!(get_header(&res, CorsHeaderName::AllowOrigin), Some(b("*")));
}

#[test]
fn exact_origin_echoes_byte_identical_never_wildcard() {
    let handler = Cors::new()
        .allow_origin(AllowOrigin::list(bl(&["https://a.example", "https://b.example"])))
        .into_handler();

    let res = handler.handle(&get_request(Some("https://b.example")), false, false);
    assert_eq!(
        get_header(&res, CorsHeaderName::AllowOrigin),
        Some(b("https://b.example"))
    );

    let res = handler.handle(&get_request(Some("https://c.example")), false, false);
    assert!(get_header(&res, CorsHeaderName::AllowOrigin).is_none());
}

#[test]
fn credentials_with_any_wildcard_fails_validation() {
    let bad_origin = Cors::new()
        .allow_credentials(AllowCredentials::Yes)
        .allow_origin(AllowOrigin::Any);
    assert!(!bad_origin.ensure_usable_cors_rules());

    let bad_methods = Cors::new()
        .allow_credentials(AllowCredentials::Yes)
        .allow_methods(AllowMethods::Any);
    assert!(!bad_methods.ensure_usable_cors_rules());

    let bad_headers = Cors::new()
        .allow_credentials(AllowCredentials::Yes)
        .allow_headers(AllowHeaders::Any);
    assert!(!bad_headers.ensure_usable_cors_rules());

    let bad_expose = Cors::new()
        .allow_credentials(AllowCredentials::Yes)
        .expose_headers(ExposeHeaders::Any);
    assert!(!bad_expose.ensure_usable_cors_rules());

    let good = Cors::new()
        .allow_credentials(AllowCredentials::Yes)
        .allow_origin(AllowOrigin::exact(b("https://a.example")));
    assert!(good.ensure_usable_cors_rules());
    assert!(Cors::permissive().ensure_usable_cors_rules());
    assert!(Cors::very_permissive().ensure_usable_cors_rules());
}

#[test]
fn preflight_headers_never_leak_across_methods() {
    let handler = Cors::permissive().max_age(MaxAge::seconds(600)).into_handler();

    let res = handler.handle(&get_request(Some("https://a.example")), false, false);
    assert!(get_header(&res, CorsHeaderName::AllowMethods).is_none());
    assert!(get_header(&res, CorsHeaderName::AllowHeaders).is_none());
    assert!(get_header(&res, CorsHeaderName::MaxAge).is_none());
    assert_eq!(
        get_header(&res, CorsHeaderName::ExposeHeaders),
        Some(b("*"))
    );

    let res = handler.handle(
        &options_request(Some("https://a.example"), None, None),
        false,
        false,
    );
    assert!(get_header(&res, CorsHeaderName::ExposeHeaders).is_none());
    assert_eq!(get_header(&res, CorsHeaderName::MaxAge), Some(b("600")));
}

#[test]
fn options_is_answered_directly_and_never_forwarded() {
    let handler = salvo_handler();
    let res = handler.handle(
        &options_request(Some("https://salvo.rs"), Some("POST"), None),
        false,
        false,
    );
    assert_eq!(res.status, Some(204));
    assert!(!res.forward);

    let res = handler.handle(&get_request(Some("https://salvo.rs")), false, false);
    assert_eq!(res.status, None);
    assert!(res.forward);
}

#[test]
fn list_policies_join_deduplicated_in_configured_order() {
    let handler = Cors::new()
        .allow_origin(AllowOrigin::exact(b("https://a.example")))
        .allow_methods(AllowMethods::list(bl(&["post", "GET", "POST", "get", "DELETE"])))
        .allow_headers(AllowHeaders::list(bl(&["X-One", "x-one", "X-Two"])))
        .into_handler();
    let res = handler.handle(
        &options_request(Some("https://a.example"), Some("POST"), None),
        false,
        false,
    );
    assert_eq!(
        get_header(&res, CorsHeaderName::AllowMethods),
        Some(b("POST,GET,DELETE"))
    );
    assert_eq!(
        get_header(&res, CorsHeaderName::AllowHeaders),
        Some(b("x-one,x-two"))
    );
}

#[test]
fn mirror_request_echoes_byte_identical_values() {
    let handler = Cors::very_permissive().into_handler();
    let res = handler.handle(
        &options_request(
            Some("https://odd.example:8443"),
            Some("PUT"),
            Some("X-A, X-B,,weird"),
        ),
        false,
        false,
    );
    assert_eq!(
        get_header(&res, CorsHeaderName::AllowOrigin),
        Some(b("https://odd.example:8443"))
    );
    assert_eq!(get_header(&res, CorsHeaderName::AllowMethods), Some(b("PUT")));
    assert_eq!(
        get_header(&res, CorsHeaderName::AllowHeaders),
        Some(b("X-A, X-B,,weird"))
    );
    assert_eq!(
        get_header(&res, CorsHeaderName::AllowCredentials),
        Some(b("true"))
    );

    // Nothing to mirror: the preflight detail headers stay out.
    let res = handler.handle(&options_request(Some("https://odd.example:8443"), None, None), false, false);
    assert!(get_header(&res, CorsHeaderName::AllowMethods).is_none());
    assert!(get_header(&res, CorsHeaderName::AllowHeaders).is_none());

    // An empty mirrored value is treated as absent.
    let res = handler.handle(
        &options_request(Some("https://odd.example:8443"), Some(""), Some("")),
        false,
        false,
    );
    assert!(get_header(&res, CorsHeaderName::AllowMethods).is_none());
    assert!(get_header(&res, CorsHeaderName::AllowHeaders).is_none());
}

#[test]
fn predicate_policies_follow_the_judgement() {
    let handler = Cors::new()
        .allow_origin(AllowOrigin::predicate())
        .allow_credentials(AllowCredentials::Predicate)
        .into_handler();

    let res = handler.handle(&get_request(Some("https://a.example")), true, true);
    assert_eq!(
        get_header(&res, CorsHeaderName::AllowOrigin),
        Some(b("https://a.example"))
    );
    assert_eq!(
        get_header(&res, CorsHeaderName::AllowCredentials),
        Some(b("true"))
    );

    let res = handler.handle(&get_request(Some("https://a.example")), false, false);
    assert!(get_header(&res, CorsHeaderName::AllowOrigin).is_none());
    assert!(get_header(&res, CorsHeaderName::AllowCredentials).is_none());

    // Without an origin the judgement never matters.
    let res = handler.handle(&get_request(None), true, true);
    assert!(get_header(&res, CorsHeaderName::AllowOrigin).is_none());
    assert!(get_header(&res, CorsHeaderName::AllowCredentials).is_none());
}

#[test]
fn vary_lists_the_preflight_request_headers_by_default() {
    let handler = Cors::new().into_handler();
    let res = handler.handle(&get_request(None), false, false);
    assert_eq!(
        get_header(&res, CorsHeaderName::Vary),
        Some(b("origin,access-control-request-method,access-control-request-headers"))
    );

    let custom = Cors::new().vary(Vary::list(bl(&["Accept"]))).into_handler();
    let res = custom.handle(&get_request(None), false, false);
    assert_eq!(get_header(&res, CorsHeaderName::Vary), Some(b("accept")));

    let empty = Cors::new().vary(Vary::list(Vec::new())).into_handler();
    let res = empty.handle(&get_request(None), false, false);
    assert!(get_header(&res, CorsHeaderName::Vary).is_none());
}

#[test]
fn emission_order_is_fixed() {
    let handler = Cors::new()
        .allow_origin(AllowOrigin::exact(b("https://a.example")))
        .allow_credentials(AllowCredentials::Yes)
        .allow_methods(AllowMethods::list(bl(&["GET"])))
        .allow_headers(AllowHeaders::list(bl(&["x-one"])))
        .max_age(MaxAge::seconds(5))
        .into_handler();
    let res = handler.handle(&options_request(Some("https://a.example"), None, None), false, false);
    let names: Vec<CorsHeaderName> = res.headers.iter().map(|e| e.name).collect();
    assert_eq!(
        names,
        vec![
            CorsHeaderName::AllowOrigin,
            CorsHeaderName::AllowCredentials,
            CorsHeaderName::Vary,
            CorsHeaderName::AllowMethods,
            CorsHeaderName::AllowHeaders,
            CorsHeaderName::MaxAge,
        ]
    );
}
