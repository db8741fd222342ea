use salvo_cors::bytes_util::separated_by_commas;
use salvo_cors::headers::CorsHeaderName;
use salvo_cors::max_age::u64_decimal;
use salvo_cors::tokens::{is_valid_token, lower_bytes, upper_bytes};
use salvo_cors::{is_options_method, preflight_request_headers};

fn b(s: &str) -> Vec<u8> {
    s.as_bytes().to_vec()
}

#[test]
fn options_method_is_matched_byte_for_byte() {
    assert!(is_options_method(&b("OPTIONS")));
    assert!(!is_options_method(&b("options")));
    assert!(!is_options_method(&b("GET")));
    assert!(!is_options_method(&b("OPTIONSX")));
    assert!(!is_options_method(&b("")));
}

#[test]
fn comma_joining_adds_exactly_one_separator_between_values() {
    assert_eq!(separated_by_commas(&Vec::new()), None);
    assert_eq!(separated_by_commas(&vec![b("GET")]), Some(b("GET")));
    assert_eq!(
        separated_by_commas(&vec![b("GET"), b("POST"), b("DELETE")]),
        Some(b("GET,POST,DELETE"))
    );
}

#[test]
fn decimal_rendering_is_exact() {
    assert_eq!(u64_decimal(0), b("0"));
    assert_eq!(u64_decimal(7), b("7"));
    assert_eq!(u64_decimal(204), b("204"));
    assert_eq!(u64_decimal(86400), b("86400"));
    assert_eq!(u64_decimal(u64::MAX), b("18446744073709551615"));
}

#[test]
fn token_validation_rejects_separators_and_blanks() {
    assert!(is_valid_token(&b("content-type")));
    assert!(is_valid_token(&b("CONTENT-TYPE")));
    assert!(is_valid_token(&b("x_custom.header~1")));
    assert!(!is_valid_token(&b("")));
    assert!(!is_valid_token(&b("bad header")));
    assert!(!is_valid_token(&b("bad,comma")));
    assert!(!is_valid_token(&b("bad:colon")));
}

#[test]
fn case_folding_touches_only_ascii_letters() {
    assert_eq!(lower_bytes(&b("Content-TYPE")), b("content-type"));
    assert_eq!(upper_bytes(&b("delete")), b("DELETE"));
    assert_eq!(lower_bytes(&b("x-42_~")), b("x-42_~"));
}

#[test]
fn preflight_request_header_names() {
    let names = preflight_request_headers();
    assert_eq!(
        names,
        vec![
            b("origin"),
            b("access-control-request-method"),
            b("access-control-request-headers"),
        ]
    );
}

#[test]
fn wire_names_are_the_standard_spellings() {
    assert_eq!(
        CorsHeaderName::AllowOrigin.wire_name(),
        b("access-control-allow-origin")
    );
    assert_eq!(
        CorsHeaderName::AllowCredentials.wire_name(),
        b("access-control-allow-credentials")
    );
    assert_eq!(
        CorsHeaderName::AllowMethods.wire_name(),
        b("access-control-allow-methods")
    );
    assert_eq!(
        CorsHeaderName::AllowHeaders.wire_name(),
        b("access-control-allow-headers")
    );
    assert_eq!(
        CorsHeaderName::ExposeHeaders.wire_name(),
        b("access-control-expose-headers")
    );
    assert_eq!(
        CorsHeaderName::MaxAge.wire_name(),
        b("access-control-max-age")
    );
    assert_eq!(CorsHeaderName::Vary.wire_name(), b("vary"));
}
