use url_bridge::bridge::camel_case;
use url_bridge::bridge::construct;
use url_bridge::bridge::constructor_error_message;
use url_bridge::url_value::ParseError;
use url_bridge::url_value::Url;

#[test]
fn absolute_url_parses_and_reports_host() {
    let url = Url::construct_from_absolute("https://deep.dish.rust/some/path?q=1#frag")
        .expect("a well-formed absolute URL must parse");
    assert_eq!(url.get_host(), "deep.dish.rust");
}

#[test]
fn absolute_url_host_includes_port() {
    let url = Url::construct_from_absolute("https://deep.dish.rust:8080/").unwrap();
    assert_eq!(url.get_host(), "deep.dish.rust:8080");
}

#[test]
fn invalid_absolute_url_is_rejected() {
    let err = match Url::construct_from_absolute("not a url") {
        Err(e) => e,
        Ok(_) => panic!("'not a url' must not parse"),
    };
    match &err {
        ParseError::Syntax { detail } => {
            assert_eq!(detail, "relative URL without a base");
        }
        _ => panic!("an unparseable absolute URL must be a syntax error"),
    }
    assert_eq!(
        constructor_error_message(&err, false),
        "Failed to parse base URL: relative URL without a base"
    );
    assert_eq!(
        constructor_error_message(&err, true),
        "Failed to parse URL: relative URL without a base"
    );
}

#[test]
fn invalid_absolute_url_message_through_constructor() {
    let msg = match construct("not a url", None) {
        Err(m) => m,
        Ok(_) => panic!("'not a url' must not construct"),
    };
    assert!(msg.starts_with("Failed to parse base URL: "));
    assert_eq!(msg, "Failed to parse base URL: relative URL without a base");
}

#[test]
fn cannot_be_a_base_is_rejected_with_its_message() {
    let msg = match construct("hi", Some("data:text/plain,hi")) {
        Err(m) => m,
        Ok(_) => panic!("a data: URL must not serve as a base"),
    };
    assert_eq!(msg, "Base URL data:text/plain,hi cannot be a base");
}

#[test]
fn cannot_be_a_base_rejects_any_relative_text() {
    for relative in ["", "hi", "/rooted", "//host/x", "?q", "#f"] {
        let msg = match construct(relative, Some("data:text/plain,hi")) {
            Err(m) => m,
            Ok(_) => panic!("a data: URL must not serve as a base"),
        };
        assert_eq!(msg, "Base URL data:text/plain,hi cannot be a base");
    }
}

#[test]
fn unparseable_base_is_rejected_with_its_message() {
    let msg = match construct("hi", Some("not a url")) {
        Err(m) => m,
        Ok(_) => panic!("'not a url' must not serve as a base"),
    };
    assert_eq!(msg, "Failed to parse URL: relative URL without a base");
}

#[test]
fn relative_resolution_failure_is_rejected_with_its_message() {
    let err = match Url::construct_relative("https://x:99999999999", "https://example.com") {
        Err(e) => e,
        Ok(_) => panic!("an out-of-range port must not parse"),
    };
    match &err {
        ParseError::InvalidRelative { detail } => {
            assert_eq!(detail, "invalid port number");
        }
        _ => panic!("a failed resolution must be an invalid-relative error"),
    }
    assert_eq!(
        constructor_error_message(&err, true),
        "Failed to parse URL: invalid port number"
    );
}

#[test]
fn cannot_be_a_base_matches_the_scheme_shape() {
    let data = Url::construct_from_absolute("data:text/plain,hi").unwrap();
    assert!(data.cannot_be_a_base());
    let mailto = Url::construct_from_absolute("mailto:someone@example.com").unwrap();
    assert!(mailto.cannot_be_a_base());
    let https = Url::construct_from_absolute("https://deep.dish.rust").unwrap();
    assert!(!https.cannot_be_a_base());
    let unix = Url::construct_from_absolute("unix:/run/some.socket").unwrap();
    assert!(!unix.cannot_be_a_base());
}

#[test]
fn relative_url_resolves_against_hierarchical_base() {
    let url = Url::construct_relative("hi", "https://deep.dish.rust")
        .expect("a relative path must resolve against a hierarchical base");
    assert_eq!(url.get_host(), "deep.dish.rust");
}

#[test]
fn demo_scenario_constructor_and_host() {
    let url = match construct("hi", Some("https://deep.dish.rust")) {
        Ok(u) => u,
        Err(m) => panic!("the demo constructor call must succeed, got: {}", m),
    };
    assert_eq!(url.get_host(), "deep.dish.rust");
}

#[test]
fn set_host_replaces_a_valid_host() {
    let mut url = Url::construct_from_absolute("https://deep.dish.rust/p").unwrap();
    url.set_host("example.com");
    assert_eq!(url.get_host(), "example.com");
}

#[test]
fn set_host_with_invalid_value_is_a_no_op() {
    let mut url = Url::construct_from_absolute("https://deep.dish.rust/p").unwrap();
    let before = url.get_host();
    url.set_host("not a valid host");
    assert_eq!(url.get_host(), before);
    assert_eq!(url.get_host(), "deep.dish.rust");
}

#[test]
fn set_host_on_cannot_be_a_base_url_is_a_no_op() {
    let mut url = Url::construct_from_absolute("data:text/plain,hi").unwrap();
    let before = url.get_host();
    url.set_host("example.com");
    assert_eq!(url.get_host(), before);
    assert_eq!(url.get_host(), "");
    url.set_host("other.example");
    assert_eq!(url.get_host(), "");
}

#[test]
fn get_host_is_idempotent() {
    let url = Url::construct_from_absolute("https://deep.dish.rust:4443/a").unwrap();
    let first = url.get_host();
    let second = url.get_host();
    assert_eq!(first, second);
}

#[test]
fn duplicate_preserves_the_value() {
    let url = Url::construct_from_absolute("https://deep.dish.rust/a").unwrap();
    let copy = url.duplicate();
    assert_eq!(copy.get_host(), url.get_host());
}

#[test]
fn duplicate_is_independent_of_the_original() {
    let mut url = Url::construct_from_absolute("https://deep.dish.rust/a").unwrap();
    let copy = url.duplicate();
    url.set_host("example.com");
    assert_eq!(url.get_host(), "example.com");
    assert_eq!(copy.get_host(), "deep.dish.rust");
}

#[test]
fn camel_case_keeps_a_single_word() {
    assert_eq!(camel_case("host"), "host");
}

#[test]
fn camel_case_joins_multi_word_names() {
    assert_eq!(camel_case("set_host"), "setHost");
    assert_eq!(camel_case("cannot_be_a_base"), "cannotBeABase");
    assert_eq!(camel_case("construct_from_absolute"), "constructFromAbsolute");
}

#[test]
fn camel_case_handles_empty_and_underscore_runs() {
    assert_eq!(camel_case(""), "");
    assert_eq!(camel_case("a__b"), "aB");
    assert_eq!(camel_case("_host"), "Host");
    assert_eq!(camel_case("host_"), "host");
}
