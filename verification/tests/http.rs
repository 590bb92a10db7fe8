use stdlinux::http::{content_length, parse_i64, CustomError, HTTPHeaderField, HTTPRequest};

#[test]
fn new_header_field_is_empty() {
    let h = HTTPHeaderField::new();
    assert_eq!(h.name, "");
    assert_eq!(h.value, "");
    assert!(h.next.is_none());
}

#[test]
fn new_request_is_empty() {
    let r = HTTPRequest::new();
    assert_eq!(r.protocol_minor_version, 0);
    assert_eq!(r.method, "");
    assert_eq!(r.path, "");
    assert!(r.header.is_none());
    assert_eq!(r.body, "");
    assert_eq!(r.length, 0);
}

#[test]
fn parse_i64_plain_numbers() {
    assert_eq!(parse_i64("0"), Some(0));
    assert_eq!(parse_i64("123"), Some(123));
    assert_eq!(parse_i64("007"), Some(7));
    assert_eq!(parse_i64("+42"), Some(42));
    assert_eq!(parse_i64("-7"), Some(-7));
}

#[test]
fn parse_i64_rejects_malformed_input() {
    assert_eq!(parse_i64(""), None);
    assert_eq!(parse_i64("-"), None);
    assert_eq!(parse_i64("+"), None);
    assert_eq!(parse_i64("12a"), None);
    assert_eq!(parse_i64("a12"), None);
    assert_eq!(parse_i64("1 2"), None);
    assert_eq!(parse_i64("+-3"), None);
}

#[test]
fn parse_i64_range_limits() {
    assert_eq!(parse_i64("9223372036854775807"), Some(i64::MAX));
    assert_eq!(parse_i64("9223372036854775808"), None);
    assert_eq!(parse_i64("-9223372036854775808"), Some(i64::MIN));
    assert_eq!(parse_i64("-9223372036854775809"), None);
    assert_eq!(parse_i64("99999999999999999999999999"), None);
}

fn field(name: &str, value: &str, next: Option<Box<HTTPHeaderField>>) -> HTTPHeaderField {
    let mut h = HTTPHeaderField::new();
    h.name = name.to_string();
    h.value = value.to_string();
    h.next = next;
    h
}

#[test]
fn content_length_finds_first_match() {
    let tail = field("Content-Length", "42", None);
    let head = field("Host", "localhost", Some(Box::new(tail)));
    assert_eq!(content_length(&Some(Box::new(head))), Some(42));
}

#[test]
fn content_length_missing_header() {
    let head = field("Host", "localhost", None);
    assert_eq!(content_length(&Some(Box::new(head))), None);
    assert_eq!(content_length(&None), None);
}

#[test]
fn content_length_unparsable_value() {
    let head = field("Content-Length", "many", None);
    assert_eq!(content_length(&Some(Box::new(head))), None);
}

#[test]
fn custom_error_messages_exact() {
    assert_eq!(
        CustomError::ParseError("HTTP/2.0".to_string()).message(),
        "parse error on request line: HTTP/2.0"
    );
    assert_eq!(
        CustomError::TooLongRequestBodyError.message(),
        "too long request body"
    );
    assert_eq!(
        CustomError::NoAddressError("nowhere:13".to_string()).message(),
        "no address: nowhere:13 does not exist"
    );
}

#[test]
fn custom_error_variants_compare() {
    let a = CustomError::ParseError("HTTP/2.0".to_string());
    let b = CustomError::ParseError("HTTP/2.0".to_string());
    assert_eq!(a, b);
    assert_ne!(a, CustomError::TooLongRequestBodyError);
    let c = CustomError::NoAddressError("nowhere:13".to_string());
    assert_ne!(b, c);
}
