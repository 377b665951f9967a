use wordle::request::{is_request_line, parse_request_line, route, Method, RequestError, Response};

#[test]
fn parses_method_and_resource() {
    let r = parse_request_line(b"GET /word HTTP/1.1").unwrap();
    assert_eq!(r.method, Method::Get);
    assert_eq!(r.resource, b"/word".to_vec());
    assert_eq!(route(&r), Response::Word);

    let r = parse_request_line(b"  HEAD\t/other ").unwrap();
    assert_eq!(r.method, Method::Head);
    assert_eq!(r.resource, b"/other".to_vec());
    assert_eq!(route(&r), Response::NotFound);

    let r = parse_request_line(b"OPTIONS /word HTTP/1.1").unwrap();
    assert_eq!(r.method, Method::Options);
    assert_eq!(route(&r), Response::Cors);
}

#[test]
fn refuses_bad_request_lines() {
    assert_eq!(parse_request_line(b"GET").unwrap_err(), RequestError::MissingField);
    assert_eq!(parse_request_line(b"   ").unwrap_err(), RequestError::MissingField);
    assert_eq!(parse_request_line(b"POST /word").unwrap_err(), RequestError::UnknownMethod);
    assert_eq!(parse_request_line(b"get /word").unwrap_err(), RequestError::UnknownMethod);
}

#[test]
fn finds_request_lines() {
    assert!(is_request_line(b"GET /word HTTP/1.1"));
    assert!(is_request_line(b"OPTIONS *"));
    assert!(is_request_line(b"HEAD"));
    assert!(!is_request_line(b"Host: localhost"));
    assert!(!is_request_line(b"GE"));
}
