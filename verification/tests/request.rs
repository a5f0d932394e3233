use http_server::method::Method;
use http_server::query_string::Value;
use http_server::request::ParseError;
use http_server::request::Request;

#[test]
fn parse_request_line_with_query() {
    let buf = b"GET /search?q=rust HTTP/1.1\r\n";
    let req = Request::try_from(&buf[..]).unwrap();
    assert!(matches!(req.method(), Method::GET));
    assert_eq!(req.path(), "/search");
    let qs = req.query_string().unwrap();
    assert_eq!(qs.len(), 1);
    match qs.get("q") {
        Some(Value::Single(v)) => assert_eq!(*v, "rust"),
        _ => panic!("expected q=rust"),
    }
}

#[test]
fn parse_request_line_without_query() {
    let buf = b"GET / HTTP/1.1\r\nHost: example\r\n";
    let req = Request::try_from(&buf[..]).unwrap();
    assert!(matches!(req.method(), Method::GET));
    assert_eq!(req.path(), "/");
    assert!(req.query_string().is_none());
}

#[test]
fn parse_rejects_http_1_0() {
    let buf = b"GET / HTTP/1.0\r\n";
    assert!(matches!(Request::try_from(&buf[..]), Err(ParseError::InvalidProtocol)));
}

#[test]
fn parse_rejects_line_without_delimiters() {
    let buf = b"no-delimiters-here";
    assert!(matches!(Request::try_from(&buf[..]), Err(ParseError::InvalidRequest)));
}

#[test]
fn parse_rejects_missing_tokens() {
    let buf = b"GET \r";
    assert!(matches!(Request::try_from(&buf[..]), Err(ParseError::InvalidRequest)));
}

#[test]
fn parse_rejects_non_utf8_bytes() {
    let buf = [0xffu8, 0xfe, 0x20, 0x20];
    assert!(matches!(Request::try_from(&buf[..]), Err(ParseError::InvalidEncoding)));
}

#[test]
fn parse_rejects_unknown_method_token() {
    let buf = b"BREW / HTTP/1.1\r\n";
    assert!(matches!(Request::try_from(&buf[..]), Err(ParseError::InvalidMethod)));
}

#[test]
fn parse_splits_non_ascii_target_on_character_boundary() {
    let buf = "GET /caf\u{e9}?q=1 HTTP/1.1\r\n".as_bytes();
    let req = Request::try_from(buf).unwrap();
    assert_eq!(req.path(), "/caf\u{e9}");
    let qs = req.query_string().unwrap();
    match qs.get("q") {
        Some(Value::Single(v)) => assert_eq!(*v, "1"),
        _ => panic!("expected q=1 behind the non-ASCII path"),
    }
}

#[test]
fn parse_error_messages_are_fixed() {
    assert_eq!(ParseError::InvalidRequest.message(), "Invalid Request");
    assert_eq!(ParseError::InvalidEncoding.message(), "Invalid Encoding");
    assert_eq!(ParseError::InvalidProtocol.message(), "Invalid Protocol");
    assert_eq!(ParseError::InvalidMethod.message(), "Invalid Method");
}

#[test]
fn parse_target_of_only_a_query_has_empty_path() {
    let buf = b"GET ?a=1 HTTP/1.1\r\n";
    let req = Request::try_from(&buf[..]).unwrap();
    assert_eq!(req.path(), "");
    assert!(req.query_string().is_some());
}
