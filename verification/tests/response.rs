use http_server::response::Response;
use http_server::status_code::StatusCode;

#[test]
fn send_writes_status_line_length_header_and_body() {
    let response = Response::new(StatusCode::OK, Some(String::from("hi")));
    let mut out: Vec<u8> = Vec::new();
    response.send(&mut out);
    let text = String::from_utf8(out).unwrap();
    assert!(text.contains("200"));
    assert_eq!(text, "HTTP/1.1 200 OK\r\nContent-Length: 2\r\n\r\nhi");
}

#[test]
fn send_without_body_writes_zero_length() {
    let response = Response::new(StatusCode::BadRequest, None);
    let mut out: Vec<u8> = Vec::new();
    response.send(&mut out);
    assert_eq!(String::from_utf8(out).unwrap(), "HTTP/1.1 400 Bad Request\r\nContent-Length: 0\r\n\r\n");
}

#[test]
fn send_counts_bytes_not_characters() {
    let response = Response::new(StatusCode::NotFound, Some(String::from("caf\u{e9}")));
    let mut out: Vec<u8> = Vec::new();
    response.send(&mut out);
    let text = String::from_utf8(out).unwrap();
    assert_eq!(text, "HTTP/1.1 404 Not Found\r\nContent-Length: 5\r\n\r\ncaf\u{e9}");
}

#[test]
fn serializing_the_same_response_twice_is_byte_identical() {
    let response = Response::new(StatusCode::OK, Some(String::from("same")));
    let mut first: Vec<u8> = Vec::new();
    let mut second: Vec<u8> = Vec::new();
    response.send(&mut first);
    response.send(&mut second);
    assert_eq!(first, second);
}

#[test]
fn status_codes_and_reason_phrases_are_fixed() {
    assert_eq!(StatusCode::OK.code(), 200);
    assert_eq!(StatusCode::BadRequest.code(), 400);
    assert_eq!(StatusCode::NotFound.code(), 404);
    assert_eq!(StatusCode::OK.reason_phrase(), "OK");
    assert_eq!(StatusCode::BadRequest.reason_phrase(), "Bad Request");
    assert_eq!(StatusCode::NotFound.reason_phrase(), "Not Found");
    assert_eq!(StatusCode::OK.code_str(), "200");
}

#[test]
fn response_getters_return_what_was_built() {
    let response = Response::new(StatusCode::OK, Some(String::from("body")));
    assert!(matches!(response.status_code(), StatusCode::OK));
    assert_eq!(response.body().as_deref(), Some("body"));
    let empty = Response::new(StatusCode::NotFound, None);
    assert!(empty.body().is_none());
}
