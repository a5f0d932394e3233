use http_server::method::Method;
use http_server::method::MethodError;

#[test]
fn method_round_trips_every_recognized_token() {
    let tokens = ["GET", "DELETE", "POST", "PUT", "HEAD", "CONNECT", "OPTIONS", "TRACE", "PATCH"];
    for token in tokens {
        let method = Method::from_str(token).unwrap();
        assert_eq!(method.as_str(), token);
    }
}

#[test]
fn method_rejects_unrecognized_tokens() {
    let bad = ["get", "GETX", "", " GET", "GET ", "G", "Put", "PATCHY", "HTTP/1.1"];
    for token in bad {
        assert!(matches!(Method::from_str(token), Err(MethodError)));
    }
}

#[test]
fn method_matching_is_case_sensitive_and_untrimmed() {
    assert!(matches!(Method::from_str("delete"), Err(MethodError)));
    assert!(matches!(Method::from_str("DELETE"), Ok(Method::DELETE)));
    assert!(matches!(Method::from_str("DELETE\r"), Err(MethodError)));
}
