use http_server::request::ParseError;
use http_server::request::Request;
use http_server::response::Response;
use http_server::server::serve_connection;
use http_server::server::ConnectionEvent;
use http_server::server::DefaultHandler;
use http_server::server::Handler;
use http_server::status_code::StatusCode;
use http_server::Server;

#[test]
fn server_keeps_its_address() {
    let server = Server::new(String::from("127.0.0.1:8080"));
    assert_eq!(server.addr(), "127.0.0.1:8080");
}

#[test]
fn failed_read_yields_no_reply_and_later_connections_are_served() {
    let mut handler = DefaultHandler;
    let first = serve_connection(&mut handler, ConnectionEvent::ReadFailed);
    assert!(first.is_none());
    let second = serve_connection(
        &mut handler,
        ConnectionEvent::Received(b"GET / HTTP/1.1\r\n".to_vec()),
    )
    .unwrap();
    let text = String::from_utf8(second).unwrap();
    assert_eq!(text, "HTTP/1.1 404 Not Found\r\nContent-Length: 18\r\n\r\n<h1>IT WORKS!</h1>");
}

#[test]
fn default_handler_answers_a_bad_request_with_400() {
    let mut handler = DefaultHandler;
    let reply = serve_connection(&mut handler, ConnectionEvent::Received(b"junk".to_vec())).unwrap();
    assert_eq!(
        String::from_utf8(reply).unwrap(),
        "HTTP/1.1 400 Bad Request\r\nContent-Length: 0\r\n\r\n"
    );
}

struct EchoPathHandler;

impl Handler for EchoPathHandler {
    fn handle_request(&mut self, request: &Request<'_>) -> Response {
        Response::new(StatusCode::OK, Some(String::from(request.path())))
    }

    fn handle_bad_request(&mut self, error: &ParseError) -> Response {
        Response::new(StatusCode::BadRequest, Some(String::from(error.message())))
    }
}

#[test]
fn custom_handler_sees_the_parsed_request() {
    let mut handler = EchoPathHandler;
    let reply = serve_connection(
        &mut handler,
        ConnectionEvent::Received(b"PUT /items?id=7 HTTP/1.1\r\n".to_vec()),
    )
    .unwrap();
    assert_eq!(
        String::from_utf8(reply).unwrap(),
        "HTTP/1.1 200 OK\r\nContent-Length: 6\r\n\r\n/items"
    );
}

#[test]
fn custom_handler_sees_the_parse_failure() {
    let mut handler = EchoPathHandler;
    let reply = serve_connection(
        &mut handler,
        ConnectionEvent::Received(b"GET / HTTP/2\r\n".to_vec()),
    )
    .unwrap();
    assert_eq!(
        String::from_utf8(reply).unwrap(),
        "HTTP/1.1 400 Bad Request\r\nContent-Length: 16\r\n\r\nInvalid Protocol"
    );
}
