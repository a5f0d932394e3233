//! A minimal HTTP/1.1 request-line parser and single-threaded
//! connection-serving core.
//!
//! Raw bytes from a connection are parsed into a [`Request`] (method, path,
//! optional query string), handed to a [`Handler`] that produces a
//! [`Response`], and the response is serialized back to bytes. All parsing
//! borrows from the caller's buffer; nothing is copied.

pub mod method;
pub mod query_string;
pub mod request;
pub mod response;
pub mod server;
pub mod status_code;
pub mod text;

pub use method::Method;
pub use method::MethodError;
pub use query_string::QueryString;
pub use query_string::Value as QueryStringValue;
pub use request::ParseError;
pub use request::Request;
pub use response::Response;
pub use server::Handler;
pub use server::Server;
pub use status_code::StatusCode;
