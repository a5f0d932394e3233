//! The connection-serving core: the configured server, the handler
//! capability interface, and the decision step one connection goes through.
//!
//! The blocking accept loop itself lives with the embedding application; it
//! reads each connection's bytes, hands them here, and writes back whatever
//! reply this module produces. Every decision — parse, dispatch, serialize —
//! is taken here.

use vstd::prelude::*;
use vstd::string::StringExecFns;

use crate::request::{ParseError, Request};
use crate::response::{spec_serialize, Response, ResponseModel};
use crate::status_code::StatusCode;

verus! {

/// The configured server: it owns the address the accept loop binds to.
/// Binding and accepting are the embedding application's blocking calls.
pub struct Server {
    addr: String,
}

impl View for Server {
    type V = Seq<char>;

    closed spec fn view(&self) -> Seq<char> {
        self.addr@
    }
}

impl Server {
    /// A server configured to bind the given address.
    pub fn new(addr: String) -> (s: Server)
        ensures
            s@ == addr@,
    {
        Server { addr }
    }

    /// The address the accept loop binds to.
    pub fn addr(&self) -> (a: &str)
        ensures
            a@ == self@,
    {
        self.addr.as_str()
    }
}

/// The capability interface the embedding application supplies: one response
/// for a parsed request, one for a rejected buffer. Both carry a default, so
/// a minimal application need implement neither.
pub trait Handler {
    /// The response to a parsed request: by default, the placeholder page.
    fn handle_request(&mut self, request: &Request<'_>) -> (r: Response)
        default_ensures
            r@ == (ResponseModel {
                status: StatusCode::NotFound,
                body: Some("<h1>IT WORKS!</h1>"@),
            }),
    {
        Response::new(StatusCode::NotFound, Some(String::from_str("<h1>IT WORKS!</h1>")))
    }

    /// The response to a buffer that did not parse: by default, a generic
    /// rejection with an empty body.
    fn handle_bad_request(&mut self, error: &ParseError) -> (r: Response)
        default_ensures
            r@ == (ResponseModel { status: StatusCode::BadRequest, body: None }),
    {
        Response::new(StatusCode::BadRequest, None)
    }
}

/// The handler the core ships: the default behavior for both capabilities.
pub struct DefaultHandler;

impl Handler for DefaultHandler {
}

/// What one accepted connection yielded: the bytes its read produced, or a
/// read that failed.
pub enum ConnectionEvent {
    Received(Vec<u8>),
    ReadFailed,
}

/// Serves one connection: parse the bytes, let the handler answer — the
/// request capability on success, the bad-request capability on a parse
/// failure — and serialize that answer. A reply comes back exactly when the
/// read produced bytes; a failed read is abandoned with no other effect, so
/// one bad connection never stops the accept loop that calls this.
pub fn serve_connection<H: Handler>(handler: &mut H, event: ConnectionEvent) -> (reply: Option<
    Vec<u8>,
>)
    ensures
        reply is Some <==> event is Received,
        reply matches Some(bytes) ==> exists|r: ResponseModel| bytes@ == spec_serialize(r),
{
    match event {
        ConnectionEvent::ReadFailed => None,
        ConnectionEvent::Received(buf) => {
            let response = match Request::try_from(buf.as_slice()) {
                Ok(request) => handler.handle_request(&request),
                Err(e) => handler.handle_bad_request(&e),
            };
            let mut out: Vec<u8> = Vec::new();
            response.send(&mut out);
            proof {
                assert(out@ =~= spec_serialize(response@));
            }
            Some(out)
        },
    }
}

} // verus!
