//! The zero-copy request-line parser: raw bytes in, method, path and
//! optional query string out, every text field borrowing from the buffer.

use vstd::prelude::*;
use vstd::string::StrSliceExecFns;
use vstd::string::StringSliceAdditionalSpecFns;
use vstd::utf8::decode_utf8;
use vstd::utf8::valid_utf8;

use crate::method::{spec_method_of, Method, MethodError};
use crate::query_string::{query_map, QueryMap, QueryString};
use crate::text::{
    delims, find_char_in, find_delim_in, find_first, lemma_find_first_at, lemma_find_first_none,
    str_eq,
};

verus! {

/// Why a buffer was rejected as a request line.
#[derive(Clone, Copy, Debug, PartialEq, Eq, Structural)]
pub enum ParseError {
    /// The request line misses an expected delimiter or token.
    InvalidRequest,
    /// The buffer is not well-formed UTF-8.
    InvalidEncoding,
    /// The protocol token is not exactly `HTTP/1.1`.
    InvalidProtocol,
    /// The method token names no recognized verb.
    InvalidMethod,
}

/// The fixed phrase each rejection reports.
pub open spec fn spec_message(e: ParseError) -> Seq<char> {
    match e {
        ParseError::InvalidRequest => "Invalid Request"@,
        ParseError::InvalidEncoding => "Invalid Encoding"@,
        ParseError::InvalidProtocol => "Invalid Protocol"@,
        ParseError::InvalidMethod => "Invalid Method"@,
    }
}

impl ParseError {
    /// The fixed phrase this rejection reports.
    pub fn message(&self) -> (r: &'static str)
        ensures
            r@ == spec_message(*self),
    {
        match self {
            ParseError::InvalidRequest => "Invalid Request",
            ParseError::InvalidEncoding => "Invalid Encoding",
            ParseError::InvalidProtocol => "Invalid Protocol",
            ParseError::InvalidMethod => "Invalid Method",
        }
    }
}

/// A parsed request line. Its path and query string borrow from the buffer
/// handed to [`Request::try_from`]; the request owns no bytes and cannot
/// outlive that buffer.
pub struct Request<'buf> {
    method: Method,
    path: &'buf str,
    query_string: Option<QueryString<'buf>>,
}

/// The model of a parsed request line: the verb, the path's characters, and
/// the query mapping when the target carries one.
pub ghost struct RequestModel {
    pub method: Method,
    pub path: Seq<char>,
    pub query: Option<QueryMap>,
}

impl<'buf> View for Request<'buf> {
    type V = RequestModel;

    closed spec fn view(&self) -> RequestModel {
        RequestModel {
            method: self.method,
            path: self.path@,
            query: match self.query_string {
                Some(q) => Some(q@),
                None => None,
            },
        }
    }
}

/// The token before the first space or carriage return, and everything after
/// that delimiter; `None` when the text holds no delimiter at all.
pub open spec fn spec_next_word(s: Seq<char>) -> Option<(Seq<char>, Seq<char>)> {
    match find_first(s, delims()) {
        Some(i) => Some((s.subrange(0, i), s.subrange(i + 1, s.len() as int))),
        None => None,
    }
}

/// The path of a request target: everything before the first `?`, or the
/// whole target when it carries none.
pub open spec fn target_path(t: Seq<char>) -> Seq<char> {
    match find_first(t, set!['?']) {
        Some(i) => t.subrange(0, i),
        None => t,
    }
}

/// The query mapping of a request target: the decomposition of everything
/// after the first `?`, or nothing when the target carries none.
pub open spec fn target_query(t: Seq<char>) -> Option<QueryMap> {
    match find_first(t, set!['?']) {
        Some(i) => Some(query_map(t.subrange(i + 1, t.len() as int))),
        None => None,
    }
}

/// What parsing a raw buffer yields: the buffer must decode as UTF-8, carry
/// three delimited tokens, name the protocol `HTTP/1.1` exactly and a
/// recognized verb; the target then splits at its first `?` into path and
/// query. Each failure is the matching [`ParseError`].
pub open spec fn spec_parse(bytes: Seq<u8>) -> Result<RequestModel, ParseError> {
    if !valid_utf8(bytes) {
        Err(ParseError::InvalidEncoding)
    } else {
        let s = decode_utf8(bytes);
        match spec_next_word(s) {
            None => Err(ParseError::InvalidRequest),
            Some((method_tok, rest1)) => match spec_next_word(rest1) {
                None => Err(ParseError::InvalidRequest),
                Some((target, rest2)) => match spec_next_word(rest2) {
                    None => Err(ParseError::InvalidRequest),
                    Some((protocol, _)) => if protocol != "HTTP/1.1"@ {
                        Err(ParseError::InvalidProtocol)
                    } else {
                        match spec_method_of(method_tok) {
                            None => Err(ParseError::InvalidMethod),
                            Some(m) => Ok(
                                RequestModel {
                                    method: m,
                                    path: target_path(target),
                                    query: target_query(target),
                                },
                            ),
                        }
                    },
                },
            },
        }
    }
}

/// Relies on core::str::from_utf8: `Ok` exactly on a well-formed UTF-8
/// buffer, viewing those bytes as text without copying.
#[verifier::external_body]
fn bytes_to_str(buf: &[u8]) -> (r: Option<&str>)
    ensures
        r is Some <==> valid_utf8(buf@),
        r matches Some(s) ==> s.spec_bytes() == buf@,
{
    core::str::from_utf8(buf).ok()
}

/// Splits the text at its first space or carriage return: the token before
/// the delimiter, and everything after it. `None` when no delimiter occurs.
pub fn get_next_word<'a>(request: &'a str) -> (r: Option<(&'a str, &'a str)>)
    ensures
        match r {
            Some(pair) => spec_next_word(request@) == Some((pair.0@, pair.1@)),
            None => spec_next_word(request@) is None,
        },
{
    let n = request.unicode_len();
    match find_delim_in(request, 0, n) {
        Some(i) => {
            proof {
                lemma_find_first_at(request@, delims(), i as int);
            }
            let word = request.substring_char(0, i);
            let rest = request.substring_char(i + 1, n);
            Some((word, rest))
        },
        None => {
            proof {
                lemma_find_first_none(request@, delims());
            }
            None
        },
    }
}

impl<'buf> Request<'buf> {
    /// Parses one request line out of a raw buffer, borrowing every text
    /// field from it. The result, success or failure, is exactly what
    /// [`spec_parse`] says of the bytes.
    pub fn try_from(buf: &'buf [u8]) -> (r: Result<Request<'buf>, ParseError>)
        ensures
            match r {
                Ok(req) => spec_parse(buf@) == Ok::<RequestModel, ParseError>(req@),
                Err(e) => spec_parse(buf@) == Err::<RequestModel, ParseError>(e),
            },
    {
        let s = match bytes_to_str(buf) {
            Some(s) => s,
            None => {
                return Err(ParseError::InvalidEncoding);
            },
        };
        proof {
            vstd::utf8::encode_utf8_decode_utf8(s@);
        }
        let (method_tok, rest1) = match get_next_word(s) {
            Some(pair) => pair,
            None => {
                return Err(ParseError::InvalidRequest);
            },
        };
        let (target, rest2) = match get_next_word(rest1) {
            Some(pair) => pair,
            None => {
                return Err(ParseError::InvalidRequest);
            },
        };
        let (protocol, _) = match get_next_word(rest2) {
            Some(pair) => pair,
            None => {
                return Err(ParseError::InvalidRequest);
            },
        };
        if !str_eq(protocol, "HTTP/1.1") {
            return Err(ParseError::InvalidProtocol);
        }
        let method = match Method::from_str(method_tok) {
            Ok(m) => m,
            Err(MethodError) => {
                return Err(ParseError::InvalidMethod);
            },
        };
        let tn = target.unicode_len();
        match find_char_in(target, 0, tn, '?') {
            Some(i) => {
                proof {
                    lemma_find_first_at(target@, set!['?'], i as int);
                }
                let query = QueryString::from(target.substring_char(i + 1, tn));
                let path = target.substring_char(0, i);
                Ok(Request { method, path, query_string: Some(query) })
            },
            None => {
                proof {
                    lemma_find_first_none(target@, set!['?']);
                }
                Ok(Request { method, path: target, query_string: None })
            },
        }
    }

    /// The parsed verb.
    pub fn method(&self) -> (m: &Method)
        ensures
            *m == self@.method,
    {
        &self.method
    }

    /// The parsed path, borrowed from the buffer.
    pub fn path(&self) -> (p: &str)
        ensures
            p@ == self@.path,
    {
        self.path
    }

    /// The parsed query string, when the target carried one.
    pub fn query_string(&self) -> (q: Option<&QueryString<'buf>>)
        ensures
            match q {
                Some(qs) => self@.query == Some(qs@),
                None => self@.query is None,
            },
    {
        match &self.query_string {
            Some(qs) => Some(qs),
            None => None,
        }
    }
}

} // verus!
