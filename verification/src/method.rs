//! The closed enumeration of HTTP verbs and its string conversion.

use vstd::prelude::*;

use crate::text::str_eq;

verus! {

/// The nine HTTP verbs a request line may carry, and nothing else.
#[derive(Clone, Copy, Debug, PartialEq, Eq, Structural)]
pub enum Method {
    GET,
    DELETE,
    POST,
    PUT,
    HEAD,
    CONNECT,
    OPTIONS,
    TRACE,
    PATCH,
}

/// Rejection of a token that names no recognized HTTP verb.
#[derive(Clone, Copy, Debug, PartialEq, Eq, Structural)]
pub struct MethodError;

/// The canonical token of each verb.
pub open spec fn method_token(m: Method) -> Seq<char> {
    match m {
        Method::GET => "GET"@,
        Method::DELETE => "DELETE"@,
        Method::POST => "POST"@,
        Method::PUT => "PUT"@,
        Method::HEAD => "HEAD"@,
        Method::CONNECT => "CONNECT"@,
        Method::OPTIONS => "OPTIONS"@,
        Method::TRACE => "TRACE"@,
        Method::PATCH => "PATCH"@,
    }
}

/// The verb a token names: an exact, case-sensitive match against one of the
/// nine canonical tokens, or nothing.
pub open spec fn spec_method_of(s: Seq<char>) -> Option<Method> {
    if s == "GET"@ {
        Some(Method::GET)
    } else if s == "DELETE"@ {
        Some(Method::DELETE)
    } else if s == "POST"@ {
        Some(Method::POST)
    } else if s == "PUT"@ {
        Some(Method::PUT)
    } else if s == "HEAD"@ {
        Some(Method::HEAD)
    } else if s == "CONNECT"@ {
        Some(Method::CONNECT)
    } else if s == "OPTIONS"@ {
        Some(Method::OPTIONS)
    } else if s == "TRACE"@ {
        Some(Method::TRACE)
    } else if s == "PATCH"@ {
        Some(Method::PATCH)
    } else {
        None
    }
}

impl Method {
    /// Converts a text token to its verb. Exactly the tokens that name no
    /// verb are rejected with `MethodError`; nothing is trimmed or folded.
    pub fn from_str(s: &str) -> (r: Result<Method, MethodError>)
        ensures
            r == match spec_method_of(s@) {
                Some(m) => Ok::<Method, MethodError>(m),
                None => Err::<Method, MethodError>(MethodError),
            },
    {
        if str_eq(s, "GET") {
            Ok(Method::GET)
        } else if str_eq(s, "DELETE") {
            Ok(Method::DELETE)
        } else if str_eq(s, "POST") {
            Ok(Method::POST)
        } else if str_eq(s, "PUT") {
            Ok(Method::PUT)
        } else if str_eq(s, "HEAD") {
            Ok(Method::HEAD)
        } else if str_eq(s, "CONNECT") {
            Ok(Method::CONNECT)
        } else if str_eq(s, "OPTIONS") {
            Ok(Method::OPTIONS)
        } else if str_eq(s, "TRACE") {
            Ok(Method::TRACE)
        } else if str_eq(s, "PATCH") {
            Ok(Method::PATCH)
        } else {
            Err(MethodError)
        }
    }

    /// The canonical token of this verb.
    pub fn as_str(&self) -> (r: &'static str)
        ensures
            r@ == method_token(*self),
    {
        match self {
            Method::GET => "GET",
            Method::DELETE => "DELETE",
            Method::POST => "POST",
            Method::PUT => "PUT",
            Method::HEAD => "HEAD",
            Method::CONNECT => "CONNECT",
            Method::OPTIONS => "OPTIONS",
            Method::TRACE => "TRACE",
            Method::PATCH => "PATCH",
        }
    }
}

/// Round trip: parsing the canonical token of any verb returns that verb.
pub proof fn lemma_method_round_trip(m: Method)
    ensures
        spec_method_of(method_token(m)) == Some(m),
{
    broadcast use vstd::string::group_string_axioms;

    reveal_strlit("GET");
    reveal_strlit("DELETE");
    reveal_strlit("POST");
    reveal_strlit("PUT");
    reveal_strlit("HEAD");
    reveal_strlit("CONNECT");
    reveal_strlit("OPTIONS");
    reveal_strlit("TRACE");
    reveal_strlit("PATCH");
    assert("GET"@.len() == 3 && "GET"@[0] == 'G');
    assert("DELETE"@.len() == 6 && "DELETE"@[0] == 'D');
    assert("POST"@.len() == 4 && "POST"@[0] == 'P');
    assert("PUT"@.len() == 3 && "PUT"@[0] == 'P');
    assert("HEAD"@.len() == 4 && "HEAD"@[0] == 'H');
    assert("CONNECT"@.len() == 7 && "CONNECT"@[0] == 'C');
    assert("OPTIONS"@.len() == 7 && "OPTIONS"@[0] == 'O');
    assert("TRACE"@.len() == 5 && "TRACE"@[0] == 'T');
    assert("PATCH"@.len() == 5 && "PATCH"@[0] == 'P');
    match m {
        Method::GET => assert(spec_method_of("GET"@) == Some(Method::GET)),
        Method::DELETE => assert(spec_method_of("DELETE"@) == Some(Method::DELETE)),
        Method::POST => assert(spec_method_of("POST"@) == Some(Method::POST)),
        Method::PUT => assert(spec_method_of("PUT"@) == Some(Method::PUT)),
        Method::HEAD => assert(spec_method_of("HEAD"@) == Some(Method::HEAD)),
        Method::CONNECT => assert(spec_method_of("CONNECT"@) == Some(Method::CONNECT)),
        Method::OPTIONS => assert(spec_method_of("OPTIONS"@) == Some(Method::OPTIONS)),
        Method::TRACE => assert(spec_method_of("TRACE"@) == Some(Method::TRACE)),
        Method::PATCH => assert(spec_method_of("PATCH"@) == Some(Method::PATCH)),
    }
}

} // verus!
