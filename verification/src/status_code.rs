//! The closed enumeration of status codes and their reason phrases.

use vstd::prelude::*;

verus! {

/// A status the core can answer with: each variant maps to a numeric code
/// and a fixed reason phrase.
#[derive(Clone, Copy, Debug, PartialEq, Eq, Structural)]
pub enum StatusCode {
    OK,
    BadRequest,
    NotFound,
}

/// The numeric code of each status.
pub open spec fn spec_code(s: StatusCode) -> u16 {
    match s {
        StatusCode::OK => 200,
        StatusCode::BadRequest => 400,
        StatusCode::NotFound => 404,
    }
}

/// The three decimal digits of each status, as text.
pub open spec fn code_chars(s: StatusCode) -> Seq<char> {
    match s {
        StatusCode::OK => "200"@,
        StatusCode::BadRequest => "400"@,
        StatusCode::NotFound => "404"@,
    }
}

/// The canonical reason phrase of each status.
pub open spec fn reason_chars(s: StatusCode) -> Seq<char> {
    match s {
        StatusCode::OK => "OK"@,
        StatusCode::BadRequest => "Bad Request"@,
        StatusCode::NotFound => "Not Found"@,
    }
}

impl StatusCode {
    /// The numeric code of this status.
    pub fn code(&self) -> (c: u16)
        ensures
            c == spec_code(*self),
    {
        match self {
            StatusCode::OK => 200,
            StatusCode::BadRequest => 400,
            StatusCode::NotFound => 404,
        }
    }

    /// The three decimal digits of this status, as text.
    pub fn code_str(&self) -> (r: &'static str)
        ensures
            r@ == code_chars(*self),
    {
        match self {
            StatusCode::OK => "200",
            StatusCode::BadRequest => "400",
            StatusCode::NotFound => "404",
        }
    }

    /// The canonical reason phrase of this status.
    pub fn reason_phrase(&self) -> (r: &'static str)
        ensures
            r@ == reason_chars(*self),
    {
        match self {
            StatusCode::OK => "OK",
            StatusCode::BadRequest => "Bad Request",
            StatusCode::NotFound => "Not Found",
        }
    }
}

} // verus!
