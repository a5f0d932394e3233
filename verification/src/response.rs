//! The response a handler builds, and its serialization to the wire form.

use vstd::prelude::*;
use vstd::string::StringSliceAdditionalSpecFns;
use vstd::utf8::encode_utf8;

use crate::status_code::{code_chars, reason_chars, StatusCode};

verus! {

/// A status and an optional body, built by a handler and serialized once.
/// The body text is owned; nothing borrows from a request buffer.
pub struct Response {
    status_code: StatusCode,
    body: Option<String>,
}

/// The model of a response: its status and its body's characters.
pub ghost struct ResponseModel {
    pub status: StatusCode,
    pub body: Option<Seq<char>>,
}

/// The characters of an optional body text.
pub open spec fn body_view(b: Option<String>) -> Option<Seq<char>> {
    match b {
        Some(s) => Some(s@),
        None => None,
    }
}

impl View for Response {
    type V = ResponseModel;

    closed spec fn view(&self) -> ResponseModel {
        ResponseModel { status: self.status_code, body: body_view(self.body) }
    }
}

/// The decimal digits of `n`, most significant first, as ASCII bytes.
pub open spec fn dec_bytes(n: nat) -> Seq<u8>
    decreases n,
{
    if n < 10 {
        seq![(48 + n) as u8]
    } else {
        dec_bytes(n / 10).push((48 + n % 10) as u8)
    }
}

/// The characters a response's body serializes as: a response without a body
/// writes an empty body.
pub open spec fn body_chars(r: ResponseModel) -> Seq<char> {
    match r.body {
        Some(b) => b,
        None => Seq::empty(),
    }
}

/// The wire form of a response: the status line `HTTP/1.1 <code> <reason>`,
/// a `Content-Length` header counting the body's UTF-8 bytes, a blank line,
/// then the body's bytes.
pub open spec fn spec_serialize(r: ResponseModel) -> Seq<u8> {
    encode_utf8("HTTP/1.1 "@) + encode_utf8(code_chars(r.status)) + encode_utf8(" "@)
        + encode_utf8(reason_chars(r.status)) + encode_utf8("\r\nContent-Length: "@) + dec_bytes(
        encode_utf8(body_chars(r)).len(),
    ) + encode_utf8("\r\n\r\n"@) + encode_utf8(body_chars(r))
}

/// Serializing equal responses yields byte-identical output: the wire form
/// is a function of the response alone.
pub proof fn lemma_serialize_repeatable(r1: ResponseModel, r2: ResponseModel)
    requires
        r1 == r2,
    ensures
        spec_serialize(r1) == spec_serialize(r2),
{
}

/// Appends the UTF-8 bytes of `s` to `out`.
fn append_str(out: &mut Vec<u8>, s: &str)
    ensures
        final(out)@ == old(out)@ + s.spec_bytes(),
        s.spec_bytes().len() <= usize::MAX,
{
    let b = s.as_bytes();
    let mut i: usize = 0;
    proof {
        assert(out@ =~= old(out)@ + b@.subrange(0, 0));
    }
    while i < b.len()
        invariant
            b@ == s.spec_bytes(),
            i <= b@.len(),
            out@ == old(out)@ + b@.subrange(0, i as int),
        decreases b@.len() - i,
    {
        out.push(b[i]);
        proof {
            assert(out@ =~= old(out)@ + b@.subrange(0, i + 1));
        }
        i = i + 1;
    }
    proof {
        assert(b@.subrange(0, b@.len() as int) =~= b@);
    }
}

/// Appends the decimal digits of `n` to `out`.
fn append_dec(out: &mut Vec<u8>, n: usize)
    ensures
        final(out)@ == old(out)@ + dec_bytes(n as nat),
    decreases n,
{
    if n >= 10 {
        append_dec(out, n / 10);
        out.push(48 + (n % 10) as u8);
        proof {
            assert(out@ =~= old(out)@ + dec_bytes(n as nat));
        }
    } else {
        out.push(48 + n as u8);
        proof {
            assert(out@ =~= old(out)@ + dec_bytes(n as nat));
        }
    }
}

impl Response {
    /// A response with the given status and optional body.
    pub fn new(status_code: StatusCode, body: Option<String>) -> (r: Response)
        ensures
            r@ == (ResponseModel { status: status_code, body: body_view(body) }),
    {
        Response { status_code, body }
    }

    /// The status of this response.
    pub fn status_code(&self) -> (s: StatusCode)
        ensures
            s == self@.status,
    {
        self.status_code
    }

    /// The body of this response.
    pub fn body(&self) -> (b: &Option<String>)
        ensures
            body_view(*b) == self@.body,
    {
        &self.body
    }

    /// Serializes this response to its wire form and appends the bytes to
    /// `out`: the status line, the Content-Length header, a blank line, then
    /// the body.
    pub fn send(&self, out: &mut Vec<u8>)
        ensures
            final(out)@ == old(out)@ + spec_serialize(self@),
    {
        append_str(out, "HTTP/1.1 ");
        append_str(out, self.status_code.code_str());
        append_str(out, " ");
        append_str(out, self.status_code.reason_phrase());
        append_str(out, "\r\nContent-Length: ");
        let blen: usize = match &self.body {
            Some(b) => b.as_str().len(),
            None => 0,
        };
        append_dec(out, blen);
        append_str(out, "\r\n\r\n");
        match &self.body {
            Some(b) => append_str(out, b.as_str()),
            None => {},
        }
        proof {
            assert(out@ =~= old(out)@ + spec_serialize(self@));
        }
    }
}

} // verus!
