//! The plain-value model of the HTTP messages the invoker handles: the
//! method, target path and body bytes of a request, and the status code and
//! body bytes of a response.

use vstd::prelude::*;

verus! {

/// The HTTP methods a request value can carry.
#[derive(Clone, Copy, PartialEq, Eq, Structural, Debug)]
pub enum Method {
    Get,
    Post,
    Put,
    Delete,
    Head,
    Options,
    Patch,
}

impl Method {
    /// The method's token on the wire, as a sequence of characters.
    pub open spec fn token(self) -> Seq<char> {
        match self {
            Method::Get => "GET"@,
            Method::Post => "POST"@,
            Method::Put => "PUT"@,
            Method::Delete => "DELETE"@,
            Method::Head => "HEAD"@,
            Method::Options => "OPTIONS"@,
            Method::Patch => "PATCH"@,
        }
    }

    /// The method's token on the wire.
    pub fn as_str(&self) -> (r: &'static str)
        ensures
            r@ == self.token(),
    {
        match self {
            Method::Get => "GET",
            Method::Post => "POST",
            Method::Put => "PUT",
            Method::Delete => "DELETE",
            Method::Head => "HEAD",
            Method::Options => "OPTIONS",
            Method::Patch => "PATCH",
        }
    }
}

/// Whether a sequence of characters is the token of one of the methods
/// above.
pub open spec fn is_method_token(s: Seq<char>) -> bool {
    ||| s == "GET"@
    ||| s == "POST"@
    ||| s == "PUT"@
    ||| s == "DELETE"@
    ||| s == "HEAD"@
    ||| s == "OPTIONS"@
    ||| s == "PATCH"@
}

/// Every method's token is a method token.
pub proof fn lemma_token_is_method_token(m: Method)
    ensures
        is_method_token(m.token()),
{
}

/// An HTTP request as the invoker models it: a method, a target path and
/// the body bytes, held as plain values.
#[derive(Debug)]
pub struct RequestValue {
    pub method: Method,
    pub path: String,
    pub body: Vec<u8>,
}

impl RequestValue {
    /// Builds a request value from its parts, exactly as given.
    pub fn new(method: Method, path: String, body: Vec<u8>) -> (r: RequestValue)
        ensures
            r.method == method,
            r.path@ == path@,
            r.body@ == body@,
    {
        RequestValue { method, path, body }
    }

    /// The minimal request that a convenience GET dispatches: method GET,
    /// the given target path, and an empty body.
    pub fn get_request(path: String) -> (r: RequestValue)
        ensures
            r.method == Method::Get,
            r.path@ == path@,
            r.body@ == Seq::<u8>::empty(),
    {
        RequestValue { method: Method::Get, path, body: Vec::new() }
    }
}

/// An HTTP response as the invoker models it: the status code and the body
/// bytes, held as plain values.
#[derive(Debug)]
pub struct ResponseValue {
    pub status: u16,
    pub body: Vec<u8>,
}

impl ResponseValue {
    /// Assembles the response exactly from the parts a dispatch produced:
    /// neither the status nor a body byte is altered.
    pub fn from_parts(status: u16, body: Vec<u8>) -> (r: ResponseValue)
        ensures
            r.status == status,
            r.body@ == body@,
    {
        ResponseValue { status, body }
    }
}

/// Why an invocation failed without producing a response.
#[derive(Clone, Copy, PartialEq, Eq, Structural, Debug)]
pub enum InvokeError {
    /// The request's target path is not a syntactically valid URI, so no
    /// request could be built from it.
    InvalidPath,
    /// The dispatch machinery itself failed while producing the response;
    /// an HTTP error status is not this error but a normal response.
    DispatchFailed,
}

} // verus!
