//! The mock client itself: it owns one axum `Router` (the handler graph)
//! and dispatches requests into it as direct, in-memory calls.

use vstd::prelude::*;

use crate::message::{InvokeError, Method, RequestValue, ResponseValue};
use crate::message::is_method_token;

verus! {

/// Declares axum's `Router` for Verus: the handler graph type the client
/// owns. Its value is opaque here; only the trusted dispatch call below
/// reads it.
#[verifier::external_type_specification]
#[verifier::external_body]
#[verifier::reject_recursive_types(S)]
#[verifier::reject_recursive_types(B)]
pub struct ExRouter<S, B>(axum::Router<S, B>);

/// Declares hyper's `Body` for Verus: the body type of dispatched requests.
#[verifier::external_type_specification]
#[verifier::external_body]
pub struct ExBody(hyper::Body);

/// Declares hyper's `Request` for Verus: the wire-shaped request handed to
/// the handler graph.
#[verifier::external_type_specification]
#[verifier::external_body]
#[verifier::reject_recursive_types(T)]
pub struct ExRequest<T>(hyper::Request<T>);

/// Whether hyper's URI parser accepts the string: the outcome of
/// `http::Uri::try_from` on it, which depends on the characters alone.
pub uninterp spec fn uri_parsable(s: Seq<char>) -> bool;

/// Relies on the request `Builder` behind `hyper::Request::builder`: each
/// step stores the first error, and `body` returns the request if and only
/// if no step failed. With a valid method token, the one fallible step is
/// `Uri::try_from` on the target, so building succeeds exactly when the
/// path parses as a URI.
#[verifier::external_body]
fn build_request(method: &str, path: &str, body: Vec<u8>) -> (r: Option<
    hyper::Request<hyper::Body>,
>)
    requires
        is_method_token(method@),
    ensures
        r is Some <==> uri_parsable(path@),
{
    hyper::Request::builder().method(method).uri(path).body(hyper::Body::from(body)).ok()
}

/// Relies on the `tower::Service` impl of `axum::Router` (hyper re-exports
/// the trait as `hyper::service::Service`): its error type is `Infallible`,
/// so awaiting `call` always yields a response; and on
/// `hyper::body::to_bytes` to collect that response's body. Returns the
/// response's status code, which `http::StatusCode` keeps within 100..=999,
/// and the collected body bytes; `Err` when collecting the body stream
/// fails.
#[verifier::external_body]
fn dispatch(svc: &mut axum::Router, req: hyper::Request<hyper::Body>) -> (r: Result<
    (u16, Vec<u8>),
    (),
>)
    ensures
        r matches Ok(p) ==> 100 <= p.0 <= 999,
{
    let resp = match futures::executor::block_on(hyper::service::Service::call(svc, req)) {
        Ok(resp) => resp,
        Err(e) => match e {},
    };
    let status = resp.status().as_u16();
    match futures::executor::block_on(hyper::body::to_bytes(resp.into_body())) {
        Ok(bytes) => Ok((status, bytes.to_vec())),
        Err(_) => Err(()),
    }
}

/// The mock client: owns a single handler graph for its whole lifetime and
/// turns requests into direct dispatch calls on it.
pub struct MockClient {
    svc: axum::Router,
}

impl MockClient {
    /// The handler graph the client holds.
    pub closed spec fn graph(self) -> axum::Router {
        self.svc
    }

    /// Creates a new mock client; it takes ownership of the handler graph
    /// and stores it unchanged. Never fails.
    pub fn new(svc: axum::Router) -> (r: MockClient)
        ensures
            r.graph() == svc,
    {
        MockClient { svc }
    }

    /// Dispatches a caller-built request value through the held handler
    /// graph, exactly once, and returns the response the graph produced,
    /// assembled with no field altered. An unparsable target path is the
    /// one malformed input: it is reported as `InvalidPath`, never masked
    /// by a default response; a failure of the dispatch machinery itself is
    /// reported as `DispatchFailed`.
    pub fn request(&mut self, req: RequestValue) -> (r: Result<ResponseValue, InvokeError>)
        ensures
            (r matches Err(e) && e == InvokeError::InvalidPath) <==> !uri_parsable(req.path@),
            r matches Ok(resp) ==> 100 <= resp.status <= 999,
    {
        let RequestValue { method, path, body } = req;
        proof {
            crate::message::lemma_token_is_method_token(method);
        }
        match build_request(method.as_str(), path.as_str(), body) {
            None => Err(InvokeError::InvalidPath),
            Some(hreq) => match dispatch(&mut self.svc, hreq) {
                Ok((status, bytes)) => Ok(ResponseValue::from_parts(status, bytes)),
                Err(_) => Err(InvokeError::DispatchFailed),
            },
        }
    }

    /// Convenience GET: builds the minimal request — method GET, the given
    /// target path, an empty body — and dispatches it like `request`.
    pub fn get(&mut self, path: String) -> (r: Result<ResponseValue, InvokeError>)
        ensures
            (r matches Err(e) && e == InvokeError::InvalidPath) <==> !uri_parsable(path@),
            r matches Ok(resp) ==> 100 <= resp.status <= 999,
    {
        self.request(RequestValue::get_request(path))
    }
}

} // verus!
