//! An in-process invoker for axum handler graphs: it owns a `Router` and
//! turns "send an HTTP request" into a direct, in-memory dispatch call,
//! bypassing any network transport, so tests can assert on the response.

pub mod client;
pub mod message;
