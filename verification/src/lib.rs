//! A multi-tenant functions-as-a-service host: inbound HTTP requests are
//! routed by `(hostname, path)` to a stored script, which runs in an isolated
//! per-request environment and whose side effects produce the HTTP response.
//!
//! This crate holds the verified execution core: the script-value object
//! model, the header/request/response marshaling layer, the host functions
//! exposed into the sandbox, the per-request execution state machine, and the
//! lambda store's upsert/lookup semantics. The unverified plumbing around it
//! (HTTP listener, script engine bindings, outbound transport) lives outside
//! this crate and talks to it through plain values.

pub mod engine;
pub mod foreign;
pub mod functions;
pub mod headers;
pub mod request;
pub mod response;
pub mod script;
pub mod store;
pub mod traits;
