//! Request-scoped error-context propagation for asynchronous handlers.
//!
//! For every inbound request the middleware captures the request headers into
//! an immutable [`context::RequestContext`], makes that snapshot visible to
//! arbitrarily deep handler code through an ambient slot that is installed
//! around every driving step of the handler, and restores the previous slot
//! value on every exit path, so that a fault handler running inside the scope
//! can read the context of exactly the request that faulted.

pub mod ambient;
pub mod context;
pub mod headers;
pub mod middleware;
