//! Structured request instrumentation for an HTTP middleware pipeline.
//!
//! A [`TracingLogger`] holds a service name and produces, for each downstream
//! pipeline stage, a [`TracingLoggerMiddleware`]: a wrapper that decides per
//! request whether to instrument it, builds a span of structured fields from
//! the request's metadata, delegates to the downstream stage, records the
//! resulting status code on the span exactly once, and hands the outcome back
//! unchanged.

pub mod middleware;
pub mod request;
pub mod request_id;
pub mod span;

pub use middleware::is_bypass_path;
pub use middleware::TracingLogger;
pub use middleware::TracingLoggerMiddleware;
pub use request::Outcome;
pub use request::RequestMetadata;
pub use request_id::fresh_request_id;
pub use span::new_request_span;
pub use span::record_outcome;
pub use span::RequestSpan;
