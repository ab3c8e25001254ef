//! The middleware factory and the per-pipeline request wrapper.

use vstd::prelude::*;

use crate::request::Outcome;
use crate::request::RequestMetadata;
use crate::request_id::fresh_request_id;
use crate::request_id::spec_v4_layout;
use crate::span::new_request_span;
use crate::span::record_outcome;
use crate::span::RequestSpan;

verus! {

/// The path that is exempt from instrumentation: health probes are
/// high-frequency and low-value to trace, so they must not create spans.
pub open spec fn spec_bypass_path() -> Seq<char> {
    "/healthz"@
}

/// Decides whether a request path is the designated bypass path
/// (exact, case-sensitive match).
pub fn is_bypass_path(path: &str) -> (r: bool)
    ensures
        r == (path@ == spec_bypass_path()),
{
    let p: String = path.to_owned();
    let b: String = "/healthz".to_owned();
    p == b
}

/// The middleware factory: holds the configured service name and produces a
/// request wrapper bound to a downstream pipeline stage.
pub struct TracingLogger {
    pub service_name: String,
}

impl TracingLogger {
    /// Creates a factory for the given service name; any string is legal.
    pub fn new(service_name: String) -> (r: TracingLogger)
        ensures
            r.service_name == service_name,
    {
        TracingLogger { service_name }
    }

    /// Binds a wrapper to a downstream stage. Callable any number of times;
    /// each wrapper shares the same configuration and owns its own stage.
    /// Construction never fails.
    pub fn new_transform<S>(&self, service: S) -> (r: TracingLoggerMiddleware<S>)
        ensures
            r.service_name == self.service_name,
            r.service == service,
    {
        TracingLoggerMiddleware { service_name: self.service_name.clone(), service }
    }
}

/// The request wrapper: one per constructed pipeline, holding the configured
/// service name and the downstream stage it delegates to. It keeps no
/// per-request state; everything a request needs lives in the handling call.
pub struct TracingLoggerMiddleware<S> {
    pub service_name: String,
    pub service: S,
}

impl<S> TracingLoggerMiddleware<S> {
    /// Handles one request: decides whether to instrument it, brackets the
    /// downstream stage `next` with a span when it does, records the settled
    /// outcome's status code on the span, and returns the outcome unchanged.
    ///
    /// On the bypass path no span is created and the outcome is exactly what
    /// the downstream stage produced on the request. On every other path
    /// exactly one span is created; it carries the request's metadata and the
    /// configured service name, its correlation identifier has the fixed
    /// version-4 bit layout, and its status slot holds the outcome's code.
    pub fn handle<B, E, F: FnOnce(RequestMetadata) -> Outcome<B, E>>(
        &self,
        req: RequestMetadata,
        next: F,
    ) -> (r: (Option<RequestSpan>, Outcome<B, E>))
        requires
            call_requires(next, (req,)),
        ensures
            call_ensures(next, (req,), r.1),
            req.path@ == spec_bypass_path() ==> r.0 is None,
            req.path@ != spec_bypass_path() ==> (r.0 matches Some(span)
                && span.recorded_for(self.service_name@, req, span.request_id, r.1.spec_status())
                && spec_v4_layout(span.request_id)),
    {
        if is_bypass_path(req.path.as_str()) {
            let outcome = next(req);
            return (None, outcome);
        }
        let request_id = fresh_request_id();
        let mut span = new_request_span(&self.service_name, &req, request_id);
        let outcome = next(req);
        let outcome = record_outcome(&mut span, outcome);
        (Some(span), outcome)
    }
}

} // verus!
