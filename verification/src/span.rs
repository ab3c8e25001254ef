//! The per-request span: an ephemeral structured record whose fields are
//! fixed at creation, except one write-once status slot.

use vstd::prelude::*;

use crate::request::spec_field_or_empty;
use crate::request::Outcome;
use crate::request::RequestMetadata;

verus! {

/// The constant marker identifying a span as a request span.
pub open spec fn spec_request_kind() -> Seq<char> {
    "request"@
}

/// One request's span. Created at the start of an instrumented request,
/// enriched with the status code once the downstream call settles, and closed
/// when the wrapping scope exits.
///
/// `status_code` is declared unset at creation and written exactly once,
/// after the downstream outcome is observed — never before and never twice.
/// `enduser_id` is declared unset and reserved for downstream layers; this
/// wrapper never writes it, but the slot exists so they can fill it in.
#[derive(Debug)]
pub struct RequestSpan {
    pub kind: String,
    pub request_id: u128,
    pub status_code: Option<u16>,
    pub enduser_id: Option<String>,
    pub service_name: String,
    pub http_user_agent: String,
    pub http_method: String,
    pub http_target: String,
    pub http_route: String,
}

impl RequestSpan {
    /// The fields fixed at creation: the span carries the request's metadata
    /// verbatim, the configured service name, the given correlation
    /// identifier, the constant kind marker, and an untouched `enduser.id`.
    pub open spec fn describes(
        &self,
        service_name: Seq<char>,
        meta: RequestMetadata,
        request_id: u128,
    ) -> bool {
        &&& self.kind@ == spec_request_kind()
        &&& self.request_id == request_id
        &&& self.enduser_id is None
        &&& self.service_name@ == service_name
        &&& self.http_user_agent@ == spec_field_or_empty(meta.user_agent)
        &&& self.http_method@ == meta.method@
        &&& self.http_target@ == meta.path@
        &&& self.http_route@ == spec_field_or_empty(meta.route)
    }

    /// A span as creation leaves it: describing its request, status unset.
    pub open spec fn fresh_for(
        &self,
        service_name: Seq<char>,
        meta: RequestMetadata,
        request_id: u128,
    ) -> bool {
        &&& self.describes(service_name, meta, request_id)
        &&& self.status_code is None
    }

    /// A span as completion leaves it: describing its request, status set to
    /// the downstream outcome's code.
    pub open spec fn recorded_for(
        &self,
        service_name: Seq<char>,
        meta: RequestMetadata,
        request_id: u128,
        status: u16,
    ) -> bool {
        &&& self.describes(service_name, meta, request_id)
        &&& self.status_code == Some(status)
    }

    /// This span with its status slot filled and every other field untouched.
    pub open spec fn with_status(self, status: u16) -> RequestSpan {
        RequestSpan { status_code: Some(status), ..self }
    }

    /// Writes the status code into the span's write-once slot. The single
    /// write site: callable only while the slot is unset, and the only change
    /// it makes.
    pub fn record_status_code(&mut self, status: u16)
        requires
            old(self).status_code is None,
        ensures
            *final(self) == old(self).with_status(status),
    {
        self.status_code = Some(status);
    }
}

/// Builds a fresh span for an instrumented request: metadata captured
/// verbatim, absent properties degraded to the empty string, the status and
/// end-user slots declared unset.
pub fn new_request_span(
    service_name: &String,
    meta: &RequestMetadata,
    request_id: u128,
) -> (s: RequestSpan)
    ensures
        s.fresh_for(service_name@, *meta, request_id),
{
    let user_agent: String = match &meta.user_agent {
        Some(text) => text.clone(),
        None => "".to_owned(),
    };
    let route: String = match &meta.route {
        Some(pattern) => pattern.clone(),
        None => "".to_owned(),
    };
    RequestSpan {
        kind: "request".to_owned(),
        request_id,
        status_code: None,
        enduser_id: None,
        service_name: service_name.clone(),
        http_user_agent: user_agent,
        http_method: meta.method.clone(),
        http_target: meta.path.clone(),
        http_route: route,
    }
}

/// Observes a settled downstream outcome: derives its status code, records it
/// on the span, and propagates the outcome itself unchanged — the wrapper
/// never alters the response or the failure payload.
pub fn record_outcome<B, E>(span: &mut RequestSpan, outcome: Outcome<B, E>) -> (r: Outcome<B, E>)
    requires
        old(span).status_code is None,
    ensures
        r == outcome,
        *final(span) == old(span).with_status(outcome.spec_status()),
{
    let status = outcome.status();
    span.record_status_code(status);
    outcome
}

/// The status slot is written exactly once, and only on completion: a span as
/// creation leaves it has `http.status_code` unset, recording a status turns
/// it into the completed span for that status, and the write changes no other
/// field — so the recorded span still describes the same request.
pub proof fn lemma_status_recorded_once(
    span: RequestSpan,
    service_name: Seq<char>,
    meta: RequestMetadata,
    status: u16,
)
    requires
        span.fresh_for(service_name, meta, span.request_id),
    ensures
        span.status_code is None,
        span.with_status(status).recorded_for(service_name, meta, span.request_id, status),
        span.with_status(status).status_code !is None,
{
}

} // verus!
