//! The middleware chain, composed in its fixed order around the (external)
//! handler: sensitive names are configured first, the correlation id is
//! assigned before anything is logged, the request event is built before
//! dispatch, the response event after it, and the id is written onto the
//! response headers last so that nothing overwrites it.
//!
//! The caller runs the handler between [`ObservabilityPipeline::on_request`]
//! and [`ObservabilityPipeline::on_response`] and emits the returned events.

use vstd::prelude::*;
use crate::correlation::{
    correlation_entry, correlation_header_name, find_correlation_value,
    inbound_correlation_value, is_fresh_token, provide_correlation_id, with_correlation_header,
    CorrelationId, propagate_correlation_id,
};
use crate::events::{
    build_request_event, build_response_event, spec_request_event, spec_response_event,
    RequestEvent, ResponseEvent,
};
use crate::headers::{HeaderEntry, HeaderModel, models_of};
use crate::sensitive::SensitiveNameSet;
use crate::text::{ascii_bytes, ascii_chars, is_text_safe};

verus! {

/// An inbound request in the library's plain form: the method, the URI, and
/// the headers in received order.
pub struct InboundRequest {
    pub method: String,
    pub uri: String,
    pub headers: Vec<HeaderEntry>,
}

/// The request-scoped context: the correlation id assigned at request entry,
/// owned by the one task handling the request.
pub struct RequestContext {
    pub correlation_id: CorrelationId,
}

/// The composed middleware chain around the routing engine.
pub struct ObservabilityPipeline {
    pub sensitive: SensitiveNameSet,
}

impl ObservabilityPipeline {
    /// Composes the chain over the given sensitive-name configuration.
    pub fn new(sensitive: SensitiveNameSet) -> (r: Self)
        ensures
            r.sensitive == sensitive,
    {
        ObservabilityPipeline { sensitive }
    }

    /// Composes the chain over the default configuration, in which the
    /// access-token header is sensitive.
    pub fn with_default_redaction() -> (r: Self)
        ensures
            r.sensitive@ == seq!["access-token"@],
    {
        ObservabilityPipeline { sensitive: SensitiveNameSet::with_default_names() }
    }

    /// The request-side stages, in order: read or assign the correlation id,
    /// then build the request event over the received headers (sensitive
    /// values masked, the correlation header excluded). The request is left
    /// as received, except that the correlation header is added when it was
    /// absent; a present header, even a malformed one, is never rewritten.
    pub fn on_request(&self, req: &mut InboundRequest) -> (out: (RequestEvent, RequestContext))
        ensures
            out.1.correlation_id.wf(),
            match inbound_correlation_value(models_of(old(req).headers@)) {
                Some(v) => if is_text_safe(v) {
                    out.1.correlation_id@ == ascii_chars(v)
                } else {
                    is_fresh_token(out.1.correlation_id@)
                },
                None => is_fresh_token(out.1.correlation_id@),
            },
            out.0@ == spec_request_event(
                old(req).method@,
                old(req).uri@,
                models_of(old(req).headers@),
                self.sensitive@,
                out.1.correlation_id@,
            ),
            final(req).method == old(req).method,
            final(req).uri == old(req).uri,
            if inbound_correlation_value(models_of(old(req).headers@)) is Some {
                final(req).headers == old(req).headers
            } else {
                models_of(final(req).headers@) == models_of(old(req).headers@).push(
                    HeaderModel {
                        name: correlation_header_name(),
                        value: ascii_bytes(out.1.correlation_id@),
                    },
                )
            },
    {
        let inbound = find_correlation_value(&req.headers);
        let had_header = inbound.is_some();
        let id = provide_correlation_id(inbound);
        let event = build_request_event(
            req.method.as_str(),
            req.uri.as_str(),
            &req.headers,
            &self.sensitive,
            &id,
        );
        if !had_header {
            let ghost before = req.headers@;
            let entry = correlation_entry(&id);
            req.headers.push(entry);
            proof {
                assert(models_of(req.headers@) =~= models_of(before).push(
                    HeaderModel {
                        name: correlation_header_name(),
                        value: ascii_bytes(id@),
                    },
                ));
            }
        }
        (event, RequestContext { correlation_id: id })
    }

    /// The response-side stages, in order: build the response event with the
    /// status and the measured latency, then copy the correlation id onto the
    /// response headers, overwriting whatever the handler set there. Any
    /// response, success or error, gets its event and its id.
    pub fn on_response(
        &self,
        ctx: &RequestContext,
        status: u16,
        latency_micros: u64,
        response_headers: &mut Vec<HeaderEntry>,
    ) -> (ev: ResponseEvent)
        requires
            ctx.correlation_id.wf(),
        ensures
            ev@ == spec_response_event(ctx.correlation_id@, status, latency_micros),
            models_of(final(response_headers)@) == with_correlation_header(
                models_of(old(response_headers)@),
                ctx.correlation_id@,
            ),
    {
        let ev = build_response_event(&ctx.correlation_id, status, latency_micros);
        propagate_correlation_id(response_headers, &ctx.correlation_id);
        ev
    }
}

/// One exchange, one id: the request event and the response event built from
/// the same request context carry the same correlation id.
pub proof fn lemma_exchange_events_share_id(
    method: Seq<char>,
    uri: Seq<char>,
    entries: Seq<HeaderModel>,
    names: Seq<Seq<char>>,
    id: Seq<char>,
    status: u16,
    latency_micros: u64,
)
    ensures
        spec_request_event(method, uri, entries, names, id).correlation_id == id,
        spec_response_event(id, status, latency_micros).correlation_id == id,
{
}

} // verus!
