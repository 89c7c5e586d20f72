//! Extraction of trace context from remote-call metadata.
//!
//! A missing or malformed header is treated as absence of that facet: a
//! request with a corrupt trace header proceeds with a fresh root context,
//! never with an error.

use vstd::prelude::*;

use opentelemetry::global::{BoxedSpan, BoxedTracer};
use opentelemetry::Context;
use tonic::metadata::MetadataMap;

use crate::carrier::{
    encodable_metadata_key, is_encodable_metadata_key, lower_seq, meta_get, meta_keys, meta_text,
    valid_metadata_value,
};
use crate::context::TraceContext;
use crate::propagation::{
    lemma_header_key_facts, parse_traceparent, spec_extract_baggage, spec_extract_span,
};

verus! {

/// A read-only carrier view over a remote call's metadata, offering the
/// "get one value by key" and "enumerate keys" capabilities the
/// propagation format needs.
pub struct GRPCExtractor<'a>(pub &'a MetadataMap);

impl<'a> GRPCExtractor<'a> {
    /// Wraps a borrowed metadata map.
    pub fn new(m: &'a MetadataMap) -> (r: GRPCExtractor<'a>)
        ensures
            r.0 == m,
    {
        GRPCExtractor(m)
    }

    /// Reads one text value, looking the key up case-insensitively by
    /// its lowercase wire form. A key absent from the metadata, a key
    /// the metadata could not hold, or a value that is not text all
    /// yield nothing; nothing is ever raised.
    pub fn get(&self, key: &str) -> (r: Option<String>)
        ensures
            r matches Some(v) ==> encodable_metadata_key(key@) && meta_text(
                *self.0,
            ).contains_key(lower_seq(key@)) && v@ == meta_text(*self.0)[lower_seq(key@)]
                && valid_metadata_value(v@),
            r is None ==> (encodable_metadata_key(key@) ==> !meta_text(*self.0).contains_key(
                lower_seq(key@),
            )),
    {
        if is_encodable_metadata_key(key) {
            meta_get(self.0, key)
        } else {
            None
        }
    }

    /// Enumerates the carrier's keys: exactly the stored keys, one per
    /// key in map order, binary-marker keys in their plain string form.
    /// Every text-valued entry's key is among them.
    pub fn keys(&self) -> (r: Vec<String>)
        ensures
            r.deep_view() == crate::carrier::meta_all_keys(*self.0),
            forall|k: Seq<char>| #[trigger] meta_text(*self.0).contains_key(k)
                ==> crate::carrier::meta_all_keys(*self.0).contains(k),
    {
        meta_keys(self.0)
    }
}

/// Deserializes both facets from the carrier: the span linkage from its
/// header when present and well formed, the baggage from its header when
/// it parses whole. Anything missing or malformed yields that facet of a
/// fresh root context.
pub fn extract(meta: &MetadataMap) -> (r: TraceContext)
    ensures
        r.span == spec_extract_span(meta_text(*meta)),
        r.baggage.deep_view() == spec_extract_baggage(meta_text(*meta)),
        !r.recording,
        r.spec_well_formed(),
{
    proof {
        lemma_header_key_facts();
    }
    let span = match meta_get(meta, "traceparent") {
        Some(v) => parse_traceparent(v.as_str()),
        None => None,
    };
    let baggage = match meta_get(meta, "baggage") {
        Some(v) => match crate::baggage::parse_baggage(v.as_str()) {
            Some(entries) => entries,
            None => Vec::new(),
        },
        None => Vec::new(),
    };
    proof {
        if baggage@.len() == 0 {
            assert(baggage.deep_view() =~= Seq::<(Seq<char>, Seq<char>)>::empty());
        }
    }
    TraceContext { span, recording: false, baggage }
}

/// Recovers the inbound context from the metadata and starts a new span
/// within it. The returned context carries exactly the span linkage the
/// carrier's span-linkage header denotes, with the extracted baggage
/// attached; a carrier with no (or a malformed) header yields a root
/// context, so the request proceeds either way.
pub fn span(meta: &MetadataMap, tracer: &BoxedTracer) -> (r: (Context, BoxedSpan))
    ensures
        crate::otel::ctx_linkage(r.0) == spec_extract_span(meta_text(*meta)),
{
    let inbound = extract(meta);
    let linked = match &inbound.span {
        Some(sc) => {
            let flags: u8 = if sc.sampled {
                1
            } else {
                0
            };
            crate::otel::remote_context(sc.trace_id, sc.span_id, flags)
        },
        None => crate::otel::root_context(),
    };
    let parent = if inbound.baggage.len() > 0 {
        crate::otel::attach_baggage(linked, &inbound.baggage)
    } else {
        linked
    };
    let started = crate::otel::start_with_context(tracer, "gRPC", &parent);
    (parent, started)
}

} // verus!
