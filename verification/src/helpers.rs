//! Span helpers.
//!
//! Constructing a span against the current context, and rendering a
//! context's identifiers for logging. An identifier is only rendered while
//! its span is recording; otherwise the empty string says "no active
//! identifiable span", which callers must not treat as an error.
//!
//! The same identifier policy, stated exactly over plain values, is
//! [`crate::context::TraceContext::trace_id_hex`] and
//! [`crate::context::TraceContext::span_id_hex`].

use vstd::prelude::*;

use opentelemetry::global::BoxedTracer;
use opentelemetry::trace::{SpanKind, Tracer, TraceContextExt};
use opentelemetry::Context;

use crate::hex::{hex_seq, is_hex_seq};
use crate::otel::{context_is_recording, context_span_id_hex, context_trace_id_hex, ctx_linkage};

verus! {

/// Creates a new span context with the given kind and name.
///
/// Relies on Tracer::span_builder, SpanBuilder::start and
/// Context::current_with_span: the span is started as a child of the
/// current context, and the returned context holds it.
#[verifier::external_body]
pub fn ctx(tracer: &BoxedTracer, kind: SpanKind, name: &str) -> (r: Context) {
    let span = tracer.span_builder(name.to_owned()).with_kind(kind).start(tracer);
    Context::current_with_span(span)
}

/// The trace identifier of the context's active span while it is
/// recording, as 32 lowercase hex digits; the empty string otherwise. A
/// non-empty result is exactly the hex form of the context's own trace
/// identifier, and a context without a span linkage always yields the
/// empty string.
pub fn trace_id(ctx: &Context) -> (r: String)
    ensures
        r@.len() == 32 || r@.len() == 0,
        r@.len() == 32 ==> is_hex_seq(r@),
        ctx_linkage(*ctx) is None ==> r@.len() == 0,
        r@.len() == 32 ==> (ctx_linkage(*ctx) matches Some(sc) && r@ == hex_seq(
            sc.trace_id as int,
            32,
        )),
{
    if context_is_recording(ctx) {
        return context_trace_id_hex(ctx);
    }
    String::new()
}

/// The span identifier of the context's active span while it is
/// recording, as 16 lowercase hex digits; the empty string otherwise. A
/// non-empty result is exactly the hex form of the context's own span
/// identifier, and a context without a span linkage always yields the
/// empty string.
pub fn span_id(ctx: &Context) -> (r: String)
    ensures
        r@.len() == 16 || r@.len() == 0,
        r@.len() == 16 ==> is_hex_seq(r@),
        ctx_linkage(*ctx) is None ==> r@.len() == 0,
        r@.len() == 16 ==> (ctx_linkage(*ctx) matches Some(sc) && r@ == hex_seq(
            sc.span_id as int,
            16,
        )),
{
    if context_is_recording(ctx) {
        return context_span_id_hex(ctx);
    }
    String::new()
}

} // verus!
